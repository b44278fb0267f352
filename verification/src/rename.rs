//! Renaming tracks and buses, and picking track colors: the inline rename field, when a
//! rename takes effect, and the per-track overrides it leaves behind.
//!
//! Colors are whatever the caller uses for them (`C`); this module only moves them around.

use vstd::prelude::*;

use crate::shortcuts::WorkspacePaneKind;
use crate::text::{chars_of, spec_trim, string_from_chars, trim_str};

verus! {

/// What is being renamed.
#[derive(Debug, Clone, Copy, PartialEq, Eq, Structural)]
pub enum RenameTarget {
    Track(usize),
    Bus(u16),
}

/// A rename that takes effect.
#[derive(Debug, Clone, PartialEq, Eq)]
pub enum RenameCommit {
    /// Track `track_index` takes the typed `value` as its name override (tidied by the
    /// track-name rules), and the settings are saved.
    Track { track_index: usize, value: String },
    /// Bus `bus_id` is named `name`: the typed value trimmed, never empty.
    Bus { bus_id: u16, name: String },
}

/// The state of the inline rename field and of the track color picker.
#[derive(Debug, Clone)]
pub struct TrackRenameState<C> {
    /// What is being renamed.
    pub target: Option<RenameTarget>,
    /// The pane the rename was started from.
    pub origin: Option<WorkspacePaneKind>,
    /// The track, and the pane, whose color picker is open on its own.
    pub color_picker_target: Option<(usize, WorkspacePaneKind)>,
    /// Whether the rename field has had the focus.
    pub was_focused: bool,
    /// The typed name.
    pub value: String,
    /// Whether the color picker is open.
    pub color_picker_open: bool,
    /// The color shown while renaming or picking.
    pub color_value: C,
}

/// The state after a pending rename was applied: nothing is renamed and the field and
/// picker are closed; the color is kept.
pub open spec fn spec_after_apply<C>(old: TrackRenameState<C>, new: TrackRenameState<C>) -> bool {
    &&& new.target is None
    &&& new.origin is None
    &&& new.color_picker_target is None
    &&& !new.was_focused
    &&& new.value@.len() == 0
    &&& !new.color_picker_open
    &&& new.color_value == old.color_value
}

/// The rename that applying the pending one gives: none when nothing is renamed, or when a
/// bus would get an empty name.
pub open spec fn spec_pending_commit<C>(s: TrackRenameState<C>, r: Option<RenameCommit>) -> bool {
    match s.target {
        None => r is None,
        Some(RenameTarget::Track(i)) => r matches Some(RenameCommit::Track { track_index, value })
            && track_index == i && value@ == s.value@,
        Some(RenameTarget::Bus(b)) => if spec_trim(s.value@).len() == 0 {
            r is None
        } else {
            r matches Some(RenameCommit::Bus { bus_id, name }) && bus_id == b && name@ == spec_trim(
                s.value@,
            )
        },
    }
}

/// The track whose color the rename field or the picker shows: the picker's own track, or
/// else the track being renamed.
pub open spec fn spec_color_track<C>(s: TrackRenameState<C>) -> Option<usize> {
    match s.color_picker_target {
        Some((track, _)) => Some(track),
        None => match s.target {
            Some(RenameTarget::Track(i)) => Some(i),
            _ => None,
        },
    }
}

/// The track that a submitted color goes to: the track being renamed, or else the picker's
/// own track.
pub open spec fn spec_color_override_track<C>(s: TrackRenameState<C>) -> Option<usize> {
    match s.target {
        Some(RenameTarget::Track(i)) => Some(i),
        _ => match s.color_picker_target {
            Some((track, _)) => Some(track),
            None => None,
        },
    }
}

impl<C: Copy> TrackRenameState<C> {
    /// Nothing renamed, nothing picked.
    pub fn new(color: C) -> (s: Self)
        ensures
            s.target is None,
            s.origin is None,
            s.color_picker_target is None,
            !s.was_focused,
            s.value@.len() == 0,
            !s.color_picker_open,
            s.color_value == color,
    {
        TrackRenameState {
            target: None,
            origin: None,
            color_picker_target: None,
            was_focused: false,
            value: String::new(),
            color_picker_open: false,
            color_value: color,
        }
    }

    /// Applies the pending rename, if any, and closes the field and the picker.
    pub fn apply_pending(&mut self) -> (r: Option<RenameCommit>)
        ensures
            spec_pending_commit(*old(self), r),
            old(self).target is Some ==> spec_after_apply(*old(self), *final(self)),
            old(self).target is None ==> *final(self) == *old(self),
    {
        let target = match self.target {
            Some(target) => target,
            None => return None,
        };
        self.target = None;
        self.origin = None;
        self.was_focused = false;
        self.color_picker_open = false;
        self.color_picker_target = None;
        let mut typed = String::new();
        std::mem::swap(&mut typed, &mut self.value);
        match target {
            RenameTarget::Track(track_index) => Some(RenameCommit::Track { track_index, value: typed }),
            RenameTarget::Bus(bus_id) => {
                let name = trim_str(typed.as_str());
                if name.as_str().is_empty() {
                    None
                } else {
                    Some(RenameCommit::Bus { bus_id, name })
                }
            },
        }
    }

    /// Starts renaming `target` from `origin`, with `name` typed and `color` shown: a rename of
    /// another target that was pending is applied first, and the picker closes.
    pub fn start(&mut self, target: RenameTarget, origin: WorkspacePaneKind, name: String, color: C) -> (r:
        Option<RenameCommit>)
        ensures
            (old(self).target is Some && old(self).target != Some(target)) ==> spec_pending_commit(
                *old(self),
                r,
            ),
            !(old(self).target is Some && old(self).target != Some(target)) ==> r is None,
            final(self).target == Some(target),
            final(self).origin == Some(origin),
            final(self).color_picker_target is None,
            !final(self).was_focused,
            final(self).value@ == name@,
            !final(self).color_picker_open,
            final(self).color_value == color,
    {
        let mut commit = None;
        if self.target.is_some() && self.target != Some(target) {
            commit = self.apply_pending();
        }
        self.target = Some(target);
        self.origin = Some(origin);
        self.color_picker_target = None;
        self.was_focused = false;
        self.value = name;
        self.color_picker_open = false;
        self.color_value = color;
        commit
    }

    /// Takes a new typed value, cut to its first `max_chars` characters.
    pub fn update_value(&mut self, value: &str, max_chars: usize)
        ensures
            final(self).value@ == if value@.len() <= max_chars {
                value@
            } else {
                value@.take(max_chars as int)
            },
            final(self).target == old(self).target,
            final(self).origin == old(self).origin,
            final(self).color_picker_target == old(self).color_picker_target,
            final(self).was_focused == old(self).was_focused,
            final(self).color_picker_open == old(self).color_picker_open,
            final(self).color_value == old(self).color_value,
    {
        let mut chars = chars_of(value);
        chars.truncate(max_chars);
        self.value = string_from_chars(&chars);
    }

    /// Drops the rename and closes the picker. The shown color goes back to `restore`, the
    /// resolved color of the track that was shown, when there was one.
    pub fn cancel(&mut self, restore: Option<C>)
        ensures
            final(self).target is None,
            final(self).origin is None,
            final(self).color_picker_target is None,
            !final(self).was_focused,
            final(self).value@.len() == 0,
            !final(self).color_picker_open,
            final(self).color_value == match (spec_color_track(*old(self)), restore) {
                (Some(_), Some(c)) => c,
                _ => old(self).color_value,
            },
    {
        if self.color_track().is_some() {
            if let Some(color) = restore {
                self.color_value = color;
            }
        }
        self.target = None;
        self.origin = None;
        self.color_picker_target = None;
        self.was_focused = false;
        self.value = String::new();
        self.color_picker_open = false;
    }

    /// The track whose color the field or the picker shows.
    pub fn color_track(&self) -> (r: Option<usize>)
        ensures
            r == spec_color_track(*self),
    {
        match self.color_picker_target {
            Some((track, _)) => Some(track),
            None => match self.target {
                Some(RenameTarget::Track(i)) => Some(i),
                _ => None,
            },
        }
    }

    /// The rename field gained or lost the focus. Losing it after having had it commits the
    /// rename, unless the color picker is open.
    pub fn handle_focus_changed(&mut self, focused: bool) -> (r: Option<RenameCommit>)
        ensures
            old(self).target is None ==> r is None && *final(self) == (TrackRenameState {
                was_focused: false,
                ..*old(self)
            }),
            old(self).target is Some && focused ==> r is None && *final(self) == (TrackRenameState {
                was_focused: true,
                ..*old(self)
            }),
            old(self).target is Some && !focused && (old(self).color_picker_open
                || !old(self).was_focused) ==> r is None && *final(self) == *old(self),
            old(self).target is Some && !focused && !old(self).color_picker_open
                && old(self).was_focused ==> spec_pending_commit(*old(self), r) && spec_after_apply(
                *old(self),
                *final(self),
            ),
    {
        if self.target.is_none() {
            self.was_focused = false;
            return None;
        }
        if focused {
            self.was_focused = true;
            return None;
        }
        if self.color_picker_open {
            return None;
        }
        if self.was_focused {
            return self.apply_pending();
        }
        None
    }

    /// Whether track `track_index` is being renamed from `pane`.
    pub fn is_renaming_track_in(&self, track_index: usize, pane: WorkspacePaneKind) -> (r: bool)
        ensures
            r == (self.target == Some(RenameTarget::Track(track_index)) && self.origin == Some(pane)),
    {
        self.target == Some(RenameTarget::Track(track_index)) && self.origin == Some(pane)
    }

    /// Whether the picker is open on its own for track `track_index` in `pane`.
    pub fn is_picking_track_color_in(&self, track_index: usize, pane: WorkspacePaneKind) -> (r: bool)
        ensures
            r == (self.color_picker_target == Some((track_index, pane))),
    {
        match self.color_picker_target {
            Some((track, origin)) => track == track_index && origin == pane,
            None => false,
        }
    }

    /// The color track `track_index` is drawn with: the color being edited while that track
    /// is renamed, or picked from the piano roll, else its `resolved` color.
    pub fn effective_track_color(&self, track_index: usize, resolved: C) -> (r: C)
        ensures
            r == if self.target == Some(RenameTarget::Track(track_index))
                || self.color_picker_target == Some((track_index, WorkspacePaneKind::PianoRoll)) {
                self.color_value
            } else {
                resolved
            },
    {
        if self.target == Some(RenameTarget::Track(track_index)) {
            return self.color_value;
        }
        if self.is_picking_track_color_in(track_index, WorkspacePaneKind::PianoRoll) {
            return self.color_value;
        }
        resolved
    }

    /// Opens the picker from the rename field; while a track is renamed, it shows
    /// `renamed_track_color`, that track's resolved color.
    pub fn open_color_picker(&mut self, renamed_track_color: C)
        ensures
            final(self).color_picker_open,
            final(self).color_value == if old(self).target matches Some(RenameTarget::Track(_)) {
                renamed_track_color
            } else {
                old(self).color_value
            },
            final(self).target == old(self).target,
            final(self).origin == old(self).origin,
            final(self).color_picker_target == old(self).color_picker_target,
            final(self).was_focused == old(self).was_focused,
            final(self).value == old(self).value,
    {
        self.color_picker_open = true;
        if let Some(RenameTarget::Track(_)) = self.target {
            self.color_value = renamed_track_color;
        }
    }

    /// Opens the picker on its own for track `track_index` from `origin`, showing its
    /// `resolved` color; a pending rename is applied first.
    pub fn open_color_picker_for_track(
        &mut self,
        track_index: usize,
        origin: WorkspacePaneKind,
        resolved: C,
    ) -> (r: Option<RenameCommit>)
        ensures
            spec_pending_commit(*old(self), r),
            old(self).target is Some ==> final(self).target is None && final(self).value@.len() == 0
                && !final(self).was_focused && final(self).origin is None,
            old(self).target is None ==> final(self).target is None && final(self).value
                == old(self).value && final(self).was_focused == old(self).was_focused
                && final(self).origin == old(self).origin,
            final(self).color_picker_target == Some((track_index, origin)),
            final(self).color_picker_open,
            final(self).color_value == resolved,
    {
        let commit = if self.target.is_some() {
            self.apply_pending()
        } else {
            None
        };
        self.color_picker_target = Some((track_index, origin));
        self.color_picker_open = true;
        self.color_value = resolved;
        commit
    }

    /// Submits a picked color: the picker closes and, when a track is renamed or picked, the
    /// color is shown and that track is returned for its override to be set.
    pub fn submit_color(&mut self, color: C) -> (r: Option<usize>)
        ensures
            r == spec_color_override_track(*old(self)),
            !final(self).color_picker_open,
            final(self).color_picker_target is None,
            final(self).color_value == if r is Some {
                color
            } else {
                old(self).color_value
            },
            final(self).target == old(self).target,
            final(self).origin == old(self).origin,
            final(self).was_focused == old(self).was_focused,
            final(self).value == old(self).value,
    {
        self.color_picker_open = false;
        let track = match self.target {
            Some(RenameTarget::Track(i)) => Some(i),
            _ => match self.color_picker_target {
                Some((track, _)) => Some(track),
                None => None,
            },
        };
        if track.is_some() {
            self.color_value = color;
        }
        self.color_picker_target = None;
        track
    }

    /// Shows `color` while it is being picked.
    pub fn preview_color(&mut self, color: C)
        ensures
            *final(self) == (TrackRenameState { color_value: color, ..*old(self) }),
    {
        self.color_value = color;
    }
}

/// The overrides after track `index` was given `value`: the list is first made exactly
/// `index + 1` long, cut or padded with `None`.
pub open spec fn spec_set_override<T>(overrides: Seq<Option<T>>, index: int, value: Option<T>) -> Seq<
    Option<T>,
> {
    let sized = if overrides.len() > index + 1 {
        overrides.take(index + 1)
    } else {
        overrides + Seq::new((index + 1 - overrides.len()) as nat, |_i: int| None::<T>)
    };
    sized.update(index, value)
}

/// Gives track `index` the override `value`. The list is made exactly `index + 1` long first:
/// longer lists lose the overrides after it, shorter ones are padded with `None`.
pub fn set_track_override<T>(overrides: &mut Vec<Option<T>>, index: usize, value: Option<T>)
    requires
        index < usize::MAX,
    ensures
        final(overrides)@ == spec_set_override(old(overrides)@, index as int, value),
{
    let ghost start = overrides@;
    overrides.truncate(index + 1);
    let ghost cut = overrides@;
    while overrides.len() < index + 1
        invariant
            index < usize::MAX,
            cut.len() <= overrides@.len() <= index + 1,
            overrides@.subrange(0, cut.len() as int) == cut,
            forall|k: int| cut.len() <= k < overrides@.len() ==> overrides@[k] is None,
        decreases index + 1 - overrides.len(),
    {
        overrides.push(None);
    }
    overrides.set(index, value);
    proof {
        let target = spec_set_override(start, index as int, value);
        if start.len() > index + 1 {
            assert(cut == start.take(index + 1));
        } else {
            assert(cut == start);
        }
        assert(overrides@ =~= target);
    }
}

/// The override of track `index`, if it has one.
pub fn track_override<T>(overrides: &Vec<Option<T>>, index: usize) -> (r: Option<&T>)
    ensures
        r == if index < overrides@.len() {
            match overrides@[index as int] {
                Some(v) => Some(&v),
                None => None,
            }
        } else {
            None
        },
{
    if index < overrides.len() {
        match &overrides[index] {
            Some(v) => Some(v),
            None => None,
        }
    } else {
        None
    }
}

} // verus!
