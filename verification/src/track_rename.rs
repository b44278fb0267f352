//! Renaming a track or bus in place, and the track colour picker.

use vstd::prelude::*;

use crate::shortcuts::WorkspacePaneKind;

verus! {

/// What is being renamed: a track by its index, or a mixer bus by its id.
#[derive(Debug, Clone, Copy, PartialEq, Eq, Structural)]
pub enum RenameTarget {
    Track(usize),
    Bus(u16),
}

/// The rename editor and colour picker of tracks: what is renamed and from which pane, the
/// track whose colour is picked and from which pane, whether the rename field had the focus,
/// the text typed, and whether the picker is open.
#[derive(Debug, Clone)]
pub struct TrackRenameState {
    pub renaming_target: Option<RenameTarget>,
    pub renaming_origin: Option<WorkspacePaneKind>,
    pub color_picker_target: Option<(usize, WorkspacePaneKind)>,
    pub was_focused: bool,
    pub value: String,
    pub color_picker_open: bool,
}

impl TrackRenameState {
    /// Nothing renamed, no picker.
    pub fn new() -> (s: Self)
        ensures
            s.renaming_target is None,
            s.renaming_origin is None,
            s.color_picker_target is None,
            !s.was_focused,
            s.value@.len() == 0,
            !s.color_picker_open,
    {
        TrackRenameState {
            renaming_target: None,
            renaming_origin: None,
            color_picker_target: None,
            was_focused: false,
            value: String::new(),
            color_picker_open: false,
        }
    }

    /// Drops the rename and closes the colour picker without applying anything.
    pub fn cancel(&mut self)
        ensures
            final(self).renaming_target is None,
            final(self).renaming_origin is None,
            final(self).color_picker_target is None,
            !final(self).was_focused,
            final(self).value@.len() == 0,
            !final(self).color_picker_open,
    {
        self.renaming_target = None;
        self.renaming_origin = None;
        self.color_picker_target = None;
        self.was_focused = false;
        self.value = String::new();
        self.color_picker_open = false;
    }
}

} // verus!
