//! The mixer's undo history, its open effect racks and processor browser, effect drags, and
//! the small index rules of processor presets and effect labels.

use vstd::prelude::*;
use vstd::arithmetic::div_mod::{lemma_fundamental_div_mod, lemma_mod_multiples_vanish};
use vstd::set_lib::{lemma_int_range, lemma_len_subset, set_int_range};

use crate::shortcuts::WorkspacePaneKind;
use crate::text::{concat_strs, decimal_string, str_equal};
use crate::prompts::{ErrorFatality, ErrorPrompt, PromptButtons};

verus! {

/// The kinds of mixer message, with the indices that the history and routing rules read.
#[derive(Debug, Clone, Copy, PartialEq, Eq, Structural)]
pub enum MixerMessageKind {
    ResetMasterMeter,
    ResetTrackMeter(usize),
    ResetBusMeter(u16),
    InstrumentViewportScrolled,
    BusViewportScrolled,
    OpenTrackColorPicker,
    ToggleProcessorBrowser(EditorTarget),
    CloseProcessorBrowser,
    ProcessorBrowserSearchChanged,
    ToggleProcessorBrowserSection,
    ToggleMixerEffectRack(usize),
    SetProcessorSlotHovered,
    StartTrackEffectDrag,
    DropTrackEffect,
    TrackEffectDragMoved,
    EffectRackCursorLeft(usize),
    EffectRackViewportScrolled,
    OpenEditor(EditorTarget),
    PreviewTrackColor,
    SetMasterGain,
    SetMasterPan,
    SetTrackGain(usize),
    SetTrackPan(usize),
    SetBusGain(u16),
    SetBusPan(u16),
    SetSendGain,
    AddBus,
    RemoveBus(u16),
    SelectTrack(usize),
    StartTrackRename(usize),
    StartBusRename(u16),
    TrackRenameInputChanged,
    CancelTrackRename,
    CommitTrackRename,
    SubmitTrackColor,
    ToggleTrackMute(usize),
    ToggleTrackSolo(usize),
    SetMainRoute,
    AddSend,
    SetSendDestination,
    ToggleSendEnabled,
    ToggleSendPreFader,
    RemoveSend,
    SelectProcessor(EditorTarget),
    ToggleSlotBypass(EditorTarget),
    MoveTrackEffect,
    ToggleBusMute(u16),
    ToggleBusSolo(u16),
}

/// A processor slot of a mixer strip: strip 0 is the master, slot 0 the instrument.
#[derive(Debug, Clone, Copy, PartialEq, Eq, Structural, Hash)]
pub struct EditorTarget {
    pub strip_index: usize,
    pub slot_index: usize,
}

/// How a mixer message is recorded in the undo history.
#[derive(Debug, Clone, Copy, PartialEq, Eq, Structural)]
pub enum MixerHistoryMode {
    /// Not recorded: view state, meters, hovering and drags.
    NotRecorded,
    /// Recorded at once, as its own step.
    Immediate,
    /// Recorded once for a whole drag of a control.
    Gesture,
}

/// The history mode of each kind of message; continuous controls moved with the primary
/// mouse button held are recorded as one gesture.
pub open spec fn spec_history_mode(kind: MixerMessageKind, primary_mouse_pressed: bool) -> MixerHistoryMode {
    match kind {
        MixerMessageKind::ResetMasterMeter | MixerMessageKind::ResetTrackMeter(_)
        | MixerMessageKind::ResetBusMeter(_) | MixerMessageKind::InstrumentViewportScrolled
        | MixerMessageKind::BusViewportScrolled | MixerMessageKind::OpenTrackColorPicker
        | MixerMessageKind::ToggleProcessorBrowser(_) | MixerMessageKind::CloseProcessorBrowser
        | MixerMessageKind::ProcessorBrowserSearchChanged
        | MixerMessageKind::ToggleProcessorBrowserSection
        | MixerMessageKind::ToggleMixerEffectRack(_) | MixerMessageKind::SetProcessorSlotHovered
        | MixerMessageKind::StartTrackEffectDrag | MixerMessageKind::DropTrackEffect
        | MixerMessageKind::TrackEffectDragMoved | MixerMessageKind::EffectRackCursorLeft(_)
        | MixerMessageKind::EffectRackViewportScrolled | MixerMessageKind::OpenEditor(_)
        | MixerMessageKind::PreviewTrackColor => MixerHistoryMode::NotRecorded,
        MixerMessageKind::SetMasterGain | MixerMessageKind::SetMasterPan
        | MixerMessageKind::SetTrackGain(_) | MixerMessageKind::SetTrackPan(_)
        | MixerMessageKind::SetBusGain(_) | MixerMessageKind::SetBusPan(_)
        | MixerMessageKind::SetSendGain => if primary_mouse_pressed {
            MixerHistoryMode::Gesture
        } else {
            MixerHistoryMode::Immediate
        },
        _ => MixerHistoryMode::Immediate,
    }
}

/// How a mixer message is recorded in the undo history.
pub fn mixer_message_history_mode(kind: MixerMessageKind, primary_mouse_pressed: bool) -> (m:
    MixerHistoryMode)
    ensures
        m == spec_history_mode(kind, primary_mouse_pressed),
{
    match kind {
        MixerMessageKind::ResetMasterMeter | MixerMessageKind::ResetTrackMeter(_)
        | MixerMessageKind::ResetBusMeter(_) | MixerMessageKind::InstrumentViewportScrolled
        | MixerMessageKind::BusViewportScrolled | MixerMessageKind::OpenTrackColorPicker
        | MixerMessageKind::ToggleProcessorBrowser(_) | MixerMessageKind::CloseProcessorBrowser
        | MixerMessageKind::ProcessorBrowserSearchChanged
        | MixerMessageKind::ToggleProcessorBrowserSection
        | MixerMessageKind::ToggleMixerEffectRack(_) | MixerMessageKind::SetProcessorSlotHovered
        | MixerMessageKind::StartTrackEffectDrag | MixerMessageKind::DropTrackEffect
        | MixerMessageKind::TrackEffectDragMoved | MixerMessageKind::EffectRackCursorLeft(_)
        | MixerMessageKind::EffectRackViewportScrolled | MixerMessageKind::OpenEditor(_)
        | MixerMessageKind::PreviewTrackColor => MixerHistoryMode::NotRecorded,
        MixerMessageKind::SetMasterGain | MixerMessageKind::SetMasterPan
        | MixerMessageKind::SetTrackGain(_) | MixerMessageKind::SetTrackPan(_)
        | MixerMessageKind::SetBusGain(_) | MixerMessageKind::SetBusPan(_)
        | MixerMessageKind::SetSendGain => {
            if primary_mouse_pressed {
                MixerHistoryMode::Gesture
            } else {
                MixerHistoryMode::Immediate
            }
        },
        _ => MixerHistoryMode::Immediate,
    }
}

/// Every mixer message but track selection and scrolling moves the focus to the mixer pane.
pub fn mixer_message_focuses_mixer(kind: MixerMessageKind) -> (r: bool)
    ensures
        r == !(kind is SelectTrack || kind is InstrumentViewportScrolled
            || kind is BusViewportScrolled),
{
    !matches!(
        kind,
        MixerMessageKind::SelectTrack(_) | MixerMessageKind::InstrumentViewportScrolled
            | MixerMessageKind::BusViewportScrolled
    )
}

/// The processor editor that a message replaces, and so closes first.
pub fn editor_target_destroyed_by_mixer_message(kind: MixerMessageKind) -> (r: Option<
    EditorTarget,
>)
    ensures
        r == (match kind {
            MixerMessageKind::SelectProcessor(target) => Some(target),
            _ => None,
        }),
{
    match kind {
        MixerMessageKind::SelectProcessor(target) => Some(target),
        _ => None,
    }
}

/// The handler a mixer message goes to once its history is recorded.
#[derive(Debug, Clone, Copy, PartialEq, Eq, Structural)]
pub enum MixerRoute {
    /// Track selection, the processor browser, effect racks and slot hovering.
    BrowserUi,
    /// Effect drags and the effect rack's pointer and scrolling.
    EffectDrag,
    /// Renaming tracks and buses.
    Rename,
    /// The track color picker.
    Color,
    /// Opening a processor's editor.
    OpenEditor(EditorTarget),
    /// Removing a bus, after it is confirmed.
    RemoveBus(u16),
    /// Applying the change to the playback engine's mixer. Selecting a processor first closes
    /// the processor browser and the editor of the processor it replaces.
    Playback { closes_browser: bool, replaces_editor: Option<EditorTarget> },
}

/// The handler of each kind of mixer message.
pub open spec fn spec_mixer_route(kind: MixerMessageKind) -> MixerRoute {
    match kind {
        MixerMessageKind::SelectTrack(_) | MixerMessageKind::ToggleProcessorBrowser(_)
        | MixerMessageKind::CloseProcessorBrowser | MixerMessageKind::ProcessorBrowserSearchChanged
        | MixerMessageKind::ToggleProcessorBrowserSection
        | MixerMessageKind::ToggleMixerEffectRack(_)
        | MixerMessageKind::SetProcessorSlotHovered => MixerRoute::BrowserUi,
        MixerMessageKind::StartTrackEffectDrag | MixerMessageKind::DropTrackEffect
        | MixerMessageKind::TrackEffectDragMoved | MixerMessageKind::EffectRackCursorLeft(_)
        | MixerMessageKind::EffectRackViewportScrolled => MixerRoute::EffectDrag,
        MixerMessageKind::StartTrackRename(_) | MixerMessageKind::StartBusRename(_)
        | MixerMessageKind::TrackRenameInputChanged | MixerMessageKind::CommitTrackRename
        | MixerMessageKind::CancelTrackRename => MixerRoute::Rename,
        MixerMessageKind::OpenTrackColorPicker | MixerMessageKind::SubmitTrackColor
        | MixerMessageKind::PreviewTrackColor => MixerRoute::Color,
        MixerMessageKind::OpenEditor(target) => MixerRoute::OpenEditor(target),
        MixerMessageKind::RemoveBus(id) => MixerRoute::RemoveBus(id),
        MixerMessageKind::SelectProcessor(target) => MixerRoute::Playback {
            closes_browser: true,
            replaces_editor: Some(target),
        },
        _ => MixerRoute::Playback { closes_browser: false, replaces_editor: None },
    }
}

/// The handler of a mixer message.
pub fn mixer_route(kind: MixerMessageKind) -> (r: MixerRoute)
    ensures
        r == spec_mixer_route(kind),
{
    match kind {
        MixerMessageKind::SelectTrack(_) | MixerMessageKind::ToggleProcessorBrowser(_)
        | MixerMessageKind::CloseProcessorBrowser | MixerMessageKind::ProcessorBrowserSearchChanged
        | MixerMessageKind::ToggleProcessorBrowserSection
        | MixerMessageKind::ToggleMixerEffectRack(_)
        | MixerMessageKind::SetProcessorSlotHovered => MixerRoute::BrowserUi,
        MixerMessageKind::StartTrackEffectDrag | MixerMessageKind::DropTrackEffect
        | MixerMessageKind::TrackEffectDragMoved | MixerMessageKind::EffectRackCursorLeft(_)
        | MixerMessageKind::EffectRackViewportScrolled => MixerRoute::EffectDrag,
        MixerMessageKind::StartTrackRename(_) | MixerMessageKind::StartBusRename(_)
        | MixerMessageKind::TrackRenameInputChanged | MixerMessageKind::CommitTrackRename
        | MixerMessageKind::CancelTrackRename => MixerRoute::Rename,
        MixerMessageKind::OpenTrackColorPicker | MixerMessageKind::SubmitTrackColor
        | MixerMessageKind::PreviewTrackColor => MixerRoute::Color,
        MixerMessageKind::OpenEditor(target) => MixerRoute::OpenEditor(target),
        MixerMessageKind::RemoveBus(id) => MixerRoute::RemoveBus(id),
        MixerMessageKind::SelectProcessor(target) => MixerRoute::Playback {
            closes_browser: true,
            replaces_editor: Some(target),
        },
        _ => MixerRoute::Playback { closes_browser: false, replaces_editor: None },
    }
}

/// What handling a mixer message takes: whether the mixer pane gets the focus, how the
/// message is recorded in the undo history, and its handler.
#[derive(Debug, Clone, Copy, PartialEq, Eq, Structural)]
pub struct MixerMessagePlan {
    pub focus_mixer: bool,
    pub history: MixerHistoryMode,
    pub route: MixerRoute,
}

/// How a mixer message is handled.
pub fn plan_mixer_message(kind: MixerMessageKind, primary_mouse_pressed: bool) -> (p: MixerMessagePlan)
    ensures
        p.focus_mixer == !(kind is SelectTrack || kind is InstrumentViewportScrolled
            || kind is BusViewportScrolled),
        p.history == spec_history_mode(kind, primary_mouse_pressed),
        p.route == spec_mixer_route(kind),
{
    MixerMessagePlan {
        focus_mixer: mixer_message_focuses_mixer(kind),
        history: mixer_message_history_mode(kind, primary_mouse_pressed),
        route: mixer_route(kind),
    }
}

/// Which way a history step goes.
#[derive(Debug, Clone, Copy, PartialEq, Eq, Structural)]
pub enum MixerHistoryStep {
    Undo,
    Redo,
}

impl MixerHistoryStep {
    /// Undo for redo and redo for undo.
    pub fn inverse(self) -> (r: Self)
        ensures
            r == spec_step_inverse(self),
    {
        match self {
            MixerHistoryStep::Undo => MixerHistoryStep::Redo,
            MixerHistoryStep::Redo => MixerHistoryStep::Undo,
        }
    }
}

/// Undo for redo and redo for undo.
pub open spec fn spec_step_inverse(step: MixerHistoryStep) -> MixerHistoryStep {
    match step {
        MixerHistoryStep::Undo => MixerHistoryStep::Redo,
        MixerHistoryStep::Redo => MixerHistoryStep::Undo,
    }
}

/// The mixer's undo and redo stacks of whole mixer states, and the state saved when a drag
/// of a control began.
#[derive(Debug, Clone)]
pub struct MixerHistory<S> {
    pub undo_stack: Vec<S>,
    pub redo_stack: Vec<S>,
    pub pending: Option<S>,
}

/// The stacks after one step from `(undo, redo)` with `current` on screen: the step's own
/// stack gives up its top, which is restored, and `current` goes onto the other stack.
pub open spec fn spec_history_step<S>(
    undo: Seq<S>,
    redo: Seq<S>,
    step: MixerHistoryStep,
    current: S,
) -> (Seq<S>, Seq<S>, S) {
    match step {
        MixerHistoryStep::Undo => (undo.drop_last(), redo.push(current), undo.last()),
        MixerHistoryStep::Redo => (undo.push(current), redo.drop_last(), redo.last()),
    }
}

impl<S> MixerHistory<S> {
    /// An empty history.
    pub fn new() -> (h: Self)
        ensures
            h.undo_stack@.len() == 0,
            h.redo_stack@.len() == 0,
            h.pending is None,
    {
        MixerHistory { undo_stack: Vec::new(), redo_stack: Vec::new(), pending: None }
    }

    /// Ends a drag: the state saved when it began becomes an undo step and the redo stack
    /// is cleared.
    pub fn commit_pending(&mut self)
        ensures
            match old(self).pending {
                Some(s) => {
                    &&& final(self).undo_stack@ == old(self).undo_stack@.push(s)
                    &&& final(self).redo_stack@.len() == 0
                },
                None => final(self).undo_stack@ == old(self).undo_stack@ && final(self).redo_stack@ == old(self).redo_stack@,
            },
            final(self).pending is None,
    {
        if let Some(snapshot) = self.pending.take() {
            self.undo_stack.push(snapshot);
            self.redo_stack.clear();
        }
    }

    /// Records the mixer state `snapshot` (absent without playback) before a message is
    /// applied: an immediate change commits any open drag, then saves the state and clears
    /// redo; a drag saves the state only when it begins.
    pub fn record(&mut self, mode: MixerHistoryMode, snapshot: Option<S>)
        ensures
            match mode {
                MixerHistoryMode::NotRecorded => *final(self) == *old(self),
                MixerHistoryMode::Immediate => {
                    let committed = match old(self).pending {
                        Some(p) => old(self).undo_stack@.push(p),
                        None => old(self).undo_stack@,
                    };
                    &&& final(self).pending is None
                    &&& match snapshot {
                        Some(s) => final(self).undo_stack@ == committed.push(s) && final(self).redo_stack@.len() == 0,
                        None => final(self).undo_stack@ == committed && (old(self).pending is Some
                            ==> final(self).redo_stack@.len() == 0) && (old(self).pending is None
                            ==> final(self).redo_stack@ == old(self).redo_stack@),
                    }
                },
                MixerHistoryMode::Gesture => {
                    &&& final(self).undo_stack@ == old(self).undo_stack@
                    &&& final(self).redo_stack@ == old(self).redo_stack@
                    &&& final(self).pending == if old(self).pending is None {
                        snapshot
                    } else {
                        old(self).pending
                    }
                },
            },
    {
        match mode {
            MixerHistoryMode::NotRecorded => {},
            MixerHistoryMode::Immediate => {
                self.commit_pending();
                if let Some(snapshot) = snapshot {
                    self.undo_stack.push(snapshot);
                    self.redo_stack.clear();
                }
            },
            MixerHistoryMode::Gesture => {
                if self.pending.is_none() {
                    if let Some(snapshot) = snapshot {
                        self.pending = Some(snapshot);
                    }
                }
            },
        }
    }

    /// Takes the top of the step's stack.
    pub fn pop(&mut self, step: MixerHistoryStep) -> (r: Option<S>)
        ensures
            step == MixerHistoryStep::Undo ==> {
                &&& final(self).redo_stack@ == old(self).redo_stack@
                &&& if old(self).undo_stack@.len() > 0 {
                    r == Some(old(self).undo_stack@.last()) && final(self).undo_stack@ == old(self).undo_stack@.drop_last()
                } else {
                    r is None && final(self).undo_stack@ == old(self).undo_stack@
                }
            },
            step == MixerHistoryStep::Redo ==> {
                &&& final(self).undo_stack@ == old(self).undo_stack@
                &&& if old(self).redo_stack@.len() > 0 {
                    r == Some(old(self).redo_stack@.last()) && final(self).redo_stack@ == old(self).redo_stack@.drop_last()
                } else {
                    r is None && final(self).redo_stack@ == old(self).redo_stack@
                }
            },
            final(self).pending == old(self).pending,
    {
        match step {
            MixerHistoryStep::Undo => self.undo_stack.pop(),
            MixerHistoryStep::Redo => self.redo_stack.pop(),
        }
    }

    /// Puts a state on the step's stack.
    pub fn push(&mut self, step: MixerHistoryStep, state: S)
        ensures
            step == MixerHistoryStep::Undo ==> final(self).undo_stack@ == old(self).undo_stack@.push(state) && final(self).redo_stack@ == old(self).redo_stack@,
            step == MixerHistoryStep::Redo ==> final(self).redo_stack@ == old(self).redo_stack@.push(state) && final(self).undo_stack@ == old(self).undo_stack@,
            final(self).pending == old(self).pending,
    {
        match step {
            MixerHistoryStep::Undo => self.undo_stack.push(state),
            MixerHistoryStep::Redo => self.redo_stack.push(state),
        }
    }

    /// Starts an undo or redo: an open drag is dropped and the state to restore is taken
    /// from the step's stack.
    pub fn begin_step(&mut self, step: MixerHistoryStep) -> (r: Option<S>)
        ensures
            final(self).pending is None,
            step == MixerHistoryStep::Undo ==> {
                &&& final(self).redo_stack@ == old(self).redo_stack@
                &&& if old(self).undo_stack@.len() > 0 {
                    r == Some(old(self).undo_stack@.last()) && final(self).undo_stack@ == old(self).undo_stack@.drop_last()
                } else {
                    r is None && final(self).undo_stack@ == old(self).undo_stack@
                }
            },
            step == MixerHistoryStep::Redo ==> {
                &&& final(self).undo_stack@ == old(self).undo_stack@
                &&& if old(self).redo_stack@.len() > 0 {
                    r == Some(old(self).redo_stack@.last()) && final(self).redo_stack@ == old(self).redo_stack@.drop_last()
                } else {
                    r is None && final(self).redo_stack@ == old(self).redo_stack@
                }
            },
    {
        self.pending = None;
        self.pop(step)
    }

    /// Completes an undo or redo once the restored state is in place: the state it replaced
    /// goes onto the other stack.
    pub fn finish_step(&mut self, step: MixerHistoryStep, replaced: S)
        ensures
            step == MixerHistoryStep::Undo ==> final(self).redo_stack@ == old(self).redo_stack@.push(replaced) && final(self).undo_stack@ == old(self).undo_stack@,
            step == MixerHistoryStep::Redo ==> final(self).undo_stack@ == old(self).undo_stack@.push(replaced) && final(self).redo_stack@ == old(self).redo_stack@,
            final(self).pending == old(self).pending,
    {
        self.push(step.inverse(), replaced);
    }
}

/// Redo undoes an undo: after undoing from `(undo, redo)` with `current` on screen and then
/// redoing, `current` is on screen again and both stacks are as they were; the same holds
/// for undo after redo.
pub proof fn law_mixer_undo_redo_round_trip<S>(
    undo: Seq<S>,
    redo: Seq<S>,
    current: S,
    step: MixerHistoryStep,
)
    requires
        step == MixerHistoryStep::Undo ==> undo.len() > 0,
        step == MixerHistoryStep::Redo ==> redo.len() > 0,
    ensures
        ({
            let (u1, r1, shown) = spec_history_step(undo, redo, step, current);
            let (u2, r2, back) = spec_history_step(u1, r1, spec_step_inverse(step), shown);
            u2 == undo && r2 == redo && back == current
        }),
{
    match step {
        MixerHistoryStep::Undo => {
            assert(undo.drop_last().push(undo.last()) =~= undo);
            assert(redo.push(current).drop_last() =~= redo);
        },
        MixerHistoryStep::Redo => {
            assert(redo.drop_last().push(redo.last()) =~= redo);
            assert(undo.push(current).drop_last() =~= undo);
        },
    }
}

/// Every strip index occurs once and they rise.
pub open spec fn strictly_sorted(s: Seq<usize>) -> bool {
    forall|i: int, j: int| 0 <= i < j < s.len() ==> s[i] < s[j]
}

/// `strip` is added when absent and removed when present; the rest stay.
pub open spec fn toggled_set(s: Seq<usize>, strip: usize) -> Set<usize> {
    if s.contains(strip) {
        s.to_set().remove(strip)
    } else {
        s.to_set().insert(strip)
    }
}

/// Opens the effect rack of `strip_index` when closed and closes it when open; the open
/// strips stay listed once each, in rising order.
pub fn toggle_mixer_effect_rack(open: &mut Vec<usize>, strip_index: usize)
    requires
        strictly_sorted(old(open)@),
    ensures
        strictly_sorted(final(open)@),
        final(open)@.to_set() == toggled_set(old(open)@, strip_index),
        old(open)@.contains(strip_index) ==> final(open)@.len() + 1 == old(open)@.len(),
        !old(open)@.contains(strip_index) ==> final(open)@.len() == old(open)@.len() + 1,
{
    let ghost before = open@;
    let mut i: usize = 0;
    while i < open.len() && open[i] < strip_index
        invariant
            open@ == before,
            i <= open@.len(),
            forall|j: int| 0 <= j < i ==> open@[j] < strip_index,
        decreases open.len() - i,
    {
        i = i + 1;
    }
    if i < open.len() && open[i] == strip_index {
        open.remove(i);
        proof {
            assert(open@ =~= before.remove(i as int));
            assert forall|a: int, b: int| 0 <= a < b < open@.len() implies open@[a] < open@[b] by {
                let a1 = if a < i { a } else { a + 1 };
                let b1 = if b < i { b } else { b + 1 };
                assert(before[a1] < before[b1]);
            }
            assert(before.contains(strip_index));
            assert forall|x: usize| #[trigger] open@.to_set().contains(x) <==> before.to_set().remove(
                strip_index,
            ).contains(x) by {
                if open@.to_set().contains(x) {
                    let k = choose|k: int| 0 <= k < open@.len() && open@[k] == x;
                    if k < i {
                        assert(before[k] == x);
                    } else {
                        assert(before[k + 1] == x);
                    }
                }
                if before.to_set().remove(strip_index).contains(x) {
                    let k = choose|k: int| 0 <= k < before.len() && before[k] == x;
                    assert(k != i);
                    if k < i {
                        assert(open@[k] == x);
                    } else {
                        assert(open@[k - 1] == x);
                    }
                }
            }
            assert(open@.to_set() =~= before.to_set().remove(strip_index));
        }
    } else {
        open.insert(i, strip_index);
        proof {
            assert(open@ =~= before.insert(i as int, strip_index));
            assert(i < before.len() ==> before[i as int] > strip_index);
            assert forall|a: int, b: int| 0 <= a < b < open@.len() implies open@[a] < open@[b] by {
                if b < i {
                    assert(before[a] < before[b]);
                } else if b == i {
                    assert(before[a] < strip_index);
                } else if a < i {
                    assert(before[a] < strip_index);
                    assert(before[i as int] <= before[b - 1]);
                } else if a == i {
                    assert(before[i as int] <= before[b - 1]);
                } else {
                    assert(before[a - 1] < before[b - 1]);
                }
            }
            assert(!before.contains(strip_index)) by {
                if before.contains(strip_index) {
                    let k = choose|k: int| 0 <= k < before.len() && before[k] == strip_index;
                    if k < i {
                    } else if k > i as int {
                        assert(before[i as int] < before[k]);
                    }
                }
            }
            assert forall|x: usize| #[trigger] open@.to_set().contains(x) <==> before.to_set().insert(
                strip_index,
            ).contains(x) by {
                if open@.to_set().contains(x) {
                    let k = choose|k: int| 0 <= k < open@.len() && open@[k] == x;
                    if k < i {
                        assert(before[k] == x);
                    } else if k > i {
                        assert(before[k - 1] == x);
                    }
                }
                if before.to_set().insert(strip_index).contains(x) && x != strip_index {
                    let k = choose|k: int| 0 <= k < before.len() && before[k] == x;
                    if k < i {
                        assert(open@[k] == x);
                    } else {
                        assert(open@[k + 1] == x);
                    }
                }
                if x == strip_index {
                    assert(open@[i as int] == x);
                }
            }
            assert(open@.to_set() =~= before.to_set().insert(strip_index));
        }
    }
}

/// Opening and then closing an effect rack (or the reverse) leaves the same strips open:
/// toggling a strip twice is no change.
pub proof fn law_toggle_effect_rack_twice(s: Seq<usize>, strip: usize)
    ensures
        ({
            let once = toggled_set(s, strip);
            (if once.contains(strip) {
                once.remove(strip)
            } else {
                once.insert(strip)
            }) == s.to_set()
        }),
{
    let once = toggled_set(s, strip);
    if s.contains(strip) {
        assert(s.to_set().contains(strip));
        assert(once.insert(strip) =~= s.to_set());
    } else {
        assert(!s.to_set().contains(strip));
        assert(once.remove(strip) =~= s.to_set());
    }
}

/// Where a processor in the browser comes from.
#[derive(Debug, Clone, Copy, PartialEq, Eq, Structural)]
pub enum ProcessorBrowserBackend {
    BuiltIn,
    Clap,
    Vst3,
}

/// Whether a slot holds an instrument or an effect.
#[derive(Debug, Clone, Copy, PartialEq, Eq, Structural)]
pub enum ProcessorSlotRole {
    Instrument,
    Effect,
}

/// A collapsible section of the processor browser.
#[derive(Debug, Clone)]
pub struct ProcessorBrowserSectionKey {
    pub role: ProcessorSlotRole,
    pub backend: ProcessorBrowserBackend,
    pub category: String,
}

impl ProcessorBrowserSectionKey {
    /// A section key.
    pub fn new(role: ProcessorSlotRole, backend: ProcessorBrowserBackend, category: String) -> (k:
        Self)
        ensures
            k.role == role,
            k.backend == backend,
            k.category == category,
    {
        ProcessorBrowserSectionKey { role, backend, category }
    }

    /// The key as plain values.
    pub open spec fn key_view(&self) -> (ProcessorSlotRole, ProcessorBrowserBackend, Seq<char>) {
        (self.role, self.backend, self.category@)
    }

    /// Whether two keys name the same section.
    pub fn same_section(&self, other: &Self) -> (r: bool)
        ensures
            r == (self.key_view() == other.key_view()),
    {
        self.role == other.role && self.backend == other.backend && str_equal(
            self.category.as_str(),
            other.category.as_str(),
        )
    }
}

/// The processor browser: the slot it is open for, the track whose instrument it picks, the
/// search text, and the expanded sections.
#[derive(Debug, Clone)]
pub struct ProcessorBrowserState {
    pub open_target: Option<EditorTarget>,
    pub open_instrument_track: Option<usize>,
    pub search: String,
    pub expanded_sections: Vec<ProcessorBrowserSectionKey>,
}

/// The track whose instrument the browser picks when opened for `target`: only an
/// instrument slot (slot 0) of a track strip (not the master, strip 0) has one.
pub open spec fn spec_instrument_track(target: EditorTarget) -> Option<usize> {
    if target.slot_index == 0 && target.strip_index > 0 {
        Some((target.strip_index - 1) as usize)
    } else {
        None
    }
}

impl ProcessorBrowserState {
    /// A closed browser with nothing expanded.
    pub fn new() -> (s: Self)
        ensures
            s.open_target is None,
            s.open_instrument_track is None,
            s.search@.len() == 0,
            s.expanded_sections@.len() == 0,
    {
        ProcessorBrowserState {
            open_target: None,
            open_instrument_track: None,
            search: String::new(),
            expanded_sections: Vec::new(),
        }
    }

    /// Closes the browser and clears its search.
    pub fn close(&mut self)
        ensures
            final(self).open_target is None,
            final(self).open_instrument_track is None,
            final(self).search@.len() == 0,
            final(self).expanded_sections@ == old(self).expanded_sections@,
    {
        self.open_target = None;
        self.open_instrument_track = None;
        self.search = String::new();
    }

    /// Closes the browser when it is open for `target`, and otherwise opens it there with an
    /// empty search; says whether it opened (the search field then takes the focus).
    pub fn toggle(&mut self, target: EditorTarget) -> (opened: bool)
        ensures
            opened == (old(self).open_target != Some(target)),
            opened ==> final(self).open_target == Some(target) && final(self).open_instrument_track
                == spec_instrument_track(target),
            !opened ==> final(self).open_target is None && final(self).open_instrument_track is None,
            final(self).search@.len() == 0,
            final(self).expanded_sections@ == old(self).expanded_sections@,
    {
        if self.open_target == Some(target) {
            self.close();
            return false;
        }
        self.open_target = Some(target);
        self.open_instrument_track = if target.slot_index == 0 && target.strip_index > 0 {
            Some(target.strip_index - 1)
        } else {
            None
        };
        self.search = String::new();
        true
    }

    /// Collapses an expanded section and expands a collapsed one.
    pub fn toggle_section(&mut self, key: &ProcessorBrowserSectionKey)
        ensures
            match section_position(old(self).expanded_sections@, key.key_view()) {
                Some(i) => section_views(final(self).expanded_sections@) == section_views(old(self).expanded_sections@).remove(i),
                None => section_views(final(self).expanded_sections@) == section_views(old(self).expanded_sections@).push(key.key_view()),
            },
            final(self).open_target == old(self).open_target,
            final(self).open_instrument_track == old(self).open_instrument_track,
            final(self).search == old(self).search,
    {
        let ghost before = self.expanded_sections@;
        let mut i: usize = 0;
        while i < self.expanded_sections.len()
            invariant
                self.expanded_sections@ == before,
                before == old(self).expanded_sections@,
                self.open_target == old(self).open_target,
                self.open_instrument_track == old(self).open_instrument_track,
                self.search == old(self).search,
                i <= before.len(),
                forall|j: int| 0 <= j < i ==> before[j].key_view() != key.key_view(),
            decreases self.expanded_sections.len() - i,
        {
            if self.expanded_sections[i].same_section(key) {
                proof {
                    lemma_section_position(before, key.key_view(), i as int);
                }
                self.expanded_sections.remove(i);
                proof {
                    assert(section_views(self.expanded_sections@) =~= section_views(before).remove(
                        i as int,
                    ));
                }
                return ;
            }
            i = i + 1;
        }
        proof {
            lemma_section_absent(before, key.key_view());
        }
        self.expanded_sections.push(key.clone_key());
        proof {
            assert(section_views(self.expanded_sections@) =~= section_views(before).push(
                key.key_view(),
            ));
        }
    }
}

impl ProcessorBrowserSectionKey {
    /// A copy of the key.
    pub fn clone_key(&self) -> (k: Self)
        ensures
            k.key_view() == self.key_view(),
    {
        ProcessorBrowserSectionKey {
            role: self.role,
            backend: self.backend,
            category: crate::text::owned(self.category.as_str()),
        }
    }
}

/// The keys of the listed sections, as plain values.
pub open spec fn section_views(s: Seq<ProcessorBrowserSectionKey>) -> Seq<
    (ProcessorSlotRole, ProcessorBrowserBackend, Seq<char>),
> {
    s.map_values(|k: ProcessorBrowserSectionKey| k.key_view())
}

/// The first place a section with key `k` stands, if any.
pub open spec fn section_position(
    s: Seq<ProcessorBrowserSectionKey>,
    k: (ProcessorSlotRole, ProcessorBrowserBackend, Seq<char>),
) -> Option<int> {
    if exists|i: int| 0 <= i < s.len() && s[i].key_view() == k {
        Some(
            choose|i: int|
                0 <= i < s.len() && s[i].key_view() == k && forall|j: int|
                    0 <= j < i ==> s[j].key_view() != k,
        )
    } else {
        None
    }
}

/// A first match found by scanning is the position `section_position` names.
pub proof fn lemma_section_position(
    s: Seq<ProcessorBrowserSectionKey>,
    k: (ProcessorSlotRole, ProcessorBrowserBackend, Seq<char>),
    i: int,
)
    requires
        0 <= i < s.len(),
        s[i].key_view() == k,
        forall|j: int| 0 <= j < i ==> s[j].key_view() != k,
    ensures
        section_position(s, k) == Some(i),
{
    let c = choose|c: int|
        0 <= c < s.len() && s[c].key_view() == k && forall|j: int|
            0 <= j < c ==> s[j].key_view() != k;
    assert(0 <= c < s.len() && s[c].key_view() == k && forall|j: int|
        0 <= j < c ==> s[j].key_view() != k);
    if c < i {
        assert(s[c].key_view() != k);
    }
    if i < c {
        assert(s[i].key_view() != k);
    }
}

/// A key found nowhere by a full scan has no position.
pub proof fn lemma_section_absent(
    s: Seq<ProcessorBrowserSectionKey>,
    k: (ProcessorSlotRole, ProcessorBrowserBackend, Seq<char>),
)
    requires
        forall|j: int| 0 <= j < s.len() ==> s[j].key_view() != k,
    ensures
        section_position(s, k) is None,
{
}

/// Hovering, dragging and autoscrolling in the effect racks. An effect is named by its strip
/// and its index among the strip's effects.
#[derive(Debug, Clone, Copy)]
pub struct EffectRackState {
    pub hovered_effect: Option<(usize, usize)>,
    pub hovered_slot: Option<EditorTarget>,
    pub drag_source: Option<(usize, usize)>,
    pub drag_target: Option<(usize, usize)>,
    pub autoscroll_direction: i8,
}

/// A drag that moves an effect within its strip.
#[derive(Debug, Clone, Copy, PartialEq, Eq, Structural)]
pub struct EffectMove {
    pub strip_index: usize,
    pub from_effect_index: usize,
    pub to_effect_index: usize,
}

impl EffectRackState {
    /// Nothing hovered or dragged.
    pub fn new() -> (s: Self)
        ensures
            s == (EffectRackState {
                hovered_effect: None,
                hovered_slot: None,
                drag_source: None,
                drag_target: None,
                autoscroll_direction: 0,
            }),
    {
        EffectRackState {
            hovered_effect: None,
            hovered_slot: None,
            drag_source: None,
            drag_target: None,
            autoscroll_direction: 0,
        }
    }

    /// The pointer entered a processor slot, or left all of them. An effect slot (past the
    /// instrument) becomes the hovered effect; leaving clears the hovered effect unless a
    /// drag is under way.
    pub fn set_processor_slot_hovered(&mut self, target: Option<EditorTarget>)
        ensures
            final(self).hovered_slot == target,
            final(self).hovered_effect == match target {
                Some(t) => if t.slot_index > 0 {
                    Some((t.strip_index, (t.slot_index - 1) as usize))
                } else {
                    old(self).hovered_effect
                },
                None => if old(self).drag_source is None {
                    None
                } else {
                    old(self).hovered_effect
                },
            },
            final(self).drag_source == old(self).drag_source,
            final(self).drag_target == old(self).drag_target,
            final(self).autoscroll_direction == old(self).autoscroll_direction,
    {
        match target {
            Some(t) => {
                if t.slot_index > 0 {
                    self.hovered_effect = Some((t.strip_index, t.slot_index - 1));
                }
            },
            None => {
                if self.drag_source.is_none() {
                    self.hovered_effect = None;
                }
            },
        }
        self.hovered_slot = target;
    }

    /// The pointer left a strip's rack: its hovered effect is forgotten.
    pub fn clear_hover_for_strip(&mut self, strip_index: usize)
        ensures
            final(self).hovered_effect == match old(self).hovered_effect {
                Some((s, e)) => if s == strip_index {
                    None
                } else {
                    Some((s, e))
                },
                None => None,
            },
            final(self).hovered_slot == old(self).hovered_slot,
            final(self).drag_source == old(self).drag_source,
            final(self).drag_target == old(self).drag_target,
            final(self).autoscroll_direction == old(self).autoscroll_direction,
    {
        if let Some((s, _)) = self.hovered_effect {
            if s == strip_index {
                self.hovered_effect = None;
            }
        }
    }

    /// The pointer left a strip's rack during a drag from it: autoscrolling stops, and the
    /// result says that the pointer position is to be forgotten.
    pub fn clear_drag_for_strip(&mut self, strip_index: usize) -> (cleared: bool)
        ensures
            cleared == (old(self).drag_source matches Some((s, _)) && s == strip_index),
            final(self).autoscroll_direction == if cleared {
                0
            } else {
                old(self).autoscroll_direction
            },
            final(self).hovered_effect == old(self).hovered_effect,
            final(self).hovered_slot == old(self).hovered_slot,
            final(self).drag_source == old(self).drag_source,
            final(self).drag_target == old(self).drag_target,
    {
        if let Some((s, _)) = self.drag_source {
            if s == strip_index {
                self.autoscroll_direction = 0;
                return true;
            }
        }
        false
    }

    /// Pressing the primary button over an effect starts dragging it.
    pub fn begin_drag_from_hover(&mut self)
        ensures
            match old(self).hovered_effect {
                Some(source) => final(self).drag_source == Some(source) && final(self).drag_target
                    == Some(source),
                None => final(self).drag_source == old(self).drag_source && final(self).drag_target
                    == old(self).drag_target,
            },
            final(self).hovered_effect == old(self).hovered_effect,
            final(self).hovered_slot == old(self).hovered_slot,
            final(self).autoscroll_direction == old(self).autoscroll_direction,
    {
        if let Some(source) = self.hovered_effect {
            self.drag_source = Some(source);
            self.drag_target = Some(source);
        }
    }

    /// A drag of an effect starts.
    pub fn start_drag(&mut self, strip_index: usize, effect_index: usize)
        ensures
            final(self).drag_source == Some((strip_index, effect_index)),
            final(self).drag_target == Some((strip_index, effect_index)),
            final(self).hovered_effect == old(self).hovered_effect,
            final(self).hovered_slot == old(self).hovered_slot,
            final(self).autoscroll_direction == old(self).autoscroll_direction,
    {
        self.drag_source = Some((strip_index, effect_index));
        self.drag_target = Some((strip_index, effect_index));
    }

    /// The pointer moved over a strip's rack, over the effect `hovered_index` (if any), at a
    /// height where a drop lands at `drop_index`. The hovered effect follows the pointer;
    /// during a drag from this strip the drop target moves too, and the result says so (the
    /// pointer position and autoscrolling are then updated).
    pub fn update_drag_position(
        &mut self,
        strip_index: usize,
        hovered_index: Option<usize>,
        drop_index: Option<usize>,
    ) -> (retargeted: bool)
        ensures
            final(self).hovered_effect == match hovered_index {
                Some(i) => Some((strip_index, i)),
                None => None,
            },
            retargeted == (old(self).drag_source matches Some((s, _)) && s == strip_index
                && drop_index is Some),
            final(self).drag_target == if retargeted {
                Some((strip_index, drop_index->0))
            } else {
                old(self).drag_target
            },
            final(self).drag_source == old(self).drag_source,
            final(self).hovered_slot == old(self).hovered_slot,
            final(self).autoscroll_direction == old(self).autoscroll_direction,
    {
        self.hovered_effect = match hovered_index {
            Some(i) => Some((strip_index, i)),
            None => None,
        };
        if let Some((s, _)) = self.drag_source {
            if s == strip_index {
                if let Some(target_index) = drop_index {
                    self.drag_target = Some((strip_index, target_index));
                    return true;
                }
            }
        }
        false
    }

    /// Ends a drag, dropping at `target` or else at the last drop target. A move within one
    /// strip to another place is handed back; the drag, its target and autoscrolling end
    /// either way.
    pub fn finish_drag(&mut self, target: Option<(usize, usize)>) -> (r: Option<EffectMove>)
        ensures
            final(self).drag_source is None,
            final(self).drag_target is None,
            final(self).autoscroll_direction == 0,
            final(self).hovered_effect == old(self).hovered_effect,
            final(self).hovered_slot == old(self).hovered_slot,
            r == ({
                let to = if target is Some {
                    target
                } else {
                    old(self).drag_target
                };
                match (old(self).drag_source, to) {
                    (Some((fs, fe)), Some((ts, te))) => if fs == ts && fe != te {
                        Some(EffectMove { strip_index: fs, from_effect_index: fe, to_effect_index: te })
                    } else {
                        None
                    },
                    _ => None,
                }
            }),
    {
        let source = self.drag_source;
        let to = match target {
            Some(t) => Some(t),
            None => self.drag_target,
        };
        self.drag_source = None;
        self.drag_target = None;
        self.autoscroll_direction = 0;
        match (source, to) {
            (Some((fs, fe)), Some((ts, te))) => {
                if fs != ts || fe == te {
                    None
                } else {
                    Some(EffectMove { strip_index: fs, from_effect_index: fe, to_effect_index: te })
                }
            },
            _ => None,
        }
    }
}

/// The effect under the pointer: the row at the pointer, when the strip has that many
/// effects.
pub fn effect_rack_hovered_index(raw_index: usize, effect_count: Option<usize>) -> (r: Option<
    usize,
>)
    ensures
        r == match effect_count {
            Some(n) => if raw_index < n {
                Some(raw_index)
            } else {
                None
            },
            None => None,
        },
{
    match effect_count {
        Some(n) => if raw_index < n {
            Some(raw_index)
        } else {
            None
        },
        None => None,
    }
}

/// Where a dragged effect lands: the row at the pointer, or the last row below the last
/// effect; nowhere in a strip without effects.
pub fn effect_rack_drop_index(raw_index: usize, effect_count: Option<usize>) -> (r: Option<usize>)
    ensures
        r == match effect_count {
            Some(n) => if n == 0 {
                None
            } else if raw_index < n {
                Some(raw_index)
            } else {
                Some((n - 1) as usize)
            },
            None => None,
        },
{
    let n = match effect_count {
        Some(n) => n,
        None => return None,
    };
    if n == 0 {
        return None;
    }
    if raw_index < n {
        Some(raw_index)
    } else {
        Some(n - 1)
    }
}

/// The preset after stepping `direction` places from the current one, wrapping around; with
/// no current preset a forward step selects the first and a backward one the last.
pub open spec fn spec_next_preset_index(current: Option<usize>, len: nat, direction: int) -> int {
    match current {
        Some(c) => (c + direction) % (len as int),
        None => if direction >= 0 {
            0
        } else {
            len - 1
        },
    }
}

/// The index of the preset to load after stepping `direction` places among `len` presets.
pub fn next_preset_index(current: Option<usize>, len: usize, direction: isize) -> (r: usize)
    requires
        len > 0,
        current matches Some(c) ==> c < len,
    ensures
        r < len,
        r == spec_next_preset_index(current, len as nat, direction as int),
{
    match current {
        Some(c) => {
            let n = len as u128;
            if direction >= 0 {
                let r = (c as u128 + direction as u128) % n;
                r as usize
            } else {
                let back = ((0i128 - direction as i128) as u128) % n;
                let r = (c as u128 + n - back) % n;
                proof {
                    lemma_backward_step(c as int, direction as int, len as int, back as int);
                }
                r as usize
            }
        },
        None => if direction >= 0 {
            0
        } else {
            len - 1
        },
    }
}

/// Stepping back by `-d` is stepping forward by `n` less the wrapped amount.
pub proof fn lemma_backward_step(c: int, d: int, n: int, back: int)
    requires
        n > 0,
        d < 0,
        back == (-d) % n,
    ensures
        (c + n - back) % n == (c + d) % n,
{
    lemma_fundamental_div_mod(-d, n);
    let q = (-d) / n;
    assert(c + d == n * (-q - 1) + (c + n - back)) by (nonlinear_arith)
        requires
            -d == n * q + back,
    ;
    lemma_mod_multiples_vanish(-q - 1, c + n - back, n);
}

/// An effect slot as the label rule sees it: its processor's display name (absent when
/// the processor is unknown) and its instance label.
#[derive(Debug, Clone)]
pub struct EffectLabel {
    pub name: Option<String>,
    pub instance_label_index: usize,
}

/// Whether some effect other than the one at `target` shows `name` with label `k`.
pub open spec fn label_taken(effects: Seq<EffectLabel>, target: int, name: Seq<char>, k: int) -> bool {
    exists|i: int|
        0 <= i < effects.len() && i != target && (effects[i].name matches Some(n) && n@ == name)
            && effects[i].instance_label_index == k
}

/// The instance label for a processor named `name` placed at `target`: the slot keeps its
/// label when it already shows the same processor; otherwise the lowest label from 1 up
/// that no other effect of that processor shows.
pub open spec fn spec_instance_label(effects: Seq<EffectLabel>, target: int, name: Seq<char>, r: int) -> bool {
    if 0 <= target < effects.len() && (effects[target].name matches Some(n) && n@ == name)
        && effects[target].instance_label_index > 0 {
        r == effects[target].instance_label_index
    } else {
        &&& r >= 1
        &&& !label_taken(effects, target, name, r)
        &&& forall|k: int| 1 <= k < r ==> label_taken(effects, target, name, k)
    }
}

/// Some effect shows label `j`.
pub open spec fn label_present(effects: Seq<EffectLabel>, j: int) -> bool {
    exists|i: int| 0 <= i < effects.len() && effects[i].instance_label_index == j
}

/// Labels that cover `1..=k` need at least `k` effects.
pub proof fn lemma_labels_cover_bound(effects: Seq<EffectLabel>, k: int)
    requires
        k >= 0,
        forall|j: int| 1 <= j <= k ==> #[trigger] label_present(effects, j),
    ensures
        k <= effects.len(),
{
    let labels = effects.map_values(|e: EffectLabel| e.instance_label_index as int);
    let range = set_int_range(1, k + 1);
    lemma_int_range(1, k + 1);
    assert forall|j: int| #[trigger] range.contains(j) implies labels.to_set().contains(j) by {
        assert(label_present(effects, j));
        let i = choose|i: int| 0 <= i < effects.len() && effects[i].instance_label_index == j;
        assert(labels[i] == j);
    }
    labels.lemma_cardinality_of_set();
    vstd::seq_lib::seq_to_set_is_finite(labels);
    lemma_len_subset(range, labels.to_set());
}

/// Picks the instance label of a processor named `name` placed at `target_effect_index`.
pub fn assign_effect_instance_label_index(
    effects: &Vec<EffectLabel>,
    target_effect_index: usize,
    name: &str,
) -> (r: usize)
    requires
        effects@.len() < usize::MAX,
    ensures
        spec_instance_label(effects@, target_effect_index as int, name@, r as int),
{
    if target_effect_index < effects.len() {
        let existing = &effects[target_effect_index];
        if let Some(n) = &existing.name {
            if str_equal(n.as_str(), name) && existing.instance_label_index > 0 {
                return existing.instance_label_index;
            }
        }
    }
    let mut k: usize = 1;
    loop
        invariant
            1 <= k <= effects@.len() + 1,
            effects@.len() < usize::MAX,
            forall|j: int| 1 <= j < k ==> label_taken(effects@, target_effect_index as int, name@, j),
            !(0 <= target_effect_index < effects@.len() && (effects@[target_effect_index as int].name matches Some(n) && n@ == name@)
                && effects@[target_effect_index as int].instance_label_index > 0),
        decreases effects@.len() + 1 - k,
    {
        let mut taken = false;
        let mut i: usize = 0;
        while i < effects.len()
            invariant
                i <= effects@.len(),
                taken ==> label_taken(effects@, target_effect_index as int, name@, k as int),
                !taken ==> forall|j: int|
                    0 <= j < i ==> !(j != target_effect_index && (effects@[j].name matches Some(n)
                        && n@ == name@) && effects@[j].instance_label_index == k),
            decreases effects.len() - i,
        {
            if i != target_effect_index && effects[i].instance_label_index == k {
                if let Some(n) = &effects[i].name {
                    if str_equal(n.as_str(), name) {
                        taken = true;
                    }
                }
            }
            i = i + 1;
        }
        if !taken {
            return k;
        }
        proof {
            assert forall|j: int| 1 <= j <= k implies #[trigger] label_present(effects@, j) by {
                assert(label_taken(effects@, target_effect_index as int, name@, j));
            }
            lemma_labels_cover_bound(effects@, k as int);
        }
        k = k + 1;
    }
}

/// What selecting a track reveals in the other pane.
#[derive(Debug, Clone, Copy, PartialEq, Eq, Structural)]
pub enum TrackReveal {
    InMixer(usize),
    InPianoRoll(usize),
    Nothing,
}

/// Where a track was selected.
#[derive(Debug, Clone, Copy, PartialEq, Eq, Structural)]
pub enum TrackSelectionOrigin {
    PianoRoll,
    Mixer,
}

/// Selects a track for both the piano roll and the mixer and says what to scroll into view
/// in the other pane: the mixer when it is shown, or the piano roll when it is shown and
/// its file (with `piano_roll_track_count` tracks) has that track.
pub fn select_track(
    selected_track_index: &mut Option<usize>,
    track_index: usize,
    origin: TrackSelectionOrigin,
    mixer_shown: bool,
    piano_roll_shown: bool,
    piano_roll_track_count: Option<usize>,
) -> (r: TrackReveal)
    ensures
        *final(selected_track_index) == Some(track_index),
        r == match origin {
            TrackSelectionOrigin::PianoRoll => if mixer_shown {
                TrackReveal::InMixer(track_index)
            } else {
                TrackReveal::Nothing
            },
            TrackSelectionOrigin::Mixer => if piano_roll_shown && (piano_roll_track_count matches Some(
                n,
            ) && track_index < n) {
                TrackReveal::InPianoRoll(track_index)
            } else {
                TrackReveal::Nothing
            },
        },
{
    *selected_track_index = Some(track_index);
    match origin {
        TrackSelectionOrigin::PianoRoll => {
            if mixer_shown {
                TrackReveal::InMixer(track_index)
            } else {
                TrackReveal::Nothing
            }
        },
        TrackSelectionOrigin::Mixer => {
            if !piano_roll_shown {
                return TrackReveal::Nothing;
            }
            match piano_roll_track_count {
                Some(n) => if track_index < n {
                    TrackReveal::InPianoRoll(track_index)
                } else {
                    TrackReveal::Nothing
                },
                None => TrackReveal::Nothing,
            }
        },
    }
}

/// The prompt asking whether to remove a bus: titled `Remove <name>?`, where the name is the
/// bus's own or `Bus <id>` when it is unknown.
pub fn remove_bus_prompt(bus_name: Option<&str>, id: u16) -> (p: ErrorPrompt)
    ensures
        p.title@ == "Remove "@ + match bus_name {
            Some(n) => n@,
            None => "Bus "@ + crate::text::decimal_digits(id as nat),
        } + "?"@,
        p.message@ == "This removes the bus and clears routes or sends that target it."@,
        p.fatality == ErrorFatality::Recoverable,
        p.buttons == PromptButtons::OkCancel,
        p.ok_label is None && p.discard_label is None && p.cancel_label is None,
{
    let name = match bus_name {
        Some(n) => crate::text::owned(n),
        None => {
            let digits = decimal_string(id as u64);
            concat_strs("Bus ", digits.as_str())
        },
    };
    let head = concat_strs("Remove ", name.as_str());
    let title = concat_strs(head.as_str(), "?");
    ErrorPrompt::new(
        title,
        crate::text::owned("This removes the bus and clears routes or sends that target it."),
        ErrorFatality::Recoverable,
        PromptButtons::OkCancel,
    )
}

/// The title of a processor editor window: the strip's name for its instrument slot, and the
/// slot's own title for an effect.
pub fn editor_window_title(strip_name: &str, slot_title: &str, slot_index: usize) -> (r: String)
    ensures
        r@ == if slot_index == 0 {
            strip_name@
        } else {
            slot_title@
        },
{
    if slot_index == 0 {
        return crate::text::owned(strip_name);
    }
    crate::text::owned(slot_title)
}

/// Which strip of the mixer a strip index names: 0 is the master, the next `track_count`
/// are the tracks, and the rest are buses.
#[derive(Debug, Clone, Copy, PartialEq, Eq, Structural)]
pub enum MixerStrip {
    Master,
    /// The track at this index.
    Track(usize),
    Bus,
}

/// Which strip a strip index names, given how many tracks there are.
pub fn mixer_strip(strip_index: usize, track_count: usize) -> (r: MixerStrip)
    ensures
        r == if strip_index == 0 {
            MixerStrip::Master
        } else if strip_index <= track_count {
            MixerStrip::Track((strip_index - 1) as usize)
        } else {
            MixerStrip::Bus
        },
{
    if strip_index == 0 {
        MixerStrip::Master
    } else if strip_index <= track_count {
        MixerStrip::Track(strip_index - 1)
    } else {
        MixerStrip::Bus
    }
}

/// The effects after the effect at `from` was moved to position `to`.
pub open spec fn spec_move_effect<S>(effects: Seq<S>, from: int, to: int) -> Seq<S> {
    effects.remove(from).insert(to, effects[from])
}

/// Moves the effect at `from` to position `to` of a strip's effects. Nothing moves when
/// either position is past the end (`false`).
pub fn move_effect_slot<S>(effects: &mut Vec<S>, from: usize, to: usize) -> (moved: bool)
    ensures
        moved == (from < old(effects)@.len() && to < old(effects)@.len()),
        moved ==> final(effects)@ == spec_move_effect(old(effects)@, from as int, to as int),
        !moved ==> final(effects)@ == old(effects)@,
{
    if from >= effects.len() || to >= effects.len() {
        return false;
    }
    let effect = effects.remove(from);
    effects.insert(to, effect);
    true
}

/// Moving an effect and then moving it back restores the effects.
pub proof fn law_move_effect_back<S>(effects: Seq<S>, from: int, to: int)
    requires
        0 <= from < effects.len(),
        0 <= to < effects.len(),
    ensures
        spec_move_effect(spec_move_effect(effects, from, to), to, from) == effects,
{
    let moved = spec_move_effect(effects, from, to);
    assert(moved[to] == effects[from]);
    let back = spec_move_effect(moved, to, from);
    assert(moved.remove(to) =~= effects.remove(from));
    assert(back =~= effects);
}

/// Removes the effect at `effect_index`, when there is one.
pub fn remove_effect_slot<S>(effects: &mut Vec<S>, effect_index: usize)
    ensures
        effect_index < old(effects)@.len() ==> final(effects)@ == old(effects)@.remove(
            effect_index as int,
        ),
        effect_index >= old(effects)@.len() ==> final(effects)@ == old(effects)@,
{
    if effect_index < effects.len() {
        effects.remove(effect_index);
    }
}

/// Puts `slot` at `effect_index`, replacing the effect there, or after the last effect when
/// the index is past the end.
pub fn upsert_effect_slot<S>(effects: &mut Vec<S>, effect_index: usize, slot: S)
    ensures
        effect_index < old(effects)@.len() ==> final(effects)@ == old(effects)@.update(
            effect_index as int,
            slot,
        ),
        effect_index >= old(effects)@.len() ==> final(effects)@ == old(effects)@.push(slot),
{
    if effect_index < effects.len() {
        effects.set(effect_index, slot);
    } else {
        effects.push(slot);
    }
}

/// The name a new bus gets: `Bus <n>`, numbering after the buses there are.
pub fn numbered_bus_name(bus_count: u64) -> (r: String)
    requires
        bus_count < u64::MAX,
    ensures
        r@ == "Bus "@ + crate::text::decimal_digits((bus_count + 1) as nat),
{
    let number = decimal_string(bus_count + 1);
    proof {
        reveal_strlit("Bus ");
    }
    concat_strs("Bus ", number.as_str())
}

} // verus!
