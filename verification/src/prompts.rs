//! Modal prompts: their buttons, the keyboard selection among them, and the pending
//! editor action that asks, tab by tab, whether unsaved work is saved before going on.

use vstd::prelude::*;

use vstd::arithmetic::div_mod::{
    lemma_add_mod_noop_right, lemma_mod_add_multiples_vanish, lemma_mod_pos_bound, lemma_mod_self_0,
    lemma_small_mod,
};

use crate::keys::{KeyName, KeyPress};
use crate::text::{concat_strs, owned};

verus! {

/// How serious the reported problem is.
#[derive(Debug, Clone, Copy, PartialEq, Eq, Structural)]
pub enum ErrorFatality {
    Critical,
    Recoverable,
}

/// The colour and icon of a prompt's title.
#[derive(Debug, Clone, Copy, PartialEq, Eq, Structural)]
pub enum PromptTone {
    Error,
    Warning,
    Info,
}

/// The set of buttons a prompt offers.
#[derive(Debug, Clone, Copy, PartialEq, Eq, Structural)]
pub enum PromptButtons {
    OkOnly,
    OkCancel,
    SaveDiscardCancel,
}

/// One button of a prompt.
#[derive(Debug, Clone, Copy, PartialEq, Eq, Structural)]
pub enum PromptSelectedButton {
    Okay,
    Discard,
    Cancel,
}

/// The answer given to a prompt.
#[derive(Debug, Clone, Copy, PartialEq, Eq, Structural)]
pub enum PromptMessage {
    Acknowledge,
    Discard,
    Cancel,
}

/// A modal prompt.
#[derive(Debug, Clone)]
pub struct ErrorPrompt {
    pub title: String,
    pub message: String,
    pub fatality: ErrorFatality,
    pub tone: PromptTone,
    pub buttons: PromptButtons,
    pub ok_label: Option<String>,
    pub discard_label: Option<String>,
    pub cancel_label: Option<String>,
}

/// Critical problems are shown as errors, recoverable ones as warnings.
pub open spec fn tone_for(fatality: ErrorFatality) -> PromptTone {
    match fatality {
        ErrorFatality::Critical => PromptTone::Error,
        ErrorFatality::Recoverable => PromptTone::Warning,
    }
}

impl ErrorPrompt {
    /// A prompt with the default button labels.
    pub fn new(title: String, message: String, fatality: ErrorFatality, buttons: PromptButtons) -> (p:
        Self)
        ensures
            p.title == title,
            p.message == message,
            p.fatality == fatality,
            p.tone == tone_for(fatality),
            p.buttons == buttons,
            p.ok_label is None,
            p.discard_label is None,
            p.cancel_label is None,
    {
        let tone = match fatality {
            ErrorFatality::Critical => PromptTone::Error,
            ErrorFatality::Recoverable => PromptTone::Warning,
        };
        ErrorPrompt {
            title,
            message,
            fatality,
            tone,
            buttons,
            ok_label: None,
            discard_label: None,
            cancel_label: None,
        }
    }

    /// The same prompt with its OK (or Save) button relabelled.
    pub fn with_ok_label(self, label: String) -> (p: Self)
        ensures
            p == (ErrorPrompt { ok_label: Some(label), ..self }),
    {
        ErrorPrompt { ok_label: Some(label), ..self }
    }

    /// The same prompt with its Discard button relabelled.
    pub fn with_discard_label(self, label: String) -> (p: Self)
        ensures
            p == (ErrorPrompt { discard_label: Some(label), ..self }),
    {
        ErrorPrompt { discard_label: Some(label), ..self }
    }

    /// The same prompt with its Cancel button relabelled.
    pub fn with_cancel_label(self, label: String) -> (p: Self)
        ensures
            p == (ErrorPrompt { cancel_label: Some(label), ..self }),
    {
        ErrorPrompt { cancel_label: Some(label), ..self }
    }

    /// The buttons the prompt offers.
    pub fn buttons(&self) -> (b: PromptButtons)
        ensures
            b == self.buttons,
    {
        self.buttons
    }

    /// The prompt's title.
    pub fn title(&self) -> (t: &str)
        ensures
            t@ == self.title@,
    {
        self.title.as_str()
    }

    /// The label of the OK button: the custom one, else `OK`, or `Save` on a
    /// save/discard/cancel prompt.
    pub fn ok_button_label(&self) -> (l: String)
        ensures
            l@ == match self.ok_label {
                Some(label) => label@,
                None => if self.buttons == PromptButtons::SaveDiscardCancel {
                    "Save"@
                } else {
                    "OK"@
                },
            },
    {
        match &self.ok_label {
            Some(label) => label.clone(),
            None => if matches!(self.buttons, PromptButtons::SaveDiscardCancel) {
                owned("Save")
            } else {
                owned("OK")
            },
        }
    }

    /// The label of the Discard button, `Discard` unless relabelled.
    pub fn discard_button_label(&self) -> (l: String)
        ensures
            l@ == match self.discard_label {
                Some(label) => label@,
                None => "Discard"@,
            },
    {
        match &self.discard_label {
            Some(label) => label.clone(),
            None => owned("Discard"),
        }
    }

    /// The label of the Cancel button, `Cancel` unless relabelled.
    pub fn cancel_button_label(&self) -> (l: String)
        ensures
            l@ == match self.cancel_label {
                Some(label) => label@,
                None => "Cancel"@,
            },
    {
        match &self.cancel_label {
            Some(label) => label.clone(),
            None => owned("Cancel"),
        }
    }
}

/// The buttons of each kind of prompt, in the order the keyboard moves through them.
pub open spec fn spec_prompt_buttons(buttons: PromptButtons) -> Seq<PromptSelectedButton> {
    match buttons {
        PromptButtons::OkOnly => seq![PromptSelectedButton::Okay],
        PromptButtons::OkCancel => seq![PromptSelectedButton::Cancel, PromptSelectedButton::Okay],
        PromptButtons::SaveDiscardCancel => seq![
            PromptSelectedButton::Cancel,
            PromptSelectedButton::Discard,
            PromptSelectedButton::Okay,
        ],
    }
}

/// The buttons of a prompt, in keyboard order.
pub fn prompt_buttons(buttons: PromptButtons) -> (r: Vec<PromptSelectedButton>)
    ensures
        r@ == spec_prompt_buttons(buttons),
{
    match buttons {
        PromptButtons::OkOnly => vec![PromptSelectedButton::Okay],
        PromptButtons::OkCancel => vec![PromptSelectedButton::Cancel, PromptSelectedButton::Okay],
        PromptButtons::SaveDiscardCancel => vec![
            PromptSelectedButton::Cancel,
            PromptSelectedButton::Discard,
            PromptSelectedButton::Okay,
        ],
    }
}

/// Where `b` stands among the buttons, when it is one of them.
pub open spec fn button_index(buttons: PromptButtons, b: PromptSelectedButton) -> int {
    choose|i: int|
        0 <= i < spec_prompt_buttons(buttons).len() && spec_prompt_buttons(buttons)[i] == b
}

/// The button selected after moving once from `selected`, forward or back, wrapping around;
/// a selection that is not among the buttons moves to the first one.
pub open spec fn spec_cycled_button(
    buttons: PromptButtons,
    selected: PromptSelectedButton,
    forward: bool,
) -> PromptSelectedButton {
    let s = spec_prompt_buttons(buttons);
    if s.contains(selected) {
        let i = button_index(buttons, selected);
        if forward {
            s[(i + 1) % (s.len() as int)]
        } else if i == 0 {
            s[s.len() - 1]
        } else {
            s[i - 1]
        }
    } else {
        s[0]
    }
}

/// No prompt lists a button twice.
pub proof fn lemma_prompt_buttons_distinct(buttons: PromptButtons)
    ensures
        forall|i: int, j: int|
            0 <= i < j < spec_prompt_buttons(buttons).len() ==> spec_prompt_buttons(buttons)[i]
                != spec_prompt_buttons(buttons)[j],
{
}

/// The index of a listed button is the place it stands at.
pub proof fn lemma_button_index(buttons: PromptButtons, i: int)
    requires
        0 <= i < spec_prompt_buttons(buttons).len(),
    ensures
        button_index(buttons, spec_prompt_buttons(buttons)[i]) == i,
{
    let s = spec_prompt_buttons(buttons);
    lemma_prompt_buttons_distinct(buttons);
    assert(s.contains(s[i]));
    let k = button_index(buttons, s[i]);
    assert(0 <= k < s.len() && s[k] == s[i]);
}

/// Every prompt offers an OK button, and it is the last one.
pub proof fn law_every_prompt_has_ok(buttons: PromptButtons)
    ensures
        spec_prompt_buttons(buttons).len() >= 1,
        spec_prompt_buttons(buttons).last() == PromptSelectedButton::Okay,
        spec_prompt_buttons(buttons).contains(PromptSelectedButton::Okay),
{
    assert(spec_prompt_buttons(buttons)[spec_prompt_buttons(buttons).len() - 1]
        == PromptSelectedButton::Okay);
}

/// Moving the selection forward and then back returns to the button it started on.
pub proof fn law_cycle_forward_then_back(buttons: PromptButtons, selected: PromptSelectedButton)
    requires
        spec_prompt_buttons(buttons).contains(selected),
    ensures
        spec_cycled_button(buttons, spec_cycled_button(buttons, selected, true), false)
            == selected,
        spec_cycled_button(buttons, spec_cycled_button(buttons, selected, false), true)
            == selected,
{
    let s = spec_prompt_buttons(buttons);
    let n = s.len() as int;
    let i = button_index(buttons, selected);
    lemma_button_index(buttons, i);
    let f = (i + 1) % n;
    if i + 1 < n {
        lemma_small_mod((i + 1) as nat, n as nat);
    } else {
        lemma_mod_self_0(n);
    }
    lemma_button_index(buttons, f);
    assert(s.contains(s[f]));
    let b = if i == 0 {
        n - 1
    } else {
        i - 1
    };
    lemma_button_index(buttons, b);
    assert(s.contains(s[b]));
    if i == 0 {
        lemma_mod_self_0(n);
    } else {
        lemma_small_mod(i as nat, n as nat);
    }
}

/// Moving the selection forward once per button comes back to where it started.
pub proof fn law_cycle_full_turn(buttons: PromptButtons, selected: PromptSelectedButton)
    requires
        spec_prompt_buttons(buttons).contains(selected),
    ensures
        cycled_times(buttons, selected, spec_prompt_buttons(buttons).len()) == selected,
{
    let s = spec_prompt_buttons(buttons);
    let n = s.len() as int;
    let i = button_index(buttons, selected);
    lemma_button_index(buttons, i);
    lemma_cycled_times_index(buttons, i, n as nat);
    lemma_mod_add_multiples_vanish(i, n);
    lemma_small_mod(i as nat, n as nat);
}

/// Moving forward `k` times from the button at `i` lands on the button at `(i + k) % n`.
pub proof fn lemma_cycled_times_index(buttons: PromptButtons, i: int, k: nat)
    requires
        0 <= i < spec_prompt_buttons(buttons).len(),
    ensures
        cycled_times(buttons, spec_prompt_buttons(buttons)[i], k) == spec_prompt_buttons(
            buttons,
        )[(i + k) % (spec_prompt_buttons(buttons).len() as int)],
    decreases k,
{
    let s = spec_prompt_buttons(buttons);
    let n = s.len() as int;
    if k > 0 {
        lemma_cycled_times_index(buttons, i, (k - 1) as nat);
        let p = (i + k - 1) % n;
        lemma_mod_pos_bound(i + k - 1, n);
        lemma_button_index(buttons, p);
        assert(s.contains(s[p]));
        lemma_add_mod_noop_right(1, i + k - 1, n);
        assert(1 + (i + k - 1) == i + k);
        assert(1 + p == p + 1);
    } else {
        lemma_small_mod(i as nat, n as nat);
    }
}

/// The selection after moving forward `n` times.
pub open spec fn cycled_times(
    buttons: PromptButtons,
    selected: PromptSelectedButton,
    n: nat,
) -> PromptSelectedButton
    decreases n,
{
    if n == 0 {
        selected
    } else {
        spec_cycled_button(buttons, cycled_times(buttons, selected, (n - 1) as nat), true)
    }
}

/// What the OK button of a prompt goes on to do.
#[derive(Debug, Clone, PartialEq, Eq)]
pub enum PromptOkAction {
    ExitApp,
    ClearLogs,
    ReloadEditorTab(u64),
    RemoveBus(u16),
    DeleteBrowserPath(String),
}

/// What runs once the unsaved work is resolved.
#[derive(Debug, Clone, PartialEq, Eq)]
pub enum EditorContinuation {
    CloseTab(u64),
    LoadProject(String),
    OpenScore(String),
    ExitApp,
}

/// An action waiting on the answers to one prompt per unsaved tab, or for the project.
#[derive(Debug, Clone, PartialEq, Eq)]
pub enum PendingEditorAction {
    ResolveDirtyTabs { dirty_tab_ids: Vec<u64>, continuation: EditorContinuation },
    ResolveDirtyProject { continuation: EditorContinuation },
}

/// What a key press on an open prompt leads to.
#[derive(Debug, Clone, Copy, PartialEq, Eq, Structural)]
pub enum PromptKeyOutcome {
    /// The prompt is answered with this message.
    Send(PromptMessage),
    /// The key was used up by the prompt.
    Handled,
}

/// What answering a prompt leads to.
#[derive(Debug, Clone, PartialEq, Eq)]
pub enum PromptResponse {
    /// The prompt was closed; run its OK action, if it had one.
    RunOkAction(Option<PromptOkAction>),
    /// Save the unsaved work the pending action is waiting on.
    SavePending,
    /// Discard the unsaved work the pending action is waiting on.
    DiscardPending,
    /// Nothing more to do.
    Done,
}

/// The next step of a pending action.
#[derive(Debug, Clone, PartialEq, Eq)]
pub enum PendingStep {
    /// Nothing is pending.
    Nothing,
    /// Another unsaved tab is waiting: show its prompt.
    ShowPrompt,
    /// All is resolved: go on with the continuation.
    Continue(EditorContinuation),
    /// Go on with the continuation without asking about the project again.
    ContinueWithoutProjectCheck(EditorContinuation),
}

/// What saving on a pending prompt saves.
#[derive(Debug, Clone, Copy, PartialEq, Eq, Structural)]
pub enum PendingSave {
    /// The first unsaved tab, if there is one.
    Tab(Option<u64>),
    /// The project.
    Project,
    /// Nothing is pending.
    Nothing,
}

/// The prompt on screen, its selected button, its OK action, and the pending editor action.
#[derive(Debug, Clone)]
pub struct PromptState {
    pub error_prompt: Option<ErrorPrompt>,
    pub prompt_ok_action: Option<PromptOkAction>,
    pub prompt_selected_button: PromptSelectedButton,
    pub pending_editor_action: Option<PendingEditorAction>,
    pub pending_editor_save_as_tab: Option<u64>,
}

/// The message the selected button sends.
pub open spec fn spec_selected_message(b: PromptSelectedButton) -> PromptMessage {
    match b {
        PromptSelectedButton::Okay => PromptMessage::Acknowledge,
        PromptSelectedButton::Discard => PromptMessage::Discard,
        PromptSelectedButton::Cancel => PromptMessage::Cancel,
    }
}

/// Whether the prompt on screen offers the button.
pub open spec fn spec_has_button(prompt: Option<ErrorPrompt>, b: PromptSelectedButton) -> bool {
    match prompt {
        Some(p) => spec_prompt_buttons(p.buttons).contains(b),
        None => false,
    }
}

/// The title of the prompt for an unsaved tab.
pub open spec fn spec_dirty_tab_title(title: Seq<char>, missing: bool) -> Seq<char> {
    if missing {
        "Save "@ + title + "?"@
    } else {
        "Close "@ + title + "?"@
    }
}

/// The question asked for an unsaved tab.
pub open spec fn spec_dirty_tab_message(title: Seq<char>, missing: bool) -> Seq<char> {
    if missing {
        title + " is missing on disk. Save it before continuing to recreate the file?"@
    } else {
        "Save changes to "@ + title + " before continuing?"@
    }
}

/// The prompt a pending action shows, given the title of its first unsaved tab and whether
/// that tab's file is missing on disk.
pub open spec fn spec_pending_prompt_matches(
    action: PendingEditorAction,
    title: Seq<char>,
    missing: bool,
    p: ErrorPrompt,
) -> bool {
    match action {
        PendingEditorAction::ResolveDirtyTabs { .. } => spec_dirty_tab_prompt_matches(
            title,
            missing,
            p,
        ),
        PendingEditorAction::ResolveDirtyProject { .. } => {
            &&& p.fatality == ErrorFatality::Recoverable
            &&& p.tone == PromptTone::Warning
            &&& p.buttons == PromptButtons::SaveDiscardCancel
            &&& p.ok_label is None
            &&& p.cancel_label is None
            &&& p.title@ == "Save project changes?"@
            &&& p.message@ == "Project state changed. Save the project before continuing?"@
            &&& p.discard_label is None
        },
    }
}

/// The prompt about an unsaved tab titled `title`.
pub open spec fn spec_dirty_tab_prompt_matches(title: Seq<char>, missing: bool, p: ErrorPrompt) -> bool {
    &&& p.fatality == ErrorFatality::Recoverable
    &&& p.tone == PromptTone::Warning
    &&& p.buttons == PromptButtons::SaveDiscardCancel
    &&& p.ok_label is None
    &&& p.cancel_label is None
    &&& p.title@ == spec_dirty_tab_title(title, missing)
    &&& p.message@ == spec_dirty_tab_message(title, missing)
    &&& if missing {
        p.discard_label matches Some(l) && l@ == "Close Without Saving"@
    } else {
        p.discard_label is None
    }
}

impl PromptState {
    /// No prompt and nothing pending.
    pub fn new() -> (s: Self)
        ensures
            s.error_prompt is None,
            s.prompt_ok_action is None,
            s.prompt_selected_button == PromptSelectedButton::Okay,
            s.pending_editor_action is None,
            s.pending_editor_save_as_tab is None,
    {
        PromptState {
            error_prompt: None,
            prompt_ok_action: None,
            prompt_selected_button: PromptSelectedButton::Okay,
            pending_editor_action: None,
            pending_editor_save_as_tab: None,
        }
    }

    /// Shows a prompt with OK selected; `ok_action` runs when it is acknowledged.
    pub fn show_prompt(&mut self, prompt: ErrorPrompt, ok_action: Option<PromptOkAction>)
        ensures
            final(self).error_prompt == Some(prompt),
            final(self).prompt_ok_action == ok_action,
            final(self).prompt_selected_button == PromptSelectedButton::Okay,
            final(self).pending_editor_action == old(self).pending_editor_action,
            final(self).pending_editor_save_as_tab == old(self).pending_editor_save_as_tab,
    {
        self.error_prompt = Some(prompt);
        self.prompt_ok_action = ok_action;
        self.prompt_selected_button = PromptSelectedButton::Okay;
    }

    /// Closes the prompt and forgets its OK action.
    pub fn cancel_prompt(&mut self)
        ensures
            final(self).error_prompt is None,
            final(self).prompt_ok_action is None,
            final(self).prompt_selected_button == PromptSelectedButton::Okay,
            final(self).pending_editor_action == old(self).pending_editor_action,
            final(self).pending_editor_save_as_tab == old(self).pending_editor_save_as_tab,
    {
        self.error_prompt = None;
        self.prompt_ok_action = None;
        self.prompt_selected_button = PromptSelectedButton::Okay;
    }

    /// Closes the prompt and abandons the pending editor action.
    pub fn cancel_pending_prompt(&mut self)
        ensures
            final(self).error_prompt is None,
            final(self).prompt_ok_action == old(self).prompt_ok_action,
            final(self).prompt_selected_button == PromptSelectedButton::Okay,
            final(self).pending_editor_action is None,
            final(self).pending_editor_save_as_tab is None,
    {
        self.error_prompt = None;
        self.prompt_selected_button = PromptSelectedButton::Okay;
        self.pending_editor_action = None;
        self.pending_editor_save_as_tab = None;
    }

    /// Closes the prompt on OK and hands back its OK action; with no prompt open nothing
    /// changes and nothing runs.
    pub fn acknowledge_prompt(&mut self) -> (r: Option<PromptOkAction>)
        ensures
            old(self).error_prompt is None ==> r is None && *final(self) == *old(self),
            old(self).error_prompt is Some ==> {
                &&& r == old(self).prompt_ok_action
                &&& final(self).error_prompt is None
                &&& final(self).prompt_ok_action is None
                &&& final(self).prompt_selected_button == PromptSelectedButton::Okay
                &&& final(self).pending_editor_action == old(self).pending_editor_action
                &&& final(self).pending_editor_save_as_tab == old(self).pending_editor_save_as_tab
            },
    {
        if self.error_prompt.is_none() {
            return None;
        }
        self.error_prompt = None;
        self.prompt_selected_button = PromptSelectedButton::Okay;
        self.prompt_ok_action.take()
    }

    /// The message the selected button sends.
    pub fn selected_prompt_message(&self) -> (m: PromptMessage)
        ensures
            m == spec_selected_message(self.prompt_selected_button),
    {
        match self.prompt_selected_button {
            PromptSelectedButton::Okay => PromptMessage::Acknowledge,
            PromptSelectedButton::Discard => PromptMessage::Discard,
            PromptSelectedButton::Cancel => PromptMessage::Cancel,
        }
    }

    /// Whether the prompt on screen offers `button`.
    pub fn prompt_has_button(&self, button: PromptSelectedButton) -> (r: bool)
        ensures
            r == spec_has_button(self.error_prompt, button),
    {
        let prompt = match &self.error_prompt {
            Some(prompt) => prompt,
            None => return false,
        };
        let buttons = prompt_buttons(prompt.buttons());
        let found = button_position(&buttons, button);
        proof {
            if spec_prompt_buttons(prompt.buttons).contains(button) {
                let k = choose|k: int|
                    0 <= k < buttons@.len() && #[trigger] buttons@[k] == button;
                assert(buttons@[k] == button);
            }
        }
        found.is_some()
    }

    /// Moves the selected button forward (`direction >= 0`) or back, wrapping around.
    pub fn cycle_prompt_selection(&mut self, direction: i8)
        ensures
            final(self).prompt_selected_button == match old(self).error_prompt {
                None => old(self).prompt_selected_button,
                Some(p) => spec_cycled_button(
                    p.buttons,
                    old(self).prompt_selected_button,
                    direction >= 0,
                ),
            },
            final(self).error_prompt == old(self).error_prompt,
            final(self).prompt_ok_action == old(self).prompt_ok_action,
            final(self).pending_editor_action == old(self).pending_editor_action,
            final(self).pending_editor_save_as_tab == old(self).pending_editor_save_as_tab,
    {
        let buttons = match &self.error_prompt {
            Some(prompt) => prompt_buttons(prompt.buttons()),
            None => return ,
        };
        let ghost kind = self.error_prompt->0.buttons;
        let selected = self.prompt_selected_button;
        match button_position(&buttons, selected) {
            None => {
                self.prompt_selected_button = buttons[0];
            },
            Some(i) => {
                proof {
                    lemma_button_index(kind, i as int);
                }
                let next = if direction < 0 {
                    if i == 0 {
                        buttons.len() - 1
                    } else {
                        i - 1
                    }
                } else {
                    (i + 1) % buttons.len()
                };
                self.prompt_selected_button = buttons[next];
            },
        }
    }

    /// Handles a key while a prompt is open: Enter answers with the selected button, Tab and
    /// the right arrow move forward (back with Shift), the left arrow moves back, and Escape
    /// cancels when the prompt has a Cancel button. Every key is used up.
    pub fn handle_prompt_key_pressed(&mut self, key_press: KeyPress) -> (r: PromptKeyOutcome)
        ensures
            key_press.key == KeyName::Enter ==> r == PromptKeyOutcome::Send(
                spec_selected_message(old(self).prompt_selected_button),
            ) && *final(self) == *old(self),
            (key_press.key == KeyName::Tab || key_press.key == KeyName::ArrowRight) ==> {
                &&& r == PromptKeyOutcome::Handled
                &&& final(self).prompt_selected_button == match old(self).error_prompt {
                    None => old(self).prompt_selected_button,
                    Some(p) => spec_cycled_button(
                        p.buttons,
                        old(self).prompt_selected_button,
                        !key_press.shift,
                    ),
                }
            },
            key_press.key == KeyName::ArrowLeft ==> {
                &&& r == PromptKeyOutcome::Handled
                &&& final(self).prompt_selected_button == match old(self).error_prompt {
                    None => old(self).prompt_selected_button,
                    Some(p) => spec_cycled_button(p.buttons, old(self).prompt_selected_button, false),
                }
            },
            key_press.key == KeyName::Escape ==> *final(self) == *old(self) && r == if spec_has_button(
                old(self).error_prompt,
                PromptSelectedButton::Cancel,
            ) {
                PromptKeyOutcome::Send(PromptMessage::Cancel)
            } else {
                PromptKeyOutcome::Handled
            },
            (key_press.key == KeyName::ArrowUp || key_press.key == KeyName::ArrowDown
                || key_press.key == KeyName::Other) ==> r == PromptKeyOutcome::Handled
                && *final(self) == *old(self),
            final(self).error_prompt == old(self).error_prompt,
            final(self).prompt_ok_action == old(self).prompt_ok_action,
            final(self).pending_editor_action == old(self).pending_editor_action,
            final(self).pending_editor_save_as_tab == old(self).pending_editor_save_as_tab,
    {
        if crate::keys::key_is_enter(key_press.key) {
            return PromptKeyOutcome::Send(self.selected_prompt_message());
        }
        if crate::keys::prompt_key_cycles_forward(key_press.key) {
            self.cycle_prompt_selection(
                if key_press.shift {
                    -1
                } else {
                    1
                },
            );
            return PromptKeyOutcome::Handled;
        }
        if matches!(key_press.key, KeyName::ArrowLeft) {
            self.cycle_prompt_selection(-1);
            return PromptKeyOutcome::Handled;
        }
        self.handle_prompt_escape_key(key_press.key)
    }

    /// Escape cancels a prompt that has a Cancel button; any other key does nothing.
    pub fn handle_prompt_escape_key(&self, key: KeyName) -> (r: PromptKeyOutcome)
        ensures
            r == if key == KeyName::Escape && spec_has_button(
                self.error_prompt,
                PromptSelectedButton::Cancel,
            ) {
                PromptKeyOutcome::Send(PromptMessage::Cancel)
            } else {
                PromptKeyOutcome::Handled
            },
    {
        if crate::keys::key_is_escape(key) && self.prompt_has_button(PromptSelectedButton::Cancel) {
            return PromptKeyOutcome::Send(PromptMessage::Cancel);
        }
        PromptKeyOutcome::Handled
    }

    /// Answers the prompt. While an editor action is pending, the answer is about its unsaved
    /// work (Cancel abandons the action); otherwise OK runs the prompt's action, Cancel closes
    /// it, and Discard does nothing.
    pub fn handle_prompt_message(&mut self, message: PromptMessage) -> (r: PromptResponse)
        ensures
            old(self).pending_editor_action is Some ==> match message {
                PromptMessage::Acknowledge => r == PromptResponse::SavePending && *final(self)
                    == *old(self),
                PromptMessage::Discard => r == PromptResponse::DiscardPending && *final(self)
                    == *old(self),
                PromptMessage::Cancel => {
                    &&& r == PromptResponse::Done
                    &&& final(self).error_prompt is None
                    &&& final(self).prompt_selected_button == PromptSelectedButton::Okay
                    &&& final(self).pending_editor_action is None
                    &&& final(self).pending_editor_save_as_tab is None
                    &&& final(self).prompt_ok_action == old(self).prompt_ok_action
                },
            },
            old(self).pending_editor_action is None ==> match message {
                PromptMessage::Acknowledge => {
                    &&& r == PromptResponse::RunOkAction(
                        if old(self).error_prompt is Some {
                            old(self).prompt_ok_action
                        } else {
                            None
                        },
                    )
                    &&& final(self).error_prompt is None
                    &&& old(self).error_prompt is Some ==> final(self).prompt_ok_action is None
                        && final(self).prompt_selected_button == PromptSelectedButton::Okay
                    &&& old(self).error_prompt is None ==> *final(self) == *old(self)
                    &&& final(self).pending_editor_action is None
                    &&& final(self).pending_editor_save_as_tab == old(self).pending_editor_save_as_tab
                },
                PromptMessage::Discard => r == PromptResponse::Done && *final(self) == *old(self),
                PromptMessage::Cancel => {
                    &&& r == PromptResponse::Done
                    &&& final(self).error_prompt is None
                    &&& final(self).prompt_ok_action is None
                    &&& final(self).prompt_selected_button == PromptSelectedButton::Okay
                    &&& final(self).pending_editor_action is None
                    &&& final(self).pending_editor_save_as_tab == old(self).pending_editor_save_as_tab
                },
            },
    {
        if self.pending_editor_action.is_some() {
            return match message {
                PromptMessage::Acknowledge => PromptResponse::SavePending,
                PromptMessage::Discard => PromptResponse::DiscardPending,
                PromptMessage::Cancel => {
                    self.cancel_pending_prompt();
                    PromptResponse::Done
                },
            };
        }
        match message {
            PromptMessage::Acknowledge => PromptResponse::RunOkAction(self.acknowledge_prompt()),
            PromptMessage::Discard => PromptResponse::Done,
            PromptMessage::Cancel => {
                self.cancel_prompt();
                PromptResponse::Done
            },
        }
    }

    /// Starts waiting on unsaved tabs before `continuation`; with none it goes on at once.
    pub fn begin_pending_editor_action(
        &mut self,
        dirty_tab_ids: Vec<u64>,
        continuation: EditorContinuation,
    ) -> (r: PendingStep)
        ensures
            dirty_tab_ids.len() == 0 ==> r == PendingStep::Continue(continuation) && *final(self)
                == *old(self),
            dirty_tab_ids.len() > 0 ==> {
                &&& r == PendingStep::ShowPrompt
                &&& final(self).pending_editor_action == Some(
                    PendingEditorAction::ResolveDirtyTabs { dirty_tab_ids, continuation },
                )
                &&& final(self).error_prompt == old(self).error_prompt
                &&& final(self).prompt_ok_action == old(self).prompt_ok_action
                &&& final(self).prompt_selected_button == old(self).prompt_selected_button
                &&& final(self).pending_editor_save_as_tab == old(self).pending_editor_save_as_tab
            },
    {
        if dirty_tab_ids.len() == 0 {
            return PendingStep::Continue(continuation);
        }
        self.pending_editor_action = Some(
            PendingEditorAction::ResolveDirtyTabs { dirty_tab_ids, continuation },
        );
        PendingStep::ShowPrompt
    }

    /// Starts waiting on the unsaved project before `continuation`; a clean project goes on at
    /// once.
    pub fn begin_pending_project_action(
        &mut self,
        project_is_dirty: bool,
        continuation: EditorContinuation,
    ) -> (r: PendingStep)
        ensures
            !project_is_dirty ==> r == PendingStep::Continue(continuation) && *final(self)
                == *old(self),
            project_is_dirty ==> {
                &&& r == PendingStep::ShowPrompt
                &&& final(self).pending_editor_action == Some(
                    PendingEditorAction::ResolveDirtyProject { continuation },
                )
                &&& final(self).error_prompt == old(self).error_prompt
                &&& final(self).prompt_ok_action == old(self).prompt_ok_action
                &&& final(self).prompt_selected_button == old(self).prompt_selected_button
                &&& final(self).pending_editor_save_as_tab == old(self).pending_editor_save_as_tab
            },
    {
        if !project_is_dirty {
            return PendingStep::Continue(continuation);
        }
        self.pending_editor_action = Some(
            PendingEditorAction::ResolveDirtyProject { continuation },
        );
        PendingStep::ShowPrompt
    }

    /// The first unsaved tab the pending action is waiting on.
    pub fn first_pending_dirty_tab(&self) -> (r: Option<u64>)
        ensures
            r == match self.pending_editor_action {
                Some(PendingEditorAction::ResolveDirtyTabs { dirty_tab_ids, .. }) => if dirty_tab_ids.len() > 0 {
                    Some(dirty_tab_ids[0])
                } else {
                    None
                },
                _ => None,
            },
    {
        match &self.pending_editor_action {
            Some(PendingEditorAction::ResolveDirtyTabs { dirty_tab_ids, .. }) => {
                if dirty_tab_ids.len() > 0 {
                    Some(dirty_tab_ids[0])
                } else {
                    None
                }
            },
            _ => None,
        }
    }

    /// Shows the prompt for the pending action, about the first unsaved tab (titled
    /// `first_tab_title`, `first_tab_missing` when its file is gone) or about the project.
    /// Nothing changes when nothing, or no tab, is pending.
    pub fn show_current_pending_editor_prompt(
        &mut self,
        first_tab_title: &str,
        first_tab_missing: bool,
    )
        ensures
            match old(self).pending_editor_action {
                None => *final(self) == *old(self),
                Some(action) => if (action matches PendingEditorAction::ResolveDirtyTabs {
                    dirty_tab_ids,
                    ..
                } && dirty_tab_ids.len() == 0) {
                    *final(self) == *old(self)
                } else {
                    &&& final(self).error_prompt matches Some(p) && spec_pending_prompt_matches(
                        action,
                        first_tab_title@,
                        first_tab_missing,
                        p,
                    )
                    &&& final(self).prompt_ok_action is None
                    &&& final(self).prompt_selected_button == PromptSelectedButton::Okay
                    &&& final(self).pending_editor_action == old(self).pending_editor_action
                    &&& final(self).pending_editor_save_as_tab == old(self).pending_editor_save_as_tab
                },
            },
    {
        let prompt = match &self.pending_editor_action {
            None => return ,
            Some(PendingEditorAction::ResolveDirtyTabs { dirty_tab_ids, .. }) => {
                if dirty_tab_ids.len() == 0 {
                    return ;
                }
                dirty_tab_prompt(first_tab_title, first_tab_missing)
            },
            Some(PendingEditorAction::ResolveDirtyProject { .. }) => {
                proof {
                    reveal_strlit("Save project changes?");
                    reveal_strlit("Project state changed. Save the project before continuing?");
                }
                ErrorPrompt::new(
                    owned("Save project changes?"),
                    owned("Project state changed. Save the project before continuing?"),
                    ErrorFatality::Recoverable,
                    PromptButtons::SaveDiscardCancel,
                )
            },
        };
        self.error_prompt = Some(prompt);
        self.prompt_ok_action = None;
        self.prompt_selected_button = PromptSelectedButton::Okay;
    }

    /// Asks to close tab `tab_id`, titled `tab_title`. A tab with unsaved changes, or whose
    /// file is gone from disk, is first settled through the unsaved-tab prompt, with the close
    /// waiting behind it; any other tab closes at once (`true`).
    pub fn request_close_editor_tab(
        &mut self,
        tab_id: u64,
        tab_modified: bool,
        missing_on_disk: bool,
        tab_title: &str,
    ) -> (close_now: bool)
        ensures
            close_now == !(tab_modified || missing_on_disk),
            close_now ==> *final(self) == *old(self),
            !close_now ==> {
                &&& final(self).pending_editor_action matches Some(
                    PendingEditorAction::ResolveDirtyTabs { dirty_tab_ids, continuation },
                ) && dirty_tab_ids@ == seq![tab_id] && continuation == EditorContinuation::CloseTab(
                    tab_id,
                )
                &&& final(self).error_prompt matches Some(p) && spec_dirty_tab_prompt_matches(
                    tab_title@,
                    missing_on_disk,
                    p,
                )
                &&& final(self).prompt_ok_action is None
                &&& final(self).prompt_selected_button == PromptSelectedButton::Okay
                &&& final(self).pending_editor_save_as_tab == old(self).pending_editor_save_as_tab
            },
    {
        if !(tab_modified || missing_on_disk) {
            return true;
        }
        let ids = vec![tab_id];
        proof {
            assert(ids@ =~= seq![tab_id]);
        }
        self.pending_editor_action = Some(
            PendingEditorAction::ResolveDirtyTabs {
                dirty_tab_ids: ids,
                continuation: EditorContinuation::CloseTab(tab_id),
            },
        );
        self.show_current_pending_editor_prompt(tab_title, missing_on_disk);
        false
    }

    /// Drops the first unsaved tab, now answered, and says whether another one is waiting.
    pub fn pending_action_still_needs_prompt(&mut self) -> (r: bool)
        ensures
            match old(self).pending_editor_action {
                Some(PendingEditorAction::ResolveDirtyTabs { dirty_tab_ids, continuation }) => {
                    let rest = if dirty_tab_ids.len() > 0 {
                        dirty_tab_ids@.drop_first()
                    } else {
                        dirty_tab_ids@
                    };
                    &&& final(self).pending_editor_action matches Some(
                        PendingEditorAction::ResolveDirtyTabs { dirty_tab_ids: ids, continuation: c },
                    ) && ids@ == rest && c == continuation
                    &&& r == (rest.len() > 0)
                },
                _ => !r && final(self).pending_editor_action == old(self).pending_editor_action,
            },
            final(self).error_prompt == old(self).error_prompt,
            final(self).prompt_ok_action == old(self).prompt_ok_action,
            final(self).prompt_selected_button == old(self).prompt_selected_button,
            final(self).pending_editor_save_as_tab == old(self).pending_editor_save_as_tab,
    {
        let action = self.pending_editor_action.take();
        match action {
            Some(PendingEditorAction::ResolveDirtyTabs { dirty_tab_ids, continuation }) => {
                let mut ids = dirty_tab_ids;
                if ids.len() > 0 {
                    ids.remove(0);
                }
                let needs = ids.len() > 0;
                self.pending_editor_action = Some(
                    PendingEditorAction::ResolveDirtyTabs { dirty_tab_ids: ids, continuation },
                );
                needs
            },
            other => {
                self.pending_editor_action = other;
                false
            },
        }
    }

    /// Ends the pending action and hands back what was waiting on it.
    pub fn take_pending_editor_continuation(&mut self) -> (r: Option<EditorContinuation>)
        ensures
            r == match old(self).pending_editor_action {
                Some(PendingEditorAction::ResolveDirtyTabs { continuation, .. }) => Some(
                    continuation,
                ),
                Some(PendingEditorAction::ResolveDirtyProject { continuation }) => Some(
                    continuation,
                ),
                None => None,
            },
            final(self).pending_editor_action is None,
            final(self).error_prompt == old(self).error_prompt,
            final(self).prompt_ok_action == old(self).prompt_ok_action,
            final(self).prompt_selected_button == old(self).prompt_selected_button,
            final(self).pending_editor_save_as_tab == old(self).pending_editor_save_as_tab,
    {
        match self.pending_editor_action.take() {
            Some(PendingEditorAction::ResolveDirtyTabs { continuation, .. }) => Some(continuation),
            Some(PendingEditorAction::ResolveDirtyProject { continuation }) => Some(continuation),
            None => None,
        }
    }

    /// Moves the pending action on after one unsaved item was answered: the next unsaved tab
    /// is prompted for, or, with none left, the prompt closes and the continuation runs.
    pub fn advance_pending_editor_action(&mut self) -> (r: PendingStep)
        ensures
            match old(self).pending_editor_action {
                Some(PendingEditorAction::ResolveDirtyTabs { dirty_tab_ids, continuation }) => {
                    if dirty_tab_ids.len() > 1 {
                        &&& r == PendingStep::ShowPrompt
                        &&& final(self).pending_editor_action matches Some(
                            PendingEditorAction::ResolveDirtyTabs {
                                dirty_tab_ids: ids,
                                continuation: c,
                            },
                        ) && ids@ == dirty_tab_ids@.drop_first() && c == continuation
                        &&& final(self).error_prompt == old(self).error_prompt
                        &&& final(self).prompt_selected_button == old(self).prompt_selected_button
                    } else {
                        &&& r == PendingStep::Continue(continuation)
                        &&& final(self).pending_editor_action is None
                        &&& final(self).error_prompt is None
                        &&& final(self).prompt_selected_button == PromptSelectedButton::Okay
                    }
                },
                Some(PendingEditorAction::ResolveDirtyProject { continuation }) => {
                    &&& r == PendingStep::Continue(continuation)
                    &&& final(self).pending_editor_action is None
                    &&& final(self).error_prompt is None
                    &&& final(self).prompt_selected_button == PromptSelectedButton::Okay
                },
                None => r == PendingStep::Nothing && *final(self) == *old(self),
            },
            final(self).prompt_ok_action == old(self).prompt_ok_action,
            final(self).pending_editor_save_as_tab == old(self).pending_editor_save_as_tab,
    {
        if self.pending_action_still_needs_prompt() {
            return PendingStep::ShowPrompt;
        }
        let continuation = match self.take_pending_editor_continuation() {
            Some(continuation) => continuation,
            None => return PendingStep::Nothing,
        };
        self.error_prompt = None;
        self.prompt_selected_button = PromptSelectedButton::Okay;
        PendingStep::Continue(continuation)
    }

    /// Save on a pending prompt: the prompt closes and the first unsaved tab, or the project,
    /// is to be saved.
    pub fn handle_pending_prompt_save(&mut self) -> (r: PendingSave)
        ensures
            r == match old(self).pending_editor_action {
                Some(PendingEditorAction::ResolveDirtyTabs { dirty_tab_ids, .. }) => PendingSave::Tab(
                    if dirty_tab_ids.len() > 0 {
                        Some(dirty_tab_ids[0])
                    } else {
                        None
                    },
                ),
                Some(PendingEditorAction::ResolveDirtyProject { .. }) => PendingSave::Project,
                None => PendingSave::Nothing,
            },
            final(self).error_prompt is None,
            final(self).prompt_selected_button == PromptSelectedButton::Okay,
            final(self).prompt_ok_action == old(self).prompt_ok_action,
            final(self).pending_editor_action == old(self).pending_editor_action,
            final(self).pending_editor_save_as_tab == old(self).pending_editor_save_as_tab,
    {
        self.error_prompt = None;
        self.prompt_selected_button = PromptSelectedButton::Okay;
        match &self.pending_editor_action {
            Some(PendingEditorAction::ResolveDirtyTabs { dirty_tab_ids, .. }) => {
                if dirty_tab_ids.len() > 0 {
                    PendingSave::Tab(Some(dirty_tab_ids[0]))
                } else {
                    PendingSave::Tab(None)
                }
            },
            Some(PendingEditorAction::ResolveDirtyProject { .. }) => PendingSave::Project,
            None => PendingSave::Nothing,
        }
    }

    /// Discard on a pending prompt: the unsaved project is left as it is and the continuation
    /// runs without asking again; an unsaved tab is skipped and the action moves on.
    pub fn handle_pending_prompt_discard(&mut self) -> (r: PendingStep)
        ensures
            match old(self).pending_editor_action {
                Some(PendingEditorAction::ResolveDirtyProject { continuation }) => {
                    &&& r == PendingStep::ContinueWithoutProjectCheck(continuation)
                    &&& final(self).pending_editor_action is None
                    &&& final(self).error_prompt is None
                    &&& final(self).prompt_selected_button == PromptSelectedButton::Okay
                },
                Some(PendingEditorAction::ResolveDirtyTabs { dirty_tab_ids, continuation }) => {
                    if dirty_tab_ids.len() > 1 {
                        &&& r == PendingStep::ShowPrompt
                        &&& final(self).pending_editor_action matches Some(
                            PendingEditorAction::ResolveDirtyTabs {
                                dirty_tab_ids: ids,
                                continuation: c,
                            },
                        ) && ids@ == dirty_tab_ids@.drop_first() && c == continuation
                    } else {
                        &&& r == PendingStep::Continue(continuation)
                        &&& final(self).pending_editor_action is None
                        &&& final(self).error_prompt is None
                        &&& final(self).prompt_selected_button == PromptSelectedButton::Okay
                    }
                },
                None => r == PendingStep::Nothing && *final(self) == *old(self),
            },
            final(self).prompt_ok_action == old(self).prompt_ok_action,
            final(self).pending_editor_save_as_tab == old(self).pending_editor_save_as_tab,
    {
        let action = self.pending_editor_action.take();
        match action {
            Some(PendingEditorAction::ResolveDirtyProject { continuation }) => {
                self.error_prompt = None;
                self.prompt_selected_button = PromptSelectedButton::Okay;
                PendingStep::ContinueWithoutProjectCheck(continuation)
            },
            Some(action) => {
                self.pending_editor_action = Some(action);
                self.advance_pending_editor_action()
            },
            None => PendingStep::Nothing,
        }
    }
}

/// The first index at which `b` stands in `buttons`, if it does.
pub fn button_position(buttons: &Vec<PromptSelectedButton>, b: PromptSelectedButton) -> (r: Option<
    usize,
>)
    ensures
        match r {
            Some(i) => i < buttons@.len() && buttons@[i as int] == b && forall|j: int|
                0 <= j < i ==> buttons@[j] != b,
            None => !buttons@.contains(b),
        },
{
    let mut i: usize = 0;
    while i < buttons.len()
        invariant
            i <= buttons@.len(),
            forall|j: int| 0 <= j < i ==> buttons@[j] != b,
        decreases buttons.len() - i,
    {
        if buttons[i] == b {
            return Some(i);
        }
        i = i + 1;
    }
    None
}

/// The prompt about an unsaved tab titled `title`; when its file is missing on disk it offers
/// to save it again and its Discard button reads `Close Without Saving`.
pub fn dirty_tab_prompt(title: &str, missing: bool) -> (p: ErrorPrompt)
    ensures
        spec_dirty_tab_prompt_matches(title@, missing, p),
{
    if missing {
        let head = concat_strs("Save ", title);
        let full_title = concat_strs(head.as_str(), "?");
        let message = concat_strs(
            title,
            " is missing on disk. Save it before continuing to recreate the file?",
        );
        proof {
            reveal_strlit("Close Without Saving");
        }
        ErrorPrompt::new(
            full_title,
            message,
            ErrorFatality::Recoverable,
            PromptButtons::SaveDiscardCancel,
        ).with_discard_label(owned("Close Without Saving"))
    } else {
        let head = concat_strs("Close ", title);
        let full_title = concat_strs(head.as_str(), "?");
        let lead = concat_strs("Save changes to ", title);
        let message = concat_strs(lead.as_str(), " before continuing?");
        ErrorPrompt::new(
            full_title,
            message,
            ErrorFatality::Recoverable,
            PromptButtons::SaveDiscardCancel,
        )
    }
}

/// The title and message asking to clear the log.
pub fn clear_logs_prompt() -> (p: ErrorPrompt)
    ensures
        p.title@ == "Clear Logger"@,
        p.message@ == "Do you want to clear all log messages?"@,
        p.fatality == ErrorFatality::Recoverable,
        p.tone == PromptTone::Warning,
        p.buttons == PromptButtons::OkCancel,
        p.ok_label is None && p.discard_label is None && p.cancel_label is None,
{
    ErrorPrompt::new(
        owned("Clear Logger"),
        owned("Do you want to clear all log messages?"),
        ErrorFatality::Recoverable,
        PromptButtons::OkCancel,
    )
}

} // verus!
