//! The application log: the latest lines, in order, shown as one text.

use vstd::prelude::*;

use crate::shortcuts::WorkspacePaneKind;
use crate::prompts::{
    clear_logs_prompt, ErrorFatality, PromptButtons, PromptOkAction, PromptSelectedButton, PromptState,
};
use crate::text::{chars_of, string_from_chars};
use crate::workspace::Workspace;

verus! {

/// The log keeps at most this many lines.
pub const MAX_LOG_LINES: usize = 2000;

/// The last `n` items of `s` (all of them when there are fewer).
pub open spec fn keep_last(s: Seq<String>, n: nat) -> Seq<String> {
    if s.len() > n {
        s.subrange(s.len() - n, s.len() as int)
    } else {
        s
    }
}

/// The lines joined with line breaks between them.
pub open spec fn joined_lines(lines: Seq<String>) -> Seq<char>
    decreases lines.len(),
{
    if lines.len() == 0 {
        Seq::empty()
    } else if lines.len() == 1 {
        lines[0]@
    } else {
        joined_lines(lines.drop_last()) + seq!['\n'] + lines.last()@
    }
}

/// The lines logged so far, oldest first; older lines are dropped beyond
/// [`MAX_LOG_LINES`].
#[derive(Debug)]
pub struct Logger {
    lines: Vec<String>,
}

impl View for Logger {
    type V = Seq<String>;

    closed spec fn view(&self) -> Seq<String> {
        self.lines@
    }
}

/// Keeping the last lines after one more line is the same as keeping them after all the
/// lines at once.
proof fn lemma_keep_last_push(s: Seq<String>, x: String, n: nat)
    requires
        n > 0,
    ensures
        keep_last(keep_last(s, n).push(x), n) == keep_last(s.push(x), n),
{
    let k = keep_last(s, n);
    if s.len() > n {
        assert(keep_last(k.push(x), n) =~= keep_last(s.push(x), n));
    } else if s.len() == n {
        assert(keep_last(k.push(x), n) =~= keep_last(s.push(x), n));
    }
}

impl Logger {
    #[verifier::type_invariant]
    spec fn bounded(&self) -> bool {
        self.lines@.len() <= MAX_LOG_LINES
    }

    /// An empty log.
    pub fn new() -> (l: Self)
        ensures
            l@ == Seq::<String>::empty(),
    {
        Logger { lines: Vec::new() }
    }

    /// Adds a line; the oldest line is dropped once the log is full.
    pub fn push(&mut self, line: String)
        ensures
            final(self)@ == keep_last(old(self)@.push(line), MAX_LOG_LINES as nat),
            final(self)@.len() <= MAX_LOG_LINES,
    {
        proof {
            use_type_invariant(&*self);
        }
        let mut lines = Vec::new();
        std::mem::swap(&mut lines, &mut self.lines);
        let ghost before = lines@;
        lines.push(line);
        if lines.len() > MAX_LOG_LINES {
            lines.remove(0);
            proof {
                assert(lines@ =~= keep_last(before.push(line), MAX_LOG_LINES as nat));
            }
        }
        self.lines = lines;
    }

    /// Adds lines in order, as if each were pushed in turn.
    pub fn extend(&mut self, lines: Vec<String>)
        ensures
            final(self)@ == keep_last(old(self)@ + lines@, MAX_LOG_LINES as nat),
            final(self)@.len() <= MAX_LOG_LINES,
    {
        let ghost start = self@;
        let mut i: usize = 0;
        proof {
            use_type_invariant(&*self);
            assert(start + lines@.take(0) =~= start);
        }
        while i < lines.len()
            invariant
                i <= lines@.len(),
                self@ == keep_last(start + lines@.take(i as int), MAX_LOG_LINES as nat),
            decreases lines.len() - i,
        {
            let ghost s = start + lines@.take(i as int);
            self.push(lines[i].clone());
            proof {
                lemma_keep_last_push(s, lines@[i as int], MAX_LOG_LINES as nat);
                assert(s.push(lines@[i as int]) =~= start + lines@.take(i + 1));
            }
            i += 1;
        }
        proof {
            assert(lines@.take(i as int) =~= lines@);
            use_type_invariant(&*self);
        }
    }

    /// Forgets every line.
    pub fn clear(&mut self)
        ensures
            final(self)@ == Seq::<String>::empty(),
    {
        self.lines = Vec::new();
    }

    /// Whether nothing is logged.
    pub fn is_empty(&self) -> (r: bool)
        ensures
            r == (self@.len() == 0),
    {
        self.lines.len() == 0
    }

    /// The latest line, if any.
    pub fn last_line(&self) -> (r: Option<&str>)
        ensures
            match r {
                Some(line) => self@.len() > 0 && line@ == self@.last()@,
                None => self@.len() == 0,
            },
    {
        if self.lines.len() == 0 {
            None
        } else {
            Some(self.lines[self.lines.len() - 1].as_str())
        }
    }

    /// The whole log as one text, one line per logged line.
    pub fn text(&self) -> (r: String)
        ensures
            r@ == joined_lines(self@),
    {
        let mut out: Vec<char> = Vec::new();
        let mut i: usize = 0;
        while i < self.lines.len()
            invariant
                i <= self.lines@.len(),
                out@ == joined_lines(self.lines@.take(i as int)),
            decreases self.lines.len() - i,
        {
            proof {
                let t = self.lines@.take(i + 1);
                assert(t.drop_last() =~= self.lines@.take(i as int));
                assert(t.last() == self.lines@[i as int]);
                if i == 0 {
                    assert(t.len() == 1);
                }
            }
            if i > 0 {
                out.push('\n');
            }
            let mut chars = chars_of(self.lines[i].as_str());
            out.append(&mut chars);
            i += 1;
        }
        proof {
            assert(self.lines@.take(i as int) =~= self.lines@);
        }
        string_from_chars(&out)
    }
}


/// Asking to clear the log focuses the logger pane and, when something is logged, asks
/// `Clear Logger` first; the log is cleared once that prompt is acknowledged. An empty log
/// asks nothing.
pub fn request_clear_logs(workspace: &mut Workspace, logger: &Logger, prompts: &mut PromptState)
    ensures
        old(workspace).visible(WorkspacePaneKind::Logger) ==> final(workspace).focused_workspace_pane
            == Some(WorkspacePaneKind::Logger) && !final(workspace).editor_file_browser_focused,
        !old(workspace).visible(WorkspacePaneKind::Logger) ==> final(workspace).focused_workspace_pane
            == old(workspace).focused_workspace_pane && final(workspace).editor_file_browser_focused
            == old(workspace).editor_file_browser_focused,
        final(workspace).dock_groups == old(workspace).dock_groups,
        final(workspace).dock_layout == old(workspace).dock_layout,
        final(workspace).folded_panes == old(workspace).folded_panes,
        logger@.len() > 0 ==> ({
            &&& final(prompts).error_prompt matches Some(p) && p.title@ == "Clear Logger"@
                && p.message@ == "Do you want to clear all log messages?"@
                && p.fatality == ErrorFatality::Recoverable && p.buttons == PromptButtons::OkCancel
            &&& final(prompts).prompt_ok_action == Some(PromptOkAction::ClearLogs)
            &&& final(prompts).prompt_selected_button == PromptSelectedButton::Okay
            &&& final(prompts).pending_editor_action == old(prompts).pending_editor_action
            &&& final(prompts).pending_editor_save_as_tab == old(prompts).pending_editor_save_as_tab
        }),
        logger@.len() == 0 ==> *final(prompts) == *old(prompts),
{
    workspace.set_focused_workspace_pane(WorkspacePaneKind::Logger);
    if !logger.is_empty() {
        prompts.show_prompt(clear_logs_prompt(), Some(PromptOkAction::ClearLogs));
    }
}

} // verus!
