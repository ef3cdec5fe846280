//! The dashboard and its interactive overlay state machine.
//!
//! [`App`] owns the step list, the per-step runtimes, the cursor, the
//! log-scroll offset and the current [`InteractiveMode`].  A rendering
//! layer polls this state read-only; keyboard input arrives as logical
//! [`Key`] values and is dispatched by [`App::handle_key`], whose result
//! tells the caller what outside work (if any) it must drive next.

use crate::executor::AppBatch;
use crate::executor::GitBatch;
use crate::executor::StepAction;
use crate::executor::StepPipeline;
use crate::executor::apply_app_selection;
use crate::executor::apply_git_config;
use crate::executor::error_note;
use crate::executor::git_commands;
use crate::executor::git_config_error_msg;
use crate::executor::plan_matches;
use crate::executor::run_step;
use crate::executor::step_begin_view;
use crate::model::Step;
use crate::model::StepKind;
use crate::model::StepRuntime;
use crate::model::StepStatus;
use crate::text::blank;
use crate::text::pop_char;
use crate::text::push_char;
use vstd::prelude::*;
use vstd::string::StrSliceExecFns;
use vstd::string::StringExecFns;

verus! {

/// A logical key press, decoupled from any concrete key-event source.
#[derive(Debug, Clone, Copy, PartialEq, Eq, Structural)]
pub enum Key {
    Char(char),
    Enter,
    Esc,
    Up,
    Down,
    PageUp,
    PageDown,
    Tab,
    BackTab,
    Backspace,
    Other,
}

/// Which overlay (if any) currently owns keyboard input.
#[derive(Debug, Clone)]
pub enum InteractiveMode {
    Dashboard,
    AppSelection(AppSelectionState),
    GitConfig(GitConfigState),
}

/// The transient editing state of the app-selection overlay: a focus index
/// and one checkbox per offered app.
#[derive(Debug, Clone)]
pub struct AppSelectionState {
    pub cursor: usize,
    pub selected: Vec<bool>,
}

/// The git-config field that currently has focus.
#[derive(Debug, Clone, Copy, PartialEq, Eq, Structural)]
pub enum GitField {
    Name,
    Email,
    Editor,
}

/// The transient editing state of the git-config overlay: the focused
/// field and the three text buffers.
#[derive(Debug, Clone)]
pub struct GitConfigState {
    pub field: GitField,
    pub name: String,
    pub email: String,
    pub editor: String,
}

/// The dashboard: the full state one render tick reads.
#[derive(Debug)]
pub struct App {
    pub steps: Vec<Step>,
    pub runtimes: Vec<StepRuntime>,
    pub current: usize,
    pub global_log: String,
    pub log_scroll: u16,
    pub mode: InteractiveMode,
}

// ---------------------------------------------------------------------------
// Spec helpers
// ---------------------------------------------------------------------------

/// The header logged when an app-selection step enters its overlay.
pub open spec fn app_selection_header(name: Seq<char>) -> Seq<char> {
    "== Running step: "@ + name + " (app selection) ==\n"@
}

/// The header logged when a git-config step enters its overlay.
pub open spec fn git_config_header(name: Seq<char>) -> Seq<char> {
    "== Running step: "@ + name + " (git config) ==\n"@
}

/// All runtimes but the one at `i` are identical in `a` and `b`.
pub open spec fn runtimes_same_except(a: Seq<StepRuntime>, b: Seq<StepRuntime>, i: int) -> bool {
    &&& b.len() == a.len()
    &&& forall|j: int| 0 <= j < a.len() && j != i ==> a[j] == #[trigger] b[j]
}

/// Everything outside the runtime vector, the scroll offset and the mode
/// is untouched.
pub open spec fn frame_unchanged(a: App, b: App) -> bool {
    &&& b.steps == a.steps
    &&& b.global_log == a.global_log
    &&& b.current == a.current
}

/// The focus order of the git-config overlay, forward.
pub open spec fn next_field(f: GitField) -> GitField {
    match f {
        GitField::Name => GitField::Email,
        GitField::Email => GitField::Editor,
        GitField::Editor => GitField::Name,
    }
}

/// The focus order of the git-config overlay, backward.
pub open spec fn prev_field(f: GitField) -> GitField {
    match f {
        GitField::Name => GitField::Editor,
        GitField::Email => GitField::Name,
        GitField::Editor => GitField::Email,
    }
}

/// A backspace on a buffer: the last character removed, if there is one.
pub open spec fn popped(s: Seq<char>) -> Seq<char> {
    if s.len() > 0 {
        s.drop_last()
    } else {
        s
    }
}

/// The ascending list of set checkbox indices.
pub open spec fn true_indices(s: Seq<bool>) -> Seq<usize>
    decreases s.len(),
{
    if s.len() == 0 {
        Seq::empty()
    } else {
        true_indices(s.drop_last()) + (if s.last() {
            seq![(s.len() - 1) as usize]
        } else {
            Seq::empty()
        })
    }
}

fn collect_selected(selected: &Vec<bool>) -> (r: Vec<usize>)
    ensures
        r@ == true_indices(selected@),
{
    let mut r: Vec<usize> = Vec::new();
    let mut i: usize = 0;
    while i < selected.len()
        invariant
            0 <= i <= selected@.len(),
            r@ == true_indices(selected@.take(i as int)),
        decreases selected@.len() - i,
    {
        if selected[i] {
            r.push(i);
        }
        proof {
            let t1 = selected@.take(i + 1 as int);
            assert(t1.drop_last() =~= selected@.take(i as int));
            assert(t1.last() == selected@[i as int]);
            if selected@[i as int] {
                assert(r@ =~= true_indices(t1));
            } else {
                assert(true_indices(t1) =~= true_indices(selected@.take(i as int)));
            }
        }
        i = i + 1;
    }
    proof {
        assert(selected@.take(selected@.len() as int) =~= selected@);
    }
    r
}

/// What the caller must do after a key press has been handled.
#[derive(Debug)]
pub enum Dispatch {
    /// The state is updated; no outside work is needed.
    Nothing,
    /// Leave the dashboard and end the program.
    Quit,
    /// A non-interactive step began: drive this pipeline to completion,
    /// starting with the given action.
    Step(StepPipeline, StepAction),
    /// A confirmed app selection: drive this install batch, then report
    /// its verdict through [`App::finish_interactive`].
    Apps(AppBatch),
    /// Confirmed git-config input: drive this command batch, then report
    /// its verdict through [`App::finish_interactive`].
    Git(GitBatch),
}

// ---------------------------------------------------------------------------
// Post-state specifications of the key handlers
// ---------------------------------------------------------------------------

/// Only the scroll offset changes, to exactly `v`.  The offset is clamped
/// into `u16`: in particular repeated scroll-up events from offset zero
/// leave it at zero, never below.
pub open spec fn scroll_post(a: App, b: App, r: Dispatch, v: u16) -> bool {
    &&& r is Nothing
    &&& frame_unchanged(a, b)
    &&& b.runtimes == a.runtimes
    &&& b.mode is Dashboard
    &&& b.log_scroll == v
}

/// Escaping an overlay: back to the dashboard with the step `Pending`
/// again, however much was entered — only a cancellation note is kept.
pub open spec fn cancel_post(a: App, b: App, r: Dispatch, note: Seq<char>) -> bool {
    &&& r is Nothing
    &&& frame_unchanged(a, b)
    &&& b.log_scroll == 0
    &&& b.mode is Dashboard
    &&& runtimes_same_except(a.runtimes@, b.runtimes@, a.current as int)
    &&& b.runtimes@[a.current as int].status is Pending
    &&& b.runtimes@[a.current as int].log@ == a.runtimes@[a.current as int].log@ + note
}

/// Confirming (Enter) on the step under the cursor: an interactive kind
/// opens its overlay (`Running`, a header line, fresh editing state — for
/// app selection an all-unset checkbox list sized exactly to the app
/// list); any other kind starts the pipeline engine.
pub open spec fn enter_post(a: App, b: App, r: Dispatch) -> bool {
    let step = a.steps@[a.current as int];
    let rt0 = a.runtimes@[a.current as int];
    match step.kind {
        StepKind::AppSelection { params } => {
            &&& r is Nothing
            &&& frame_unchanged(a, b)
            &&& b.log_scroll == 0
            &&& runtimes_same_except(a.runtimes@, b.runtimes@, a.current as int)
            &&& b.runtimes@[a.current as int].status is Running
            &&& b.runtimes@[a.current as int].log@ == rt0.log@ + app_selection_header(step.name@)
            &&& b.mode matches InteractiveMode::AppSelection(s) && s.cursor == 0
                && s.selected@.len() == params.apps@.len() && (forall|k: int|
                0 <= k < s.selected@.len() ==> !(#[trigger] s.selected@[k]))
        },
        StepKind::GitConfig { params } => {
            &&& r is Nothing
            &&& frame_unchanged(a, b)
            &&& b.log_scroll == 0
            &&& runtimes_same_except(a.runtimes@, b.runtimes@, a.current as int)
            &&& b.runtimes@[a.current as int].status is Running
            &&& b.runtimes@[a.current as int].log@ == rt0.log@ + git_config_header(step.name@)
            &&& b.mode matches InteractiveMode::GitConfig(s) && s.field is Name && s.name@
                == Seq::<char>::empty() && s.email@ == Seq::<char>::empty() && s.editor@
                == params.default_editor@
        },
        _ => {
            &&& frame_unchanged(a, b)
            &&& b.log_scroll == 0
            &&& b.mode is Dashboard
            &&& runtimes_same_except(a.runtimes@, b.runtimes@, a.current as int)
            &&& r matches Dispatch::Step(p, act) && ({
                let t = step_begin_view(step, rt0.log@);
                &&& p.phase == t.0.phase
                &&& p.wf(step)
                &&& act@ == t.1
                &&& b.runtimes@[a.current as int].status == t.0.status
                &&& b.runtimes@[a.current as int].log@ == t.0.log
            })
        },
    }
}

/// What each dashboard key does while no overlay is active.
pub open spec fn dashboard_post(a: App, key: Key, b: App, r: Dispatch) -> bool {
    match key {
        Key::Char(c) => {
            if c == 'q' {
                &&& r is Quit
                &&& frame_unchanged(a, b)
                &&& b.runtimes == a.runtimes
                &&& b.log_scroll == a.log_scroll
                &&& b.mode is Dashboard
            } else if c == 'n' {
                &&& r is Nothing
                &&& b.steps == a.steps
                &&& b.global_log == a.global_log
                &&& b.runtimes == a.runtimes
                &&& b.mode is Dashboard
                &&& if a.current + 1 < a.steps@.len() {
                    b.current == a.current + 1 && b.log_scroll == 0
                } else {
                    b.current == a.current && b.log_scroll == a.log_scroll
                }
            } else if c == 'p' {
                &&& r is Nothing
                &&& b.steps == a.steps
                &&& b.global_log == a.global_log
                &&& b.runtimes == a.runtimes
                &&& b.mode is Dashboard
                &&& if a.current > 0 {
                    b.current == a.current - 1 && b.log_scroll == 0
                } else {
                    b.current == a.current && b.log_scroll == a.log_scroll
                }
            } else if c == 's' {
                &&& r is Nothing
                &&& frame_unchanged(a, b)
                &&& b.log_scroll == a.log_scroll
                &&& b.mode is Dashboard
                &&& runtimes_same_except(a.runtimes@, b.runtimes@, a.current as int)
                &&& b.runtimes@[a.current as int].status is Skipped
                &&& b.runtimes@[a.current as int].log@ == a.runtimes@[a.current as int].log@
                    + "Step manually skipped.\n"@
            } else {
                &&& r is Nothing
                &&& frame_unchanged(a, b)
                &&& b.runtimes == a.runtimes
                &&& b.log_scroll == a.log_scroll
                &&& b.mode is Dashboard
            }
        },
        Key::Enter => enter_post(a, b, r),
        Key::Up => scroll_post(
            a,
            b,
            r,
            if a.log_scroll >= 1 {
                (a.log_scroll - 1) as u16
            } else {
                0u16
            },
        ),
        Key::Down => scroll_post(
            a,
            b,
            r,
            if a.log_scroll <= 65534 {
                (a.log_scroll + 1) as u16
            } else {
                65535u16
            },
        ),
        Key::PageUp => scroll_post(
            a,
            b,
            r,
            if a.log_scroll >= 10 {
                (a.log_scroll - 10) as u16
            } else {
                0u16
            },
        ),
        Key::PageDown => scroll_post(
            a,
            b,
            r,
            if a.log_scroll <= 65525 {
                (a.log_scroll + 10) as u16
            } else {
                65535u16
            },
        ),
        _ => {
            &&& r is Nothing
            &&& frame_unchanged(a, b)
            &&& b.runtimes == a.runtimes
            &&& b.log_scroll == a.log_scroll
            &&& b.mode is Dashboard
        },
    }
}

/// The overlay keeps input ownership and only its editing state changes.
pub open spec fn overlay_untouched(a: App, b: App, r: Dispatch) -> bool {
    &&& r is Nothing
    &&& frame_unchanged(a, b)
    &&& b.runtimes == a.runtimes
    &&& b.log_scroll == a.log_scroll
}

/// What each key does while the app-selection overlay is active.
pub open spec fn app_selection_post(
    a: App,
    s: AppSelectionState,
    key: Key,
    b: App,
    r: Dispatch,
) -> bool {
    match key {
        Key::Esc => cancel_post(a, b, r, "App selection cancelled.\n"@),
        Key::Up => {
            &&& overlay_untouched(a, b, r)
            &&& b.mode matches InteractiveMode::AppSelection(s2) && s2.selected == s.selected
                && s2.cursor == (if s.cursor > 0 {
                (s.cursor - 1) as usize
            } else {
                s.cursor
            })
        },
        Key::Down => {
            &&& overlay_untouched(a, b, r)
            &&& b.mode matches InteractiveMode::AppSelection(s2) && s2.selected == s.selected
                && s2.cursor == (if s.cursor + 1 < s.selected@.len() {
                (s.cursor + 1) as usize
            } else {
                s.cursor
            })
        },
        Key::Char(c) => {
            &&& overlay_untouched(a, b, r)
            &&& b.mode matches InteractiveMode::AppSelection(s2) && s2.cursor == s.cursor && (
            if c == ' ' && s.cursor < s.selected@.len() {
                s2.selected@ == s.selected@.update(s.cursor as int, !s.selected@[s.cursor as int])
            } else {
                s2.selected == s.selected
            })
        },
        Key::Enter => {
            let step = a.steps@[a.current as int];
            let log0 = a.runtimes@[a.current as int].log@;
            &&& frame_unchanged(a, b)
            &&& b.log_scroll == 0
            &&& b.mode is Dashboard
            &&& runtimes_same_except(a.runtimes@, b.runtimes@, a.current as int)
            &&& b.runtimes@[a.current as int].status == a.runtimes@[a.current as int].status
            &&& step.kind matches StepKind::AppSelection { params } ==> r matches Dispatch::Apps(
                batch,
            ) && ({
                let sel = true_indices(s.selected@);
                let log1 = b.runtimes@[a.current as int].log@;
                &&& batch.pos == 0
                &&& !batch.awaiting
                &&& !batch.aborted
                &&& batch.wf()
                &&& params.apps@.len() == 0 ==> log1 == log0 + "No apps defined in this step.\n"@
                    && batch.plan@.len() == 0
                &&& params.apps@.len() > 0 && sel.len() == 0 ==> log1 == log0
                    + "No apps selected.\n"@ && batch.plan@.len() == 0
                &&& params.apps@.len() > 0 && sel.len() > 0 ==> log1 == log0 && plan_matches(
                    batch.plan@,
                    params.apps@,
                    sel,
                )
            })
        },
        _ => {
            &&& overlay_untouched(a, b, r)
            &&& b.mode matches InteractiveMode::AppSelection(s2) && s2 == s
        },
    }
}

/// What each key does while the git-config overlay is active.
pub open spec fn git_config_post(a: App, s: GitConfigState, key: Key, b: App, r: Dispatch) -> bool {
    match key {
        Key::Esc => cancel_post(a, b, r, "Git config cancelled.\n"@),
        Key::Tab => {
            &&& overlay_untouched(a, b, r)
            &&& b.mode matches InteractiveMode::GitConfig(s2) && s2 == (GitConfigState {
                field: next_field(s.field),
                name: s.name,
                email: s.email,
                editor: s.editor,
            })
        },
        Key::BackTab => {
            &&& overlay_untouched(a, b, r)
            &&& b.mode matches InteractiveMode::GitConfig(s2) && s2 == (GitConfigState {
                field: prev_field(s.field),
                name: s.name,
                email: s.email,
                editor: s.editor,
            })
        },
        Key::Backspace => {
            &&& overlay_untouched(a, b, r)
            &&& b.mode matches InteractiveMode::GitConfig(s2) && s2.field == s.field && s2.name@
                == (if s.field is Name {
                popped(s.name@)
            } else {
                s.name@
            }) && s2.email@ == (if s.field is Email {
                popped(s.email@)
            } else {
                s.email@
            }) && s2.editor@ == (if s.field is Editor {
                popped(s.editor@)
            } else {
                s.editor@
            })
        },
        Key::Char(c) => {
            &&& overlay_untouched(a, b, r)
            &&& b.mode matches InteractiveMode::GitConfig(s2) && s2.field == s.field && s2.name@
                == (if s.field is Name {
                s.name@ + seq![c]
            } else {
                s.name@
            }) && s2.email@ == (if s.field is Email {
                s.email@ + seq![c]
            } else {
                s.email@
            }) && s2.editor@ == (if s.field is Editor {
                s.editor@ + seq![c]
            } else {
                s.editor@
            })
        },
        Key::Enter => {
            let step = a.steps@[a.current as int];
            let rt0 = a.runtimes@[a.current as int];
            &&& frame_unchanged(a, b)
            &&& b.log_scroll == 0
            &&& b.mode is Dashboard
            &&& runtimes_same_except(a.runtimes@, b.runtimes@, a.current as int)
            &&& step.kind matches StepKind::GitConfig { params } ==> ({
                let rt1 = b.runtimes@[a.current as int];
                if blank(s.name@) {
                    &&& r is Nothing
                    &&& rt1.status is Failed
                    &&& rt1.log@ == rt0.log@ + error_note("Git user.name cannot be empty"@)
                } else if blank(s.email@) {
                    &&& r is Nothing
                    &&& rt1.status is Failed
                    &&& rt1.log@ == rt0.log@ + error_note("Git user.email cannot be empty"@)
                } else {
                    &&& rt1 == rt0
                    &&& r matches Dispatch::Git(batch) && batch.pos == 0 && !batch.awaiting
                        && !batch.failed && batch.wf() && batch.commands@.map_values(
                        |t: String| t@,
                    ) == git_commands(params, s.name@, s.email@, s.editor@)
                }
            })
        },
        _ => {
            &&& overlay_untouched(a, b, r)
            &&& b.mode matches InteractiveMode::GitConfig(s2) && s2 == s
        },
    }
}

// ---------------------------------------------------------------------------
// The dashboard
// ---------------------------------------------------------------------------

impl App {
    /// The structural invariant that every operation preserves: one
    /// runtime per step, the cursor in range.
    pub open spec fn wf_core(self) -> bool {
        &&& self.steps@.len() > 0
        &&& self.runtimes@.len() == self.steps@.len()
        &&& self.current < self.steps@.len()
    }

    /// [`App::wf_core`], and the overlay state (when present) fits the
    /// step under the cursor: the checkbox list is sized to that step's
    /// app list and the focus index is in range.
    pub open spec fn wf(self) -> bool {
        &&& self.wf_core()
        &&& match self.mode {
            InteractiveMode::Dashboard => true,
            InteractiveMode::AppSelection(s) => {
                &&& self.steps@[self.current as int].kind matches StepKind::AppSelection {
                    params,
                } && s.selected@.len() == params.apps@.len()
                &&& (s.cursor < s.selected@.len() || s.cursor == 0)
            },
            InteractiveMode::GitConfig(s) => self.steps@[self.current as int].kind is GitConfig,
        }
    }

    /// A fresh dashboard over a non-empty step list: every step
    /// `Pending` with an empty log, the cursor on the first step, no
    /// overlay active.
    pub fn new(steps: Vec<Step>) -> (r: App)
        requires
            steps@.len() > 0,
        ensures
            r.wf(),
            r.steps == steps,
            r.current == 0,
            r.log_scroll == 0,
            r.mode is Dashboard,
            r.global_log@ == Seq::<char>::empty(),
            r.runtimes@.len() == steps@.len(),
            forall|i: int|
                0 <= i < r.runtimes@.len() ==> (#[trigger] r.runtimes@[i]).status is Pending && r.runtimes@[i].log@
                    == Seq::<char>::empty(),
    {
        let n = steps.len();
        let mut runtimes: Vec<StepRuntime> = Vec::new();
        let mut i: usize = 0;
        while i < n
            invariant
                0 <= i <= n,
                runtimes@.len() == i,
                forall|j: int|
                    0 <= j < i ==> (#[trigger] runtimes@[j]).status is Pending && runtimes@[j].log@
                        == Seq::<char>::empty(),
            decreases n - i,
        {
            runtimes.push(StepRuntime { status: StepStatus::Pending, log: String::new() });
            i = i + 1;
        }
        App {
            steps,
            runtimes,
            current: 0,
            global_log: String::new(),
            log_scroll: 0,
            mode: InteractiveMode::Dashboard,
        }
    }

    /// Read access to the runtime of the step under the cursor.
    pub fn current_runtime(&self) -> (r: &StepRuntime)
        requires
            self.wf_core(),
        ensures
            *r == self.runtimes@[self.current as int],
    {
        &self.runtimes[self.current]
    }

    /// Write access to the runtime of the step under the cursor.
    pub fn current_runtime_mut(&mut self) -> (r: &mut StepRuntime)
        requires
            old(self).wf_core(),
        ensures
            *r == old(self).runtimes@[old(self).current as int],
            final(self).runtimes@ == old(self).runtimes@.update(
                old(self).current as int,
                *final(r),
            ),
            final(self).steps == old(self).steps,
            final(self).current == old(self).current,
            final(self).global_log == old(self).global_log,
            final(self).log_scroll == old(self).log_scroll,
            final(self).mode == old(self).mode,
    {
        &mut self.runtimes[self.current]
    }

    /// Jumps the log view back to the top.
    pub fn reset_scroll(&mut self)
        ensures
            final(self).log_scroll == 0,
            final(self).steps == old(self).steps,
            final(self).runtimes == old(self).runtimes,
            final(self).current == old(self).current,
            final(self).global_log == old(self).global_log,
            final(self).mode == old(self).mode,
    {
        self.log_scroll = 0;
    }

    /// Folds a finished interactive batch's verdict into the current
    /// step's status: a failure marks the step `Failed`; otherwise a step
    /// still `Running` becomes `Success`, and any other status stands.
    pub fn finish_interactive(&mut self, failed: bool)
        requires
            old(self).wf(),
        ensures
            final(self).wf(),
            frame_unchanged(*old(self), *final(self)),
            final(self).log_scroll == old(self).log_scroll,
            final(self).mode == old(self).mode,
            runtimes_same_except(
                old(self).runtimes@,
                final(self).runtimes@,
                old(self).current as int,
            ),
            final(self).runtimes@[old(self).current as int].log@ == old(self).runtimes@[old(
                self,
            ).current as int].log@,
            final(self).runtimes@[old(self).current as int].status == (if failed {
                StepStatus::Failed
            } else if old(self).runtimes@[old(self).current as int].status is Running {
                StepStatus::Success
            } else {
                old(self).runtimes@[old(self).current as int].status
            }),
    {
        let rt = &mut self.runtimes[self.current];
        if failed {
            rt.status = StepStatus::Failed;
        } else if rt.status == StepStatus::Running {
            rt.status = StepStatus::Success;
        }
    }

    /// Routes one key press to whatever owns input: the dashboard when no
    /// overlay is active, else the active overlay.  While an overlay is
    /// active the dashboard keys (quit, navigation, skip, run) are not
    /// available, so the overlay state can never outlive a cursor change.
    pub fn handle_key(&mut self, key: Key) -> (r: Dispatch)
        requires
            old(self).wf(),
        ensures
            final(self).wf(),
            old(self).mode is Dashboard ==> dashboard_post(*old(self), key, *final(self), r),
            old(self).mode matches InteractiveMode::AppSelection(s) ==> app_selection_post(
                *old(self),
                s,
                key,
                *final(self),
                r,
            ),
            old(self).mode matches InteractiveMode::GitConfig(s) ==> git_config_post(
                *old(self),
                s,
                key,
                *final(self),
                r,
            ),
    {
        let mut mode = InteractiveMode::Dashboard;
        core::mem::swap(&mut mode, &mut self.mode);
        match mode {
            InteractiveMode::Dashboard => self.dashboard_key(key),
            InteractiveMode::AppSelection(state) => self.app_selection_key(state, key),
            InteractiveMode::GitConfig(state) => self.git_config_key(state, key),
        }
    }

    fn dashboard_key(&mut self, key: Key) -> (r: Dispatch)
        requires
            old(self).wf_core(),
            old(self).mode is Dashboard,
        ensures
            final(self).wf(),
            dashboard_post(*old(self), key, *final(self), r),
    {
        match key {
            Key::Char(c) => {
                if c == 'q' {
                    Dispatch::Quit
                } else if c == 'n' {
                    let len = self.steps.len();
                    proof {
                        assert(self.current < len);
                    }
                    if self.current + 1 < len {
                        self.current = self.current + 1;
                        self.log_scroll = 0;
                    }
                    Dispatch::Nothing
                } else if c == 'p' {
                    if self.current > 0 {
                        self.current = self.current - 1;
                        self.log_scroll = 0;
                    }
                    Dispatch::Nothing
                } else if c == 's' {
                    let rt = &mut self.runtimes[self.current];
                    rt.status = StepStatus::Skipped;
                    rt.log.append("Step manually skipped.\n");
                    Dispatch::Nothing
                } else {
                    Dispatch::Nothing
                }
            },
            Key::Enter => self.dashboard_enter(),
            Key::Up => {
                self.log_scroll = if self.log_scroll >= 1 {
                    self.log_scroll - 1
                } else {
                    0
                };
                Dispatch::Nothing
            },
            Key::Down => {
                self.log_scroll = if self.log_scroll <= 65534 {
                    self.log_scroll + 1
                } else {
                    65535
                };
                Dispatch::Nothing
            },
            Key::PageUp => {
                self.log_scroll = if self.log_scroll >= 10 {
                    self.log_scroll - 10
                } else {
                    0
                };
                Dispatch::Nothing
            },
            Key::PageDown => {
                self.log_scroll = if self.log_scroll <= 65525 {
                    self.log_scroll + 10
                } else {
                    65535
                };
                Dispatch::Nothing
            },
            _ => Dispatch::Nothing,
        }
    }

    fn dashboard_enter(&mut self) -> (r: Dispatch)
        requires
            old(self).wf_core(),
            old(self).mode is Dashboard,
        ensures
            final(self).wf(),
            enter_post(*old(self), *final(self), r),
    {
        let step = &self.steps[self.current];
        match &step.kind {
            StepKind::AppSelection { params } => {
                let n = params.apps.len();
                let mut selected: Vec<bool> = Vec::new();
                let mut i: usize = 0;
                while i < n
                    invariant
                        0 <= i <= n,
                        selected@.len() == i,
                        forall|k: int| 0 <= k < i ==> !(#[trigger] selected@[k]),
                    decreases n - i,
                {
                    selected.push(false);
                    i = i + 1;
                }
                let rt = &mut self.runtimes[self.current];
                rt.status = StepStatus::Running;
                rt.log.append("== Running step: ");
                rt.log.append(step.name.as_str());
                rt.log.append(" (app selection) ==\n");
                proof {
                    assert(rt.log@ =~= old(self).runtimes@[old(self).current as int].log@
                        + app_selection_header(step.name@));
                }
                self.mode = InteractiveMode::AppSelection(
                    AppSelectionState { cursor: 0, selected },
                );
                self.log_scroll = 0;
                Dispatch::Nothing
            },
            StepKind::GitConfig { params } => {
                let rt = &mut self.runtimes[self.current];
                rt.status = StepStatus::Running;
                rt.log.append("== Running step: ");
                rt.log.append(step.name.as_str());
                rt.log.append(" (git config) ==\n");
                proof {
                    assert(rt.log@ =~= old(self).runtimes@[old(self).current as int].log@
                        + git_config_header(step.name@));
                }
                let state = GitConfigState {
                    field: GitField::Name,
                    name: String::new(),
                    email: String::new(),
                    editor: params.default_editor.clone(),
                };
                self.mode = InteractiveMode::GitConfig(state);
                self.log_scroll = 0;
                Dispatch::Nothing
            },
            _ => {
                let rt = &mut self.runtimes[self.current];
                let (p, act) = run_step(step, rt);
                self.log_scroll = 0;
                Dispatch::Step(p, act)
            },
        }
    }

    fn app_selection_key(&mut self, state: AppSelectionState, key: Key) -> (r: Dispatch)
        requires
            old(self).wf_core(),
            old(self).mode is Dashboard,
            old(self).steps@[old(self).current as int].kind matches StepKind::AppSelection {
                params,
            } && state.selected@.len() == params.apps@.len(),
            state.cursor < state.selected@.len() || state.cursor == 0,
        ensures
            final(self).wf(),
            app_selection_post(*old(self), state, key, *final(self), r),
    {
        let mut state = state;
        match key {
            Key::Esc => {
                let rt = &mut self.runtimes[self.current];
                rt.status = StepStatus::Pending;
                rt.log.append("App selection cancelled.\n");
                self.log_scroll = 0;
                Dispatch::Nothing
            },
            Key::Up => {
                if state.cursor > 0 {
                    state.cursor = state.cursor - 1;
                }
                self.mode = InteractiveMode::AppSelection(state);
                Dispatch::Nothing
            },
            Key::Down => {
                let len = state.selected.len();
                proof {
                    assert(state.cursor < len || state.cursor == 0);
                }
                if state.cursor + 1 < len {
                    state.cursor = state.cursor + 1;
                }
                self.mode = InteractiveMode::AppSelection(state);
                Dispatch::Nothing
            },
            Key::Char(c) => {
                if c == ' ' && state.cursor < state.selected.len() {
                    let v = state.selected[state.cursor];
                    state.selected[state.cursor] = !v;
                }
                self.mode = InteractiveMode::AppSelection(state);
                Dispatch::Nothing
            },
            Key::Enter => {
                let indices = collect_selected(&state.selected);
                let step = &self.steps[self.current];
                match &step.kind {
                    StepKind::AppSelection { params } => {
                        let rt = &mut self.runtimes[self.current];
                        let batch = apply_app_selection(params, &indices, &mut rt.log);
                        self.log_scroll = 0;
                        Dispatch::Apps(batch)
                    },
                    _ => {
                        proof {
                            assert(false);
                        }
                        Dispatch::Nothing
                    },
                }
            },
            _ => {
                self.mode = InteractiveMode::AppSelection(state);
                Dispatch::Nothing
            },
        }
    }

    fn git_config_key(&mut self, state: GitConfigState, key: Key) -> (r: Dispatch)
        requires
            old(self).wf_core(),
            old(self).mode is Dashboard,
            old(self).steps@[old(self).current as int].kind is GitConfig,
        ensures
            final(self).wf(),
            git_config_post(*old(self), state, key, *final(self), r),
    {
        let mut state = state;
        match key {
            Key::Esc => {
                let rt = &mut self.runtimes[self.current];
                rt.status = StepStatus::Pending;
                rt.log.append("Git config cancelled.\n");
                self.log_scroll = 0;
                Dispatch::Nothing
            },
            Key::Tab => {
                state.field = match state.field {
                    GitField::Name => GitField::Email,
                    GitField::Email => GitField::Editor,
                    GitField::Editor => GitField::Name,
                };
                self.mode = InteractiveMode::GitConfig(state);
                Dispatch::Nothing
            },
            Key::BackTab => {
                state.field = match state.field {
                    GitField::Name => GitField::Editor,
                    GitField::Email => GitField::Name,
                    GitField::Editor => GitField::Email,
                };
                self.mode = InteractiveMode::GitConfig(state);
                Dispatch::Nothing
            },
            Key::Backspace => {
                match state.field {
                    GitField::Name => {
                        pop_char(&mut state.name);
                    },
                    GitField::Email => {
                        pop_char(&mut state.email);
                    },
                    GitField::Editor => {
                        pop_char(&mut state.editor);
                    },
                }
                self.mode = InteractiveMode::GitConfig(state);
                Dispatch::Nothing
            },
            Key::Char(c) => {
                match state.field {
                    GitField::Name => {
                        push_char(&mut state.name, c);
                    },
                    GitField::Email => {
                        push_char(&mut state.email, c);
                    },
                    GitField::Editor => {
                        push_char(&mut state.editor, c);
                    },
                }
                self.mode = InteractiveMode::GitConfig(state);
                Dispatch::Nothing
            },
            Key::Enter => {
                let step = &self.steps[self.current];
                match &step.kind {
                    StepKind::GitConfig { params } => {
                        match apply_git_config(
                            params,
                            state.name.as_str(),
                            state.email.as_str(),
                            state.editor.as_str(),
                        ) {
                            Ok(batch) => {
                                self.log_scroll = 0;
                                Dispatch::Git(batch)
                            },
                            Err(e) => {
                                let msg = e.message();
                                let rt = &mut self.runtimes[self.current];
                                rt.status = StepStatus::Failed;
                                rt.log.append("\n[ERROR] ");
                                rt.log.append(msg.as_str());
                                rt.log.append("\n");
                                proof {
                                    assert(rt.log@ =~= old(self).runtimes@[old(
                                        self,
                                    ).current as int].log@ + error_note(git_config_error_msg(e)));
                                }
                                self.log_scroll = 0;
                                Dispatch::Nothing
                            },
                        }
                    },
                    _ => {
                        proof {
                            assert(false);
                        }
                        Dispatch::Nothing
                    },
                }
            },
            _ => {
                self.mode = InteractiveMode::GitConfig(state);
                Dispatch::Nothing
            },
        }
    }
}

} // verus!
