//! The step execution engine.
//!
//! Shell commands and file appends are outside work, so every runner here
//! is an event-driven machine: it hands the caller the next action to
//! perform ([`StepAction`]), the caller performs it and reports the
//! outcome back ([`StepEvent`] or an exit code), and the machine decides
//! the status transition and the log text.  The ghost functions
//! [`step_begin_view`] and [`step_transition`] are the engine's
//! specification: every executable transition is proved to match them,
//! and the engine's laws are proved about them.

use crate::model::AppDefinition;
use crate::model::AppSelectionParams;
use crate::model::GitConfigParams;
use crate::model::Step;
use crate::model::StepKind;
use crate::model::StepRuntime;
use crate::model::StepStatus;
use crate::text::blank;
use crate::text::dec_int;
use crate::text::escape_single_quotes;
use crate::text::escape_sq;
use crate::text::push_dec_i32;
use crate::text::trim_spec;
use crate::text::trim_str;
use vstd::prelude::*;
use vstd::string::StrSliceExecFns;
use vstd::string::StringExecFns;

verus! {

// ---------------------------------------------------------------------------
// Commands as data
// ---------------------------------------------------------------------------

/// What the outside shell reported for one captured command: both streams
/// decoded to text (invalid bytes already replaced by a marker) and the
/// exit code, `-1` when the process reported none.
#[derive(Debug, Clone)]
pub struct CmdOutput {
    pub stdout: String,
    pub stderr: String,
    pub code: i32,
}

/// The next piece of outside work a machine asks its caller to perform.
#[derive(Debug)]
pub enum StepAction {
    /// Run this command line through a shell and capture its output.
    Run { cmd: String },
    /// Append this content, followed by a newline, to this file.
    Append { file: String, content: String },
    /// Nothing left to do: the step has reached a terminal status.
    Done,
}

/// The ghost image of a [`StepAction`].
pub enum ActionView {
    Run(Seq<char>),
    Append(Seq<char>, Seq<char>),
    Done,
}

impl View for StepAction {
    type V = ActionView;

    open spec fn view(&self) -> ActionView {
        match self {
            StepAction::Run { cmd } => ActionView::Run(cmd@),
            StepAction::Append { file, content } => ActionView::Append(file@, content@),
            StepAction::Done => ActionView::Done,
        }
    }
}

/// The outcome of the last requested action, reported by the caller.
#[derive(Debug)]
pub enum StepEvent {
    /// The command ran to completion (its exit code may be nonzero).
    Finished(CmdOutput),
    /// The shell process could not be started at all.
    SpawnFailed,
    /// The file append succeeded.
    AppendDone,
    /// The file append failed: while opening the file, or while writing.
    AppendFailed { open_failed: bool },
}

// ---------------------------------------------------------------------------
// Log text
// ---------------------------------------------------------------------------

/// The header line a step writes when it starts running.
pub open spec fn step_header(name: Seq<char>) -> Seq<char> {
    "== Running step: "@ + name + " ==\n"@
}

/// The transcript of one captured command: the command line, its streams
/// (each block omitted when empty) and its exit code.
pub open spec fn command_transcript(label: Seq<char>, out: CmdOutput) -> Seq<char> {
    "\n$ "@ + label + "\n"@ + (if out.stdout@.len() > 0 {
        out.stdout@
    } else {
        Seq::<char>::empty()
    }) + (if out.stderr@.len() > 0 {
        "\n[stderr]\n"@ + out.stderr@
    } else {
        Seq::<char>::empty()
    }) + "\n[exit code: "@ + dec_int(out.code as int) + "]\n"@
}

/// An error line in a step log.
pub open spec fn error_note(msg: Seq<char>) -> Seq<char> {
    "\n[ERROR] "@ + msg + "\n"@
}

/// The message reported when a shell process cannot be started.
pub open spec fn spawn_failure_msg(cmd: Seq<char>) -> Seq<char> {
    "Failed to execute command: "@ + cmd
}

/// Appends the transcript of one captured command to the log.
pub fn append_output(log: &mut String, label: &str, out: &CmdOutput)
    ensures
        final(log)@ == old(log)@ + command_transcript(label@, *out),
{
    log.append("\n$ ");
    log.append(label);
    log.append("\n");
    if out.stdout.as_str().unicode_len() > 0 {
        log.append(out.stdout.as_str());
    }
    if out.stderr.as_str().unicode_len() > 0 {
        log.append("\n[stderr]\n");
        log.append(out.stderr.as_str());
    }
    log.append("\n[exit code: ");
    push_dec_i32(log, out.code);
    log.append("]\n");
    proof {
        assert(log@ =~= old(log)@ + command_transcript(label@, *out));
    }
}

// ---------------------------------------------------------------------------
// The step pipeline
// ---------------------------------------------------------------------------

/// Which result the pipeline waits for next.
#[derive(Debug, Clone, Copy, PartialEq, Eq, Structural)]
pub enum StepPhase {
    /// The pre-script was handed out; its result is awaited.
    Pre,
    /// The main script was handed out; its result is awaited.
    Main,
    /// The file append was handed out; its result is awaited.
    Append,
    /// The post-script was handed out; its result is awaited.
    Post,
    /// The step reached a terminal status; no work is outstanding.
    Finished,
}

/// The in-flight state of one step's pre/main/post pipeline.
#[derive(Debug, Clone, Copy, PartialEq, Eq, Structural)]
pub struct StepPipeline {
    pub phase: StepPhase,
}

/// The ghost image of a pipeline together with the runtime it drives.
pub struct EngineView {
    pub phase: StepPhase,
    pub status: StepStatus,
    pub log: Seq<char>,
}

/// Dispatch of the main task once the pre-script (if any) has passed.
pub open spec fn begin_main_view(step: Step, m: EngineView) -> (EngineView, ActionView) {
    match step.kind {
        StepKind::Script => {
            if step.script is Some {
                (
                    (EngineView {
                        phase: StepPhase::Main,
                        status: m.status,
                        log: m.log + "\n--- script ---\n"@,
                    }),
                    ActionView::Run(step.script->0@),
                )
            } else {
                begin_post_view(
                    step,
                    (EngineView {
                        phase: m.phase,
                        status: m.status,
                        log: m.log + "\nNo script specified for script step.\n"@,
                    }),
                )
            }
        },
        StepKind::AddText { params } => (
            (EngineView {
                phase: StepPhase::Append,
                status: m.status,
                log: m.log + "\n--- add_text to "@ + params.file@ + " ---\n"@,
            }),
            ActionView::Append(params.file@, params.content@),
        ),
        StepKind::GitConfig { params } => begin_post_view(
            step,
            (EngineView {
                phase: m.phase,
                status: m.status,
                log: m.log + "\n--- git_config (handled by TUI) ---\n"@,
            }),
        ),
        StepKind::AppSelection { params } => begin_post_view(
            step,
            (EngineView {
                phase: m.phase,
                status: m.status,
                log: m.log + "\n--- app_selection (handled by TUI) ---\n"@,
            }),
        ),
    }
}

/// Dispatch of the post-script once the main task has passed, or the final
/// status when there is none.
pub open spec fn begin_post_view(step: Step, m: EngineView) -> (EngineView, ActionView) {
    if step.post_script is Some {
        (
            (EngineView {
                phase: StepPhase::Post,
                status: m.status,
                log: m.log + "\n--- post_script ---\n"@,
            }),
            ActionView::Run(step.post_script->0@),
        )
    } else {
        (finish_view(m), ActionView::Done)
    }
}

/// The terminal transition: a pipeline that is still `Running` at its end
/// has succeeded; any other status stands.
pub open spec fn finish_view(m: EngineView) -> EngineView {
    EngineView {
        phase: StepPhase::Finished,
        status: if m.status is Running {
            StepStatus::Success
        } else {
            m.status
        },
        log: m.log,
    }
}

/// A spawn-level failure: terminal, `Failed`, with an error line.
pub open spec fn spawn_fail_view(m: EngineView, cmd: Seq<char>) -> (EngineView, ActionView) {
    (
        (EngineView {
            phase: StepPhase::Finished,
            status: StepStatus::Failed,
            log: m.log + error_note(spawn_failure_msg(cmd)),
        }),
        ActionView::Done,
    )
}

/// What starting a step does: status `Running`, a header line, then either
/// the pre-script is handed out or the main task is dispatched at once.
pub open spec fn step_begin_view(step: Step, log0: Seq<char>) -> (EngineView, ActionView) {
    let started = EngineView {
        phase: StepPhase::Pre,
        status: StepStatus::Running,
        log: log0 + step_header(step.name@),
    };
    if step.pre_script is Some {
        (
            (EngineView {
                phase: StepPhase::Pre,
                status: StepStatus::Running,
                log: started.log + "\n--- pre_script ---\n"@,
            }),
            ActionView::Run(step.pre_script->0@),
        )
    } else {
        begin_main_view(step, started)
    }
}

/// The engine's transition relation: how one reported outcome moves the
/// pipeline.  A finished pipeline is inert: it never hands out work again.
pub open spec fn step_transition(m: EngineView, step: Step, event: StepEvent) -> (
    EngineView,
    ActionView,
) {
    match m.phase {
        StepPhase::Pre => match event {
            StepEvent::Finished(out) => {
                let logged = m.log + command_transcript(step.pre_script->0@, out);
                if out.code != 0 {
                    (
                        (EngineView {
                            phase: StepPhase::Finished,
                            status: StepStatus::Skipped,
                            log: logged + "\npre_script failed; step will be skipped.\n"@,
                        }),
                        ActionView::Done,
                    )
                } else {
                    begin_main_view(
                        step,
                        (EngineView { phase: m.phase, status: m.status, log: logged }),
                    )
                }
            },
            StepEvent::SpawnFailed => spawn_fail_view(m, step.pre_script->0@),
            _ => (m, ActionView::Done),
        },
        StepPhase::Main => match event {
            StepEvent::Finished(out) => {
                let logged = m.log + command_transcript(step.script->0@, out);
                if out.code != 0 {
                    (
                        (EngineView {
                            phase: StepPhase::Finished,
                            status: StepStatus::Failed,
                            log: logged,
                        }),
                        ActionView::Done,
                    )
                } else {
                    begin_post_view(
                        step,
                        (EngineView { phase: m.phase, status: m.status, log: logged }),
                    )
                }
            },
            StepEvent::SpawnFailed => spawn_fail_view(m, step.script->0@),
            _ => (m, ActionView::Done),
        },
        StepPhase::Append => match event {
            StepEvent::AppendDone => begin_post_view(
                step,
                (EngineView {
                    phase: m.phase,
                    status: m.status,
                    log: m.log + "Appended content to "@ + step.kind->AddText_params.file@
                        + "\n"@,
                }),
            ),
            StepEvent::AppendFailed { open_failed } => (
                (EngineView {
                    phase: StepPhase::Finished,
                    status: StepStatus::Failed,
                    log: m.log + error_note(
                        if open_failed {
                            "Failed to open file: "@ + step.kind->AddText_params.file@
                        } else {
                            "Failed to write to file"@
                        },
                    ),
                }),
                ActionView::Done,
            ),
            _ => (m, ActionView::Done),
        },
        StepPhase::Post => match event {
            StepEvent::Finished(out) => {
                let logged = m.log + command_transcript(step.post_script->0@, out);
                if out.code != 0 {
                    (
                        (EngineView {
                            phase: StepPhase::Finished,
                            status: StepStatus::Failed,
                            log: logged,
                        }),
                        ActionView::Done,
                    )
                } else {
                    (
                        finish_view(
                            (EngineView { phase: m.phase, status: m.status, log: logged }),
                        ),
                        ActionView::Done,
                    )
                }
            },
            StepEvent::SpawnFailed => spawn_fail_view(m, step.post_script->0@),
            _ => (m, ActionView::Done),
        },
        StepPhase::Finished => (m, ActionView::Done),
    }
}

impl StepPipeline {
    /// The pipeline's phase is consistent with the step it was built for.
    pub open spec fn wf(self, step: Step) -> bool {
        match self.phase {
            StepPhase::Pre => step.pre_script is Some,
            StepPhase::Main => step.kind is Script && step.script is Some,
            StepPhase::Append => step.kind is AddText,
            StepPhase::Post => step.post_script is Some,
            StepPhase::Finished => true,
        }
    }

    /// The event is the kind of outcome the awaited action can produce.
    pub open spec fn event_fits(self, event: StepEvent) -> bool {
        match self.phase {
            StepPhase::Pre => event is Finished || event is SpawnFailed,
            StepPhase::Main => event is Finished || event is SpawnFailed,
            StepPhase::Post => event is Finished || event is SpawnFailed,
            StepPhase::Append => event is AppendDone || event is AppendFailed,
            StepPhase::Finished => false,
        }
    }

    /// No work is outstanding.
    pub fn is_finished(&self) -> (r: bool)
        ensures
            r == (self.phase is Finished),
    {
        self.phase == StepPhase::Finished
    }
}

fn note_spawn_failure(runtime: &mut StepRuntime, cmd: &str)
    ensures
        final(runtime).status is Failed,
        final(runtime).log@ == old(runtime).log@ + error_note(spawn_failure_msg(cmd@)),
{
    runtime.log.append("\n[ERROR] ");
    runtime.log.append("Failed to execute command: ");
    runtime.log.append(cmd);
    runtime.log.append("\n");
    runtime.status = StepStatus::Failed;
    proof {
        assert(runtime.log@ =~= old(runtime).log@ + error_note(spawn_failure_msg(cmd@)));
    }
}

fn begin_post(step: &Step, runtime: &mut StepRuntime) -> (r: (StepPipeline, StepAction))
    ensures
        ({
            let t = begin_post_view(
                *step,
                (EngineView {
                    phase: StepPhase::Pre,
                    status: old(runtime).status,
                    log: old(runtime).log@,
                }),
            );
            &&& r.0.phase == t.0.phase
            &&& final(runtime).status == t.0.status
            &&& final(runtime).log@ == t.0.log
            &&& r.1@ == t.1
            &&& r.0.wf(*step)
        }),
{
    match &step.post_script {
        Some(post) => {
            runtime.log.append("\n--- post_script ---\n");
            (StepPipeline { phase: StepPhase::Post }, StepAction::Run { cmd: post.clone() })
        },
        None => {
            if runtime.status == StepStatus::Running {
                runtime.status = StepStatus::Success;
            }
            (StepPipeline { phase: StepPhase::Finished }, StepAction::Done)
        },
    }
}

fn begin_main(step: &Step, runtime: &mut StepRuntime) -> (r: (StepPipeline, StepAction))
    ensures
        ({
            let t = begin_main_view(
                *step,
                (EngineView {
                    phase: StepPhase::Pre,
                    status: old(runtime).status,
                    log: old(runtime).log@,
                }),
            );
            &&& r.0.phase == t.0.phase
            &&& final(runtime).status == t.0.status
            &&& final(runtime).log@ == t.0.log
            &&& r.1@ == t.1
            &&& r.0.wf(*step)
        }),
{
    match &step.kind {
        StepKind::Script => match &step.script {
            Some(script) => {
                runtime.log.append("\n--- script ---\n");
                (StepPipeline { phase: StepPhase::Main }, StepAction::Run { cmd: script.clone() })
            },
            None => {
                runtime.log.append("\nNo script specified for script step.\n");
                begin_post(step, runtime)
            },
        },
        StepKind::AddText { params } => {
            runtime.log.append("\n--- add_text to ");
            runtime.log.append(params.file.as_str());
            runtime.log.append(" ---\n");
            proof {
                assert(runtime.log@ =~= old(runtime).log@ + "\n--- add_text to "@ + params.file@
                    + " ---\n"@);
            }
            (
                StepPipeline { phase: StepPhase::Append },
                StepAction::Append { file: params.file.clone(), content: params.content.clone() },
            )
        },
        StepKind::GitConfig { params: _ } => {
            runtime.log.append("\n--- git_config (handled by TUI) ---\n");
            begin_post(step, runtime)
        },
        StepKind::AppSelection { params: _ } => {
            runtime.log.append("\n--- app_selection (handled by TUI) ---\n");
            begin_post(step, runtime)
        },
    }
}

/// Begins running a step: marks it `Running`, writes the header line, and
/// hands out the first action of the pre/main/post pipeline.  The log is
/// never cleared: re-running a step appends to its earlier transcript.
pub fn run_step(step: &Step, runtime: &mut StepRuntime) -> (r: (StepPipeline, StepAction))
    ensures
        ({
            let t = step_begin_view(*step, old(runtime).log@);
            &&& r.0.phase == t.0.phase
            &&& final(runtime).status == t.0.status
            &&& final(runtime).log@ == t.0.log
            &&& r.1@ == t.1
            &&& r.0.wf(*step)
        }),
{
    runtime.status = StepStatus::Running;
    runtime.log.append("== Running step: ");
    runtime.log.append(step.name.as_str());
    runtime.log.append(" ==\n");
    proof {
        assert(runtime.log@ =~= old(runtime).log@ + step_header(step.name@));
    }
    match &step.pre_script {
        Some(pre) => {
            runtime.log.append("\n--- pre_script ---\n");
            (StepPipeline { phase: StepPhase::Pre }, StepAction::Run { cmd: pre.clone() })
        },
        None => begin_main(step, runtime),
    }
}

impl StepPipeline {
    /// Feeds the outcome of the last handed-out action into the pipeline
    /// and returns the next action.  The transition is exactly
    /// [`step_transition`] on the ghost image of the pipeline and runtime.
    pub fn advance(&mut self, step: &Step, runtime: &mut StepRuntime, event: StepEvent) -> (r:
        StepAction)
        requires
            old(self).phase !is Finished,
            old(self).wf(*step),
            old(self).event_fits(event),
        ensures
            ({
                let t = step_transition(
                    (EngineView {
                        phase: old(self).phase,
                        status: old(runtime).status,
                        log: old(runtime).log@,
                    }),
                    *step,
                    event,
                );
                &&& final(self).phase == t.0.phase
                &&& final(runtime).status == t.0.status
                &&& final(runtime).log@ == t.0.log
                &&& r@ == t.1
                &&& final(self).wf(*step)
            }),
    {
        match self.phase {
            StepPhase::Pre => match event {
                StepEvent::Finished(out) => {
                    let pre = step.pre_script.as_ref().unwrap();
                    append_output(&mut runtime.log, pre.as_str(), &out);
                    if out.code != 0 {
                        runtime.log.append("\npre_script failed; step will be skipped.\n");
                        runtime.status = StepStatus::Skipped;
                        self.phase = StepPhase::Finished;
                        StepAction::Done
                    } else {
                        let (p, a) = begin_main(step, runtime);
                        self.phase = p.phase;
                        a
                    }
                },
                StepEvent::SpawnFailed => {
                    let pre = step.pre_script.as_ref().unwrap();
                    note_spawn_failure(runtime, pre.as_str());
                    self.phase = StepPhase::Finished;
                    StepAction::Done
                },
                _ => StepAction::Done,
            },
            StepPhase::Main => match event {
                StepEvent::Finished(out) => {
                    let script = step.script.as_ref().unwrap();
                    append_output(&mut runtime.log, script.as_str(), &out);
                    if out.code != 0 {
                        runtime.status = StepStatus::Failed;
                        self.phase = StepPhase::Finished;
                        StepAction::Done
                    } else {
                        let (p, a) = begin_post(step, runtime);
                        self.phase = p.phase;
                        a
                    }
                },
                StepEvent::SpawnFailed => {
                    let script = step.script.as_ref().unwrap();
                    note_spawn_failure(runtime, script.as_str());
                    self.phase = StepPhase::Finished;
                    StepAction::Done
                },
                _ => StepAction::Done,
            },
            StepPhase::Append => match event {
                StepEvent::AppendDone => {
                    match &step.kind {
                        StepKind::AddText { params } => {
                            runtime.log.append("Appended content to ");
                            runtime.log.append(params.file.as_str());
                            runtime.log.append("\n");
                        },
                        _ => {},
                    }
                    let (p, a) = begin_post(step, runtime);
                    self.phase = p.phase;
                    a
                },
                StepEvent::AppendFailed { open_failed } => {
                    match &step.kind {
                        StepKind::AddText { params } => {
                            runtime.log.append("\n[ERROR] ");
                            if open_failed {
                                runtime.log.append("Failed to open file: ");
                                runtime.log.append(params.file.as_str());
                            } else {
                                runtime.log.append("Failed to write to file");
                            }
                            runtime.log.append("\n");
                        },
                        _ => {},
                    }
                    runtime.status = StepStatus::Failed;
                    self.phase = StepPhase::Finished;
                    StepAction::Done
                },
                _ => StepAction::Done,
            },
            StepPhase::Post => match event {
                StepEvent::Finished(out) => {
                    let post = step.post_script.as_ref().unwrap();
                    append_output(&mut runtime.log, post.as_str(), &out);
                    if out.code != 0 {
                        runtime.status = StepStatus::Failed;
                        self.phase = StepPhase::Finished;
                        StepAction::Done
                    } else {
                        if runtime.status == StepStatus::Running {
                            runtime.status = StepStatus::Success;
                        }
                        self.phase = StepPhase::Finished;
                        StepAction::Done
                    }
                },
                StepEvent::SpawnFailed => {
                    let post = step.post_script.as_ref().unwrap();
                    note_spawn_failure(runtime, post.as_str());
                    self.phase = StepPhase::Finished;
                    StepAction::Done
                },
                _ => StepAction::Done,
            },
            StepPhase::Finished => StepAction::Done,
        }
    }
}

// ---------------------------------------------------------------------------
// Laws of the engine
// ---------------------------------------------------------------------------

/// Folds a sequence of reported outcomes through the transition relation.
pub open spec fn engine_run(m: EngineView, step: Step, events: Seq<StepEvent>) -> EngineView
    decreases events.len(),
{
    if events.len() == 0 {
        m
    } else {
        engine_run(step_transition(m, step, events[0]).0, step, events.drop_first())
    }
}

/// A finished pipeline never changes again and never hands out work.
pub proof fn lemma_finished_hands_out_nothing(m: EngineView, step: Step, event: StepEvent)
    requires
        m.phase is Finished,
    ensures
        step_transition(m, step, event).0 == m,
        step_transition(m, step, event).1 is Done,
{
}

/// A finished pipeline is inert under any sequence of further outcomes.
pub proof fn lemma_finished_is_inert(m: EngineView, step: Step, events: Seq<StepEvent>)
    requires
        m.phase is Finished,
    ensures
        engine_run(m, step, events) == m,
    decreases events.len(),
{
    if events.len() > 0 {
        lemma_finished_hands_out_nothing(m, step, events[0]);
        lemma_finished_is_inert(m, step, events.drop_first());
    }
}

/// Whatever the step's kind, a pre-script that exits nonzero ends the step
/// at once: the status becomes `Skipped`, no action but `Done` is handed
/// out at the failure, and the pipeline stays finished under every later
/// outcome — so the main task and the post-script are never invoked.
pub proof fn lemma_pre_script_failure_skips(
    step: Step,
    log0: Seq<char>,
    out: CmdOutput,
    events: Seq<StepEvent>,
)
    requires
        step.pre_script is Some,
        out.code != 0,
    ensures
        ({
            let b = step_begin_view(step, log0);
            let t = step_transition(b.0, step, StepEvent::Finished(out));
            let end = engine_run(b.0, step, seq![StepEvent::Finished(out)] + events);
            &&& t.0.status is Skipped
            &&& t.0.phase is Finished
            &&& t.1 is Done
            &&& end == t.0
        }),
{
    let b = step_begin_view(step, log0);
    let t = step_transition(b.0, step, StepEvent::Finished(out));
    let e = seq![StepEvent::Finished(out)] + events;
    assert(e[0] == StepEvent::Finished(out));
    assert(e.drop_first() =~= events);
    lemma_finished_is_inert(t.0, step, events);
}

/// The outcomes a step consumes for its pre-script, when it has one.
pub open spec fn pre_events(step: Step, pre: CmdOutput) -> Seq<StepEvent> {
    if step.pre_script is Some {
        seq![StepEvent::Finished(pre)]
    } else {
        Seq::empty()
    }
}

/// The outcomes a `Script` step consumes for its main script, when present.
pub open spec fn main_events(step: Step, main: CmdOutput) -> Seq<StepEvent> {
    if step.script is Some {
        seq![StepEvent::Finished(main)]
    } else {
        Seq::empty()
    }
}

/// The outcomes a step consumes for its post-script, when it has one.
pub open spec fn post_events(step: Step, post: CmdOutput) -> Seq<StepEvent> {
    if step.post_script is Some {
        seq![StepEvent::Finished(post)]
    } else {
        Seq::empty()
    }
}

/// The events of a full script-step run in which every issued command ran
/// to completion: one outcome for each script the step defines.
pub open spec fn script_run_events(
    step: Step,
    pre: CmdOutput,
    main: CmdOutput,
    post: CmdOutput,
) -> Seq<StepEvent> {
    pre_events(step, pre) + main_events(step, main) + post_events(step, post)
}

proof fn lemma_script_from_main(step: Step, m: EngineView, main: CmdOutput, post: CmdOutput)
    requires
        step.kind is Script,
        step.script is Some ==> m.phase is Main && m.status is Running,
        step.script is None && step.post_script is Some ==> m.phase is Post && m.status
            is Running,
        step.script is None && step.post_script is None ==> m.phase is Finished && m.status
            is Success,
    ensures
        ({
            let end = engine_run(m, step, main_events(step, main) + post_events(step, post));
            let main_ok = step.script is Some ==> main.code == 0;
            let post_ok = step.post_script is Some ==> post.code == 0;
            &&& end.phase is Finished
            &&& (end.status is Success <==> main_ok && post_ok)
            &&& (end.status is Failed <==> !(main_ok && post_ok))
            &&& !(end.status is Skipped)
        }),
{
    let e = main_events(step, main) + post_events(step, post);
    if step.script is Some {
        assert(e[0] == StepEvent::Finished(main));
        assert(e.drop_first() =~= post_events(step, post));
        let t = step_transition(m, step, StepEvent::Finished(main));
        assert(engine_run(m, step, e) == engine_run(t.0, step, post_events(step, post)));
        if main.code != 0 {
            lemma_finished_is_inert(t.0, step, post_events(step, post));
        } else {
            if step.post_script is Some {
                let ep = post_events(step, post);
                assert(ep[0] == StepEvent::Finished(post));
                assert(ep.drop_first() =~= Seq::<StepEvent>::empty());
                let t2 = step_transition(t.0, step, StepEvent::Finished(post));
                assert(engine_run(t.0, step, ep) == engine_run(
                    t2.0,
                    step,
                    ep.drop_first(),
                ));
                assert(engine_run(t2.0, step, ep.drop_first()) == t2.0);
            } else {
                assert(engine_run(t.0, step, post_events(step, post)) == t.0);
            }
        }
    } else {
        assert(e =~= post_events(step, post));
        if step.post_script is Some {
            assert(e[0] == StepEvent::Finished(post));
            assert(e.drop_first() =~= Seq::<StepEvent>::empty());
            let t = step_transition(m, step, StepEvent::Finished(post));
            assert(engine_run(m, step, e) == engine_run(t.0, step, e.drop_first()));
            assert(engine_run(t.0, step, e.drop_first()) == t.0);
        } else {
            assert(e =~= Seq::<StepEvent>::empty());
            assert(engine_run(m, step, e) == m);
        }
    }
}

/// For a `Script` step whose issued commands all ran to completion, the
/// run ends `Success` exactly when every defined script exits zero,
/// `Skipped` exactly when the pre-script exits nonzero, and `Failed`
/// exactly when the pre-script passes and the main or the post-script
/// exits nonzero.
pub proof fn lemma_script_step_outcome(
    step: Step,
    log0: Seq<char>,
    pre: CmdOutput,
    main: CmdOutput,
    post: CmdOutput,
)
    requires
        step.kind is Script,
    ensures
        ({
            let end = engine_run(
                step_begin_view(step, log0).0,
                step,
                script_run_events(step, pre, main, post),
            );
            let pre_ok = step.pre_script is Some ==> pre.code == 0;
            let main_ok = step.script is Some ==> main.code == 0;
            let post_ok = step.post_script is Some ==> post.code == 0;
            &&& end.phase is Finished
            &&& (end.status is Success <==> pre_ok && main_ok && post_ok)
            &&& (end.status is Skipped <==> !pre_ok)
            &&& (end.status is Failed <==> pre_ok && !(main_ok && post_ok))
        }),
{
    let b = step_begin_view(step, log0);
    let e = script_run_events(step, pre, main, post);
    let rest = main_events(step, main) + post_events(step, post);
    if step.pre_script is Some {
        assert(e[0] == StepEvent::Finished(pre));
        assert(e.drop_first() =~= rest);
        let t = step_transition(b.0, step, StepEvent::Finished(pre));
        assert(engine_run(b.0, step, e) == engine_run(t.0, step, rest));
        if pre.code != 0 {
            lemma_finished_is_inert(t.0, step, rest);
        } else {
            lemma_script_from_main(step, t.0, main, post);
        }
    } else {
        assert(e =~= rest);
        lemma_script_from_main(step, b.0, main, post);
    }
}

// ---------------------------------------------------------------------------
// Git configuration
// ---------------------------------------------------------------------------

/// Malformed interactive git-config input, rejected before any command is
/// issued.
#[derive(Debug, Clone, Copy, PartialEq, Eq, Structural)]
pub enum GitConfigError {
    EmptyName,
    EmptyEmail,
}

/// The message the dashboard writes into the step log for each rejection.
pub open spec fn git_config_error_msg(e: GitConfigError) -> Seq<char> {
    match e {
        GitConfigError::EmptyName => "Git user.name cannot be empty"@,
        GitConfigError::EmptyEmail => "Git user.email cannot be empty"@,
    }
}

impl GitConfigError {
    pub fn message(&self) -> (r: String)
        ensures
            r@ == git_config_error_msg(*self),
    {
        match self {
            GitConfigError::EmptyName => String::from_str("Git user.name cannot be empty"),
            GitConfigError::EmptyEmail => String::from_str("Git user.email cannot be empty"),
        }
    }
}

/// One `git config --global` command: the value is single-quote-escaped
/// and wrapped in single quotes.
pub open spec fn git_cmd(key: Seq<char>, value: Seq<char>) -> Seq<char> {
    "git config --global "@ + key + " '"@ + escape_sq(value) + "'"@
}

/// The editor value actually applied: the trimmed input, or, when the
/// input trims to nothing, the step's default editor exactly as given —
/// the substituted default is not re-trimmed.
pub open spec fn effective_editor(params: GitConfigParams, editor: Seq<char>) -> Seq<char> {
    if trim_spec(editor).len() == 0 {
        params.default_editor@
    } else {
        trim_spec(editor)
    }
}

/// The three commands a git-config step issues, in order.
pub open spec fn git_commands(
    params: GitConfigParams,
    name: Seq<char>,
    email: Seq<char>,
    editor: Seq<char>,
) -> Seq<Seq<char>> {
    seq![
        git_cmd("user.name"@, trim_spec(name)),
        git_cmd("user.email"@, trim_spec(email)),
        git_cmd("core.editor"@, effective_editor(params, editor)),
    ]
}

fn build_git_cmd(key: &str, value: &str) -> (r: String)
    ensures
        r@ == git_cmd(key@, value@),
{
    let mut s = String::from_str("git config --global ");
    s.append(key);
    s.append(" '");
    let esc = escape_single_quotes(value);
    s.append(esc.as_str());
    s.append("'");
    proof {
        assert(s@ =~= git_cmd(key@, value@));
    }
    s
}

/// Runs the sequence of git-config commands, stopping at the first one
/// whose exit code is nonzero; prior commands are not rolled back.
#[derive(Debug)]
pub struct GitBatch {
    pub commands: Vec<String>,
    pub pos: usize,
    pub awaiting: bool,
    pub failed: bool,
}

/// Validates the interactive git-config input and, when it passes, plans
/// the three commands to issue: `user.name`, `user.email`, `core.editor`,
/// in that order, each value single-quote-escaped.  Name, email and the
/// editor input are trimmed; a blank editor falls back to the default
/// editor taken as it stands.  A blank name or email is rejected before
/// any command exists, so a rejection can issue nothing.
pub fn apply_git_config(params: &GitConfigParams, name: &str, email: &str, editor: &str) -> (r:
    Result<GitBatch, GitConfigError>)
    ensures
        r is Ok <==> !blank(name@) && !blank(email@),
        blank(name@) ==> r == Err::<GitBatch, GitConfigError>(GitConfigError::EmptyName),
        !blank(name@) && blank(email@) ==> r == Err::<GitBatch, GitConfigError>(
            GitConfigError::EmptyEmail,
        ),
        r matches Ok(b) ==> {
            &&& b.commands@.map_values(|s: String| s@) == git_commands(
                *params,
                name@,
                email@,
                editor@,
            )
            &&& b.pos == 0
            &&& !b.awaiting
            &&& !b.failed
            &&& b.wf()
        },
{
    let name_t = trim_str(name);
    let email_t = trim_str(email);
    let editor_t = trim_str(editor);
    if name_t.unicode_len() == 0 {
        return Err(GitConfigError::EmptyName);
    }
    if email_t.unicode_len() == 0 {
        return Err(GitConfigError::EmptyEmail);
    }
    let editor_v: &str = if editor_t.unicode_len() == 0 {
        params.default_editor.as_str()
    } else {
        editor_t
    };
    let mut commands: Vec<String> = Vec::new();
    commands.push(build_git_cmd("user.name", name_t));
    commands.push(build_git_cmd("user.email", email_t));
    commands.push(build_git_cmd("core.editor", editor_v));
    proof {
        assert(commands@.map_values(|s: String| s@) =~= git_commands(
            *params,
            name@,
            email@,
            editor@,
        ));
    }
    Ok(GitBatch { commands, pos: 0, awaiting: false, failed: false })
}

impl GitBatch {
    pub open spec fn wf(self) -> bool {
        &&& self.pos <= self.commands@.len()
        &&& (self.awaiting ==> self.pos < self.commands@.len())
    }

    /// All commands ran and none failed.
    pub fn succeeded(&self) -> (r: bool)
        ensures
            r == (!self.failed && self.pos == self.commands@.len()),
    {
        !self.failed && self.pos == self.commands.len()
    }

    /// A command failed, or its shell could not be started.
    pub fn has_failed(&self) -> (r: bool)
        ensures
            r == self.failed,
    {
        self.failed
    }

    /// The next command to run, or `None` when the batch is over.
    pub fn next_command(&mut self) -> (r: Option<String>)
        requires
            old(self).wf(),
            !old(self).awaiting,
        ensures
            final(self).commands == old(self).commands,
            final(self).pos == old(self).pos,
            final(self).failed == old(self).failed,
            final(self).wf(),
            r is Some <==> (!old(self).failed && old(self).pos < old(self).commands@.len()),
            r matches Some(c) ==> c@ == old(self).commands@[old(self).pos as int]@
                && final(self).awaiting,
            r is None ==> !final(self).awaiting,
    {
        if self.failed || self.pos == self.commands.len() {
            return None;
        }
        self.awaiting = true;
        Some(self.commands[self.pos].clone())
    }

    /// Feeds the captured result of the command last handed out.  A zero
    /// exit moves to the next command (the closing notice is logged after
    /// the last); a nonzero exit logs the failure and stops the batch
    /// there — fail-fast, without rolling back prior commands.
    pub fn on_output(&mut self, log: &mut String, out: &CmdOutput)
        requires
            old(self).wf(),
            old(self).awaiting,
            !old(self).failed,
        ensures
            final(self).commands == old(self).commands,
            !final(self).awaiting,
            final(self).wf(),
            ({
                let cmd = old(self).commands@[old(self).pos as int]@;
                if out.code != 0 {
                    &&& final(self).failed
                    &&& final(self).pos == old(self).pos
                    &&& final(log)@ == old(log)@ + command_transcript(cmd, *out) + error_note(
                        "Command failed: "@ + cmd,
                    )
                } else {
                    &&& !final(self).failed
                    &&& final(self).pos == old(self).pos + 1
                    &&& final(log)@ == old(log)@ + command_transcript(cmd, *out) + (
                    if old(self).pos + 1 == old(self).commands@.len() {
                        "Git configuration updated.\n"@
                    } else {
                        Seq::<char>::empty()
                    })
                }
            }),
    {
        let ghost log0 = log@;
        let cmd = &self.commands[self.pos];
        append_output(log, cmd.as_str(), out);
        self.awaiting = false;
        if out.code != 0 {
            self.failed = true;
            log.append("\n[ERROR] ");
            log.append("Command failed: ");
            log.append(cmd.as_str());
            log.append("\n");
            proof {
                assert(log@ =~= log0 + command_transcript(
                    old(self).commands@[old(self).pos as int]@,
                    *out,
                ) + error_note("Command failed: "@ + old(self).commands@[old(self).pos as int]@));
            }
        } else {
            let len = self.commands.len();
            proof {
                assert(self.pos < len);
            }
            self.pos = self.pos + 1;
            if self.pos == self.commands.len() {
                log.append("Git configuration updated.\n");
            }
        }
    }

    /// The shell for the command last handed out could not be started:
    /// the batch stops with an error line.
    pub fn on_spawn_failed(&mut self, log: &mut String)
        requires
            old(self).wf(),
            old(self).awaiting,
        ensures
            final(self).commands == old(self).commands,
            final(self).pos == old(self).pos,
            final(self).failed,
            !final(self).awaiting,
            final(self).wf(),
            final(log)@ == old(log)@ + error_note(
                spawn_failure_msg(old(self).commands@[old(self).pos as int]@),
            ),
    {
        let cmd = &self.commands[self.pos];
        log.append("\n[ERROR] ");
        log.append("Failed to execute command: ");
        log.append(cmd.as_str());
        log.append("\n");
        self.awaiting = false;
        self.failed = true;
        proof {
            assert(log@ =~= old(log)@ + error_note(
                spawn_failure_msg(old(self).commands@[old(self).pos as int]@),
            ));
        }
    }
}

// ---------------------------------------------------------------------------
// App selection
// ---------------------------------------------------------------------------

/// The announcement line logged before an app's install command runs.
pub open spec fn install_header(name: Seq<char>, version: Seq<char>, install: Seq<char>) -> Seq<
    char,
> {
    "Installing "@ + name + " ("@ + version + ") using: "@ + install + "\n"@
}

/// The note logged when an install command exits nonzero.
pub open spec fn install_failed_note(name: Seq<char>) -> Seq<char> {
    "Installation of "@ + name + " failed.\n"@
}

/// The selection entries that name a real app, kept in the order given.
pub open spec fn selected_indices(n: int, selection: Seq<usize>) -> Seq<int>
    decreases selection.len(),
{
    if selection.len() == 0 {
        Seq::empty()
    } else if (selection[0] as int) < n {
        seq![selection[0] as int] + selected_indices(n, selection.drop_first())
    } else {
        selected_indices(n, selection.drop_first())
    }
}

proof fn lemma_selected_indices_snoc(n: int, selection: Seq<usize>, x: usize)
    ensures
        selected_indices(n, selection.push(x)) == selected_indices(n, selection) + (
        if (x as int) < n {
            seq![x as int]
        } else {
            Seq::<int>::empty()
        }),
    decreases selection.len(),
{
    let tail = if (x as int) < n {
        seq![x as int]
    } else {
        Seq::<int>::empty()
    };
    if selection.len() == 0 {
        assert(selection.push(x).drop_first() =~= Seq::<usize>::empty());
        assert(selection.push(x)[0] == x);
        assert(selected_indices(n, Seq::<usize>::empty()) =~= Seq::<int>::empty());
        assert(selected_indices(n, selection) =~= Seq::<int>::empty());
        assert(selected_indices(n, selection.push(x)) =~= selected_indices(n, selection) + tail);
    } else {
        assert(selection.push(x).drop_first() =~= selection.drop_first().push(x));
        lemma_selected_indices_snoc(n, selection.drop_first(), x);
        assert(selection.push(x)[0] == selection[0]);
        assert(selected_indices(n, selection.push(x)) =~= selected_indices(n, selection) + tail);
    }
}

proof fn lemma_selected_indices_bounds(n: int, selection: Seq<usize>)
    ensures
        forall|k: int|
            0 <= k < selected_indices(n, selection).len() ==> 0 <= #[trigger] selected_indices(
                n,
                selection,
            )[k] < n,
    decreases selection.len(),
{
    if selection.len() > 0 {
        lemma_selected_indices_bounds(n, selection.drop_first());
        let rest = selected_indices(n, selection.drop_first());
        let idxs = selected_indices(n, selection);
        if (selection[0] as int) < n {
            assert(idxs =~= seq![selection[0] as int] + rest);
            assert forall|k: int| 0 <= k < idxs.len() implies 0 <= #[trigger] idxs[k] < n by {
                if k == 0 {
                    assert(idxs[k] == selection[0] as int);
                } else {
                    assert(idxs[k] == rest[k - 1]);
                }
            }
        } else {
            assert(idxs == rest);
        }
    }
}

/// The plan's entries are exactly the selected apps, in selection order.
pub open spec fn plan_matches(
    plan: Seq<AppDefinition>,
    apps: Seq<AppDefinition>,
    selection: Seq<usize>,
) -> bool {
    let idxs = selected_indices(apps.len() as int, selection);
    &&& plan.len() == idxs.len()
    &&& forall|k: int|
        0 <= k < plan.len() ==> {
            &&& #[trigger] plan[k].name@ == apps[idxs[k]].name@
            &&& plan[k].version@ == apps[idxs[k]].version@
            &&& plan[k].install@ == apps[idxs[k]].install@
        }
}

/// Installs the selected apps one after another, in the order given.
/// Every planned app is attempted exactly once: a nonzero exit is noted
/// in the log and never stops the remaining installs; only a spawn-level
/// failure aborts the batch.
#[derive(Debug)]
pub struct AppBatch {
    pub plan: Vec<AppDefinition>,
    pub pos: usize,
    pub awaiting: bool,
    pub aborted: bool,
}

/// Plans the installation of the selected apps: entries are looked up in
/// the order given (entries past the app list are dropped).  An empty app
/// list or an empty selection is a logged no-op with an empty plan.
pub fn apply_app_selection(
    params: &AppSelectionParams,
    selection: &Vec<usize>,
    log: &mut String,
) -> (r: AppBatch)
    ensures
        r.pos == 0,
        !r.awaiting,
        !r.aborted,
        r.wf(),
        params.apps@.len() == 0 ==> final(log)@ == old(log)@ + "No apps defined in this step.\n"@
            && r.plan@.len() == 0,
        params.apps@.len() > 0 && selection@.len() == 0 ==> final(log)@ == old(log)@
            + "No apps selected.\n"@ && r.plan@.len() == 0,
        params.apps@.len() > 0 && selection@.len() > 0 ==> final(log)@ == old(log)@ && plan_matches(
            r.plan@,
            params.apps@,
            selection@,
        ),
{
    if params.apps.len() == 0 {
        log.append("No apps defined in this step.\n");
        return AppBatch { plan: Vec::new(), pos: 0, awaiting: false, aborted: false };
    }
    if selection.len() == 0 {
        log.append("No apps selected.\n");
        return AppBatch { plan: Vec::new(), pos: 0, awaiting: false, aborted: false };
    }
    let mut plan: Vec<AppDefinition> = Vec::new();
    let mut i: usize = 0;
    while i < selection.len()
        invariant
            0 <= i <= selection@.len(),
            plan_matches(plan@, params.apps@, selection@.take(i as int)),
        decreases selection@.len() - i,
    {
        let ghost n = params.apps@.len() as int;
        let ghost sel0 = selection@.take(i as int);
        let ghost idxs0 = selected_indices(n, sel0);
        let ghost plan0 = plan@;
        let idx = selection[i];
        if idx < params.apps.len() {
            let item = params.apps[idx].clone();
            let ghost gi = item;
            plan.push(item);
            proof {
                lemma_selected_indices_snoc(n, sel0, selection@[i as int]);
                assert(sel0.push(selection@[i as int]) =~= selection@.take(i + 1 as int));
                let idxs1 = selected_indices(n, selection@.take(i + 1 as int));
                assert(idxs1 =~= idxs0 + seq![idx as int]);
                assert(plan@ =~= plan0.push(gi));
                assert forall|k: int| 0 <= k < plan@.len() implies {
                    &&& #[trigger] plan@[k].name@ == params.apps@[idxs1[k]].name@
                    &&& plan@[k].version@ == params.apps@[idxs1[k]].version@
                    &&& plan@[k].install@ == params.apps@[idxs1[k]].install@
                } by {
                    if k < plan0.len() {
                        assert(plan@[k] == plan0[k]);
                        assert(idxs1[k] == idxs0[k]);
                        assert(plan0[k].name@ == params.apps@[idxs0[k]].name@);
                    } else {
                        assert(plan@[k] == gi);
                        assert(idxs1[k] == idx as int);
                    }
                }
                assert(plan_matches(plan@, params.apps@, selection@.take(i + 1 as int)));
            }
        } else {
            proof {
                lemma_selected_indices_snoc(n, sel0, selection@[i as int]);
                assert(sel0.push(selection@[i as int]) =~= selection@.take(i + 1 as int));
                let idxs1 = selected_indices(n, selection@.take(i + 1 as int));
                assert(idxs1 =~= idxs0);
                assert(plan_matches(plan@, params.apps@, selection@.take(i + 1 as int)));
            }
        }
        i = i + 1;
    }
    proof {
        assert(selection@.take(selection@.len() as int) =~= selection@);
    }
    AppBatch { plan, pos: 0, awaiting: false, aborted: false }
}

impl AppBatch {
    pub open spec fn wf(self) -> bool {
        &&& self.pos <= self.plan@.len()
        &&& (self.awaiting ==> self.pos < self.plan@.len())
    }

    /// Every planned install was attempted and none hit a spawn failure.
    pub fn completed(&self) -> (r: bool)
        ensures
            r == (!self.aborted && self.pos == self.plan@.len()),
    {
        !self.aborted && self.pos == self.plan.len()
    }

    /// A spawn-level failure stopped the batch early.
    pub fn was_aborted(&self) -> (r: bool)
        ensures
            r == self.aborted,
    {
        self.aborted
    }

    /// Hands out the next install command, logging its announcement line,
    /// or returns `None` when every planned app has been attempted.
    pub fn next_action(&mut self, log: &mut String) -> (r: Option<String>)
        requires
            old(self).wf(),
            !old(self).awaiting,
            !old(self).aborted,
        ensures
            final(self).plan == old(self).plan,
            final(self).pos == old(self).pos,
            !final(self).aborted,
            final(self).wf(),
            r is Some <==> old(self).pos < old(self).plan@.len(),
            r matches Some(c) ==> ({
                let a = old(self).plan@[old(self).pos as int];
                &&& c@ == a.install@
                &&& final(self).awaiting
                &&& final(log)@ == old(log)@ + install_header(a.name@, a.version@, a.install@)
            }),
            r is None ==> !final(self).awaiting && final(log)@ == old(log)@,
    {
        if self.pos == self.plan.len() {
            return None;
        }
        let app = &self.plan[self.pos];
        log.append("Installing ");
        log.append(app.name.as_str());
        log.append(" (");
        log.append(app.version.as_str());
        log.append(") using: ");
        log.append(app.install.as_str());
        log.append("\n");
        proof {
            assert(log@ =~= old(log)@ + install_header(app.name@, app.version@, app.install@));
        }
        self.awaiting = true;
        Some(app.install.clone())
    }

    /// Feeds the exit code of the install last handed out.  For every exit
    /// code the batch simply moves to the next planned app: a nonzero exit
    /// is noted in the log but never removes later apps from the plan and
    /// never aborts the batch.
    pub fn on_exit(&mut self, log: &mut String, code: i32)
        requires
            old(self).wf(),
            old(self).awaiting,
            !old(self).aborted,
        ensures
            final(self).plan == old(self).plan,
            final(self).pos == old(self).pos + 1,
            !final(self).awaiting,
            !final(self).aborted,
            final(self).wf(),
            final(log)@ == old(log)@ + (if code != 0 {
                install_failed_note(old(self).plan@[old(self).pos as int].name@)
            } else {
                Seq::<char>::empty()
            }),
    {
        if code != 0 {
            let app = &self.plan[self.pos];
            log.append("Installation of ");
            log.append(app.name.as_str());
            log.append(" failed.\n");
            proof {
                assert(log@ =~= old(log)@ + install_failed_note(
                    old(self).plan@[old(self).pos as int].name@,
                ));
            }
        }
        let len = self.plan.len();
        proof {
            assert(self.pos < len);
        }
        self.pos = self.pos + 1;
        self.awaiting = false;
    }

    /// The shell for the install last handed out could not be started: a
    /// systemic problem, so the rest of the batch is abandoned.
    pub fn on_spawn_failed(&mut self, log: &mut String)
        requires
            old(self).wf(),
            old(self).awaiting,
        ensures
            final(self).plan == old(self).plan,
            final(self).pos == old(self).pos,
            final(self).aborted,
            !final(self).awaiting,
            final(self).wf(),
            final(log)@ == old(log)@ + error_note(
                spawn_failure_msg(old(self).plan@[old(self).pos as int].install@),
            ),
    {
        let app = &self.plan[self.pos];
        log.append("\n[ERROR] ");
        log.append("Failed to execute command: ");
        log.append(app.install.as_str());
        log.append("\n");
        self.awaiting = false;
        self.aborted = true;
        proof {
            assert(log@ =~= old(log)@ + error_note(
                spawn_failure_msg(old(self).plan@[old(self).pos as int].install@),
            ));
        }
    }
}

// ---------------------------------------------------------------------------
// Privileged-session bootstrap
// ---------------------------------------------------------------------------

/// Begins the one-time privileged-session warm-up: logs the notice and
/// returns the command line the caller must run with output captured.
pub fn start_sudo_session(log: &mut String) -> (r: String)
    ensures
        final(log)@ == old(log)@ + "Initializing sudo session with `sudo -v`...\n"@,
        r@ == "sudo -v"@,
{
    log.append("Initializing sudo session with `sudo -v`...\n");
    String::from_str("sudo -v")
}

/// Records the warm-up's result.  `false` means the privileged session is
/// unavailable and startup must abort.
pub fn finish_sudo_session(log: &mut String, out: &CmdOutput) -> (r: bool)
    ensures
        final(log)@ == old(log)@ + command_transcript("sudo -v"@, *out),
        r <==> out.code == 0,
{
    append_output(log, "sudo -v", out);
    out.code == 0
}

} // verus!
