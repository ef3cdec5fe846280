//! The step list data model: step definitions, per-step runtime state, and
//! the validation rules that an upstream loader must establish before the
//! engine runs.

use crate::text::blank;
use crate::text::is_blank;
use vstd::prelude::*;
use vstd::string::StrSliceExecFns;
use vstd::string::StringExecFns;

verus! {

/// A whole step list, as an upstream loader hands it over.
#[derive(Debug)]
pub struct StepFile {
    pub steps: Vec<Step>,
}

/// One unit of provisioning work: a name, optional pre/post scripts, an
/// optional main script and a kind-specific main action.
#[derive(Debug)]
pub struct Step {
    pub name: String,
    pub kind: StepKind,
    pub pre_script: Option<String>,
    pub script: Option<String>,
    pub post_script: Option<String>,
}

/// The closed set of main actions a step can perform.
#[derive(Debug)]
pub enum StepKind {
    Script,
    AddText { params: AddTextParams },
    GitConfig { params: GitConfigParams },
    AppSelection { params: AppSelectionParams },
}

/// Where a step currently stands in its lifecycle.
#[derive(Debug, Clone, Copy, PartialEq, Eq, Structural)]
pub enum StepStatus {
    Pending,
    Running,
    Skipped,
    Success,
    Failed,
}

impl Default for StepStatus {
    fn default() -> (r: Self)
        ensures
            r is Pending,
    {
        StepStatus::Pending
    }
}

/// The mutable state tracked for one step during a program run: its status
/// and an append-only log buffer.
#[derive(Debug, Clone)]
pub struct StepRuntime {
    pub status: StepStatus,
    pub log: String,
}

impl Default for StepRuntime {
    fn default() -> (r: Self)
        ensures
            r.status is Pending,
            r.log@ == Seq::<char>::empty(),
    {
        StepRuntime { status: StepStatus::Pending, log: String::new() }
    }
}

/// Parameters of an `AddText` step: the file to append to and the text.
#[derive(Debug, Clone)]
pub struct AddTextParams {
    pub file: String,
    pub content: String,
}

/// Parameters of a `GitConfig` step: the editor used when the user leaves
/// the editor field blank.
#[derive(Debug, Clone)]
pub struct GitConfigParams {
    pub default_editor: String,
}

/// Parameters of an `AppSelection` step: the ordered list of offered apps.
#[derive(Debug)]
pub struct AppSelectionParams {
    pub apps: Vec<AppDefinition>,
}

/// One installable app: display name, version label and install command.
#[derive(Debug)]
pub struct AppDefinition {
    pub name: String,
    pub version: String,
    pub install: String,
}

impl Clone for AppDefinition {
    fn clone(&self) -> (r: Self)
        ensures
            r.name@ == self.name@,
            r.version@ == self.version@,
            r.install@ == self.install@,
    {
        AppDefinition {
            name: self.name.clone(),
            version: self.version.clone(),
            install: self.install.clone(),
        }
    }
}

/// The editor substituted when a `GitConfig` step names none.
pub fn default_editor() -> (r: String)
    ensures
        r@ == "vim"@,
{
    String::from_str("vim")
}

// ---------------------------------------------------------------------------
// Validation
// ---------------------------------------------------------------------------

/// An app entry is well formed when its trimmed name and install command are
/// both non-empty.
pub open spec fn app_valid(a: AppDefinition) -> bool {
    !blank(a.name@) && !blank(a.install@)
}

/// A step is well formed when its trimmed name is non-empty and its kind's
/// own requirements hold: a `Script` step names a main script, an `AddText`
/// step has a non-blank file and non-empty content, and an `AppSelection`
/// step offers at least one well-formed app.
pub open spec fn step_valid(s: Step) -> bool {
    &&& !blank(s.name@)
    &&& match s.kind {
        StepKind::Script => s.script is Some,
        StepKind::AddText { params } => !blank(params.file@) && params.content@.len() > 0,
        StepKind::GitConfig { params } => true,
        StepKind::AppSelection { params } => {
            &&& params.apps@.len() > 0
            &&& forall|i: int| 0 <= i < params.apps@.len() ==> app_valid(params.apps@[i])
        },
    }
}

/// A step file is well formed when it holds at least one step and every step
/// is well formed.
pub open spec fn step_file_valid(f: StepFile) -> bool {
    &&& f.steps@.len() > 0
    &&& forall|i: int| 0 <= i < f.steps@.len() ==> step_valid(f.steps@[i])
}

/// The reason a step file was rejected, naming the offending step (and app).
#[derive(Debug, Clone, Copy, PartialEq, Eq, Structural)]
pub enum ValidateError {
    NoSteps,
    EmptyName { step: usize },
    MissingScript { step: usize },
    EmptyFile { step: usize },
    EmptyContent { step: usize },
    NoApps { step: usize },
    EmptyAppName { step: usize, app: usize },
    EmptyInstallCommand { step: usize, app: usize },
}

/// All steps before `i` are well formed.
pub open spec fn steps_valid_before(f: StepFile, i: int) -> bool {
    forall|j: int| 0 <= j < i ==> step_valid(f.steps@[j])
}

/// The error `e` names the first violation found when the steps are scanned
/// in order and, within a step, the name is checked before the kind's own
/// requirements and the apps are scanned in order.
pub open spec fn names_first_violation(f: StepFile, e: ValidateError) -> bool {
    match e {
        ValidateError::NoSteps => f.steps@.len() == 0,
        ValidateError::EmptyName { step } => {
            &&& step < f.steps@.len()
            &&& steps_valid_before(f, step as int)
            &&& blank(f.steps@[step as int].name@)
        },
        ValidateError::MissingScript { step } => {
            &&& step < f.steps@.len()
            &&& steps_valid_before(f, step as int)
            &&& !blank(f.steps@[step as int].name@)
            &&& f.steps@[step as int].kind is Script
            &&& f.steps@[step as int].script is None
        },
        ValidateError::EmptyFile { step } => {
            &&& step < f.steps@.len()
            &&& steps_valid_before(f, step as int)
            &&& !blank(f.steps@[step as int].name@)
            &&& match f.steps@[step as int].kind {
                StepKind::AddText { params } => blank(params.file@),
                _ => false,
            }
        },
        ValidateError::EmptyContent { step } => {
            &&& step < f.steps@.len()
            &&& steps_valid_before(f, step as int)
            &&& !blank(f.steps@[step as int].name@)
            &&& match f.steps@[step as int].kind {
                StepKind::AddText { params } => !blank(params.file@) && params.content@.len() == 0,
                _ => false,
            }
        },
        ValidateError::NoApps { step } => {
            &&& step < f.steps@.len()
            &&& steps_valid_before(f, step as int)
            &&& !blank(f.steps@[step as int].name@)
            &&& match f.steps@[step as int].kind {
                StepKind::AppSelection { params } => params.apps@.len() == 0,
                _ => false,
            }
        },
        ValidateError::EmptyAppName { step, app } => {
            &&& step < f.steps@.len()
            &&& steps_valid_before(f, step as int)
            &&& !blank(f.steps@[step as int].name@)
            &&& match f.steps@[step as int].kind {
                StepKind::AppSelection { params } => {
                    &&& params.apps@.len() > 0
                    &&& app < params.apps@.len()
                    &&& (forall|j: int| 0 <= j < app ==> app_valid(params.apps@[j]))
                    &&& blank(params.apps@[app as int].name@)
                },
                _ => false,
            }
        },
        ValidateError::EmptyInstallCommand { step, app } => {
            &&& step < f.steps@.len()
            &&& steps_valid_before(f, step as int)
            &&& !blank(f.steps@[step as int].name@)
            &&& match f.steps@[step as int].kind {
                StepKind::AppSelection { params } => {
                    &&& params.apps@.len() > 0
                    &&& app < params.apps@.len()
                    &&& (forall|j: int| 0 <= j < app ==> app_valid(params.apps@[j]))
                    &&& !blank(params.apps@[app as int].name@)
                    &&& blank(params.apps@[app as int].install@)
                },
                _ => false,
            }
        },
    }
}

impl StepFile {
    /// Checks the rules an upstream loader owes the engine: at least one
    /// step, every step named, a `Script` step with a main script, `AddText`
    /// with a file and content, `AppSelection` with at least one fully
    /// specified app.  Returns `Ok` exactly when the whole file is well
    /// formed; an error names the first violation in scan order.
    pub fn validate(&self) -> (r: Result<(), ValidateError>)
        ensures
            r is Ok <==> step_file_valid(*self),
            r matches Err(e) ==> names_first_violation(*self, e),
    {
        if self.steps.len() == 0 {
            return Err(ValidateError::NoSteps);
        }
        let mut i: usize = 0;
        while i < self.steps.len()
            invariant
                0 <= i <= self.steps@.len(),
                steps_valid_before(*self, i as int),
            decreases self.steps@.len() - i,
        {
            let step = &self.steps[i];
            if is_blank(step.name.as_str()) {
                return Err(ValidateError::EmptyName { step: i });
            }
            match &step.kind {
                StepKind::Script => {
                    if step.script.is_none() {
                        return Err(ValidateError::MissingScript { step: i });
                    }
                },
                StepKind::AddText { params } => {
                    if is_blank(params.file.as_str()) {
                        return Err(ValidateError::EmptyFile { step: i });
                    }
                    if params.content.as_str().unicode_len() == 0 {
                        return Err(ValidateError::EmptyContent { step: i });
                    }
                },
                StepKind::GitConfig { params: _ } => {},
                StepKind::AppSelection { params } => {
                    if params.apps.len() == 0 {
                        return Err(ValidateError::NoApps { step: i });
                    }
                    let mut a: usize = 0;
                    while a < params.apps.len()
                        invariant
                            0 <= a <= params.apps@.len(),
                            i < self.steps@.len(),
                            self.steps@[i as int].kind matches StepKind::AppSelection {
                                params: ps,
                            } && ps == *params,
                            steps_valid_before(*self, i as int),
                            !blank(self.steps@[i as int].name@),
                            forall|j: int| 0 <= j < a ==> app_valid(params.apps@[j]),
                        decreases params.apps@.len() - a,
                    {
                        let app = &params.apps[a];
                        if is_blank(app.name.as_str()) {
                            proof {
                                assert(!app_valid(params.apps@[a as int]));
                                assert(!step_valid(self.steps@[i as int]));
                            }
                            return Err(ValidateError::EmptyAppName { step: i, app: a });
                        }
                        if is_blank(app.install.as_str()) {
                            proof {
                                assert(!app_valid(params.apps@[a as int]));
                                assert(!step_valid(self.steps@[i as int]));
                            }
                            return Err(ValidateError::EmptyInstallCommand { step: i, app: a });
                        }
                        a = a + 1;
                    }
                },
            }
            assert(step_valid(self.steps@[i as int]));
            i = i + 1;
        }
        Ok(())
    }
}

} // verus!
