//! The orchestration state machine of the bootstrap workflow.
//!
//! The workflow runs a fixed sequence of steps: verify the interpreter,
//! collect and normalise the project name, ensure each package of a fixed
//! dependency list is installed, invoke the scaffolding tool, and provision
//! two auxiliary folders under the new project root. Every step asks the
//! environment to perform one external action ([`next_action`]) and advances
//! on the outcome it reports back ([`apply_event`]); the first failure moves
//! the machine to a terminal [`FlowState::Failed`] state, which absorbs all
//! later events, so no further action is ever requested.
//!
//! Of the two orderings the workflow admits, this machine collects the
//! project name before it ensures the packages; the two phases are
//! independent, so the choice does not affect the outcome.

use vstd::prelude::*;

use crate::name::is_allowed;
use crate::name::is_space;
use crate::name::normalize_project_name;
use crate::name::normalized;

verus! {

/// How many packages the fixed dependency list holds.
pub const PACKAGE_COUNT: usize = 9;

/// The curated dependency list, by position. Positions past the end stand
/// for the last entry; the machine never produces them.
pub open spec fn spec_package(i: int) -> Seq<char> {
    if i == 0 {
        "numpy"@
    } else if i == 1 {
        "pandas"@
    } else if i == 2 {
        "matplotlib"@
    } else if i == 3 {
        "seaborn"@
    } else if i == 4 {
        "plotly"@
    } else if i == 5 {
        "openpyxl"@
    } else if i == 6 {
        "ipykernel"@
    } else if i == 7 {
        "jupyter"@
    } else {
        "jupyterlab"@
    }
}

/// The package name at a position of the fixed dependency list.
pub fn package_name(i: usize) -> (r: &'static str)
    ensures
        r@ == spec_package(i as int),
{
    match i {
        0 => "numpy",
        1 => "pandas",
        2 => "matplotlib",
        3 => "seaborn",
        4 => "plotly",
        5 => "openpyxl",
        6 => "ipykernel",
        7 => "jupyter",
        _ => "jupyterlab",
    }
}

/// The interpreter binary name for the OS family.
pub open spec fn spec_interpreter_command(is_unix: bool) -> Seq<char> {
    if is_unix {
        "python3"@
    } else {
        "python"@
    }
}

/// Picks the interpreter binary name once from the OS family: `python3` on a
/// Unix-like system, `python` otherwise.
pub fn interpreter_command(is_unix: bool) -> (r: &'static str)
    ensures
        r@ == spec_interpreter_command(is_unix),
{
    if is_unix {
        "python3"
    } else {
        "python"
    }
}

/// The fixed starter identifier handed to the scaffolding tool.
pub fn scaffold_template() -> (r: &'static str)
    ensures
        r@ == "standalone-datacatalog"@,
{
    "standalone-datacatalog"
}

/// Why a run failed. The first failure terminates the run; nothing is
/// retried or rolled back.
#[derive(Debug, PartialEq, Eq)]
pub enum FlowError {
    /// The interpreter is missing, its version check failed, or it could not
    /// be driven for the install-prefix query.
    InterpreterNotFound,
    /// The project name normalised to the empty string.
    EmptyProjectName,
    /// The package manager's "show" query could not be run.
    PackageQueryFailed,
    /// Installing this package could not be run or exited non-zero.
    PackageInstallFailed { package: String },
    /// The scaffolding tool could not be spawned or driven over its input
    /// channel.
    ScaffoldSpawnFailed { message: String },
    /// The scaffolding tool exited non-zero; carries its captured error text.
    ScaffoldFailed { message: String },
    /// Creating this auxiliary folder failed.
    FolderCreationFailed { path: String, cause: String },
}

/// The mathematical value of a [`FlowError`].
#[verifier::ext_equal]
pub enum ErrorView {
    InterpreterNotFound,
    EmptyProjectName,
    PackageQueryFailed,
    PackageInstallFailed { package: Seq<char> },
    ScaffoldSpawnFailed { message: Seq<char> },
    ScaffoldFailed { message: Seq<char> },
    FolderCreationFailed { path: Seq<char>, cause: Seq<char> },
}

impl View for FlowError {
    type V = ErrorView;

    open spec fn view(&self) -> ErrorView {
        match self {
            FlowError::InterpreterNotFound => ErrorView::InterpreterNotFound,
            FlowError::EmptyProjectName => ErrorView::EmptyProjectName,
            FlowError::PackageQueryFailed => ErrorView::PackageQueryFailed,
            FlowError::PackageInstallFailed { package } => ErrorView::PackageInstallFailed {
                package: package@,
            },
            FlowError::ScaffoldSpawnFailed { message } => ErrorView::ScaffoldSpawnFailed {
                message: message@,
            },
            FlowError::ScaffoldFailed { message } => ErrorView::ScaffoldFailed {
                message: message@,
            },
            FlowError::FolderCreationFailed { path, cause } => ErrorView::FolderCreationFailed {
                path: path@,
                cause: cause@,
            },
        }
    }
}

/// Where the workflow stands. The machine starts in `Start` and walks the
/// steps in order; `Done` and `Failed` are terminal.
#[derive(Debug, PartialEq, Eq)]
pub enum FlowState {
    /// Nothing has run yet; the interpreter's version check is next.
    Start,
    /// The version check passed; the install-prefix query (log-only) is next.
    PrefixQuery,
    /// The interpreter is verified; the project name prompt is next.
    AwaitName,
    /// The "show" query for the package at `idx` is next.
    CheckPackage { name: String, idx: usize },
    /// The package at `idx` was absent; its install is next.
    InstallPackage { name: String, idx: usize },
    /// All packages are present; the scaffolding tool runs next.
    Scaffold { name: String },
    /// The scaffold succeeded; creating `<name>/src` is next.
    ProvisionSrc { name: String },
    /// `<name>/src` exists; creating `<name>/resources` is next.
    ProvisionResources { name: String },
    /// Terminal success: the project and both auxiliary folders exist.
    Done { name: String },
    /// Terminal failure; carries the first error.
    Failed { error: FlowError },
}

/// The mathematical value of a [`FlowState`].
#[verifier::ext_equal]
pub enum StateView {
    Start,
    PrefixQuery,
    AwaitName,
    CheckPackage { name: Seq<char>, idx: int },
    InstallPackage { name: Seq<char>, idx: int },
    Scaffold { name: Seq<char> },
    ProvisionSrc { name: Seq<char> },
    ProvisionResources { name: Seq<char> },
    Done { name: Seq<char> },
    Failed { error: ErrorView },
}

impl View for FlowState {
    type V = StateView;

    open spec fn view(&self) -> StateView {
        match self {
            FlowState::Start => StateView::Start,
            FlowState::PrefixQuery => StateView::PrefixQuery,
            FlowState::AwaitName => StateView::AwaitName,
            FlowState::CheckPackage { name, idx } => StateView::CheckPackage {
                name: name@,
                idx: *idx as int,
            },
            FlowState::InstallPackage { name, idx } => StateView::InstallPackage {
                name: name@,
                idx: *idx as int,
            },
            FlowState::Scaffold { name } => StateView::Scaffold { name: name@ },
            FlowState::ProvisionSrc { name } => StateView::ProvisionSrc { name: name@ },
            FlowState::ProvisionResources { name } => StateView::ProvisionResources {
                name: name@,
            },
            FlowState::Done { name } => StateView::Done { name: name@ },
            FlowState::Failed { error } => StateView::Failed { error: error@ },
        }
    }
}

/// The outcome of one external action, reported back to the machine.
#[derive(Debug, PartialEq, Eq)]
pub enum FlowEvent {
    /// The interpreter's version query: whether the process started, and
    /// whether it exited successfully.
    VersionChecked { started: bool, success: bool },
    /// The interpreter's install-prefix query: whether the process started.
    /// Its output is log-only and its exit status is not checked.
    PrefixQueried { started: bool },
    /// One raw line of input from the name prompt.
    NameEntered { raw: String },
    /// The package manager's "show" query for the current package: whether
    /// it ran, and whether its output was empty.
    PackageQueried { started: bool, output_empty: bool },
    /// The install of the current package: whether it ran, and whether it
    /// exited successfully.
    PackageInstalled { started: bool, success: bool },
    /// The scaffolding tool could not be spawned or written to.
    ScaffoldNotDriven { message: String },
    /// The scaffolding tool spawned but offered no writable input handle;
    /// carries its extracted error text.
    ScaffoldNoStdin { stderr: String },
    /// The scaffolding tool ran to termination; carries its extracted error
    /// text (empty on success).
    ScaffoldExited { success: bool, stderr: String },
    /// One folder creation attempt: whether it succeeded, and the cause of
    /// failure otherwise.
    FolderCreated { success: bool, cause: String },
}

/// The mathematical value of a [`FlowEvent`].
#[verifier::ext_equal]
pub enum EventView {
    VersionChecked { started: bool, success: bool },
    PrefixQueried { started: bool },
    NameEntered { raw: Seq<char> },
    PackageQueried { started: bool, output_empty: bool },
    PackageInstalled { started: bool, success: bool },
    ScaffoldNotDriven { message: Seq<char> },
    ScaffoldNoStdin { stderr: Seq<char> },
    ScaffoldExited { success: bool, stderr: Seq<char> },
    FolderCreated { success: bool, cause: Seq<char> },
}

impl View for FlowEvent {
    type V = EventView;

    open spec fn view(&self) -> EventView {
        match self {
            FlowEvent::VersionChecked { started, success } => EventView::VersionChecked {
                started: *started,
                success: *success,
            },
            FlowEvent::PrefixQueried { started } => EventView::PrefixQueried {
                started: *started,
            },
            FlowEvent::NameEntered { raw } => EventView::NameEntered { raw: raw@ },
            FlowEvent::PackageQueried { started, output_empty } => EventView::PackageQueried {
                started: *started,
                output_empty: *output_empty,
            },
            FlowEvent::PackageInstalled { started, success } => EventView::PackageInstalled {
                started: *started,
                success: *success,
            },
            FlowEvent::ScaffoldNotDriven { message } => EventView::ScaffoldNotDriven {
                message: message@,
            },
            FlowEvent::ScaffoldNoStdin { stderr } => EventView::ScaffoldNoStdin {
                stderr: stderr@,
            },
            FlowEvent::ScaffoldExited { success, stderr } => EventView::ScaffoldExited {
                success: *success,
                stderr: stderr@,
            },
            FlowEvent::FolderCreated { success, cause } => EventView::FolderCreated {
                success: *success,
                cause: cause@,
            },
        }
    }
}

/// How one reported outcome advances the machine. A terminal state absorbs
/// every event, and an event that does not answer the pending step of the
/// current state changes nothing.
pub open spec fn spec_apply_event(s: StateView, e: EventView) -> StateView {
    match (s, e) {
        (StateView::Start, EventView::VersionChecked { started, success }) => {
            if started && success {
                StateView::PrefixQuery
            } else {
                StateView::Failed { error: ErrorView::InterpreterNotFound }
            }
        },
        (StateView::PrefixQuery, EventView::PrefixQueried { started }) => {
            if started {
                StateView::AwaitName
            } else {
                StateView::Failed { error: ErrorView::InterpreterNotFound }
            }
        },
        (StateView::AwaitName, EventView::NameEntered { raw }) => {
            if normalized(raw).len() == 0 {
                StateView::Failed { error: ErrorView::EmptyProjectName }
            } else {
                StateView::CheckPackage { name: normalized(raw), idx: 0 }
            }
        },
        (
            StateView::CheckPackage { name, idx },
            EventView::PackageQueried { started, output_empty },
        ) => {
            if !started {
                StateView::Failed { error: ErrorView::PackageQueryFailed }
            } else if output_empty {
                StateView::InstallPackage { name, idx }
            } else if idx < PACKAGE_COUNT - 1 {
                StateView::CheckPackage { name, idx: idx + 1 }
            } else {
                StateView::Scaffold { name }
            }
        },
        (
            StateView::InstallPackage { name, idx },
            EventView::PackageInstalled { started, success },
        ) => {
            if started && success {
                if idx < PACKAGE_COUNT - 1 {
                    StateView::CheckPackage { name, idx: idx + 1 }
                } else {
                    StateView::Scaffold { name }
                }
            } else {
                StateView::Failed {
                    error: ErrorView::PackageInstallFailed { package: spec_package(idx) },
                }
            }
        },
        (StateView::Scaffold { name }, EventView::ScaffoldNotDriven { message }) => {
            StateView::Failed { error: ErrorView::ScaffoldSpawnFailed { message } }
        },
        (StateView::Scaffold { name }, EventView::ScaffoldNoStdin { stderr }) => {
            StateView::Failed { error: ErrorView::ScaffoldSpawnFailed { message: stderr } }
        },
        (StateView::Scaffold { name }, EventView::ScaffoldExited { success, stderr }) => {
            if success {
                StateView::ProvisionSrc { name }
            } else {
                StateView::Failed { error: ErrorView::ScaffoldFailed { message: stderr } }
            }
        },
        (StateView::ProvisionSrc { name }, EventView::FolderCreated { success, cause }) => {
            if success {
                StateView::ProvisionResources { name }
            } else {
                StateView::Failed {
                    error: ErrorView::FolderCreationFailed { path: name + "/src"@, cause },
                }
            }
        },
        (StateView::ProvisionResources { name }, EventView::FolderCreated { success, cause }) => {
            if success {
                StateView::Done { name }
            } else {
                StateView::Failed {
                    error: ErrorView::FolderCreationFailed { path: name + "/resources"@, cause },
                }
            }
        },
        (s0, _) => s0,
    }
}

/// Advances the machine by one reported outcome. The machine is total: a
/// terminal state absorbs every event, and an event that does not answer the
/// pending step changes nothing.
pub fn apply_event(state: FlowState, event: &FlowEvent) -> (r: FlowState)
    ensures
        r@ == spec_apply_event(state@, event@),
{
    match (state, event) {
        (FlowState::Start, FlowEvent::VersionChecked { started, success }) => {
            if *started && *success {
                FlowState::PrefixQuery
            } else {
                FlowState::Failed { error: FlowError::InterpreterNotFound }
            }
        },
        (FlowState::PrefixQuery, FlowEvent::PrefixQueried { started }) => {
            if *started {
                FlowState::AwaitName
            } else {
                FlowState::Failed { error: FlowError::InterpreterNotFound }
            }
        },
        (FlowState::AwaitName, FlowEvent::NameEntered { raw }) => {
            let name = normalize_project_name(raw.as_str());
            if name.as_str().is_empty() {
                FlowState::Failed { error: FlowError::EmptyProjectName }
            } else {
                FlowState::CheckPackage { name, idx: 0 }
            }
        },
        (
            FlowState::CheckPackage { name, idx },
            FlowEvent::PackageQueried { started, output_empty },
        ) => {
            if !*started {
                FlowState::Failed { error: FlowError::PackageQueryFailed }
            } else if *output_empty {
                FlowState::InstallPackage { name, idx }
            } else if idx < PACKAGE_COUNT - 1 {
                FlowState::CheckPackage { name, idx: idx + 1 }
            } else {
                FlowState::Scaffold { name }
            }
        },
        (
            FlowState::InstallPackage { name, idx },
            FlowEvent::PackageInstalled { started, success },
        ) => {
            if *started && *success {
                if idx < PACKAGE_COUNT - 1 {
                    FlowState::CheckPackage { name, idx: idx + 1 }
                } else {
                    FlowState::Scaffold { name }
                }
            } else {
                FlowState::Failed {
                    error: FlowError::PackageInstallFailed { package: package_name(idx).to_owned() },
                }
            }
        },
        (FlowState::Scaffold { name: _ }, FlowEvent::ScaffoldNotDriven { message }) => {
            FlowState::Failed {
                error: FlowError::ScaffoldSpawnFailed { message: message.clone() },
            }
        },
        (FlowState::Scaffold { name: _ }, FlowEvent::ScaffoldNoStdin { stderr }) => {
            FlowState::Failed {
                error: FlowError::ScaffoldSpawnFailed { message: stderr.clone() },
            }
        },
        (FlowState::Scaffold { name }, FlowEvent::ScaffoldExited { success, stderr }) => {
            if *success {
                FlowState::ProvisionSrc { name }
            } else {
                FlowState::Failed {
                    error: FlowError::ScaffoldFailed { message: stderr.clone() },
                }
            }
        },
        (FlowState::ProvisionSrc { name }, FlowEvent::FolderCreated { success, cause }) => {
            if *success {
                FlowState::ProvisionResources { name }
            } else {
                FlowState::Failed {
                    error: FlowError::FolderCreationFailed {
                        path: name.concat("/src"),
                        cause: cause.clone(),
                    },
                }
            }
        },
        (FlowState::ProvisionResources { name }, FlowEvent::FolderCreated { success, cause }) => {
            if *success {
                FlowState::Done { name }
            } else {
                FlowState::Failed {
                    error: FlowError::FolderCreationFailed {
                        path: name.concat("/resources"),
                        cause: cause.clone(),
                    },
                }
            }
        },
        (s0, _) => s0,
    }
}

/// One external action the environment is asked to perform.
#[derive(Debug, PartialEq, Eq)]
pub enum FlowAction {
    /// Run the interpreter with its version-query argument; its exit status
    /// decides.
    CheckInterpreterVersion { cmd: String },
    /// Run the interpreter with the install-prefix query; the output is
    /// log-only.
    QueryInterpreterPrefix { cmd: String },
    /// Prompt on the console and read one line: the raw project name.
    PromptForName,
    /// Run the package manager's "show" query for this package; the
    /// emptiness of its output decides presence.
    QueryPackage { package: String },
    /// Run the package manager's install command for this package.
    InstallPackage { package: String },
    /// Run the scaffolding tool with the starter identifier and feed it the
    /// normalised name over its input channel.
    RunScaffold { template: String, name: String },
    /// Create one directory at this path.
    CreateFolder { path: String },
}

/// The mathematical value of a [`FlowAction`].
#[verifier::ext_equal]
pub enum ActionView {
    CheckInterpreterVersion { cmd: Seq<char> },
    QueryInterpreterPrefix { cmd: Seq<char> },
    PromptForName,
    QueryPackage { package: Seq<char> },
    InstallPackage { package: Seq<char> },
    RunScaffold { template: Seq<char>, name: Seq<char> },
    CreateFolder { path: Seq<char> },
}

impl View for FlowAction {
    type V = ActionView;

    open spec fn view(&self) -> ActionView {
        match self {
            FlowAction::CheckInterpreterVersion { cmd } => ActionView::CheckInterpreterVersion {
                cmd: cmd@,
            },
            FlowAction::QueryInterpreterPrefix { cmd } => ActionView::QueryInterpreterPrefix {
                cmd: cmd@,
            },
            FlowAction::PromptForName => ActionView::PromptForName,
            FlowAction::QueryPackage { package } => ActionView::QueryPackage {
                package: package@,
            },
            FlowAction::InstallPackage { package } => ActionView::InstallPackage {
                package: package@,
            },
            FlowAction::RunScaffold { template, name } => ActionView::RunScaffold {
                template: template@,
                name: name@,
            },
            FlowAction::CreateFolder { path } => ActionView::CreateFolder { path: path@ },
        }
    }
}

/// The value of an optional action.
pub open spec fn action_view(r: Option<FlowAction>) -> Option<ActionView> {
    match r {
        Option::Some(a) => Option::Some(a@),
        Option::None => Option::None,
    }
}

/// A state from which no further action is requested.
pub open spec fn is_terminal(s: StateView) -> bool {
    s is Done || s is Failed
}

/// What each state asks of the environment next; `None` in the terminal
/// states.
pub open spec fn spec_next_action(is_unix: bool, s: StateView) -> Option<ActionView> {
    match s {
        StateView::Start => Option::Some(
            ActionView::CheckInterpreterVersion { cmd: spec_interpreter_command(is_unix) },
        ),
        StateView::PrefixQuery => Option::Some(
            ActionView::QueryInterpreterPrefix { cmd: spec_interpreter_command(is_unix) },
        ),
        StateView::AwaitName => Option::Some(ActionView::PromptForName),
        StateView::CheckPackage { name, idx } => Option::Some(
            ActionView::QueryPackage { package: spec_package(idx) },
        ),
        StateView::InstallPackage { name, idx } => Option::Some(
            ActionView::InstallPackage { package: spec_package(idx) },
        ),
        StateView::Scaffold { name } => Option::Some(
            ActionView::RunScaffold { template: "standalone-datacatalog"@, name },
        ),
        StateView::ProvisionSrc { name } => Option::Some(
            ActionView::CreateFolder { path: name + "/src"@ },
        ),
        StateView::ProvisionResources { name } => Option::Some(
            ActionView::CreateFolder { path: name + "/resources"@ },
        ),
        StateView::Done { name } => Option::None,
        StateView::Failed { error } => Option::None,
    }
}

/// The external action the current state asks for, or `None` once the run
/// has finished or failed.
pub fn next_action(is_unix: bool, state: &FlowState) -> (r: Option<FlowAction>)
    ensures
        action_view(r) == spec_next_action(is_unix, state@),
{
    match state {
        FlowState::Start => Some(
            FlowAction::CheckInterpreterVersion { cmd: interpreter_command(is_unix).to_owned() },
        ),
        FlowState::PrefixQuery => Some(
            FlowAction::QueryInterpreterPrefix { cmd: interpreter_command(is_unix).to_owned() },
        ),
        FlowState::AwaitName => Some(FlowAction::PromptForName),
        FlowState::CheckPackage { name: _, idx } => Some(
            FlowAction::QueryPackage { package: package_name(*idx).to_owned() },
        ),
        FlowState::InstallPackage { name: _, idx } => Some(
            FlowAction::InstallPackage { package: package_name(*idx).to_owned() },
        ),
        FlowState::Scaffold { name } => Some(
            FlowAction::RunScaffold {
                template: scaffold_template().to_owned(),
                name: name.clone(),
            },
        ),
        FlowState::ProvisionSrc { name } => Some(
            FlowAction::CreateFolder { path: name.clone().concat("/src") },
        ),
        FlowState::ProvisionResources { name } => Some(
            FlowAction::CreateFolder { path: name.clone().concat("/resources") },
        ),
        FlowState::Done { name: _ } => None,
        FlowState::Failed { error: _ } => None,
    }
}

/// The auxiliary folders to create under the project root, in creation
/// order: first `<root>/src`, then `<root>/resources`. The machine attempts
/// the second only after the first succeeded.
pub fn create_additional_folders(project_name: &str) -> (r: Vec<String>)
    ensures
        r@.len() == 2,
        r@[0]@ == project_name@ + "/src"@,
        r@[1]@ == project_name@ + "/resources"@,
{
    let mut paths: Vec<String> = Vec::new();
    paths.push(project_name.to_owned().concat("/src"));
    paths.push(project_name.to_owned().concat("/resources"));
    paths
}

/// The state after feeding a whole sequence of outcomes to the machine, one
/// by one, starting from `s`.
pub open spec fn spec_run_flow(s: StateView, events: Seq<EventView>) -> StateView
    decreases events.len(),
{
    if events.len() == 0 {
        s
    } else {
        spec_run_flow(spec_apply_event(s, events[0]), events.drop_first())
    }
}

proof fn lemma_run_flow_snoc(s: StateView, events: Seq<EventView>, e: EventView)
    ensures
        spec_run_flow(s, events.push(e)) == spec_apply_event(spec_run_flow(s, events), e),
    decreases events.len(),
{
    if events.len() == 0 {
        assert(events.push(e)[0] == e);
        assert(events.push(e).drop_first() =~= Seq::<EventView>::empty());
        assert(spec_run_flow(spec_apply_event(s, e), Seq::<EventView>::empty())
            == spec_apply_event(s, e));
        assert(spec_run_flow(s, events.push(e)) == spec_apply_event(s, e));
    } else {
        assert(events.push(e)[0] == events[0]);
        assert(events.push(e).drop_first() =~= events.drop_first().push(e));
        lemma_run_flow_snoc(spec_apply_event(s, events[0]), events.drop_first(), e);
    }
}

/// Runs the whole workflow over the outcomes the environment reported, in
/// order, starting from `Start`, and returns the state it ends in.
pub fn run_flow(events: &Vec<FlowEvent>) -> (r: FlowState)
    ensures
        r@ == spec_run_flow(StateView::Start, events@.map_values(|e: FlowEvent| e@)),
{
    let ghost evs = events@.map_values(|e: FlowEvent| e@);
    let mut state = FlowState::Start;
    let n = events.len();
    let mut i: usize = 0;
    while i < n
        invariant
            n == events@.len(),
            evs == events@.map_values(|e: FlowEvent| e@),
            0 <= i <= n,
            state@ == spec_run_flow(StateView::Start, evs.take(i as int)),
        decreases n - i,
    {
        state = apply_event(state, &events[i]);
        proof {
            assert(evs.take(i + 1 as int) =~= evs.take(i as int).push(evs[i as int]));
            lemma_run_flow_snoc(StateView::Start, evs.take(i as int), evs[i as int]);
        }
        i = i + 1;
    }
    proof {
        assert(evs.take(n as int) =~= evs);
    }
    state
}

/// The terminal failure state that carries this error.
pub open spec fn failed_state(e: ErrorView) -> StateView {
    StateView::Failed { error: e }
}

/// The state that is about to query the package at `idx`.
pub open spec fn checking_state(name: Seq<char>, idx: int) -> StateView {
    StateView::CheckPackage { name, idx }
}

/// The state that is about to install the package at `idx`.
pub open spec fn installing_state(name: Seq<char>, idx: int) -> StateView {
    StateView::InstallPackage { name, idx }
}

/// The outcome of the interpreter's version query.
pub open spec fn ev_version_checked(started: bool, success: bool) -> EventView {
    EventView::VersionChecked { started, success }
}

/// The raw line read at the name prompt.
pub open spec fn ev_name_entered(raw: Seq<char>) -> EventView {
    EventView::NameEntered { raw }
}

/// The outcome of a package "show" query.
pub open spec fn ev_package_queried(started: bool, output_empty: bool) -> EventView {
    EventView::PackageQueried { started, output_empty }
}

/// The outcome of a package install.
pub open spec fn ev_package_installed(started: bool, success: bool) -> EventView {
    EventView::PackageInstalled { started, success }
}

/// The outcome of one folder creation attempt.
pub open spec fn ev_folder_created(success: bool, cause: Seq<char>) -> EventView {
    EventView::FolderCreated { success, cause }
}

/// The failure that installing the package at `idx` produces.
pub open spec fn err_install_failed(idx: int) -> ErrorView {
    ErrorView::PackageInstallFailed { package: spec_package(idx) }
}

/// The failure that creating this folder produces.
pub open spec fn err_folder_failed(path: Seq<char>, cause: Seq<char>) -> ErrorView {
    ErrorView::FolderCreationFailed { path, cause }
}

/// The action that installs this package.
pub open spec fn act_install(idx: int) -> ActionView {
    ActionView::InstallPackage { package: spec_package(idx) }
}

/// The action that creates one folder at this path.
pub open spec fn act_create_folder(path: Seq<char>) -> ActionView {
    ActionView::CreateFolder { path }
}

/// Law: a terminal state absorbs every further sequence of events, and asks
/// for no further action — once the run has finished or failed, nothing else
/// is attempted.
pub proof fn lemma_terminal_absorbs(s: StateView, events: Seq<EventView>)
    requires
        is_terminal(s),
    ensures
        spec_run_flow(s, events) == s,
        forall|is_unix: bool| (spec_next_action(is_unix, s) is None),
    decreases events.len(),
{
    if events.len() > 0 {
        lemma_terminal_absorbs(s, events.drop_first());
    }
}

/// Law: if the interpreter check fails — its process cannot start or exits
/// non-zero — the run fails at once with `InterpreterNotFound`, and whatever
/// else the environment might report, no package query, no install, no
/// prompt, no scaffold and no folder creation is ever asked for.
pub proof fn lemma_interpreter_failure_stops_everything(started: bool, success: bool, rest: Seq<EventView>)
    requires
        !(started && success),
    ensures
        spec_run_flow(StateView::Start, seq![ev_version_checked(started, success)].add(rest)) == failed_state(ErrorView::InterpreterNotFound),
        forall|is_unix: bool| (spec_next_action(is_unix, failed_state(ErrorView::InterpreterNotFound)) is None),
{
    let first = seq![ev_version_checked(started, success)].add(rest);
    let failed = failed_state(ErrorView::InterpreterNotFound);
    assert(first[0] == ev_version_checked(started, success));
    assert(first.drop_first() =~= rest);
    assert(spec_apply_event(StateView::Start, first[0]) == failed);
    lemma_terminal_absorbs(failed, rest);
}

/// Law: a raw project name that is empty or consists of whitespace alone is
/// rejected: the machine moves to `Failed { EmptyProjectName }` and never
/// scaffolds with a default or made-up name.
pub proof fn lemma_blank_name_rejected(raw: Seq<char>)
    requires
        forall|i: int| 0 <= i < raw.len() ==> is_space(#[trigger] raw[i]),
    ensures
        spec_apply_event(StateView::AwaitName, ev_name_entered(raw)) == failed_state(ErrorView::EmptyProjectName),
{
    crate::name::lemma_whitespace_normalizes_to_empty(raw);
}

/// Law: a package whose "show" query ran and returned non-empty output is
/// treated as already installed — no install step is entered for it, and the
/// machine moves straight on to the next package, or to the scaffold once
/// the list is exhausted.
pub proof fn lemma_present_package_not_installed(name: Seq<char>, idx: int)
    ensures
        idx < PACKAGE_COUNT - 1 ==> spec_apply_event(checking_state(name, idx), ev_package_queried(true, false)) == checking_state(name, idx + 1),
        idx >= PACKAGE_COUNT - 1 ==> spec_apply_event(checking_state(name, idx), ev_package_queried(true, false)) == (StateView::Scaffold { name }),
        !(spec_apply_event(checking_state(name, idx), ev_package_queried(true, false)) is InstallPackage),
{
}

/// Law: when the "show" query for a package returns empty output the machine
/// asks for exactly that package's install; if the install cannot run or
/// exits non-zero, the run fails with `PackageInstallFailed` carrying that
/// package's name, and no later package in the list is queried or installed.
pub proof fn lemma_install_failure_aborts_list(name: Seq<char>, idx: int, started: bool, success: bool, rest: Seq<EventView>)
    requires
        !(started && success),
    ensures
        spec_apply_event(checking_state(name, idx), ev_package_queried(true, true)) == installing_state(name, idx),
        forall|is_unix: bool| spec_next_action(is_unix, installing_state(name, idx)) == Option::Some(act_install(idx)),
        spec_run_flow(installing_state(name, idx), seq![ev_package_installed(started, success)].add(rest)) == failed_state(err_install_failed(idx)),
{
    let first = seq![ev_package_installed(started, success)].add(rest);
    let failed = failed_state(err_install_failed(idx));
    assert(first[0] == ev_package_installed(started, success));
    assert(first.drop_first() =~= rest);
    assert(spec_apply_event(installing_state(name, idx), first[0]) == failed);
    lemma_terminal_absorbs(failed, rest);
}

/// A well-formed project name: non-empty, and every character an ASCII
/// lower-case letter, a digit or the separator.
pub open spec fn name_ok(name: Seq<char>) -> bool {
    name.len() > 0 && (forall|i: int| 0 <= i < name.len() ==> is_allowed(#[trigger] name[i]))
}

/// The invariant of the data model: every state that carries a project name
/// carries a well-formed one.
pub open spec fn state_name_ok(s: StateView) -> bool {
    match s {
        StateView::CheckPackage { name, idx } => name_ok(name),
        StateView::InstallPackage { name, idx } => name_ok(name),
        StateView::Scaffold { name } => name_ok(name),
        StateView::ProvisionSrc { name } => name_ok(name),
        StateView::ProvisionResources { name } => name_ok(name),
        StateView::Done { name } => name_ok(name),
        _ => true,
    }
}

/// Law: every transition preserves the name invariant — once a name enters
/// the machine it is the normalised, non-empty form, so the scaffold and the
/// folder paths are only ever built from a safe identifier.
pub proof fn lemma_transition_preserves_name_invariant(s: StateView, e: EventView)
    requires
        state_name_ok(s),
    ensures
        state_name_ok(spec_apply_event(s, e)),
{
    if s is AwaitName && e is NameEntered {
        let raw = e->NameEntered_raw;
        crate::name::lemma_normalized_chars_allowed(raw);
    }
}

/// Law: the name invariant holds along any whole run that starts from a
/// state that satisfies it — in particular from `Start`.
pub proof fn lemma_run_preserves_name_invariant(s: StateView, events: Seq<EventView>)
    requires
        state_name_ok(s),
    ensures
        state_name_ok(spec_run_flow(s, events)),
    decreases events.len(),
{
    if events.len() > 0 {
        lemma_transition_preserves_name_invariant(s, events[0]);
        lemma_run_preserves_name_invariant(spec_apply_event(s, events[0]), events.drop_first());
    }
}

/// Law: folder provisioning asks for `<root>/src` first and `<root>/resources`
/// only after the first creation succeeded; the successful path passes
/// through exactly those two creations and ends in `Done`. If creating
/// `<root>/src` fails, the run fails with `FolderCreationFailed` for that
/// path and `<root>/resources` is never attempted.
pub proof fn lemma_folder_provisioning_order(name: Seq<char>, cause: Seq<char>, is_unix: bool)
    ensures
        spec_next_action(is_unix, (StateView::ProvisionSrc { name })) == Option::Some(act_create_folder(name + "/src"@)),
        spec_apply_event((StateView::ProvisionSrc { name }), ev_folder_created(true, cause)) == (StateView::ProvisionResources { name }),
        spec_next_action(is_unix, (StateView::ProvisionResources { name })) == Option::Some(act_create_folder(name + "/resources"@)),
        spec_apply_event((StateView::ProvisionResources { name }), ev_folder_created(true, cause)) == (StateView::Done { name }),
        spec_apply_event((StateView::ProvisionSrc { name }), ev_folder_created(false, cause)) == failed_state(err_folder_failed(name + "/src"@, cause)),
        forall|u: bool| (spec_next_action(u, failed_state(err_folder_failed(name + "/src"@, cause))) is None),
{
}

} // verus!
