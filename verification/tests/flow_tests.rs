use project_bootstrap::flow::apply_event;
use project_bootstrap::flow::create_additional_folders;
use project_bootstrap::flow::interpreter_command;
use project_bootstrap::flow::next_action;
use project_bootstrap::flow::package_name;
use project_bootstrap::flow::run_flow;
use project_bootstrap::flow::scaffold_template;
use project_bootstrap::flow::FlowAction;
use project_bootstrap::flow::FlowError;
use project_bootstrap::flow::FlowEvent;
use project_bootstrap::flow::FlowState;
use project_bootstrap::flow::PACKAGE_COUNT;

/// The events of a run in which everything succeeds and every package is
/// already present.
fn happy_events(raw_name: &str) -> Vec<FlowEvent> {
    let mut events = vec![
        FlowEvent::VersionChecked { started: true, success: true },
        FlowEvent::PrefixQueried { started: true },
        FlowEvent::NameEntered { raw: raw_name.to_string() },
    ];
    for _ in 0..PACKAGE_COUNT {
        events.push(FlowEvent::PackageQueried { started: true, output_empty: false });
    }
    events.push(FlowEvent::ScaffoldExited { success: true, stderr: String::new() });
    events.push(FlowEvent::FolderCreated { success: true, cause: String::new() });
    events.push(FlowEvent::FolderCreated { success: true, cause: String::new() });
    events
}

#[test]
fn test_all_flow() {
    let events = happy_events("test-project");
    let end = run_flow(&events);
    assert_eq!(end, FlowState::Done { name: "test-project".to_string() });
}

#[test]
fn test_end_to_end_scenario() {
    // Input name "Test Project", all packages already present, the
    // scaffolding tool and both folder creations succeed: the run asks for
    // exactly the expected actions, in order, and ends in success.
    let events = happy_events("Test Project");
    let mut state = FlowState::Start;
    let mut actions = Vec::new();
    for event in &events {
        actions.push(next_action(true, &state).expect("a pending step must ask for an action"));
        state = apply_event(state, event);
    }
    assert_eq!(state, FlowState::Done { name: "test-project".to_string() });
    assert!(next_action(true, &state).is_none());

    let mut expected = vec![
        FlowAction::CheckInterpreterVersion { cmd: "python3".to_string() },
        FlowAction::QueryInterpreterPrefix { cmd: "python3".to_string() },
        FlowAction::PromptForName,
    ];
    for i in 0..PACKAGE_COUNT {
        expected.push(FlowAction::QueryPackage { package: package_name(i).to_string() });
    }
    expected.push(FlowAction::RunScaffold {
        template: "standalone-datacatalog".to_string(),
        name: "test-project".to_string(),
    });
    expected.push(FlowAction::CreateFolder { path: "test-project/src".to_string() });
    expected.push(FlowAction::CreateFolder { path: "test-project/resources".to_string() });
    assert_eq!(actions, expected);
}

#[test]
fn test_interpreter_version_failure_stops_everything() {
    // A failed version check aborts the run before any prompt, package
    // query, install or scaffold: the later events are absorbed.
    let events = vec![
        FlowEvent::VersionChecked { started: true, success: false },
        FlowEvent::PrefixQueried { started: true },
        FlowEvent::NameEntered { raw: "test-project".to_string() },
        FlowEvent::PackageQueried { started: true, output_empty: true },
    ];
    let end = run_flow(&events);
    assert_eq!(end, FlowState::Failed { error: FlowError::InterpreterNotFound });
    assert!(next_action(true, &end).is_none());
}

#[test]
fn test_interpreter_not_started() {
    let end = run_flow(&vec![FlowEvent::VersionChecked { started: false, success: false }]);
    assert_eq!(end, FlowState::Failed { error: FlowError::InterpreterNotFound });
}

#[test]
fn test_prefix_query_not_started_fails() {
    let events = vec![
        FlowEvent::VersionChecked { started: true, success: true },
        FlowEvent::PrefixQueried { started: false },
    ];
    let end = run_flow(&events);
    assert_eq!(end, FlowState::Failed { error: FlowError::InterpreterNotFound });
}

#[test]
fn test_empty_name_rejected() {
    let events = vec![
        FlowEvent::VersionChecked { started: true, success: true },
        FlowEvent::PrefixQueried { started: true },
        FlowEvent::NameEntered { raw: "  \t ".to_string() },
    ];
    let end = run_flow(&events);
    assert_eq!(end, FlowState::Failed { error: FlowError::EmptyProjectName });
}

#[test]
fn test_present_package_not_installed() {
    // A non-empty "show" output means the package is present: the machine
    // moves to the next package and never asks to install this one.
    let state = FlowState::CheckPackage { name: "proj".to_string(), idx: 0 };
    let next = apply_event(state, &FlowEvent::PackageQueried { started: true, output_empty: false });
    assert_eq!(next, FlowState::CheckPackage { name: "proj".to_string(), idx: 1 });
    assert_eq!(
        next_action(true, &next),
        Some(FlowAction::QueryPackage { package: "pandas".to_string() })
    );
}

#[test]
fn test_absent_package_is_installed() {
    let state = FlowState::CheckPackage { name: "proj".to_string(), idx: 0 };
    let next = apply_event(state, &FlowEvent::PackageQueried { started: true, output_empty: true });
    assert_eq!(next, FlowState::InstallPackage { name: "proj".to_string(), idx: 0 });
    assert_eq!(
        next_action(true, &next),
        Some(FlowAction::InstallPackage { package: "numpy".to_string() })
    );
}

#[test]
fn test_install_failure_aborts_remaining_packages() {
    // "show" found nothing and the install exited non-zero: the run fails
    // with the package's name and no further package is attempted.
    let state = FlowState::InstallPackage { name: "proj".to_string(), idx: 2 };
    let failed = apply_event(state, &FlowEvent::PackageInstalled { started: true, success: false });
    assert_eq!(
        failed,
        FlowState::Failed {
            error: FlowError::PackageInstallFailed { package: "matplotlib".to_string() }
        }
    );
    assert!(next_action(true, &failed).is_none());
    // Later events change nothing.
    let absorbed = apply_event(failed, &FlowEvent::PackageQueried { started: true, output_empty: true });
    assert_eq!(
        absorbed,
        FlowState::Failed {
            error: FlowError::PackageInstallFailed { package: "matplotlib".to_string() }
        }
    );
}

#[test]
fn test_package_query_failure() {
    let state = FlowState::CheckPackage { name: "proj".to_string(), idx: 4 };
    let failed = apply_event(state, &FlowEvent::PackageQueried { started: false, output_empty: true });
    assert_eq!(failed, FlowState::Failed { error: FlowError::PackageQueryFailed });
}

#[test]
fn test_last_package_present_moves_to_scaffold() {
    let state = FlowState::CheckPackage { name: "proj".to_string(), idx: PACKAGE_COUNT - 1 };
    let next = apply_event(state, &FlowEvent::PackageQueried { started: true, output_empty: false });
    assert_eq!(next, FlowState::Scaffold { name: "proj".to_string() });
    assert_eq!(
        next_action(true, &next),
        Some(FlowAction::RunScaffold {
            template: "standalone-datacatalog".to_string(),
            name: "proj".to_string(),
        })
    );
}

#[test]
fn test_scaffold_not_driven() {
    let state = FlowState::Scaffold { name: "proj".to_string() };
    let failed = apply_event(state, &FlowEvent::ScaffoldNotDriven { message: "spawn error".to_string() });
    assert_eq!(
        failed,
        FlowState::Failed {
            error: FlowError::ScaffoldSpawnFailed { message: "spawn error".to_string() }
        }
    );
}

#[test]
fn test_scaffold_no_stdin() {
    let state = FlowState::Scaffold { name: "proj".to_string() };
    let failed = apply_event(state, &FlowEvent::ScaffoldNoStdin { stderr: "no tty".to_string() });
    assert_eq!(
        failed,
        FlowState::Failed {
            error: FlowError::ScaffoldSpawnFailed { message: "no tty".to_string() }
        }
    );
}

#[test]
fn test_scaffold_nonzero_exit() {
    let state = FlowState::Scaffold { name: "proj".to_string() };
    let failed = apply_event(state, &FlowEvent::ScaffoldExited { success: false, stderr: "boom".to_string() });
    assert_eq!(
        failed,
        FlowState::Failed { error: FlowError::ScaffoldFailed { message: "boom".to_string() } }
    );
}

#[test]
fn test_folder_provisioning_order() {
    // `<root>/src` comes first; `<root>/resources` only after it succeeded.
    let state = FlowState::ProvisionSrc { name: "proj".to_string() };
    assert_eq!(
        next_action(true, &state),
        Some(FlowAction::CreateFolder { path: "proj/src".to_string() })
    );
    let next = apply_event(state, &FlowEvent::FolderCreated { success: true, cause: String::new() });
    assert_eq!(next, FlowState::ProvisionResources { name: "proj".to_string() });
    assert_eq!(
        next_action(true, &next),
        Some(FlowAction::CreateFolder { path: "proj/resources".to_string() })
    );
    let done = apply_event(next, &FlowEvent::FolderCreated { success: true, cause: String::new() });
    assert_eq!(done, FlowState::Done { name: "proj".to_string() });
}

#[test]
fn test_first_folder_failure_stops_provisioning() {
    let state = FlowState::ProvisionSrc { name: "proj".to_string() };
    let failed = apply_event(state, &FlowEvent::FolderCreated { success: false, cause: "denied".to_string() });
    assert_eq!(
        failed,
        FlowState::Failed {
            error: FlowError::FolderCreationFailed {
                path: "proj/src".to_string(),
                cause: "denied".to_string(),
            }
        }
    );
    assert!(next_action(true, &failed).is_none());
}

#[test]
fn test_stray_event_changes_nothing() {
    let state = FlowState::Start;
    let same = apply_event(state, &FlowEvent::FolderCreated { success: true, cause: String::new() });
    assert_eq!(same, FlowState::Start);
}

#[test]
fn test_package_list_order() {
    let expected = [
        "numpy",
        "pandas",
        "matplotlib",
        "seaborn",
        "plotly",
        "openpyxl",
        "ipykernel",
        "jupyter",
        "jupyterlab",
    ];
    assert_eq!(PACKAGE_COUNT, expected.len());
    for (i, package) in expected.iter().enumerate() {
        assert_eq!(package_name(i), *package);
    }
}

#[test]
fn test_interpreter_command_per_os_family() {
    assert_eq!(interpreter_command(true), "python3");
    assert_eq!(interpreter_command(false), "python");
}

#[test]
fn test_scaffold_template_identifier() {
    assert_eq!(scaffold_template(), "standalone-datacatalog");
}

#[test]
fn test_create_additional_folders_paths() {
    let paths = create_additional_folders("test-project");
    assert_eq!(paths, vec!["test-project/src".to_string(), "test-project/resources".to_string()]);
}
