use release_flow::ChangeRequestHandle;
use release_flow::ClientAction;
use release_flow::ClientEvent;
use release_flow::JSONPattern;
use release_flow::JSONRepo;
use release_flow::RootFile;
use release_flow::WorkflowError;
use release_flow::WorkflowState;
use release_flow::drive_workflow;
use release_flow::finish_workflow;
use release_flow::initial_action;
use release_flow::step;
use release_flow::workflow_done;

fn acme_repo() -> JSONRepo {
    JSONRepo {
        owner: "acme".to_string(),
        repo: "svc".to_string(),
        origin: "release/v2".to_string(),
        target: "main".to_string(),
    }
}

fn intent() -> JSONPattern {
    JSONPattern { title: "Release".to_string(), body: "Bumping version".to_string() }
}

fn node_root_files() -> Vec<RootFile> {
    vec![RootFile {
        name: "package.json".to_string(),
        content: "{\"version\": \"1.0.0\"}\n".to_string(),
        content_id: "sha-0".to_string(),
    }]
}

fn handle() -> ChangeRequestHandle {
    ChangeRequestHandle { id: 17, head_commit_sha: "head-sha".to_string() }
}

#[test]
fn end_to_end_scenario_runs_all_six_steps() {
    let repo = acme_repo();
    let intent = intent();
    let version = "2.0.0".to_string();

    assert!(matches!(initial_action(), ClientAction::ListRootFiles));

    let state = WorkflowState::Start;
    let (state, action) = step(
        state,
        ClientEvent::RootFilesListed { files: node_root_files() },
        &repo,
        &intent,
        &version,
    );
    assert!(matches!(state, WorkflowState::FileDetected { .. }));
    match action.expect("a change request must be asked for") {
        ClientAction::OpenChangeRequest { title, body, origin, target } => {
            assert_eq!(title, "Release");
            assert_eq!(body, "Bumping version");
            assert_eq!(origin, "release/v2");
            assert_eq!(target, "main");
        },
        _ => panic!("expected the change request to be opened next"),
    }

    let (state, action) = step(
        state,
        ClientEvent::RequestOpened { request: handle() },
        &repo,
        &intent,
        &version,
    );
    assert!(matches!(state, WorkflowState::RequestOpened { .. }));
    match action.expect("the file update must be asked for") {
        ClientAction::UpdateFile { path, content, content_id, branch } => {
            assert_eq!(path, "package.json");
            assert_eq!(content, "{\"version\": \"2.0.0\"}\n");
            assert_eq!(content_id, "sha-0");
            assert_eq!(branch, "release/v2");
        },
        _ => panic!("expected the file update next"),
    }

    let (state, action) = step(state, ClientEvent::FileUpdated, &repo, &intent, &version);
    assert!(matches!(state, WorkflowState::FileUpdated { .. }));
    match action.expect("the merge must be asked for") {
        ClientAction::MergeChangeRequest { id } => assert_eq!(id, 17),
        _ => panic!("expected the merge next"),
    }

    let (state, action) = step(
        state,
        ClientEvent::MergeCompleted { merge_sha: "merge-sha".to_string() },
        &repo,
        &intent,
        &version,
    );
    assert!(matches!(state, WorkflowState::Merged { .. }));
    match action.expect("the release must be asked for") {
        ClientAction::CreateRelease { version: v, commit_sha } => {
            assert_eq!(v, "2.0.0");
            assert_eq!(commit_sha, "merge-sha");
        },
        _ => panic!("expected the release next"),
    }

    let (state, action) = step(state, ClientEvent::ReleaseCreated, &repo, &intent, &version);
    assert!(matches!(state, WorkflowState::Released { .. }));
    match action.expect("the version branch must be asked for") {
        ClientAction::CreateBranch { name, from_commit_sha } => {
            assert_eq!(name, "2.0.0");
            assert_eq!(from_commit_sha, "head-sha");
        },
        _ => panic!("expected the version branch next"),
    }

    let (state, action) = step(state, ClientEvent::BranchCreated, &repo, &intent, &version);
    assert!(matches!(state, WorkflowState::BranchCreated));
    assert!(action.is_none());
    assert!(workflow_done(&state));

    let outcome = finish_workflow(&repo, state);
    assert!(outcome.success);
    assert!(outcome.error_detail.is_none());
    assert_eq!(outcome.repository.owner, "acme");
    assert_eq!(outcome.repository.repo, "svc");
}

#[test]
fn missing_version_file_fails_the_workflow() {
    let repo = acme_repo();
    let intent = intent();
    let version = "2.0.0".to_string();
    let files = vec![RootFile {
        name: "README.md".to_string(),
        content: "docs\n".to_string(),
        content_id: "sha-r".to_string(),
    }];
    let (state, action) =
        step(WorkflowState::Start, ClientEvent::RootFilesListed { files }, &repo, &intent, &version);
    assert!(action.is_none());
    match &state {
        WorkflowState::Failed { error } => {
            assert!(matches!(error, WorkflowError::NoVersionFileFound))
        },
        _ => panic!("detection failure must fail the workflow"),
    }
    let outcome = finish_workflow(&repo, state);
    assert!(!outcome.success);
    assert!(matches!(outcome.error_detail, Some(WorkflowError::NoVersionFileFound)));
}

#[test]
fn remote_failure_fails_the_workflow_at_that_step() {
    let repo = acme_repo();
    let intent = intent();
    let version = "2.0.0".to_string();
    let events = vec![
        ClientEvent::RootFilesListed { files: node_root_files() },
        ClientEvent::RequestOpened { request: handle() },
        ClientEvent::FileUpdated,
        ClientEvent::OperationFailed { detail: "merge conflict".to_string() },
    ];
    let state = drive_workflow(&repo, &intent, &version, events);
    match &state {
        WorkflowState::Failed { error } => match error {
            WorkflowError::RemoteApiError { detail } => assert_eq!(detail, "merge conflict"),
            _ => panic!("a remote failure must carry its detail"),
        },
        _ => panic!("a remote failure must fail the workflow"),
    }
    let outcome = finish_workflow(&repo, state);
    assert!(!outcome.success);
}

#[test]
fn terminal_states_absorb_further_events() {
    let repo = acme_repo();
    let intent = intent();
    let version = "2.0.0".to_string();
    let (state, action) =
        step(WorkflowState::BranchCreated, ClientEvent::ReleaseCreated, &repo, &intent, &version);
    assert!(matches!(state, WorkflowState::BranchCreated));
    assert!(action.is_none());

    let failed = WorkflowState::Failed {
        error: WorkflowError::RemoteApiError { detail: "down".to_string() },
    };
    let (state, action) = step(failed, ClientEvent::FileUpdated, &repo, &intent, &version);
    assert!(matches!(state, WorkflowState::Failed { .. }));
    assert!(action.is_none());
}

#[test]
fn mismatched_event_changes_nothing() {
    let repo = acme_repo();
    let intent = intent();
    let version = "2.0.0".to_string();
    let (state, action) =
        step(WorkflowState::Start, ClientEvent::ReleaseCreated, &repo, &intent, &version);
    assert!(matches!(state, WorkflowState::Start));
    assert!(action.is_none());
}

#[test]
fn drive_workflow_full_scenario_succeeds() {
    let repo = acme_repo();
    let intent = intent();
    let version = "2.0.0".to_string();
    let events = vec![
        ClientEvent::RootFilesListed { files: node_root_files() },
        ClientEvent::RequestOpened { request: handle() },
        ClientEvent::FileUpdated,
        ClientEvent::MergeCompleted { merge_sha: "merge-sha".to_string() },
        ClientEvent::ReleaseCreated,
        ClientEvent::BranchCreated,
    ];
    let state = drive_workflow(&repo, &intent, &version, events);
    assert!(matches!(state, WorkflowState::BranchCreated));
}
