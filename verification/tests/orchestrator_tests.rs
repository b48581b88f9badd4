use release_flow::ChangeRequestHandle;
use release_flow::ClientEvent;
use release_flow::JSONPattern;
use release_flow::JSONRepo;
use release_flow::RootFile;
use release_flow::run_all;
use release_flow::run_workflow;
use release_flow::summarize;

fn repo(n: usize) -> JSONRepo {
    JSONRepo {
        owner: "acme".to_string(),
        repo: format!("svc-{}", n),
        origin: "develop".to_string(),
        target: "main".to_string(),
    }
}

fn intent() -> JSONPattern {
    JSONPattern { title: "Release".to_string(), body: "Bumping version".to_string() }
}

fn happy_script(n: usize) -> Vec<ClientEvent> {
    vec![
        ClientEvent::RootFilesListed {
            files: vec![RootFile {
                name: "package.json".to_string(),
                content: "{\"version\": \"1.0.0\"}\n".to_string(),
                content_id: format!("sha-{}", n),
            }],
        },
        ClientEvent::RequestOpened {
            request: ChangeRequestHandle { id: n as u64, head_commit_sha: format!("head-{}", n) },
        },
        ClientEvent::FileUpdated,
        ClientEvent::MergeCompleted { merge_sha: format!("merge-{}", n) },
        ClientEvent::ReleaseCreated,
        ClientEvent::BranchCreated,
    ]
}

fn failing_script() -> Vec<ClientEvent> {
    vec![
        ClientEvent::RootFilesListed {
            files: vec![RootFile {
                name: "package.json".to_string(),
                content: "{\"version\": \"1.0.0\"}\n".to_string(),
                content_id: "sha-k".to_string(),
            }],
        },
        ClientEvent::OperationFailed { detail: "transport error".to_string() },
    ]
}

#[test]
fn one_failing_repository_leaves_the_others_untouched() {
    let n = 5;
    let k = 2;
    let repos: Vec<JSONRepo> = (0..n).map(repo).collect();
    let scripts: Vec<Vec<ClientEvent>> =
        (0..n).map(|i| if i == k { failing_script() } else { happy_script(i) }).collect();
    let outcomes = run_all(&repos, &intent(), &"2.0.0".to_string(), scripts);
    assert_eq!(outcomes.len(), n);
    for (i, outcome) in outcomes.iter().enumerate() {
        assert_eq!(outcome.success, i != k);
        assert_eq!(outcome.repository.repo, format!("svc-{}", i));
    }
    let summary = summarize(&outcomes);
    assert_eq!(summary.total, n);
    assert_eq!(summary.successes, n - 1);
    assert_eq!(summary.failures, 1);
}

#[test]
fn ten_repositories_give_ten_outcomes() {
    let n = 10;
    let repos: Vec<JSONRepo> = (0..n).map(repo).collect();
    let scripts: Vec<Vec<ClientEvent>> = (0..n).map(happy_script).collect();
    let outcomes = run_all(&repos, &intent(), &"3.1.4".to_string(), scripts);
    assert_eq!(outcomes.len(), 10);
    let summary = summarize(&outcomes);
    assert_eq!(summary.total, 10);
    assert_eq!(summary.successes, 10);
    assert_eq!(summary.failures, 0);
}

#[test]
fn no_repositories_give_no_outcomes() {
    let repos: Vec<JSONRepo> = Vec::new();
    let outcomes = run_all(&repos, &intent(), &"1.0.0".to_string(), Vec::new());
    assert!(outcomes.is_empty());
    let summary = summarize(&outcomes);
    assert_eq!(summary.total, 0);
    assert_eq!(summary.successes, 0);
    assert_eq!(summary.failures, 0);
}

#[test]
fn every_failure_reason_is_reported_per_repository() {
    let repos: Vec<JSONRepo> = (0..2).map(repo).collect();
    let scripts = vec![
        vec![ClientEvent::RootFilesListed {
            files: vec![RootFile {
                name: "README.md".to_string(),
                content: "docs\n".to_string(),
                content_id: "sha-r".to_string(),
            }],
        }],
        failing_script(),
    ];
    let outcomes = run_all(&repos, &intent(), &"2.0.0".to_string(), scripts);
    assert_eq!(outcomes.len(), 2);
    assert!(!outcomes[0].success);
    assert!(!outcomes[1].success);
    assert!(matches!(
        outcomes[0].error_detail,
        Some(release_flow::WorkflowError::NoVersionFileFound)
    ));
    match &outcomes[1].error_detail {
        Some(release_flow::WorkflowError::RemoteApiError { detail }) => {
            assert_eq!(detail, "transport error")
        },
        _ => panic!("the remote failure must be reported"),
    }
    let summary = summarize(&outcomes);
    assert_eq!(summary.failures, 2);
}

#[test]
fn run_workflow_reports_the_repository_it_ran_for() {
    let outcome = run_workflow(&repo(7), &intent(), &"2.0.0".to_string(), happy_script(7));
    assert!(outcome.success);
    assert_eq!(outcome.repository.repo, "svc-7");
    assert!(outcome.error_detail.is_none());
}
