//! The per-repository release state machine.
//!
//! One repository's release is a strict six-step sequence: detect the version
//! file, open a change request, update the file, merge the request, create
//! the release, create the version branch. The machine is pure: [`step`]
//! takes the current state and the event that answered the previous remote
//! operation, and returns the next state together with the next remote
//! operation to perform, if any. An unverified shell performs the operations;
//! any operation's failure moves the machine to its failed terminal state.

use vstd::prelude::*;

use crate::config::JSONPattern;
use crate::config::JSONPatternView;
use crate::config::JSONRepo;
use crate::config::JSONRepoView;
use crate::strategy::RootFile;
use crate::strategy::RootFileView;
use crate::strategy::VersionFile;
use crate::strategy::VersionFileView;
use crate::strategy::detect_version_file;
use crate::strategy::spec_detect;

verus! {

/// The handle a freshly opened change request comes back with: its number
/// and the commit at its head.
pub struct ChangeRequestHandle {
    pub id: u64,
    pub head_commit_sha: String,
}

/// A view of a [`ChangeRequestHandle`].
pub struct ChangeRequestHandleView {
    pub id: u64,
    pub head_commit_sha: Seq<char>,
}

impl View for ChangeRequestHandle {
    type V = ChangeRequestHandleView;

    open spec fn view(&self) -> ChangeRequestHandleView {
        ChangeRequestHandleView { id: self.id, head_commit_sha: self.head_commit_sha@ }
    }
}

impl DeepView for ChangeRequestHandle {
    type V = ChangeRequestHandleView;

    open spec fn deep_view(&self) -> ChangeRequestHandleView {
        self.view()
    }
}

/// Why one repository's workflow failed: no recognised version file at the
/// repository root, or a remote operation that reported failure.
pub enum WorkflowError {
    NoVersionFileFound,
    RemoteApiError { detail: String },
}

/// A view of a [`WorkflowError`].
pub enum WorkflowErrorView {
    NoVersionFileFound,
    RemoteApiError { detail: Seq<char> },
}

impl View for WorkflowError {
    type V = WorkflowErrorView;

    open spec fn view(&self) -> WorkflowErrorView {
        match self {
            WorkflowError::NoVersionFileFound => WorkflowErrorView::NoVersionFileFound,
            WorkflowError::RemoteApiError { detail } => WorkflowErrorView::RemoteApiError {
                detail: detail@,
            },
        }
    }
}

impl DeepView for WorkflowError {
    type V = WorkflowErrorView;

    open spec fn deep_view(&self) -> WorkflowErrorView {
        self.view()
    }
}

/// The states of one repository's release workflow, in the order they are
/// reached; `BranchCreated` is the successful terminal state and `Failed`
/// the failing one, reachable from every non-terminal state.
pub enum WorkflowState {
    Start,
    FileDetected { file: VersionFile },
    RequestOpened { file: VersionFile, request: ChangeRequestHandle },
    FileUpdated { request: ChangeRequestHandle },
    Merged { request: ChangeRequestHandle, merge_sha: String },
    Released { request: ChangeRequestHandle },
    BranchCreated,
    Failed { error: WorkflowError },
}

/// A view of a [`WorkflowState`].
pub enum WorkflowStateView {
    Start,
    FileDetected { file: VersionFileView },
    RequestOpened { file: VersionFileView, request: ChangeRequestHandleView },
    FileUpdated { request: ChangeRequestHandleView },
    Merged { request: ChangeRequestHandleView, merge_sha: Seq<char> },
    Released { request: ChangeRequestHandleView },
    BranchCreated,
    Failed { error: WorkflowErrorView },
}

impl View for WorkflowState {
    type V = WorkflowStateView;

    open spec fn view(&self) -> WorkflowStateView {
        match self {
            WorkflowState::Start => WorkflowStateView::Start,
            WorkflowState::FileDetected { file } => WorkflowStateView::FileDetected {
                file: file@,
            },
            WorkflowState::RequestOpened { file, request } => WorkflowStateView::RequestOpened {
                file: file@,
                request: request@,
            },
            WorkflowState::FileUpdated { request } => WorkflowStateView::FileUpdated {
                request: request@,
            },
            WorkflowState::Merged { request, merge_sha } => WorkflowStateView::Merged {
                request: request@,
                merge_sha: merge_sha@,
            },
            WorkflowState::Released { request } => WorkflowStateView::Released {
                request: request@,
            },
            WorkflowState::BranchCreated => WorkflowStateView::BranchCreated,
            WorkflowState::Failed { error } => WorkflowStateView::Failed { error: error@ },
        }
    }
}

impl DeepView for WorkflowState {
    type V = WorkflowStateView;

    open spec fn deep_view(&self) -> WorkflowStateView {
        self.view()
    }
}

/// A remote operation the shell must perform next against the hosting
/// service, with everything the call needs.
pub enum ClientAction {
    ListRootFiles,
    OpenChangeRequest { title: String, body: String, origin: String, target: String },
    UpdateFile { path: String, content: String, content_id: String, branch: String },
    MergeChangeRequest { id: u64 },
    CreateRelease { version: String, commit_sha: String },
    CreateBranch { name: String, from_commit_sha: String },
}

/// A view of a [`ClientAction`].
pub enum ClientActionView {
    ListRootFiles,
    OpenChangeRequest { title: Seq<char>, body: Seq<char>, origin: Seq<char>, target: Seq<char> },
    UpdateFile { path: Seq<char>, content: Seq<char>, content_id: Seq<char>, branch: Seq<char> },
    MergeChangeRequest { id: u64 },
    CreateRelease { version: Seq<char>, commit_sha: Seq<char> },
    CreateBranch { name: Seq<char>, from_commit_sha: Seq<char> },
}

impl View for ClientAction {
    type V = ClientActionView;

    open spec fn view(&self) -> ClientActionView {
        match self {
            ClientAction::ListRootFiles => ClientActionView::ListRootFiles,
            ClientAction::OpenChangeRequest { title, body, origin, target } => {
                ClientActionView::OpenChangeRequest {
                    title: title@,
                    body: body@,
                    origin: origin@,
                    target: target@,
                }
            },
            ClientAction::UpdateFile { path, content, content_id, branch } => {
                ClientActionView::UpdateFile {
                    path: path@,
                    content: content@,
                    content_id: content_id@,
                    branch: branch@,
                }
            },
            ClientAction::MergeChangeRequest { id } => ClientActionView::MergeChangeRequest {
                id: *id,
            },
            ClientAction::CreateRelease { version, commit_sha } => {
                ClientActionView::CreateRelease { version: version@, commit_sha: commit_sha@ }
            },
            ClientAction::CreateBranch { name, from_commit_sha } => {
                ClientActionView::CreateBranch {
                    name: name@,
                    from_commit_sha: from_commit_sha@,
                }
            },
        }
    }
}

impl DeepView for ClientAction {
    type V = ClientActionView;

    open spec fn deep_view(&self) -> ClientActionView {
        self.view()
    }
}

/// What a remote operation came back with: the answer to the matching
/// [`ClientAction`], or `OperationFailed` carrying the failure's detail.
pub enum ClientEvent {
    RootFilesListed { files: Vec<RootFile> },
    RequestOpened { request: ChangeRequestHandle },
    FileUpdated,
    MergeCompleted { merge_sha: String },
    ReleaseCreated,
    BranchCreated,
    OperationFailed { detail: String },
}

/// A view of a [`ClientEvent`].
pub enum ClientEventView {
    RootFilesListed { files: Seq<RootFileView> },
    RequestOpened { request: ChangeRequestHandleView },
    FileUpdated,
    MergeCompleted { merge_sha: Seq<char> },
    ReleaseCreated,
    BranchCreated,
    OperationFailed { detail: Seq<char> },
}

impl View for ClientEvent {
    type V = ClientEventView;

    open spec fn view(&self) -> ClientEventView {
        match self {
            ClientEvent::RootFilesListed { files } => ClientEventView::RootFilesListed {
                files: files.deep_view(),
            },
            ClientEvent::RequestOpened { request } => ClientEventView::RequestOpened {
                request: request@,
            },
            ClientEvent::FileUpdated => ClientEventView::FileUpdated,
            ClientEvent::MergeCompleted { merge_sha } => ClientEventView::MergeCompleted {
                merge_sha: merge_sha@,
            },
            ClientEvent::ReleaseCreated => ClientEventView::ReleaseCreated,
            ClientEvent::BranchCreated => ClientEventView::BranchCreated,
            ClientEvent::OperationFailed { detail } => ClientEventView::OperationFailed {
                detail: detail@,
            },
        }
    }
}

impl DeepView for ClientEvent {
    type V = ClientEventView;

    open spec fn deep_view(&self) -> ClientEventView {
        self.view()
    }
}

/// A state from which the workflow takes no further step: full success or
/// failure.
pub open spec fn is_terminal(state: WorkflowStateView) -> bool {
    state is BranchCreated || state is Failed
}

/// The transition relation of the release workflow, as a function: from the
/// current state and the event that answered the previous operation, the
/// next state and the next operation to perform.
///
/// A failure event moves any non-terminal state to `Failed` with the remote
/// error's detail. From `Start`, the listed root files are run through
/// detection: no recognised manifest fails the workflow with
/// `NoVersionFileFound`, a detected one moves to `FileDetected` and asks for
/// a change request from the repository's origin branch into its target
/// branch, titled after the shared intent. The remaining steps thread the
/// detected file and the request handle through: the file update goes to the
/// origin branch with the rewritten content and the file's identity token,
/// the merge names the request, the release tags `version` at the merge
/// commit, and the version branch is named after `version` and rooted at the
/// request's head commit. A terminal state, or an event that does not answer
/// the state's pending operation, changes nothing and asks for nothing.
pub open spec fn spec_step(
    state: WorkflowStateView,
    event: ClientEventView,
    repo: JSONRepoView,
    intent: JSONPatternView,
    version: Seq<char>,
) -> (WorkflowStateView, Option<ClientActionView>) {
    if is_terminal(state) {
        (state, None)
    } else {
        match event {
            ClientEventView::OperationFailed { detail } => (
                WorkflowStateView::Failed {
                    error: WorkflowErrorView::RemoteApiError { detail },
                },
                None,
            ),
            _ => match (state, event) {
                (
                    WorkflowStateView::Start,
                    ClientEventView::RootFilesListed { files },
                ) => match spec_detect(files, version) {
                    Some(file) => (
                        WorkflowStateView::FileDetected { file },
                        Some(
                            ClientActionView::OpenChangeRequest {
                                title: intent.title,
                                body: intent.body,
                                origin: repo.origin,
                                target: repo.target,
                            },
                        ),
                    ),
                    None => (
                        WorkflowStateView::Failed {
                            error: WorkflowErrorView::NoVersionFileFound,
                        },
                        None,
                    ),
                },
                (
                    WorkflowStateView::FileDetected { file },
                    ClientEventView::RequestOpened { request },
                ) => (
                    WorkflowStateView::RequestOpened { file, request },
                    Some(
                        ClientActionView::UpdateFile {
                            path: file.path,
                            content: file.rewritten,
                            content_id: file.content_id,
                            branch: repo.origin,
                        },
                    ),
                ),
                (
                    WorkflowStateView::RequestOpened { file, request },
                    ClientEventView::FileUpdated,
                ) => (
                    WorkflowStateView::FileUpdated { request },
                    Some(ClientActionView::MergeChangeRequest { id: request.id }),
                ),
                (
                    WorkflowStateView::FileUpdated { request },
                    ClientEventView::MergeCompleted { merge_sha },
                ) => (
                    WorkflowStateView::Merged { request, merge_sha },
                    Some(ClientActionView::CreateRelease { version, commit_sha: merge_sha }),
                ),
                (
                    WorkflowStateView::Merged { request, merge_sha },
                    ClientEventView::ReleaseCreated,
                ) => (
                    WorkflowStateView::Released { request },
                    Some(
                        ClientActionView::CreateBranch {
                            name: version,
                            from_commit_sha: request.head_commit_sha,
                        },
                    ),
                ),
                (
                    WorkflowStateView::Released { request },
                    ClientEventView::BranchCreated,
                ) => (WorkflowStateView::BranchCreated, None),
                (s, _) => (s, None),
            },
        }
    }
}

/// Whether the workflow has reached a terminal state.
pub fn workflow_done(state: &WorkflowState) -> (r: bool)
    ensures
        r == is_terminal(state@),
{
    match state {
        WorkflowState::BranchCreated => true,
        WorkflowState::Failed { .. } => true,
        _ => false,
    }
}

/// The operation every workflow starts with: listing the repository's root
/// files.
pub fn initial_action() -> (r: ClientAction)
    ensures
        r@ == ClientActionView::ListRootFiles,
{
    ClientAction::ListRootFiles
}

/// One step of the release workflow, exactly as [`spec_step`] states it.
pub fn step(
    state: WorkflowState,
    event: ClientEvent,
    repo: &JSONRepo,
    intent: &JSONPattern,
    version: &String,
) -> (r: (WorkflowState, Option<ClientAction>))
    ensures
        r.0@ == spec_step(state@, event@, repo@, intent@, version@).0,
        r.1.deep_view() == spec_step(state@, event@, repo@, intent@, version@).1,
{
    if workflow_done(&state) {
        return (state, None);
    }
    if let ClientEvent::OperationFailed { detail } = event {
        return (
            WorkflowState::Failed { error: WorkflowError::RemoteApiError { detail } },
            None,
        );
    }
    match (state, event) {
        (WorkflowState::Start, ClientEvent::RootFilesListed { files }) => {
            match detect_version_file(&files, version.as_str()) {
                Some(file) => {
                    let action = ClientAction::OpenChangeRequest {
                        title: intent.title.clone(),
                        body: intent.body.clone(),
                        origin: repo.origin.clone(),
                        target: repo.target.clone(),
                    };
                    (WorkflowState::FileDetected { file }, Some(action))
                },
                None => (
                    WorkflowState::Failed { error: WorkflowError::NoVersionFileFound },
                    None,
                ),
            }
        },
        (WorkflowState::FileDetected { file }, ClientEvent::RequestOpened { request }) => {
            let action = ClientAction::UpdateFile {
                path: file.path.clone(),
                content: file.rewritten.clone(),
                content_id: file.content_id.clone(),
                branch: repo.origin.clone(),
            };
            (WorkflowState::RequestOpened { file, request }, Some(action))
        },
        (WorkflowState::RequestOpened { file: _, request }, ClientEvent::FileUpdated) => {
            let action = ClientAction::MergeChangeRequest { id: request.id };
            (WorkflowState::FileUpdated { request }, Some(action))
        },
        (WorkflowState::FileUpdated { request }, ClientEvent::MergeCompleted { merge_sha }) => {
            let action = ClientAction::CreateRelease {
                version: version.clone(),
                commit_sha: merge_sha.clone(),
            };
            (WorkflowState::Merged { request, merge_sha }, Some(action))
        },
        (WorkflowState::Merged { request, merge_sha: _ }, ClientEvent::ReleaseCreated) => {
            let action = ClientAction::CreateBranch {
                name: version.clone(),
                from_commit_sha: request.head_commit_sha.clone(),
            };
            (WorkflowState::Released { request }, Some(action))
        },
        (WorkflowState::Released { request: _ }, ClientEvent::BranchCreated) => {
            (WorkflowState::BranchCreated, None)
        },
        (s, _) => (s, None),
    }
}

/// The state reached by starting at `state` and taking one step per event,
/// in order.
pub open spec fn spec_drive(
    state: WorkflowStateView,
    events: Seq<ClientEventView>,
    repo: JSONRepoView,
    intent: JSONPatternView,
    version: Seq<char>,
) -> WorkflowStateView
    decreases events.len(),
{
    if events.len() == 0 {
        state
    } else {
        spec_drive(
            spec_step(state, events[0], repo, intent, version).0,
            events.drop_first(),
            repo,
            intent,
            version,
        )
    }
}

/// A workflow whose every remote operation is answered runs through all six
/// steps: when detection succeeds on the listed root files and the six
/// answering events arrive in order, the machine ends in the successful
/// terminal state.
pub proof fn lemma_happy_path(
    repo: JSONRepoView,
    intent: JSONPatternView,
    version: Seq<char>,
    files: Seq<RootFileView>,
    request: ChangeRequestHandleView,
    merge_sha: Seq<char>,
)
    requires
        spec_detect(files, version) is Some,
    ensures
        spec_drive(
            WorkflowStateView::Start,
            seq![
                ClientEventView::RootFilesListed { files },
                ClientEventView::RequestOpened { request },
                ClientEventView::FileUpdated,
                ClientEventView::MergeCompleted { merge_sha },
                ClientEventView::ReleaseCreated,
                ClientEventView::BranchCreated,
            ],
            repo,
            intent,
            version,
        ) is BranchCreated,
{
    let events = seq![
        ClientEventView::RootFilesListed { files },
        ClientEventView::RequestOpened { request },
        ClientEventView::FileUpdated,
        ClientEventView::MergeCompleted { merge_sha },
        ClientEventView::ReleaseCreated,
        ClientEventView::BranchCreated,
    ];
    let s0 = WorkflowStateView::Start;
    let s1 = spec_step(s0, events[0], repo, intent, version).0;
    let s2 = spec_step(s1, events[1], repo, intent, version).0;
    let s3 = spec_step(s2, events[2], repo, intent, version).0;
    let s4 = spec_step(s3, events[3], repo, intent, version).0;
    let s5 = spec_step(s4, events[4], repo, intent, version).0;
    let s6 = spec_step(s5, events[5], repo, intent, version).0;
    assert(s1 is FileDetected);
    assert(s2 is RequestOpened);
    assert(s3 is FileUpdated);
    assert(s4 is Merged);
    assert(s5 is Released);
    assert(s6 is BranchCreated);
    let e1 = events.drop_first();
    let e2 = e1.drop_first();
    let e3 = e2.drop_first();
    let e4 = e3.drop_first();
    let e5 = e4.drop_first();
    let e6 = e5.drop_first();
    assert(e6.len() == 0);
    assert(spec_drive(s0, events, repo, intent, version) == spec_drive(s1, e1, repo, intent, version));
    assert(spec_drive(s1, e1, repo, intent, version) == spec_drive(s2, e2, repo, intent, version));
    assert(spec_drive(s2, e2, repo, intent, version) == spec_drive(s3, e3, repo, intent, version));
    assert(spec_drive(s3, e3, repo, intent, version) == spec_drive(s4, e4, repo, intent, version));
    assert(spec_drive(s4, e4, repo, intent, version) == spec_drive(s5, e5, repo, intent, version));
    assert(spec_drive(s5, e5, repo, intent, version) == spec_drive(s6, e6, repo, intent, version));
}

/// Replays a whole workflow from `Start` over a recorded event sequence and
/// returns the state it ends in.
pub fn drive_workflow(
    repo: &JSONRepo,
    intent: &JSONPattern,
    version: &String,
    events: Vec<ClientEvent>,
) -> (r: WorkflowState)
    ensures
        r@ == spec_drive(WorkflowStateView::Start, events.deep_view(), repo@, intent@, version@),
{
    let ghost all = events.deep_view();
    let mut remaining = events;
    let mut state = WorkflowState::Start;
    while remaining.len() > 0
        invariant
            spec_drive(state@, remaining.deep_view(), repo@, intent@, version@) == spec_drive(
                WorkflowStateView::Start,
                all,
                repo@,
                intent@,
                version@,
            ),
        decreases remaining.len(),
    {
        let ghost before = remaining.deep_view();
        let e = remaining.remove(0);
        assert(remaining.deep_view() =~= before.drop_first());
        assert(e.deep_view() == before[0]);
        let next = step(state, e, repo, intent, version);
        state = next.0;
    }
    state
}

} // verus!
