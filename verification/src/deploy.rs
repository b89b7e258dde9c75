//! The deploy-flow state machine. One "deploy" invocation walks
//! `NotChecked` through clone-or-reconcile, branch selection, checkout,
//! manifest synthesis, build, and start; every arrow is a hard gate, so any
//! stage failure moves to a terminal `Failed` state and no later stage is
//! attempted. The caller performs each state's pending action (repository
//! call, operator prompt, file write, external command) and feeds the
//! outcome back as an event.

use vstd::prelude::*;

use crate::errors::DeployError;

verus! {

/// Where one deploy flow stands. Every non-terminal state has exactly one
/// pending action, given by `action_of`.
#[derive(Debug)]
pub enum DeployState {
    /// Nothing known yet: the repository existence check is pending.
    NotChecked,
    /// The repository is absent: the operator's consent to clone is pending.
    AwaitingCloneConsent,
    /// Consent was given: the clone is pending.
    Cloning,
    /// The repository is present: fetch and reconciliation are pending.
    Reconciling,
    /// The remote view is current: the operator's branch choice is pending.
    SelectingBranch,
    /// A branch was chosen: its checkout is pending.
    CheckingOut(String),
    /// The working tree matches the chosen branch: the manifest write is
    /// pending.
    Synthesizing,
    /// The manifest file exists: the build is pending.
    Building,
    /// The build succeeded: the detached start is pending.
    Starting,
    /// Terminal: the service was started.
    Started,
    /// Terminal: the flow stopped at a gate.
    Failed(DeployError),
}

/// The outcome of one pending action, fed back into the machine.
#[derive(Debug)]
pub enum DeployEvent {
    /// Whether a valid repository exists at the expected path.
    RepositoryChecked(bool),
    /// Whether the operator agreed to clone.
    CloneConsent(bool),
    /// Whether the clone succeeded.
    CloneDone(bool),
    /// Whether fetch and reconciliation succeeded.
    FetchDone(bool),
    /// The branch the operator chose, if any.
    BranchChosen(Option<String>),
    /// Whether the checkout succeeded.
    CheckoutDone(bool),
    /// Whether the manifest file was written.
    ManifestWritten(bool),
    /// Whether the build command succeeded.
    BuildDone(bool),
    /// Whether the start command succeeded.
    StartDone(bool),
}

/// What the caller must do next in a given state.
#[derive(Debug)]
pub enum DeployAction {
    /// Check whether the repository exists; answer `RepositoryChecked`.
    CheckRepository,
    /// Ask the operator whether to clone; answer `CloneConsent`.
    AskCloneConsent,
    /// Clone the repository; answer `CloneDone`.
    RunClone,
    /// Fetch and reconcile; answer `FetchDone`.
    RunFetchReconcile,
    /// Offer the branch list; answer `BranchChosen`.
    AskBranch,
    /// Check out the named branch; answer `CheckoutDone`.
    RunCheckout(String),
    /// Synthesize and persist the manifest; answer `ManifestWritten`.
    WriteManifest,
    /// Run the build command; answer `BuildDone`.
    RunBuild,
    /// Run the start command; answer `StartDone`.
    RunStart,
    /// Terminal: the flow succeeded; nothing is pending.
    Done,
    /// Terminal: the flow stopped for this reason; nothing is pending.
    Abort(DeployError),
}

/// Whether `e` is the kind of event the state `s` is waiting for. Terminal
/// states wait for nothing.
pub open spec fn event_fits(s: DeployState, e: DeployEvent) -> bool {
    match (s, e) {
        (DeployState::NotChecked, DeployEvent::RepositoryChecked(_)) => true,
        (DeployState::AwaitingCloneConsent, DeployEvent::CloneConsent(_)) => true,
        (DeployState::Cloning, DeployEvent::CloneDone(_)) => true,
        (DeployState::Reconciling, DeployEvent::FetchDone(_)) => true,
        (DeployState::SelectingBranch, DeployEvent::BranchChosen(_)) => true,
        (DeployState::CheckingOut(_), DeployEvent::CheckoutDone(_)) => true,
        (DeployState::Synthesizing, DeployEvent::ManifestWritten(_)) => true,
        (DeployState::Building, DeployEvent::BuildDone(_)) => true,
        (DeployState::Starting, DeployEvent::StartDone(_)) => true,
        _ => false,
    }
}

/// The transition relation of the deploy flow: one answer moves the machine
/// one stage forward, or to `Failed` at a gate. An event a state is not
/// waiting for leaves it unchanged.
pub open spec fn spec_step(s: DeployState, e: DeployEvent) -> DeployState {
    if !event_fits(s, e) {
        s
    } else {
        match (s, e) {
            (DeployState::NotChecked, DeployEvent::RepositoryChecked(exists)) => if exists {
                DeployState::Reconciling
            } else {
                DeployState::AwaitingCloneConsent
            },
            (DeployState::AwaitingCloneConsent, DeployEvent::CloneConsent(agreed)) => if agreed {
                DeployState::Cloning
            } else {
                DeployState::Failed(DeployError::RepositoryAbsentDeclined)
            },
            (DeployState::Cloning, DeployEvent::CloneDone(ok)) => if ok {
                DeployState::SelectingBranch
            } else {
                DeployState::Failed(DeployError::CloneFailed)
            },
            (DeployState::Reconciling, DeployEvent::FetchDone(ok)) => if ok {
                DeployState::SelectingBranch
            } else {
                DeployState::Failed(DeployError::FetchFailed)
            },
            (DeployState::SelectingBranch, DeployEvent::BranchChosen(choice)) => match choice {
                Some(branch) => DeployState::CheckingOut(branch),
                None => DeployState::Failed(DeployError::SelectionDeclined),
            },
            (DeployState::CheckingOut(_), DeployEvent::CheckoutDone(ok)) => if ok {
                DeployState::Synthesizing
            } else {
                DeployState::Failed(DeployError::CheckoutFailed)
            },
            (DeployState::Synthesizing, DeployEvent::ManifestWritten(ok)) => if ok {
                DeployState::Building
            } else {
                DeployState::Failed(DeployError::ManifestWriteFailed)
            },
            (DeployState::Building, DeployEvent::BuildDone(ok)) => if ok {
                DeployState::Starting
            } else {
                DeployState::Failed(DeployError::ExternalCommandFailed)
            },
            (DeployState::Starting, DeployEvent::StartDone(ok)) => if ok {
                DeployState::Started
            } else {
                DeployState::Failed(DeployError::ExternalCommandFailed)
            },
            _ => s,
        }
    }
}

/// Feeds one answer into the machine.
pub fn step(s: DeployState, e: DeployEvent) -> (next: DeployState)
    ensures
        next == spec_step(s, e),
{
    match (s, e) {
        (DeployState::NotChecked, DeployEvent::RepositoryChecked(exists)) => if exists {
            DeployState::Reconciling
        } else {
            DeployState::AwaitingCloneConsent
        },
        (DeployState::AwaitingCloneConsent, DeployEvent::CloneConsent(agreed)) => if agreed {
            DeployState::Cloning
        } else {
            DeployState::Failed(DeployError::RepositoryAbsentDeclined)
        },
        (DeployState::Cloning, DeployEvent::CloneDone(ok)) => if ok {
            DeployState::SelectingBranch
        } else {
            DeployState::Failed(DeployError::CloneFailed)
        },
        (DeployState::Reconciling, DeployEvent::FetchDone(ok)) => if ok {
            DeployState::SelectingBranch
        } else {
            DeployState::Failed(DeployError::FetchFailed)
        },
        (DeployState::SelectingBranch, DeployEvent::BranchChosen(choice)) => match choice {
            Some(branch) => DeployState::CheckingOut(branch),
            None => DeployState::Failed(DeployError::SelectionDeclined),
        },
        (DeployState::CheckingOut(branch), DeployEvent::CheckoutDone(ok)) => if ok {
            DeployState::Synthesizing
        } else {
            DeployState::Failed(DeployError::CheckoutFailed)
        },
        (DeployState::Synthesizing, DeployEvent::ManifestWritten(ok)) => if ok {
            DeployState::Building
        } else {
            DeployState::Failed(DeployError::ManifestWriteFailed)
        },
        (DeployState::Building, DeployEvent::BuildDone(ok)) => if ok {
            DeployState::Starting
        } else {
            DeployState::Failed(DeployError::ExternalCommandFailed)
        },
        (DeployState::Starting, DeployEvent::StartDone(ok)) => if ok {
            DeployState::Started
        } else {
            DeployState::Failed(DeployError::ExternalCommandFailed)
        },
        (other, _) => other,
    }
}

/// The one pending action of a state.
pub fn action_of(s: &DeployState) -> (a: DeployAction)
    ensures
        a == spec_action_of(*s),
{
    match s {
        DeployState::NotChecked => DeployAction::CheckRepository,
        DeployState::AwaitingCloneConsent => DeployAction::AskCloneConsent,
        DeployState::Cloning => DeployAction::RunClone,
        DeployState::Reconciling => DeployAction::RunFetchReconcile,
        DeployState::SelectingBranch => DeployAction::AskBranch,
        DeployState::CheckingOut(branch) => DeployAction::RunCheckout(branch.clone()),
        DeployState::Synthesizing => DeployAction::WriteManifest,
        DeployState::Building => DeployAction::RunBuild,
        DeployState::Starting => DeployAction::RunStart,
        DeployState::Started => DeployAction::Done,
        DeployState::Failed(e) => DeployAction::Abort(*e),
    }
}

/// What `action_of` answers in each state.
pub open spec fn spec_action_of(s: DeployState) -> DeployAction {
    match s {
        DeployState::NotChecked => DeployAction::CheckRepository,
        DeployState::AwaitingCloneConsent => DeployAction::AskCloneConsent,
        DeployState::Cloning => DeployAction::RunClone,
        DeployState::Reconciling => DeployAction::RunFetchReconcile,
        DeployState::SelectingBranch => DeployAction::AskBranch,
        DeployState::CheckingOut(branch) => DeployAction::RunCheckout(branch),
        DeployState::Synthesizing => DeployAction::WriteManifest,
        DeployState::Building => DeployAction::RunBuild,
        DeployState::Starting => DeployAction::RunStart,
        DeployState::Started => DeployAction::Done,
        DeployState::Failed(e) => DeployAction::Abort(e),
    }
}

/// Whether an event reports the failure (or refusal) of its stage.
pub open spec fn is_failure_event(e: DeployEvent) -> bool {
    match e {
        DeployEvent::RepositoryChecked(_) => false,
        DeployEvent::CloneConsent(agreed) => !agreed,
        DeployEvent::CloneDone(ok) => !ok,
        DeployEvent::FetchDone(ok) => !ok,
        DeployEvent::BranchChosen(choice) => choice is None,
        DeployEvent::CheckoutDone(ok) => !ok,
        DeployEvent::ManifestWritten(ok) => !ok,
        DeployEvent::BuildDone(ok) => !ok,
        DeployEvent::StartDone(ok) => !ok,
    }
}

/// Every stage is a hard gate: a failure answer to the event a state waits
/// for always moves the machine to `Failed`, so no later stage can run.
pub proof fn lemma_failure_aborts(s: DeployState, e: DeployEvent)
    requires
        event_fits(s, e),
        is_failure_event(e),
    ensures
        spec_step(s, e) is Failed,
{
}

/// Terminal states are final: no event moves the machine out of `Started`
/// or `Failed`.
pub proof fn lemma_terminal_states_final(s: DeployState, e: DeployEvent)
    requires
        s is Started || s is Failed,
    ensures
        spec_step(s, e) == s,
{
}

/// The position of a state along the pipeline, for the ordering law.
pub open spec fn stage_rank(s: DeployState) -> int {
    match s {
        DeployState::NotChecked => 0,
        DeployState::AwaitingCloneConsent => 1,
        DeployState::Cloning => 2,
        DeployState::Reconciling => 2,
        DeployState::SelectingBranch => 3,
        DeployState::CheckingOut(_) => 4,
        DeployState::Synthesizing => 5,
        DeployState::Building => 6,
        DeployState::Starting => 7,
        DeployState::Started => 8,
        DeployState::Failed(_) => 9,
    }
}

/// Stages run strictly in order: every fitting event moves the machine
/// strictly forward, so no stage can run twice and none can be skipped back
/// to.
pub proof fn lemma_stages_in_order(s: DeployState, e: DeployEvent)
    requires
        event_fits(s, e),
    ensures
        stage_rank(spec_step(s, e)) > stage_rank(s),
{
}

/// `Started` is reached only by the start stage succeeding, never by
/// skipping gates.
pub proof fn lemma_started_only_from_start_stage(s: DeployState, e: DeployEvent)
    requires
        spec_step(s, e) is Started,
        !(s is Started),
    ensures
        s is Starting,
        e == DeployEvent::StartDone(true),
        event_fits(s, e),
{
}

} // verus!
