//! Failure kinds of the deployment pipeline. Every stage-gate failure aborts
//! the flow for the current service; none is silently discarded.

use vstd::prelude::*;

verus! {

/// Why a deployment flow stopped (or never started).
#[derive(Clone, Copy, PartialEq, Eq, Structural, Debug)]
pub enum DeployError {
    /// The loaded configuration is malformed or incomplete.
    ConfigurationInvalid,
    /// The credential pair is not available.
    CredentialsMissing,
    /// The repository is absent and the operator declined to clone it.
    RepositoryAbsentDeclined,
    /// The operator was offered a choice and selected nothing; the flow
    /// never proceeds with a default.
    SelectionDeclined,
    /// Cloning the repository failed (network, authentication, URL).
    CloneFailed,
    /// Fetching from the remote failed; reconciliation was skipped.
    FetchFailed,
    /// The selected branch could not be checked out.
    CheckoutFailed,
    /// The manifest file could not be written.
    ManifestWriteFailed,
    /// The external orchestration command reported failure.
    ExternalCommandFailed,
}

} // verus!
