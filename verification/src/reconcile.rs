//! Fast-forward reconciliation policy. After a successful fetch, every local
//! branch is compared with its remote-tracking counterpart and either
//! advanced to the upstream tip (when that is a strict fast-forward) or left
//! untouched. This module is the pure decision core: it speaks only about
//! observed commit ids, never about the repository itself.

use vstd::prelude::*;

verus! {

/// What reconciliation did (or declined to do) to one local branch.
#[derive(Clone, Copy, PartialEq, Eq, Structural, Debug)]
pub enum BranchAction {
    /// The branch was advanced to the upstream tip.
    FastForwarded,
    /// The branch already points at the upstream tip.
    UpToDate,
    /// The histories diverged; the branch was left untouched.
    Diverged,
    /// No remote-tracking counterpart exists; the branch was left untouched.
    NoUpstream,
}

/// What was observed about one local branch after the fetch: its tip, the
/// tip of its remote-tracking counterpart if one exists, and whether that
/// upstream tip is a strict descendant of the local tip. Commit ids are
/// carried in their hexadecimal rendering.
pub struct BranchObservation {
    pub name: String,
    pub local_tip: String,
    pub upstream_tip: Option<String>,
    pub upstream_descends: bool,
}

/// The decision for one branch and the commit its reference must point at
/// afterwards.
pub struct BranchPlan {
    pub name: String,
    pub action: BranchAction,
    pub new_tip: String,
}

/// The conservative reconciliation policy: advance on a strict fast-forward,
/// never merge, rebase, or force-update.
pub open spec fn decide(
    local_tip: Seq<char>,
    upstream_tip: Option<Seq<char>>,
    upstream_descends: bool,
) -> BranchAction {
    match upstream_tip {
        None => BranchAction::NoUpstream,
        Some(upstream) => if upstream == local_tip {
            BranchAction::UpToDate
        } else if upstream_descends {
            BranchAction::FastForwarded
        } else {
            BranchAction::Diverged
        },
    }
}

/// Where the branch reference points after reconciliation: the upstream tip
/// on a fast-forward, its old value in every other case.
pub open spec fn next_tip(
    local_tip: Seq<char>,
    upstream_tip: Option<Seq<char>>,
    upstream_descends: bool,
) -> Seq<char> {
    if decide(local_tip, upstream_tip, upstream_descends) is FastForwarded {
        upstream_tip->0
    } else {
        local_tip
    }
}

/// Whether `plan` is exactly the policy's answer to `observation`.
pub open spec fn plan_matches(plan: BranchPlan, observation: BranchObservation) -> bool {
    &&& plan.name@ == observation.name@
    &&& plan.action == decide(
        observation.local_tip@,
        observation.upstream_tip.deep_view(),
        observation.upstream_descends,
    )
    &&& plan.new_tip@ == next_tip(
        observation.local_tip@,
        observation.upstream_tip.deep_view(),
        observation.upstream_descends,
    )
}

/// Applies the reconciliation policy to one observed branch.
pub fn plan_branch(observation: &BranchObservation) -> (plan: BranchPlan)
    ensures
        plan_matches(plan, *observation),
{
    let name = observation.name.clone();
    match &observation.upstream_tip {
        None => BranchPlan {
            name,
            action: BranchAction::NoUpstream,
            new_tip: observation.local_tip.clone(),
        },
        Some(upstream) => {
            if *upstream == observation.local_tip {
                BranchPlan {
                    name,
                    action: BranchAction::UpToDate,
                    new_tip: observation.local_tip.clone(),
                }
            } else if observation.upstream_descends {
                BranchPlan { name, action: BranchAction::FastForwarded, new_tip: upstream.clone() }
            } else {
                BranchPlan {
                    name,
                    action: BranchAction::Diverged,
                    new_tip: observation.local_tip.clone(),
                }
            }
        },
    }
}

/// A local branch whose upstream tip differs from, and strictly descends
/// from, the local tip is advanced to exactly the upstream tip.
pub proof fn lemma_fast_forward_advances(observation: BranchObservation)
    requires
        observation.upstream_tip is Some,
        observation.upstream_tip->0@ != observation.local_tip@,
        observation.upstream_descends,
    ensures
        decide(
            observation.local_tip@,
            observation.upstream_tip.deep_view(),
            observation.upstream_descends,
        ) is FastForwarded,
        next_tip(
            observation.local_tip@,
            observation.upstream_tip.deep_view(),
            observation.upstream_descends,
        ) == observation.upstream_tip->0@,
{
}

/// Reconciliation never rewinds a branch: the planned tip is either the old
/// local tip itself or an upstream tip that strictly descends from it.
pub proof fn lemma_never_rewinds(observation: BranchObservation)
    ensures
        next_tip(
            observation.local_tip@,
            observation.upstream_tip.deep_view(),
            observation.upstream_descends,
        ) == observation.local_tip@ || (observation.upstream_descends && next_tip(
            observation.local_tip@,
            observation.upstream_tip.deep_view(),
            observation.upstream_descends,
        ) == observation.upstream_tip->0@),
{
}

/// A local branch whose upstream tip is neither equal to the local tip nor a
/// strict descendant of it is left byte-identical to its pre-fetch value.
pub proof fn lemma_diverged_untouched(observation: BranchObservation)
    requires
        observation.upstream_tip is Some,
        observation.upstream_tip->0@ != observation.local_tip@,
        !observation.upstream_descends,
    ensures
        decide(
            observation.local_tip@,
            observation.upstream_tip.deep_view(),
            observation.upstream_descends,
        ) is Diverged,
        next_tip(
            observation.local_tip@,
            observation.upstream_tip.deep_view(),
            observation.upstream_descends,
        ) == observation.local_tip@,
{
}

} // verus!
