//! Repository state management: existence check, clone, fetch with
//! fast-forward reconciliation, remote-branch enumeration, checkout of a
//! selected branch, and the naming rules that connect local branches, their
//! remote-tracking counterparts, and the operator-facing labels.

use vstd::prelude::*;

use crate::errors::DeployError;
use crate::git_ext;
use crate::reconcile::{plan_branch, BranchAction, BranchObservation};

verus! {

/// What reconciliation reported for one local branch.
pub struct BranchReport {
    pub name: String,
    pub action: BranchAction,
}

/// `prefix` followed by `name`.
fn concat_str(prefix: &str, name: &str) -> (r: String)
    ensures
        r@ == prefix@ + name@,
{
    let mut r = String::from_str(prefix);
    r.append(name);
    r
}

/// The symbolic remote HEAD marker, which is not a real branch.
pub open spec fn head_marker() -> Seq<char> {
    "origin/HEAD"@
}

/// Remote-tracking branch names with every "origin/HEAD" entry removed,
/// keeping their order.
pub open spec fn real_branches(names: Seq<Seq<char>>) -> Seq<Seq<char>>
    decreases names.len(),
{
    if names.len() == 0 {
        Seq::empty()
    } else {
        let rest = real_branches(names.drop_last());
        if names.last() == head_marker() {
            rest
        } else {
            rest.push(names.last())
        }
    }
}

/// Nothing that `real_branches` keeps is the "origin/HEAD" marker.
pub proof fn lemma_real_branches_exclude_marker(names: Seq<Seq<char>>)
    ensures
        forall|i: int|
            0 <= i < real_branches(names).len() ==> real_branches(names)[i] != head_marker(),
    decreases names.len(),
{
    if names.len() > 0 {
        lemma_real_branches_exclude_marker(names.drop_last());
        let rest = real_branches(names.drop_last());
        if names.last() != head_marker() {
            assert forall|i: int|
                0 <= i < real_branches(names).len() implies real_branches(names)[i]
                != head_marker() by {
                if i < rest.len() {
                    assert(real_branches(names)[i] == rest[i]);
                } else {
                    assert(real_branches(names)[i] == names.last());
                }
            }
        }
    }
}

/// Keeps the branch names that are not the symbolic "origin/HEAD" marker,
/// preserving their order.
pub fn retain_real_branches(names: &Vec<String>) -> (r: Vec<String>)
    ensures
        r.deep_view() == real_branches(names.deep_view()),
        forall|i: int| 0 <= i < r.deep_view().len() ==> r.deep_view()[i] != head_marker(),
{
    let marker: String = String::from_str("origin/HEAD");
    let mut r: Vec<String> = Vec::new();
    let n = names.len();
    let mut i: usize = 0;
    while i < n
        invariant
            n == names@.len(),
            0 <= i <= n,
            marker@ == head_marker(),
            r.deep_view() == real_branches(names.deep_view().take(i as int)),
        decreases n - i,
    {
        proof {
            assert(names.deep_view().take(i + 1).drop_last() =~= names.deep_view().take(i as int));
            assert(names.deep_view().take(i + 1).last() == names[i as int]@);
        }
        if !(names[i] == marker) {
            r.push(names[i].clone());
        }
        i = i + 1;
    }
    proof {
        assert(names.deep_view().take(n as int) =~= names.deep_view());
        lemma_real_branches_exclude_marker(names.deep_view());
    }
    r
}

/// Whether `path` is the root of a valid local repository. No side effects;
/// the answer reflects the state of the filesystem at the moment of the call.
pub fn check_repository(path: &str) -> bool {
    git_ext::open_repository(path).is_ok()
}

/// Opens the repository rooted at `path`, held for the rest of one flow.
/// A path that holds no usable repository is what a failed or missing clone
/// leaves behind, and is reported as such.
pub fn open_repository(path: &str) -> (r: Result<git2::Repository, DeployError>)
    ensures
        r is Err ==> r->Err_0 == DeployError::CloneFailed,
{
    match git_ext::open_repository(path) {
        Ok(repo) => Ok(repo),
        Err(_) => Err(DeployError::CloneFailed),
    }
}

/// Clones `url` into `path`, answering every credential challenge with the
/// fixed pair. On failure the destination must not be assumed usable.
pub fn clone_repository(username: &str, password: &str, url: &str, path: &str) -> (r: Result<
    git2::Repository,
    DeployError,
>)
    ensures
        r is Err ==> r->Err_0 == DeployError::CloneFailed,
{
    match git_ext::clone_with_credentials(username, password, url, path) {
        Ok(repo) => Ok(repo),
        Err(_) => Err(DeployError::CloneFailed),
    }
}

/// Fetches every remote branch ref and all tags from "origin", answering
/// every credential challenge with the fixed pair, then fast-forwards each
/// local branch whose remote-tracking counterpart strictly descends from it.
/// Diverged branches and branches without an upstream are reported and left
/// untouched; a branch that cannot be observed is skipped. A failed fetch,
/// like a fast-forward that cannot be applied, aborts with `FetchFailed` and
/// is the caller's signal to stop the deploy flow.
pub fn pull_repository(repo: &git2::Repository, username: &str, password: &str) -> (r: Result<
    Vec<BranchReport>,
    DeployError,
>)
    ensures
        r is Err ==> r->Err_0 == DeployError::FetchFailed,
{
    if git_ext::fetch_from_origin(repo, username, password).is_err() {
        return Err(DeployError::FetchFailed);
    }
    let names = match git_ext::local_branch_names(repo) {
        Ok(v) => v,
        Err(_) => Vec::new(),
    };
    let mut reports: Vec<BranchReport> = Vec::new();
    let n = names.len();
    let mut i: usize = 0;
    while i < n
        invariant
            0 <= i <= n,
            n == names@.len(),
        decreases n - i,
    {
        let name = &names[i];
        let local_ref = concat_str("refs/heads/", name.as_str());
        match git_ext::reference_tip(repo, local_ref.as_str()) {
            None => {
                // The branch vanished between enumeration and observation:
                // there is no reference left to reconcile.
            },
            Some(local_tip) => {
                let remote_ref = concat_str("refs/remotes/origin/", name.as_str());
                let upstream_tip = git_ext::reference_tip(repo, remote_ref.as_str());
                let upstream_descends = match &upstream_tip {
                    Some(upstream) => {
                        if *upstream == local_tip {
                            false
                        } else {
                            // An unanswerable ancestry query counts as "does
                            // not descend": the branch is then left untouched.
                            match git_ext::commit_descends_from(
                                repo,
                                upstream.as_str(),
                                local_tip.as_str(),
                            ) {
                                Ok(descends) => descends,
                                Err(_) => false,
                            }
                        }
                    },
                    None => false,
                };
                let observation = BranchObservation {
                    name: name.clone(),
                    local_tip,
                    upstream_tip,
                    upstream_descends,
                };
                let plan = plan_branch(&observation);
                if plan.action == BranchAction::FastForwarded {
                    let applied = git_ext::set_reference(
                        repo,
                        local_ref.as_str(),
                        plan.new_tip.as_str(),
                        true,
                        "fast-forward",
                    );
                    if applied.is_err() {
                        return Err(DeployError::FetchFailed);
                    }
                }
                reports.push(BranchReport { name: plan.name, action: plan.action });
            },
        }
        i = i + 1;
    }
    Ok(reports)
}

/// Checks out the remote-tracking branch with local short name `branch`:
/// resolves "refs/remotes/origin/{branch}" to a commit, creates the local
/// branch there when it does not exist yet, forcibly overwrites the working
/// tree to match that commit (local modifications are discarded), and points
/// HEAD at the local branch. Any unresolvable name or failing step is fatal
/// to the deploy flow for this service.
pub fn branch_checkout(repo: &git2::Repository, branch: &str) -> (r: Result<(), DeployError>)
    ensures
        r is Err ==> r->Err_0 == DeployError::CheckoutFailed,
{
    let remote_ref = concat_str("refs/remotes/origin/", branch);
    let target = match git_ext::reference_tip(repo, remote_ref.as_str()) {
        Some(tip) => tip,
        None => {
            return Err(DeployError::CheckoutFailed);
        },
    };
    let local_ref = concat_str("refs/heads/", branch);
    let local_exists = git_ext::reference_tip(repo, local_ref.as_str()).is_some();
    if !local_exists {
        let created = git_ext::set_reference(
            repo,
            local_ref.as_str(),
            target.as_str(),
            false,
            "branch created for deployment",
        );
        if created.is_err() {
            return Err(DeployError::CheckoutFailed);
        }
    }
    if git_ext::checkout_tree_force(repo, target.as_str()).is_err() {
        return Err(DeployError::CheckoutFailed);
    }
    if git_ext::set_repo_head(repo, local_ref.as_str()).is_err() {
        return Err(DeployError::CheckoutFailed);
    }
    Ok(())
}

/// All remote-tracking branch short names except the symbolic "origin/HEAD"
/// marker, in iteration order. Returns the empty list if enumeration fails.
pub fn list_remote_branches(repo: &git2::Repository) -> (names: Vec<String>)
    ensures
        forall|i: int|
            0 <= i < names.deep_view().len() ==> names.deep_view()[i] != head_marker(),
{
    match git_ext::remote_branch_names(repo) {
        Ok(all) => retain_real_branches(&all),
        Err(_) => Vec::new(),
    }
}

/// A remote-tracking short name without its leading "origin/": the name the
/// matching local branch carries. A name without that prefix is unchanged.
pub open spec fn strip_remote_prefix(name: Seq<char>) -> Seq<char> {
    if name.len() >= 7 && name.take(7) == "origin/"@ {
        name.skip(7)
    } else {
        name
    }
}

/// The local short name of one remote-tracking branch name.
pub fn local_name_of(name: &str) -> (r: String)
    ensures
        r@ == strip_remote_prefix(name@),
{
    proof {
        reveal_strlit("origin/");
    }
    let prefix = "origin/";
    let len = name.unicode_len();
    if len >= 7 {
        let mut same = true;
        let mut i: usize = 0;
        while i < 7
            invariant
                0 <= i <= 7,
                len == name@.len(),
                7 <= len,
                prefix@ == "origin/"@,
                prefix@.len() == 7,
                same <==> (forall|j: int| 0 <= j < i ==> name@[j] == prefix@[j]),
            decreases 7 - i,
        {
            let expected = prefix.get_char(i);
            if name.get_char(i) != expected {
                same = false;
            }
            i = i + 1;
        }
        if same {
            proof {
                assert(name@.take(7) =~= "origin/"@);
            }
            let rest = name.substring_char(7, len);
            proof {
                assert(rest@ =~= name@.skip(7));
            }
            String::from_str(rest)
        } else {
            proof {
                assert(name@.take(7) != "origin/"@) by {
                    if name@.take(7) == "origin/"@ {
                        assert forall|j: int| 0 <= j < 7 implies name@[j] == "origin/"@[j] by {
                            assert(name@.take(7)[j] == name@[j]);
                        }
                    }
                }
            }
            name.to_owned()
        }
    } else {
        name.to_owned()
    }
}

/// The labels a branch list is offered under: each remote-tracking name with
/// its "origin/" prefix stripped, in the same order.
pub fn selection_labels(names: &Vec<String>) -> (labels: Vec<String>)
    ensures
        labels@.len() == names@.len(),
        forall|i: int| 0 <= i < names@.len() ==> labels@[i]@ == strip_remote_prefix(names@[i]@),
{
    let mut labels: Vec<String> = Vec::new();
    let n = names.len();
    let mut i: usize = 0;
    while i < n
        invariant
            n == names@.len(),
            0 <= i <= n,
            labels@.len() == i,
            forall|j: int| 0 <= j < i ==> labels@[j]@ == strip_remote_prefix(names@[j]@),
        decreases n - i,
    {
        labels.push(local_name_of(names[i].as_str()));
        i = i + 1;
    }
    labels
}

} // verus!
