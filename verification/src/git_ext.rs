//! Trusted boundary around the version-control library. Every item here is
//! believed, not verified: each wrapper makes exactly the calls its doc
//! comment names, and its result depends on the repository on disk and on the
//! network, so the contracts promise nothing about the values that come back.
//! Commit ids cross this boundary as their hexadecimal rendering.

use vstd::prelude::*;

verus! {

#[verifier::external_type_specification]
#[verifier::external_body]
pub struct ExRepository(git2::Repository);

#[verifier::external_type_specification]
#[verifier::external_body]
pub struct ExGitError(git2::Error);

/// Relies on git2::Repository::open: opens an existing repository rooted at
/// `path`, failing if no version-control metadata is found there.
#[verifier::external_body]
pub(crate) fn open_repository(path: &str) -> (r: Result<git2::Repository, git2::Error>) {
    git2::Repository::open(path)
}

/// Relies on git2::build::RepoBuilder::clone, with fetch options whose
/// credential callback answers every challenge with
/// git2::Cred::userpass_plaintext of the fixed pair: a full clone of `url`
/// into `path`. On failure the destination may be absent or partial.
#[verifier::external_body]
pub(crate) fn clone_with_credentials(
    username: &str,
    password: &str,
    url: &str,
    path: &str,
) -> (r: Result<git2::Repository, git2::Error>) {
    let mut callbacks = git2::RemoteCallbacks::new();
    callbacks.credentials(|_, _, _| git2::Cred::userpass_plaintext(username, password));
    let mut fetch_options = git2::FetchOptions::new();
    fetch_options.remote_callbacks(callbacks);
    let mut builder = git2::build::RepoBuilder::new();
    builder.fetch_options(fetch_options);
    builder.clone(url, std::path::Path::new(path))
}

/// Relies on git2::Repository::find_remote("origin") and git2::Remote::fetch
/// with the forced refspec "+refs/heads/*:refs/remotes/origin/*" and
/// git2::AutotagOption::All, authenticating as in `clone_with_credentials`:
/// brings every remote-tracking branch ref and all tags up to date, also
/// when the remote history was rewritten (only the remote-tracking view
/// moves; local branches are never touched by the fetch).
#[verifier::external_body]
pub(crate) fn fetch_from_origin(
    repo: &git2::Repository,
    username: &str,
    password: &str,
) -> (r: Result<(), git2::Error>) {
    let mut callbacks = git2::RemoteCallbacks::new();
    callbacks.credentials(|_, _, _| git2::Cred::userpass_plaintext(username, password));
    let mut fetch_options = git2::FetchOptions::new();
    fetch_options.remote_callbacks(callbacks);
    fetch_options.download_tags(git2::AutotagOption::All);
    let mut remote = repo.find_remote("origin")?;
    remote.fetch(&["+refs/heads/*:refs/remotes/origin/*"], Some(&mut fetch_options), None)
}

/// Relies on git2::Repository::branches(Some(BranchType::Local)) and
/// git2::Branch::name: the short names of the local branches, in iteration
/// order; a branch whose name cannot be read as UTF-8 is skipped.
#[verifier::external_body]
pub(crate) fn local_branch_names(repo: &git2::Repository) -> (r: Result<
    Vec<String>,
    git2::Error,
>) {
    let mut names: Vec<String> = Vec::new();
    for item in repo.branches(Some(git2::BranchType::Local))? {
        if let Ok((branch, _)) = item {
            if let Ok(Some(name)) = branch.name() {
                names.push(name.to_string());
            }
        }
    }
    Ok(names)
}

/// Relies on git2::Repository::branches(Some(BranchType::Remote)) and
/// git2::Branch::name: the short names of the remote-tracking branches
/// (for example "origin/main"), in iteration order, including the symbolic
/// "origin/HEAD" entry when present; a branch whose name cannot be read as
/// UTF-8 is skipped.
#[verifier::external_body]
pub(crate) fn remote_branch_names(repo: &git2::Repository) -> (r: Result<
    Vec<String>,
    git2::Error,
>) {
    let mut names: Vec<String> = Vec::new();
    for item in repo.branches(Some(git2::BranchType::Remote))? {
        if let Ok((branch, _)) = item {
            if let Ok(Some(name)) = branch.name() {
                names.push(name.to_string());
            }
        }
    }
    Ok(names)
}

/// Relies on git2::Repository::refname_to_id: resolves a full reference name
/// straight to the id of the commit it refers to, rendered in hexadecimal;
/// None if the reference does not exist or cannot be resolved.
#[verifier::external_body]
pub(crate) fn reference_tip(repo: &git2::Repository, refname: &str) -> (r: Option<String>) {
    match repo.refname_to_id(refname) {
        Ok(oid) => Some(format!("{}", oid)),
        Err(_) => None,
    }
}

/// Relies on git2::Repository::graph_descendant_of (a commit does not count
/// as a descendant of itself) and git2::Oid::from_str on the two hex ids.
#[verifier::external_body]
pub(crate) fn commit_descends_from(
    repo: &git2::Repository,
    commit_hex: &str,
    ancestor_hex: &str,
) -> (r: Result<bool, git2::Error>) {
    let commit = git2::Oid::from_str(commit_hex)?;
    let ancestor = git2::Oid::from_str(ancestor_hex)?;
    repo.graph_descendant_of(commit, ancestor)
}

/// Relies on git2::Repository::reference and git2::Oid::from_str: points the
/// full reference name `refname` at the commit named by `target_hex`,
/// creating it if absent, without touching the working tree. With `force`
/// an existing reference is moved; without it, updating an existing
/// reference fails.
#[verifier::external_body]
pub(crate) fn set_reference(
    repo: &git2::Repository,
    refname: &str,
    target_hex: &str,
    force: bool,
    log_message: &str,
) -> (r: Result<(), git2::Error>) {
    let oid = git2::Oid::from_str(target_hex)?;
    repo.reference(refname, oid, force, log_message).map(|_| ())
}

/// Relies on git2::Repository::checkout_tree with git2::build::
/// CheckoutBuilder::force, and on find_object and Oid::from_str: overwrites
/// the working tree to match the commit named by `target_hex`, discarding
/// local modifications.
#[verifier::external_body]
pub(crate) fn checkout_tree_force(
    repo: &git2::Repository,
    target_hex: &str,
) -> (r: Result<(), git2::Error>) {
    let oid = git2::Oid::from_str(target_hex)?;
    let object = repo.find_object(oid, None)?;
    let mut checkout = git2::build::CheckoutBuilder::new();
    checkout.force();
    repo.checkout_tree(&object, Some(&mut checkout))
}

/// Relies on git2::Repository::set_head: points the repository HEAD at the
/// full reference name `refname`, staying attached when it is a branch.
#[verifier::external_body]
pub(crate) fn set_repo_head(repo: &git2::Repository, refname: &str) -> (r: Result<
    (),
    git2::Error,
>) {
    repo.set_head(refname)
}

} // verus!
