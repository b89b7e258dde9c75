//! The whole deploy flow against a real repository: the state machine asks,
//! the repository layer answers, and the manifest and lifecycle layers pin
//! what would be written and run. Only the operator prompts, the manifest
//! file write, and the external command execution are simulated.

use std::path::Path;
use std::time::{SystemTime, UNIX_EPOCH};

use auto_deploy::deploy::{action_of, step, DeployAction, DeployEvent, DeployState};
use auto_deploy::lifecycle::{build_compose, start_compose};
use auto_deploy::manifest::generate_compose;
use auto_deploy::repo::{
    branch_checkout, check_repository, clone_repository, list_remote_branches, pull_repository,
    selection_labels,
};

fn unique_path(tag: &str) -> String {
    let nanos = SystemTime::now()
        .duration_since(UNIX_EPOCH)
        .expect("clock")
        .as_nanos();
    format!("/tmp/auto_deploy_e2e_{tag}_{nanos}")
}

fn signature() -> git2::Signature<'static> {
    git2::Signature::new("tester", "tester@example.com", &git2::Time::new(1700000000, 0))
        .expect("signature")
}

fn make_commit(repo: &git2::Repository, parents: &[git2::Oid], marker: &str) -> git2::Oid {
    let sig = signature();
    let blob = repo.blob(marker.as_bytes()).expect("blob");
    let mut builder = repo.treebuilder(None).expect("treebuilder");
    builder.insert("file.txt", blob, 0o100644).expect("insert");
    let tree_oid = builder.write().expect("tree");
    let tree = repo.find_tree(tree_oid).expect("find tree");
    let parent_commits: Vec<git2::Commit> = parents
        .iter()
        .map(|oid| repo.find_commit(*oid).expect("parent"))
        .collect();
    let parent_refs: Vec<&git2::Commit> = parent_commits.iter().collect();
    repo.commit(None, &sig, &sig, marker, &tree, &parent_refs)
        .expect("commit")
}

#[test]
fn fresh_deploy_walks_from_absent_clone_to_planned_start() {
    // Upstream with "main" and "dev"; nothing cloned yet.
    let upstream_path = unique_path("upstream");
    let upstream =
        git2::Repository::init_bare(Path::new(&upstream_path)).expect("init upstream");
    let initial = make_commit(&upstream, &[], "initial");
    upstream
        .reference("refs/heads/main", initial, true, "setup")
        .expect("main");
    upstream
        .reference("refs/heads/dev", initial, true, "setup")
        .expect("dev");
    upstream.set_head("refs/heads/main").expect("head");

    let repository_root = unique_path("root");
    let slug = "demo";
    let repository_path = format!("{repository_root}/{slug}");

    let mut repository: Option<git2::Repository> = None;
    let mut state = DeployState::NotChecked;
    let mut manifest_content: Option<String> = None;
    let mut manifest_path: Option<String> = None;
    let mut planned: Vec<String> = Vec::new();

    loop {
        let event = match action_of(&state) {
            DeployAction::CheckRepository => {
                DeployEvent::RepositoryChecked(check_repository(&repository_path))
            }
            DeployAction::AskCloneConsent => DeployEvent::CloneConsent(true),
            DeployAction::RunClone => {
                match clone_repository("user", "secret", &upstream_path, &repository_path) {
                    Ok(repo) => {
                        repository = Some(repo);
                        DeployEvent::CloneDone(true)
                    }
                    Err(_) => DeployEvent::CloneDone(false),
                }
            }
            DeployAction::RunFetchReconcile => {
                let repo = repository.as_ref().expect("repository open");
                DeployEvent::FetchDone(pull_repository(repo, "user", "secret").is_ok())
            }
            DeployAction::AskBranch => {
                let repo = repository.as_ref().expect("repository open");
                let branches = list_remote_branches(repo);
                let labels = selection_labels(&branches);
                assert!(labels.contains(&"main".to_string()));
                assert!(labels.contains(&"dev".to_string()));
                assert!(!labels.contains(&"HEAD".to_string()));
                DeployEvent::BranchChosen(Some("main".to_string()))
            }
            DeployAction::RunCheckout(branch) => {
                assert_eq!(branch, "main");
                let repo = repository.as_ref().expect("repository open");
                DeployEvent::CheckoutDone(branch_checkout(repo, &branch).is_ok())
            }
            DeployAction::WriteManifest => {
                let container = auto_deploy::config::Container {
                    name: "demo".to_string(),
                    image: "demo:latest".to_string(),
                    build: auto_deploy::config::Build {
                        context: String::new(),
                        args: None,
                        dockerfile: "Dockerfile".to_string(),
                    },
                    restart: "always".to_string(),
                    user: None,
                    stdin_open: None,
                    tty: None,
                    ports: vec!["8080:80".to_string()],
                    volumes: None,
                    environment: None,
                };
                let document =
                    generate_compose(&repository_root, "./compose_files", slug, &container);
                manifest_path = Some(document.path.clone());
                manifest_content = Some(document.content.clone());
                DeployEvent::ManifestWritten(true)
            }
            DeployAction::RunBuild => {
                let path = manifest_path.as_ref().expect("manifest path");
                let command = build_compose(path, true).expect("build planned");
                planned.push(format!("{} {}", command.program, command.args.join(" ")));
                DeployEvent::BuildDone(true)
            }
            DeployAction::RunStart => {
                let path = manifest_path.as_ref().expect("manifest path");
                let command = start_compose(path, slug, true).expect("start planned");
                planned.push(format!("{} {}", command.program, command.args.join(" ")));
                DeployEvent::StartDone(true)
            }
            DeployAction::Done => break,
            DeployAction::Abort(error) => panic!("flow aborted: {error:?}"),
        };
        state = step(state, event);
    }

    // The clone exists and its HEAD sits on the chosen local branch.
    let repo = repository.expect("repository open");
    assert_eq!(repo.head().expect("head").name().expect("name"), "refs/heads/main");
    assert_eq!(repo.refname_to_id("refs/heads/main").expect("tip"), initial);

    // The manifest went to the expected path with the service under "app"
    // and the computed context, and no keys for absent fields.
    let path = manifest_path.expect("manifest path");
    assert_eq!(path, "./compose_files/demo.yaml");
    let content = manifest_content.expect("manifest content");
    assert!(content.contains("services:\n  app:\n"));
    assert!(content.contains(&format!("      context: .{repository_root}/demo\n")));
    assert!(content.contains("    image: demo:latest\n"));
    assert!(content.contains("    ports:\n    - 8080:80\n"));
    assert!(!content.contains("volumes"));
    assert!(!content.contains("environment"));

    // Build was planned against that manifest, then the start scoped to the
    // project id, in that order.
    assert_eq!(
        planned,
        vec![
            format!("docker compose -f {path} build"),
            format!("docker compose -f {path} -p demo up -d"),
        ]
    );
}
