//! Lifecycle planning: the exact orchestration-tool command for each of
//! build, start, stop, and restart, given the manifest path and the project
//! scope. Every operation is a no-op when the manifest file is absent; the
//! caller checks for the file and runs the planned command, streaming its
//! output.

use vstd::prelude::*;

verus! {

/// One external command invocation: the program and its arguments, in order.
pub struct CommandLine {
    pub program: String,
    pub args: Vec<String>,
}

/// The container-orchestration executable every lifecycle command runs.
pub open spec fn orchestrator_program() -> Seq<char> {
    "docker"@
}

/// Arguments of the build subcommand against one manifest.
pub open spec fn build_args(path: Seq<char>) -> Seq<Seq<char>> {
    seq!["compose"@, "-f"@, path, "build"@]
}

/// Arguments of the "bring up, detached" subcommand, scoped to one project.
pub open spec fn start_args(path: Seq<char>, project: Seq<char>) -> Seq<Seq<char>> {
    seq!["compose"@, "-f"@, path, "-p"@, project, "up"@, "-d"@]
}

/// Arguments of the "tear down" subcommand, scoped to one project.
pub open spec fn stop_args(path: Seq<char>, project: Seq<char>) -> Seq<Seq<char>> {
    seq!["compose"@, "-f"@, path, "-p"@, project, "down"@]
}

/// Whether `c` invokes the orchestration tool with exactly `args`.
pub open spec fn is_command(c: CommandLine, args: Seq<Seq<char>>) -> bool {
    c.program@ == orchestrator_program() && c.args.deep_view() == args
}

/// Whether `c` is the planned outcome of one lifecycle operation: the exact
/// command when the manifest file is present, nothing at all when it is not.
pub open spec fn planned(c: Option<CommandLine>, args: Seq<Seq<char>>, manifest_present: bool) -> bool {
    match c {
        Some(cmd) => manifest_present && is_command(cmd, args),
        None => !manifest_present,
    }
}

fn command(args: Vec<String>) -> (c: CommandLine)
    ensures
        c.program@ == orchestrator_program(),
        c.args == args,
{
    CommandLine { program: String::from_str("docker"), args }
}

/// Plans the build of the manifest at `compose_file_path`; a no-op when the
/// manifest file is absent.
pub fn build_compose(compose_file_path: &str, manifest_present: bool) -> (c: Option<CommandLine>)
    ensures
        planned(c, build_args(compose_file_path@), manifest_present),
{
    if !manifest_present {
        return None;
    }
    let mut args: Vec<String> = Vec::new();
    args.push(String::from_str("compose"));
    args.push(String::from_str("-f"));
    args.push(String::from_str(compose_file_path));
    args.push(String::from_str("build"));
    proof {
        assert(args.deep_view() =~= build_args(compose_file_path@));
    }
    Some(command(args))
}

/// Plans the detached start of `project` from the manifest at
/// `compose_file_path`; a no-op when the manifest file is absent.
pub fn start_compose(compose_file_path: &str, project: &str, manifest_present: bool) -> (c: Option<
    CommandLine,
>)
    ensures
        planned(c, start_args(compose_file_path@, project@), manifest_present),
{
    if !manifest_present {
        return None;
    }
    let mut args: Vec<String> = Vec::new();
    args.push(String::from_str("compose"));
    args.push(String::from_str("-f"));
    args.push(String::from_str(compose_file_path));
    args.push(String::from_str("-p"));
    args.push(String::from_str(project));
    args.push(String::from_str("up"));
    args.push(String::from_str("-d"));
    proof {
        assert(args.deep_view() =~= start_args(compose_file_path@, project@));
    }
    Some(command(args))
}

/// Plans the teardown of `project` from the manifest at `compose_file_path`;
/// a no-op when the manifest file is absent.
pub fn stop_compose(compose_file_path: &str, project: &str, manifest_present: bool) -> (c: Option<
    CommandLine,
>)
    ensures
        planned(c, stop_args(compose_file_path@, project@), manifest_present),
{
    if !manifest_present {
        return None;
    }
    let mut args: Vec<String> = Vec::new();
    args.push(String::from_str("compose"));
    args.push(String::from_str("-f"));
    args.push(String::from_str(compose_file_path));
    args.push(String::from_str("-p"));
    args.push(String::from_str(project));
    args.push(String::from_str("down"));
    proof {
        assert(args.deep_view() =~= stop_args(compose_file_path@, project@));
    }
    Some(command(args))
}

/// The two phases of a restart, to run in order. The start phase is planned
/// whether or not the stop phase accomplishes anything: tearing down an
/// already-stopped project is a no-op at the external tool, so a restart
/// with no running containers behaves exactly like a lone start.
pub struct RestartPlan {
    pub stop: Option<CommandLine>,
    pub start: Option<CommandLine>,
}

/// Plans a restart: stop then start, sequentially. The planned start command
/// is byte-identical to the one `start_compose` alone would plan, and its
/// presence never depends on what the stop phase does.
pub fn restart_compose(compose_file_path: &str, project: &str, manifest_present: bool) -> (r:
    RestartPlan)
    ensures
        planned(r.stop, stop_args(compose_file_path@, project@), manifest_present),
        planned(r.start, start_args(compose_file_path@, project@), manifest_present),
{
    let stop = stop_compose(compose_file_path, project, manifest_present);
    let start = start_compose(compose_file_path, project, manifest_present);
    RestartPlan { stop, start }
}

/// A restart with nothing to tear down is observably a lone start: whenever
/// a command value is a valid start phase of a restart plan, it is a valid
/// outcome of `start_compose` itself, and conversely — the two operations
/// are characterized by the same predicate over the same arguments.
pub proof fn lemma_restart_start_equals_lone_start(
    r: RestartPlan,
    c: Option<CommandLine>,
    path: Seq<char>,
    project: Seq<char>,
    manifest_present: bool,
)
    requires
        planned(r.start, start_args(path, project), manifest_present),
        planned(c, start_args(path, project), manifest_present),
    ensures
        match (r.start, c) {
            (Some(a), Some(b)) => a.program@ == b.program@ && a.args.deep_view()
                == b.args.deep_view(),
            (None, None) => true,
            _ => false,
        },
{
}

} // verus!
