use auto_deploy::lifecycle::{build_compose, restart_compose, start_compose, stop_compose};

#[test]
fn build_command_exact() {
    let c = build_compose("./compose_files/demo.yaml", true).expect("planned");
    assert_eq!(c.program, "docker");
    assert_eq!(
        c.args,
        vec![
            "compose".to_string(),
            "-f".to_string(),
            "./compose_files/demo.yaml".to_string(),
            "build".to_string(),
        ]
    );
}

#[test]
fn start_command_exact() {
    let c = start_compose("./compose_files/demo.yaml", "demo", true).expect("planned");
    assert_eq!(c.program, "docker");
    assert_eq!(
        c.args,
        vec![
            "compose".to_string(),
            "-f".to_string(),
            "./compose_files/demo.yaml".to_string(),
            "-p".to_string(),
            "demo".to_string(),
            "up".to_string(),
            "-d".to_string(),
        ]
    );
}

#[test]
fn stop_command_exact() {
    let c = stop_compose("./compose_files/demo.yaml", "demo", true).expect("planned");
    assert_eq!(c.program, "docker");
    assert_eq!(
        c.args,
        vec![
            "compose".to_string(),
            "-f".to_string(),
            "./compose_files/demo.yaml".to_string(),
            "-p".to_string(),
            "demo".to_string(),
            "down".to_string(),
        ]
    );
}

#[test]
fn missing_manifest_plans_nothing() {
    assert!(build_compose("./compose_files/demo.yaml", false).is_none());
    assert!(start_compose("./compose_files/demo.yaml", "demo", false).is_none());
    assert!(stop_compose("./compose_files/demo.yaml", "demo", false).is_none());
    let r = restart_compose("./compose_files/demo.yaml", "demo", false);
    assert!(r.stop.is_none());
    assert!(r.start.is_none());
}

#[test]
fn restart_is_stop_then_start() {
    let r = restart_compose("./compose_files/demo.yaml", "demo", true);
    let stop = stop_compose("./compose_files/demo.yaml", "demo", true).expect("planned");
    let start = start_compose("./compose_files/demo.yaml", "demo", true).expect("planned");
    let planned_stop = r.stop.expect("stop phase");
    let planned_start = r.start.expect("start phase");
    assert_eq!(planned_stop.program, stop.program);
    assert_eq!(planned_stop.args, stop.args);
    assert_eq!(planned_start.program, start.program);
    assert_eq!(planned_start.args, start.args);
}

#[test]
fn restart_with_nothing_running_equals_lone_start() {
    // Tearing down an already-stopped project is a no-op at the external
    // tool, so the observable work of a restart is its start phase, which
    // must be byte-identical to a lone start.
    let r = restart_compose("./compose_files/demo.yaml", "demo", true);
    let lone = start_compose("./compose_files/demo.yaml", "demo", true).expect("planned");
    let planned = r.start.expect("start phase");
    assert_eq!(planned.program, lone.program);
    assert_eq!(planned.args, lone.args);
}
