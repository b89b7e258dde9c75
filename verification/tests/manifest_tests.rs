use auto_deploy::config::{Build, ComposeConfiguation, Container};
use auto_deploy::manifest::{expected_compose_path, generate_compose, render_compose};

fn demo_container() -> Container {
    Container {
        name: "demo".to_string(),
        image: "demo:latest".to_string(),
        build: Build {
            context: "should-be-ignored".to_string(),
            args: None,
            dockerfile: "Dockerfile".to_string(),
        },
        restart: "always".to_string(),
        user: None,
        stdin_open: None,
        tty: None,
        ports: vec!["8080:80".to_string()],
        volumes: None,
        environment: None,
    }
}

#[test]
fn demo_manifest_exact_text() {
    let m = generate_compose("", "./compose_files", "demo", &demo_container());
    assert_eq!(m.path, "./compose_files/demo.yaml");
    assert_eq!(
        m.content,
        "services:\n  app:\n    container_name: demo\n    image: demo:latest\n    build:\n      context: ./demo\n      dockerfile: Dockerfile\n    restart: always\n    ports:\n    - 8080:80\n"
    );
}

#[test]
fn synthesis_is_idempotent() {
    let first = generate_compose("/srv/repos", "./compose_files", "demo", &demo_container());
    let second = generate_compose("/srv/repos", "./compose_files", "demo", &demo_container());
    assert_eq!(first.path, second.path);
    assert_eq!(first.content, second.content);
}

#[test]
fn supplied_context_is_overridden() {
    let mut with_other_context = demo_container();
    with_other_context.build.context = "entirely/different".to_string();
    let a = generate_compose("/srv/repos", "./compose_files", "demo", &demo_container());
    let b = generate_compose("/srv/repos", "./compose_files", "demo", &with_other_context);
    assert_eq!(a.content, b.content);
    assert!(a.content.contains("context: ./srv/repos/demo\n"));
    assert!(!a.content.contains("should-be-ignored"));
}

#[test]
fn absent_optional_fields_are_omitted() {
    let m = generate_compose("", "./compose_files", "demo", &demo_container());
    assert!(!m.content.contains("volumes"));
    assert!(!m.content.contains("environment"));
    assert!(!m.content.contains("user"));
    assert!(!m.content.contains("stdin_open"));
    assert!(!m.content.contains("tty"));
    assert!(!m.content.contains("args"));
}

#[test]
fn present_optional_fields_are_emitted() {
    let mut c = demo_container();
    c.user = Some("1000:1000".to_string());
    c.stdin_open = Some(true);
    c.tty = Some(false);
    c.volumes = Some(vec!["./data:/data".to_string(), "./logs:/logs".to_string()]);
    c.environment = Some(vec!["MODE=prod".to_string()]);
    c.build.args = Some(vec!["VERSION=1".to_string()]);
    let m = generate_compose("", "./compose_files", "demo", &c);
    assert!(m.content.contains("    user: 1000:1000\n"));
    assert!(m.content.contains("    stdin_open: true\n"));
    assert!(m.content.contains("    tty: false\n"));
    assert!(m.content.contains("    volumes:\n    - ./data:/data\n    - ./logs:/logs\n"));
    assert!(m.content.contains("    environment:\n    - MODE=prod\n"));
    assert!(m.content.contains("      args:\n      - VERSION=1\n"));
}

#[test]
fn empty_port_list_is_an_empty_sequence() {
    let mut c = demo_container();
    c.ports = Vec::new();
    let m = generate_compose("", "./compose_files", "demo", &c);
    assert!(m.content.contains("    ports: []\n"));
}

#[test]
fn manifest_parses_as_structured_document() {
    let m = generate_compose("", "./compose_files", "demo", &demo_container());
    let value: serde_yaml::Value = serde_yaml::from_str(&m.content).expect("valid document");
    let app = &value["services"]["app"];
    assert_eq!(app["container_name"].as_str(), Some("demo"));
    assert_eq!(app["image"].as_str(), Some("demo:latest"));
    assert_eq!(app["build"]["context"].as_str(), Some("./demo"));
    assert_eq!(app["build"]["dockerfile"].as_str(), Some("Dockerfile"));
    assert_eq!(app["restart"].as_str(), Some("always"));
    assert_eq!(app["ports"][0].as_str(), Some("8080:80"));
    assert!(app.get("volumes").is_none());
    assert!(app.get("environment").is_none());
    assert!(app.get("user").is_none());
}

#[test]
fn expected_path_reconstructed_from_slug() {
    assert_eq!(expected_compose_path("demo"), "./compose_files/demo.yaml");
    assert_eq!(expected_compose_path("other-svc"), "./compose_files/other-svc.yaml");
    let m = generate_compose("", "./compose_files", "demo", &demo_container());
    assert_eq!(expected_compose_path("demo"), m.path);
}

#[test]
fn multi_service_compose_renders_in_insertion_order() {
    let mut second = demo_container();
    second.name = "helper".to_string();
    second.image = "helper:1".to_string();
    let compose = ComposeConfiguation {
        services: vec![
            ("app".to_string(), demo_container()),
            ("helper".to_string(), second),
        ],
    };
    let text = render_compose(&compose);
    assert!(text.starts_with("services:\n  app:\n"));
    let app_at = text.find("  app:").expect("app block");
    let helper_at = text.find("  helper:").expect("helper block");
    assert!(app_at < helper_at);
    assert!(text.contains("    image: helper:1\n"));
}
