use devcont::devcontainers::config::{Build, Config, ShutdownAction};
use devcont::devcontainers::copying::{copy_targets, home_dir_for, missing_file, shell_quote};
use devcont::devcontainers::paths::{is_absolute, normalize, path_join, split_slashes, validate_within_root};
use devcont::devcontainers::{
    build_provider, build_source, compose_path_and_service, config_file_candidates, missing_config_failure,
    missing_field, parse_failure, settings_failure, sorted_env_vars, validate_build_context, validate_mounts,
    Backend, Devcontainer,
};
use devcont::error::FailureKind;
use devcont::provider::docker::BuildSource;
use devcont::settings::{Provider, Settings};

fn s(v: &str) -> String {
    v.to_string()
}

fn config_named(name: &str) -> Config {
    Config {
        name: name.to_string(),
        image: Some(s("alpine")),
        build: None,
        forward_ports: vec![],
        initialize_command: None,
        on_create_command: None,
        update_content_command: None,
        post_create_command: None,
        post_start_command: None,
        post_attach_command: None,
        remote_user: "root".to_string(),
        run_args: vec![],
        override_command: false,
        mounts: None,
        remote_env: vec![],
        docker_compose_file: None,
        service: None,
        selinux_relabel: None,
        workspace_folder: "/workspace".to_string(),
        shutdown_action: ShutdownAction::default(),
    }
}

#[test]
fn path_join_follows_pathbuf_push() {
    assert_eq!(path_join("/ws", "a"), "/ws/a");
    assert_eq!(path_join("/ws/", "a"), "/ws/a");
    assert_eq!(path_join("", "a"), "a");
    assert_eq!(path_join("/ws", "/abs"), "/abs");
    assert!(is_absolute("/x"));
    assert!(!is_absolute("x/y"));
}

#[test]
fn split_and_normalize_paths() {
    assert_eq!(split_slashes("/a//b/"), vec!["", "a", "", "b", ""]);
    assert_eq!(normalize("/a/./b/../c"), vec!["a", "c"]);
    assert_eq!(normalize("../../x"), vec!["x"]);
}

#[test]
fn within_root_resolves_dot_dot_inside_the_workspace() {
    assert_eq!(validate_within_root("/ws", "sub/../Dockerfile").unwrap(), "/ws/Dockerfile");
    assert_eq!(validate_within_root("/ws", "/ws/a/./b").unwrap(), "/ws/a/b");
    assert_eq!(validate_within_root("/ws", ".").unwrap(), "/ws");
}

#[test]
fn within_root_refuses_paths_that_leave_the_workspace() {
    assert_eq!(
        validate_within_root("/ws", "../etc/passwd").unwrap_err(),
        "path '../etc/passwd' is outside the workspace root '/ws'"
    );
    assert!(validate_within_root("/ws", "/other").is_err());
    assert!(validate_within_root("/ws", "a/../../b").is_err());
}

#[test]
fn build_context_relative_outside_fails() {
    let f = validate_build_context("/ws", "../x").unwrap_err();
    assert_eq!(f.kind, FailureKind::InvalidInput);
    assert_eq!(f.message, "path '../x' is outside the workspace root '/ws'");
    assert_eq!(validate_build_context("/ws", "sub").unwrap(), None);
}

#[test]
fn build_context_absolute_outside_warns() {
    assert_eq!(
        validate_build_context("/ws", "/elsewhere").unwrap(),
        Some(s("warning: build.context '/elsewhere' is absolute and outside workspace root '/ws'"))
    );
    assert_eq!(validate_build_context("/ws", "/ws/ctx").unwrap(), None);
}

#[test]
fn mounts_with_relative_source_must_stay_inside() {
    let bad = Some(vec![vec![(s("type"), s("bind")), (s("source"), s("../secret")), (s("target"), s("/s"))]]);
    let f = validate_mounts("/ws", &bad).unwrap_err();
    assert_eq!(f.kind, FailureKind::InvalidInput);
    assert_eq!(f.message, "path '../secret' is outside the workspace root '/ws'");
    let absolute = Some(vec![vec![(s("source"), s("/var/run/docker.sock")), (s("target"), s("/d"))]]);
    assert!(validate_mounts("/ws", &absolute).is_ok());
    let inside = Some(vec![vec![(s("source"), s("data"))], vec![(s("type"), s("volume"))]]);
    assert!(validate_mounts("/ws", &inside).is_ok());
    assert!(validate_mounts("/ws", &None).is_ok());
}

#[test]
fn build_source_from_dockerfile_or_image() {
    let mut config = config_named("p");
    match build_source("/ws", &config).unwrap() {
        BuildSource::Image(i) => assert_eq!(i, "alpine"),
        other => panic!("unexpected {other:?}"),
    }
    config.build = Some(Build { dockerfile: Some(s("Dockerfile")), context: Some(s("docker")), args: vec![] });
    match build_source("/ws", &config).unwrap() {
        BuildSource::Dockerfile(p) => assert_eq!(p, "/ws/docker/Dockerfile"),
        other => panic!("unexpected {other:?}"),
    }
    config.build = Some(Build { dockerfile: Some(s("../../Dockerfile")), context: None, args: vec![] });
    let f = build_source("/ws", &config).unwrap_err();
    assert_eq!(f.kind, FailureKind::InvalidInput);
}

#[test]
fn build_source_missing_both_fails() {
    let mut config = config_named("p");
    config.image = None;
    let f = build_source("/ws", &config).unwrap_err();
    assert_eq!(f.kind, FailureKind::InvalidData);
    assert_eq!(f.message, "devcontainer.json is missing required field: build.dockerfile or image");
}

#[test]
fn compose_file_and_service() {
    let mut config = config_named("p");
    config.docker_compose_file = Some(s("docker-compose.yml"));
    let f = compose_path_and_service("/ws", &config).unwrap_err();
    assert_eq!(f.message, "devcontainer.json is missing required field: service");
    config.service = Some(s("app"));
    assert_eq!(
        compose_path_and_service("/ws", &config).unwrap(),
        (s("/ws/.devcontainer/docker-compose.yml"), s("app"))
    );
    config.docker_compose_file = None;
    let f = compose_path_and_service("/ws", &config).unwrap_err();
    assert_eq!(f.kind, FailureKind::InvalidData);
    assert_eq!(f.message, "devcontainer.json is missing required field: dockerComposeFile");
}

#[test]
fn sorted_env_vars_orders_by_key() {
    let mut config = config_named("p");
    config.remote_env = vec![(s("B"), s("2")), (s("A"), s("1")), (s("C"), s("3")), (s("AA"), s("0"))];
    assert_eq!(
        sorted_env_vars(&config),
        vec![(s("A"), s("1")), (s("AA"), s("0")), (s("B"), s("2")), (s("C"), s("3"))]
    );
}

#[test]
fn build_provider_docker_image() {
    let mut config = config_named("My App");
    config.forward_ports = vec![3000];
    config.run_args = vec![s("--network"), s("host")];
    let (backend, warnings) = build_provider("/ws", Provider::Docker, &config, false).unwrap();
    assert!(warnings.is_empty());
    match backend {
        Backend::Docker(d) => {
            assert_eq!(d.name, "devcont-my-app");
            assert_eq!(d.command, "docker");
            assert_eq!(d.directory, "/ws");
            assert_eq!(d.forward_ports, vec![3000]);
            assert_eq!(d.run_args, vec!["--network", "host"]);
            assert_eq!(d.user, "root");
            assert_eq!(d.workspace_folder, "/workspace");
        },
        other => panic!("unexpected {other:?}"),
    }
}

#[test]
fn build_provider_podman_compose_relabels_when_enforcing() {
    let mut config = config_named("svc");
    config.docker_compose_file = Some(s("compose.yml"));
    config.service = Some(s("app"));
    config.remote_env = vec![(s("Z"), s("1")), (s("A"), s("2"))];
    let (backend, _) = build_provider("/ws", Provider::Podman, &config, true).unwrap();
    match backend {
        Backend::PodmanCompose(p) => {
            assert!(p.selinux_relabel);
            assert_eq!(p.command, "podman-compose");
            assert_eq!(p.podman_command, "podman");
            assert_eq!(p.file, "/ws/.devcontainer/compose.yml");
            assert_eq!(p.env_vars, vec![(s("A"), s("2")), (s("Z"), s("1"))]);
        },
        other => panic!("unexpected {other:?}"),
    }
    config.selinux_relabel = Some(false);
    match build_provider("/ws", Provider::Podman, &config, true).unwrap().0 {
        Backend::PodmanCompose(p) => assert!(!p.selinux_relabel),
        other => panic!("unexpected {other:?}"),
    }
}

#[test]
fn build_provider_reports_warnings_and_failures() {
    let mut config = config_named("-odd");
    config.build = Some(Build { dockerfile: None, context: Some(s("/elsewhere")), args: vec![] });
    let (backend, warnings) = build_provider("/ws", Provider::Podman, &config, false).unwrap();
    assert_eq!(
        warnings,
        vec![
            s("notice: container name derived from '-odd' starts with a non-alphanumeric character; prepending 'dev-'"),
            s("warning: build.context '/elsewhere' is absolute and outside workspace root '/ws'"),
        ]
    );
    match backend {
        Backend::Podman(p) => {
            assert_eq!(p.name, "devcont-dev--odd");
            assert_eq!(p.build_context, "/elsewhere");
        },
        other => panic!("unexpected {other:?}"),
    }
    let bad = config_named("\u{4e2d}");
    let f = build_provider("/ws", Provider::Docker, &bad, false).unwrap_err();
    assert_eq!(f.kind, FailureKind::InvalidInput);
    assert!(f.message.starts_with("Invalid configuration: Cannot derive a container name"));
}

#[test]
fn load_and_create_args() {
    let mut config = config_named("p");
    config.remote_env = vec![(s("A"), s("1"))];
    config.run_args = vec![s("--network"), s("host")];
    let dc = Devcontainer::load("/ws", config, Settings::default(), false).unwrap();
    assert_eq!(dc.create_args(), vec!["-e", "A=1", "-w", "/workspace", "--network", "host"]);
    assert!(dc.warnings.is_empty());
    let mut missing = config_named("p");
    missing.image = None;
    assert!(Devcontainer::load("/ws", missing, Settings::default(), false).is_err());
}

#[test]
fn config_file_candidates_in_order() {
    assert_eq!(
        config_file_candidates("/ws"),
        (s("/ws/.devcontainer/devcontainer.json"), s("/ws/.devcontainer.json"))
    );
}

#[test]
fn load_failures() {
    let f = missing_config_failure();
    assert_eq!(f.kind, FailureKind::NotFound);
    assert_eq!(f.message, "Could not find .devcontainer/devcontainer.json or .devcontainer.json");
    let f = parse_failure("/ws/.devcontainer.json", "bad");
    assert_eq!(f.kind, FailureKind::InvalidData);
    assert_eq!(f.message, "could not parse /ws/.devcontainer.json: bad");
    let f = settings_failure("Failed to load settings: x");
    assert_eq!(f.kind, FailureKind::InvalidData);
    assert_eq!(f.message, "Failed to load settings: x");
    assert_eq!(missing_field("name").message, "devcontainer.json is missing required field: name");
}

#[test]
fn copy_helpers() {
    assert_eq!(home_dir_for("root"), "/root");
    assert_eq!(home_dir_for("vscode"), "/home/vscode");
    assert_eq!(shell_quote("it's here"), "'it'\\''s here'");
    assert_eq!(
        copy_targets("/home/v/.config/nvim", Some(s("/home/v/.config")), true),
        (s("mkdir -p -- '/home/v/.config'"), s("/home/v/.config"))
    );
    assert_eq!(
        copy_targets("/root/.gitconfig", Some(s("/root")), false),
        (s("mkdir -p -- '/root'"), s("/root/.gitconfig"))
    );
    assert_eq!(missing_file("/nope"), "File not found \"/nope\"");
}

#[test]
fn accepted_paths_resolve_inside_the_root() {
    for (root, path) in [("/ws", "a/./b/../c"), ("/ws/", "/ws/x//y"), ("ws", "d"), ("/ws", ".")] {
        let out = validate_within_root(root, path).unwrap();
        let rc = normalize(root);
        let oc = normalize(&out);
        assert!(oc.len() >= rc.len());
        assert_eq!(oc[..rc.len()], rc[..]);
    }
}

#[test]
fn load_refuses_a_key_named_twice() {
    let mut config = config_named("p");
    config.remote_env = vec![(s("A"), s("1")), (s("A"), s("2"))];
    let f = Devcontainer::load("/ws", config, Settings::default(), false).unwrap_err();
    assert_eq!(f.kind, FailureKind::InvalidData);
    assert_eq!(f.message, "devcontainer.json names a key twice in remoteEnv, build.args or mounts");
    let mut config = config_named("p");
    config.mounts = Some(vec![vec![(s("source"), s("a")), (s("target"), s("/a"))], vec![(s("type"), s("bind")), (s("type"), s("volume"))]]);
    assert!(Devcontainer::load("/ws", config, Settings::default(), false).is_err());
    let mut config = config_named("p");
    config.remote_env = vec![(s("A"), s("1")), (s("B"), s("1"))];
    assert!(config.has_unique_keys());
}
