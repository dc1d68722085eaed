use devcont::listing::{first_nonblank_line, has_output, name_listed_in, output_text};
use devcont::provider::docker::{exact_name_match, BuildSource, Docker};
use devcont::provider::docker_compose::DockerCompose;
use devcont::provider::podman::Podman;
use devcont::provider::podman_compose::PodmanCompose;
use devcont::provider::utils::{compose_override_context, resolve_dockerfile_path, selinux_enforce_text_on};
use devcont::provider::{command_display, exit_failure_message, redact_env_args};

fn s(v: &str) -> String {
    v.to_string()
}

fn make_provider(name: &str, service: &str) -> PodmanCompose {
    PodmanCompose {
        build_args: vec![],
        command: "podman-compose".to_string(),
        env_vars: vec![],
        podman_command: "podman".to_string(),
        file: "docker-compose.yml".to_string(),
        name: name.to_string(),
        selinux_relabel: false,
        service: service.to_string(),
        shell: "/bin/bash".to_string(),
        user: "vscode".to_string(),
        workspace_folder: "/workspace".to_string(),
    }
}

fn make_docker(source: BuildSource) -> Docker {
    Docker {
        build_args: vec![(s("V"), s("1"))],
        build_source: source,
        command: s("docker"),
        directory: s("/ws"),
        forward_ports: vec![8080],
        name: s("devcont-p"),
        run_args: vec![s("--network"), s("host")],
        mounts: Some(vec![vec![(s("type"), s("bind")), (s("source"), s("/data")), (s("target"), s("/d"))]]),
        user: s("vscode"),
        workspace_folder: s("/workspace"),
        override_command: true,
    }
}

#[test]
fn redact_two_token_env() {
    let args = vec!["run", "-e", "SECRET=hunter2", "--name", "c"];
    let result = redact_env_args(&args);
    assert_eq!(result, vec!["run", "-e", "SECRET=***", "--name", "c"]);
}

#[test]
fn redact_two_token_env_long() {
    let args = vec!["run", "--env", "MY_TOKEN=abc123"];
    let result = redact_env_args(&args);
    assert_eq!(result, vec!["run", "--env", "MY_TOKEN=***"]);
}

#[test]
fn redact_single_token_env_equals() {
    let args = vec!["run", "--env=MY_TOKEN=abc123"];
    let result = redact_env_args(&args);
    assert_eq!(result, vec!["run", "--env=MY_TOKEN=***"]);
}

#[test]
fn non_env_args_unchanged() {
    let args = vec!["run", "--name", "foo", "--network", "host"];
    let result = redact_env_args(&args);
    assert_eq!(result, vec!["run", "--name", "foo", "--network", "host"]);
}

#[test]
fn multiple_env_args_all_redacted() {
    let args = vec!["run", "-e", "A=1", "-e", "B=2"];
    let result = redact_env_args(&args);
    assert_eq!(result, vec!["run", "-e", "A=***", "-e", "B=***"]);
}

#[test]
fn redact_edge_forms() {
    let args = vec!["-e=K=v", "-e", "NOVALUE", "--env=ONLYKEY", "--env"];
    assert_eq!(redact_env_args(&args), vec!["-e=K=***", "-e", "***", "--env=ONLYKEY", "--env"]);
}

#[test]
fn redacting_twice_is_redacting_once() {
    let args = vec!["run", "--env", "A=1=2", "-e=B=x", "--env", "--env", "C=3", "plain"];
    let once = redact_env_args(&args);
    let once_refs: Vec<&str> = once.iter().map(String::as_str).collect();
    let twice = redact_env_args(&once_refs);
    assert_eq!(once, twice);
    assert_eq!(once.len(), args.len());
}

#[test]
fn command_display_redacts() {
    assert_eq!(
        command_display("docker", &["create", "-e", "TOKEN=abc", "img"]),
        "docker create -e TOKEN=*** img"
    );
}

#[test]
fn exact_name_match_matches_exact() {
    let output = b"foo\n".to_vec();
    assert!(exact_name_match(output, "foo"));
}

#[test]
fn exact_name_match_no_prefix_match() {
    let output = b"foobar\n".to_vec();
    assert!(!exact_name_match(output, "foo"));
}

#[test]
fn exact_name_match_no_suffix_match() {
    let output = b"barfoo\n".to_vec();
    assert!(!exact_name_match(output, "foo"));
}

#[test]
fn exact_name_match_empty_output() {
    assert!(!exact_name_match(vec![], "foo"));
}

#[test]
fn exact_name_match_multiple_names_one_matches() {
    let output = b"foobar\nfoo\nbaz\n".to_vec();
    assert!(exact_name_match(output, "foo"));
}

#[test]
fn exact_name_match_multiple_names_none_match() {
    let output = b"foobar\nbaz\n".to_vec();
    assert!(!exact_name_match(output, "foo"));
}

#[test]
fn exact_name_match_invalid_utf8_and_crlf() {
    assert!(!exact_name_match(vec![0xff, b'f', b'o', b'o'], "foo"));
    assert!(exact_name_match(b"  foo \r\nbar".to_vec(), "foo"));
}

#[test]
fn listing_helpers() {
    assert_eq!(output_text(vec![0xc3, 0xa9]), "\u{e9}");
    assert_eq!(output_text(vec![0xc3]), "");
    assert!(has_output(b" abc\n".to_vec()));
    assert!(!has_output(b" \n\t".to_vec()));
    assert!(!has_output(vec![0xff]));
    assert!(name_listed_in("a\nb\n", "b"));
    assert_eq!(first_nonblank_line("\n x \ny"), "x");
}

#[test]
fn extract_container_id_single_line() {
    let output = "abc123\n";
    assert_eq!(PodmanCompose::extract_container_id(output), "abc123");
}

#[test]
fn extract_container_id_blank_leading_lines() {
    let output = "\n\n  \ndeadbeef\n";
    assert_eq!(PodmanCompose::extract_container_id(output), "deadbeef");
}

#[test]
fn extract_container_id_empty() {
    assert_eq!(PodmanCompose::extract_container_id(""), "");
    assert_eq!(PodmanCompose::extract_container_id("   \n  \n"), "");
}

#[test]
fn running_args_includes_status_running_filter() {
    let p = make_provider("myproject", "app");
    let args = p.running_args();
    let status_idx = args.iter().position(|a| a == "--filter").expect("--filter missing");
    assert_eq!(args[status_idx + 1], "status=running");
}

#[test]
fn running_args_does_not_include_format_flag() {
    let p = make_provider("myproject", "app");
    let args = p.running_args();
    assert!(
        !args.iter().any(|a| a.contains("--format")),
        "running_args must not contain --format, got: {args:?}"
    );
}

#[test]
fn running_args_includes_project_label_filter() {
    let p = make_provider("testproj", "svc");
    let args = p.running_args();
    assert!(
        args.iter().any(|a| a.contains("io.podman.compose.project=testproj")),
        "running_args must filter by project label, got: {args:?}"
    );
}

#[test]
fn rm_args_does_not_include_rmi() {
    let p = make_provider("myproject", "app");
    let args = p.rm_args("/tmp/override.yml");
    assert!(
        !args.iter().any(|a| a.contains("--rmi")),
        "rm_args must not contain --rmi, got: {args:?}"
    );
}

#[test]
fn rm_args_includes_down_and_remove_orphans() {
    let p = make_provider("myproject", "app");
    let args = p.rm_args("/tmp/override.yml");
    assert!(args.iter().any(|a| a == "down"), "rm_args must include 'down'");
    assert!(
        args.iter().any(|a| a == "--remove-orphans"),
        "rm_args must include '--remove-orphans'"
    );
}

#[test]
fn rm_args_includes_project_name() {
    let p = make_provider("projname", "app");
    let args = p.rm_args("/override.yml");
    let p_idx = args.iter().position(|a| a == "-p").expect("-p missing");
    assert_eq!(args[p_idx + 1], "projname");
}

#[test]
fn compose_base_args_includes_compose_file() {
    let p = make_provider("proj", "svc");
    let args = p.compose_base_args("/override.yml");
    let idx = args.iter().position(|a| a == "-f").expect("-f missing");
    assert_eq!(args[idx + 1], "docker-compose.yml");
}

#[test]
fn compose_base_args_includes_override_file() {
    let p = make_provider("proj", "svc");
    let args = p.compose_base_args("/my/override.yml");
    let positions: Vec<usize> = args
        .iter()
        .enumerate()
        .filter(|(_, a)| *a == "-f")
        .map(|(i, _)| i)
        .collect();
    assert_eq!(positions.len(), 2, "must have two -f flags");
    assert_eq!(args[positions[1] + 1], "/my/override.yml");
}

#[test]
fn compose_base_args_includes_project_name() {
    let p = make_provider("myproj", "svc");
    let args = p.compose_base_args("/override.yml");
    let idx = args.iter().position(|a| a == "-p").expect("-p missing");
    assert_eq!(args[idx + 1], "myproj");
}

#[test]
fn build_command_args_includes_build_subcommand() {
    let p = make_provider("proj", "svc");
    let args = p.build_command_args("/override.yml", true);
    assert!(args.iter().any(|a| a == "build"), "must include 'build'");
}

#[test]
fn build_command_args_no_cache_flag() {
    let p = make_provider("proj", "svc");
    let args = p.build_command_args("/override.yml", false);
    assert!(args.iter().any(|a| a == "--no-cache"), "must include --no-cache");
}

#[test]
fn build_command_args_with_cache_no_no_cache_flag() {
    let p = make_provider("proj", "svc");
    let args = p.build_command_args("/override.yml", true);
    assert!(!args.iter().any(|a| a == "--no-cache"), "must not include --no-cache");
}

#[test]
fn build_command_args_includes_build_arg_flags() {
    let mut p = make_provider("proj", "svc");
    p.build_args.push(("FOO".to_string(), "bar".to_string()));
    let args = p.build_command_args("/override.yml", true);
    let idx = args.iter().position(|a| a == "--build-arg").expect("--build-arg missing");
    assert_eq!(args[idx + 1], "FOO=bar");
}

#[test]
fn start_command_args_includes_up_detach() {
    let p = make_provider("proj", "svc");
    let args = p.start_command_args("/override.yml");
    assert!(args.iter().any(|a| a == "up"), "must include 'up'");
    assert!(args.iter().any(|a| a == "--detach"), "must include '--detach'");
}

#[test]
fn stop_command_args_includes_stop_subcommand() {
    let p = make_provider("proj", "svc");
    let args = p.stop_command_args("/override.yml");
    assert!(args.iter().any(|a| a == "stop"), "must include 'stop'");
}

#[test]
fn restart_command_args_includes_restart_subcommand() {
    let p = make_provider("proj", "svc");
    let args = p.restart_command_args("/override.yml");
    assert!(args.iter().any(|a| a == "restart"), "must include 'restart'");
}

#[test]
fn attach_command_args_includes_exec_and_service() {
    let p = make_provider("proj", "app");
    let args = p.attach_command_args("/override.yml");
    assert!(args.iter().any(|a| a == "exec"), "must include 'exec'");
    assert!(args.iter().any(|a| a == "app"), "must include service name");
}

#[test]
fn attach_command_args_includes_shell() {
    let p = make_provider("proj", "svc");
    let args = p.attach_command_args("/override.yml");
    assert!(args.iter().any(|a| a == "/bin/bash"), "must include shell");
}

#[test]
fn attach_command_args_includes_user_and_workspace() {
    let p = make_provider("proj", "svc");
    let args = p.attach_command_args("/override.yml");
    let u_idx = args.iter().position(|a| a == "-u").expect("-u missing");
    assert_eq!(args[u_idx + 1], "vscode");
    let w_idx = args.iter().position(|a| a == "-w").expect("-w missing");
    assert_eq!(args[w_idx + 1], "/workspace");
}

#[test]
fn exec_command_args_passes_cmd_via_sh_c() {
    let p = make_provider("proj", "svc");
    let args = p.exec_command_args("/override.yml", "npm install");
    let len = args.len();
    assert!(len >= 3);
    assert_eq!(args[len - 3], "sh");
    assert_eq!(args[len - 2], "-c");
    assert_eq!(args[len - 1], "npm install");
}

#[test]
fn exec_raw_command_args_places_prog_after_service() {
    let p = make_provider("proj", "svc");
    let args = p.exec_raw_command_args("/override.yml", "myprogram", &["--flag"]);
    let svc_idx = args.iter().position(|a| a == "svc").expect("service missing");
    assert_eq!(args[svc_idx + 1], "myprogram");
    assert_eq!(args[svc_idx + 2], "--flag");
}

#[test]
fn exec_raw_command_args_no_sh_wrapper() {
    let p = make_provider("proj", "svc");
    let args = p.exec_raw_command_args("/override.yml", "myprog", &[]);
    assert!(!args.iter().any(|a| a == "sh"), "exec_raw must not use sh");
    assert!(!args.iter().any(|a| a == "-c"), "exec_raw must not use -c");
}

#[test]
fn podman_compose_container_queries() {
    let p = make_provider("proj", "svc");
    assert_eq!(
        p.exists_args(),
        vec![
            "ps",
            "-aq",
            "--filter",
            "label=io.podman.compose.project=proj",
            "--filter",
            "label=com.docker.compose.service=svc",
        ]
    );
    assert_eq!(PodmanCompose::cp_args("abc", "/src", "/dst"), Some(vec![s("cp"), s("/src"), s("abc:/dst")]));
    assert_eq!(PodmanCompose::cp_args("", "/src", "/dst"), None);
}

#[test]
fn resolve_dockerfile_no_context_relative_to_workspace() {
    let result = resolve_dockerfile_path("/ws", "Dockerfile", None);
    assert_eq!(result, "/ws/Dockerfile");
}

#[test]
fn resolve_dockerfile_with_relative_context() {
    let result = resolve_dockerfile_path("/ws", "Dockerfile", Some("subdir"));
    assert_eq!(result, "/ws/subdir/Dockerfile");
}

#[test]
fn resolve_dockerfile_with_absolute_context() {
    let result = resolve_dockerfile_path("/ws", "Dockerfile", Some("/other/ctx"));
    assert_eq!(result, "/other/ctx/Dockerfile");
}

#[test]
fn resolve_dockerfile_absolute_path_returned_unchanged() {
    let result = resolve_dockerfile_path("/ws", "/abs/Dockerfile", Some("ctx"));
    assert_eq!(result, "/abs/Dockerfile");
}

#[test]
fn compose_override_without_selinux_has_no_z_suffix_in_context() {
    let ctx = compose_override_context("svc", &vec![(s("A"), s("1"))], false, Some(s("/run/agent.sock")));
    assert_eq!(ctx.service, "svc");
    assert_eq!(ctx.volumes.len(), 1);
    assert_eq!(ctx.volumes[0].source, "/run/agent.sock");
    assert_eq!(ctx.volumes[0].dest, "/ssh-agent");
    assert_eq!(ctx.volumes[0].suffix, "");
    assert_eq!(ctx.envs.len(), 2);
    assert_eq!((ctx.envs[0].source.as_str(), ctx.envs[0].dest.as_str()), ("A", "1"));
    assert_eq!((ctx.envs[1].source.as_str(), ctx.envs[1].dest.as_str()), ("SSH_AUTH_SOCK", "/ssh-agent"));
}

#[test]
fn compose_override_with_selinux_has_z_suffix_in_context() {
    let ctx = compose_override_context("svc", &vec![], true, Some(s("/run/agent.sock")));
    assert_eq!(ctx.volumes[0].suffix, ":z");
    let none = compose_override_context("svc", &vec![], true, None);
    assert!(none.volumes.is_empty());
    assert!(none.envs.is_empty());
}

#[test]
fn selinux_enforce_text() {
    assert!(selinux_enforce_text_on("1\n"));
    assert!(!selinux_enforce_text_on("0\n"));
    assert!(!selinux_enforce_text_on("10"));
    assert!(!selinux_enforce_text_on(""));
}

#[test]
fn docker_build_from_dockerfile_and_image() {
    let d = make_docker(BuildSource::Dockerfile(s("/ws/Dockerfile")));
    let c = d.build_command(false);
    assert_eq!(c.program, "docker");
    assert_eq!(
        c.args,
        vec!["build", "-t", "devcont/devcont-p", "-f", "/ws/Dockerfile", "--no-cache", "--build-arg", "V=1", "/ws"]
    );
    let d = make_docker(BuildSource::Image(s("alpine")));
    assert_eq!(d.build_command(true).args, vec!["pull", "alpine"]);
}

#[test]
fn docker_create_command() {
    let d = make_docker(BuildSource::Image(s("alpine")));
    let c = d.create_command(&vec![s("-e"), s("K=V")], &Some(s("/tmp/agent")));
    assert_eq!(
        c.args,
        vec![
            "create",
            "--mount",
            "type=bind,source=/ws,target=/workspace",
            "--volume",
            "/tmp/agent:/ssh-agent",
            "--env",
            "SSH_AUTH_SOCK=/ssh-agent",
            "--publish",
            "8080:8080",
            "-e",
            "K=V",
            "--network",
            "host",
            "--mount",
            "type=bind,source=/data,target=/d",
            "-it",
            "--name",
            "devcont-p",
            "-u",
            "vscode",
            "-w",
            "/workspace",
            "alpine",
            "/bin/sh",
            "-c",
            "while sleep 1000; do :; done",
        ]
    );
}

#[test]
fn docker_simple_commands() {
    let d = make_docker(BuildSource::Image(s("alpine")));
    assert_eq!(d.start_command().args, vec!["start", "devcont-p"]);
    assert_eq!(d.stop_command().args, vec!["stop", "devcont-p"]);
    assert_eq!(d.restart_command().args, vec!["restart", "devcont-p"]);
    assert_eq!(d.attach_command().args, vec!["attach", "devcont-p"]);
    assert_eq!(d.rm_command().args, vec!["rm", "devcont-p"]);
    assert_eq!(
        d.list_command(true).args,
        vec!["ps", "-a", "--filter", "name=devcont-p", "--format", "{{.Names}}"]
    );
    assert_eq!(d.cp_command("/a", "/b").args, vec!["cp", "/a", "devcont-p:/b"]);
    assert_eq!(
        d.exec_command("ls -la").args,
        vec!["exec", "-u", "vscode", "-w", "/workspace", "devcont-p", "sh", "-c", "ls -la"]
    );
    assert_eq!(
        d.exec_raw_command("npm", &["install"]).args,
        vec!["exec", "-u", "vscode", "-w", "/workspace", "devcont-p", "npm", "install"]
    );
}

#[test]
fn podman_create_command_keeps_user_namespace() {
    let p = Podman {
        build_args: vec![],
        build_context: s("/ws"),
        build_source: BuildSource::Dockerfile(s("/ws/Dockerfile")),
        command: s("podman"),
        directory: s("/ws"),
        forward_ports: vec![],
        mounts: None,
        name: s("devcont-p"),
        run_args: vec![],
        override_command: false,
        user: s("root"),
        workspace_folder: s("/workspace"),
    };
    assert_eq!(
        p.create_command(&vec![], &None).args,
        vec![
            "create",
            "--userns=keep-id",
            "--security-opt",
            "label=disable",
            "--mount",
            "type=bind,source=/ws,target=/workspace",
            "-it",
            "--name",
            "devcont-p",
            "-u",
            "root",
            "-w",
            "/workspace",
            "devcont/devcont-p",
        ]
    );
    assert_eq!(
        p.build_command(true).args,
        vec!["build", "-t", "devcont/devcont-p", "-f", "/ws/Dockerfile", "/ws"]
    );
}

#[test]
fn docker_compose_commands() {
    let d = DockerCompose {
        build_args: vec![],
        command: s("docker"),
        env_vars: vec![],
        file: s("/ws/.devcontainer/compose.yml"),
        name: s("devcont-p"),
        service: s("app"),
        shell: s("sh"),
        user: s("root"),
        workspace_folder: s("/workspace"),
    };
    let base = vec!["compose", "-f", "/ws/.devcontainer/compose.yml", "-f", "/tmp/o.yml", "-p", "devcont-p"];
    let with = |extra: &[&str]| -> Vec<String> {
        base.iter().chain(extra.iter()).map(|x| x.to_string()).collect()
    };
    assert_eq!(d.build_command("/tmp/o.yml", false).args, with(&["build", "--no-cache"]));
    assert_eq!(d.start_command("/tmp/o.yml").args, with(&["up", "--detach"]));
    assert_eq!(d.rm_command("/tmp/o.yml").args, with(&["down", "--remove-orphans", "--rmi", "all"]));
    assert_eq!(
        d.attach_command("/tmp/o.yml").args,
        with(&["exec", "-u", "root", "-w", "/workspace", "app", "sh"])
    );
    assert_eq!(d.cp_command("/tmp/o.yml", "/a", "/b").args, with(&["cp", "/a", "app:/b"]));
    assert_eq!(
        d.list_command(true).args,
        vec!["compose", "-f", "/ws/.devcontainer/compose.yml", "-p", "devcont-p", "ps", "-q", "--status=running"]
    );
}

#[test]
fn exit_failure_messages() {
    assert_eq!(exit_failure_message("exec", Some(2)), "exec failed with exit code 2");
    assert_eq!(exit_failure_message("exec_raw", None), "exec_raw failed with exit code -1");
    assert_eq!(exit_failure_message("exec", Some(-127)), "exec failed with exit code -127");
}

#[test]
fn compose_override_contexts_of_the_backends() {
    let mut p = make_provider("proj", "svc");
    p.selinux_relabel = true;
    p.env_vars = vec![(s("K"), s("V"))];
    let ctx = p.override_context(Some(s("/sock")));
    assert_eq!(ctx.service, "svc");
    assert_eq!(ctx.volumes[0].suffix, ":z");
    assert_eq!(ctx.envs[0].source, "K");
    let d = DockerCompose {
        build_args: vec![],
        command: s("docker"),
        env_vars: vec![],
        file: s("compose.yml"),
        name: s("devcont-p"),
        service: s("app"),
        shell: s("sh"),
        user: s("root"),
        workspace_folder: s("/workspace"),
    };
    let ctx = d.override_context(Some(s("/sock")));
    assert_eq!(ctx.service, "app");
    assert_eq!(ctx.volumes[0].suffix, "");
    assert_eq!(ctx.envs.len(), 1);
}

#[test]
fn podman_create_passes_the_environment_once() {
    let p = Podman {
        build_args: vec![],
        build_context: s("/ws"),
        build_source: BuildSource::Image(s("alpine")),
        command: s("podman"),
        directory: s("/ws"),
        forward_ports: vec![],
        mounts: None,
        name: s("devcont-p"),
        run_args: vec![s("--network"), s("host")],
        override_command: false,
        user: s("root"),
        workspace_folder: s("/workspace"),
    };
    let args = p.create_command(&vec![(s("K"), s("V"))], &None).args;
    assert_eq!(
        args[6..10],
        [s("--env"), s("K=V"), s("--network"), s("host")]
    );
    assert_eq!(args.iter().filter(|a| *a == "--network").count(), 1);
}
