use std::cell::RefCell;

use devcont::devcontainers::config::{Config, ShutdownAction};
use devcont::devcontainers::one_or_many::OneOrMany;
use devcont::devcontainers::run_args::{run_args_warnings, validate_run_args};
use devcont::devcontainers::{exec_hook, is_confirmed, is_confirmed_lowercase, should_warn_root, str_refs};
use devcont::error::Error;
use devcont::provider::Provider;

#[allow(clippy::struct_field_names)]
struct MockProvider {
    exec_calls: RefCell<Vec<String>>,
    exec_raw_calls: RefCell<Vec<(String, Vec<String>)>>,
    exec_result: bool,
}

impl MockProvider {
    fn new() -> Self {
        Self {
            exec_calls: RefCell::new(vec![]),
            exec_raw_calls: RefCell::new(vec![]),
            exec_result: true,
        }
    }

    fn failing() -> Self {
        Self {
            exec_calls: RefCell::new(vec![]),
            exec_raw_calls: RefCell::new(vec![]),
            exec_result: false,
        }
    }
}

impl Provider for MockProvider {
    fn build(&self, _: bool) -> std::io::Result<bool> {
        Ok(true)
    }
    fn create(&self, _: Vec<String>) -> std::io::Result<bool> {
        Ok(true)
    }
    fn start(&self) -> std::io::Result<bool> {
        Ok(true)
    }
    fn stop(&self) -> std::io::Result<bool> {
        Ok(true)
    }
    fn restart(&self) -> std::io::Result<bool> {
        Ok(true)
    }
    fn attach(&self) -> std::io::Result<bool> {
        Ok(true)
    }
    fn rm(&self) -> std::io::Result<bool> {
        Ok(true)
    }
    fn container_exists(&self) -> std::io::Result<bool> {
        Ok(false)
    }
    fn running(&self) -> std::io::Result<bool> {
        Ok(false)
    }
    fn cp(&self, _: String, _: String) -> std::io::Result<bool> {
        Ok(true)
    }
    fn exec(&self, cmd: String) -> std::io::Result<()> {
        self.exec_calls.borrow_mut().push(cmd);
        if self.exec_result {
            Ok(())
        } else {
            Err(std::io::Error::new(std::io::ErrorKind::Other, "exec failed (mock)"))
        }
    }
    fn exec_raw(&self, prog: &str, args: &[&str]) -> std::io::Result<()> {
        self.exec_raw_calls
            .borrow_mut()
            .push((prog.to_string(), args.iter().map(|s| (*s).to_string()).collect()));
        if self.exec_result {
            Ok(())
        } else {
            Err(std::io::Error::new(std::io::ErrorKind::Other, "exec_raw failed (mock)"))
        }
    }
}

fn config_named(name: &str) -> Config {
    Config {
        name: name.to_string(),
        image: None,
        build: None,
        forward_ports: vec![],
        initialize_command: None,
        on_create_command: None,
        update_content_command: None,
        post_create_command: None,
        post_start_command: None,
        post_attach_command: None,
        remote_user: "root".to_string(),
        run_args: vec![],
        override_command: false,
        mounts: None,
        remote_env: vec![],
        docker_compose_file: None,
        service: None,
        selinux_relabel: None,
        workspace_folder: "/workspace".to_string(),
        shutdown_action: ShutdownAction::default(),
    }
}

fn s(v: &str) -> String {
    v.to_string()
}

#[test]
fn exec_hook_one_uses_exec() {
    let provider = MockProvider::new();
    let hook = OneOrMany::One("echo hello".to_string());
    exec_hook(&provider, &hook).unwrap();
    assert_eq!(*provider.exec_calls.borrow(), vec!["echo hello"]);
    assert!(provider.exec_raw_calls.borrow().is_empty());
}

#[test]
fn exec_hook_many_uses_exec_raw_not_exec() {
    let provider = MockProvider::new();
    let hook = OneOrMany::Many(vec!["npm".to_string(), "install".to_string()]);
    exec_hook(&provider, &hook).unwrap();
    assert!(provider.exec_calls.borrow().is_empty());
    let raw_calls = provider.exec_raw_calls.borrow();
    assert_eq!(raw_calls.len(), 1);
    assert_eq!(raw_calls[0].0, "npm");
    assert_eq!(raw_calls[0].1, vec!["install"]);
}

#[test]
fn exec_hook_many_preserves_args_with_spaces() {
    let provider = MockProvider::new();
    let hook = OneOrMany::Many(vec![
        "echo".to_string(),
        "hello world".to_string(),
        "foo bar".to_string(),
    ]);
    exec_hook(&provider, &hook).unwrap();
    assert!(provider.exec_calls.borrow().is_empty());
    let raw_calls = provider.exec_raw_calls.borrow();
    assert_eq!(raw_calls.len(), 1);
    assert_eq!(raw_calls[0].0, "echo");
    assert_eq!(raw_calls[0].1, vec!["hello world", "foo bar"]);
}

#[test]
fn exec_hook_many_empty_returns_ok() {
    let provider = MockProvider::new();
    let hook = OneOrMany::Many(vec![]);
    exec_hook(&provider, &hook).expect("empty Many hook should succeed");
    assert!(provider.exec_calls.borrow().is_empty());
    assert!(provider.exec_raw_calls.borrow().is_empty());
}

#[test]
fn exec_hook_failure_is_passed_on() {
    let provider = MockProvider::failing();
    let hook = OneOrMany::One("false".to_string());
    let err = exec_hook(&provider, &hook).expect_err("a failing exec must fail the hook");
    assert_eq!(err.to_string(), "exec failed (mock)");
    let raw = OneOrMany::Many(vec![s("false")]);
    let err = exec_hook(&provider, &raw).expect_err("a failing exec_raw must fail the hook");
    assert_eq!(err.to_string(), "exec_raw failed (mock)");
}

#[test]
fn is_confirmed_y_lowercase() {
    assert!(is_confirmed("y"));
}

#[test]
fn is_confirmed_y_uppercase() {
    assert!(is_confirmed("Y"));
}

#[test]
fn is_confirmed_y_with_whitespace() {
    assert!(is_confirmed("  y\n"));
}

#[test]
fn is_confirmed_n_is_false() {
    assert!(!is_confirmed("n"));
}

#[test]
fn is_confirmed_empty_is_false() {
    assert!(!is_confirmed(""));
}

#[test]
fn is_confirmed_yes_is_false() {
    assert!(!is_confirmed("yes"));
}

#[test]
fn is_confirmed_uppercase_with_tabs_and_crlf() {
    assert!(is_confirmed("\tY\r\n"));
    assert!(!is_confirmed("y y"));
}

#[test]
fn root_user_triggers_warning() {
    assert!(should_warn_root("root", false));
}

#[test]
fn uid_zero_triggers_warning() {
    assert!(should_warn_root("0", false));
}

#[test]
fn empty_user_triggers_warning() {
    assert!(should_warn_root("", false));
}

#[test]
fn non_root_user_no_warning() {
    assert!(!should_warn_root("vscode", false));
}

#[test]
fn root_user_suppressed_with_no_root_check() {
    assert!(!should_warn_root("root", true));
}

#[test]
fn root_user_with_surrounding_space_triggers_warning() {
    assert!(should_warn_root("  root ", false));
    assert!(should_warn_root("   ", false));
    assert!(!should_warn_root("Root", false));
}

#[test]
fn to_exec_parts_string() {
    let v = OneOrMany::One("echo hello".to_string());
    let (prog, args) = v.to_exec_parts().unwrap();
    assert_eq!(prog, "sh");
    assert_eq!(args, vec!["-c", "echo hello"]);
}

#[test]
fn to_exec_parts_array() {
    let v = OneOrMany::Many(vec!["npm".to_string(), "install".to_string()]);
    let (prog, args) = v.to_exec_parts().unwrap();
    assert_eq!(prog, "npm");
    assert_eq!(args, vec!["install"]);
}

#[test]
fn to_exec_parts_empty_array() {
    let v = OneOrMany::Many(vec![]);
    assert!(v.to_exec_parts().is_none());
}

#[test]
fn to_exec_parts_array_gives_back_the_array() {
    let parts = vec![s("cargo"), s("test"), s("--all"), s("a b")];
    let v = OneOrMany::Many(parts.clone());
    let (prog, args) = v.to_exec_parts().unwrap();
    let mut back = vec![prog];
    back.extend(args);
    assert_eq!(back, parts);
}

#[test]
fn safe_name_strips_unicode_and_returns_error_when_empty() {
    let config = config_named("\u{4e2d}\u{6587}");
    let result = config.safe_name();
    assert!(result.is_err(), "all-unicode name should produce an error");
    let msg = result.unwrap_err().message();
    assert!(msg.contains("ASCII"), "error message should mention ASCII");
}

#[test]
fn safe_name_prepends_dev_when_starts_with_dash() {
    let config = config_named("-myproject");
    let name = config.safe_name().expect("should succeed");
    assert!(
        name.starts_with("devcont-dev-"),
        "name starting with '-' should get 'dev-' prefix, got: {name}"
    );
}

#[test]
fn safe_name_lowercases_and_replaces_spaces() {
    let config = config_named("My Project!");
    assert_eq!(config.safe_name().unwrap(), "devcont-my-project");
    assert_eq!(config.name_notice(), None);
}

#[test]
fn safe_name_error_message_is_exact() {
    let config = config_named("\u{4e2d}\u{6587}");
    match config.safe_name() {
        Err(Error::InvalidConfig(m)) => assert_eq!(
            m,
            "Cannot derive a container name from project name '\u{4e2d}\u{6587}'. Rename the project to use ASCII characters."
        ),
        other => panic!("unexpected: {other:?}"),
    }
}

#[test]
fn safe_name_notice_when_dev_prefix_added() {
    let config = config_named("_tools");
    assert_eq!(config.safe_name().unwrap(), "devcont-dev-_tools");
    assert_eq!(
        config.name_notice().unwrap(),
        "notice: container name derived from '_tools' starts with a non-alphanumeric character; prepending 'dev-'"
    );
}

#[test]
fn safe_names_are_valid_container_names() {
    for name in ["Web App", "-x", "a", ".hidden", "Ünïcode project 2", "__"] {
        let n = config_named(name).safe_name().unwrap();
        assert!(n.starts_with("devcont-"));
        let mut chars = n.chars();
        assert!(chars.next().unwrap().is_ascii_alphanumeric());
        assert!(chars.all(|c| c.is_ascii_alphanumeric() || c == '_' || c == '.' || c == '-'));
    }
}

#[test]
fn should_shutdown_and_is_compose() {
    let mut config = config_named("p");
    assert!(config.should_shutdown());
    config.shutdown_action = ShutdownAction::NoShutdown;
    assert!(!config.should_shutdown());
    config.shutdown_action = ShutdownAction::StopCompose;
    assert!(config.should_shutdown());
    assert!(!config.is_compose());
    config.docker_compose_file = Some(s("docker-compose.yml"));
    assert!(config.is_compose());
}

#[test]
fn dockerfile_and_build_args_from_build_block() {
    let mut config = config_named("p");
    assert_eq!(config.dockerfile(), None);
    assert!(config.build_args().is_empty());
    config.build = Some(devcont::devcontainers::config::Build {
        dockerfile: Some(s("Dockerfile")),
        context: None,
        args: vec![(s("A"), s("1"))],
    });
    assert_eq!(config.dockerfile(), Some(s("Dockerfile")));
    assert_eq!(config.build_args(), vec![(s("A"), s("1"))]);
}

#[test]
fn empty_args_ok() {
    assert!(validate_run_args(&[]).is_ok());
}

#[test]
fn allowed_env_flag_passes() {
    let args = vec![s("--env"), s("FOO=bar")];
    assert!(validate_run_args(&args).is_ok());
}

#[test]
fn allowed_env_flag_with_equals_passes() {
    let args = vec![s("--env=FOO=bar")];
    assert!(validate_run_args(&args).is_ok());
}

#[test]
fn allowed_network_flag_passes() {
    let args = vec![s("--network"), s("bridge")];
    assert!(validate_run_args(&args).is_ok());
}

#[test]
fn allowed_short_flags_pass() {
    let args = vec![s("-e"), s("FOO=bar"), s("-p"), s("8080:8080")];
    assert!(validate_run_args(&args).is_ok());
}

#[test]
fn denied_privileged_aborts() {
    let args = vec![s("--privileged")];
    let result = validate_run_args(&args);
    assert!(result.is_err());
    let msg = result.unwrap_err();
    assert!(
        msg.contains("privileged"),
        "error message should contain 'privileged', got: {msg}"
    );
}

#[test]
fn denied_cap_add_aborts() {
    let args = vec![s("--cap-add"), s("SYS_ADMIN")];
    let result = validate_run_args(&args);
    assert!(result.is_err());
    let msg = result.unwrap_err();
    assert!(
        msg.contains("cap-add"),
        "error message should contain 'cap-add', got: {msg}"
    );
}

#[test]
fn denied_cap_add_with_equals_aborts() {
    let args = vec![s("--cap-add=SYS_ADMIN")];
    let result = validate_run_args(&args);
    assert!(result.is_err());
    let msg = result.unwrap_err();
    assert!(
        msg.contains("cap-add"),
        "error message should contain 'cap-add', got: {msg}"
    );
}

#[test]
fn denied_security_opt_aborts() {
    let args = vec![s("--security-opt"), s("apparmor=unconfined")];
    let result = validate_run_args(&args);
    assert!(result.is_err());
    let msg = result.unwrap_err();
    assert!(msg.contains("security-opt"));
}

#[test]
fn unknown_flag_warns_but_passes() {
    let args = vec![s("--unknown-flag")];
    let result = validate_run_args(&args);
    assert!(
        result.is_ok(),
        "unknown flags should warn but not abort, got: {result:?}"
    );
}

#[test]
fn mixed_allowed_and_value_args_pass() {
    let args = vec![
        s("--env"),
        s("MY_VAR=hello"),
        s("--network"),
        s("host"),
        s("--label"),
        s("project=myapp"),
    ];
    assert!(validate_run_args(&args).is_ok());
}

#[test]
fn denied_flag_among_allowed_aborts() {
    let args = vec![
        s("--env"),
        s("FOO=bar"),
        s("--privileged"),
        s("--network"),
        s("bridge"),
    ];
    let result = validate_run_args(&args);
    assert!(result.is_err());
    assert!(result.unwrap_err().contains("privileged"));
}

#[test]
fn denied_message_names_the_first_denied_flag() {
    let args = vec![s("--device=/dev/kvm"), s("--privileged")];
    assert_eq!(
        validate_run_args(&args).unwrap_err(),
        "runArgs contains denied flag '--device': privilege-escalating flags are not allowed"
    );
}

#[test]
fn unknown_flag_warnings_before_the_first_denied_flag() {
    let args = vec![
        s("--foo=1"),
        s("value"),
        s("--env"),
        s("-z"),
        s("--pid=host"),
        s("--later"),
    ];
    assert_eq!(
        run_args_warnings(&args),
        vec![
            "warning: runArgs contains unknown flag '--foo'; allowing but not validated",
            "warning: runArgs contains unknown flag '-z'; allowing but not validated",
        ]
    );
    assert!(run_args_warnings(&[s("--env"), s("X=1")]).is_empty());
}

#[test]
fn error_messages_of_each_variant() {
    assert_eq!(
        Error::ConfigParse(s("bad")).message(),
        "Failed to parse devcontainer config: bad"
    );
    assert_eq!(Error::SettingsLoad(s("x")).message(), "Failed to load settings: x");
    assert_eq!(Error::InvalidConfig(s("y")).message(), "Invalid configuration: y");
    assert_eq!(Error::HookFailed(s("z")).message(), "Lifecycle hook failed \u{2014} z");
    assert_eq!(Error::ProviderError(s("w")).message(), "Provider error: w");
    let io = Error::Io(std::io::Error::new(std::io::ErrorKind::Other, "disk gone"));
    assert_eq!(io.message(), "I/O error: disk gone");
}

#[test]
fn confirmation_of_a_lowercased_answer() {
    assert!(is_confirmed_lowercase("y"));
    assert!(!is_confirmed_lowercase("Y"));
    assert!(!is_confirmed_lowercase("yes"));
    assert!(!is_confirmed_lowercase(""));
}

#[test]
fn str_refs_keeps_every_string() {
    let v = vec![s("a b"), s(""), s("c")];
    assert_eq!(str_refs(&v), vec!["a b", "", "c"]);
}
