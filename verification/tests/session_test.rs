use devcont::devcontainers::config::{Config, ShutdownAction};
use devcont::devcontainers::lifecycle::{Action, Event, Phase, Session, SessionOptions};
use devcont::devcontainers::one_or_many::OneOrMany;
use devcont::devcontainers::{Devcontainer, HookCall};
use devcont::error::FailureKind;
use devcont::settings::Settings;

fn s(v: &str) -> String {
    v.to_string()
}

fn config_named(name: &str) -> Config {
    Config {
        name: name.to_string(),
        image: Some(s("alpine")),
        build: None,
        forward_ports: vec![],
        initialize_command: None,
        on_create_command: None,
        update_content_command: None,
        post_create_command: None,
        post_start_command: None,
        post_attach_command: None,
        remote_user: "root".to_string(),
        run_args: vec![],
        override_command: false,
        mounts: None,
        remote_env: vec![],
        docker_compose_file: None,
        service: None,
        selinux_relabel: None,
        workspace_folder: "/workspace".to_string(),
        shutdown_action: ShutdownAction::default(),
    }
}

fn load(config: Config) -> Devcontainer {
    Devcontainer::load("/ws", config, Settings::default(), false).expect("config should load")
}

/// How the outside world answers a session's actions.
struct World {
    exists: bool,
    running: bool,
    exec_ok: bool,
    answer: String,
    host_ok: bool,
    host_files: Vec<(String, bool)>,
    log: Vec<String>,
}

impl World {
    fn new() -> Self {
        World {
            exists: false,
            running: false,
            exec_ok: true,
            answer: s("n"),
            host_ok: true,
            host_files: vec![],
            log: vec![],
        }
    }

    fn failing() -> Self {
        World { exec_ok: false, ..World::new() }
    }

    fn respond(&mut self, a: &Action) -> Option<Event> {
        let ev = match a {
            Action::Warn(m) => {
                self.log.push(format!("warn {m}"));
                Event::Done
            },
            Action::Prompt(notice, q) => {
                self.log.push(format!("prompt {notice} / {q}"));
                Event::Answer(self.answer.clone())
            },
            Action::RunOnHost(p, args) => {
                self.log.push(format!("host {p} {}", args.join(" ")));
                Event::Flag(self.host_ok)
            },
            Action::CheckExists => {
                self.log.push(s("exists?"));
                Event::Flag(self.exists)
            },
            Action::Stop => {
                self.log.push(s("stop"));
                Event::Flag(true)
            },
            Action::Remove => {
                self.log.push(s("rm"));
                self.exists = false;
                Event::Flag(true)
            },
            Action::Build(c) => {
                self.log.push(format!("build {c}"));
                Event::Flag(true)
            },
            Action::Create(args) => {
                self.log.push(format!("create {}", args.join(" ")));
                self.exists = true;
                Event::Flag(true)
            },
            Action::CheckRunning => {
                self.log.push(s("running?"));
                Event::Flag(self.running)
            },
            Action::Start => {
                self.log.push(s("start"));
                Event::Flag(true)
            },
            Action::Restart => {
                self.log.push(s("restart"));
                Event::Flag(true)
            },
            Action::Attach => {
                self.log.push(s("attach"));
                Event::Flag(true)
            },
            Action::Exec(c) => {
                self.log.push(format!("exec {c}"));
                if self.exec_ok {
                    Event::Done
                } else {
                    Event::Failed(std::io::Error::new(std::io::ErrorKind::Other, "exec failed (mock)"))
                }
            },
            Action::ExecHook(h) => {
                match h {
                    HookCall::Shell(c) => self.log.push(format!("hook sh {c}")),
                    HookCall::Direct(p, args) => self.log.push(format!("hook {p} {}", args.join(" "))),
                }
                if self.exec_ok {
                    Event::Done
                } else {
                    Event::Failed(std::io::Error::new(std::io::ErrorKind::Other, "exec failed (mock)"))
                }
            },
            Action::Copy(a, b) => {
                self.log.push(format!("cp {a} {b}"));
                Event::Flag(true)
            },
            Action::Inspect(p) => {
                self.log.push(format!("inspect {p}"));
                let found = self.host_files.iter().find(|(f, _)| p.ends_with(f.as_str()));
                match found {
                    Some((_, is_dir)) => Event::Path { exists: true, is_dir: *is_dir },
                    None => Event::Path { exists: false, is_dir: false },
                }
            },
            Action::Fail(_) | Action::FailIo(_) | Action::FailIoWithContext(_, _) | Action::Finish => return None,
        };
        Some(ev)
    }
}

/// Drive `session` to its end; returns the final action.
fn drive(dc: &Devcontainer, session: &mut Session, world: &mut World) -> Action {
    let mut action = session.step(dc, Event::Begin);
    for _ in 0..500 {
        match world.respond(&action) {
            Some(ev) => action = session.step(dc, ev),
            None => return action,
        }
    }
    panic!("session did not end");
}

fn options(use_cache: bool, trust: bool, no_root_check: bool) -> SessionOptions {
    SessionOptions { use_cache, trust, no_root_check }
}

/// The message that a failed hook is reported with.
fn failure_text(a: &Action) -> String {
    match a {
        Action::FailIoWithContext(e, name) => format!("{name}: {e}"),
        Action::FailIo(e) => e.to_string(),
        Action::Fail(f) => f.message.clone(),
        other => panic!("session did not fail: {other:?}"),
    }
}

fn config_with_hook(field: &str, cmd: &str) -> Config {
    let mut c = config_named("test");
    let hook = Some(OneOrMany::One(s(cmd)));
    match field {
        "postCreateCommand" => c.post_create_command = hook,
        "postStartCommand" => c.post_start_command = hook,
        "postAttachCommand" => c.post_attach_command = hook,
        "onCreateCommand" => c.on_create_command = hook,
        "updateContentCommand" => c.update_content_command = hook,
        _ => panic!("unknown hook"),
    }
    c
}

#[test]
fn run_aborts_on_post_create_hook_failure() {
    let dc = load(config_with_hook("postCreateCommand", "npm install"));
    let mut session = dc.run(true, true, true);
    let end = drive(&dc, &mut session, &mut World::failing());
    let msg = failure_text(&end);
    assert!(
        msg.contains("postCreateCommand"),
        "error message should mention 'postCreateCommand', got: {msg}"
    );
}

#[test]
fn run_aborts_on_post_start_hook_failure() {
    let dc = load(config_with_hook("postStartCommand", "start.sh"));
    let mut session = dc.run(true, true, true);
    let end = drive(&dc, &mut session, &mut World::failing());
    let msg = failure_text(&end);
    assert!(
        msg.contains("postStartCommand"),
        "error message should mention 'postStartCommand', got: {msg}"
    );
}

#[test]
fn run_aborts_on_post_attach_hook_failure() {
    let dc = load(config_with_hook("postAttachCommand", "attach.sh"));
    let mut session = dc.run(true, true, true);
    let end = drive(&dc, &mut session, &mut World::failing());
    let _ = failure_text(&end);
}

#[test]
fn run_aborts_on_on_create_hook_failure() {
    let dc = load(config_with_hook("onCreateCommand", "on-create.sh"));
    let mut session = dc.run(true, true, true);
    let end = drive(&dc, &mut session, &mut World::failing());
    let msg = failure_text(&end);
    assert!(
        msg.contains("onCreateCommand"),
        "error message should mention 'onCreateCommand', got: {msg}"
    );
}

#[test]
fn run_aborts_on_update_content_hook_failure() {
    let dc = load(config_with_hook("updateContentCommand", "update.sh"));
    let mut session = dc.run(true, true, true);
    let end = drive(&dc, &mut session, &mut World::failing());
    let msg = failure_text(&end);
    assert!(
        msg.contains("updateContentCommand"),
        "error message should mention 'updateContentCommand', got: {msg}"
    );
}

#[test]
fn hook_failure_carries_the_engine_error() {
    let dc = load(config_with_hook("postCreateCommand", "npm install"));
    let mut session = dc.run(true, true, true);
    let end = drive(&dc, &mut session, &mut World::failing());
    assert_eq!(failure_text(&end), "postCreateCommand: exec failed (mock)");
    assert!(matches!(session.phase, Phase::Finished));
}

#[test]
fn fresh_container_runs_everything_in_order() {
    let mut config = config_named("p");
    config.post_start_command = Some(OneOrMany::One(s("a")));
    config.on_create_command = Some(OneOrMany::Many(vec![s("b"), s("x y")]));
    config.update_content_command = Some(OneOrMany::One(s("c")));
    config.post_create_command = Some(OneOrMany::One(s("d")));
    config.post_attach_command = Some(OneOrMany::One(s("e")));
    config.remote_env = vec![(s("K"), s("V"))];
    config.shutdown_action = ShutdownAction::NoShutdown;
    let dc = load(config);
    let mut world = World::new();
    let mut session = Session::start(options(false, false, true));
    let end = drive(&dc, &mut session, &mut world);
    assert!(matches!(end, Action::Finish), "{end:?}");
    assert_eq!(
        world.log,
        vec![
            s("exists?"),
            s("build false"),
            s("create -e K=V -w /workspace"),
            s("running?"),
            s("start"),
            s("hook sh a"),
            s("hook b x y"),
            s("hook sh c"),
            s("hook sh d"),
            world.log[9].clone(),
            s("restart"),
            s("attach"),
            s("hook sh e"),
        ]
    );
    assert!(world.log[9].starts_with("inspect ") && world.log[9].ends_with("/.gitconfig"));
}

#[test]
fn existing_running_container_is_not_built_and_is_stopped_at_the_end() {
    let dc = load(config_named("p"));
    let mut world = World { exists: true, running: true, ..World::new() };
    let mut session = Session::start(options(true, true, true));
    let end = drive(&dc, &mut session, &mut world);
    assert!(matches!(end, Action::Finish));
    assert!(!world.log.iter().any(|l| l.starts_with("build") || l.starts_with("create") || l == "start"));
    assert_eq!(world.log.last().unwrap(), "stop");
}

#[test]
fn root_warning_before_the_running_check() {
    let dc = load(config_named("p"));
    let mut world = World { exists: true, ..World::new() };
    let mut session = Session::start(options(true, true, false));
    drive(&dc, &mut session, &mut world);
    assert_eq!(world.log[0], "exists?");
    assert_eq!(
        world.log[1],
        "warn warning: container will run as root. Consider setting `remoteUser` in devcontainer.json, or pass --no-root-check to suppress this warning."
    );
    assert_eq!(world.log[2], "running?");
}

#[test]
fn untrusted_initialize_command_declined() {
    let mut config = config_named("p");
    config.initialize_command = Some(OneOrMany::Many(vec![s("echo"), s("hi")]));
    let dc = load(config);
    let mut world = World::new();
    let mut session = Session::start(options(true, false, true));
    let end = drive(&dc, &mut session, &mut world);
    match &end {
        Action::Fail(f) => {
            assert_eq!(f.kind, FailureKind::Other);
            assert_eq!(f.message, "initializeCommand declined by user");
        },
        other => panic!("unexpected {other:?}"),
    }
    assert_eq!(
        world.log,
        vec![s("prompt initializeCommand will run on the host: echo hi / Run initializeCommand on host? [y/N] ")]
    );
}

#[test]
fn untrusted_initialize_command_confirmed_runs_on_host() {
    let mut config = config_named("p");
    config.initialize_command = Some(OneOrMany::One(s("echo hi")));
    let dc = load(config);
    let mut world = World { answer: s(" Y\n"), exists: true, running: true, ..World::new() };
    let mut session = Session::start(options(true, false, true));
    drive(&dc, &mut session, &mut world);
    assert_eq!(world.log[1], "host sh -c echo hi");
    assert_eq!(world.log[2], "exists?");
}

#[test]
fn trusted_initialize_command_runs_without_prompt() {
    let mut config = config_named("p");
    config.initialize_command = Some(OneOrMany::One(s("make init")));
    let dc = load(config);
    let mut world = World { exists: true, running: true, ..World::new() };
    let mut session = Session::start(options(true, true, true));
    drive(&dc, &mut session, &mut world);
    assert_eq!(world.log[0], "warn initializeCommand trusted, running on host.");
    assert_eq!(world.log[1], "host sh -c make init");
    assert!(!world.log.iter().any(|l| l.starts_with("prompt")));
}

#[test]
fn failing_initialize_command_ends_the_session() {
    let mut config = config_named("p");
    config.initialize_command = Some(OneOrMany::One(s("false")));
    let dc = load(config);
    let mut world = World { host_ok: false, ..World::new() };
    let mut session = Session::start(options(true, true, true));
    let end = drive(&dc, &mut session, &mut world);
    assert_eq!(failure_text(&end), "initializeCommand declined by user");
    assert!(!world.log.iter().any(|l| l == "exists?"));
}

#[test]
fn rebuild_stops_and_removes_an_existing_container_first() {
    let dc = load(config_named("p"));
    let mut world = World { exists: true, ..World::new() };
    let mut session = dc.rebuild(true, true, true);
    drive(&dc, &mut session, &mut world);
    assert_eq!(world.log[..6], [s("exists?"), s("stop"), s("rm"), s("exists?"), s("build true"), s("create -w /workspace")]);
}

#[test]
fn rebuild_without_container_goes_straight_to_run() {
    let dc = load(config_named("p"));
    let mut world = World::new();
    let mut session = Session::rebuild(options(true, true, true));
    drive(&dc, &mut session, &mut world);
    assert_eq!(world.log[..3], [s("exists?"), s("exists?"), s("build true")]);
}

#[test]
fn run_args_warnings_then_denied_flag() {
    let mut config = config_named("p");
    config.run_args = vec![s("--odd"), s("--cap-add=ALL")];
    let dc = load(config);
    let mut world = World::new();
    let mut session = Session::start(options(true, true, true));
    let end = drive(&dc, &mut session, &mut world);
    assert_eq!(
        world.log,
        vec![s("warn warning: runArgs contains unknown flag '--odd'; allowing but not validated")]
    );
    match &end {
        Action::Fail(f) => {
            assert_eq!(f.kind, FailureKind::InvalidInput);
            assert_eq!(
                f.message,
                "runArgs contains denied flag '--cap-add': privilege-escalating flags are not allowed"
            );
        },
        other => panic!("unexpected {other:?}"),
    }
}

#[test]
fn gitconfig_and_dotfiles_are_copied() {
    let mut config = config_named("p");
    config.remote_user = s("vscode");
    config.shutdown_action = ShutdownAction::NoShutdown;
    let settings = Settings { dotfiles: vec![s(".config/nvim")], provider: devcont::settings::Provider::Docker };
    let dc = Devcontainer::load("/ws", config, settings, false).unwrap();
    let mut world = World {
        exists: true,
        running: true,
        host_files: vec![(s("/.gitconfig"), false), (s("/.config/nvim"), true)],
        ..World::new()
    };
    let mut session = Session::start(options(true, true, true));
    let end = drive(&dc, &mut session, &mut world);
    assert!(matches!(end, Action::Finish), "{end:?}");
    let rest: Vec<String> = world.log[2..].to_vec();
    assert!(rest[0].starts_with("inspect ") && rest[0].ends_with("/.gitconfig"));
    assert_eq!(rest[1], "exec mkdir -p -- '/home/vscode'");
    assert!(rest[2].starts_with("cp ") && rest[2].ends_with(" /home/vscode/.gitconfig"));
    assert!(rest[3].starts_with("inspect ") && rest[3].ends_with("/.config/nvim"));
    assert_eq!(rest[4], "exec mkdir -p -- '/home/vscode/.config'");
    assert!(rest[5].starts_with("cp ") && rest[5].ends_with(" /home/vscode/.config"));
    assert_eq!(rest[6..], [s("restart"), s("attach")]);
}

#[test]
fn missing_dotfile_fails_with_not_found() {
    let settings = Settings { dotfiles: vec![s(".zshrc-missing")], provider: devcont::settings::Provider::Docker };
    let dc = Devcontainer::load("/ws", config_named("p"), settings, false).unwrap();
    let mut world = World { exists: true, running: true, ..World::new() };
    let mut session = Session::start(options(true, true, true));
    let end = drive(&dc, &mut session, &mut world);
    match &end {
        Action::Fail(f) => {
            assert_eq!(f.kind, FailureKind::NotFound);
            assert!(f.message.starts_with("File not found \""), "{}", f.message);
            assert!(f.message.ends_with(".zshrc-missing\""), "{}", f.message);
        },
        other => panic!("unexpected {other:?}"),
    }
}

#[test]
fn engine_failure_ends_the_session_and_finished_stays_finished() {
    let dc = load(config_named("p"));
    let mut session = Session::start(options(true, true, true));
    let a = session.step(&dc, Event::Begin);
    assert!(matches!(a, Action::CheckExists));
    let a = session.step(&dc, Event::Failed(std::io::Error::new(std::io::ErrorKind::NotFound, "docker: not found")));
    assert_eq!(failure_text(&a), "docker: not found");
    let a = session.step(&dc, Event::Flag(true));
    assert!(matches!(a, Action::Finish));
    assert!(matches!(session.phase, Phase::Finished));
}

#[test]
fn unexpected_event_fails_the_session() {
    let dc = load(config_named("p"));
    let mut session = Session::start(options(true, true, true));
    let a = session.step(&dc, Event::Done);
    match a {
        Action::Fail(f) => {
            assert_eq!(f.kind, FailureKind::Other);
            assert_eq!(f.message, "session received an event that does not answer its last action");
        },
        other => panic!("unexpected {other:?}"),
    }
}

#[test]
fn unnameable_project_fails_before_anything_runs() {
    let mut config = config_named("p");
    config.name = s("\u{4e2d}\u{6587}");
    let dc = Devcontainer {
        config,
        provider: load(config_named("p")).provider,
        settings: Settings::default(),
        warnings: vec![],
    };
    let mut world = World::new();
    let mut session = Session::start(options(true, true, true));
    let end = drive(&dc, &mut session, &mut world);
    assert!(world.log.is_empty());
    assert!(failure_text(&end).starts_with("Invalid configuration: Cannot derive a container name"));
}

#[test]
fn existing_container_skips_on_create_and_post_create() {
    let mut config = config_named("p");
    config.post_start_command = Some(OneOrMany::One(s("start.sh")));
    config.on_create_command = Some(OneOrMany::One(s("on-create.sh")));
    config.update_content_command = Some(OneOrMany::One(s("update.sh")));
    config.post_create_command = Some(OneOrMany::One(s("post-create.sh")));
    config.shutdown_action = ShutdownAction::NoShutdown;
    let dc = load(config);
    let mut world = World { exists: true, ..World::new() };
    let mut session = dc.run(true, true, true);
    let end = drive(&dc, &mut session, &mut world);
    assert!(matches!(end, Action::Finish), "{end:?}");
    assert_eq!(
        world.log[..5],
        [s("exists?"), s("running?"), s("start"), s("hook sh start.sh"), s("hook sh update.sh")]
    );
    assert!(world.log[5].starts_with("inspect "));
    assert_eq!(world.log[6..], [s("restart"), s("attach")]);
}

#[test]
fn created_container_runs_the_create_hooks_after_post_start() {
    let mut config = config_named("p");
    config.post_start_command = Some(OneOrMany::One(s("start.sh")));
    config.on_create_command = Some(OneOrMany::One(s("on-create.sh")));
    config.post_create_command = Some(OneOrMany::One(s("post-create.sh")));
    let dc = load(config);
    let mut world = World::new();
    let mut session = dc.run(true, true, true);
    drive(&dc, &mut session, &mut world);
    assert_eq!(
        world.log[..7],
        [
            s("exists?"),
            s("build true"),
            s("create -w /workspace"),
            s("running?"),
            s("start"),
            s("hook sh start.sh"),
            s("hook sh on-create.sh"),
        ]
    );
    assert_eq!(world.log[7], "hook sh post-create.sh");
}

#[test]
fn name_notice_is_shown_before_anything_runs() {
    let dc = load(config_named("-odd"));
    let mut world = World { exists: true, running: true, ..World::new() };
    let mut session = dc.run(true, true, true);
    drive(&dc, &mut session, &mut world);
    assert_eq!(
        world.log[0],
        "warn notice: container name derived from '-odd' starts with a non-alphanumeric character; prepending 'dev-'"
    );
    assert_eq!(world.log[1], "exists?");
}
