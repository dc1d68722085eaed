//! The decisions of a dev container session (`run` and `rebuild`).
//!
//! A [`Session`] decides, one step at a time, what outside work comes next
//! (a container engine call, a host hook, a prompt, a file check) and how the
//! result of that work is answered. The caller performs each [`Action`] and feeds
//! its outcome back as an [`Event`]:
//!
//! | action | event |
//! |---|---|
//! | `Warn` | `Done` after printing |
//! | `Prompt` | `Answer` with the line read |
//! | `RunOnHost`, engine calls, `Copy` | `Flag` with the reported status |
//! | `Exec`, `ExecHook` | `Done` |
//! | `Inspect` | `Path` |
//!
//! Any failing outside work is fed back as `Failed`.

use vstd::prelude::*;
use crate::devcontainers::config::{
    lowercase_of, name_notice_spec, safe_name_spec, underivable_name_message, Config,
};
use crate::devcontainers::copying::{
    copy_targets, copy_targets_spec, expand_home, home_dir_for, home_dir_spec, missing_file,
    missing_file_message, parent_of, path_parent, tilde_outcome,
};
use crate::devcontainers::one_or_many::{exec_parts_of, OneOrMany};
use crate::devcontainers::paths::{path_join, path_join_spec};
use crate::devcontainers::run_args::{
    denied_message, first_denied, run_args_warnings, unknown_flags, unknown_message,
    validate_run_args,
};
use crate::devcontainers::{
    create_args_spec, hook_call, hook_call_spec, hook_call_view, hook_display, hook_display_spec,
    is_confirmed, should_warn_root, warn_root_spec, Devcontainer, HookCall,
};
use crate::error::{failure, FailureKind, IoFailure};
use crate::text::{concat2, owned, trim_spec};

verus! {

/// How a session was asked to run.
#[derive(Debug, Clone, Copy)]
pub struct SessionOptions {
    /// Use the image build cache (`false` adds `--no-cache`).
    pub use_cache: bool,
    /// Run `initializeCommand` on the host without asking.
    pub trust: bool,
    /// Do not warn when the container runs as root.
    pub no_root_check: bool,
}

/// The lifecycle hooks that run inside the container, in the order they run.
#[derive(Debug, Clone, Copy, PartialEq, Eq, Structural)]
pub enum HookStage {
    PostStart,
    OnCreate,
    UpdateContent,
    PostCreate,
    PostAttach,
}

/// A pending copy of a host file into the container.
#[derive(Debug)]
pub struct CopyJob {
    pub source: String,
    pub destination: String,
    /// The dotfile to handle after this copy.
    pub next_dotfile: usize,
}

/// Where a session stands: what it waits for.
#[derive(Debug)]
pub enum Phase {
    /// Not started (`run`).
    Begin,
    /// Not started (`rebuild`).
    RebuildBegin,
    RebuildCheck,
    RebuildStop,
    RebuildRemove,
    /// The `runArgs` warning with this index was shown.
    Warning(usize),
    /// The notice that the container name got the `dev-` prefix was shown.
    NameNotice,
    TrustNotice,
    Prompted,
    HostHook,
    ExistsCheck,
    Building,
    Creating,
    /// The root warning was shown; `true` when this session created the container.
    RootWarning(bool),
    /// The running check was asked for; `true` when this session created the container.
    RunningCheck(bool),
    /// The container is being started; `true` when this session created it.
    Starting(bool),
    /// A hook of this stage runs; `true` when this session created the container.
    Hook(HookStage, bool),
    /// The host's git configuration (at this path) was looked up.
    GitconfigCheck(String),
    Mkdir(CopyJob),
    Copying(CopyJob),
    /// A dotfile (source, destination) was looked up; the number is the index
    /// of the dotfile after it.
    DotfileCheck(usize, String, String),
    Restarting,
    Attaching,
    Stopping,
    Finished,
}

/// The outcome of the last action.
#[derive(Debug)]
pub enum Event {
    /// The session starts.
    Begin,
    /// The action completed with nothing to report.
    Done,
    /// The action completed with this status (success, existence, running, ...).
    Flag(bool),
    /// The line the user typed.
    Answer(String),
    /// What the host path holds.
    Path { exists: bool, is_dir: bool },
    /// The outside work failed.
    Failed(std::io::Error),
}

/// The outside work a session asks for next.
#[derive(Debug)]
pub enum Action {
    /// Print this line on standard error.
    Warn(String),
    /// Print the first text as a line and the second as a question on standard
    /// error, then read a line from standard input.
    Prompt(String, String),
    /// Run this program with these arguments on the host.
    RunOnHost(String, Vec<String>),
    CheckExists,
    Stop,
    Remove,
    /// Build the image (`true`: with the cache).
    Build(bool),
    /// Create the container with these extra arguments.
    Create(Vec<String>),
    CheckRunning,
    Start,
    Restart,
    Attach,
    /// Run this shell command in the container.
    Exec(String),
    /// Run this lifecycle hook in the container.
    ExecHook(HookCall),
    /// Copy the host path (first) into the container (second).
    Copy(String, String),
    /// Report whether this host path exists and is a directory.
    Inspect(String),
    /// End the session with this failure.
    Fail(IoFailure),
    /// End the session with this error, as it is.
    FailIo(std::io::Error),
    /// End the session with this error, its message prefixed with the hook name.
    FailIoWithContext(std::io::Error, String),
    /// End the session successfully.
    Finish,
}

/// A session: its phase and how it was asked to run.
#[derive(Debug)]
pub struct Session {
    pub phase: Phase,
    pub options: SessionOptions,
}

/// The plain value of a phase.
pub enum PhaseV {
    Begin,
    RebuildBegin,
    RebuildCheck,
    RebuildStop,
    RebuildRemove,
    Warning(usize),
    /// The notice that the container name got the `dev-` prefix was shown.
    NameNotice,
    TrustNotice,
    Prompted,
    HostHook,
    ExistsCheck,
    Building,
    Creating,
    RootWarning(bool),
    RunningCheck(bool),
    Starting(bool),
    Hook(HookStage, bool),
    GitconfigCheck(Seq<char>),
    Mkdir(Seq<char>, Seq<char>, usize),
    Copying(Seq<char>, Seq<char>, usize),
    DotfileCheck(usize, Seq<char>, Seq<char>),
    Restarting,
    Attaching,
    Stopping,
    Finished,
}

/// The plain value of an event.
pub enum EventV {
    Begin,
    Done,
    Flag(bool),
    Answer(Seq<char>),
    Path(bool, bool),
    Failed(std::io::Error),
}

/// The plain value of an action.
pub enum ActionV {
    Warn(Seq<char>),
    Prompt(Seq<char>, Seq<char>),
    RunOnHost(Seq<char>, Seq<Seq<char>>),
    CheckExists,
    Stop,
    Remove,
    Build(bool),
    Create(Seq<Seq<char>>),
    CheckRunning,
    Start,
    Restart,
    Attach,
    Exec(Seq<char>),
    ExecHook((bool, Seq<char>, Seq<Seq<char>>)),
    Copy(Seq<char>, Seq<char>),
    Inspect(Seq<char>),
    Fail(FailureKind, Seq<char>),
    FailIo(std::io::Error),
    FailIoWithContext(std::io::Error, Seq<char>),
    Finish,
}

pub open spec fn phase_view(p: Phase) -> PhaseV {
    match p {
        Phase::Begin => PhaseV::Begin,
        Phase::RebuildBegin => PhaseV::RebuildBegin,
        Phase::RebuildCheck => PhaseV::RebuildCheck,
        Phase::RebuildStop => PhaseV::RebuildStop,
        Phase::RebuildRemove => PhaseV::RebuildRemove,
        Phase::Warning(i) => PhaseV::Warning(i),
        Phase::NameNotice => PhaseV::NameNotice,
        Phase::TrustNotice => PhaseV::TrustNotice,
        Phase::Prompted => PhaseV::Prompted,
        Phase::HostHook => PhaseV::HostHook,
        Phase::ExistsCheck => PhaseV::ExistsCheck,
        Phase::Building => PhaseV::Building,
        Phase::Creating => PhaseV::Creating,
        Phase::RootWarning(c) => PhaseV::RootWarning(c),
        Phase::RunningCheck(c) => PhaseV::RunningCheck(c),
        Phase::Starting(c) => PhaseV::Starting(c),
        Phase::Hook(s, c) => PhaseV::Hook(s, c),
        Phase::GitconfigCheck(s) => PhaseV::GitconfigCheck(s@),
        Phase::Mkdir(j) => PhaseV::Mkdir(j.source@, j.destination@, j.next_dotfile),
        Phase::Copying(j) => PhaseV::Copying(j.source@, j.destination@, j.next_dotfile),
        Phase::DotfileCheck(i, s, d) => PhaseV::DotfileCheck(i, s@, d@),
        Phase::Restarting => PhaseV::Restarting,
        Phase::Attaching => PhaseV::Attaching,
        Phase::Stopping => PhaseV::Stopping,
        Phase::Finished => PhaseV::Finished,
    }
}

pub open spec fn event_view(e: Event) -> EventV {
    match e {
        Event::Begin => EventV::Begin,
        Event::Done => EventV::Done,
        Event::Flag(b) => EventV::Flag(b),
        Event::Answer(s) => EventV::Answer(s@),
        Event::Path { exists, is_dir } => EventV::Path(exists, is_dir),
        Event::Failed(e) => EventV::Failed(e),
    }
}

pub open spec fn action_view(a: Action) -> ActionV {
    match a {
        Action::Warn(s) => ActionV::Warn(s@),
        Action::Prompt(s, q) => ActionV::Prompt(s@, q@),
        Action::RunOnHost(p, a) => ActionV::RunOnHost(p@, a.deep_view()),
        Action::CheckExists => ActionV::CheckExists,
        Action::Stop => ActionV::Stop,
        Action::Remove => ActionV::Remove,
        Action::Build(b) => ActionV::Build(b),
        Action::Create(a) => ActionV::Create(a.deep_view()),
        Action::CheckRunning => ActionV::CheckRunning,
        Action::Start => ActionV::Start,
        Action::Restart => ActionV::Restart,
        Action::Attach => ActionV::Attach,
        Action::Exec(c) => ActionV::Exec(c@),
        Action::ExecHook(c) => ActionV::ExecHook(hook_call_view(c)),
        Action::Copy(s, d) => ActionV::Copy(s@, d@),
        Action::Inspect(p) => ActionV::Inspect(p@),
        Action::Fail(f) => ActionV::Fail(f.kind, f.message@),
        Action::FailIo(e) => ActionV::FailIo(e),
        Action::FailIoWithContext(e, c) => ActionV::FailIoWithContext(e, c@),
        Action::Finish => ActionV::Finish,
    }
}

/// The message when the user declines `initializeCommand` (or it fails on the host).
pub open spec fn declined_message() -> Seq<char> {
    "initializeCommand declined by user"@
}

/// The warning when the container runs as root.
pub open spec fn root_warning_message() -> Seq<char> {
    "warning: container will run as root. Consider setting `remoteUser` in devcontainer.json, or pass --no-root-check to suppress this warning."@
}

/// The message for an event that the phase does not expect.
pub open spec fn unexpected_event_message() -> Seq<char> {
    "session received an event that does not answer its last action"@
}

/// The warnings that validating `runArgs` reports.
pub open spec fn run_arg_warnings_of(config: Config) -> Seq<Seq<char>> {
    unknown_flags(config.run_args.deep_view()).map_values(|f: Seq<char>| unknown_message(f))
}

/// The checks before anything runs, from the `i`-th `runArgs` warning on.
pub open spec fn validation_goes(dc: Devcontainer, opts: SessionOptions, i: int, p: PhaseV, a: ActionV) -> bool {
    let w = run_arg_warnings_of(dc.config);
    if 0 <= i < w.len() {
        p == PhaseV::Warning(i as usize) && a == ActionV::Warn(w[i])
    } else {
        match first_denied(dc.config.run_args.deep_view()) {
            Some(f) => p == PhaseV::Finished && a == ActionV::Fail(FailureKind::InvalidInput, denied_message(f)),
            None => match safe_name_spec(lowercase_of(dc.config.name@)) {
                None => p == PhaseV::Finished && a == ActionV::Fail(FailureKind::InvalidInput,
                    "Invalid configuration: "@ + underivable_name_message(dc.config.name@)),
                Some(_) => match name_notice_spec(dc.config.name@, lowercase_of(dc.config.name@)) {
                    Some(n) => p == PhaseV::NameNotice && a == ActionV::Warn(n),
                    None => initialize_goes(dc, opts, p, a),
                },
            },
        }
    }
}

/// Handling `initializeCommand`: announce it when trusted, else ask first.
pub open spec fn initialize_goes(dc: Devcontainer, opts: SessionOptions, p: PhaseV, a: ActionV) -> bool {
    match dc.config.initialize_command {
        None => create_goes(p, a),
        Some(h) => if opts.trust {
            p == PhaseV::TrustNotice && a == ActionV::Warn("initializeCommand trusted, running on host."@)
        } else {
            p == PhaseV::Prompted && a == ActionV::Prompt(
                "initializeCommand will run on the host: "@ + hook_display_spec(h),
                "Run initializeCommand on host? [y/N] "@,
            )
        },
    }
}

/// Running `initializeCommand` on the host (nothing to run for an empty array).
pub open spec fn host_hook_goes(dc: Devcontainer, p: PhaseV, a: ActionV) -> bool {
    match dc.config.initialize_command {
        Some(h) => match exec_parts_of(h) {
            Some((prog, args)) => p == PhaseV::HostHook && a == ActionV::RunOnHost(prog, args),
            None => create_goes(p, a),
        },
        None => create_goes(p, a),
    }
}

/// Checking whether the container exists before creating it.
pub open spec fn create_goes(p: PhaseV, a: ActionV) -> bool {
    p == PhaseV::ExistsCheck && a == ActionV::CheckExists
}

/// After the container exists: the root warning if due, then the running check.
/// `created` says whether this session created the container.
pub open spec fn after_create_goes(dc: Devcontainer, opts: SessionOptions, created: bool, p: PhaseV, a: ActionV) -> bool {
    if warn_root_spec(dc.config.remote_user@, opts.no_root_check) {
        p == PhaseV::RootWarning(created) && a == ActionV::Warn(root_warning_message())
    } else {
        p == PhaseV::RunningCheck(created) && a == ActionV::CheckRunning
    }
}

/// The hook configured for a stage.
pub open spec fn hook_of(config: Config, stage: HookStage) -> Option<OneOrMany> {
    match stage {
        HookStage::PostStart => config.post_start_command,
        HookStage::OnCreate => config.on_create_command,
        HookStage::UpdateContent => config.update_content_command,
        HookStage::PostCreate => config.post_create_command,
        HookStage::PostAttach => config.post_attach_command,
    }
}

/// The name of a stage's hook in `devcontainer.json`.
pub open spec fn stage_name(stage: HookStage) -> Seq<char> {
    match stage {
        HookStage::PostStart => "postStartCommand"@,
        HookStage::OnCreate => "onCreateCommand"@,
        HookStage::UpdateContent => "updateContentCommand"@,
        HookStage::PostCreate => "postCreateCommand"@,
        HookStage::PostAttach => "postAttachCommand"@,
    }
}

/// How many hook stages follow a stage in its group.
pub open spec fn stages_left(stage: HookStage) -> nat {
    match stage {
        HookStage::PostStart => 3,
        HookStage::OnCreate => 2,
        HookStage::UpdateContent => 1,
        HookStage::PostCreate => 0,
        HookStage::PostAttach => 0,
    }
}

/// Running the hooks from `stage` on: the first configured one, or what follows.
/// `created` says whether this session created the container.
pub open spec fn hooks_goes(dc: Devcontainer, stage: HookStage, created: bool, p: PhaseV, a: ActionV) -> bool
    decreases stages_left(stage), 1nat,
{
    let call = match hook_of(dc.config, stage) {
        Some(h) => hook_call_spec(h),
        None => None,
    };
    match call {
        Some(c) => p == PhaseV::Hook(stage, created) && a == ActionV::ExecHook(c),
        None => after_stage_goes(dc, stage, created, p, a),
    }
}

/// What follows a hook stage: after `postStartCommand` come `onCreateCommand`
/// (only when this session created the container, `created`),
/// `updateContentCommand`, and `postCreateCommand` (again only when `created`);
/// then the git configuration and the dotfiles.
pub open spec fn after_stage_goes(dc: Devcontainer, stage: HookStage, created: bool, p: PhaseV, a: ActionV) -> bool
    decreases stages_left(stage), 0nat,
{
    match stage {
        HookStage::PostStart => if created {
            hooks_goes(dc, HookStage::OnCreate, created, p, a)
        } else {
            hooks_goes(dc, HookStage::UpdateContent, created, p, a)
        },
        HookStage::OnCreate => hooks_goes(dc, HookStage::UpdateContent, created, p, a),
        HookStage::UpdateContent => if created {
            hooks_goes(dc, HookStage::PostCreate, created, p, a)
        } else {
            gitconfig_goes(p, a)
        },
        HookStage::PostCreate => gitconfig_goes(p, a),
        HookStage::PostAttach => attached_goes(dc, p, a),
    }
}

/// Looking up the host's `~/.gitconfig` (tilde expanded).
pub open spec fn gitconfig_goes(p: PhaseV, a: ActionV) -> bool {
    exists|src: Seq<char>| tilde_outcome("~/.gitconfig"@, src) && p == PhaseV::GitconfigCheck(src) && a == ActionV::Inspect(src)
}

/// Starting a copy of `src` to `dest`: create the parent directory first.
pub open spec fn copy_goes(src: Seq<char>, dest: Seq<char>, is_dir: bool, next: usize, p: PhaseV, a: ActionV) -> bool {
    let t = copy_targets_spec(dest, path_parent(dest), is_dir);
    p == PhaseV::Mkdir(src, t.1, next) && a == ActionV::Exec(t.0)
}

/// Handling the `i`-th dotfile of the settings, or restarting when none is left.
pub open spec fn dotfile_goes(dc: Devcontainer, i: int, p: PhaseV, a: ActionV) -> bool {
    if 0 <= i < dc.settings.dotfiles@.len() {
        let file = dc.settings.dotfiles@[i]@;
        let dest = path_join_spec(home_dir_spec(dc.config.remote_user@), file);
        exists|src: Seq<char>| tilde_outcome("~/"@ + file, src)
            && p == PhaseV::DotfileCheck((i + 1) as usize, src, dest) && a == ActionV::Inspect(src)
    } else {
        p == PhaseV::Restarting && a == ActionV::Restart
    }
}

/// After attaching and `postAttachCommand`: stop the container if the
/// configuration says so, then finish.
pub open spec fn attached_goes(dc: Devcontainer, p: PhaseV, a: ActionV) -> bool {
    if dc.config.shutdown_action != crate::devcontainers::config::ShutdownAction::NoShutdown {
        p == PhaseV::Stopping && a == ActionV::Stop
    } else {
        p == PhaseV::Finished && a == ActionV::Finish
    }
}

/// One step of a session: from phase `old`, on event `e`, the session moves to
/// phase `p` and asks for action `a`.
pub open spec fn step_goes(old: PhaseV, dc: Devcontainer, opts: SessionOptions, e: EventV, p: PhaseV, a: ActionV) -> bool {
    match old {
        PhaseV::Finished => p == PhaseV::Finished && a == ActionV::Finish,
        PhaseV::Hook(s, created) => match e {
            EventV::Done => after_stage_goes(dc, s, created, p, a),
            EventV::Failed(err) => p == PhaseV::Finished && a == ActionV::FailIoWithContext(err, stage_name(s)),
            _ => p == PhaseV::Finished && a == ActionV::Fail(FailureKind::Other, unexpected_event_message()),
        },
        _ => match e {
            EventV::Failed(err) => p == PhaseV::Finished && a == ActionV::FailIo(err),
            _ => regular_goes(old, dc, opts, e, p, a),
        },
    }
}

/// A step on an event that is not a failure, from a phase that is neither
/// finished nor running a hook.
pub open spec fn regular_goes(old: PhaseV, dc: Devcontainer, opts: SessionOptions, e: EventV, p: PhaseV, a: ActionV) -> bool {
    let unexpected = p == PhaseV::Finished && a == ActionV::Fail(FailureKind::Other, unexpected_event_message());
    let declined = p == PhaseV::Finished && a == ActionV::Fail(FailureKind::Other, declined_message());
    match (old, e) {
        (PhaseV::Begin, EventV::Begin) => validation_goes(dc, opts, 0, p, a),
        (PhaseV::RebuildBegin, EventV::Begin) => p == PhaseV::RebuildCheck && a == ActionV::CheckExists,
        (PhaseV::RebuildCheck, EventV::Flag(exists)) => if exists {
            p == PhaseV::RebuildStop && a == ActionV::Stop
        } else {
            validation_goes(dc, opts, 0, p, a)
        },
        (PhaseV::RebuildStop, EventV::Flag(_)) => p == PhaseV::RebuildRemove && a == ActionV::Remove,
        (PhaseV::RebuildRemove, EventV::Flag(_)) => validation_goes(dc, opts, 0, p, a),
        (PhaseV::Warning(i), EventV::Done) => validation_goes(dc, opts, i + 1, p, a),
        (PhaseV::NameNotice, EventV::Done) => initialize_goes(dc, opts, p, a),
        (PhaseV::TrustNotice, EventV::Done) => host_hook_goes(dc, p, a),
        (PhaseV::Prompted, EventV::Answer(s)) => if lowercase_of(trim_spec(s)) == "y"@ {
            host_hook_goes(dc, p, a)
        } else {
            declined
        },
        (PhaseV::HostHook, EventV::Flag(ok)) => if ok { create_goes(p, a) } else { declined },
        (PhaseV::ExistsCheck, EventV::Flag(exists)) => if exists {
            after_create_goes(dc, opts, false, p, a)
        } else {
            p == PhaseV::Building && a == ActionV::Build(opts.use_cache)
        },
        (PhaseV::Building, EventV::Flag(_)) => p == PhaseV::Creating && a == ActionV::Create(create_args_spec(dc.config)),
        (PhaseV::Creating, EventV::Flag(_)) => after_create_goes(dc, opts, true, p, a),
        (PhaseV::RootWarning(c), EventV::Done) => p == PhaseV::RunningCheck(c) && a == ActionV::CheckRunning,
        (PhaseV::RunningCheck(c), EventV::Flag(running)) => if running {
            hooks_goes(dc, HookStage::PostStart, c, p, a)
        } else {
            p == PhaseV::Starting(c) && a == ActionV::Start
        },
        (PhaseV::Starting(c), EventV::Flag(_)) => hooks_goes(dc, HookStage::PostStart, c, p, a),
        (PhaseV::GitconfigCheck(src), EventV::Path(exists, is_dir)) => if exists {
            copy_goes(src, path_join_spec(home_dir_spec(dc.config.remote_user@), ".gitconfig"@), is_dir, 0, p, a)
        } else {
            dotfile_goes(dc, 0, p, a)
        },
        (PhaseV::Mkdir(src, dest, n), EventV::Done) => p == PhaseV::Copying(src, dest, n) && a == ActionV::Copy(src, dest),
        (PhaseV::Copying(_, _, n), EventV::Flag(_)) => dotfile_goes(dc, n as int, p, a),
        (PhaseV::DotfileCheck(next, src, dest), EventV::Path(exists, is_dir)) => if exists {
            copy_goes(src, dest, is_dir, next, p, a)
        } else {
            p == PhaseV::Finished && a == ActionV::Fail(FailureKind::NotFound, missing_file_message(src))
        },
        (PhaseV::Restarting, EventV::Flag(_)) => p == PhaseV::Attaching && a == ActionV::Attach,
        (PhaseV::Attaching, EventV::Flag(_)) => hooks_goes(dc, HookStage::PostAttach, false, p, a),
        (PhaseV::Stopping, EventV::Flag(_)) => p == PhaseV::Finished && a == ActionV::Finish,
        _ => unexpected,
    }
}

/// A failure of `kind` with `message`, ending the session.
fn finish_with(kind: FailureKind, message: String) -> (r: (Phase, Action))
    ensures
        phase_view(r.0) == PhaseV::Finished,
        action_view(r.1) == ActionV::Fail(kind, message@),
{
    (Phase::Finished, Action::Fail(failure(kind, message)))
}

/// The checks before anything runs, from the `i`-th `runArgs` warning on.
fn validation(dc: &Devcontainer, opts: SessionOptions, i: usize) -> (r: (Phase, Action))
    ensures
        validation_goes(*dc, opts, i as int, phase_view(r.0), action_view(r.1)),
{
    let run_args = dc.config.run_args.as_slice();
    assert(run_args.deep_view() =~= dc.config.run_args.deep_view());
    let warnings = run_args_warnings(run_args);
    if i < warnings.len() {
        let w = warnings[i].clone();
        assert(warnings.deep_view()[i as int] == w@);
        return (Phase::Warning(i), Action::Warn(w));
    }
    match validate_run_args(run_args) {
        Err(msg) => return finish_with(FailureKind::InvalidInput, msg),
        Ok(()) => {},
    }
    match dc.config.safe_name() {
        Err(e) => {
            let msg = e.message();
            return finish_with(FailureKind::InvalidInput, msg);
        },
        Ok(_) => {},
    }
    match dc.config.name_notice() {
        Some(n) => (Phase::NameNotice, Action::Warn(n)),
        None => initialize(dc, opts),
    }
}

/// Handling `initializeCommand`.
fn initialize(dc: &Devcontainer, opts: SessionOptions) -> (r: (Phase, Action))
    ensures
        initialize_goes(*dc, opts, phase_view(r.0), action_view(r.1)),
{
    match &dc.config.initialize_command {
        None => (Phase::ExistsCheck, Action::CheckExists),
        Some(h) => {
            if opts.trust {
                (Phase::TrustNotice, Action::Warn(owned("initializeCommand trusted, running on host.")))
            } else {
                let shown = hook_display(h);
                (Phase::Prompted, Action::Prompt(
                    concat2("initializeCommand will run on the host: ", shown.as_str()),
                    owned("Run initializeCommand on host? [y/N] "),
                ))
            }
        },
    }
}

/// Running `initializeCommand` on the host.
fn host_hook(dc: &Devcontainer) -> (r: (Phase, Action))
    ensures
        host_hook_goes(*dc, phase_view(r.0), action_view(r.1)),
{
    match &dc.config.initialize_command {
        Some(h) => match h.to_exec_parts() {
            Some((prog, args)) => (Phase::HostHook, Action::RunOnHost(prog, args)),
            None => (Phase::ExistsCheck, Action::CheckExists),
        },
        None => (Phase::ExistsCheck, Action::CheckExists),
    }
}

/// After the container exists.
fn after_create(dc: &Devcontainer, opts: SessionOptions, created: bool) -> (r: (Phase, Action))
    ensures
        after_create_goes(*dc, opts, created, phase_view(r.0), action_view(r.1)),
{
    if should_warn_root(dc.config.remote_user.as_str(), opts.no_root_check) {
        (Phase::RootWarning(created), Action::Warn(owned(
            "warning: container will run as root. Consider setting `remoteUser` in devcontainer.json, or pass --no-root-check to suppress this warning.",
        )))
    } else {
        (Phase::RunningCheck(created), Action::CheckRunning)
    }
}

/// The hook configured for a stage.
fn hook_for(config: &Config, stage: HookStage) -> (r: &Option<OneOrMany>)
    ensures
        *r == hook_of(*config, stage),
{
    match stage {
        HookStage::PostStart => &config.post_start_command,
        HookStage::OnCreate => &config.on_create_command,
        HookStage::UpdateContent => &config.update_content_command,
        HookStage::PostCreate => &config.post_create_command,
        HookStage::PostAttach => &config.post_attach_command,
    }
}

/// Running the hooks from `stage` on.
fn hooks_from(dc: &Devcontainer, stage: HookStage, created: bool) -> (r: (Phase, Action))
    ensures
        hooks_goes(*dc, stage, created, phase_view(r.0), action_view(r.1)),
    decreases stages_left(stage), 1nat,
{
    let call = match hook_for(&dc.config, stage) {
        Some(h) => hook_call(h),
        None => None,
    };
    match call {
        Some(c) => (Phase::Hook(stage, created), Action::ExecHook(c)),
        None => after_stage(dc, stage, created),
    }
}

/// What follows a hook stage.
fn after_stage(dc: &Devcontainer, stage: HookStage, created: bool) -> (r: (Phase, Action))
    ensures
        after_stage_goes(*dc, stage, created, phase_view(r.0), action_view(r.1)),
    decreases stages_left(stage), 0nat,
{
    match stage {
        HookStage::PostStart => if created {
            hooks_from(dc, HookStage::OnCreate, created)
        } else {
            hooks_from(dc, HookStage::UpdateContent, created)
        },
        HookStage::OnCreate => hooks_from(dc, HookStage::UpdateContent, created),
        HookStage::UpdateContent => if created {
            hooks_from(dc, HookStage::PostCreate, created)
        } else {
            gitconfig()
        },
        HookStage::PostCreate => gitconfig(),
        HookStage::PostAttach => attached(dc),
    }
}

/// Looking up the host's git configuration.
fn gitconfig() -> (r: (Phase, Action))
    ensures
        gitconfig_goes(phase_view(r.0), action_view(r.1)),
{
    let src = expand_home("~/.gitconfig");
    let shown = src.clone();
    let r = (Phase::GitconfigCheck(src), Action::Inspect(shown));
    assert(tilde_outcome("~/.gitconfig"@, shown@) && phase_view(r.0) == PhaseV::GitconfigCheck(shown@)
        && action_view(r.1) == ActionV::Inspect(shown@));
    r
}

/// Starting a copy: create the parent directory of the destination.
fn copy_start(src: String, dest: &str, is_dir: bool, next: usize) -> (r: (Phase, Action))
    ensures
        copy_goes(src@, dest@, is_dir, next, phase_view(r.0), action_view(r.1)),
{
    let parent = parent_of(dest);
    let (mkdir, destination) = copy_targets(dest, parent, is_dir);
    (Phase::Mkdir(CopyJob { source: src, destination, next_dotfile: next }), Action::Exec(mkdir))
}

/// Handling the `i`-th dotfile, or restarting when none is left.
fn dotfile(dc: &Devcontainer, i: usize) -> (r: (Phase, Action))
    ensures
        dotfile_goes(*dc, i as int, phase_view(r.0), action_view(r.1)),
{
    if i < dc.settings.dotfiles.len() {
        let file = &dc.settings.dotfiles[i];
        let home = home_dir_for(dc.config.remote_user.as_str());
        let dest = path_join(home.as_str(), file.as_str());
        let tilded = concat2("~/", file.as_str());
        let src = expand_home(tilded.as_str());
        let shown = src.clone();
        let r = (Phase::DotfileCheck(i + 1, src, dest), Action::Inspect(shown));
        assert(tilde_outcome("~/"@ + file@, shown@));
        r
    } else {
        (Phase::Restarting, Action::Restart)
    }
}

/// After attaching: stop if configured, then finish.
fn attached(dc: &Devcontainer) -> (r: (Phase, Action))
    ensures
        attached_goes(*dc, phase_view(r.0), action_view(r.1)),
{
    if dc.config.should_shutdown() {
        (Phase::Stopping, Action::Stop)
    } else {
        (Phase::Finished, Action::Finish)
    }
}

impl Session {
    /// A session that starts (or resumes) the container.
    pub fn start(options: SessionOptions) -> (r: Session)
        ensures
            phase_view(r.phase) == PhaseV::Begin,
            r.options == options,
    {
        Session { phase: Phase::Begin, options }
    }

    /// A session that first stops and removes an existing container, then starts afresh.
    pub fn rebuild(options: SessionOptions) -> (r: Session)
        ensures
            phase_view(r.phase) == PhaseV::RebuildBegin,
            r.options == options,
    {
        Session { phase: Phase::RebuildBegin, options }
    }

    /// Take one step: answer `event` (the outcome of the last action) and return
    /// the next action.
    pub fn step(&mut self, dc: &Devcontainer, event: Event) -> (r: Action)
        ensures
            final(self).options == old(self).options,
            step_goes(phase_view(old(self).phase), *dc, old(self).options, event_view(event),
                phase_view(final(self).phase), action_view(r)),
    {
        let opts = self.options;
        let mut old_phase = Phase::Finished;
        std::mem::swap(&mut old_phase, &mut self.phase);
        let (p, a) = match old_phase {
            Phase::Finished => (Phase::Finished, Action::Finish),
            Phase::Hook(s, created) => match event {
                Event::Done => after_stage(dc, s, created),
                Event::Failed(err) => {
                    let name = match s {
                        HookStage::PostStart => owned("postStartCommand"),
                        HookStage::OnCreate => owned("onCreateCommand"),
                        HookStage::UpdateContent => owned("updateContentCommand"),
                        HookStage::PostCreate => owned("postCreateCommand"),
                        HookStage::PostAttach => owned("postAttachCommand"),
                    };
                    (Phase::Finished, Action::FailIoWithContext(err, name))
                },
                _ => finish_with(FailureKind::Other, owned("session received an event that does not answer its last action")),
            },
            other => match event {
                Event::Failed(err) => (Phase::Finished, Action::FailIo(err)),
                ev => regular_step(other, dc, opts, ev),
            },
        };
        self.phase = p;
        a
    }
}

impl Devcontainer {
    /// Build, start and attach to the dev container, running lifecycle hooks:
    /// the session that does it. If `use_cache` is `false`, the image is built
    /// with `--no-cache`.
    pub fn run(&self, use_cache: bool, trust: bool, no_root_check: bool) -> (r: Session)
        ensures
            phase_view(r.phase) == PhaseV::Begin,
            r.options == (SessionOptions { use_cache, trust, no_root_check }),
    {
        Session::start(SessionOptions { use_cache, trust, no_root_check })
    }

    /// Stop and remove the existing container, then run it fresh: the session
    /// that does it.
    pub fn rebuild(&self, use_cache: bool, trust: bool, no_root_check: bool) -> (r: Session)
        ensures
            phase_view(r.phase) == PhaseV::RebuildBegin,
            r.options == (SessionOptions { use_cache, trust, no_root_check }),
    {
        Session::rebuild(SessionOptions { use_cache, trust, no_root_check })
    }
}

/// A step on an event that is not a failure, from a phase that is neither
/// finished nor running a hook.
fn regular_step(old: Phase, dc: &Devcontainer, opts: SessionOptions, event: Event) -> (r: (Phase, Action))
    requires
        !(event is Failed),
        !(old is Finished),
        !(old is Hook),
    ensures
        regular_goes(phase_view(old), *dc, opts, event_view(event), phase_view(r.0), action_view(r.1)),
{
    let unexpected = owned("session received an event that does not answer its last action");
    let declined = owned("initializeCommand declined by user");
    match (old, event) {
        (Phase::Begin, Event::Begin) => validation(dc, opts, 0),
        (Phase::RebuildBegin, Event::Begin) => (Phase::RebuildCheck, Action::CheckExists),
        (Phase::RebuildCheck, Event::Flag(exists)) => if exists {
            (Phase::RebuildStop, Action::Stop)
        } else {
            validation(dc, opts, 0)
        },
        (Phase::RebuildStop, Event::Flag(_)) => (Phase::RebuildRemove, Action::Remove),
        (Phase::RebuildRemove, Event::Flag(_)) => validation(dc, opts, 0),
        (Phase::Warning(i), Event::Done) => {
            if i < dc.config.run_args.len() {
                validation(dc, opts, i + 1)
            } else {
                proof {
                    let w = run_arg_warnings_of(dc.config);
                    lemma_unknown_flags_len(dc.config.run_args.deep_view());
                    assert(w.len() <= dc.config.run_args@.len());
                }
                validation(dc, opts, i)
            }
        },
        (Phase::NameNotice, Event::Done) => initialize(dc, opts),
        (Phase::TrustNotice, Event::Done) => host_hook(dc),
        (Phase::Prompted, Event::Answer(s)) => if is_confirmed(s.as_str()) {
            host_hook(dc)
        } else {
            finish_with(FailureKind::Other, declined)
        },
        (Phase::HostHook, Event::Flag(ok)) => if ok {
            (Phase::ExistsCheck, Action::CheckExists)
        } else {
            finish_with(FailureKind::Other, declined)
        },
        (Phase::ExistsCheck, Event::Flag(exists)) => if exists {
            after_create(dc, opts, false)
        } else {
            (Phase::Building, Action::Build(opts.use_cache))
        },
        (Phase::Building, Event::Flag(_)) => (Phase::Creating, Action::Create(dc.create_args())),
        (Phase::Creating, Event::Flag(_)) => after_create(dc, opts, true),
        (Phase::RootWarning(c), Event::Done) => (Phase::RunningCheck(c), Action::CheckRunning),
        (Phase::RunningCheck(c), Event::Flag(running)) => if running {
            hooks_from(dc, HookStage::PostStart, c)
        } else {
            (Phase::Starting(c), Action::Start)
        },
        (Phase::Starting(c), Event::Flag(_)) => hooks_from(dc, HookStage::PostStart, c),
        (Phase::GitconfigCheck(src), Event::Path { exists, is_dir }) => if exists {
            let home = home_dir_for(dc.config.remote_user.as_str());
            let dest = path_join(home.as_str(), ".gitconfig");
            copy_start(src, dest.as_str(), is_dir, 0)
        } else {
            dotfile(dc, 0)
        },
        (Phase::Mkdir(job), Event::Done) => {
            let source = job.source.clone();
            let destination = job.destination.clone();
            (Phase::Copying(job), Action::Copy(source, destination))
        },
        (Phase::Copying(job), Event::Flag(_)) => dotfile(dc, job.next_dotfile),
        (Phase::DotfileCheck(next, src, dest), Event::Path { exists, is_dir }) => if exists {
            copy_start(src, dest.as_str(), is_dir, next)
        } else {
            let msg = missing_file(src.as_str());
            finish_with(FailureKind::NotFound, msg)
        },
        (Phase::Restarting, Event::Flag(_)) => (Phase::Attaching, Action::Attach),
        (Phase::Attaching, Event::Flag(_)) => hooks_from(dc, HookStage::PostAttach, false),
        (Phase::Stopping, Event::Flag(_)) => (Phase::Finished, Action::Finish),
        _ => finish_with(FailureKind::Other, unexpected),
    }
}

/// There are no more unknown flags than arguments.
pub proof fn lemma_unknown_flags_len(args: Seq<Seq<char>>)
    ensures
        unknown_flags(args).len() <= args.len(),
    decreases args.len(),
{
    if args.len() > 0 {
        lemma_unknown_flags_len(args.drop_first());
    }
}

/// What running the hooks from a stage can ask for: a hook, the git
/// configuration lookup, stopping (when configured), or finishing.
pub proof fn lemma_hooks_outcome(dc: Devcontainer, stage: HookStage, created: bool, p: PhaseV, a: ActionV)
    requires
        hooks_goes(dc, stage, created, p, a) || after_stage_goes(dc, stage, created, p, a),
    ensures
        (a is ExecHook && p is Hook)
            || (a is Inspect && p is GitconfigCheck)
            || (a is Stop && p is Stopping && dc.config.shutdown_action != crate::devcontainers::config::ShutdownAction::NoShutdown)
            || (a is Finish && p is Finished),
    decreases stages_left(stage), 1nat,
{
    if hooks_goes(dc, stage, created, p, a) {
        let call = match hook_of(dc.config, stage) { Some(h) => hook_call_spec(h), None => None };
        if call is None {
            lemma_after_stage_outcome(dc, stage, created, p, a);
        }
    } else {
        lemma_after_stage_outcome(dc, stage, created, p, a);
    }
}

/// What follows a hook stage (see [`lemma_hooks_outcome`]).
pub proof fn lemma_after_stage_outcome(dc: Devcontainer, stage: HookStage, created: bool, p: PhaseV, a: ActionV)
    requires
        after_stage_goes(dc, stage, created, p, a),
    ensures
        (a is ExecHook && p is Hook)
            || (a is Inspect && p is GitconfigCheck)
            || (a is Stop && p is Stopping && dc.config.shutdown_action != crate::devcontainers::config::ShutdownAction::NoShutdown)
            || (a is Finish && p is Finished),
    decreases stages_left(stage), 0nat,
{
    match stage {
        HookStage::PostStart => if created {
            lemma_hooks_outcome(dc, HookStage::OnCreate, created, p, a)
        } else {
            lemma_hooks_outcome(dc, HookStage::UpdateContent, created, p, a)
        },
        HookStage::OnCreate => lemma_hooks_outcome(dc, HookStage::UpdateContent, created, p, a),
        HookStage::UpdateContent => if created {
            lemma_hooks_outcome(dc, HookStage::PostCreate, created, p, a)
        } else {
            let src = choose|src: Seq<char>| tilde_outcome("~/.gitconfig"@, src) && p == PhaseV::GitconfigCheck(src) && a == ActionV::Inspect(src);
        },
        HookStage::PostCreate => {
            let src = choose|src: Seq<char>| tilde_outcome("~/.gitconfig"@, src) && p == PhaseV::GitconfigCheck(src) && a == ActionV::Inspect(src);
        },
        HookStage::PostAttach => {},
    }
}

/// What the checks before anything runs can ask for: a warning (a `runArgs`
/// warning, the container name notice, or the trust notice only when trusted), a
/// failure, the prompt, or the existence check.
pub proof fn lemma_validation_outcome(dc: Devcontainer, opts: SessionOptions, i: int, p: PhaseV, a: ActionV)
    requires
        validation_goes(dc, opts, i, p, a),
    ensures
        (a is Warn && p is Warning)
            || (a is Warn && p is NameNotice)
            || (a is Warn && p is TrustNotice && opts.trust)
            || (a is Fail && p is Finished)
            || (a is Prompt && p is Prompted)
            || (a is CheckExists && p is ExistsCheck),
{
}

/// What a copy's next step or a dotfile's lookup can ask for.
pub proof fn lemma_dotfile_outcome(dc: Devcontainer, i: int, p: PhaseV, a: ActionV)
    requires
        dotfile_goes(dc, i, p, a),
    ensures
        (a is Inspect && p is DotfileCheck) || (a is Restart && p is Restarting),
{
    if 0 <= i < dc.settings.dotfiles@.len() {
        let file = dc.settings.dotfiles@[i]@;
        let dest = path_join_spec(home_dir_spec(dc.config.remote_user@), file);
        let src = choose|src: Seq<char>| tilde_outcome("~/"@ + file, src)
            && p == PhaseV::DotfileCheck((i + 1) as usize, src, dest) && a == ActionV::Inspect(src);
    }
}

/// `initializeCommand` runs on the host only with consent: the step that asks
/// to run it answers either the trust notice (shown only when the session was
/// trusted, see [`law_trust_notice_needs_trust`]) or a prompt that the user
/// confirmed with `y` or `Y`.
pub proof fn law_host_hook_needs_consent(old: PhaseV, dc: Devcontainer, opts: SessionOptions, e: EventV, p: PhaseV, a: ActionV)
    requires
        step_goes(old, dc, opts, e, p, a),
        a is RunOnHost,
    ensures
        (old == PhaseV::TrustNotice && e == EventV::Done)
            || (old == PhaseV::Prompted && e is Answer && lowercase_of(trim_spec(e->Answer_0)) == "y"@),
{
    law_outcomes(old, dc, opts, e, p, a);
}

/// The trust notice (after which `initializeCommand` runs without asking) is
/// shown only in a trusted session.
pub proof fn law_trust_notice_needs_trust(old: PhaseV, dc: Devcontainer, opts: SessionOptions, e: EventV, p: PhaseV, a: ActionV)
    requires
        step_goes(old, dc, opts, e, p, a),
        p == PhaseV::TrustNotice,
    ensures
        opts.trust,
{
    law_outcomes(old, dc, opts, e, p, a);
}

/// The image is built only right after the engine reported that the container
/// does not exist, and the container is created only right after that build.
pub proof fn law_create_only_when_absent(old: PhaseV, dc: Devcontainer, opts: SessionOptions, e: EventV, p: PhaseV, a: ActionV)
    requires
        step_goes(old, dc, opts, e, p, a),
    ensures
        a is Build ==> old == PhaseV::ExistsCheck && e == EventV::Flag(false) && a == ActionV::Build(opts.use_cache),
        a is Create ==> old == PhaseV::Building && a == ActionV::Create(create_args_spec(dc.config)),
{
    law_outcomes(old, dc, opts, e, p, a);
}

/// Outside a rebuild's first steps, the container is stopped only when the
/// configuration's shutdown action asks for it.
pub proof fn law_stop_only_on_shutdown(old: PhaseV, dc: Devcontainer, opts: SessionOptions, e: EventV, p: PhaseV, a: ActionV)
    requires
        step_goes(old, dc, opts, e, p, a),
        a is Stop,
        old != PhaseV::RebuildCheck,
    ensures
        dc.config.shutdown_action != crate::devcontainers::config::ShutdownAction::NoShutdown,
{
    law_outcomes(old, dc, opts, e, p, a);
}

/// Outside work that fails ends the session: the step that receives the failure
/// finishes with that very error (named after the hook when a hook failed), and
/// asks for nothing more.
pub proof fn law_failure_ends_session(old: PhaseV, dc: Devcontainer, opts: SessionOptions, err: std::io::Error, p: PhaseV, a: ActionV)
    requires
        step_goes(old, dc, opts, EventV::Failed(err), p, a),
        old != PhaseV::Finished,
    ensures
        p == PhaseV::Finished,
        old is Hook ==> a == ActionV::FailIoWithContext(err, stage_name(old->Hook_0)),
        !(old is Hook) ==> a == ActionV::FailIo(err),
{
}

/// A finished session stays finished: every later step asks only to finish.
pub proof fn law_finished_stays_finished(dc: Devcontainer, opts: SessionOptions, e: EventV, p: PhaseV, a: ActionV)
    requires
        step_goes(PhaseV::Finished, dc, opts, e, p, a),
    ensures
        p == PhaseV::Finished,
        a == ActionV::Finish,
{
}

/// The host's `~/.gitconfig` is copied whenever it is present: once its lookup
/// finds it, the session creates the destination's parent directory in the
/// container, and then copies it to `.gitconfig` in the remote user's home.
pub proof fn law_gitconfig_copied_when_present(
    src: Seq<char>,
    is_dir: bool,
    dc: Devcontainer,
    opts: SessionOptions,
    p: PhaseV,
    a: ActionV,
    p2: PhaseV,
    a2: ActionV,
)
    requires
        step_goes(PhaseV::GitconfigCheck(src), dc, opts, EventV::Path(true, is_dir), p, a),
        step_goes(p, dc, opts, EventV::Done, p2, a2),
    ensures
        ({
            let dest = path_join_spec(home_dir_spec(dc.config.remote_user@), ".gitconfig"@);
            let t = copy_targets_spec(dest, path_parent(dest), is_dir);
            &&& a == ActionV::Exec(t.0)
            &&& a2 == ActionV::Copy(src, t.1)
            &&& p2 == PhaseV::Copying(src, t.1, 0)
        }),
{
}

/// The rank of the copy steps for the dotfile with index `n` (`0`: the git
/// configuration): copies of later dotfiles rank lower.
pub open spec fn copy_rank(dc: Devcontainer, n: int) -> nat {
    let d = dc.settings.dotfiles@.len();
    5 + 3 * (if 0 <= n <= d { (d - n) as nat } else { 0nat })
}

/// How far a phase is from the end of a session; each step lowers it (see
/// [`law_session_ends`]).
pub open spec fn phase_rank(p: PhaseV, dc: Devcontainer) -> nat {
    let d = dc.settings.dotfiles@.len();
    let w = run_arg_warnings_of(dc.config).len();
    match p {
        PhaseV::Finished => 0,
        PhaseV::Stopping => 1,
        PhaseV::Hook(HookStage::PostAttach, _) => 2,
        PhaseV::Attaching => 3,
        PhaseV::Restarting => 4,
        PhaseV::Copying(_, _, n) => copy_rank(dc, n as int),
        PhaseV::Mkdir(_, _, n) => copy_rank(dc, n as int) + 1,
        PhaseV::DotfileCheck(n, _, _) => copy_rank(dc, n as int) + 2,
        PhaseV::GitconfigCheck(_) => 3 * d + 7,
        PhaseV::Hook(HookStage::PostCreate, _) => 3 * d + 8,
        PhaseV::Hook(HookStage::UpdateContent, _) => 3 * d + 9,
        PhaseV::Hook(HookStage::OnCreate, _) => 3 * d + 10,
        PhaseV::Hook(HookStage::PostStart, _) => 3 * d + 11,
        PhaseV::Starting(_) => 3 * d + 12,
        PhaseV::RunningCheck(_) => 3 * d + 13,
        PhaseV::RootWarning(_) => 3 * d + 14,
        PhaseV::Creating => 3 * d + 15,
        PhaseV::Building => 3 * d + 16,
        PhaseV::ExistsCheck => 3 * d + 17,
        PhaseV::HostHook => 3 * d + 18,
        PhaseV::TrustNotice => 3 * d + 19,
        PhaseV::Prompted => 3 * d + 19,
        PhaseV::NameNotice => 3 * d + 20,
        PhaseV::Warning(i) => 3 * d + 21 + (if i < w { (w - i) as nat } else { 0nat }),
        PhaseV::Begin => 3 * d + 22 + w,
        PhaseV::RebuildRemove => 3 * d + 22 + w,
        PhaseV::RebuildStop => 3 * d + 23 + w,
        PhaseV::RebuildCheck => 3 * d + 24 + w,
        PhaseV::RebuildBegin => 3 * d + 25 + w,
    }
}

/// The checks from the `i`-th `runArgs` warning on lead to a phase below the
/// warnings before it.
proof fn lemma_validation_rank(dc: Devcontainer, opts: SessionOptions, i: int, p: PhaseV, a: ActionV)
    requires
        validation_goes(dc, opts, i, p, a),
        i >= 0,
    ensures
        ({
            let d = dc.settings.dotfiles@.len();
            let w = run_arg_warnings_of(dc.config).len();
            if i < w { phase_rank(p, dc) == 3 * d + 21 + (w - i) } else { phase_rank(p, dc) <= 3 * d + 20 }
        }),
{
    lemma_unknown_flags_len(dc.config.run_args.deep_view());
    assert(dc.config.run_args@.len() == dc.config.run_args.len());
}

/// Running the hooks from a stage leads no higher than that stage's hook, and
/// what follows a stage lies below it.
proof fn lemma_hooks_rank(dc: Devcontainer, stage: HookStage, created: bool, p: PhaseV, a: ActionV)
    ensures
        hooks_goes(dc, stage, created, p, a) ==> phase_rank(p, dc) <= phase_rank(PhaseV::Hook(stage, created), dc),
        after_stage_goes(dc, stage, created, p, a) ==> phase_rank(p, dc) < phase_rank(PhaseV::Hook(stage, created), dc),
    decreases stages_left(stage), 1nat,
{
    lemma_after_stage_rank(dc, stage, created, p, a);
}

/// What follows a stage lies below it (see [`lemma_hooks_rank`]).
proof fn lemma_after_stage_rank(dc: Devcontainer, stage: HookStage, created: bool, p: PhaseV, a: ActionV)
    ensures
        after_stage_goes(dc, stage, created, p, a) ==> phase_rank(p, dc) < phase_rank(PhaseV::Hook(stage, created), dc),
    decreases stages_left(stage), 0nat,
{
    match stage {
        HookStage::PostStart => if created {
            lemma_hooks_rank(dc, HookStage::OnCreate, created, p, a)
        } else {
            lemma_hooks_rank(dc, HookStage::UpdateContent, created, p, a)
        },
        HookStage::OnCreate => lemma_hooks_rank(dc, HookStage::UpdateContent, created, p, a),
        HookStage::UpdateContent => if created {
            lemma_hooks_rank(dc, HookStage::PostCreate, created, p, a)
        } else if after_stage_goes(dc, stage, created, p, a) {
            let src = choose|src: Seq<char>| tilde_outcome("~/.gitconfig"@, src)
                && p == PhaseV::GitconfigCheck(src) && a == ActionV::Inspect(src);
        },
        HookStage::PostCreate => {
            if after_stage_goes(dc, stage, created, p, a) {
                let src = choose|src: Seq<char>| tilde_outcome("~/.gitconfig"@, src)
                    && p == PhaseV::GitconfigCheck(src) && a == ActionV::Inspect(src);
            }
        },
        HookStage::PostAttach => {},
    }
}

/// Handling the `i`-th dotfile leads below the copy steps of the one before it.
proof fn lemma_dotfile_rank(dc: Devcontainer, i: int, p: PhaseV, a: ActionV)
    requires
        dotfile_goes(dc, i, p, a),
        i >= 0,
    ensures
        phase_rank(p, dc) < copy_rank(dc, i),
{
    let d = dc.settings.dotfiles@.len();
    if 0 <= i < d {
        let file = dc.settings.dotfiles@[i]@;
        let dest = path_join_spec(home_dir_spec(dc.config.remote_user@), file);
        let src = choose|src: Seq<char>| tilde_outcome("~/"@ + file, src)
            && p == PhaseV::DotfileCheck((i + 1) as usize, src, dest) && a == ActionV::Inspect(src);
        assert(dc.settings.dotfiles@.len() == dc.settings.dotfiles.len());
    }
}

/// Every session ends: each step from a phase that is not finished moves to a
/// phase of lower rank, a natural number, so a session takes finitely many steps.
pub proof fn law_session_ends(old: PhaseV, dc: Devcontainer, opts: SessionOptions, e: EventV, p: PhaseV, a: ActionV)
    requires
        step_goes(old, dc, opts, e, p, a),
        old != PhaseV::Finished,
    ensures
        phase_rank(p, dc) < phase_rank(old, dc),
{
    match old {
        PhaseV::Hook(s, c) => {
            if e == EventV::Done {
                lemma_after_stage_rank(dc, s, c, p, a);
            }
        },
        _ => {
            if !(e is Failed) {
                match (old, e) {
                    (PhaseV::Begin, EventV::Begin) => lemma_validation_rank(dc, opts, 0, p, a),
                    (PhaseV::RebuildCheck, EventV::Flag(x)) => if !x { lemma_validation_rank(dc, opts, 0, p, a) },
                    (PhaseV::RebuildRemove, EventV::Flag(_)) => lemma_validation_rank(dc, opts, 0, p, a),
                    (PhaseV::Warning(i), EventV::Done) => lemma_validation_rank(dc, opts, i + 1, p, a),
                    (PhaseV::RunningCheck(c), EventV::Flag(x)) => if x { lemma_hooks_rank(dc, HookStage::PostStart, c, p, a) },
                    (PhaseV::Starting(c), EventV::Flag(_)) => lemma_hooks_rank(dc, HookStage::PostStart, c, p, a),
                    (PhaseV::Attaching, EventV::Flag(_)) => lemma_hooks_rank(dc, HookStage::PostAttach, false, p, a),
                    (PhaseV::GitconfigCheck(_), EventV::Path(x, _)) => if !x { lemma_dotfile_rank(dc, 0, p, a) },
                    (PhaseV::Copying(_, _, n), EventV::Flag(_)) => lemma_dotfile_rank(dc, n as int, p, a),
                    _ => {},
                }
            }
        },
    }
}

/// The stages whose hooks run only after the container was created:
/// `onCreateCommand` and `postCreateCommand`.
pub open spec fn is_create_stage(stage: HookStage) -> bool {
    stage == HookStage::OnCreate || stage == HookStage::PostCreate
}

/// The mark that a phase between the existence check and the hooks carries:
/// whether this session created the container.
pub open spec fn created_mark(p: PhaseV) -> Option<bool> {
    match p {
        PhaseV::RootWarning(c) => Some(c),
        PhaseV::RunningCheck(c) => Some(c),
        PhaseV::Starting(c) => Some(c),
        PhaseV::Hook(_, c) => Some(c),
        _ => None,
    }
}

/// A phase that runs a create-stage hook carries the mark that this session
/// created the container.
pub open spec fn create_hooks_marked(p: PhaseV) -> bool {
    p matches PhaseV::Hook(s, c) ==> (is_create_stage(s) ==> c)
}

/// Running the hooks from `stage` with mark `created` keeps the mark, and runs a
/// create-stage hook only when the mark is set or the stage is itself one.
proof fn lemma_hooks_mark(dc: Devcontainer, stage: HookStage, created: bool, p: PhaseV, a: ActionV)
    requires
        is_create_stage(stage) ==> created,
    ensures
        hooks_goes(dc, stage, created, p, a) || after_stage_goes(dc, stage, created, p, a) ==> {
            &&& create_hooks_marked(p)
            &&& (created_mark(p) is Some ==> created_mark(p) == Some(created))
        },
    decreases stages_left(stage), 1nat,
{
    lemma_after_stage_mark(dc, stage, created, p, a);
}

/// What follows a stage keeps the mark (see [`lemma_hooks_mark`]).
proof fn lemma_after_stage_mark(dc: Devcontainer, stage: HookStage, created: bool, p: PhaseV, a: ActionV)
    requires
        is_create_stage(stage) ==> created,
    ensures
        after_stage_goes(dc, stage, created, p, a) ==> {
            &&& create_hooks_marked(p)
            &&& (created_mark(p) is Some ==> created_mark(p) == Some(created))
        },
    decreases stages_left(stage), 0nat,
{
    if after_stage_goes(dc, stage, created, p, a) {
        match stage {
            HookStage::PostStart => if created {
                lemma_hooks_mark(dc, HookStage::OnCreate, created, p, a)
            } else {
                lemma_hooks_mark(dc, HookStage::UpdateContent, created, p, a)
            },
            HookStage::OnCreate => lemma_hooks_mark(dc, HookStage::UpdateContent, created, p, a),
            HookStage::UpdateContent => if created {
                lemma_hooks_mark(dc, HookStage::PostCreate, created, p, a)
            } else {
                let src = choose|src: Seq<char>| tilde_outcome("~/.gitconfig"@, src)
                    && p == PhaseV::GitconfigCheck(src) && a == ActionV::Inspect(src);
            },
            HookStage::PostCreate => {
                let src = choose|src: Seq<char>| tilde_outcome("~/.gitconfig"@, src)
                    && p == PhaseV::GitconfigCheck(src) && a == ActionV::Inspect(src);
            },
            HookStage::PostAttach => {},
        }
    }
}

/// `onCreateCommand` and `postCreateCommand` run only after this session created
/// the container (`updateContentCommand` runs on every run). Every step keeps the rule that a
/// phase running one of these hooks carries the "created by this session" mark,
/// and the mark is set only by the step right after the container was created
/// (and kept only from a phase that already carries it); when the engine reports
/// that the container exists, the mark is cleared. Sessions start in phases
/// without a mark.
pub proof fn law_create_hooks_only_after_creation(
    old: PhaseV,
    dc: Devcontainer,
    opts: SessionOptions,
    e: EventV,
    p: PhaseV,
    a: ActionV,
)
    requires
        step_goes(old, dc, opts, e, p, a),
        create_hooks_marked(old),
    ensures
        create_hooks_marked(p),
        created_mark(p) == Some(true) ==> old == PhaseV::Creating || created_mark(old) == Some(true),
        old == PhaseV::ExistsCheck && e == EventV::Flag(true) ==> created_mark(p) == Some(false),
        old == PhaseV::Creating && !(e is Failed) && created_mark(p) is Some ==> created_mark(p) == Some(true),
{
    match old {
        PhaseV::Finished => {},
        PhaseV::Hook(s, c) => {
            if e == EventV::Done {
                lemma_after_stage_mark(dc, s, c, p, a);
            }
        },
        _ => {
            if !(e is Failed) {
                match (old, e) {
                    (PhaseV::Begin, EventV::Begin) => lemma_validation_outcome(dc, opts, 0, p, a),
                    (PhaseV::RebuildCheck, EventV::Flag(x)) => if !x { lemma_validation_outcome(dc, opts, 0, p, a) },
                    (PhaseV::RebuildRemove, EventV::Flag(_)) => lemma_validation_outcome(dc, opts, 0, p, a),
                    (PhaseV::Warning(i), EventV::Done) => lemma_validation_outcome(dc, opts, i + 1, p, a),
                    (PhaseV::RunningCheck(c), EventV::Flag(x)) => if x { lemma_hooks_mark(dc, HookStage::PostStart, c, p, a) },
                    (PhaseV::Starting(c), EventV::Flag(_)) => lemma_hooks_mark(dc, HookStage::PostStart, c, p, a),
                    (PhaseV::Attaching, EventV::Flag(_)) => lemma_hooks_mark(dc, HookStage::PostAttach, false, p, a),
                    (PhaseV::GitconfigCheck(_), EventV::Path(x, _)) => if !x { lemma_dotfile_outcome(dc, 0, p, a) },
                    (PhaseV::Copying(_, _, n), EventV::Flag(_)) => lemma_dotfile_outcome(dc, n as int, p, a),
                    _ => {},
                }
            }
        },
    }
}

/// A rebuild first asks whether the container exists. When it does, the
/// session stops it and then removes it, and only after that starts the checks
/// of a fresh run (those a `run` session starts with); when it does not, those
/// checks come right away.
pub proof fn law_rebuild_removes_before_run(
    dc: Devcontainer,
    opts: SessionOptions,
    exists: bool,
    stopped: bool,
    removed: bool,
    p1: PhaseV,
    a1: ActionV,
    p2: PhaseV,
    a2: ActionV,
    p3: PhaseV,
    a3: ActionV,
    p4: PhaseV,
    a4: ActionV,
)
    requires
        step_goes(PhaseV::RebuildBegin, dc, opts, EventV::Begin, p1, a1),
        step_goes(p1, dc, opts, EventV::Flag(exists), p2, a2),
        exists ==> step_goes(p2, dc, opts, EventV::Flag(stopped), p3, a3),
        exists ==> step_goes(p3, dc, opts, EventV::Flag(removed), p4, a4),
    ensures
        a1 == ActionV::CheckExists,
        exists ==> a2 == ActionV::Stop && a3 == ActionV::Remove && validation_goes(dc, opts, 0, p4, a4),
        !exists ==> validation_goes(dc, opts, 0, p2, a2),
        forall|p: PhaseV, a: ActionV| step_goes(PhaseV::Begin, dc, opts, EventV::Begin, p, a)
            <==> validation_goes(dc, opts, 0, p, a),
{
}

/// What handling dotfile `i` must do: while `i` is below the number of
/// dotfiles, inspect `~/<dotfile i>` with the tilde expanded and remember the
/// destination, the same relative path in the remote user's home; after the
/// last dotfile, restart.
pub open spec fn handles_dotfile(dc: Devcontainer, i: int, p: PhaseV, a: ActionV) -> bool {
    let files = dc.settings.dotfiles@;
    if 0 <= i < files.len() {
        exists|src: Seq<char>| tilde_outcome("~/"@ + files[i]@, src)
            && a == ActionV::Inspect(src)
            && p == PhaseV::DotfileCheck((i + 1) as usize, src,
                path_join_spec(home_dir_spec(dc.config.remote_user@), files[i]@))
    } else {
        a == ActionV::Restart && p == PhaseV::Restarting
    }
}

/// Every configured dotfile is looked up, in order, before the container
/// restarts: after the git configuration the session handles dotfile `0`, and
/// after the copy of a dotfile the next one (see [`handles_dotfile`]), so the
/// restart comes only once every dotfile was handled. A dotfile that is present
/// is then copied: its parent directory is created and the copy goes to the
/// remembered destination.
pub proof fn law_every_dotfile_copied(
    old: PhaseV,
    dc: Devcontainer,
    opts: SessionOptions,
    e: EventV,
    p: PhaseV,
    a: ActionV,
)
    requires
        step_goes(old, dc, opts, e, p, a),
    ensures
        old is GitconfigCheck ==> (e matches EventV::Path(false, _) ==> handles_dotfile(dc, 0, p, a)),
        old matches PhaseV::Copying(_, _, n) ==> (e is Flag ==> handles_dotfile(dc, n as int, p, a)),
        old matches PhaseV::DotfileCheck(n, src, dest) ==> forall|is_dir: bool| e == EventV::Path(true, is_dir) ==> {
            let t = copy_targets_spec(dest, path_parent(dest), is_dir);
            &&& p == PhaseV::Mkdir(src, t.1, n)
            &&& a == ActionV::Exec(t.0)
        },
        old matches PhaseV::Mkdir(src, dest, n) ==> (e == EventV::Done ==> {
            &&& p == PhaseV::Copying(src, dest, n)
            &&& a == ActionV::Copy(src, dest)
        }),
{
    match (old, e) {
        (PhaseV::GitconfigCheck(_), EventV::Path(false, _)) => lemma_dotfile_lookup(dc, 0, p, a),
        (PhaseV::Copying(_, _, n), EventV::Flag(_)) => lemma_dotfile_lookup(dc, n as int, p, a),
        _ => {},
    }
}

/// Handling dotfile `i` does what [`handles_dotfile`] says.
proof fn lemma_dotfile_lookup(dc: Devcontainer, i: int, p: PhaseV, a: ActionV)
    requires
        dotfile_goes(dc, i, p, a),
        i >= 0,
    ensures
        handles_dotfile(dc, i, p, a),
{
    let files = dc.settings.dotfiles@;
    if i < files.len() {
        let file = files[i]@;
        let dest = path_join_spec(home_dir_spec(dc.config.remote_user@), file);
        let src = choose|src: Seq<char>| tilde_outcome("~/"@ + file, src)
            && p == PhaseV::DotfileCheck((i + 1) as usize, src, dest) && a == ActionV::Inspect(src);
        assert(tilde_outcome("~/"@ + files[i]@, src) && a == ActionV::Inspect(src)
            && p == PhaseV::DotfileCheck((i + 1) as usize, src, dest));
    }
}

/// The shape of every step's outcome, by the kind of action.
proof fn law_outcomes(old: PhaseV, dc: Devcontainer, opts: SessionOptions, e: EventV, p: PhaseV, a: ActionV)
    requires
        step_goes(old, dc, opts, e, p, a),
    ensures
        a is RunOnHost ==> (old == PhaseV::TrustNotice && e == EventV::Done)
            || (old == PhaseV::Prompted && e is Answer && lowercase_of(trim_spec(e->Answer_0)) == "y"@),
        p == PhaseV::TrustNotice ==> opts.trust,
        a is Build ==> old == PhaseV::ExistsCheck && e == EventV::Flag(false) && a == ActionV::Build(opts.use_cache),
        a is Create ==> old == PhaseV::Building && a == ActionV::Create(create_args_spec(dc.config)),
        a is Stop && old != PhaseV::RebuildCheck ==>
            dc.config.shutdown_action != crate::devcontainers::config::ShutdownAction::NoShutdown,
{
    match old {
        PhaseV::Finished => {},
        PhaseV::Hook(s, c) => {
            if e == EventV::Done {
                lemma_after_stage_outcome(dc, s, c, p, a);
            }
        },
        _ => {
            if !(e is Failed) {
                match (old, e) {
                    (PhaseV::Begin, EventV::Begin) => lemma_validation_outcome(dc, opts, 0, p, a),
                    (PhaseV::RebuildCheck, EventV::Flag(x)) => if !x { lemma_validation_outcome(dc, opts, 0, p, a) },
                    (PhaseV::RebuildRemove, EventV::Flag(_)) => lemma_validation_outcome(dc, opts, 0, p, a),
                    (PhaseV::Warning(i), EventV::Done) => lemma_validation_outcome(dc, opts, i + 1, p, a),
                    (PhaseV::RunningCheck(c), EventV::Flag(x)) => if x { lemma_hooks_outcome(dc, HookStage::PostStart, c, p, a) },
                    (PhaseV::Starting(c), EventV::Flag(_)) => lemma_hooks_outcome(dc, HookStage::PostStart, c, p, a),
                    (PhaseV::Attaching, EventV::Flag(_)) => lemma_hooks_outcome(dc, HookStage::PostAttach, false, p, a),
                    (PhaseV::GitconfigCheck(_), EventV::Path(x, _)) => if !x { lemma_dotfile_outcome(dc, 0, p, a) },
                    (PhaseV::Copying(_, _, n), EventV::Flag(_)) => lemma_dotfile_outcome(dc, n as int, p, a),
                    _ => {},
                }
            }
        },
    }
}

/// The place of a stage among those that run after the container starts.
pub open spec fn stage_pos(stage: HookStage) -> int {
    match stage {
        HookStage::PostStart => 0,
        HookStage::OnCreate => 1,
        HookStage::UpdateContent => 2,
        HookStage::PostCreate => 3,
        HookStage::PostAttach => 4,
    }
}

/// The command that the hook of `stage` runs, when it has one.
pub open spec fn stage_call(dc: Devcontainer, stage: HookStage) -> Option<(bool, Seq<char>, Seq<Seq<char>>)> {
    match hook_of(dc.config, stage) {
        Some(h) => hook_call_spec(h),
        None => None,
    }
}

/// Stage `t` runs after the container starts and has a command to run, and it
/// is due in this session: `onCreateCommand` and `postCreateCommand` only when
/// the session created the container (`created`).
pub open spec fn stage_due(dc: Devcontainer, t: HookStage, created: bool) -> bool {
    t != HookStage::PostAttach && (created || !is_create_stage(t)) && stage_call(dc, t) is Some
}

/// No due hook is skipped: when the session runs the hooks from `stage` on
/// (with `stage` itself due or without a command) and some stage `t` at or after it is due,
/// the next step runs the command of a due stage that lies between them.
pub proof fn law_first_due_hook_runs(
    dc: Devcontainer,
    stage: HookStage,
    created: bool,
    t: HookStage,
    p: PhaseV,
    a: ActionV,
)
    requires
        hooks_goes(dc, stage, created, p, a),
        stage != HookStage::PostAttach,
        created || !is_create_stage(stage),
        stage_pos(stage) <= stage_pos(t),
        stage_due(dc, t, created),
    ensures
        p is Hook,
        p->Hook_1 == created,
        stage_pos(stage) <= stage_pos(p->Hook_0) <= stage_pos(t),
        stage_due(dc, p->Hook_0, created),
        a == ActionV::ExecHook(stage_call(dc, p->Hook_0)->0),
    decreases stages_left(stage), 1nat,
{
    if stage_call(dc, stage) is None {
        if stage == t {
            assert(false);
        }
        law_no_hook_skipped(dc, stage, created, t, p, a);
    }
}

/// No due hook is skipped: once the hook of `stage` is done and some stage `t`
/// after it is due, the next step runs the command of a due stage after
/// `stage` and not after `t`.
pub proof fn law_no_hook_skipped(
    dc: Devcontainer,
    stage: HookStage,
    created: bool,
    t: HookStage,
    p: PhaseV,
    a: ActionV,
)
    requires
        after_stage_goes(dc, stage, created, p, a),
        stage != HookStage::PostAttach,
        stage_pos(stage) < stage_pos(t),
        stage_due(dc, t, created),
    ensures
        p is Hook,
        p->Hook_1 == created,
        stage_pos(stage) < stage_pos(p->Hook_0) <= stage_pos(t),
        stage_due(dc, p->Hook_0, created),
        a == ActionV::ExecHook(stage_call(dc, p->Hook_0)->0),
    decreases stages_left(stage), 0nat,
{
    match stage {
        HookStage::PostStart => if created {
            law_first_due_hook_runs(dc, HookStage::OnCreate, created, t, p, a);
        } else {
            law_first_due_hook_runs(dc, HookStage::UpdateContent, created, t, p, a);
        },
        HookStage::OnCreate => law_first_due_hook_runs(dc, HookStage::UpdateContent, created, t, p, a),
        HookStage::UpdateContent => if created {
            law_first_due_hook_runs(dc, HookStage::PostCreate, created, t, p, a);
        },
        _ => {},
    }
}

/// Every `runArgs` warning is shown, in order, before anything runs: a session
/// begins with the warning for the first unknown flag, each warning is followed
/// by the next one, and after the last one a denied flag ends the session with
/// its refusal.
pub proof fn law_every_warning_shown(
    old: PhaseV,
    dc: Devcontainer,
    opts: SessionOptions,
    e: EventV,
    p: PhaseV,
    a: ActionV,
)
    requires
        step_goes(old, dc, opts, e, p, a),
    ensures
        ({
            let u = unknown_flags(dc.config.run_args.deep_view());
            &&& old == PhaseV::Begin && e == EventV::Begin && u.len() > 0 ==> {
                &&& p == PhaseV::Warning(0)
                &&& a == ActionV::Warn(unknown_message(u[0]))
            }
            &&& old matches PhaseV::Warning(i) ==> (e == EventV::Done && i + 1 < u.len() ==> {
                &&& p == PhaseV::Warning((i + 1) as usize)
                &&& a == ActionV::Warn(unknown_message(u[i + 1]))
            })
            &&& old matches PhaseV::Warning(i) ==> (e == EventV::Done && i + 1 >= u.len()
                && first_denied(dc.config.run_args.deep_view()) is Some ==> {
                &&& p == PhaseV::Finished
                &&& a == ActionV::Fail(FailureKind::InvalidInput,
                    denied_message(first_denied(dc.config.run_args.deep_view())->0))
            })
        }),
{
}

} // verus!
