//! Dev container configuration and sessions.

pub mod config;
pub mod copying;
pub mod lifecycle;
pub mod one_or_many;
pub mod paths;
pub mod run_args;

use vstd::prelude::*;
use vstd::relations::sorted_by;
use crate::devcontainers::config::{
    build_args_spec, clone_pairs, dockerfile_spec, keys_unique, maps_keys_unique, lowercase_of, name_notice_spec, opt_view,
    safe_name_spec, to_lowercase, underivable_name_message, Config,
};
use crate::devcontainers::one_or_many::{exec_parts_of, OneOrMany};
use crate::devcontainers::paths::{
    is_absolute, is_absolute_spec, outside_root_message, path_join, path_join_spec,
    resolved_path_spec, validate_within_root, within_root_spec,
};
use crate::error::{failure, failure_view, FailureKind, IoFailure};
use crate::provider::docker::{BuildSource, Docker, mounts_view};
use crate::provider::docker_compose::DockerCompose;
use crate::provider::podman::Podman;
use crate::provider::podman_compose::PodmanCompose;
use crate::provider::utils::{dockerfile_path_spec, resolve_dockerfile_path};
use crate::provider::{pair_flags, push_all, push_pair_flags, Provider};
use crate::settings::{self, Settings};
use crate::text::{
    chars_of, concat2, concat3, join, join_spec, lemma_lex_antisymmetric, lemma_lex_total, lemma_lex_transitive, lex_le,
    lex_le_exec, owned, str_eq, trim, trim_spec,
};

verus! {

/// How a hook runs in the container.
#[derive(Debug)]
pub enum HookCall {
    /// Through the container's shell (`sh -c <cmd>`).
    Shell(String),
    /// A program with its arguments, without a shell.
    Direct(String, Vec<String>),
}

/// How `hook` runs: the string form through the shell, the array form directly
/// (first element as the program), nothing for an empty array.
pub open spec fn hook_call_spec(hook: OneOrMany) -> Option<(bool, Seq<char>, Seq<Seq<char>>)> {
    match hook {
        OneOrMany::One(cmd) => Some((true, cmd@, Seq::empty())),
        OneOrMany::Many(parts) => if parts@.len() == 0 {
            None
        } else {
            Some((false, parts@[0]@, parts.deep_view().skip(1)))
        },
    }
}

/// The plain value of a hook call: (through the shell, command or program, arguments).
pub open spec fn hook_call_view(c: HookCall) -> (bool, Seq<char>, Seq<Seq<char>>) {
    match c {
        HookCall::Shell(cmd) => (true, cmd@, Seq::empty()),
        HookCall::Direct(p, a) => (false, p@, a.deep_view()),
    }
}

/// How `hook` runs in the container, or `None` for an empty array.
pub fn hook_call(hook: &OneOrMany) -> (r: Option<HookCall>)
    ensures
        match (r, hook_call_spec(*hook)) {
            (Some(c), Some(v)) => hook_call_view(c) == v,
            (None, None) => true,
            _ => false,
        },
{
    match hook {
        OneOrMany::One(cmd) => Some(HookCall::Shell(cmd.clone())),
        OneOrMany::Many(_) => match hook.to_exec_parts() {
            Some((prog, args)) => Some(HookCall::Direct(prog, args)),
            None => None,
        },
    }
}

/// A hook means the same command wherever it runs: on the host the string form
/// runs as `sh -c <cmd>`, and in the container it goes through the container's
/// shell; the array form runs its first element with the rest as arguments,
/// without a shell, in both places.
pub proof fn law_hook_same_on_host_and_in_container(hook: OneOrMany)
    ensures
        match (hook_call_spec(hook), exec_parts_of(hook)) {
            (None, None) => true,
            (Some((through_shell, cmd, args)), Some((prog, host_args))) => if through_shell {
                hook is One && args.len() == 0 && prog == "sh"@ && host_args == seq!["-c"@, cmd]
            } else {
                hook is Many && cmd == prog && args == host_args
            },
            _ => false,
        },
{
}

/// The string views of `v`, borrowed.
pub fn str_refs(v: &Vec<String>) -> (r: Vec<&str>)
    ensures
        r.deep_view() == v.deep_view(),
{
    let mut refs: Vec<&str> = Vec::new();
    let mut i: usize = 0;
    while i < v.len()
        invariant
            i <= v@.len(),
            refs.deep_view() =~= v.deep_view().take(i as int),
        decreases v@.len() - i,
    {
        let ghost before = refs.deep_view();
        refs.push(v[i].as_str());
        assert(refs.deep_view() =~= before.push(v@[i as int]@));
        i = i + 1;
    }
    assert(v.deep_view().take(v@.len() as int) =~= v.deep_view());
    refs
}

/// Execute a lifecycle hook inside the container via the provider.
///
/// - `One(cmd)` runs `provider.exec(cmd)` (shell-wrapped by the provider)
/// - `Many(parts)` runs `provider.exec_raw(parts[0], parts[1..])` (no shell)
/// - an empty `Many` runs nothing and succeeds.
///
/// The result is that of the provider's call, as it is.
pub fn exec_hook<P: Provider>(provider: &P, hook: &OneOrMany) -> (r: std::io::Result<()>)
    ensures
        match hook_call_spec(*hook) {
            None => r is Ok,
            Some((through_shell, cmd, args)) => if through_shell {
                exists|c: String| c@ == cmd && #[trigger] call_ensures(P::exec, (provider, c), r)
            } else {
                exists|prog: &str, a: &[&str]|
                    prog@ == cmd && a.deep_view() == args
                        && #[trigger] call_ensures(P::exec_raw, (provider, prog, a), r)
            },
        },
{
    match hook_call(hook) {
        Some(HookCall::Shell(cmd)) => {
            let ghost c = cmd;
            let r = provider.exec(cmd);
            assert(call_ensures(P::exec, (provider, c), r));
            r
        },
        Some(HookCall::Direct(prog, args)) => {
            let refs = str_refs(&args);
            let p = prog.as_str();
            let a = refs.as_slice();
            let r = provider.exec_raw(p, a);
            assert(a.deep_view() == refs.deep_view());
            assert(call_ensures(P::exec_raw, (provider, p, a), r));
            r
        },
        None => Ok(()),
    }
}

/// The text shown for a hook: the command, or the array joined with spaces.
pub open spec fn hook_display_spec(hook: OneOrMany) -> Seq<char> {
    match hook {
        OneOrMany::One(cmd) => cmd@,
        OneOrMany::Many(parts) => join_spec(parts.deep_view(), " "@),
    }
}

/// The text shown for a hook before it runs on the host.
pub fn hook_display(hook: &OneOrMany) -> (r: String)
    ensures
        r@ == hook_display_spec(*hook),
{
    match hook {
        OneOrMany::One(cmd) => cmd.clone(),
        OneOrMany::Many(parts) => join(parts, " "),
    }
}

/// Whether an answer, already trimmed and lowercased, confirms: it is `"y"`.
pub fn is_confirmed_lowercase(lowered: &str) -> (r: bool)
    ensures
        r == (lowered@ == "y"@),
{
    str_eq(lowered, "y")
}

/// Returns true if `answer` constitutes a positive confirmation (case-insensitive `"y"`).
pub fn is_confirmed(answer: &str) -> (r: bool)
    ensures
        r == (lowercase_of(trim_spec(answer@)) == "y"@),
{
    let t = trim(answer);
    let lowered = to_lowercase(t.as_str());
    is_confirmed_lowercase(lowered.as_str())
}

/// Whether a root-user warning is due for `remote_user`.
pub open spec fn warn_root_spec(remote_user: Seq<char>, no_root_check: bool) -> bool {
    let u = trim_spec(remote_user);
    !no_root_check && (u.len() == 0 || u == "root"@ || u == "0"@)
}

/// Returns true if a root-user warning should be emitted.
///
/// Warns when `remote_user` is `"root"` or `"0"` (or empty) and `no_root_check` is false.
pub fn should_warn_root(remote_user: &str, no_root_check: bool) -> (r: bool)
    ensures
        r == warn_root_spec(remote_user@, no_root_check),
{
    if no_root_check {
        return false;
    }
    let u = trim(remote_user);
    chars_of(u.as_str()).len() == 0 || str_eq(u.as_str(), "root") || str_eq(u.as_str(), "0")
}

/// Pairs ordered by key.
pub open spec fn key_order(a: (Seq<char>, Seq<char>), b: (Seq<char>, Seq<char>)) -> bool {
    lex_le(a.0, b.0)
}

/// The remote environment of `config`, ordered by variable name.
pub fn sorted_env_vars(config: &Config) -> (r: Vec<(String, String)>)
    ensures
        r.deep_view().to_multiset() == config.remote_env.deep_view().to_multiset(),
        sorted_by(r.deep_view(), |a: (Seq<char>, Seq<char>), b: (Seq<char>, Seq<char>)| key_order(a, b)),
        keys_unique(config.remote_env.deep_view()) ==> keys_unique(r.deep_view()),
{
    broadcast use vstd::seq_lib::group_to_multiset_ensures;
    let src = &config.remote_env;
    let ghost all = src.deep_view();
    let mut out: Vec<(String, String)> = Vec::new();
    let mut i: usize = 0;
    assert(all.take(0) =~= Seq::<(Seq<char>, Seq<char>)>::empty());
    while i < src.len()
        invariant
            all == src.deep_view(),
            i <= src@.len(),
            out.deep_view().to_multiset() == all.take(i as int).to_multiset(),
            keys_unique(all) ==> keys_unique(out.deep_view()),
            forall|a: int, b: int| 0 <= a < b < out@.len() ==> lex_le(#[trigger] out.deep_view()[a].0, #[trigger] out.deep_view()[b].0),
        decreases src@.len() - i,
    {
        let (k, v) = &src[i];
        let ghost before = out.deep_view();
        let mut j: usize = 0;
        while j < out.len() && lex_le_exec(out[j].0.as_str(), k.as_str())
            invariant
                before == out.deep_view(),
                j <= out@.len(),
                forall|m: int| 0 <= m < j ==> lex_le(#[trigger] before[m].0, k@),
            decreases out@.len() - j,
        {
            assert(before[j as int].0 == out@[j as int].0@);
            j = j + 1;
        }
        proof {
            if j < out@.len() {
                assert(before[j as int].0 == out@[j as int].0@);
                assert(!lex_le(before[j as int].0, k@));
                lemma_lex_total(before[j as int].0, k@);
            }
        }
        out.insert(j, (k.clone(), v.clone()));
        let ghost x = (k@, v@);
        proof {
            assert(out.deep_view() =~= before.insert(j as int, x));
            vstd::seq_lib::to_multiset_insert(before, j as int, x);
            assert(all[i as int] == x);
            assert(all.take(i + 1) =~= all.take(i as int).push(x));
            all.take(i as int).to_multiset_ensures();
            assert(all.take(i as int).push(x).to_multiset() == all.take(i as int).to_multiset().insert(x));
            assert(out.deep_view().to_multiset() == all.take(i + 1).to_multiset());
            if keys_unique(all) {
                before.to_multiset_ensures();
                assert forall|y: (Seq<char>, Seq<char>)| before.contains(y) implies y.0 != x.0 by {
                    assert(before.to_multiset().count(y) > 0);
                    assert(all.take(i as int).contains(y));
                    let k = choose|k: int| 0 <= k < all.take(i as int).len() && all.take(i as int)[k] == y;
                    assert(all[k] == y);
                    assert(all[k].0 != all[i as int].0);
                }
                let o = out.deep_view();
                assert forall|a: int, b: int| 0 <= a < b < o.len() implies #[trigger] o[a].0 != #[trigger] o[b].0 by {
                    if a == j {
                        assert(o[b] == before[b - 1] && before.contains(before[b - 1]));
                    } else if b == j {
                        assert(o[a] == before[a] && before.contains(before[a]));
                    } else if b < j {
                        assert(o[a] == before[a] && o[b] == before[b]);
                    } else if a < j {
                        assert(o[a] == before[a] && o[b] == before[b - 1]);
                    } else {
                        assert(o[a] == before[a - 1] && o[b] == before[b - 1]);
                    }
                }
            }
            assert forall|a: int, b: int| 0 <= a < b < out@.len() implies
                lex_le(#[trigger] out.deep_view()[a].0, #[trigger] out.deep_view()[b].0) by {
                let o = out.deep_view();
                if b < j {
                    assert(o[a] == before[a] && o[b] == before[b]);
                } else if b == j {
                    assert(o[a] == before[a]);
                } else if a == j {
                    assert(o[b] == before[b - 1]);
                    if j < before.len() {
                        assert(lex_le(x.0, before[j as int].0));
                        if b - 1 > j {
                            assert(lex_le(before[j as int].0, before[b - 1].0));
                            lemma_lex_transitive(x.0, before[j as int].0, before[b - 1].0);
                        }
                    }
                } else if a < j {
                    assert(o[a] == before[a] && o[b] == before[b - 1]);
                    if a < b - 1 {
                        assert(lex_le(before[a].0, before[b - 1].0));
                    }
                    if a == b - 1 {
                        lemma_lex_transitive(before[a].0, x.0, before[b - 1].0);
                    }
                } else {
                    assert(o[a] == before[a - 1] && o[b] == before[b - 1]);
                }
            }
        }
        i = i + 1;
    }
    assert(all.take(src@.len() as int) =~= all);
    out
}

/// The failure for a required field that `devcontainer.json` lacks.
pub open spec fn missing_field_spec(field: Seq<char>) -> (FailureKind, Seq<char>) {
    (FailureKind::InvalidData, "devcontainer.json is missing required field: "@ + field)
}

/// The failure for a required field that `devcontainer.json` lacks.
pub fn missing_field(field: &str) -> (r: IoFailure)
    ensures
        failure_view(r) == missing_field_spec(field@),
{
    failure(FailureKind::InvalidData, concat2("devcontainer.json is missing required field: ", field))
}

/// The compose file path and the service of a compose configuration.
pub open spec fn compose_spec(directory: Seq<char>, config: Config)
    -> Result<(Seq<char>, Seq<char>), (FailureKind, Seq<char>)>
{
    match config.docker_compose_file {
        None => Err(missing_field_spec("dockerComposeFile"@)),
        Some(file) => match config.service {
            None => Err(missing_field_spec("service"@)),
            Some(service) => Ok((path_join_spec(path_join_spec(directory, ".devcontainer"@), file@), service@)),
        },
    }
}

/// The plain value of a fallible pair of strings.
pub open spec fn pair_result_view(r: Result<(String, String), IoFailure>)
    -> Result<(Seq<char>, Seq<char>), (FailureKind, Seq<char>)>
{
    match r {
        Ok((a, b)) => Ok((a@, b@)),
        Err(f) => Err(failure_view(f)),
    }
}

/// The compose file (under `.devcontainer/`) and the service to use.
pub fn compose_path_and_service(directory: &str, config: &Config) -> (r: Result<(String, String), IoFailure>)
    ensures
        pair_result_view(r) == compose_spec(directory@, *config),
{
    let file = match &config.docker_compose_file {
        Some(f) => f,
        None => return Err(missing_field("dockerComposeFile")),
    };
    let dir = path_join(directory, ".devcontainer");
    let compose_path = path_join(dir.as_str(), file.as_str());
    let service = match &config.service {
        Some(s) => s,
        None => return Err(missing_field("service")),
    };
    Ok((compose_path, service.clone()))
}

/// The warning for an absolute build context outside the workspace root.
pub open spec fn context_warning(root: Seq<char>, context: Seq<char>) -> Seq<char> {
    "warning: build.context '"@ + context + "' is absolute and outside workspace root '"@ + root + "'"@
}

/// Checking `build.context`: a warning, nothing, or the failure.
pub open spec fn context_check_spec(root: Seq<char>, context: Seq<char>)
    -> Result<Option<Seq<char>>, (FailureKind, Seq<char>)>
{
    if is_absolute_spec(context) {
        if within_root_spec(root, context) { Ok(None) } else { Ok(Some(context_warning(root, context))) }
    } else if within_root_spec(root, context) {
        Ok(None)
    } else {
        Err((FailureKind::InvalidInput, outside_root_message(root, context)))
    }
}

/// The plain value of a check's outcome.
pub open spec fn check_view(r: Result<Option<String>, IoFailure>) -> Result<Option<Seq<char>>, (FailureKind, Seq<char>)> {
    match r {
        Ok(w) => Ok(opt_view(w)),
        Err(f) => Err(failure_view(f)),
    }
}

/// Validate `build.context` against the workspace root.
///
/// Relative contexts must resolve within `root`. Absolute contexts outside `root`
/// give a warning (returned) but are allowed through.
pub fn validate_build_context(root: &str, context: &str) -> (r: Result<Option<String>, IoFailure>)
    ensures
        check_view(r) == context_check_spec(root@, context@),
{
    let inside = validate_within_root(root, context);
    if is_absolute(context) {
        match inside {
            Ok(_) => Ok(None),
            Err(_) => {
                let a = concat3("warning: build.context '", context, "' is absolute and outside workspace root '");
                Ok(Some(concat3(a.as_str(), root, "'")))
            },
        }
    } else {
        match inside {
            Ok(_) => Ok(None),
            Err(msg) => Err(failure(FailureKind::InvalidInput, msg)),
        }
    }
}

/// The value of the first `key` entry of a mount.
pub open spec fn lookup(entries: Seq<(Seq<char>, Seq<char>)>, key: Seq<char>) -> Option<Seq<char>>
    decreases entries.len(),
{
    if entries.len() == 0 {
        None
    } else if entries[0].0 == key {
        Some(entries[0].1)
    } else {
        lookup(entries.drop_first(), key)
    }
}

/// The message for the first mount whose relative `source` leaves `root`, if any.
pub open spec fn mount_violation(root: Seq<char>, mounts: Seq<Seq<(Seq<char>, Seq<char>)>>) -> Option<Seq<char>>
    decreases mounts.len(),
{
    if mounts.len() == 0 {
        None
    } else {
        match lookup(mounts[0], "source"@) {
            Some(src) => if !is_absolute_spec(src) && !within_root_spec(root, src) {
                Some(outside_root_message(root, src))
            } else {
                mount_violation(root, mounts.drop_first())
            },
            None => mount_violation(root, mounts.drop_first()),
        }
    }
}

/// The `source` entry of a mount.
fn mount_source(mount: &Vec<(String, String)>) -> (r: Option<String>)
    ensures
        opt_view(r) == lookup(mount.deep_view(), "source"@),
{
    let ghost all = mount.deep_view();
    let mut i: usize = 0;
    assert(all.skip(0) =~= all);
    while i < mount.len()
        invariant
            all == mount.deep_view(),
            i <= mount@.len(),
            lookup(all, "source"@) == lookup(all.skip(i as int), "source"@),
        decreases mount@.len() - i,
    {
        let (k, v) = &mount[i];
        assert(all.skip(i as int)[0] == (k@, v@));
        assert(all.skip(i as int).drop_first() =~= all.skip(i + 1));
        if str_eq(k.as_str(), "source") {
            return Some(v.clone());
        }
        i = i + 1;
    }
    None
}

/// Validate relative mount sources against the workspace root.
///
/// For each mount entry, if the `"source"` key is present and the path is
/// relative, it must resolve within `root`. Absolute source paths pass through.
pub fn validate_mounts(root: &str, mounts: &Option<Vec<Vec<(String, String)>>>) -> (r: Result<(), IoFailure>)
    ensures
        match mount_violation(root@, mounts_view(*mounts)) {
            Some(m) => r is Err && failure_view(r->Err_0) == (FailureKind::InvalidInput, m),
            None => r is Ok,
        },
{
    match mounts {
        None => Ok(()),
        Some(list) => {
            let ghost all = list.deep_view();
            let mut i: usize = 0;
            assert(all.skip(0) =~= all);
            while i < list.len()
                invariant
                    all == list.deep_view(),
                    all == mounts_view(*mounts),
                    i <= list@.len(),
                    mount_violation(root@, all) == mount_violation(root@, all.skip(i as int)),
                decreases list@.len() - i,
            {
                assert(all.skip(i as int)[0] == list@[i as int].deep_view());
                assert(all.skip(i as int).drop_first() =~= all.skip(i + 1));
                match mount_source(&list[i]) {
                    Some(source) => {
                        if !is_absolute(source.as_str()) {
                            match validate_within_root(root, source.as_str()) {
                                Ok(_) => {},
                                Err(msg) => return Err(failure(FailureKind::InvalidInput, msg)),
                            }
                        }
                    },
                    None => {},
                }
                i = i + 1;
            }
            Ok(())
        },
    }
}

/// Where the image comes from: `(true, path)` for a Dockerfile (the path resolved
/// and required to stay in the workspace), `(false, image)` to pull an image.
pub open spec fn build_source_spec(directory: Seq<char>, config: Config)
    -> Result<(bool, Seq<char>), (FailureKind, Seq<char>)>
{
    match dockerfile_spec(config) {
        Some(df) => {
            let ctx = match config.build { Some(b) => opt_view(b.context), None => None };
            let resolved = dockerfile_path_spec(directory, df, ctx);
            if within_root_spec(directory, resolved) {
                Ok((true, resolved_path_spec(directory, resolved)))
            } else {
                Err((FailureKind::InvalidInput, outside_root_message(directory, resolved)))
            }
        },
        None => match config.image {
            Some(i) => Ok((false, i@)),
            None => Err(missing_field_spec("build.dockerfile or image"@)),
        },
    }
}

/// The plain value of a build source.
pub open spec fn source_view(s: BuildSource) -> (bool, Seq<char>) {
    match s {
        BuildSource::Dockerfile(p) => (true, p@),
        BuildSource::Image(i) => (false, i@),
    }
}

/// Where the container image comes from: a Dockerfile inside the workspace, or
/// an image to pull.
pub fn build_source(directory: &str, config: &Config) -> (r: Result<BuildSource, IoFailure>)
    ensures
        match r {
            Ok(s) => build_source_spec(directory@, *config) == Ok::<(bool, Seq<char>), (FailureKind, Seq<char>)>(source_view(s)),
            Err(f) => build_source_spec(directory@, *config) == Err::<(bool, Seq<char>), (FailureKind, Seq<char>)>(failure_view(f)),
        },
{
    match config.dockerfile() {
        Some(dockerfile) => {
            let context: Option<&str> = match &config.build {
                Some(b) => match &b.context {
                    Some(c) => Some(c.as_str()),
                    None => None,
                },
                None => None,
            };
            let resolved = resolve_dockerfile_path(directory, dockerfile.as_str(), context);
            match validate_within_root(directory, resolved.as_str()) {
                Ok(validated) => Ok(BuildSource::Dockerfile(validated)),
                Err(msg) => Err(failure(FailureKind::InvalidInput, msg)),
            }
        },
        None => match &config.image {
            Some(image) => Ok(BuildSource::Image(image.clone())),
            None => Err(missing_field("build.dockerfile or image")),
        },
    }
}

/// The container engine backend that a session drives.
#[derive(Debug)]
pub enum Backend {
    Docker(Docker),
    DockerCompose(DockerCompose),
    Podman(Podman),
    PodmanCompose(PodmanCompose),
}

/// The `build.context` of a configuration, if any.
pub open spec fn context_of(config: Config) -> Option<Seq<char>> {
    match config.build {
        Some(b) => opt_view(b.context),
        None => None,
    }
}

/// The outcome of checking `build.context` (nothing to check without one).
pub open spec fn context_outcome(directory: Seq<char>, config: Config) -> Result<Option<Seq<char>>, (FailureKind, Seq<char>)> {
    match context_of(config) {
        Some(ctx) => context_check_spec(directory, ctx),
        None => Ok(None),
    }
}

/// The first failure in choosing the backend for `config`, in the order in which
/// the checks run: container name, then (compose) file and service, or (otherwise)
/// build context, mounts and image source.
pub open spec fn backend_failure(directory: Seq<char>, config: Config) -> Option<(FailureKind, Seq<char>)> {
    match safe_name_spec(lowercase_of(config.name@)) {
        None => Some((FailureKind::InvalidInput, "Invalid configuration: "@ + underivable_name_message(config.name@))),
        Some(_) => if config.docker_compose_file is Some {
            match compose_spec(directory, config) {
                Err(f) => Some(f),
                Ok(_) => None,
            }
        } else {
            match context_outcome(directory, config) {
                Err(f) => Some(f),
                Ok(_) => match mount_violation(directory, mounts_view(config.mounts)) {
                    Some(m) => Some((FailureKind::InvalidInput, m)),
                    None => match build_source_spec(directory, config) {
                        Err(f) => Some(f),
                        Ok(_) => None,
                    },
                },
            }
        },
    }
}

/// The warnings that choosing the backend reports: the container name notice
/// (when the name gets the `dev-` prefix), then, without compose, the warning
/// for an absolute build context outside the workspace.
pub open spec fn backend_warnings(directory: Seq<char>, config: Config) -> Seq<Seq<char>> {
    let notice = match name_notice_spec(config.name@, lowercase_of(config.name@)) {
        Some(n) => seq![n],
        None => Seq::empty(),
    };
    if config.docker_compose_file is Some {
        notice
    } else {
        match context_outcome(directory, config) {
            Ok(Some(w)) => notice.push(w),
            _ => notice,
        }
    }
}

/// `v` holds the remote environment of `config`, ordered by variable name.
pub open spec fn sorted_env_of(v: Seq<(Seq<char>, Seq<char>)>, config: Config) -> bool {
    &&& v.to_multiset() == config.remote_env.deep_view().to_multiset()
    &&& sorted_by(v, |a: (Seq<char>, Seq<char>), b: (Seq<char>, Seq<char>)| key_order(a, b))
    &&& keys_unique(config.remote_env.deep_view()) ==> keys_unique(v)
}

/// With each variable named once, the environment of a backend is fixed: two
/// lists that both hold the remote environment of `config` ordered by name are
/// the same list. So every field of the backend that [`build_provider`] and
/// [`Devcontainer::load`] give is fixed by [`backend_matches`].
pub proof fn law_sorted_env_determined(v1: Seq<(Seq<char>, Seq<char>)>, v2: Seq<(Seq<char>, Seq<char>)>, config: Config)
    requires
        sorted_env_of(v1, config),
        sorted_env_of(v2, config),
        keys_unique(config.remote_env.deep_view()),
    ensures
        v1 == v2,
{
    lemma_sorted_unique_equal(v1, v2);
}

/// Two backends hold the same plain values in every field.
pub open spec fn same_backend(b1: Backend, b2: Backend) -> bool {
    match (b1, b2) {
        (Backend::Docker(x), Backend::Docker(y)) => {
            &&& x.build_args.deep_view() == y.build_args.deep_view()
            &&& source_view(x.build_source) == source_view(y.build_source)
            &&& x.command@ == y.command@
            &&& x.directory@ == y.directory@
            &&& x.forward_ports@ == y.forward_ports@
            &&& x.name@ == y.name@
            &&& x.run_args.deep_view() == y.run_args.deep_view()
            &&& x.mounts.deep_view() == y.mounts.deep_view()
            &&& x.user@ == y.user@
            &&& x.workspace_folder@ == y.workspace_folder@
            &&& x.override_command == y.override_command
        },
        (Backend::Podman(x), Backend::Podman(y)) => {
            &&& x.build_args.deep_view() == y.build_args.deep_view()
            &&& x.build_context@ == y.build_context@
            &&& source_view(x.build_source) == source_view(y.build_source)
            &&& x.command@ == y.command@
            &&& x.directory@ == y.directory@
            &&& x.forward_ports@ == y.forward_ports@
            &&& x.mounts.deep_view() == y.mounts.deep_view()
            &&& x.name@ == y.name@
            &&& x.run_args.deep_view() == y.run_args.deep_view()
            &&& x.override_command == y.override_command
            &&& x.user@ == y.user@
            &&& x.workspace_folder@ == y.workspace_folder@
        },
        (Backend::DockerCompose(x), Backend::DockerCompose(y)) => {
            &&& x.build_args.deep_view() == y.build_args.deep_view()
            &&& x.command@ == y.command@
            &&& x.env_vars.deep_view() == y.env_vars.deep_view()
            &&& x.file@ == y.file@
            &&& x.name@ == y.name@
            &&& x.service@ == y.service@
            &&& x.shell@ == y.shell@
            &&& x.user@ == y.user@
            &&& x.workspace_folder@ == y.workspace_folder@
        },
        (Backend::PodmanCompose(x), Backend::PodmanCompose(y)) => {
            &&& x.build_args.deep_view() == y.build_args.deep_view()
            &&& x.command@ == y.command@
            &&& x.env_vars.deep_view() == y.env_vars.deep_view()
            &&& x.podman_command@ == y.podman_command@
            &&& x.file@ == y.file@
            &&& x.name@ == y.name@
            &&& x.selinux_relabel == y.selinux_relabel
            &&& x.service@ == y.service@
            &&& x.shell@ == y.shell@
            &&& x.user@ == y.user@
            &&& x.workspace_folder@ == y.workspace_folder@
        },
        _ => false,
    }
}

/// The backend is fixed by the configuration: two backends that both match the
/// same directory, engine, configuration and `SELinux` state (as the backend of
/// [`build_provider`] and that of [`Devcontainer::load`] do) hold the same
/// values, when each remote environment variable is named once (which
/// [`Devcontainer::load`] ensures of every container it returns; see
/// [`law_loaded_backend_is_build_providers`]).
pub proof fn law_backend_determined(
    b1: Backend,
    b2: Backend,
    directory: Seq<char>,
    engine: settings::Provider,
    config: Config,
    selinux_enforcing: bool,
)
    requires
        backend_matches(b1, directory, engine, config, selinux_enforcing),
        backend_matches(b2, directory, engine, config, selinux_enforcing),
        keys_unique(config.remote_env.deep_view()),
    ensures
        same_backend(b1, b2),
{
    match (b1, b2) {
        (Backend::DockerCompose(x), Backend::DockerCompose(y)) => {
            law_sorted_env_determined(x.env_vars.deep_view(), y.env_vars.deep_view(), config);
        },
        (Backend::PodmanCompose(x), Backend::PodmanCompose(y)) => {
            law_sorted_env_determined(x.env_vars.deep_view(), y.env_vars.deep_view(), config);
        },
        _ => {},
    }
}

/// The backend of a loaded dev container is the one that [`build_provider`]
/// gives for the same directory, engine, configuration and `SELinux` state:
/// every container that [`Devcontainer::load`] returns names each key once and
/// has a backend that matches them, as does every backend `build_provider`
/// returns.
pub proof fn law_loaded_backend_is_build_providers(
    d: Devcontainer,
    b: Backend,
    directory: Seq<char>,
    selinux_enforcing: bool,
)
    requires
        maps_keys_unique(d.config),
        backend_matches(d.provider, directory, d.settings.provider, d.config, selinux_enforcing),
        backend_matches(b, directory, d.settings.provider, d.config, selinux_enforcing),
    ensures
        same_backend(d.provider, b),
{
    law_backend_determined(d.provider, b, directory, d.settings.provider, d.config, selinux_enforcing);
}

/// Two lists ordered by key, each naming a key once, with the same elements,
/// are equal.
proof fn lemma_sorted_unique_equal(v1: Seq<(Seq<char>, Seq<char>)>, v2: Seq<(Seq<char>, Seq<char>)>)
    requires
        v1.to_multiset() == v2.to_multiset(),
        sorted_by(v1, |a: (Seq<char>, Seq<char>), b: (Seq<char>, Seq<char>)| key_order(a, b)),
        sorted_by(v2, |a: (Seq<char>, Seq<char>), b: (Seq<char>, Seq<char>)| key_order(a, b)),
        keys_unique(v1),
        keys_unique(v2),
    ensures
        v1 == v2,
    decreases v1.len(),
{
    broadcast use vstd::seq_lib::group_to_multiset_ensures;
    v1.to_multiset_ensures();
    v2.to_multiset_ensures();
    if v1.len() == 0 {
        assert(v2.len() == 0);
        assert(v1 =~= v2);
        return;
    }
    assert(v2.len() == v1.len());
    let x = v1[0];
    let y = v2[0];
    assert(v1.to_multiset().count(x) > 0);
    assert(v2.contains(x));
    let k = choose|k: int| 0 <= k < v2.len() && v2[k] == x;
    assert(v2.to_multiset().count(y) > 0);
    assert(v1.contains(y));
    let m = choose|m: int| 0 <= m < v1.len() && v1[m] == y;
    let leq = |a: (Seq<char>, Seq<char>), b: (Seq<char>, Seq<char>)| key_order(a, b);
    if m > 0 && k > 0 {
        assert(leq(v1[0], v1[m]));
        assert(leq(v2[0], v2[k]));
        lemma_lex_antisymmetric(x.0, y.0);
        assert(v2[0].0 != v2[k].0);
    }
    assert(x == y);
    let r1 = v1.drop_first();
    let r2 = v2.drop_first();
    assert(v1.remove(0) =~= r1);
    assert(v2.remove(0) =~= r2);
    assert(r1.to_multiset() == r2.to_multiset());
    assert forall|i: int, j: int| 0 <= i < j < r1.len() implies #[trigger] leq(r1[i], r1[j]) by {
        assert(leq(v1[i + 1], v1[j + 1]));
    }
    assert forall|i: int, j: int| 0 <= i < j < r2.len() implies #[trigger] leq(r2[i], r2[j]) by {
        assert(leq(v2[i + 1], v2[j + 1]));
    }
    assert forall|i: int, j: int| 0 <= i < j < r1.len() implies #[trigger] r1[i].0 != #[trigger] r1[j].0 by {
        assert(v1[i + 1].0 != v1[j + 1].0);
    }
    assert forall|i: int, j: int| 0 <= i < j < r2.len() implies #[trigger] r2[i].0 != #[trigger] r2[j].0 by {
        assert(v2[i + 1].0 != v2[j + 1].0);
    }
    lemma_sorted_unique_equal(r1, r2);
    assert(v1 =~= seq![x] + r1);
    assert(v2 =~= seq![y] + r2);
}

/// The container name chosen for `config` (meaningful when there is one).
pub open spec fn name_of(config: Config) -> Seq<char> {
    safe_name_spec(lowercase_of(config.name@))->0
}

/// The build context that Podman sends: the workspace, or `build.context` joined to it.
pub open spec fn podman_context_spec(directory: Seq<char>, config: Config) -> Seq<char> {
    match context_of(config) {
        Some(ctx) => path_join_spec(directory, ctx),
        None => directory,
    }
}

/// The backend that `config` and the engine choice give, when nothing fails.
pub open spec fn backend_matches(
    b: Backend,
    directory: Seq<char>,
    engine: settings::Provider,
    config: Config,
    selinux_enforcing: bool,
) -> bool {
    let name = name_of(config);
    let compose = compose_spec(directory, config);
    match b {
        Backend::DockerCompose(d) => {
            &&& engine == settings::Provider::Docker
            &&& config.docker_compose_file is Some
            &&& d.build_args.deep_view() == build_args_spec(config)
            &&& d.command@ == "docker"@
            &&& sorted_env_of(d.env_vars.deep_view(), config)
            &&& compose == Ok::<(Seq<char>, Seq<char>), (FailureKind, Seq<char>)>((d.file@, d.service@))
            &&& d.name@ == name
            &&& d.shell@ == "sh"@
            &&& d.user@ == config.remote_user@
            &&& d.workspace_folder@ == config.workspace_folder@
        },
        Backend::PodmanCompose(p) => {
            &&& engine == settings::Provider::Podman
            &&& config.docker_compose_file is Some
            &&& p.build_args.deep_view() == build_args_spec(config)
            &&& p.command@ == "podman-compose"@
            &&& sorted_env_of(p.env_vars.deep_view(), config)
            &&& compose == Ok::<(Seq<char>, Seq<char>), (FailureKind, Seq<char>)>((p.file@, p.service@))
            &&& p.name@ == name
            &&& p.podman_command@ == "podman"@
            &&& p.selinux_relabel == match config.selinux_relabel { Some(b) => b, None => selinux_enforcing }
            &&& p.shell@ == "sh"@
            &&& p.user@ == config.remote_user@
            &&& p.workspace_folder@ == config.workspace_folder@
        },
        Backend::Docker(d) => {
            &&& engine == settings::Provider::Docker
            &&& config.docker_compose_file is None
            &&& d.build_args.deep_view() == build_args_spec(config)
            &&& build_source_spec(directory, config) == Ok::<(bool, Seq<char>), (FailureKind, Seq<char>)>(source_view(d.build_source))
            &&& d.command@ == "docker"@
            &&& d.directory@ == directory
            &&& d.forward_ports@ == config.forward_ports@
            &&& d.name@ == name
            &&& d.override_command == config.override_command
            &&& d.run_args.deep_view() == config.run_args.deep_view()
            &&& d.mounts.deep_view() == config.mounts.deep_view()
            &&& d.user@ == config.remote_user@
            &&& d.workspace_folder@ == config.workspace_folder@
        },
        Backend::Podman(p) => {
            &&& engine == settings::Provider::Podman
            &&& config.docker_compose_file is None
            &&& p.build_args.deep_view() == build_args_spec(config)
            &&& p.build_context@ == podman_context_spec(directory, config)
            &&& build_source_spec(directory, config) == Ok::<(bool, Seq<char>), (FailureKind, Seq<char>)>(source_view(p.build_source))
            &&& p.command@ == "podman"@
            &&& p.directory@ == directory
            &&& p.forward_ports@ == config.forward_ports@
            &&& p.name@ == name
            &&& p.override_command == config.override_command
            &&& p.run_args.deep_view() == config.run_args.deep_view()
            &&& p.mounts.deep_view() == config.mounts.deep_view()
            &&& p.user@ == config.remote_user@
            &&& p.workspace_folder@ == config.workspace_folder@
        },
    }
}

/// A copy of a list of strings.
fn clone_strings(v: &Vec<String>) -> (r: Vec<String>)
    ensures
        r.deep_view() == v.deep_view(),
{
    let mut r: Vec<String> = Vec::new();
    push_all(&mut r, v);
    assert(r.deep_view() =~= v.deep_view());
    r
}

/// A copy of the mounts.
fn clone_mounts(m: &Option<Vec<Vec<(String, String)>>>) -> (r: Option<Vec<Vec<(String, String)>>>)
    ensures
        r.deep_view() == m.deep_view(),
{
    match m {
        None => None,
        Some(list) => {
            let mut out: Vec<Vec<(String, String)>> = Vec::new();
            let mut i: usize = 0;
            while i < list.len()
                invariant
                    i <= list@.len(),
                    out.deep_view() =~= list.deep_view().take(i as int),
                decreases list@.len() - i,
            {
                let ghost before = out.deep_view();
                out.push(clone_pairs(&list[i]));
                assert(out.deep_view() =~= before.push(list.deep_view()[i as int]));
                i = i + 1;
            }
            assert(list.deep_view().take(list@.len() as int) =~= list.deep_view());
            Some(out)
        },
    }
}

/// A copy of the forwarded ports.
fn clone_ports(v: &Vec<u16>) -> (r: Vec<u16>)
    ensures
        r@ == v@,
{
    let mut r: Vec<u16> = Vec::new();
    let mut i: usize = 0;
    while i < v.len()
        invariant
            i <= v@.len(),
            r@ =~= v@.take(i as int),
        decreases v@.len() - i,
    {
        r.push(v[i]);
        i = i + 1;
    }
    assert(v@.take(v@.len() as int) =~= v@);
    r
}

/// Choose and configure the container engine backend for `config` in `directory`.
///
/// `engine` is the user's choice of Docker or Podman; `selinux_enforcing` is
/// whether `SELinux` enforces on the host (consulted only when the configuration
/// does not say whether to relabel the SSH socket). Returns the backend and the
/// warnings to report, or the first failure.
pub fn build_provider(
    directory: &str,
    engine: settings::Provider,
    config: &Config,
    selinux_enforcing: bool,
) -> (r: Result<(Backend, Vec<String>), IoFailure>)
    ensures
        r is Err <==> backend_failure(directory@, *config) is Some,
        r is Err ==> Some(failure_view(r->Err_0)) == backend_failure(directory@, *config),
        r is Ok ==> backend_matches(r->Ok_0.0, directory@, engine, *config, selinux_enforcing)
            && r->Ok_0.1.deep_view() == backend_warnings(directory@, *config),
{
    let name = match config.safe_name() {
        Ok(n) => n,
        Err(e) => {
            let msg = e.message();
            return Err(failure(FailureKind::InvalidInput, msg));
        },
    };
    let mut warnings: Vec<String> = Vec::new();
    if let Some(n) = config.name_notice() {
        warnings.push(n);
    }
    let ghost notice = warnings.deep_view();
    if config.is_compose() {
        let (file, service) = match compose_path_and_service(directory, config) {
            Ok(p) => p,
            Err(f) => return Err(f),
        };
        let backend = match engine {
            settings::Provider::Docker => Backend::DockerCompose(DockerCompose {
                build_args: config.build_args(),
                command: owned("docker"),
                env_vars: sorted_env_vars(config),
                file,
                name,
                service,
                shell: owned("sh"),
                user: config.remote_user.clone(),
                workspace_folder: config.workspace_folder.clone(),
            }),
            settings::Provider::Podman => {
                let selinux_relabel = match config.selinux_relabel {
                    Some(b) => b,
                    None => selinux_enforcing,
                };
                Backend::PodmanCompose(PodmanCompose {
                    build_args: config.build_args(),
                    command: owned("podman-compose"),
                    env_vars: sorted_env_vars(config),
                    file,
                    name,
                    podman_command: owned("podman"),
                    selinux_relabel,
                    service,
                    shell: owned("sh"),
                    user: config.remote_user.clone(),
                    workspace_folder: config.workspace_folder.clone(),
                })
            },
        };
        return Ok((backend, warnings));
    }
    let context: Option<&str> = match &config.build {
        Some(b) => match &b.context {
            Some(c) => Some(c.as_str()),
            None => None,
        },
        None => None,
    };
    if let Some(ctx) = context {
        match validate_build_context(directory, ctx) {
            Ok(Some(w)) => {
                warnings.push(w);
                assert(warnings.deep_view() =~= notice.push(w@));
            },
            Ok(None) => {},
            Err(f) => return Err(f),
        }
    }
    assert(warnings.deep_view() =~= backend_warnings(directory@, *config));
    match validate_mounts(directory, &config.mounts) {
        Ok(()) => {},
        Err(f) => return Err(f),
    }
    let source = match build_source(directory, config) {
        Ok(s) => s,
        Err(f) => return Err(f),
    };
    let backend = match engine {
        settings::Provider::Docker => Backend::Docker(Docker {
            build_args: config.build_args(),
            build_source: source,
            command: owned("docker"),
            directory: owned(directory),
            forward_ports: clone_ports(&config.forward_ports),
            name,
            override_command: config.override_command,
            run_args: clone_strings(&config.run_args),
            mounts: clone_mounts(&config.mounts),
            user: config.remote_user.clone(),
            workspace_folder: config.workspace_folder.clone(),
        }),
        settings::Provider::Podman => {
            let build_context = match context {
                Some(ctx) => path_join(directory, ctx),
                None => owned(directory),
            };
            Backend::Podman(Podman {
                build_args: config.build_args(),
                build_context,
                build_source: source,
                command: owned("podman"),
                directory: owned(directory),
                forward_ports: clone_ports(&config.forward_ports),
                mounts: clone_mounts(&config.mounts),
                name,
                run_args: clone_strings(&config.run_args),
                override_command: config.override_command,
                user: config.remote_user.clone(),
                workspace_folder: config.workspace_folder.clone(),
            })
        },
    };
    Ok((backend, warnings))
}

/// A loaded and configured dev container instance.
#[derive(Debug)]
pub struct Devcontainer {
    pub config: Config,
    pub provider: Backend,
    pub settings: Settings,
    /// Warnings found while loading, to report on standard error.
    pub warnings: Vec<String>,
}

/// Where the configuration file is looked for, in order:
/// `.devcontainer/devcontainer.json`, then `.devcontainer.json`.
pub fn config_file_candidates(directory: &str) -> (r: (String, String))
    ensures
        r.0@ == path_join_spec(path_join_spec(directory@, ".devcontainer"@), "devcontainer.json"@),
        r.1@ == path_join_spec(directory@, ".devcontainer.json"@),
{
    let dir = path_join(directory, ".devcontainer");
    (path_join(dir.as_str(), "devcontainer.json"), path_join(directory, ".devcontainer.json"))
}

/// The failure when neither configuration file exists.
pub fn missing_config_failure() -> (r: IoFailure)
    ensures
        failure_view(r) == (FailureKind::NotFound,
            "Could not find .devcontainer/devcontainer.json or .devcontainer.json"@),
{
    failure(FailureKind::NotFound, owned("Could not find .devcontainer/devcontainer.json or .devcontainer.json"))
}

/// The failure when the configuration file `file` cannot be parsed; `detail` is
/// the parse error's message.
pub fn parse_failure(file: &str, detail: &str) -> (r: IoFailure)
    ensures
        failure_view(r) == (FailureKind::InvalidData, "could not parse "@ + file@ + ": "@ + detail@),
{
    let a = concat3("could not parse ", file, ": ");
    failure(FailureKind::InvalidData, concat2(a.as_str(), detail))
}

/// The failure when the user settings cannot be loaded; `detail` is the error's message.
pub fn settings_failure(detail: &str) -> (r: IoFailure)
    ensures
        failure_view(r) == (FailureKind::InvalidData, detail@),
{
    failure(FailureKind::InvalidData, owned(detail))
}

/// The message for a configuration whose maps name a key twice.
pub open spec fn duplicate_key_message() -> Seq<char> {
    "devcontainer.json names a key twice in remoteEnv, build.args or mounts"@
}

/// The extra arguments of the container create step: `-e KEY=VALUE` for each
/// remote environment variable, `-w <workspaceFolder>`, then `runArgs`.
pub open spec fn create_args_spec(config: Config) -> Seq<Seq<char>> {
    pair_flags("-e"@, config.remote_env.deep_view()) + seq!["-w"@, config.workspace_folder@]
        + config.run_args.deep_view()
}

impl Devcontainer {
    /// Assemble a dev container from its parsed configuration and the user
    /// settings, selecting the container engine backend.
    ///
    /// `directory` is the project directory; `selinux_enforcing` is whether
    /// `SELinux` enforces on the host.
    ///
    /// A configuration whose maps name a key twice is refused first (a map read
    /// from `devcontainer.json` never does).
    pub fn load(directory: &str, config: Config, settings: Settings, selinux_enforcing: bool)
        -> (r: Result<Devcontainer, IoFailure>)
        ensures
            r is Err <==> !maps_keys_unique(config) || backend_failure(directory@, config) is Some,
            !maps_keys_unique(config) ==> r is Err
                && failure_view(r->Err_0) == (FailureKind::InvalidData, duplicate_key_message()),
            maps_keys_unique(config) && r is Err ==> Some(failure_view(r->Err_0)) == backend_failure(directory@, config),
            r is Ok ==> r->Ok_0.config == config && r->Ok_0.settings == settings
                && maps_keys_unique(config)
                && backend_matches(r->Ok_0.provider, directory@, settings.provider, config, selinux_enforcing)
                && r->Ok_0.warnings.deep_view() == backend_warnings(directory@, config),
    {
        if !config.has_unique_keys() {
            return Err(failure(FailureKind::InvalidData, owned(
                "devcontainer.json names a key twice in remoteEnv, build.args or mounts",
            )));
        }
        match build_provider(directory, settings.provider, &config, selinux_enforcing) {
            Ok((provider, warnings)) => Ok(Devcontainer { config, provider, settings, warnings }),
            Err(f) => Err(f),
        }
    }

    /// Build the list of extra arguments passed to the container create command
    /// (environment variables, working directory, and `runArgs` from config).
    pub fn create_args(&self) -> (r: Vec<String>)
        ensures
            r.deep_view() == create_args_spec(self.config),
    {
        let mut args: Vec<String> = Vec::new();
        push_pair_flags(&mut args, "-e", &self.config.remote_env);
        let ghost a0 = args.deep_view();
        args.push(owned("-w"));
        args.push(self.config.workspace_folder.clone());
        let ghost a1 = args.deep_view();
        push_all(&mut args, &self.config.run_args);
        assert(a1 =~= a0 + seq!["-w"@, self.config.workspace_folder@]);
        args
    }
}

/// The mount `m` has a relative `source` entry that leads outside `root`.
pub open spec fn mount_escapes(root: Seq<char>, m: Seq<(Seq<char>, Seq<char>)>) -> bool {
    match lookup(m, "source"@) {
        Some(src) => !is_absolute_spec(src) && !within_root_spec(root, src),
        None => false,
    }
}

/// A mount's entry for `key` is its first entry with that key: there is none
/// exactly when no entry has that key.
pub proof fn law_lookup_first(entries: Seq<(Seq<char>, Seq<char>)>, key: Seq<char>)
    ensures
        lookup(entries, key) is None <==> (forall|i: int| 0 <= i < entries.len() ==> (#[trigger] entries[i]).0 != key),
        lookup(entries, key) is Some ==> exists|i: int| 0 <= i < entries.len() && (#[trigger] entries[i]).0 == key
            && lookup(entries, key) == Some(entries[i].1)
            && forall|j: int| 0 <= j < i ==> (#[trigger] entries[j]).0 != key,
    decreases entries.len(),
{
    if entries.len() == 0 {
        return;
    }
    let rest = entries.drop_first();
    law_lookup_first(rest, key);
    assert forall|i: int| 1 <= i < entries.len() implies #[trigger] entries[i] == rest[i - 1] by {}
    if entries[0].0 != key {
        if lookup(rest, key) is None {
            assert forall|i: int| 0 <= i < entries.len() implies (#[trigger] entries[i]).0 != key by {
                if i >= 1 {
                    assert(entries[i] == rest[i - 1]);
                }
            }
        } else {
            let k = choose|k: int| 0 <= k < rest.len() && (#[trigger] rest[k]).0 == key
                && lookup(rest, key) == Some(rest[k].1)
                && forall|j: int| 0 <= j < k ==> (#[trigger] rest[j]).0 != key;
            assert(entries[k + 1] == rest[k]);
            assert forall|j: int| 0 <= j < k + 1 implies (#[trigger] entries[j]).0 != key by {
                if j >= 1 {
                    assert(entries[j] == rest[j - 1]);
                }
            }
        }
    }
}

/// Every mount is checked: no mount is refused exactly when none has a relative
/// `source` that leads outside `root`, and a refusal names the first mount that
/// does.
pub proof fn law_every_mount_checked(root: Seq<char>, mounts: Seq<Seq<(Seq<char>, Seq<char>)>>)
    ensures
        mount_violation(root, mounts) is None <==> (forall|i: int| 0 <= i < mounts.len() ==> !mount_escapes(root, #[trigger] mounts[i])),
        mount_violation(root, mounts) is Some ==> exists|i: int| 0 <= i < mounts.len()
            && mount_escapes(root, #[trigger] mounts[i])
            && mount_violation(root, mounts) == Some(outside_root_message(root, lookup(mounts[i], "source"@)->0))
            && forall|j: int| 0 <= j < i ==> !mount_escapes(root, #[trigger] mounts[j]),
    decreases mounts.len(),
{
    if mounts.len() == 0 {
        return;
    }
    let rest = mounts.drop_first();
    law_every_mount_checked(root, rest);
    if !mount_escapes(root, mounts[0]) {
        assert(mount_violation(root, mounts) == mount_violation(root, rest));
        if mount_violation(root, rest) is None {
            assert forall|i: int| 0 <= i < mounts.len() implies !mount_escapes(root, #[trigger] mounts[i]) by {
                if i >= 1 {
                    assert(mounts[i] == rest[i - 1]);
                }
            }
        } else {
            let k = choose|k: int| 0 <= k < rest.len() && mount_escapes(root, #[trigger] rest[k])
                && mount_violation(root, rest) == Some(outside_root_message(root, lookup(rest[k], "source"@)->0))
                && forall|j: int| 0 <= j < k ==> !mount_escapes(root, #[trigger] rest[j]);
            assert(mounts[k + 1] == rest[k]);
            assert forall|j: int| 0 <= j < k + 1 implies !mount_escapes(root, #[trigger] mounts[j]) by {
                if j >= 1 {
                    assert(mounts[j] == rest[j - 1]);
                }
            }
        }
    }
}

} // verus!
