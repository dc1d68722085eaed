//! Helpers shared by the backends: Dockerfile location and compose override content.

use vstd::prelude::*;
use crate::devcontainers::paths::{path_join, path_join_spec};
use crate::provider::docker::opt_str;
use crate::text::{owned, trim, trim_spec};

verus! {

/// One entry of the compose override file: an environment variable
/// (`source=dest`) or a volume (`source:dest` followed by `suffix`).
#[derive(Debug)]
pub struct TemplateEntry {
    pub source: String,
    pub dest: String,
    pub suffix: String,
}

/// What the compose override file is rendered from.
#[derive(Debug)]
pub struct TemplateContext {
    pub service: String,
    pub envs: Vec<TemplateEntry>,
    pub volumes: Vec<TemplateEntry>,
}

/// The view of an entry.
pub open spec fn entry_view(e: TemplateEntry) -> (Seq<char>, Seq<char>, Seq<char>) {
    (e.source@, e.dest@, e.suffix@)
}

/// The views of a list of entries.
pub open spec fn entries_view(v: Seq<TemplateEntry>) -> Seq<(Seq<char>, Seq<char>, Seq<char>)> {
    v.map_values(|e: TemplateEntry| entry_view(e))
}

/// The environment entries of the override file.
pub open spec fn override_envs(env_vars: Seq<(Seq<char>, Seq<char>)>, sock: Option<Seq<char>>)
    -> Seq<(Seq<char>, Seq<char>, Seq<char>)>
{
    env_vars.map_values(|p: (Seq<char>, Seq<char>)| (p.0, p.1, Seq::<char>::empty()))
        + match sock {
            Some(_) => seq![("SSH_AUTH_SOCK"@, "/ssh-agent"@, Seq::<char>::empty())],
            None => Seq::empty(),
        }
}

/// The volume entries of the override file.
pub open spec fn override_volumes(sock: Option<Seq<char>>, selinux_relabel: bool)
    -> Seq<(Seq<char>, Seq<char>, Seq<char>)>
{
    match sock {
        Some(s) => seq![(s, "/ssh-agent"@, if selinux_relabel { ":z"@ } else { Seq::<char>::empty() })],
        None => Seq::empty(),
    }
}

/// What the compose override file holds: the SSH agent socket (when the host has
/// one) forwarded into `service`, and the environment variables `env_vars`.
///
/// When `selinux_relabel` is `true`, a `:z` label is appended to the SSH socket
/// volume mount so that `SELinux` allows the container to access the socket.
pub fn compose_override_context(
    service: &str,
    env_vars: &Vec<(String, String)>,
    selinux_relabel: bool,
    ssh_auth_sock: Option<String>,
) -> (r: TemplateContext)
    ensures
        r.service@ == service@,
        entries_view(r.envs@) == override_envs(env_vars.deep_view(),
            opt_str(ssh_auth_sock)),
        entries_view(r.volumes@) == override_volumes(
            opt_str(ssh_auth_sock), selinux_relabel),
{
    let ghost sock_view = opt_str(ssh_auth_sock);
    let mut envs: Vec<TemplateEntry> = Vec::new();
    let mut i: usize = 0;
    while i < env_vars.len()
        invariant
            i <= env_vars@.len(),
            entries_view(envs@) =~= env_vars.deep_view().take(i as int).map_values(
                |p: (Seq<char>, Seq<char>)| (p.0, p.1, Seq::<char>::empty()),
            ),
        decreases env_vars@.len() - i,
    {
        let (k, v) = &env_vars[i];
        let ghost before = envs@;
        envs.push(TemplateEntry { source: k.clone(), dest: v.clone(), suffix: String::new() });
        assert(envs@ =~= before.push(envs@.last()));
        assert(entries_view(envs@) =~= entries_view(before).push((k@, v@, Seq::<char>::empty())));
        i = i + 1;
    }
    assert(env_vars.deep_view().take(env_vars@.len() as int) =~= env_vars.deep_view());
    let ghost base = envs@;
    let mut volumes: Vec<TemplateEntry> = Vec::new();
    match ssh_auth_sock {
        Some(sock) => {
            let suffix = if selinux_relabel { owned(":z") } else { String::new() };
            volumes.push(TemplateEntry { source: sock, dest: owned("/ssh-agent"), suffix });
            envs.push(TemplateEntry {
                source: owned("SSH_AUTH_SOCK"),
                dest: owned("/ssh-agent"),
                suffix: String::new(),
            });
            assert(envs@ =~= base.push(envs@.last()));
            assert(entries_view(envs@) =~= entries_view(base) + seq![("SSH_AUTH_SOCK"@, "/ssh-agent"@, Seq::<char>::empty())]);
            assert(entries_view(volumes@) =~= override_volumes(sock_view, selinux_relabel));
        },
        None => {
            assert(entries_view(envs@) =~= entries_view(base) + Seq::<(Seq<char>, Seq<char>, Seq<char>)>::empty());
            assert(entries_view(volumes@) =~= override_volumes(sock_view, selinux_relabel));
        },
    }
    TemplateContext { service: owned(service), envs, volumes }
}

/// Where the Dockerfile is: an absolute `dockerfile` as it is; otherwise joined
/// to `context` (itself joined to `workspace`), or to `workspace` without one.
pub open spec fn dockerfile_path_spec(workspace: Seq<char>, dockerfile: Seq<char>, context: Option<Seq<char>>) -> Seq<char> {
    let base = match context {
        Some(ctx) => path_join_spec(workspace, ctx),
        None => workspace,
    };
    path_join_spec(base, dockerfile)
}

/// Resolve the Dockerfile path from config, relative to `context` if provided,
/// otherwise relative to `workspace`. Absolute paths are returned unchanged.
pub fn resolve_dockerfile_path(workspace: &str, dockerfile: &str, context: Option<&str>) -> (r: String)
    ensures
        r@ == dockerfile_path_spec(workspace@, dockerfile@, match context { Some(c) => Some(c@), None => None }),
        crate::devcontainers::paths::is_absolute_spec(dockerfile@) ==> r@ == dockerfile@,
{
    let base = match context {
        Some(ctx) => path_join(workspace, ctx),
        None => owned(workspace),
    };
    path_join(base.as_str(), dockerfile)
}

/// The `SELinux` enforce file reads `1` (surrounding white space aside).
pub fn selinux_enforce_text_on(contents: &str) -> (r: bool)
    ensures
        r == (trim_spec(contents@) == seq!['1']),
{
    let t = trim(contents);
    let v = crate::text::chars_of(t.as_str());
    let r = v.len() == 1 && v[0] == '1';
    proof {
        if r { assert(t@ =~= seq!['1']); }
        if t@ == seq!['1'] { assert(v@[0] == '1'); }
    }
    r
}

/// Every remote environment variable reaches the override file, in order: the
/// `k`-th entry is the `k`-th variable (name, value, no suffix); the SSH agent
/// socket adds one entry after them, and nothing else is there.
pub proof fn law_every_env_var_in_override(env_vars: Seq<(Seq<char>, Seq<char>)>, sock: Option<Seq<char>>)
    ensures
        override_envs(env_vars, sock).len() == env_vars.len() + (if sock is Some { 1int } else { 0int }),
        forall|k: int| 0 <= k < env_vars.len() ==>
            override_envs(env_vars, sock)[k] == ((#[trigger] env_vars[k]).0, env_vars[k].1, Seq::<char>::empty()),
        sock is Some ==> override_envs(env_vars, sock)[env_vars.len() as int]
            == ("SSH_AUTH_SOCK"@, "/ssh-agent"@, Seq::<char>::empty()),
{
    let r = override_envs(env_vars, sock);
    let m = env_vars.map_values(|p: (Seq<char>, Seq<char>)| (p.0, p.1, Seq::<char>::empty()));
    assert forall|k: int| 0 <= k < env_vars.len() implies
        r[k] == ((#[trigger] env_vars[k]).0, env_vars[k].1, Seq::<char>::empty()) by {
        assert(r[k] == m[k]);
    }
}

} // verus!
