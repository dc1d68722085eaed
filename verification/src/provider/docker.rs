//! The Docker backend: the command lines it runs.

use vstd::prelude::*;
use crate::listing::{name_listed, name_listed_in, output_text, text_or_empty};
use crate::provider::{
    key_value, pair_flags, push_all, push_all_str, push_pair_flags, CommandLine,
};
use crate::text::{concat2, concat3, decimal, decimal_spec, join, join_spec, law_join_concat, owned};

verus! {

/// Source used to obtain the container image for a provider.
#[derive(Debug)]
pub enum BuildSource {
    /// Build from a Dockerfile at the given path.
    Dockerfile(String),
    /// Pull a pre-built image by name.
    Image(String),
}

/// The Docker backend: runs the `docker` command line tool.
#[derive(Debug)]
pub struct Docker {
    pub build_args: Vec<(String, String)>,
    pub build_source: BuildSource,
    pub command: String,
    pub directory: String,
    pub forward_ports: Vec<u16>,
    pub name: String,
    pub run_args: Vec<String>,
    pub mounts: Option<Vec<Vec<(String, String)>>>,
    pub user: String,
    pub workspace_folder: String,
    pub override_command: bool,
}

/// The tag of an image built for container `name`.
pub open spec fn image_tag(name: Seq<char>) -> Seq<char> {
    "devcont/"@ + name
}

/// The image a container of `name` is created from.
pub open spec fn image_of(source: BuildSource, name: Seq<char>) -> Seq<char> {
    match source {
        BuildSource::Dockerfile(_) => image_tag(name),
        BuildSource::Image(i) => i@,
    }
}

/// `--publish P:P` for each forwarded port, in order.
pub open spec fn publish_flags(ports: Seq<u16>) -> Seq<Seq<char>>
    decreases ports.len(),
{
    if ports.len() == 0 {
        Seq::empty()
    } else {
        let p = decimal_spec(ports.last() as nat);
        publish_flags(ports.drop_last()) + seq!["--publish"@, p + ":"@ + p]
    }
}

/// `key=value` entries of one mount joined with `,`.
pub open spec fn mount_spec(mount: Seq<(Seq<char>, Seq<char>)>) -> Seq<char> {
    join_spec(mount.map_values(|p: (Seq<char>, Seq<char>)| key_value(p)), ","@)
}

/// `--mount <spec>` for each mount, in order.
pub open spec fn mount_flags(mounts: Seq<Seq<(Seq<char>, Seq<char>)>>) -> Seq<Seq<char>>
    decreases mounts.len(),
{
    if mounts.len() == 0 {
        Seq::empty()
    } else {
        mount_flags(mounts.drop_last()) + seq!["--mount"@, mount_spec(mounts.last())]
    }
}

/// The mounts of a backend as plain values; none when absent.
pub open spec fn mounts_view(m: Option<Vec<Vec<(String, String)>>>) -> Seq<Seq<(Seq<char>, Seq<char>)>> {
    match m {
        Some(v) => v.deep_view(),
        None => Seq::empty(),
    }
}

/// The arguments that forward the SSH agent socket, when there is one.
pub open spec fn ssh_agent_flags(sock: Option<Seq<char>>) -> Seq<Seq<char>> {
    match sock {
        Some(s) => seq!["--volume"@, s + ":/ssh-agent"@, "--env"@, "SSH_AUTH_SOCK=/ssh-agent"@],
        None => Seq::empty(),
    }
}

/// The command that keeps a container alive when `overrideCommand` is set.
pub open spec fn keep_alive_args(shell: Seq<char>, enabled: bool) -> Seq<Seq<char>> {
    if enabled { seq![shell, "-c"@, "while sleep 1000; do :; done"@] } else { Seq::empty() }
}

/// The view of an optional string.
pub open spec fn opt_str(o: Option<String>) -> Option<Seq<char>> {
    match o {
        Some(s) => Some(s@),
        None => None,
    }
}

/// Appends `--publish P:P` for each port.
pub fn push_publish_flags(out: &mut Vec<String>, ports: &Vec<u16>)
    ensures
        final(out).deep_view() == old(out).deep_view() + publish_flags(ports@),
{
    let ghost start = out.deep_view();
    let mut i: usize = 0;
    assert(ports@.take(0) =~= Seq::<u16>::empty());
    assert(start + Seq::<Seq<char>>::empty() =~= start);
    while i < ports.len()
        invariant
            i <= ports@.len(),
            out.deep_view() == start + publish_flags(ports@.take(i as int)),
        decreases ports@.len() - i,
    {
        let ghost before = out.deep_view();
        let p = decimal(ports[i] as u64);
        out.push(owned("--publish"));
        out.push(concat3(p.as_str(), ":", p.as_str()));
        assert(ports@.take(i + 1).drop_last() =~= ports@.take(i as int));
        assert(ports@.take(i + 1).last() == ports@[i as int]);
        assert(out.deep_view() =~= before + seq!["--publish"@, p@ + ":"@ + p@]);
        i = i + 1;
    }
    assert(ports@.take(ports@.len() as int) =~= ports@);
}

/// The `key=value` entries of one mount joined with `,`.
pub fn mount_entry(mount: &Vec<(String, String)>) -> (r: String)
    ensures
        r@ == mount_spec(mount.deep_view()),
{
    let mut parts: Vec<String> = Vec::new();
    let mut i: usize = 0;
    while i < mount.len()
        invariant
            i <= mount@.len(),
            parts.deep_view() =~= mount.deep_view().take(i as int).map_values(
                |p: (Seq<char>, Seq<char>)| key_value(p),
            ),
        decreases mount@.len() - i,
    {
        let (k, v) = &mount[i];
        let ghost before = parts.deep_view();
        parts.push(concat3(k.as_str(), "=", v.as_str()));
        assert(parts.deep_view() =~= before.push(key_value(mount.deep_view()[i as int])));
        i = i + 1;
    }
    assert(mount.deep_view().take(mount@.len() as int) =~= mount.deep_view());
    join(&parts, ",")
}

/// Appends `--mount <spec>` for each mount.
pub fn push_mount_flags(out: &mut Vec<String>, mounts: &Option<Vec<Vec<(String, String)>>>)
    ensures
        final(out).deep_view() == old(out).deep_view() + mount_flags(mounts_view(*mounts)),
{
    let ghost start = out.deep_view();
    match mounts {
        None => {
            assert(start + Seq::<Seq<char>>::empty() =~= start);
        },
        Some(ms) => {
            let ghost all = ms.deep_view();
            let mut i: usize = 0;
            assert(all.take(0) =~= Seq::<Seq<(Seq<char>, Seq<char>)>>::empty());
            assert(start + Seq::<Seq<char>>::empty() =~= start);
            while i < ms.len()
                invariant
                    all == ms.deep_view(),
                    i <= ms@.len(),
                    out.deep_view() == start + mount_flags(all.take(i as int)),
                decreases ms@.len() - i,
            {
                let ghost before = out.deep_view();
                out.push(owned("--mount"));
                out.push(mount_entry(&ms[i]));
                assert(all.take(i + 1).drop_last() =~= all.take(i as int));
                assert(all.take(i + 1).last() == ms@[i as int].deep_view());
                assert(out.deep_view() =~= before + seq!["--mount"@, mount_spec(all[i as int])]);
                i = i + 1;
            }
            assert(all.take(ms@.len() as int) =~= all);
        },
    }
}

/// Appends the SSH agent forwarding arguments, when there is a socket.
pub fn push_ssh_agent_flags(out: &mut Vec<String>, sock: &Option<String>)
    ensures
        final(out).deep_view() == old(out).deep_view() + ssh_agent_flags(opt_str(*sock)),
{
    let ghost start = out.deep_view();
    match sock {
        Some(s) => {
            out.push(owned("--volume"));
            out.push(concat2(s.as_str(), ":/ssh-agent"));
            out.push(owned("--env"));
            out.push(owned("SSH_AUTH_SOCK=/ssh-agent"));
            assert(out.deep_view() =~= start + ssh_agent_flags(opt_str(*sock)));
        },
        None => {
            assert(out.deep_view() =~= start + ssh_agent_flags(opt_str(*sock)));
        },
    }
}

/// Returns true if any name in `output` (newline-separated) exactly matches `name`.
pub fn exact_name_match(output: Vec<u8>, name: &str) -> (r: bool)
    ensures
        r == name_listed(text_or_empty(output@), name@),
{
    let text = output_text(output);
    name_listed_in(text.as_str(), name)
}

/// A command line with `program` and the given arguments.
pub open spec fn command_is(c: CommandLine, program: Seq<char>, args: Seq<Seq<char>>) -> bool {
    c.program@ == program && c.args.deep_view() == args
}

/// The arguments of the Docker build step.
pub open spec fn docker_build_args(d: Docker, use_cache: bool) -> Seq<Seq<char>> {
    match d.build_source {
        BuildSource::Dockerfile(path) =>
            seq!["build"@, "-t"@, image_tag(d.name@), "-f"@, path@]
            + (if use_cache { Seq::empty() } else { seq!["--no-cache"@] })
            + pair_flags("--build-arg"@, d.build_args.deep_view())
            + seq![d.directory@],
        BuildSource::Image(image) => seq!["pull"@, image@],
    }
}

/// The arguments of the Docker create step.
pub open spec fn docker_create_args(d: Docker, extra: Seq<Seq<char>>, sock: Option<Seq<char>>) -> Seq<Seq<char>> {
    seq!["create"@, "--mount"@, "type=bind,source="@ + d.directory@ + ",target="@ + d.workspace_folder@]
        + ssh_agent_flags(sock)
        + publish_flags(d.forward_ports@)
        + extra
        + d.run_args.deep_view()
        + mount_flags(mounts_view(d.mounts))
        + seq!["-it"@, "--name"@, d.name@, "-u"@, d.user@, "-w"@, d.workspace_folder@,
            image_of(d.build_source, d.name@)]
        + keep_alive_args("/bin/sh"@, d.override_command)
}

/// The arguments of `docker exec` into the container, up to the program.
pub open spec fn docker_exec_prefix(d: Docker) -> Seq<Seq<char>> {
    seq!["exec"@, "-u"@, d.user@, "-w"@, d.workspace_folder@, d.name@]
}

impl Docker {
    fn simple(&self, verb: &str) -> (r: CommandLine)
        ensures
            command_is(r, self.command@, seq![verb@, self.name@]),
    {
        let mut args: Vec<String> = Vec::new();
        args.push(owned(verb));
        args.push(self.name.clone());
        assert(args.deep_view() =~= seq![verb@, self.name@]);
        CommandLine { program: self.command.clone(), args }
    }

    /// The command that builds (or pulls) the image. `use_cache = false` adds `--no-cache`.
    pub fn build_command(&self, use_cache: bool) -> (r: CommandLine)
        ensures
            command_is(r, self.command@, docker_build_args(*self, use_cache)),
    {
        let mut args: Vec<String> = Vec::new();
        match &self.build_source {
            BuildSource::Dockerfile(path) => {
                args.push(owned("build"));
                args.push(owned("-t"));
                args.push(concat2("devcont/", self.name.as_str()));
                args.push(owned("-f"));
                args.push(path.clone());
                let ghost a1 = args.deep_view();
                if !use_cache {
                    args.push(owned("--no-cache"));
                }
                let ghost a2 = args.deep_view();
                push_pair_flags(&mut args, "--build-arg", &self.build_args);
                let ghost a3 = args.deep_view();
                args.push(self.directory.clone());
                assert(a2 =~= a1 + (if use_cache { Seq::<Seq<char>>::empty() } else { seq!["--no-cache"@] }));
                assert(args.deep_view() =~= a3.push(self.directory@));
                assert(args.deep_view() =~= docker_build_args(*self, use_cache));
            },
            BuildSource::Image(image) => {
                args.push(owned("pull"));
                args.push(image.clone());
                assert(args.deep_view() =~= docker_build_args(*self, use_cache));
            },
        }
        CommandLine { program: self.command.clone(), args }
    }

    /// The command that creates the container. `extra` are the session's extra
    /// arguments; `ssh_auth_sock` is the host's SSH agent socket, if any.
    pub fn create_command(&self, extra: &Vec<String>, ssh_auth_sock: &Option<String>) -> (r: CommandLine)
        ensures
            command_is(r, self.command@, docker_create_args(*self, extra.deep_view(), opt_str(*ssh_auth_sock))),
    {
        let image = match &self.build_source {
            BuildSource::Dockerfile(_) => concat2("devcont/", self.name.as_str()),
            BuildSource::Image(name) => name.clone(),
        };
        let mut args: Vec<String> = Vec::new();
        args.push(owned("create"));
        args.push(owned("--mount"));
        let src = concat3("type=bind,source=", self.directory.as_str(), ",target=");
        args.push(concat2(src.as_str(), self.workspace_folder.as_str()));
        let ghost a0 = args.deep_view();
        push_ssh_agent_flags(&mut args, ssh_auth_sock);
        push_publish_flags(&mut args, &self.forward_ports);
        push_all(&mut args, extra);
        push_all(&mut args, &self.run_args);
        push_mount_flags(&mut args, &self.mounts);
        let ghost a1 = args.deep_view();
        args.push(owned("-it"));
        args.push(owned("--name"));
        args.push(self.name.clone());
        args.push(owned("-u"));
        args.push(self.user.clone());
        args.push(owned("-w"));
        args.push(self.workspace_folder.clone());
        args.push(image);
        let ghost a2 = args.deep_view();
        if self.override_command {
            args.push(owned("/bin/sh"));
            args.push(owned("-c"));
            args.push(owned("while sleep 1000; do :; done"));
        }
        assert(a0 =~= seq!["create"@, "--mount"@, "type=bind,source="@ + self.directory@ + ",target="@ + self.workspace_folder@]);
        assert(a2 =~= a1 + seq!["-it"@, "--name"@, self.name@, "-u"@, self.user@, "-w"@, self.workspace_folder@,
            image_of(self.build_source, self.name@)]);
        assert(args.deep_view() =~= a2 + keep_alive_args("/bin/sh"@, self.override_command));
        assert(args.deep_view() =~= docker_create_args(*self, extra.deep_view(), opt_str(*ssh_auth_sock)));
        CommandLine { program: self.command.clone(), args }
    }

    /// `docker start <name>`.
    pub fn start_command(&self) -> (r: CommandLine)
        ensures
            command_is(r, self.command@, seq!["start"@, self.name@]),
    {
        self.simple("start")
    }

    /// `docker stop <name>`.
    pub fn stop_command(&self) -> (r: CommandLine)
        ensures
            command_is(r, self.command@, seq!["stop"@, self.name@]),
    {
        self.simple("stop")
    }

    /// `docker restart <name>`.
    pub fn restart_command(&self) -> (r: CommandLine)
        ensures
            command_is(r, self.command@, seq!["restart"@, self.name@]),
    {
        self.simple("restart")
    }

    /// `docker attach <name>`.
    pub fn attach_command(&self) -> (r: CommandLine)
        ensures
            command_is(r, self.command@, seq!["attach"@, self.name@]),
    {
        self.simple("attach")
    }

    /// `docker rm <name>`.
    pub fn rm_command(&self) -> (r: CommandLine)
        ensures
            command_is(r, self.command@, seq!["rm"@, self.name@]),
    {
        self.simple("rm")
    }

    /// The listing whose output names the container when it exists; `all`
    /// includes stopped containers.
    pub fn list_command(&self, all: bool) -> (r: CommandLine)
        ensures
            command_is(r, self.command@,
                seq!["ps"@] + (if all { seq!["-a"@] } else { Seq::empty() })
                + seq!["--filter"@, "name="@ + self.name@, "--format"@, "{{.Names}}"@]),
    {
        let mut args: Vec<String> = Vec::new();
        args.push(owned("ps"));
        if all {
            args.push(owned("-a"));
        }
        let ghost a0 = args.deep_view();
        args.push(owned("--filter"));
        args.push(concat2("name=", self.name.as_str()));
        args.push(owned("--format"));
        args.push(owned("{{.Names}}"));
        assert(a0 =~= seq!["ps"@] + (if all { seq!["-a"@] } else { Seq::<Seq<char>>::empty() }));
        assert(args.deep_view() =~= seq!["ps"@] + (if all { seq!["-a"@] } else { Seq::<Seq<char>>::empty() })
            + seq!["--filter"@, "name="@ + self.name@, "--format"@, "{{.Names}}"@]);
        CommandLine { program: self.command.clone(), args }
    }

    /// `docker cp <source> <name>:<destination>`.
    pub fn cp_command(&self, source: &str, destination: &str) -> (r: CommandLine)
        ensures
            command_is(r, self.command@, seq!["cp"@, source@, self.name@ + ":"@ + destination@]),
    {
        let mut args: Vec<String> = Vec::new();
        args.push(owned("cp"));
        args.push(owned(source));
        args.push(concat3(self.name.as_str(), ":", destination));
        assert(args.deep_view() =~= seq!["cp"@, source@, self.name@ + ":"@ + destination@]);
        CommandLine { program: self.command.clone(), args }
    }

    fn exec_prefix(&self) -> (r: Vec<String>)
        ensures
            r.deep_view() == docker_exec_prefix(*self),
    {
        let mut args: Vec<String> = Vec::new();
        args.push(owned("exec"));
        args.push(owned("-u"));
        args.push(self.user.clone());
        args.push(owned("-w"));
        args.push(self.workspace_folder.clone());
        args.push(self.name.clone());
        assert(args.deep_view() =~= docker_exec_prefix(*self));
        args
    }

    /// Runs `cmd` in the container through `sh -c`.
    pub fn exec_command(&self, cmd: &str) -> (r: CommandLine)
        ensures
            command_is(r, self.command@, docker_exec_prefix(*self) + seq!["sh"@, "-c"@, cmd@]),
    {
        let mut args = self.exec_prefix();
        args.push(owned("sh"));
        args.push(owned("-c"));
        args.push(owned(cmd));
        assert(args.deep_view() =~= docker_exec_prefix(*self) + seq!["sh"@, "-c"@, cmd@]);
        CommandLine { program: self.command.clone(), args }
    }

    /// Runs `prog` with `extra` in the container, without a shell.
    pub fn exec_raw_command(&self, prog: &str, extra: &[&str]) -> (r: CommandLine)
        ensures
            command_is(r, self.command@, docker_exec_prefix(*self) + seq![prog@] + extra.deep_view()),
    {
        let mut args = self.exec_prefix();
        args.push(owned(prog));
        let ghost a0 = args.deep_view();
        push_all_str(&mut args, extra);
        assert(a0 =~= docker_exec_prefix(*self) + seq![prog@]);
        CommandLine { program: self.command.clone(), args }
    }
}

/// Every forwarded port is published, in order: for the `k`-th port `P`, the
/// tokens at `2k` and `2k + 1` are `--publish` and `P:P` (in decimal), and there
/// are no other tokens.
pub proof fn law_every_port_published(ports: Seq<u16>)
    ensures
        publish_flags(ports).len() == 2 * ports.len(),
        forall|k: int| 0 <= k < ports.len() ==> publish_flags(ports).subrange(2 * k, 2 * k + 2)
            == seq!["--publish"@, decimal_spec((#[trigger] ports[k]) as nat) + ":"@ + decimal_spec(ports[k] as nat)],
    decreases ports.len(),
{
    if ports.len() > 0 {
        let dl = ports.drop_last();
        law_every_port_published(dl);
        let r = publish_flags(ports);
        let head = publish_flags(dl);
        let p = decimal_spec(ports.last() as nat);
        assert(r == head + seq!["--publish"@, p + ":"@ + p]);
        assert forall|k: int| 0 <= k < ports.len() implies publish_flags(ports).subrange(2 * k, 2 * k + 2)
            == seq!["--publish"@, decimal_spec((#[trigger] ports[k]) as nat) + ":"@ + decimal_spec(ports[k] as nat)] by {
            if k < ports.len() - 1 {
                assert(dl[k] == ports[k]);
                assert(r.subrange(2 * k, 2 * k + 2) =~= head.subrange(2 * k, 2 * k + 2));
            } else {
                assert(ports.last() == ports[k]);
                assert(r.subrange(2 * k, 2 * k + 2) =~= seq!["--publish"@, p + ":"@ + p]);
            }
        }
    }
}

/// Every mount is passed, in order: for the `k`-th mount, the tokens at `2k` and
/// `2k + 1` are `--mount` and its spec, and there are no other tokens. The spec
/// of a mount holds each of its entries as `KEY=VALUE`, in order, with `,`
/// between them.
pub proof fn law_every_mount_passed(mounts: Seq<Seq<(Seq<char>, Seq<char>)>>)
    ensures
        mount_flags(mounts).len() == 2 * mounts.len(),
        forall|k: int| 0 <= k < mounts.len() ==> mount_flags(mounts).subrange(2 * k, 2 * k + 2)
            == seq!["--mount"@, mount_spec(#[trigger] mounts[k])],
        forall|e: (Seq<char>, Seq<char>)| #[trigger] mount_spec(seq![e]) == e.0 + "="@ + e.1,
        forall|m: Seq<(Seq<char>, Seq<char>)>, e: (Seq<char>, Seq<char>)| m.len() > 0 ==>
            #[trigger] mount_spec(m.push(e)) == mount_spec(m) + ","@ + (e.0 + "="@ + e.1),
    decreases mounts.len(),
{
    assert forall|e: (Seq<char>, Seq<char>)| #[trigger] mount_spec(seq![e]) == e.0 + "="@ + e.1 by {
        let one = seq![e].map_values(|p: (Seq<char>, Seq<char>)| key_value(p));
        assert(one =~= seq![key_value(e)]);
    }
    assert forall|m: Seq<(Seq<char>, Seq<char>)>, e: (Seq<char>, Seq<char>)| m.len() > 0 implies
        #[trigger] mount_spec(m.push(e)) == mount_spec(m) + ","@ + (e.0 + "="@ + e.1) by {
        let f = |p: (Seq<char>, Seq<char>)| key_value(p);
        let head = m.map_values(f);
        let tail = seq![e].map_values(f);
        assert(m.push(e).map_values(f) =~= head + tail);
        assert(tail =~= seq![key_value(e)]);
        law_join_concat(head, tail, ","@);
    }
    if mounts.len() > 0 {
        let dl = mounts.drop_last();
        law_every_mount_passed(dl);
        let r = mount_flags(mounts);
        let head = mount_flags(dl);
        assert(r == head + seq!["--mount"@, mount_spec(mounts.last())]);
        assert forall|k: int| 0 <= k < mounts.len() implies mount_flags(mounts).subrange(2 * k, 2 * k + 2)
            == seq!["--mount"@, mount_spec(#[trigger] mounts[k])] by {
            if k < mounts.len() - 1 {
                assert(dl[k] == mounts[k]);
                assert(r.subrange(2 * k, 2 * k + 2) =~= head.subrange(2 * k, 2 * k + 2));
            } else {
                assert(r.subrange(2 * k, 2 * k + 2) =~= seq!["--mount"@, mount_spec(mounts.last())]);
            }
        }
    }
}

} // verus!
