//! The Podman backend: the command lines it runs.

use vstd::prelude::*;
use crate::provider::docker::{
    command_is, image_of, image_tag, keep_alive_args, mount_flags, mounts_view, opt_str,
    publish_flags, push_mount_flags, push_publish_flags, push_ssh_agent_flags, ssh_agent_flags,
    BuildSource,
};
use crate::provider::{pair_flags, push_all, push_all_str, push_pair_flags, CommandLine};
use crate::text::{concat2, concat3, owned};

verus! {

/// The Podman backend: runs the `podman` command line tool.
#[derive(Debug)]
pub struct Podman {
    pub build_args: Vec<(String, String)>,
    /// Path sent to Podman as the build context.
    /// Defaults to the workspace root; overridden by `build.context` in devcontainer.json.
    pub build_context: String,
    pub build_source: BuildSource,
    pub command: String,
    pub directory: String,
    pub forward_ports: Vec<u16>,
    pub mounts: Option<Vec<Vec<(String, String)>>>,
    pub name: String,
    pub run_args: Vec<String>,
    pub override_command: bool,
    pub user: String,
    pub workspace_folder: String,
}

/// The arguments of the Podman build step.
pub open spec fn podman_build_args(p: Podman, use_cache: bool) -> Seq<Seq<char>> {
    match p.build_source {
        BuildSource::Dockerfile(path) =>
            seq!["build"@, "-t"@, image_tag(p.name@), "-f"@, path@]
            + (if use_cache { Seq::empty() } else { seq!["--no-cache"@] })
            + pair_flags("--build-arg"@, p.build_args.deep_view())
            + seq![p.build_context@],
        BuildSource::Image(image) => seq!["pull"@, image@],
    }
}

/// The arguments of the Podman create step: the remote environment goes in as
/// `--env KEY=VALUE`, and `runArgs` once.
pub open spec fn podman_create_args(p: Podman, env: Seq<(Seq<char>, Seq<char>)>, sock: Option<Seq<char>>) -> Seq<Seq<char>> {
    seq!["create"@, "--userns=keep-id"@, "--security-opt"@, "label=disable"@, "--mount"@,
        "type=bind,source="@ + p.directory@ + ",target="@ + p.workspace_folder@]
        + ssh_agent_flags(sock)
        + publish_flags(p.forward_ports@)
        + pair_flags("--env"@, env)
        + p.run_args.deep_view()
        + mount_flags(mounts_view(p.mounts))
        + seq!["-it"@, "--name"@, p.name@, "-u"@, p.user@, "-w"@, p.workspace_folder@,
            image_of(p.build_source, p.name@)]
        + keep_alive_args("sh"@, p.override_command)
}

/// The arguments of `podman exec` into the container, up to the program.
pub open spec fn podman_exec_prefix(p: Podman) -> Seq<Seq<char>> {
    seq!["exec"@, "-u"@, p.user@, "-w"@, p.workspace_folder@, p.name@]
}

impl Podman {
    fn simple(&self, verb: &str) -> (r: CommandLine)
        ensures
            command_is(r, self.command@, seq![verb@, self.name@]),
    {
        let mut args: Vec<String> = Vec::new();
        args.push(owned(verb));
        args.push(self.name.clone());
        assert(args.deep_view() =~= seq![verb@, self.name@]);
        CommandLine { program: self.command.clone(), args }
    }

    /// The command that builds (or pulls) the image. `use_cache = false` adds `--no-cache`.
    pub fn build_command(&self, use_cache: bool) -> (r: CommandLine)
        ensures
            command_is(r, self.command@, podman_build_args(*self, use_cache)),
    {
        let mut args: Vec<String> = Vec::new();
        match &self.build_source {
            BuildSource::Dockerfile(path) => {
                args.push(owned("build"));
                args.push(owned("-t"));
                args.push(concat2("devcont/", self.name.as_str()));
                args.push(owned("-f"));
                args.push(path.clone());
                let ghost a1 = args.deep_view();
                if !use_cache {
                    args.push(owned("--no-cache"));
                }
                let ghost a2 = args.deep_view();
                push_pair_flags(&mut args, "--build-arg", &self.build_args);
                let ghost a3 = args.deep_view();
                args.push(self.build_context.clone());
                assert(a2 =~= a1 + (if use_cache { Seq::<Seq<char>>::empty() } else { seq!["--no-cache"@] }));
                assert(args.deep_view() =~= a3.push(self.build_context@));
                assert(args.deep_view() =~= podman_build_args(*self, use_cache));
            },
            BuildSource::Image(image) => {
                args.push(owned("pull"));
                args.push(image.clone());
                assert(args.deep_view() =~= podman_build_args(*self, use_cache));
            },
        }
        CommandLine { program: self.command.clone(), args }
    }

    /// The command that creates the container. `remote_env` is the configuration's
    /// remote environment; `ssh_auth_sock` is the host's SSH agent socket, if any.
    pub fn create_command(&self, remote_env: &Vec<(String, String)>, ssh_auth_sock: &Option<String>) -> (r: CommandLine)
        ensures
            command_is(r, self.command@, podman_create_args(*self, remote_env.deep_view(), opt_str(*ssh_auth_sock))),
    {
        let image = match &self.build_source {
            BuildSource::Dockerfile(_) => concat2("devcont/", self.name.as_str()),
            BuildSource::Image(name) => name.clone(),
        };
        let mut args: Vec<String> = Vec::new();
        args.push(owned("create"));
        args.push(owned("--userns=keep-id"));
        args.push(owned("--security-opt"));
        args.push(owned("label=disable"));
        args.push(owned("--mount"));
        let src = concat3("type=bind,source=", self.directory.as_str(), ",target=");
        args.push(concat2(src.as_str(), self.workspace_folder.as_str()));
        let ghost a0 = args.deep_view();
        push_ssh_agent_flags(&mut args, ssh_auth_sock);
        push_publish_flags(&mut args, &self.forward_ports);
        push_pair_flags(&mut args, "--env", remote_env);
        push_all(&mut args, &self.run_args);
        push_mount_flags(&mut args, &self.mounts);
        let ghost a1 = args.deep_view();
        args.push(owned("-it"));
        args.push(owned("--name"));
        args.push(self.name.clone());
        args.push(owned("-u"));
        args.push(self.user.clone());
        args.push(owned("-w"));
        args.push(self.workspace_folder.clone());
        args.push(image);
        let ghost a2 = args.deep_view();
        if self.override_command {
            args.push(owned("sh"));
            args.push(owned("-c"));
            args.push(owned("while sleep 1000; do :; done"));
        }
        assert(a0 =~= seq!["create"@, "--userns=keep-id"@, "--security-opt"@, "label=disable"@, "--mount"@,
            "type=bind,source="@ + self.directory@ + ",target="@ + self.workspace_folder@]);
        assert(a2 =~= a1 + seq!["-it"@, "--name"@, self.name@, "-u"@, self.user@, "-w"@, self.workspace_folder@,
            image_of(self.build_source, self.name@)]);
        assert(args.deep_view() =~= a2 + keep_alive_args("sh"@, self.override_command));
        assert(args.deep_view() =~= podman_create_args(*self, remote_env.deep_view(), opt_str(*ssh_auth_sock)));
        CommandLine { program: self.command.clone(), args }
    }

    /// `podman start <name>`.
    pub fn start_command(&self) -> (r: CommandLine)
        ensures
            command_is(r, self.command@, seq!["start"@, self.name@]),
    {
        self.simple("start")
    }

    /// `podman stop <name>`.
    pub fn stop_command(&self) -> (r: CommandLine)
        ensures
            command_is(r, self.command@, seq!["stop"@, self.name@]),
    {
        self.simple("stop")
    }

    /// `podman restart <name>`.
    pub fn restart_command(&self) -> (r: CommandLine)
        ensures
            command_is(r, self.command@, seq!["restart"@, self.name@]),
    {
        self.simple("restart")
    }

    /// `podman attach <name>`.
    pub fn attach_command(&self) -> (r: CommandLine)
        ensures
            command_is(r, self.command@, seq!["attach"@, self.name@]),
    {
        self.simple("attach")
    }

    /// `podman rm <name>`.
    pub fn rm_command(&self) -> (r: CommandLine)
        ensures
            command_is(r, self.command@, seq!["rm"@, self.name@]),
    {
        self.simple("rm")
    }

    /// The listing whose output names the container when it exists; `all`
    /// includes stopped containers.
    pub fn list_command(&self, all: bool) -> (r: CommandLine)
        ensures
            command_is(r, self.command@,
                seq!["ps"@] + (if all { seq!["-a"@] } else { Seq::empty() })
                + seq!["--filter"@, "name="@ + self.name@, "--format"@, "{{.Names}}"@]),
    {
        let mut args: Vec<String> = Vec::new();
        args.push(owned("ps"));
        if all {
            args.push(owned("-a"));
        }
        let ghost a0 = args.deep_view();
        args.push(owned("--filter"));
        args.push(concat2("name=", self.name.as_str()));
        args.push(owned("--format"));
        args.push(owned("{{.Names}}"));
        assert(a0 =~= seq!["ps"@] + (if all { seq!["-a"@] } else { Seq::<Seq<char>>::empty() }));
        assert(args.deep_view() =~= seq!["ps"@] + (if all { seq!["-a"@] } else { Seq::<Seq<char>>::empty() })
            + seq!["--filter"@, "name="@ + self.name@, "--format"@, "{{.Names}}"@]);
        CommandLine { program: self.command.clone(), args }
    }

    /// `podman cp <source> <name>:<destination>`.
    pub fn cp_command(&self, source: &str, destination: &str) -> (r: CommandLine)
        ensures
            command_is(r, self.command@, seq!["cp"@, source@, self.name@ + ":"@ + destination@]),
    {
        let mut args: Vec<String> = Vec::new();
        args.push(owned("cp"));
        args.push(owned(source));
        args.push(concat3(self.name.as_str(), ":", destination));
        assert(args.deep_view() =~= seq!["cp"@, source@, self.name@ + ":"@ + destination@]);
        CommandLine { program: self.command.clone(), args }
    }

    fn exec_prefix(&self) -> (r: Vec<String>)
        ensures
            r.deep_view() == podman_exec_prefix(*self),
    {
        let mut args: Vec<String> = Vec::new();
        args.push(owned("exec"));
        args.push(owned("-u"));
        args.push(self.user.clone());
        args.push(owned("-w"));
        args.push(self.workspace_folder.clone());
        args.push(self.name.clone());
        assert(args.deep_view() =~= podman_exec_prefix(*self));
        args
    }

    /// Runs `cmd` in the container through `sh -c`.
    pub fn exec_command(&self, cmd: &str) -> (r: CommandLine)
        ensures
            command_is(r, self.command@, podman_exec_prefix(*self) + seq!["sh"@, "-c"@, cmd@]),
    {
        let mut args = self.exec_prefix();
        args.push(owned("sh"));
        args.push(owned("-c"));
        args.push(owned(cmd));
        assert(args.deep_view() =~= podman_exec_prefix(*self) + seq!["sh"@, "-c"@, cmd@]);
        CommandLine { program: self.command.clone(), args }
    }

    /// Runs `prog` with `extra` in the container, without a shell.
    pub fn exec_raw_command(&self, prog: &str, extra: &[&str]) -> (r: CommandLine)
        ensures
            command_is(r, self.command@, podman_exec_prefix(*self) + seq![prog@] + extra.deep_view()),
    {
        let mut args = self.exec_prefix();
        args.push(owned(prog));
        let ghost a0 = args.deep_view();
        push_all_str(&mut args, extra);
        assert(a0 =~= podman_exec_prefix(*self) + seq![prog@]);
        CommandLine { program: self.command.clone(), args }
    }
}

} // verus!
