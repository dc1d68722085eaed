//! The Docker Compose backend: the command lines it runs.

use vstd::prelude::*;
use crate::provider::docker::{command_is, opt_str};
use crate::provider::utils::{compose_override_context, entries_view, override_envs, override_volumes, TemplateContext};
use crate::provider::{pair_flags, push_all_str, push_pair_flags, CommandLine};
use crate::text::{concat3, owned};

verus! {

/// The Docker Compose backend: runs `docker compose` on a project.
#[derive(Debug)]
pub struct DockerCompose {
    pub build_args: Vec<(String, String)>,
    pub command: String,
    pub env_vars: Vec<(String, String)>,
    pub file: String,
    pub name: String,
    pub service: String,
    pub shell: String,
    pub user: String,
    pub workspace_folder: String,
}

/// `compose -f <file> -f <override> -p <name>`.
pub open spec fn docker_compose_base(d: DockerCompose, override_file: Seq<char>) -> Seq<Seq<char>> {
    seq!["compose"@, "-f"@, d.file@, "-f"@, override_file, "-p"@, d.name@]
}

/// `exec -u <user> -w <workspace> <service>`.
pub open spec fn docker_compose_exec_part(d: DockerCompose) -> Seq<Seq<char>> {
    seq!["exec"@, "-u"@, d.user@, "-w"@, d.workspace_folder@, d.service@]
}

impl DockerCompose {
    fn base(&self, override_file: &str) -> (r: Vec<String>)
        ensures
            r.deep_view() == docker_compose_base(*self, override_file@),
    {
        let mut args: Vec<String> = Vec::new();
        args.push(owned("compose"));
        args.push(owned("-f"));
        args.push(self.file.clone());
        args.push(owned("-f"));
        args.push(owned(override_file));
        args.push(owned("-p"));
        args.push(self.name.clone());
        assert(args.deep_view() =~= docker_compose_base(*self, override_file@));
        args
    }

    fn with_words(&self, override_file: &str, words: &[&str]) -> (r: CommandLine)
        ensures
            command_is(r, self.command@, docker_compose_base(*self, override_file@) + words.deep_view()),
    {
        let mut args = self.base(override_file);
        push_all_str(&mut args, words);
        CommandLine { program: self.command.clone(), args }
    }

    fn exec_part(&self, args: &mut Vec<String>)
        ensures
            final(args).deep_view() == old(args).deep_view() + docker_compose_exec_part(*self),
    {
        let ghost start = args.deep_view();
        args.push(owned("exec"));
        args.push(owned("-u"));
        args.push(self.user.clone());
        args.push(owned("-w"));
        args.push(self.workspace_folder.clone());
        args.push(self.service.clone());
        assert(args.deep_view() =~= start + docker_compose_exec_part(*self));
    }

    /// What the project's compose override file holds: the remote environment of
    /// the service and, when the host has an SSH agent socket, its forwarding
    /// (without an `SELinux` label).
    pub fn override_context(&self, ssh_auth_sock: Option<String>) -> (r: TemplateContext)
        ensures
            r.service@ == self.service@,
            entries_view(r.envs@) == override_envs(self.env_vars.deep_view(), opt_str(ssh_auth_sock)),
            entries_view(r.volumes@) == override_volumes(opt_str(ssh_auth_sock), false),
    {
        compose_override_context(self.service.as_str(), &self.env_vars, false, ssh_auth_sock)
    }

    /// Builds the service images; `use_cache = false` adds `--no-cache`.
    pub fn build_command(&self, override_file: &str, use_cache: bool) -> (r: CommandLine)
        ensures
            command_is(r, self.command@, docker_compose_base(*self, override_file@) + seq!["build"@]
                + (if use_cache { Seq::empty() } else { seq!["--no-cache"@] })
                + pair_flags("--build-arg"@, self.build_args.deep_view())),
    {
        let mut args = self.base(override_file);
        args.push(owned("build"));
        let ghost a1 = args.deep_view();
        assert(a1 =~= docker_compose_base(*self, override_file@) + seq!["build"@]);
        if !use_cache {
            args.push(owned("--no-cache"));
        }
        assert(args.deep_view() =~= a1 + (if use_cache { Seq::<Seq<char>>::empty() } else { seq!["--no-cache"@] }));
        let ghost a2 = args.deep_view();
        push_pair_flags(&mut args, "--build-arg", &self.build_args);
        assert(args.deep_view() =~= a2 + pair_flags("--build-arg"@, self.build_args.deep_view()));
        CommandLine { program: self.command.clone(), args }
    }

    /// `... up --detach`.
    pub fn start_command(&self, override_file: &str) -> (r: CommandLine)
        ensures
            command_is(r, self.command@, docker_compose_base(*self, override_file@) + seq!["up"@, "--detach"@]),
    {
        let r = self.with_words(override_file, &["up", "--detach"]);
        assert(["up", "--detach"].deep_view() =~= seq!["up"@, "--detach"@]);
        r
    }

    /// `... stop`.
    pub fn stop_command(&self, override_file: &str) -> (r: CommandLine)
        ensures
            command_is(r, self.command@, docker_compose_base(*self, override_file@) + seq!["stop"@]),
    {
        let r = self.with_words(override_file, &["stop"]);
        assert(["stop"].deep_view() =~= seq!["stop"@]);
        r
    }

    /// `... restart`.
    pub fn restart_command(&self, override_file: &str) -> (r: CommandLine)
        ensures
            command_is(r, self.command@, docker_compose_base(*self, override_file@) + seq!["restart"@]),
    {
        let r = self.with_words(override_file, &["restart"]);
        assert(["restart"].deep_view() =~= seq!["restart"@]);
        r
    }

    /// `... exec -u <user> -w <workspace> <service> <shell>`.
    pub fn attach_command(&self, override_file: &str) -> (r: CommandLine)
        ensures
            command_is(r, self.command@, docker_compose_base(*self, override_file@)
                + docker_compose_exec_part(*self) + seq![self.shell@]),
    {
        let mut args = self.base(override_file);
        let ghost b = args.deep_view();
        self.exec_part(&mut args);
        let ghost a = args.deep_view();
        assert(a =~= b + docker_compose_exec_part(*self));
        args.push(self.shell.clone());
        assert(args.deep_view() =~= docker_compose_base(*self, override_file@)
            + docker_compose_exec_part(*self) + seq![self.shell@]);
        CommandLine { program: self.command.clone(), args }
    }

    /// `... down --remove-orphans --rmi all`.
    pub fn rm_command(&self, override_file: &str) -> (r: CommandLine)
        ensures
            command_is(r, self.command@, docker_compose_base(*self, override_file@)
                + seq!["down"@, "--remove-orphans"@, "--rmi"@, "all"@]),
    {
        let r = self.with_words(override_file, &["down", "--remove-orphans", "--rmi", "all"]);
        assert(["down", "--remove-orphans", "--rmi", "all"].deep_view()
            =~= seq!["down"@, "--remove-orphans"@, "--rmi"@, "all"@]);
        r
    }

    /// The listing whose output is not blank when the project has containers;
    /// `running_only` limits it to running ones.
    pub fn list_command(&self, running_only: bool) -> (r: CommandLine)
        ensures
            command_is(r, self.command@, seq!["compose"@, "-f"@, self.file@, "-p"@, self.name@, "ps"@]
                + (if running_only { seq!["-q"@, "--status=running"@] } else { seq!["-aq"@] })),
    {
        let mut args: Vec<String> = Vec::new();
        args.push(owned("compose"));
        args.push(owned("-f"));
        args.push(self.file.clone());
        args.push(owned("-p"));
        args.push(self.name.clone());
        args.push(owned("ps"));
        if running_only {
            args.push(owned("-q"));
            args.push(owned("--status=running"));
        } else {
            args.push(owned("-aq"));
        }
        assert(args.deep_view() =~= seq!["compose"@, "-f"@, self.file@, "-p"@, self.name@, "ps"@]
            + (if running_only { seq!["-q"@, "--status=running"@] } else { seq!["-aq"@] }));
        CommandLine { program: self.command.clone(), args }
    }

    /// `... cp <source> <service>:<destination>`.
    pub fn cp_command(&self, override_file: &str, source: &str, destination: &str) -> (r: CommandLine)
        ensures
            command_is(r, self.command@, docker_compose_base(*self, override_file@)
                + seq!["cp"@, source@, self.service@ + ":"@ + destination@]),
    {
        let mut args = self.base(override_file);
        let ghost a = args.deep_view();
        args.push(owned("cp"));
        args.push(owned(source));
        args.push(concat3(self.service.as_str(), ":", destination));
        assert(args.deep_view() =~= a + seq!["cp"@, source@, self.service@ + ":"@ + destination@]);
        CommandLine { program: self.command.clone(), args }
    }

    /// Runs `cmd` in the service through `sh -c`.
    pub fn exec_command(&self, override_file: &str, cmd: &str) -> (r: CommandLine)
        ensures
            command_is(r, self.command@, docker_compose_base(*self, override_file@)
                + docker_compose_exec_part(*self) + seq!["sh"@, "-c"@, cmd@]),
    {
        let mut args = self.base(override_file);
        self.exec_part(&mut args);
        let ghost a = args.deep_view();
        args.push(owned("sh"));
        args.push(owned("-c"));
        args.push(owned(cmd));
        assert(args.deep_view() =~= a + seq!["sh"@, "-c"@, cmd@]);
        CommandLine { program: self.command.clone(), args }
    }

    /// Runs `prog` with `extra` in the service, without a shell.
    pub fn exec_raw_command(&self, override_file: &str, prog: &str, extra: &[&str]) -> (r: CommandLine)
        ensures
            command_is(r, self.command@, docker_compose_base(*self, override_file@)
                + docker_compose_exec_part(*self) + seq![prog@] + extra.deep_view()),
    {
        let mut args = self.base(override_file);
        self.exec_part(&mut args);
        let ghost a = args.deep_view();
        args.push(owned(prog));
        assert(args.deep_view() =~= a + seq![prog@]);
        push_all_str(&mut args, extra);
        CommandLine { program: self.command.clone(), args }
    }
}

} // verus!
