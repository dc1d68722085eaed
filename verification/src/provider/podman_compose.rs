//! The Podman Compose backend: the command lines it runs.

use vstd::prelude::*;
use crate::listing::{first_nonblank_line, first_nonblank_spec};
use crate::provider::docker::opt_str;
use crate::provider::utils::{compose_override_context, entries_view, override_envs, override_volumes, TemplateContext};
use crate::provider::{pair_flags, push_all_str, push_pair_flags};
use crate::text::{concat2, concat3, lines_spec, owned};

verus! {

/// Podman Compose provider: manages containers via `podman-compose`.
#[derive(Debug)]
pub struct PodmanCompose {
    pub build_args: Vec<(String, String)>,
    pub command: String,
    pub env_vars: Vec<(String, String)>,
    pub podman_command: String,
    pub file: String,
    pub name: String,
    /// When `true`, appends `:z` to the SSH agent socket volume mount so that
    /// `SELinux` allows the container to access it.
    pub selinux_relabel: bool,
    pub service: String,
    pub shell: String,
    pub user: String,
    pub workspace_folder: String,
}

/// `-f <file> -f <override> -p <name>`.
pub open spec fn podman_compose_base(p: PodmanCompose, override_file: Seq<char>) -> Seq<Seq<char>> {
    seq!["-f"@, p.file@, "-f"@, override_file, "-p"@, p.name@]
}

/// `exec -u <user> -w <workspace> <service>`.
pub open spec fn podman_compose_exec_part(p: PodmanCompose) -> Seq<Seq<char>> {
    seq!["exec"@, "-u"@, p.user@, "-w"@, p.workspace_folder@, p.service@]
}

/// The project label filter value.
pub open spec fn project_label(p: PodmanCompose) -> Seq<char> {
    "label=io.podman.compose.project="@ + p.name@
}

impl PodmanCompose {
    /// What the project's compose override file holds: the remote environment of
    /// the service and, when the host has an SSH agent socket, its forwarding,
    /// labelled for `SELinux` when `selinux_relabel` is set.
    pub fn override_context(&self, ssh_auth_sock: Option<String>) -> (r: TemplateContext)
        ensures
            r.service@ == self.service@,
            entries_view(r.envs@) == override_envs(self.env_vars.deep_view(), opt_str(ssh_auth_sock)),
            entries_view(r.volumes@) == override_volumes(opt_str(ssh_auth_sock), self.selinux_relabel),
    {
        compose_override_context(self.service.as_str(), &self.env_vars, self.selinux_relabel, ssh_auth_sock)
    }

    /// The first non-blank line of `ps -q` output, trimmed; `""` when there is none.
    pub fn extract_container_id(output: &str) -> (r: String)
        ensures
            r@ == first_nonblank_spec(lines_spec(output@)),
    {
        first_nonblank_line(output)
    }

    /// `podman ps` arguments that list the project's running containers.
    pub fn running_args(&self) -> (r: Vec<String>)
        ensures
            r.deep_view() == seq!["ps"@, "-q"@, "--filter"@, "status=running"@, "--filter"@, project_label(*self)],
    {
        let mut args: Vec<String> = Vec::new();
        args.push(owned("ps"));
        args.push(owned("-q"));
        args.push(owned("--filter"));
        args.push(owned("status=running"));
        args.push(owned("--filter"));
        args.push(concat2("label=io.podman.compose.project=", self.name.as_str()));
        assert(args.deep_view() =~= seq!["ps"@, "-q"@, "--filter"@, "status=running"@, "--filter"@, project_label(*self)]);
        args
    }

    /// `podman ps` arguments that list the service's containers, stopped ones too.
    pub fn exists_args(&self) -> (r: Vec<String>)
        ensures
            r.deep_view() == seq!["ps"@, "-aq"@, "--filter"@, project_label(*self), "--filter"@,
                "label=com.docker.compose.service="@ + self.service@],
    {
        let mut args: Vec<String> = Vec::new();
        args.push(owned("ps"));
        args.push(owned("-aq"));
        args.push(owned("--filter"));
        args.push(concat2("label=io.podman.compose.project=", self.name.as_str()));
        args.push(owned("--filter"));
        args.push(concat2("label=com.docker.compose.service=", self.service.as_str()));
        assert(args.deep_view() =~= seq!["ps"@, "-aq"@, "--filter"@, project_label(*self), "--filter"@,
            "label=com.docker.compose.service="@ + self.service@]);
        args
    }

    /// `podman ps` arguments that find the service's container for a copy.
    pub fn container_id_args(&self) -> (r: Vec<String>)
        ensures
            r.deep_view() == seq!["ps"@, "-q"@, "--filter"@, project_label(*self), "--filter"@,
                "label=io.podman.compose.service="@ + self.service@],
    {
        let mut args: Vec<String> = Vec::new();
        args.push(owned("ps"));
        args.push(owned("-q"));
        args.push(owned("--filter"));
        args.push(concat2("label=io.podman.compose.project=", self.name.as_str()));
        args.push(owned("--filter"));
        args.push(concat2("label=io.podman.compose.service=", self.service.as_str()));
        assert(args.deep_view() =~= seq!["ps"@, "-q"@, "--filter"@, project_label(*self), "--filter"@,
            "label=io.podman.compose.service="@ + self.service@]);
        args
    }

    /// `podman cp` arguments into container `container_id`, or `None` when no
    /// container was found (`container_id` is empty).
    pub fn cp_args(container_id: &str, source: &str, destination: &str) -> (r: Option<Vec<String>>)
        ensures
            container_id@.len() == 0 <==> r is None,
            r is Some ==> r->0.deep_view() == seq!["cp"@, source@, container_id@ + ":"@ + destination@],
    {
        if container_id.unicode_len() == 0 {
            return None;
        }
        let mut args: Vec<String> = Vec::new();
        args.push(owned("cp"));
        args.push(owned(source));
        args.push(concat3(container_id, ":", destination));
        assert(args.deep_view() =~= seq!["cp"@, source@, container_id@ + ":"@ + destination@]);
        Some(args)
    }

    /// `podman-compose` arguments that take the project down.
    pub fn rm_args(&self, override_file: &str) -> (r: Vec<String>)
        ensures
            r.deep_view() == podman_compose_base(*self, override_file@) + seq!["down"@, "--remove-orphans"@],
    {
        let mut args = self.compose_base_args(override_file);
        args.push(owned("down"));
        args.push(owned("--remove-orphans"));
        assert(args.deep_view() =~= podman_compose_base(*self, override_file@) + seq!["down"@, "--remove-orphans"@]);
        args
    }

    /// Build the base compose args: `-f <file> -f <override> -p <name>`.
    pub fn compose_base_args(&self, override_file: &str) -> (r: Vec<String>)
        ensures
            r.deep_view() == podman_compose_base(*self, override_file@),
    {
        let mut args: Vec<String> = Vec::new();
        args.push(owned("-f"));
        args.push(self.file.clone());
        args.push(owned("-f"));
        args.push(owned(override_file));
        args.push(owned("-p"));
        args.push(self.name.clone());
        assert(args.deep_view() =~= podman_compose_base(*self, override_file@));
        args
    }

    /// `... build [--no-cache] [--build-arg K=V]*`.
    pub fn build_command_args(&self, override_file: &str, use_cache: bool) -> (r: Vec<String>)
        ensures
            r.deep_view() == podman_compose_base(*self, override_file@) + seq!["build"@]
                + (if use_cache { Seq::empty() } else { seq!["--no-cache"@] })
                + pair_flags("--build-arg"@, self.build_args.deep_view()),
    {
        let mut args = self.compose_base_args(override_file);
        args.push(owned("build"));
        let ghost a1 = args.deep_view();
        assert(a1 =~= podman_compose_base(*self, override_file@) + seq!["build"@]);
        if !use_cache {
            args.push(owned("--no-cache"));
        }
        assert(args.deep_view() =~= a1 + (if use_cache { Seq::<Seq<char>>::empty() } else { seq!["--no-cache"@] }));
        let ghost a2 = args.deep_view();
        push_pair_flags(&mut args, "--build-arg", &self.build_args);
        assert(args.deep_view() =~= a2 + pair_flags("--build-arg"@, self.build_args.deep_view()));
        args
    }

    /// `... up --detach`.
    pub fn start_command_args(&self, override_file: &str) -> (r: Vec<String>)
        ensures
            r.deep_view() == podman_compose_base(*self, override_file@) + seq!["up"@, "--detach"@],
    {
        let mut args = self.compose_base_args(override_file);
        args.push(owned("up"));
        args.push(owned("--detach"));
        assert(args.deep_view() =~= podman_compose_base(*self, override_file@) + seq!["up"@, "--detach"@]);
        args
    }

    /// `... stop`.
    pub fn stop_command_args(&self, override_file: &str) -> (r: Vec<String>)
        ensures
            r.deep_view() == podman_compose_base(*self, override_file@) + seq!["stop"@],
    {
        let mut args = self.compose_base_args(override_file);
        args.push(owned("stop"));
        assert(args.deep_view() =~= podman_compose_base(*self, override_file@) + seq!["stop"@]);
        args
    }

    /// `... restart`.
    pub fn restart_command_args(&self, override_file: &str) -> (r: Vec<String>)
        ensures
            r.deep_view() == podman_compose_base(*self, override_file@) + seq!["restart"@],
    {
        let mut args = self.compose_base_args(override_file);
        args.push(owned("restart"));
        assert(args.deep_view() =~= podman_compose_base(*self, override_file@) + seq!["restart"@]);
        args
    }

    fn exec_part(&self, args: &mut Vec<String>)
        ensures
            final(args).deep_view() == old(args).deep_view() + podman_compose_exec_part(*self),
    {
        let ghost start = args.deep_view();
        args.push(owned("exec"));
        args.push(owned("-u"));
        args.push(self.user.clone());
        args.push(owned("-w"));
        args.push(self.workspace_folder.clone());
        args.push(self.service.clone());
        assert(args.deep_view() =~= start + podman_compose_exec_part(*self));
    }

    /// `... exec -u <user> -w <workspace> <service> <shell>`.
    pub fn attach_command_args(&self, override_file: &str) -> (r: Vec<String>)
        ensures
            r.deep_view() == podman_compose_base(*self, override_file@)
                + podman_compose_exec_part(*self) + seq![self.shell@],
    {
        let mut args = self.compose_base_args(override_file);
        self.exec_part(&mut args);
        args.push(self.shell.clone());
        assert(args.deep_view() =~= podman_compose_base(*self, override_file@)
            + podman_compose_exec_part(*self) + seq![self.shell@]);
        args
    }

    /// `... exec -u <user> -w <workspace> <service> sh -c <cmd>`.
    pub fn exec_command_args(&self, override_file: &str, cmd: &str) -> (r: Vec<String>)
        ensures
            r.deep_view() == podman_compose_base(*self, override_file@)
                + podman_compose_exec_part(*self) + seq!["sh"@, "-c"@, cmd@],
    {
        let mut args = self.compose_base_args(override_file);
        self.exec_part(&mut args);
        args.push(owned("sh"));
        args.push(owned("-c"));
        args.push(owned(cmd));
        assert(args.deep_view() =~= podman_compose_base(*self, override_file@)
            + podman_compose_exec_part(*self) + seq!["sh"@, "-c"@, cmd@]);
        args
    }

    /// `... exec -u <user> -w <workspace> <service> <prog> <extra>...`.
    pub fn exec_raw_command_args(&self, override_file: &str, prog: &str, extra: &[&str]) -> (r: Vec<String>)
        ensures
            r.deep_view() == podman_compose_base(*self, override_file@)
                + podman_compose_exec_part(*self) + seq![prog@] + extra.deep_view(),
    {
        let mut args = self.compose_base_args(override_file);
        self.exec_part(&mut args);
        args.push(owned(prog));
        let ghost a = args.deep_view();
        assert(a =~= podman_compose_base(*self, override_file@)
            + podman_compose_exec_part(*self) + seq![prog@]);
        push_all_str(&mut args, extra);
        args
    }
}

} // verus!
