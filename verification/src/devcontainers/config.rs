//! The parsed form of `devcontainer.json`.

use vstd::prelude::*;
use crate::devcontainers::one_or_many::OneOrMany;
use crate::error::Error;
use crate::text::{chars_of, concat2, concat3, owned, push_char, starts_with_spec};

verus! {

/// What happens to the container when the session ends.
#[derive(Debug, Clone, Copy, PartialEq, Eq, Structural)]
pub enum ShutdownAction {
    NoShutdown,
    StopContainer,
    StopCompose,
}

impl Default for ShutdownAction {
    fn default() -> (r: Self)
        ensures
            r == ShutdownAction::StopContainer,
    {
        ShutdownAction::StopContainer
    }
}

/// Parsed representation of a `devcontainer.json` configuration file.
///
/// String-keyed maps of the file (`remoteEnv`, `build.args`, each entry of
/// `mounts`) are held as lists of `(key, value)` pairs, in no particular order;
/// a map read from the file names each key once (see [`maps_keys_unique`]).
#[derive(Debug)]
pub struct Config {
    pub name: String,
    pub image: Option<String>,
    pub build: Option<Build>,
    pub forward_ports: Vec<u16>,
    pub initialize_command: Option<OneOrMany>,
    pub on_create_command: Option<OneOrMany>,
    pub update_content_command: Option<OneOrMany>,
    pub post_create_command: Option<OneOrMany>,
    pub post_start_command: Option<OneOrMany>,
    pub post_attach_command: Option<OneOrMany>,
    pub remote_user: String,
    pub run_args: Vec<String>,
    pub override_command: bool,
    pub mounts: Option<Vec<Vec<(String, String)>>>,
    pub remote_env: Vec<(String, String)>,
    pub docker_compose_file: Option<String>,
    pub service: Option<String>,
    /// Override `SELinux` auto-detection for SSH socket relabelling (`:z`).
    /// When absent, `SELinux` enforcing mode is detected at runtime.
    pub selinux_relabel: Option<bool>,
    pub workspace_folder: String,
    pub shutdown_action: ShutdownAction,
}

/// Build configuration block within `devcontainer.json`.
#[derive(Debug)]
pub struct Build {
    pub dockerfile: Option<String>,
    /// Path from which the image build is run.
    pub context: Option<String>,
    pub args: Vec<(String, String)>,
}

/// No two pairs share a key, as in a map read from `devcontainer.json`.
pub open spec fn keys_unique(pairs: Seq<(Seq<char>, Seq<char>)>) -> bool {
    forall|i: int, j: int| 0 <= i < j < pairs.len() ==> #[trigger] pairs[i].0 != #[trigger] pairs[j].0
}

/// Every map of the configuration names each key once: `remoteEnv`,
/// `build.args`, and each entry of `mounts`.
pub open spec fn maps_keys_unique(c: Config) -> bool {
    &&& keys_unique(c.remote_env.deep_view())
    &&& (c.build matches Some(b) ==> keys_unique(b.args.deep_view()))
    &&& (c.mounts matches Some(m) ==> forall|k: int| 0 <= k < m@.len() ==> keys_unique(#[trigger] m@[k].deep_view()))
}

/// Whether no two pairs of `v` share a key.
pub fn pairs_keys_unique(v: &Vec<(String, String)>) -> (r: bool)
    ensures
        r == keys_unique(v.deep_view()),
{
    let ghost dv = v.deep_view();
    let mut i: usize = 0;
    while i < v.len()
        invariant
            dv == v.deep_view(),
            i <= v@.len(),
            forall|a: int, b: int| 0 <= a < b < i ==> #[trigger] dv[a].0 != #[trigger] dv[b].0,
        decreases v@.len() - i,
    {
        let mut j: usize = 0;
        while j < i
            invariant
                dv == v.deep_view(),
                j <= i < v@.len(),
                forall|a: int| 0 <= a < j ==> #[trigger] dv[a].0 != dv[i as int].0,
            decreases i - j,
        {
            assert(dv[j as int].0 == v@[j as int].0@ && dv[i as int].0 == v@[i as int].0@);
            if crate::text::str_eq(v[j].0.as_str(), v[i].0.as_str()) {
                assert(dv[j as int].0 == dv[i as int].0);
                return false;
            }
            j = j + 1;
        }
        assert forall|a: int, b: int| 0 <= a < b < i + 1 implies #[trigger] dv[a].0 != #[trigger] dv[b].0 by {
            if b == i {
                assert(dv[a].0 != dv[i as int].0);
            }
        }
        i = i + 1;
    }
    true
}

/// The view of an optional string.
pub open spec fn opt_view(o: Option<String>) -> Option<Seq<char>> {
    match o {
        Some(s) => Some(s@),
        None => None,
    }
}

/// A copy of an optional string.
pub fn clone_opt(o: &Option<String>) -> (r: Option<String>)
    ensures
        opt_view(r) == opt_view(*o),
{
    match o {
        Some(s) => Some(s.clone()),
        None => None,
    }
}

/// A copy of a list of `(key, value)` pairs.
pub fn clone_pairs(v: &Vec<(String, String)>) -> (r: Vec<(String, String)>)
    ensures
        r.deep_view() == v.deep_view(),
{
    let mut r: Vec<(String, String)> = Vec::new();
    let mut i: usize = 0;
    while i < v.len()
        invariant
            i <= v@.len(),
            r.deep_view() =~= v.deep_view().take(i as int),
        decreases v@.len() - i,
    {
        let ghost before = r.deep_view();
        let (k, x) = &v[i];
        r.push((k.clone(), x.clone()));
        assert(r.deep_view() =~= before.push(v.deep_view()[i as int]));
        i = i + 1;
    }
    assert(v.deep_view().take(v@.len() as int) =~= v.deep_view());
    r
}

/// The default `remoteUser`.
pub fn default_remote_user() -> (r: String)
    ensures
        r@ == "root"@,
{
    owned("root")
}

/// The default `workspaceFolder`.
pub fn default_workspace_folder() -> (r: String)
    ensures
        r@ == "/workspace"@,
{
    owned("/workspace")
}

/// The Dockerfile path of the `build` block, if any.
pub open spec fn dockerfile_spec(c: Config) -> Option<Seq<char>> {
    match c.build {
        Some(b) => opt_view(b.dockerfile),
        None => None,
    }
}

/// The build arguments of the `build` block, or none.
pub open spec fn build_args_spec(c: Config) -> Seq<(Seq<char>, Seq<char>)> {
    match c.build {
        Some(b) => b.args.deep_view(),
        None => Seq::empty(),
    }
}

/// Characters that a container name keeps.
pub open spec fn name_char_allowed(c: char) -> bool {
    ('a' <= c && c <= 'z') || ('0' <= c && c <= '9') || c == '-' || c == '_' || c == '.'
}

/// A space becomes a dash.
pub open spec fn dash_for_space(c: char) -> char {
    if c == ' ' { '-' } else { c }
}

/// `lowered.replace(' ', "-")` with every character that is not in
/// `[a-z0-9-_.]` removed.
pub open spec fn stripped_name(lowered: Seq<char>) -> Seq<char>
    decreases lowered.len(),
{
    if lowered.len() == 0 {
        Seq::empty()
    } else {
        let c = dash_for_space(lowered.last());
        let head = stripped_name(lowered.drop_last());
        if name_char_allowed(c) { head.push(c) } else { head }
    }
}

/// An ASCII letter or digit.
pub open spec fn ascii_alphanumeric(c: char) -> bool {
    ('a' <= c && c <= 'z') || ('A' <= c && c <= 'Z') || ('0' <= c && c <= '9')
}

/// The container name derived from the lowercase form of the project name, or
/// `None` when nothing is left after stripping.
pub open spec fn safe_name_spec(lowered: Seq<char>) -> Option<Seq<char>> {
    let s = stripped_name(lowered);
    if s.len() == 0 {
        None
    } else if ascii_alphanumeric(s[0]) {
        Some("devcont-"@ + s)
    } else {
        Some("devcont-dev-"@ + s)
    }
}

/// The message of the error for a project name that yields no container name.
pub open spec fn underivable_name_message(name: Seq<char>) -> Seq<char> {
    "Cannot derive a container name from project name '"@ + name
        + "'. Rename the project to use ASCII characters."@
}

/// The lowercase form of `s` as `str::to_lowercase` computes it (Unicode
/// `Lowercase` mapping).
pub uninterp spec fn lowercase_of(s: Seq<char>) -> Seq<char>;

/// Calls `str::to_lowercase`; the result is named `lowercase_of` of the input.
#[verifier::external_body]
pub(crate) fn to_lowercase(s: &str) -> (r: String)
    ensures
        r@ == lowercase_of(s@),
{
    s.to_lowercase()
}

/// `lowered` with spaces turned into dashes and every character outside
/// `[a-z0-9-_.]` removed.
fn strip_name(lowered: &str) -> (r: String)
    ensures
        r@ == stripped_name(lowered@),
{
    let v = chars_of(lowered);
    let mut stripped = String::new();
    let mut i: usize = 0;
    while i < v.len()
        invariant
            v@ == lowered@,
            i <= v@.len(),
            stripped@ == stripped_name(v@.take(i as int)),
        decreases v@.len() - i,
    {
        let c0 = v[i];
        let c = if c0 == ' ' { '-' } else { c0 };
        if ('a' <= c && c <= 'z') || ('0' <= c && c <= '9') || c == '-' || c == '_' || c == '.' {
            push_char(&mut stripped, c);
        }
        assert(v@.take(i + 1).drop_last() =~= v@.take(i as int));
        i = i + 1;
    }
    assert(v@.take(v@.len() as int) =~= lowered@);
    stripped
}

/// Whether `c` is an ASCII letter or digit.
fn is_ascii_alphanumeric(c: char) -> (r: bool)
    ensures
        r == ascii_alphanumeric(c),
{
    ('a' <= c && c <= 'z') || ('A' <= c && c <= 'Z') || ('0' <= c && c <= '9')
}

/// The container name for a project whose name, lowercased, is `lowered`.
///
/// Replaces spaces with dashes, strips characters that are not alphanumeric, `-`,
/// `_`, or `.`, prepends `dev-` when the result does not start with a letter or
/// digit, and prefixes `devcont-`. Fails with [`Error::InvalidConfig`] (naming
/// `name`) when nothing is left after stripping.
pub fn safe_name_from_lowercase(name: &str, lowered: &str) -> (r: Result<String, Error>)
    ensures
        match safe_name_spec(lowered@) {
            Some(n) => r is Ok && r->Ok_0@ == n,
            None => r is Err && r->Err_0 is InvalidConfig
                && r->Err_0->InvalidConfig_0@ == underivable_name_message(name@),
        },
{
    let stripped = strip_name(lowered);
    let sv = chars_of(stripped.as_str());
    if sv.len() == 0 {
        let msg = concat3(
            "Cannot derive a container name from project name '",
            name,
            "'. Rename the project to use ASCII characters.",
        );
        return Err(Error::InvalidConfig(msg));
    }
    if is_ascii_alphanumeric(sv[0]) {
        Ok(concat2("devcont-", stripped.as_str()))
    } else {
        Ok(concat2("devcont-dev-", stripped.as_str()))
    }
}

/// Whether the container name needs the `dev-` prefix: something is left after
/// stripping and it does not start with an ASCII letter or digit.
pub open spec fn needs_dev_prefix(lowered: Seq<char>) -> bool {
    let s = stripped_name(lowered);
    s.len() > 0 && !ascii_alphanumeric(s[0])
}

/// The notice shown when the container name of project `name` gets the `dev-` prefix.
pub open spec fn dev_prefix_notice(name: Seq<char>) -> Seq<char> {
    "notice: container name derived from '"@ + name
        + "' starts with a non-alphanumeric character; prepending 'dev-'"@
}

/// The notice for a project name that needs the `dev-` prefix, if it does.
pub open spec fn name_notice_spec(name: Seq<char>, lowered: Seq<char>) -> Option<Seq<char>> {
    if needs_dev_prefix(lowered) { Some(dev_prefix_notice(name)) } else { None }
}

/// The notice for `name` (lowercased: `lowered`) when its container name gets the
/// `dev-` prefix.
pub fn name_notice_from_lowercase(name: &str, lowered: &str) -> (r: Option<String>)
    ensures
        opt_view(r) == name_notice_spec(name@, lowered@),
{
    let stripped = strip_name(lowered);
    let sv = chars_of(stripped.as_str());
    if sv.len() > 0 && !is_ascii_alphanumeric(sv[0]) {
        Some(concat3(
            "notice: container name derived from '",
            name,
            "' starts with a non-alphanumeric character; prepending 'dev-'",
        ))
    } else {
        None
    }
}

impl Config {
    /// Return the Dockerfile path from the `build` block, if present.
    pub fn dockerfile(&self) -> (r: Option<String>)
        ensures
            opt_view(r) == dockerfile_spec(*self),
    {
        match &self.build {
            Some(b) => clone_opt(&b.dockerfile),
            None => None,
        }
    }

    /// Return the build arguments from the `build` block, or an empty list.
    pub fn build_args(&self) -> (r: Vec<(String, String)>)
        ensures
            r.deep_view() == build_args_spec(*self),
    {
        match &self.build {
            Some(b) => clone_pairs(&b.args),
            None => Vec::new(),
        }
    }

    /// Return a container-safe name with the `devcont-` prefix.
    ///
    /// Lowercases the project name, replaces spaces with dashes, and strips
    /// characters that are not alphanumeric, `-`, `_`, or `.`.
    ///
    /// Returns [`Error::InvalidConfig`] when the project name produces an empty
    /// string after stripping, which happens for all-Unicode names that have no
    /// ASCII representation.
    pub fn safe_name(&self) -> (r: Result<String, Error>)
        ensures
            match safe_name_spec(lowercase_of(self.name@)) {
                Some(n) => r is Ok && r->Ok_0@ == n,
                None => r is Err && r->Err_0 is InvalidConfig
                    && r->Err_0->InvalidConfig_0@ == underivable_name_message(self.name@),
            },
    {
        let lowered = to_lowercase(self.name.as_str());
        safe_name_from_lowercase(self.name.as_str(), lowered.as_str())
    }

    /// The notice shown when the container name gets the `dev-` prefix because the
    /// stripped project name does not start with a letter or digit.
    pub fn name_notice(&self) -> (r: Option<String>)
        ensures
            opt_view(r) == name_notice_spec(self.name@, lowercase_of(self.name@)),
    {
        let lowered = to_lowercase(self.name.as_str());
        name_notice_from_lowercase(self.name.as_str(), lowered.as_str())
    }

    /// Whether every map of the configuration names each key once.
    pub fn has_unique_keys(&self) -> (r: bool)
        ensures
            r == maps_keys_unique(*self),
    {
        if !pairs_keys_unique(&self.remote_env) {
            return false;
        }
        match &self.build {
            Some(b) => {
                if !pairs_keys_unique(&b.args) {
                    return false;
                }
            },
            None => {},
        }
        match &self.mounts {
            Some(m) => {
                let mut k: usize = 0;
                while k < m.len()
                    invariant
                        self.mounts == Some(*m),
                        k <= m@.len(),
                        forall|x: int| 0 <= x < k ==> keys_unique(#[trigger] m@[x].deep_view()),
                    decreases m@.len() - k,
                {
                    if !pairs_keys_unique(&m[k]) {
                        assert(!keys_unique(m@[k as int].deep_view()));
                        assert(self.mounts->Some_0@[k as int] == m@[k as int]);
                        assert(!maps_keys_unique(*self));
                        return false;
                    }
                    k = k + 1;
                }
            },
            None => {},
        }
        true
    }

    /// Return `true` if the container should be stopped after the session ends.
    ///
    /// `StopCompose` and `StopContainer` are treated identically: both stop the
    /// container or project on exit.
    pub fn should_shutdown(&self) -> (r: bool)
        ensures
            r == (self.shutdown_action != ShutdownAction::NoShutdown),
    {
        match self.shutdown_action {
            ShutdownAction::NoShutdown => false,
            _ => true,
        }
    }

    /// Return `true` if this config uses Docker Compose (`dockerComposeFile` is set).
    pub fn is_compose(&self) -> (r: bool)
        ensures
            r == self.docker_compose_file is Some,
    {
        self.docker_compose_file.is_some()
    }
}

/// A name that Docker accepts for a container: `[a-zA-Z0-9][a-zA-Z0-9_.-]+`.
pub open spec fn valid_container_name(n: Seq<char>) -> bool {
    &&& n.len() >= 2
    &&& ascii_alphanumeric(n[0])
    &&& forall|i: int| 1 <= i < n.len() ==>
        ascii_alphanumeric(#[trigger] n[i]) || n[i] == '_' || n[i] == '.' || n[i] == '-'
}

/// Every character that stripping keeps is one a container name may hold.
proof fn lemma_stripped_chars(lowered: Seq<char>)
    ensures
        forall|i: int| 0 <= i < stripped_name(lowered).len() ==> name_char_allowed(#[trigger] stripped_name(lowered)[i]),
    decreases lowered.len(),
{
    if lowered.len() > 0 {
        let head = stripped_name(lowered.drop_last());
        lemma_stripped_chars(lowered.drop_last());
        let c = dash_for_space(lowered.last());
        if name_char_allowed(c) {
            assert forall|i: int| 0 <= i < head.push(c).len() implies name_char_allowed(#[trigger] head.push(c)[i]) by {
                if i < head.len() {
                    assert(head.push(c)[i] == head[i]);
                }
            }
        }
    }
}

/// Every container name derived from a project name starts with `devcont-` and
/// is a name that Docker accepts.
pub proof fn law_safe_name_valid(lowered: Seq<char>)
    requires
        safe_name_spec(lowered) is Some,
    ensures
        starts_with_spec(safe_name_spec(lowered)->Some_0, "devcont-"@),
        valid_container_name(safe_name_spec(lowered)->Some_0),
{
    reveal_strlit("devcont-");
    reveal_strlit("devcont-dev-");
    let s = stripped_name(lowered);
    lemma_stripped_chars(lowered);
    let n = safe_name_spec(lowered)->Some_0;
    let prefix = if ascii_alphanumeric(s[0]) { "devcont-"@ } else { "devcont-dev-"@ };
    assert(n == prefix + s);
    assert(n.subrange(0, 8) =~= "devcont-"@);
    assert forall|i: int| 1 <= i < n.len() implies
        ascii_alphanumeric(#[trigger] n[i]) || n[i] == '_' || n[i] == '.' || n[i] == '-' by {
        if i >= prefix.len() {
            assert(n[i] == s[i - prefix.len()]);
            assert(name_char_allowed(s[i - prefix.len()]));
        }
    }
}

/// Stripping works character by character: the result for `a + b` is the
/// result for `a` followed by the result for `b`. A space becomes `-`; an ASCII
/// lowercase letter, an ASCII digit, `-`, `_` and `.` are kept; every other
/// character is dropped.
pub proof fn law_strip_by_character(a: Seq<char>, b: Seq<char>, c: char)
    ensures
        stripped_name(a + b) == stripped_name(a) + stripped_name(b),
        stripped_name(seq![c]) == if c == ' ' {
            seq!['-']
        } else if ('a' <= c && c <= 'z') || ('0' <= c && c <= '9') || c == '-' || c == '_' || c == '.' {
            seq![c]
        } else {
            Seq::<char>::empty()
        },
    decreases b.len(),
{
    assert(seq![c].drop_last() =~= Seq::<char>::empty());
    assert(stripped_name(Seq::<char>::empty()) =~= Seq::<char>::empty());
    if b.len() == 0 {
        assert(a + b =~= a);
        assert(stripped_name(a) + stripped_name(b) =~= stripped_name(a));
    } else {
        law_strip_by_character(a, b.drop_last(), c);
        assert((a + b).drop_last() =~= a + b.drop_last());
        assert((a + b).last() == b.last());
        let x = dash_for_space(b.last());
        if name_char_allowed(x) {
            assert((stripped_name(a) + stripped_name(b.drop_last())).push(x)
                =~= stripped_name(a) + stripped_name(b.drop_last()).push(x));
        }
    }
}

/// A project name made only of ASCII lowercase letters and digits keeps every
/// character: its container name is `devcont-` followed by the whole name.
pub proof fn law_plain_name_kept(lowered: Seq<char>)
    requires
        lowered.len() > 0,
        forall|i: int| 0 <= i < lowered.len() ==> ('a' <= #[trigger] lowered[i] && lowered[i] <= 'z')
            || ('0' <= lowered[i] && lowered[i] <= '9'),
    ensures
        safe_name_spec(lowered) == Some("devcont-"@ + lowered),
{
    lemma_plain_stripped(lowered);
}

/// Stripping leaves letters and digits as they are.
proof fn lemma_plain_stripped(lowered: Seq<char>)
    requires
        forall|i: int| 0 <= i < lowered.len() ==> ('a' <= #[trigger] lowered[i] && lowered[i] <= 'z')
            || ('0' <= lowered[i] && lowered[i] <= '9'),
    ensures
        stripped_name(lowered) == lowered,
    decreases lowered.len(),
{
    if lowered.len() > 0 {
        let dl = lowered.drop_last();
        assert forall|i: int| 0 <= i < dl.len() implies ('a' <= #[trigger] dl[i] && dl[i] <= 'z')
            || ('0' <= dl[i] && dl[i] <= '9') by {
            assert(dl[i] == lowered[i]);
        }
        lemma_plain_stripped(dl);
        assert(lowered.last() == lowered[lowered.len() - 1]);
        assert(dl.push(lowered.last()) =~= lowered);
    } else {
        assert(lowered =~= Seq::<char>::empty());
    }
}

} // verus!
