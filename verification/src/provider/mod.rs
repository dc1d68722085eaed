//! Container engine backends and what they share.

pub mod docker;
pub mod docker_compose;
pub mod podman;
pub mod podman_compose;
pub mod utils;

use vstd::prelude::*;
use crate::text::{
    before_first, concat2, concat3, find_spec, join, join_spec, lemma_find_at, lemma_find_bounds, owned,
    signed_decimal, signed_decimal_spec, starts_with, starts_with_spec, str_eq, suffix_from,
};

verus! {

/// A program and its arguments, ready to run.
#[derive(Debug)]
pub struct CommandLine {
    pub program: String,
    pub args: Vec<String>,
}

/// `KEY=VALUE` for a pair.
pub open spec fn key_value(p: (Seq<char>, Seq<char>)) -> Seq<char> {
    p.0 + "="@ + p.1
}

/// `flag KEY=VALUE` for each pair, in order.
pub open spec fn pair_flags(flag: Seq<char>, pairs: Seq<(Seq<char>, Seq<char>)>) -> Seq<Seq<char>>
    decreases pairs.len(),
{
    if pairs.len() == 0 {
        Seq::empty()
    } else {
        pair_flags(flag, pairs.drop_last()) + seq![flag, key_value(pairs.last())]
    }
}

/// Appends `flag KEY=VALUE` for each pair to `out`.
pub fn push_pair_flags(out: &mut Vec<String>, flag: &str, pairs: &Vec<(String, String)>)
    ensures
        final(out).deep_view() == old(out).deep_view() + pair_flags(flag@, pairs.deep_view()),
{
    let ghost start = out.deep_view();
    let ghost all = pairs.deep_view();
    let mut i: usize = 0;
    assert(all.take(0) =~= Seq::<(Seq<char>, Seq<char>)>::empty());
    assert(start + Seq::<Seq<char>>::empty() =~= start);
    while i < pairs.len()
        invariant
            all == pairs.deep_view(),
            i <= pairs@.len(),
            out.deep_view() == start + pair_flags(flag@, all.take(i as int)),
        decreases pairs@.len() - i,
    {
        let (k, v) = &pairs[i];
        let ghost before = out.deep_view();
        out.push(owned(flag));
        out.push(concat3(k.as_str(), "=", v.as_str()));
        assert(all.take(i + 1).drop_last() =~= all.take(i as int));
        assert(all.take(i + 1).last() == all[i as int]);
        assert(out.deep_view() =~= before + seq![flag@, key_value(all[i as int])]);
        i = i + 1;
    }
    assert(all.take(pairs@.len() as int) =~= all);
}

/// Appends every string of `items` to `out`.
pub fn push_all(out: &mut Vec<String>, items: &Vec<String>)
    ensures
        final(out).deep_view() == old(out).deep_view() + items.deep_view(),
{
    let ghost start = out.deep_view();
    let mut i: usize = 0;
    while i < items.len()
        invariant
            i <= items@.len(),
            out.deep_view() =~= start + items.deep_view().take(i as int),
        decreases items@.len() - i,
    {
        let ghost before = out.deep_view();
        out.push(items[i].clone());
        assert(out.deep_view() =~= before.push(items@[i as int]@));
        i = i + 1;
    }
    assert(items.deep_view().take(items@.len() as int) =~= items.deep_view());
}

/// Appends every string of `items` to `out`.
pub fn push_all_str(out: &mut Vec<String>, items: &[&str])
    ensures
        final(out).deep_view() == old(out).deep_view() + items.deep_view(),
{
    let ghost start = out.deep_view();
    let mut i: usize = 0;
    while i < items.len()
        invariant
            i <= items@.len(),
            out.deep_view() =~= start + items.deep_view().take(i as int),
        decreases items@.len() - i,
    {
        let ghost before = out.deep_view();
        out.push(owned(items[i]));
        assert(out.deep_view() =~= before.push(items@[i as int]@));
        i = i + 1;
    }
    assert(items.deep_view().take(items@.len() as int) =~= items.deep_view());
}

/// `std::io::Error`, declared so that engine failures can be carried through
/// sessions as they are; nothing inside it is read.
#[verifier::external_type_specification]
#[verifier::external_body]
pub struct ExIoError(std::io::Error);

/// Abstraction over container engine backends (Docker, Podman, Compose variants).
pub trait Provider {
    /// Build the container image. Pass `use_cache = false` to add `--no-cache`.
    fn build(&self, use_cache: bool) -> std::io::Result<bool>;
    /// Create the container with the given extra arguments.
    fn create(&self, args: Vec<String>) -> std::io::Result<bool>;
    /// Start a stopped container.
    fn start(&self) -> std::io::Result<bool>;
    /// Stop a running container.
    fn stop(&self) -> std::io::Result<bool>;
    /// Restart the container.
    fn restart(&self) -> std::io::Result<bool>;
    /// Attach an interactive shell session to the container.
    fn attach(&self) -> std::io::Result<bool>;
    /// Remove the container.
    fn rm(&self) -> std::io::Result<bool>;
    /// Return `true` if the container exists (running or stopped).
    fn container_exists(&self) -> std::io::Result<bool>;
    /// Return `true` if the container is currently running.
    fn running(&self) -> std::io::Result<bool>;
    /// Copy `source` (host path) into the container at `destination`.
    fn cp(&self, source: String, destination: String) -> std::io::Result<bool>;
    /// Execute a shell command inside the container via `sh -c`.
    fn exec(&self, cmd: String) -> std::io::Result<()>;
    /// Execute a program directly inside the container without a shell wrapper.
    fn exec_raw(&self, prog: &str, args: &[&str]) -> std::io::Result<()>;
}

/// `KEY=***` for `KEY=VALUE`, or `***` when the token has no `=`.
pub open spec fn masked_value(arg: Seq<char>) -> Seq<char> {
    match find_spec(arg, '=') {
        Some(eq) => arg.take(eq) + "=***"@,
        None => "***"@,
    }
}

/// A single-token `<prefix>KEY=VALUE` form with its value masked, or unchanged
/// when the part after `prefix` has no `=`.
pub open spec fn masked_single(prefix: Seq<char>, arg: Seq<char>) -> Seq<char> {
    let suffix = arg.skip(prefix.len() as int);
    match find_spec(suffix, '=') {
        Some(eq) => prefix + suffix.take(eq) + "=***"@,
        None => prefix + suffix,
    }
}

/// The flag that announces an environment variable in the next token.
pub open spec fn is_env_flag(arg: Seq<char>) -> bool {
    arg == "--env"@ || arg == "-e"@
}

/// How one token reads when it does not follow an environment flag.
pub open spec fn redacted_token(arg: Seq<char>) -> Seq<char> {
    if is_env_flag(arg) {
        arg
    } else if starts_with_spec(arg, "--env="@) {
        masked_single("--env="@, arg)
    } else if starts_with_spec(arg, "-e="@) {
        masked_single("-e="@, arg)
    } else {
        arg
    }
}

/// The redacted form of `args`; `after_flag` says that the token before them was
/// `--env` or `-e`.
pub open spec fn redacted_args(args: Seq<Seq<char>>, after_flag: bool) -> Seq<Seq<char>>
    decreases args.len(),
{
    if args.len() == 0 {
        Seq::empty()
    } else if after_flag {
        seq![masked_value(args[0])] + redacted_args(args.drop_first(), false)
    } else {
        seq![redacted_token(args[0])] + redacted_args(args.drop_first(), is_env_flag(args[0]))
    }
}

/// Whether `arg` is `--env` or `-e`.
fn env_flag(arg: &str) -> (r: bool)
    ensures
        r == is_env_flag(arg@),
{
    str_eq(arg, "--env") || str_eq(arg, "-e")
}

/// `KEY=***` for `KEY=VALUE`, or `***`.
fn mask_value(arg: &str) -> (r: String)
    ensures
        r@ == masked_value(arg@),
{
    match before_first(arg, '=') {
        Some(key) => concat2(key.as_str(), "=***"),
        None => owned("***"),
    }
}

/// `<prefix>KEY=***` for `<prefix>KEY=VALUE`.
fn mask_single(prefix: &str, arg: &str) -> (r: String)
    requires
        starts_with_spec(arg@, prefix@),
    ensures
        r@ == masked_single(prefix@, arg@),
{
    let n = prefix.unicode_len();
    let suffix = suffix_from(arg, n);
    match before_first(suffix.as_str(), '=') {
        Some(key) => concat3(prefix, key.as_str(), "=***"),
        None => concat2(prefix, suffix.as_str()),
    }
}

/// Redact the values of `--env` / `-e` arguments in a list of command-line tokens.
///
/// For two-token forms (`--env KEY=VALUE` or `-e KEY=VALUE`), the token following
/// the flag is replaced with `KEY=***`. For single-token forms (`--env=KEY=VALUE`),
/// the value after `=` is replaced with `***`.
pub fn redact_env_args(args: &[&str]) -> (r: Vec<String>)
    ensures
        r.deep_view() == redacted_args(args.deep_view(), false),
{
    let mut redacted: Vec<String> = Vec::new();
    let mut redact_next = false;
    let ghost all = args.deep_view();
    let mut i: usize = 0;
    assert(all.skip(0) =~= all);
    while i < args.len()
        invariant
            all == args.deep_view(),
            i <= args@.len(),
            redacted.deep_view() + redacted_args(all.skip(i as int), redact_next) == redacted_args(all, false),
        decreases args@.len() - i,
    {
        let arg: &str = args[i];
        let ghost before = redacted.deep_view();
        let ghost rest = all.skip(i as int);
        let ghost was_next = redact_next;
        assert(rest[0] == arg@);
        assert(rest.drop_first() =~= all.skip(i + 1));
        if redact_next {
            redacted.push(mask_value(arg));
            redact_next = false;
        } else if env_flag(arg) {
            redacted.push(owned(arg));
            redact_next = true;
        } else if starts_with(arg, "--env=") {
            redacted.push(mask_single("--env=", arg));
        } else if starts_with(arg, "-e=") {
            redacted.push(mask_single("-e=", arg));
        } else {
            redacted.push(owned(arg));
        }
        assert(redacted.deep_view() =~= before.push(redacted.deep_view().last()));
        assert(before.push(redacted.deep_view().last()) + redacted_args(all.skip(i + 1), redact_next)
            =~= before + redacted_args(rest, was_next));
        i = i + 1;
    }
    assert(redacted.deep_view() + redacted_args(all.skip(i as int), redact_next) =~= redacted.deep_view());
    redacted
}

/// The message for a command in the container that exited unsuccessfully:
/// `<what> failed with exit code <code>`, with `-1` when no code was reported.
pub open spec fn exit_failure_spec(what: Seq<char>, code: Option<i32>) -> Seq<char> {
    what + " failed with exit code "@ + signed_decimal_spec(match code {
        Some(c) => c as int,
        None => -1,
    })
}

/// The message for a command in the container (`what`: `exec` or `exec_raw`)
/// that exited with `code` (`None`: killed by a signal).
pub fn exit_failure_message(what: &str, code: Option<i32>) -> (r: String)
    ensures
        r@ == exit_failure_spec(what@, code),
{
    let n: i64 = match code {
        Some(c) => c as i64,
        None => -1,
    };
    let digits = signed_decimal(n);
    concat3(what, " failed with exit code ", digits.as_str())
}

/// What is shown for a command line: the program, a space, and the arguments
/// with environment values redacted, separated by spaces.
pub open spec fn command_display_spec(program: Seq<char>, args: Seq<Seq<char>>) -> Seq<char> {
    program + " "@ + join_spec(redacted_args(args, false), " "@)
}

/// The text that is printed for a command line before it runs.
///
/// `--env KEY=VALUE` values are replaced with `KEY=***` so that secrets do not reach
/// the terminal; the arguments that the command receives are not changed.
pub fn command_display(program: &str, args: &[&str]) -> (r: String)
    ensures
        r@ == command_display_spec(program@, args.deep_view()),
{
    let redacted = redact_env_args(args);
    let joined = join(&redacted, " ");
    concat3(program, " ", joined.as_str())
}

/// A masked value keeps its key and ends in `***`, so masking it again changes nothing.
proof fn lemma_masked_value_stable(arg: Seq<char>)
    ensures
        masked_value(masked_value(arg)) == masked_value(arg),
        masked_value(arg).len() >= 3,
        masked_value(arg).last() == '*',
{
    reveal_strlit("=***");
    reveal_strlit("***");
    lemma_find_bounds(arg, '=');
    match find_spec(arg, '=') {
        Some(eq) => {
            let k = arg.take(eq);
            let m = k + "=***"@;
            assert forall|j: int| 0 <= j < k.len() implies m[j] != '=' by {
                assert(m[j] == arg[j]);
            }
            assert(m[k.len() as int] == '=');
            lemma_find_at(m, '=', k.len() as int);
            assert(m.take(k.len() as int) =~= k);
        },
        None => {
            let m = "***"@;
            lemma_find_bounds(m, '=');
        },
    }
}

/// A single-token form with its value masked still starts with its prefix, and
/// masking it again changes nothing.
proof fn lemma_masked_single_stable(prefix: Seq<char>, arg: Seq<char>)
    requires
        starts_with_spec(arg, prefix),
    ensures
        starts_with_spec(masked_single(prefix, arg), prefix),
        masked_single(prefix, masked_single(prefix, arg)) == masked_single(prefix, arg),
{
    reveal_strlit("=***");
    let suffix = arg.skip(prefix.len() as int);
    lemma_find_bounds(suffix, '=');
    let r = masked_single(prefix, arg);
    match find_spec(suffix, '=') {
        Some(eq) => {
            let k = suffix.take(eq);
            let tail = k + "=***"@;
            assert(r =~= prefix + tail);
            assert(r.subrange(0, prefix.len() as int) =~= prefix);
            assert(r.skip(prefix.len() as int) =~= tail);
            assert forall|j: int| 0 <= j < k.len() implies tail[j] != '=' by {
                assert(tail[j] == suffix[j]);
            }
            assert(tail[k.len() as int] == '=');
            lemma_find_at(tail, '=', k.len() as int);
            assert(tail.take(k.len() as int) =~= k);
        },
        None => {
            assert(r =~= prefix + suffix);
            assert(prefix + suffix =~= arg);
        },
    }
}

/// Redacting a token that does not follow an environment flag twice shows the
/// same as once, and keeps whether the token is an environment flag.
proof fn lemma_redacted_token_stable(arg: Seq<char>)
    ensures
        redacted_token(redacted_token(arg)) == redacted_token(arg),
        is_env_flag(redacted_token(arg)) == is_env_flag(arg),
{
    reveal_strlit("--env");
    reveal_strlit("-e");
    reveal_strlit("--env=");
    reveal_strlit("-e=");
    let r = redacted_token(arg);
    if is_env_flag(arg) {
    } else if starts_with_spec(arg, "--env="@) {
        lemma_masked_single_stable("--env="@, arg);
        assert(r.len() >= 6);
        assert(!is_env_flag(r));
    } else if starts_with_spec(arg, "-e="@) {
        lemma_masked_single_stable("-e="@, arg);
        assert(r.subrange(0, 3) =~= "-e="@);
        assert(r[1] == 'e');
        assert(r.len() >= 3);
        if starts_with_spec(r, "--env="@) {
            assert(r.subrange(0, 6)[1] == '-');
        }
        assert(!starts_with_spec(r, "--env="@));
        assert(!is_env_flag(r));
    }
}

/// Redacting what was already redacted changes nothing: no environment value is
/// left to hide. Redaction keeps the number of tokens.
pub proof fn law_redaction_stable(args: Seq<Seq<char>>, after_flag: bool)
    ensures
        redacted_args(redacted_args(args, after_flag), after_flag) == redacted_args(args, after_flag),
        redacted_args(args, after_flag).len() == args.len(),
    decreases args.len(),
{
    if args.len() == 0 {
        return;
    }
    let rest = args.drop_first();
    let r = redacted_args(args, after_flag);
    if after_flag {
        law_redaction_stable(rest, false);
        lemma_masked_value_stable(args[0]);
        let m = masked_value(args[0]);
        assert(r == seq![m] + redacted_args(rest, false));
        assert(r[0] == m);
        assert(r.drop_first() =~= redacted_args(rest, false));
    } else {
        let f = is_env_flag(args[0]);
        law_redaction_stable(rest, f);
        lemma_redacted_token_stable(args[0]);
        let t = redacted_token(args[0]);
        assert(r == seq![t] + redacted_args(rest, f));
        assert(r[0] == t);
        assert(r.drop_first() =~= redacted_args(rest, f));
    }
}

/// The token at `i` of `args` is the value of an environment flag: the token
/// before it is `--env` or `-e` and is not itself such a value (`after_flag`
/// says whether the first token is one).
pub open spec fn env_value_at(args: Seq<Seq<char>>, after_flag: bool, i: int) -> bool
    decreases i,
{
    if i <= 0 {
        after_flag
    } else {
        !env_value_at(args, after_flag, i - 1) && is_env_flag(args[i - 1])
    }
}

/// Whether a later token is an environment value reads the same from the list
/// without its first token.
proof fn lemma_env_value_shift(args: Seq<Seq<char>>, after_flag: bool, i: int)
    requires
        args.len() > 0,
        0 <= i,
        i + 1 <= args.len(),
    ensures
        env_value_at(args, after_flag, i + 1) == env_value_at(
            args.drop_first(),
            !after_flag && is_env_flag(args[0]),
            i,
        ),
    decreases i,
{
    if i > 0 {
        lemma_env_value_shift(args, after_flag, i - 1);
        assert(args.drop_first()[i - 1] == args[i]);
    } else {
        assert(env_value_at(args, after_flag, 0) == after_flag);
    }
}

/// Redaction works token by token: the value of an environment flag shows only
/// its key (`KEY=***`, or `***` without a key), every other token shows as
/// [`redacted_token`] makes it.
pub proof fn law_redaction_by_token(args: Seq<Seq<char>>, after_flag: bool)
    ensures
        redacted_args(args, after_flag).len() == args.len(),
        forall|i: int| 0 <= i < args.len() ==> #[trigger] redacted_args(args, after_flag)[i] == if env_value_at(
            args,
            after_flag,
            i,
        ) {
            masked_value(args[i])
        } else {
            redacted_token(args[i])
        },
    decreases args.len(),
{
    if args.len() == 0 {
        return;
    }
    let rest = args.drop_first();
    let g = !after_flag && is_env_flag(args[0]);
    law_redaction_by_token(rest, g);
    let head = if after_flag { masked_value(args[0]) } else { redacted_token(args[0]) };
    let r = redacted_args(args, after_flag);
    assert(r == seq![head] + redacted_args(rest, g));
    assert forall|i: int| 0 <= i < args.len() implies #[trigger] r[i] == if env_value_at(args, after_flag, i) {
        masked_value(args[i])
    } else {
        redacted_token(args[i])
    } by {
        if i > 0 {
            lemma_env_value_shift(args, after_flag, i - 1);
            assert(r[i] == redacted_args(rest, g)[i - 1]);
            assert(rest[i - 1] == args[i]);
        }
    }
}

/// Every pair is passed, in order: for the `k`-th pair, the tokens at `2k` and
/// `2k + 1` are `flag` and `KEY=VALUE`, and there are no other tokens.
pub proof fn law_every_pair_passed(flag: Seq<char>, pairs: Seq<(Seq<char>, Seq<char>)>)
    ensures
        pair_flags(flag, pairs).len() == 2 * pairs.len(),
        forall|k: int| 0 <= k < pairs.len() ==> pair_flags(flag, pairs).subrange(2 * k, 2 * k + 2)
            == seq![flag, (#[trigger] pairs[k]).0 + "="@ + pairs[k].1],
    decreases pairs.len(),
{
    if pairs.len() > 0 {
        let dl = pairs.drop_last();
        law_every_pair_passed(flag, dl);
        let r = pair_flags(flag, pairs);
        let head = pair_flags(flag, dl);
        assert(r == head + seq![flag, key_value(pairs.last())]);
        assert forall|k: int| 0 <= k < pairs.len() implies pair_flags(flag, pairs).subrange(2 * k, 2 * k + 2)
            == seq![flag, (#[trigger] pairs[k]).0 + "="@ + pairs[k].1] by {
            if k < pairs.len() - 1 {
                assert(dl[k] == pairs[k]);
                assert(r.subrange(2 * k, 2 * k + 2) =~= head.subrange(2 * k, 2 * k + 2));
            } else {
                assert(pairs.last() == pairs[k]);
                assert(r.subrange(2 * k, 2 * k + 2) =~= seq![flag, key_value(pairs.last())]);
            }
        }
    }
}

} // verus!
