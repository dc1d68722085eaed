//! Checks on the `runArgs` of `devcontainer.json`.

use vstd::prelude::*;
use crate::text::{before_first, chars_of, concat3, find_spec, owned, str_eq};

verus! {

/// Safe flags that are allowed in `runArgs`.
pub open spec fn allowed_flag(f: Seq<char>) -> bool {
    ||| f == "--env"@ ||| f == "--env-file"@ ||| f == "--label"@ ||| f == "--name"@
    ||| f == "--hostname"@ ||| f == "--network"@ ||| f == "--expose"@ ||| f == "--publish"@
    ||| f == "--dns"@ ||| f == "--add-host"@ ||| f == "--workdir"@ ||| f == "--user"@
    ||| f == "--memory"@ ||| f == "--cpus"@ ||| f == "--memory-swap"@ ||| f == "--cpu-shares"@
    ||| f == "--shm-size"@ ||| f == "--ulimit"@ ||| f == "--tmpfs"@ ||| f == "--read-only"@
    ||| f == "--init"@ ||| f == "-e"@ ||| f == "-p"@ ||| f == "-u"@ ||| f == "-w"@ ||| f == "-h"@
}

/// Privilege-escalating flags that are denied in `runArgs`.
pub open spec fn denied_flag(f: Seq<char>) -> bool {
    ||| f == "--privileged"@ ||| f == "--cap-add"@ ||| f == "--cap-drop"@
    ||| f == "--security-opt"@ ||| f == "--device"@ ||| f == "--pid"@ ||| f == "--ipc"@
    ||| f == "--userns"@ ||| f == "--cgroupns"@ ||| f == "--systctl"@ ||| f == "--apparmor"@
}

/// Whether `f` is one of the allowed flags.
pub fn is_allowed_flag(f: &str) -> (r: bool)
    ensures
        r == allowed_flag(f@),
{
    str_eq(f, "--env") || str_eq(f, "--env-file") || str_eq(f, "--label") || str_eq(f, "--name")
        || str_eq(f, "--hostname") || str_eq(f, "--network") || str_eq(f, "--expose")
        || str_eq(f, "--publish") || str_eq(f, "--dns") || str_eq(f, "--add-host")
        || str_eq(f, "--workdir") || str_eq(f, "--user") || str_eq(f, "--memory")
        || str_eq(f, "--cpus") || str_eq(f, "--memory-swap") || str_eq(f, "--cpu-shares")
        || str_eq(f, "--shm-size") || str_eq(f, "--ulimit") || str_eq(f, "--tmpfs")
        || str_eq(f, "--read-only") || str_eq(f, "--init") || str_eq(f, "-e") || str_eq(f, "-p")
        || str_eq(f, "-u") || str_eq(f, "-w") || str_eq(f, "-h")
}

/// Whether `f` is one of the denied flags.
pub fn is_denied_flag(f: &str) -> (r: bool)
    ensures
        r == denied_flag(f@),
{
    str_eq(f, "--privileged") || str_eq(f, "--cap-add") || str_eq(f, "--cap-drop")
        || str_eq(f, "--security-opt") || str_eq(f, "--device") || str_eq(f, "--pid")
        || str_eq(f, "--ipc") || str_eq(f, "--userns") || str_eq(f, "--cgroupns")
        || str_eq(f, "--systctl") || str_eq(f, "--apparmor")
}

/// A token that looks like a flag (starts with `-`).
pub open spec fn looks_like_flag(arg: Seq<char>) -> bool {
    arg.len() > 0 && arg[0] == '-'
}

/// The flag name of a token: the part before the first `=`, or the whole token.
pub open spec fn flag_name(arg: Seq<char>) -> Seq<char> {
    match find_spec(arg, '=') {
        Some(i) => arg.take(i),
        None => arg,
    }
}

/// The flag name of the first denied flag among `args`, if any.
pub open spec fn first_denied(args: Seq<Seq<char>>) -> Option<Seq<char>>
    decreases args.len(),
{
    if args.len() == 0 {
        None
    } else if looks_like_flag(args[0]) && denied_flag(flag_name(args[0])) {
        Some(flag_name(args[0]))
    } else {
        first_denied(args.drop_first())
    }
}

/// The flag names of the unknown flags among `args` that come before the first
/// denied flag, in order.
pub open spec fn unknown_flags(args: Seq<Seq<char>>) -> Seq<Seq<char>>
    decreases args.len(),
{
    if args.len() == 0 {
        Seq::empty()
    } else if !looks_like_flag(args[0]) {
        unknown_flags(args.drop_first())
    } else if denied_flag(flag_name(args[0])) {
        Seq::empty()
    } else if allowed_flag(flag_name(args[0])) {
        unknown_flags(args.drop_first())
    } else {
        seq![flag_name(args[0])] + unknown_flags(args.drop_first())
    }
}

/// The message for a denied flag.
pub open spec fn denied_message(flag: Seq<char>) -> Seq<char> {
    "runArgs contains denied flag '"@ + flag + "': privilege-escalating flags are not allowed"@
}

/// The warning for an unknown flag.
pub open spec fn unknown_message(flag: Seq<char>) -> Seq<char> {
    "warning: runArgs contains unknown flag '"@ + flag + "'; allowing but not validated"@
}

/// Whether `arg` starts with `-`.
fn dash_prefixed(arg: &str) -> (r: bool)
    ensures
        r == looks_like_flag(arg@),
{
    let v = chars_of(arg);
    v.len() > 0 && v[0] == '-'
}

/// The flag name of `arg`.
fn flag_of(arg: &str) -> (r: String)
    ensures
        r@ == flag_name(arg@),
{
    match before_first(arg, '=') {
        Some(f) => f,
        None => owned(arg),
    }
}

/// Validate a list of `runArgs` against the allowlist and denylist.
///
/// - Denied flags: returns `Err` with the offending flag name.
/// - Unknown flags (not in either list): allowed here; see [`run_args_warnings`].
/// - Allowed flags and value arguments (non-flag tokens): pass.
pub fn validate_run_args(args: &[String]) -> (r: Result<(), String>)
    ensures
        match first_denied(args.deep_view()) {
            Some(f) => r is Err && r->Err_0@ == denied_message(f),
            None => r is Ok,
        },
{
    let ghost all = args.deep_view();
    assert(all.skip(0) =~= all);
    let mut i: usize = 0;
    while i < args.len()
        invariant
            all == args.deep_view(),
            i <= args@.len(),
            first_denied(all) == first_denied(all.skip(i as int)),
        decreases args@.len() - i,
    {
        let arg = args[i].as_str();
        assert(all.skip(i as int)[0] == arg@);
        assert(all.skip(i as int).drop_first() =~= all.skip(i + 1));
        if dash_prefixed(arg) {
            let flag = flag_of(arg);
            if is_denied_flag(flag.as_str()) {
                return Err(concat3(
                    "runArgs contains denied flag '",
                    flag.as_str(),
                    "': privilege-escalating flags are not allowed",
                ));
            }
        }
        i = i + 1;
    }
    Ok(())
}

/// The warnings that validating `args` reports on standard error: one for each
/// unknown flag before the first denied flag.
pub fn run_args_warnings(args: &[String]) -> (r: Vec<String>)
    ensures
        r.deep_view() == unknown_flags(args.deep_view()).map_values(|f: Seq<char>| unknown_message(f)),
{
    let ghost all = args.deep_view();
    let mut out: Vec<String> = Vec::new();
    assert(all.skip(0) =~= all);
    let mut i: usize = 0;
    while i < args.len()
        invariant
            all == args.deep_view(),
            i <= args@.len(),
            out.deep_view() + unknown_flags(all.skip(i as int)).map_values(|f: Seq<char>| unknown_message(f))
                == unknown_flags(all).map_values(|f: Seq<char>| unknown_message(f)),
        decreases args@.len() - i,
    {
        let arg = args[i].as_str();
        let ghost rest = all.skip(i as int);
        let ghost before = out.deep_view();
        assert(rest[0] == arg@);
        assert(rest.drop_first() =~= all.skip(i + 1));
        if dash_prefixed(arg) {
            let flag = flag_of(arg);
            if is_denied_flag(flag.as_str()) {
                assert(unknown_flags(rest) =~= Seq::<Seq<char>>::empty());
                assert(out.deep_view() + unknown_flags(rest).map_values(|f: Seq<char>| unknown_message(f))
                    =~= out.deep_view());
                return out;
            }
            if !is_allowed_flag(flag.as_str()) {
                out.push(concat3(
                    "warning: runArgs contains unknown flag '",
                    flag.as_str(),
                    "'; allowing but not validated",
                ));
                assert(unknown_flags(rest) == seq![flag@] + unknown_flags(all.skip(i + 1)));
                assert(unknown_flags(rest).map_values(|f: Seq<char>| unknown_message(f))
                    =~= seq![unknown_message(flag@)]
                    + unknown_flags(all.skip(i + 1)).map_values(|f: Seq<char>| unknown_message(f)));
                assert(out.deep_view() =~= before.push(unknown_message(flag@)));
            }
        }
        i = i + 1;
    }
    assert(unknown_flags(all.skip(i as int)) =~= Seq::<Seq<char>>::empty());
    assert(out.deep_view() + unknown_flags(all.skip(i as int)).map_values(|f: Seq<char>| unknown_message(f))
        =~= out.deep_view());
    out
}

/// The `i`-th token of `args` is a flag whose name is denied.
pub open spec fn denied_at(args: Seq<Seq<char>>, i: int) -> bool {
    0 <= i < args.len() && looks_like_flag(args[i]) && denied_flag(flag_name(args[i]))
}

/// `runArgs` are refused exactly when one of their flag tokens names a denied
/// flag, and the refusal names the first such flag.
pub proof fn law_denied_flag_refused(args: Seq<Seq<char>>)
    ensures
        first_denied(args) is None <==> (forall|i: int| !#[trigger] denied_at(args, i)),
        first_denied(args) is Some ==> exists|i: int|
            #[trigger] denied_at(args, i) && first_denied(args) == Some(flag_name(args[i]))
                && forall|j: int| 0 <= j < i ==> !#[trigger] denied_at(args, j),
    decreases args.len(),
{
    if args.len() == 0 {
        return;
    }
    let rest = args.drop_first();
    law_denied_flag_refused(rest);
    assert forall|i: int| 1 <= i implies #[trigger] denied_at(args, i) == denied_at(rest, i - 1) by {
        if i < args.len() {
            assert(args[i] == rest[i - 1]);
        }
    }
    if denied_at(args, 0) {
        assert(first_denied(args) == Some(flag_name(args[0])));
    } else {
        assert(first_denied(args) == first_denied(rest));
        if first_denied(rest) is None {
            assert forall|i: int| !#[trigger] denied_at(args, i) by {
                if i >= 1 {
                    assert(!denied_at(rest, i - 1));
                }
            }
        } else {
            let k = choose|k: int| #[trigger] denied_at(rest, k) && first_denied(rest) == Some(flag_name(rest[k]))
                && forall|j: int| 0 <= j < k ==> !#[trigger] denied_at(rest, j);
            assert(denied_at(args, k + 1));
            assert(args[k + 1] == rest[k]);
            assert forall|j: int| 0 <= j < k + 1 implies !#[trigger] denied_at(args, j) by {
                if j >= 1 {
                    assert(!denied_at(rest, j - 1));
                }
            }
        }
    }
}

/// The `i`-th token of `args` is a flag whose name is neither allowed nor denied.
pub open spec fn unknown_at(args: Seq<Seq<char>>, i: int) -> bool {
    0 <= i < args.len() && looks_like_flag(args[i]) && !denied_flag(flag_name(args[i]))
        && !allowed_flag(flag_name(args[i]))
}

/// No token of `args` before the `i`-th is a denied flag.
pub open spec fn no_denied_before(args: Seq<Seq<char>>, i: int) -> bool {
    forall|j: int| 0 <= j < i ==> !#[trigger] denied_at(args, j)
}

/// `f` is the name of an unknown flag token of `args` that comes before any
/// denied flag.
pub open spec fn warned_for(args: Seq<Seq<char>>, f: Seq<char>) -> bool {
    exists|i: int| #[trigger] unknown_at(args, i) && no_denied_before(args, i) && f == flag_name(args[i])
}

/// Every unknown flag gets its warning: each flag token whose name is neither
/// allowed nor denied, and that comes before any denied flag, is among the
/// warned names, and each warned name is that of such a token.
pub proof fn law_every_unknown_flag_warned(args: Seq<Seq<char>>)
    ensures
        forall|i: int| #[trigger] unknown_at(args, i) && no_denied_before(args, i)
            ==> unknown_flags(args).contains(flag_name(args[i])),
        forall|k: int| 0 <= k < unknown_flags(args).len() ==> warned_for(args, #[trigger] unknown_flags(args)[k]),
    decreases args.len(),
{
    if args.len() == 0 {
        return;
    }
    let rest = args.drop_first();
    law_every_unknown_flag_warned(rest);
    let r = unknown_flags(args);
    let rr = unknown_flags(rest);
    assert forall|i: int| 1 <= i < args.len() implies #[trigger] args[i] == rest[i - 1] by {}
    assert forall|i: int| 1 <= i implies #[trigger] denied_at(args, i) == denied_at(rest, i - 1)
        && unknown_at(args, i) == unknown_at(rest, i - 1) by {
        if i < args.len() {
            assert(args[i] == rest[i - 1]);
        }
    }
    if denied_at(args, 0) {
        assert(r =~= Seq::<Seq<char>>::empty());
        return;
    }
    assert forall|i: int| 0 <= i && no_denied_before(rest, i) implies #[trigger] no_denied_before(args, i + 1) by {
        assert forall|j: int| 0 <= j < i + 1 implies !#[trigger] denied_at(args, j) by {
            if j >= 1 {
                assert(!denied_at(rest, j - 1));
            }
        }
    }
    let shift: int = if unknown_at(args, 0) { 1 } else { 0 };
    if unknown_at(args, 0) {
        assert(r == seq![flag_name(args[0])] + rr);
    } else {
        assert(r == rr);
    }
    assert forall|k: int| 0 <= k < rr.len() implies r[k + shift] == #[trigger] rr[k] by {}
    assert forall|i: int| #[trigger] unknown_at(args, i) && no_denied_before(args, i)
        implies r.contains(flag_name(args[i])) by {
        if i == 0 {
            assert(r[0] == flag_name(args[0]));
        } else {
            assert(unknown_at(rest, i - 1));
            assert forall|j: int| 0 <= j < i - 1 implies !#[trigger] denied_at(rest, j) by {
                assert(!denied_at(args, j + 1));
            }
            assert(no_denied_before(rest, i - 1));
            assert(rr.contains(flag_name(rest[i - 1])));
            let m = choose|m: int| 0 <= m < rr.len() && rr[m] == flag_name(rest[i - 1]);
            assert(r[m + shift] == rr[m]);
        }
    }
    assert forall|k: int| 0 <= k < r.len() implies warned_for(args, #[trigger] r[k]) by {
        if shift == 1 && k == 0 {
            assert(unknown_at(args, 0) && no_denied_before(args, 0) && r[0] == flag_name(args[0]));
        } else {
            let m = k - shift;
            assert(r[k] == rr[m]);
            assert(warned_for(rest, rr[m]));
            let i = choose|i: int| #[trigger] unknown_at(rest, i) && no_denied_before(rest, i)
                && rr[m] == flag_name(rest[i]);
            assert(unknown_at(args, i + 1));
            assert(args[i + 1] == rest[i]);
            assert(no_denied_before(args, i + 1));
        }
    }
}

} // verus!
