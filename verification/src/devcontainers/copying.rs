//! Copying host files (the git configuration, dotfiles) into the container.

use vstd::prelude::*;
use crate::devcontainers::paths::{path_join, path_join_spec};
use crate::text::{chars_of, concat2, owned, push_char, str_eq};

verus! {

/// The outcomes of `shellexpand::tilde(input)`: a leading `~` that stands alone
/// or is followed by `/` may be replaced by a home directory; any other input,
/// and a `~` when no home directory is known, stays as it is.
pub open spec fn tilde_outcome(input: Seq<char>, r: Seq<char>) -> bool {
    if input.len() > 0 && input[0] == '~' && (input.len() == 1 || input[1] == '/') {
        r == input || exists|home: Seq<char>| r == home + input.skip(1)
    } else {
        r == input
    }
}

/// Calls `shellexpand::tilde`, which reads the home directory of the process;
/// only the shape of the outcome is stated (see [`tilde_outcome`]).
#[verifier::external_body]
pub(crate) fn expand_home(input: &str) -> (r: String)
    ensures
        tilde_outcome(input@, r@),
{
    shellexpand::tilde(input).into_owned()
}

/// `Path::parent` of a path, as `std::path` computes it.
pub uninterp spec fn path_parent(p: Seq<char>) -> Option<Seq<char>>;

/// Calls `Path::parent`; the result is named `path_parent` of the input.
#[verifier::external_body]
pub(crate) fn parent_of(p: &str) -> (r: Option<String>)
    ensures
        match (r, path_parent(p@)) {
            (Some(a), Some(b)) => a@ == b,
            (None, None) => true,
            _ => false,
        },
{
    match std::path::Path::new(p).parent() {
        Some(q) => Some(q.to_string_lossy().into_owned()),
        None => None,
    }
}

/// The `Debug` text of a path, as `std::path` writes it.
pub uninterp spec fn path_debug(p: Seq<char>) -> Seq<char>;

/// Calls `Path`'s `Debug`; the result is named `path_debug` of the input.
#[verifier::external_body]
pub(crate) fn path_debug_text(p: &str) -> (r: String)
    ensures
        r@ == path_debug(p@),
{
    format!("{:?}", std::path::Path::new(p))
}

/// The home directory of `remote_user` in the container.
pub open spec fn home_dir_spec(remote_user: Seq<char>) -> Seq<char> {
    if remote_user == "root"@ { "/root"@ } else { path_join_spec("/home"@, remote_user) }
}

/// The home directory of `remote_user` in the container: `/root` for `root`,
/// `/home/<user>` otherwise.
pub fn home_dir_for(remote_user: &str) -> (r: String)
    ensures
        r@ == home_dir_spec(remote_user@),
{
    if str_eq(remote_user, "root") {
        owned("/root")
    } else {
        path_join("/home", remote_user)
    }
}

/// `s` with every `'` written as `'\''`.
pub open spec fn quote_escaped(s: Seq<char>) -> Seq<char>
    decreases s.len(),
{
    if s.len() == 0 {
        Seq::empty()
    } else {
        let head = quote_escaped(s.drop_last());
        if s.last() == '\'' { head + seq!['\'', '\\', '\'', '\''] } else { head.push(s.last()) }
    }
}

/// `s` in single quotes for `sh`.
pub open spec fn shell_quoted(s: Seq<char>) -> Seq<char> {
    seq!['\''] + quote_escaped(s) + seq!['\'']
}

/// Quotes `s` for `sh`, so that spaces and special characters stay literal.
pub fn shell_quote(s: &str) -> (r: String)
    ensures
        r@ == shell_quoted(s@),
{
    let v = chars_of(s);
    let mut r = String::new();
    push_char(&mut r, '\'');
    let mut i: usize = 0;
    while i < v.len()
        invariant
            v@ == s@,
            i <= v@.len(),
            r@ == seq!['\''] + quote_escaped(v@.take(i as int)),
        decreases v@.len() - i,
    {
        assert(v@.take(i + 1).drop_last() =~= v@.take(i as int));
        let ghost before = r@;
        if v[i] == '\'' {
            push_char(&mut r, '\'');
            push_char(&mut r, '\\');
            push_char(&mut r, '\'');
            push_char(&mut r, '\'');
            assert(r@ =~= before + seq!['\'', '\\', '\'', '\'']);
        } else {
            push_char(&mut r, v[i]);
        }
        i = i + 1;
    }
    assert(v@.take(v@.len() as int) =~= s@);
    push_char(&mut r, '\'');
    r
}

/// Where a copy goes: the shell command that creates the destination's parent
/// directory, and the destination handed to the engine (the parent directory
/// itself when the source is a directory).
pub open spec fn copy_targets_spec(dest: Seq<char>, parent: Option<Seq<char>>, source_is_dir: bool)
    -> (Seq<char>, Seq<char>)
{
    let basedir = match parent { Some(p) => p, None => "<non-utf8>"@ };
    ("mkdir -p -- "@ + shell_quoted(basedir), if source_is_dir { basedir } else { dest })
}

/// The `mkdir` command and the destination for copying to `dest`, given the
/// parent directory of `dest`.
pub fn copy_targets(dest: &str, parent: Option<String>, source_is_dir: bool) -> (r: (String, String))
    ensures
        (r.0@, r.1@) == copy_targets_spec(dest@, match parent { Some(p) => Some(p@), None => None }, source_is_dir),
{
    let basedir = match parent {
        Some(p) => p,
        None => owned("<non-utf8>"),
    };
    let quoted = shell_quote(basedir.as_str());
    let mkdir = concat2("mkdir -p -- ", quoted.as_str());
    let destination = if source_is_dir { basedir } else { owned(dest) };
    (mkdir, destination)
}

/// The message when a file to copy does not exist.
pub open spec fn missing_file_message(source: Seq<char>) -> Seq<char> {
    "File not found "@ + path_debug(source)
}

/// The message when a file to copy does not exist.
pub fn missing_file(source: &str) -> (r: String)
    ensures
        r@ == missing_file_message(source@),
{
    let d = path_debug_text(source);
    concat2("File not found ", d.as_str())
}

/// Quoting for `sh` works character by character: every `'` becomes `'\''`
/// (close the quote, an escaped quote, reopen), every other character stays as
/// it is, and the pieces of the input's characters come in order.
pub proof fn law_quote_by_character(a: Seq<char>, b: Seq<char>, c: char)
    ensures
        quote_escaped(a + b) == quote_escaped(a) + quote_escaped(b),
        quote_escaped(seq![c]) == if c == '\'' { seq!['\'', '\\', '\'', '\''] } else { seq![c] },
    decreases b.len(),
{
    assert(seq![c].drop_last() =~= Seq::<char>::empty());
    assert(quote_escaped(Seq::<char>::empty()) =~= Seq::<char>::empty());
    if c == '\'' {
        assert(Seq::<char>::empty() + seq!['\'', '\\', '\'', '\''] =~= seq!['\'', '\\', '\'', '\'']);
    } else {
        assert(Seq::<char>::empty().push(c) =~= seq![c]);
    }
    if b.len() == 0 {
        assert(a + b =~= a);
        assert(quote_escaped(a) + quote_escaped(b) =~= quote_escaped(a));
    } else {
        law_quote_by_character(a, b.drop_last(), c);
        assert((a + b).drop_last() =~= a + b.drop_last());
        assert((a + b).last() == b.last());
        let x = b.last();
        let qa = quote_escaped(a);
        let qb = quote_escaped(b.drop_last());
        if x == '\'' {
            assert(qa + qb + seq!['\'', '\\', '\'', '\''] =~= qa + (qb + seq!['\'', '\\', '\'', '\'']));
        } else {
            assert((qa + qb).push(x) =~= qa + qb.push(x));
        }
    }
}

} // verus!
