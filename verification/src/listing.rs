//! Reading what a container engine prints when it lists containers.

use vstd::prelude::*;
use vstd::utf8::*;
use crate::text::{is_empty_str, lines_of, lines_spec, str_eq, trim, trim_spec};

verus! {

/// `String::from_utf8(bytes).unwrap_or_default()` on the byte view: the decoded
/// text when the bytes are valid UTF-8, else the empty text.
pub open spec fn text_or_empty(bytes: Seq<u8>) -> Seq<char> {
    if valid_utf8(bytes) { decode_utf8(bytes) } else { Seq::empty() }
}

/// Calls `String::from_utf8`; the result is `Some` exactly for valid UTF-8,
/// and then holds the decoded characters.
#[verifier::external_body]
fn utf8_to_string(bytes: Vec<u8>) -> (r: Option<String>)
    ensures
        r is Some <==> valid_utf8(bytes@),
        r is Some ==> r->0@ == decode_utf8(bytes@),
{
    String::from_utf8(bytes).ok()
}

/// The text of a command's output; invalid UTF-8 reads as empty.
pub fn output_text(bytes: Vec<u8>) -> (r: String)
    ensures
        r@ == text_or_empty(bytes@),
{
    match utf8_to_string(bytes) {
        Some(s) => s,
        None => String::new(),
    }
}

/// Some line of `text`, trimmed, equals `name`.
pub open spec fn name_listed(text: Seq<char>, name: Seq<char>) -> bool {
    exists|i: int| 0 <= i < lines_spec(text).len() && #[trigger] trim_spec(lines_spec(text)[i]) == name
}

/// Returns true if any line of `text`, with surrounding white space removed, is `name`.
pub fn name_listed_in(text: &str, name: &str) -> (r: bool)
    ensures
        r == name_listed(text@, name@),
{
    let lines = lines_of(text);
    let mut i: usize = 0;
    while i < lines.len()
        invariant
            lines.deep_view() == lines_spec(text@),
            i <= lines@.len(),
            forall|j: int| 0 <= j < i ==> trim_spec(#[trigger] lines_spec(text@)[j]) != name@,
        decreases lines@.len() - i,
    {
        let t = trim(lines[i].as_str());
        assert(lines.deep_view()[i as int] == lines@[i as int]@);
        if str_eq(t.as_str(), name) {
            return true;
        }
        i = i + 1;
    }
    false
}

/// The first line of `lines` that is not blank, trimmed; empty when there is none.
pub open spec fn first_nonblank_spec(lines: Seq<Seq<char>>) -> Seq<char>
    decreases lines.len(),
{
    if lines.len() == 0 {
        Seq::empty()
    } else if trim_spec(lines[0]).len() != 0 {
        trim_spec(lines[0])
    } else {
        first_nonblank_spec(lines.drop_first())
    }
}

/// The first non-blank line of `output`, trimmed; `""` when every line is blank.
pub fn first_nonblank_line(output: &str) -> (r: String)
    ensures
        r@ == first_nonblank_spec(lines_spec(output@)),
{
    let lines = lines_of(output);
    let ghost all = lines.deep_view();
    assert(all.skip(0) =~= all);
    let mut i: usize = 0;
    while i < lines.len()
        invariant
            all == lines.deep_view(),
            all == lines_spec(output@),
            i <= lines@.len(),
            first_nonblank_spec(all) == first_nonblank_spec(all.skip(i as int)),
        decreases lines@.len() - i,
    {
        let t = trim(lines[i].as_str());
        assert(all[i as int] == lines@[i as int]@);
        assert(all.skip(i as int).drop_first() =~= all.skip(i + 1));
        if !is_empty_str(t.as_str()) {
            return t;
        }
        i = i + 1;
    }
    String::new()
}

/// Some character of `output`'s text is not white space.
pub open spec fn has_output_spec(bytes: Seq<u8>) -> bool {
    trim_spec(text_or_empty(bytes)).len() != 0
}

/// Returns true when the output, trimmed, is not empty.
pub fn has_output(output: Vec<u8>) -> (r: bool)
    ensures
        r == has_output_spec(output@),
{
    let text = output_text(output);
    let t = trim(text.as_str());
    !is_empty_str(t.as_str())
}

/// The first line that is not blank is the one taken: the result is empty
/// exactly when every line is blank, and otherwise it is the trimmed `i`-th
/// line, for an `i` before which every line is blank.
pub proof fn law_first_nonblank_taken(lines: Seq<Seq<char>>)
    ensures
        first_nonblank_spec(lines).len() == 0 <==> forall|i: int| 0 <= i < lines.len()
            ==> trim_spec(#[trigger] lines[i]).len() == 0,
        first_nonblank_spec(lines).len() != 0 ==> exists|i: int| 0 <= i < lines.len()
            && first_nonblank_spec(lines) == trim_spec(#[trigger] lines[i])
            && forall|j: int| 0 <= j < i ==> trim_spec(#[trigger] lines[j]).len() == 0,
    decreases lines.len(),
{
    if lines.len() == 0 {
        return;
    }
    let rest = lines.drop_first();
    law_first_nonblank_taken(rest);
    assert forall|i: int| 1 <= i < lines.len() implies #[trigger] lines[i] == rest[i - 1] by {}
    if trim_spec(lines[0]).len() == 0 {
        if first_nonblank_spec(rest).len() != 0 {
            let k = choose|k: int| 0 <= k < rest.len() && first_nonblank_spec(rest) == trim_spec(#[trigger] rest[k])
                && forall|j: int| 0 <= j < k ==> trim_spec(#[trigger] rest[j]).len() == 0;
            assert(lines[k + 1] == rest[k]);
            assert forall|j: int| 0 <= j < k + 1 implies trim_spec(#[trigger] lines[j]).len() == 0 by {
                if j >= 1 {
                    assert(lines[j] == rest[j - 1]);
                }
            }
        } else {
            assert forall|i: int| 0 <= i < lines.len() implies trim_spec(#[trigger] lines[i]).len() == 0 by {
                if i >= 1 {
                    assert(lines[i] == rest[i - 1]);
                }
            }
        }
    }
}

} // verus!
