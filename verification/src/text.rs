//! Character-level string helpers with exact specifications.
//!
//! Every helper here works on the `char` view of a string (`s@`).

use vstd::prelude::*;

verus! {

/// `char::is_whitespace`: the Unicode `White_Space` property.
pub open spec fn is_white_space(c: char) -> bool {
    ||| ('\u{9}' <= c && c <= '\u{d}')
    ||| c == ' '
    ||| c == '\u{85}'
    ||| c == '\u{a0}'
    ||| c == '\u{1680}'
    ||| ('\u{2000}' <= c && c <= '\u{200a}')
    ||| c == '\u{2028}'
    ||| c == '\u{2029}'
    ||| c == '\u{202f}'
    ||| c == '\u{205f}'
    ||| c == '\u{3000}'
}

/// `s` with leading white space removed.
pub open spec fn trim_start_spec(s: Seq<char>) -> Seq<char>
    decreases s.len(),
{
    if s.len() > 0 && is_white_space(s[0]) {
        trim_start_spec(s.drop_first())
    } else {
        s
    }
}

/// `s` with trailing white space removed.
pub open spec fn trim_end_spec(s: Seq<char>) -> Seq<char>
    decreases s.len(),
{
    if s.len() > 0 && is_white_space(s.last()) {
        trim_end_spec(s.drop_last())
    } else {
        s
    }
}

/// `str::trim`: `s` with leading and trailing white space removed.
pub open spec fn trim_spec(s: Seq<char>) -> Seq<char> {
    trim_end_spec(trim_start_spec(s))
}

/// Index of the first occurrence of `c` in `s`, if any.
pub open spec fn find_spec(s: Seq<char>, c: char) -> Option<int>
    decreases s.len(),
{
    if s.len() == 0 {
        None
    } else if s[0] == c {
        Some(0)
    } else {
        match find_spec(s.drop_first(), c) {
            Some(i) => Some(i + 1),
            None => None,
        }
    }
}

/// A found index lies inside the sequence and holds the character sought, and
/// no earlier index holds it.
pub proof fn lemma_find_bounds(s: Seq<char>, c: char)
    ensures
        match find_spec(s, c) {
            Some(i) => 0 <= i < s.len() && s[i] == c && forall|j: int| 0 <= j < i ==> s[j] != c,
            None => forall|j: int| 0 <= j < s.len() ==> s[j] != c,
        },
    decreases s.len(),
{
    if s.len() > 0 && s[0] != c {
        lemma_find_bounds(s.drop_first(), c);
        match find_spec(s.drop_first(), c) {
            Some(i) => {
                assert forall|j: int| 0 <= j < i + 1 implies s[j] != c by {
                    if j > 0 {
                        assert(s[j] == s.drop_first()[j - 1]);
                    }
                }
            },
            None => {
                assert forall|j: int| 0 <= j < s.len() implies s[j] != c by {
                    if j > 0 {
                        assert(s[j] == s.drop_first()[j - 1]);
                    }
                }
            },
        }
    }
}

/// The first occurrence of `c` is at `i` when `s[i]` is `c` and no earlier
/// character is.
pub proof fn lemma_find_at(s: Seq<char>, c: char, i: int)
    requires
        0 <= i < s.len(),
        s[i] == c,
        forall|j: int| 0 <= j < i ==> s[j] != c,
    ensures
        find_spec(s, c) == Some(i),
{
    lemma_find_bounds(s, c);
}

/// `s` starts with `p`.
pub open spec fn starts_with_spec(s: Seq<char>, p: Seq<char>) -> bool {
    p.len() <= s.len() && s.subrange(0, p.len() as int) == p
}

/// Concatenation of `parts`, each followed by `sep` except the last.
pub open spec fn join_spec(parts: Seq<Seq<char>>, sep: Seq<char>) -> Seq<char>
    decreases parts.len(),
{
    if parts.len() == 0 {
        Seq::empty()
    } else if parts.len() == 1 {
        parts[0]
    } else {
        join_spec(parts.drop_last(), sep) + sep + parts.last()
    }
}

/// `str::lines`: the lines of `s`, with `"\n"` or `"\r\n"` endings removed.
pub open spec fn lines_spec(s: Seq<char>) -> Seq<Seq<char>>
    decreases s.len(),
{
    match find_spec(s, '\n') {
        None => if s.len() == 0 { Seq::empty() } else { seq![s] },
        Some(i) => {
            proof {
                lemma_find_bounds(s, '\n');
            }
            let piece = s.subrange(0, i);
            let line = if piece.len() > 0 && piece.last() == '\r' { piece.drop_last() } else { piece };
            seq![line] + lines_spec(s.subrange(i + 1, s.len() as int))
        },
    }
}

/// Text splits into lines at each `"\n"`: a piece `a` without a line feed,
/// followed by `"\n"` and the rest `b`, gives `a` (without a `'\r'` that ends
/// it) as its first line and then the lines of `b`; a non-empty last piece
/// without a line feed is a line of its own, and empty text has no lines.
pub proof fn law_lines_split(a: Seq<char>, b: Seq<char>)
    requires
        forall|i: int| 0 <= i < a.len() ==> a[i] != '\n',
    ensures
        lines_spec(a + "\n"@ + b) == seq![if a.len() > 0 && a.last() == '\r' { a.drop_last() } else { a }]
            + lines_spec(b),
        a.len() > 0 ==> lines_spec(a) == seq![a],
        lines_spec(Seq::<char>::empty()) == Seq::<Seq<char>>::empty(),
{
    reveal_strlit("\n");
    assert("\n"@ =~= seq!['\n']);
    let s = a + "\n"@ + b;
    assert(s[a.len() as int] == '\n');
    assert forall|j: int| 0 <= j < a.len() implies s[j] != '\n' by {
        assert(s[j] == a[j]);
    }
    lemma_find_at(s, '\n', a.len() as int);
    assert(s.subrange(0, a.len() as int) =~= a);
    assert(s.subrange(a.len() as int + 1, s.len() as int) =~= b);
    lemma_find_bounds(a, '\n');
    lemma_find_bounds(Seq::<char>::empty(), '\n');
}

/// Decimal digits of `n`, without leading zeros (`"0"` for zero).
pub open spec fn decimal_spec(n: nat) -> Seq<char>
    decreases n,
{
    if n < 10 {
        seq![digit_char(n)]
    } else {
        decimal_spec(n / 10).push(digit_char(n % 10))
    }
}

/// The ASCII digit for `d` (which is below ten).
pub open spec fn digit_char(d: nat) -> char {
    if d == 0 { '0' } else if d == 1 { '1' } else if d == 2 { '2' } else if d == 3 { '3' }
    else if d == 4 { '4' } else if d == 5 { '5' } else if d == 6 { '6' } else if d == 7 { '7' }
    else if d == 8 { '8' } else { '9' }
}

/// Decimal form of a signed integer, with a leading `'-'` when negative.
pub open spec fn signed_decimal_spec(n: int) -> Seq<char> {
    if n < 0 { seq!['-'] + decimal_spec((-n) as nat) } else { decimal_spec(n as nat) }
}

/// Joining is compositional: a single part joins to itself, and the join of two
/// non-empty lists, one after the other, is the join of the first, the separator
/// and the join of the second. So every part shows up, in order.
pub proof fn law_join_concat(a: Seq<Seq<char>>, b: Seq<Seq<char>>, sep: Seq<char>)
    requires
        a.len() > 0,
        b.len() > 0,
    ensures
        join_spec(seq![a[0]], sep) == a[0],
        join_spec(a + b, sep) == join_spec(a, sep) + sep + join_spec(b, sep),
    decreases b.len(),
{
    let ab = a + b;
    assert(ab.drop_last() =~= a + b.drop_last());
    assert(ab.last() == b.last());
    if b.len() == 1 {
        assert(ab.drop_last() =~= a);
    } else {
        let bl = b.drop_last();
        law_join_concat(a, bl, sep);
        assert(join_spec(ab, sep) == join_spec(a + bl, sep) + sep + b.last());
        assert(join_spec(b, sep) == join_spec(bl, sep) + sep + b.last());
        assert(join_spec(ab, sep) =~= join_spec(a, sep) + sep + join_spec(b, sep));
    }
}

/// The number that a string of ASCII digits stands for, read in base ten.
pub open spec fn digits_value(s: Seq<char>) -> int
    decreases s.len(),
{
    if s.len() == 0 {
        0
    } else {
        digits_value(s.drop_last()) * 10 + (s.last() as int - '0' as int)
    }
}

/// The decimal text of `n` is made of ASCII digits, starts with a zero only
/// when `n` is zero, and reads back as `n`.
pub proof fn law_decimal_reads_back(n: nat)
    ensures
        decimal_spec(n).len() > 0,
        forall|i: int| 0 <= i < decimal_spec(n).len() ==> '0' <= #[trigger] decimal_spec(n)[i] && decimal_spec(n)[i] <= '9',
        decimal_spec(n)[0] != '0' || n == 0,
        digits_value(decimal_spec(n)) == n,
    decreases n,
{
    if n < 10 {
        let d = decimal_spec(n);
        assert(d == seq![digit_char(n)]);
        assert(d.drop_last() =~= Seq::<char>::empty());
        assert(digits_value(Seq::<char>::empty()) == 0);
        assert(d.last() == digit_char(n));
        assert(digit_char(n) as int - '0' as int == n);
    } else {
        let q = n / 10;
        let r = n % 10;
        law_decimal_reads_back(q);
        let head = decimal_spec(q);
        let d = decimal_spec(n);
        assert(d == head.push(digit_char(r)));
        assert(d.drop_last() =~= head);
        assert(d.last() == digit_char(r));
        assert(digit_char(r) as int - '0' as int == r);
        assert forall|i: int| 0 <= i < d.len() implies '0' <= #[trigger] d[i] && d[i] <= '9' by {
            if i < head.len() {
                assert(d[i] == head[i]);
            }
        }
        assert(d[0] == head[0]);
        assert(q * 10 + r == n) by (nonlinear_arith)
            requires
                q == n / 10,
                r == n % 10,
        ;
    }
}

/// Appends `c` to `s` (`String::push`).
#[verifier::external_body]
pub(crate) fn push_char(s: &mut String, c: char)
    ensures
        final(s)@ == old(s)@.push(c),
{
    s.push(c);
}

/// `char::is_whitespace`.
pub fn is_white_space_char(c: char) -> (r: bool)
    ensures
        r == is_white_space(c),
{
    ('\u{9}' <= c && c <= '\u{d}') || c == ' ' || c == '\u{85}' || c == '\u{a0}'
        || c == '\u{1680}' || ('\u{2000}' <= c && c <= '\u{200a}') || c == '\u{2028}'
        || c == '\u{2029}' || c == '\u{202f}' || c == '\u{205f}' || c == '\u{3000}'
}

/// The characters of `s`, in order.
pub fn chars_of(s: &str) -> (v: Vec<char>)
    ensures
        v@ == s@,
{
    let n = s.unicode_len();
    let mut v: Vec<char> = Vec::new();
    let mut i: usize = 0;
    while i < n
        invariant
            n == s@.len(),
            i <= n,
            v@ == s@.subrange(0, i as int),
        decreases n - i,
    {
        v.push(s.get_char(i));
        i = i + 1;
    }
    v
}

/// A string holding the characters `v[from..to]`.
pub fn string_of(v: &Vec<char>, from: usize, to: usize) -> (s: String)
    requires
        from <= to <= v@.len(),
    ensures
        s@ == v@.subrange(from as int, to as int),
{
    let mut s = String::new();
    let mut i: usize = from;
    while i < to
        invariant
            from <= i <= to <= v@.len(),
            s@ == v@.subrange(from as int, i as int),
        decreases to - i,
    {
        push_char(&mut s, v[i]);
        i = i + 1;
    }
    s
}

/// A copy of `s` as a `String`.
pub fn owned(s: &str) -> (r: String)
    ensures
        r@ == s@,
{
    s.to_string()
}

/// `a + b` as a new `String`.
pub fn concat2(a: &str, b: &str) -> (r: String)
    ensures
        r@ == a@ + b@,
{
    let mut r = a.to_string();
    r.append(b);
    r
}

/// `a + b + c` as a new `String`.
pub fn concat3(a: &str, b: &str, c: &str) -> (r: String)
    ensures
        r@ == a@ + b@ + c@,
{
    let mut r = a.to_string();
    r.append(b);
    r.append(c);
    r
}

/// Character-wise equality of two strings.
pub fn str_eq(a: &str, b: &str) -> (r: bool)
    ensures
        r == (a@ == b@),
{
    let va = chars_of(a);
    let vb = chars_of(b);
    if va.len() != vb.len() {
        return false;
    }
    let mut i: usize = 0;
    while i < va.len()
        invariant
            va@ == a@,
            vb@ == b@,
            va@.len() == vb@.len(),
            i <= va@.len(),
            forall|j: int| 0 <= j < i ==> va@[j] == vb@[j],
        decreases va@.len() - i,
    {
        if va[i] != vb[i] {
            return false;
        }
        i = i + 1;
    }
    assert(va@ =~= vb@);
    true
}

/// Removing leading white space drops exactly the white space before the first
/// other character.
pub proof fn lemma_trim_start_at(s: Seq<char>, k: int)
    requires
        0 <= k <= s.len(),
        forall|j: int| 0 <= j < k ==> is_white_space(s[j]),
        k == s.len() || !is_white_space(s[k]),
    ensures
        trim_start_spec(s) == s.subrange(k, s.len() as int),
    decreases k,
{
    if k == 0 {
        assert(s.subrange(0, s.len() as int) =~= s);
    } else {
        let t = s.drop_first();
        assert forall|j: int| 0 <= j < k - 1 implies is_white_space(t[j]) by {
            assert(t[j] == s[j + 1]);
        }
        lemma_trim_start_at(t, k - 1);
        assert(t.subrange(k - 1, t.len() as int) =~= s.subrange(k, s.len() as int));
    }
}

/// Removing trailing white space drops exactly the white space after the last
/// other character.
pub proof fn lemma_trim_end_at(s: Seq<char>, k: int)
    requires
        0 <= k <= s.len(),
        forall|j: int| k <= j < s.len() ==> is_white_space(s[j]),
        k == 0 || !is_white_space(s[k - 1]),
    ensures
        trim_end_spec(s) == s.subrange(0, k),
    decreases s.len() - k,
{
    if k == s.len() {
        assert(s.subrange(0, k) =~= s);
    } else {
        let t = s.drop_last();
        assert forall|j: int| k <= j < t.len() implies is_white_space(t[j]) by {
            assert(t[j] == s[j]);
        }
        if k > 0 {
            assert(t[k - 1] == s[k - 1]);
        }
        lemma_trim_end_at(t, k);
        assert(t.subrange(0, k) =~= s.subrange(0, k));
    }
}

/// `str::trim` on the characters `v[from..to]`: the bounds of the trimmed part.
pub fn trim_bounds(v: &Vec<char>, from: usize, to: usize) -> (r: (usize, usize))
    requires
        from <= to <= v@.len(),
    ensures
        from <= r.0 <= r.1 <= to,
        v@.subrange(r.0 as int, r.1 as int) == trim_spec(v@.subrange(from as int, to as int)),
{
    let ghost s = v@.subrange(from as int, to as int);
    let mut a: usize = from;
    while a < to && is_white_space_char(v[a])
        invariant
            from <= a <= to <= v@.len(),
            s == v@.subrange(from as int, to as int),
            forall|j: int| from <= j < a ==> is_white_space(v@[j]),
        decreases to - a,
    {
        a = a + 1;
    }
    proof {
        lemma_trim_start_at(s, a - from);
        assert(s.subrange(a - from, s.len() as int) =~= v@.subrange(a as int, to as int));
    }
    let ghost t = v@.subrange(a as int, to as int);
    let mut b: usize = to;
    while b > a && is_white_space_char(v[b - 1])
        invariant
            from <= a <= b <= to <= v@.len(),
            t == v@.subrange(a as int, to as int),
            forall|j: int| b <= j < to ==> is_white_space(v@[j]),
        decreases b - a,
    {
        b = b - 1;
    }
    proof {
        lemma_trim_end_at(t, b - a);
        assert(t.subrange(0, b - a) =~= v@.subrange(a as int, b as int));
    }
    (a, b)
}

/// `str::trim`.
pub fn trim(s: &str) -> (r: String)
    ensures
        r@ == trim_spec(s@),
{
    let v = chars_of(s);
    let (a, b) = trim_bounds(&v, 0, v.len());
    proof {
        assert(v@.subrange(0, v@.len() as int) =~= s@);
    }
    string_of(&v, a, b)
}

/// The first index at or after `from` where `v` holds `c`.
pub fn find_from(v: &Vec<char>, from: usize, c: char) -> (r: Option<usize>)
    requires
        from <= v@.len(),
    ensures
        match find_spec(v@.subrange(from as int, v@.len() as int), c) {
            Some(i) => r is Some && r->0 == from + i,
            None => r is None,
        },
{
    let ghost s = v@.subrange(from as int, v@.len() as int);
    proof {
        lemma_find_bounds(s, c);
    }
    let mut i: usize = from;
    while i < v.len()
        invariant
            from <= i <= v@.len(),
            s == v@.subrange(from as int, v@.len() as int),
            forall|j: int| from <= j < i ==> v@[j] != c,
        decreases v@.len() - i,
    {
        if v[i] == c {
            proof {
                lemma_find_bounds(s, c);
                assert(s[i - from] == c);
                match find_spec(s, c) {
                    Some(k) => {
                        if k < i - from {
                            assert(s[k] == v@[from + k]);
                        }
                        if k > i - from {
                            assert(s[i - from] != c);
                        }
                    },
                    None => {
                        assert(s[i - from] != c);
                    },
                }
            }
            return Some(i);
        }
        i = i + 1;
    }
    proof {
        lemma_find_bounds(s, c);
        match find_spec(s, c) {
            Some(k) => {
                assert(s[k] == v@[from + k]);
            },
            None => {},
        }
    }
    None
}

/// `str::lines`: the lines of `s`, with `"\n"` or `"\r\n"` endings removed.
pub fn lines_of(s: &str) -> (r: Vec<String>)
    ensures
        r.deep_view() == lines_spec(s@),
{
    let v = chars_of(s);
    let n = v.len();
    let mut out: Vec<String> = Vec::new();
    let mut pos: usize = 0;
    assert(v@.subrange(0, v@.len() as int) =~= v@);
    loop
        invariant
            v@ == s@,
            n == v@.len(),
            pos <= v@.len(),
            out.deep_view() + lines_spec(v@.subrange(pos as int, v@.len() as int)) == lines_spec(v@),
        decreases v@.len() - pos,
    {
        let ghost rest = v@.subrange(pos as int, v@.len() as int);
        let ghost before = out.deep_view();
        match find_from(&v, pos, '\n') {
            None => {
                if pos < v.len() {
                    out.push(string_of(&v, pos, v.len()));
                    assert(out.deep_view() =~= before + seq![rest]);
                } else {
                    assert(out.deep_view() =~= before);
                }
                return out;
            },
            Some(j) => {
                proof {
                    lemma_find_bounds(rest, '\n');
                    match find_spec(rest, '\n') {
                        Some(i) => { assert(j == pos + i); assert(j < v@.len()); },
                        None => {},
                    }
                }
                let end = if j > pos && v[j - 1] == '\r' { j - 1 } else { j };
                out.push(string_of(&v, pos, end));
                proof {
                    let piece = rest.subrange(0, j - pos);
                    assert(piece =~= v@.subrange(pos as int, j as int));
                    if j > pos && v@[j - 1] == '\r' {
                        assert(piece.drop_last() =~= v@.subrange(pos as int, end as int));
                    }
                    assert(rest.subrange(j - pos + 1, rest.len() as int) =~= v@.subrange(j + 1, v@.len() as int));
                    assert(out.deep_view() =~= before.push(v@.subrange(pos as int, end as int)));
                    assert(before.push(v@.subrange(pos as int, end as int)) + lines_spec(v@.subrange(j + 1, v@.len() as int))
                        =~= before + lines_spec(rest));
                }
                pos = j + 1;
            },
        }
    }
}

/// `s@` as a sequence of characters of length zero when `s` is empty.
pub fn is_empty_str(s: &str) -> (r: bool)
    ensures
        r == (s@.len() == 0),
{
    s.unicode_len() == 0
}

/// Decimal digits of `n` (`u64`'s `Display`).
pub fn decimal(n: u64) -> (r: String)
    ensures
        r@ == decimal_spec(n as nat),
    decreases n,
{
    let d = n % 10;
    let c = if d == 0 { '0' } else if d == 1 { '1' } else if d == 2 { '2' } else if d == 3 { '3' }
        else if d == 4 { '4' } else if d == 5 { '5' } else if d == 6 { '6' } else if d == 7 { '7' }
        else if d == 8 { '8' } else { '9' };
    if n < 10 {
        let mut r = String::new();
        push_char(&mut r, c);
        assert(r@ =~= seq![digit_char(n as nat)]);
        r
    } else {
        let mut r = decimal(n / 10);
        push_char(&mut r, c);
        r
    }
}

/// Decimal form of a signed integer (`i64`'s `Display`).
pub fn signed_decimal(n: i64) -> (r: String)
    ensures
        r@ == signed_decimal_spec(n as int),
{
    if n < 0 {
        let m: u64 = if n == i64::MIN { 9223372036854775808u64 } else { (-n) as u64 };
        let digits = decimal(m);
        let mut r = String::new();
        push_char(&mut r, '-');
        r.append(digits.as_str());
        assert(r@ =~= seq!['-'] + decimal_spec((-n) as nat));
        r
    } else {
        decimal(n as u64)
    }
}

/// `s` starts with `p` (`str::starts_with`).
pub fn starts_with(s: &str, p: &str) -> (r: bool)
    ensures
        r == starts_with_spec(s@, p@),
{
    let vs = chars_of(s);
    let vp = chars_of(p);
    if vp.len() > vs.len() {
        return false;
    }
    let mut i: usize = 0;
    while i < vp.len()
        invariant
            vs@ == s@,
            vp@ == p@,
            vp@.len() <= vs@.len(),
            i <= vp@.len(),
            forall|j: int| 0 <= j < i ==> vs@[j] == vp@[j],
        decreases vp@.len() - i,
    {
        if vs[i] != vp[i] {
            assert(s@.subrange(0, p@.len() as int)[i as int] == s@[i as int]);
            return false;
        }
        i = i + 1;
    }
    assert(s@.subrange(0, p@.len() as int) =~= p@);
    true
}

/// The characters of `s` from index `n` on.
pub fn suffix_from(s: &str, n: usize) -> (r: String)
    requires
        n <= s@.len(),
    ensures
        r@ == s@.skip(n as int),
{
    let v = chars_of(s);
    string_of(&v, n, v.len())
}

/// The characters of `s` before the first `c`, when `s` holds `c`.
pub fn before_first(s: &str, c: char) -> (r: Option<String>)
    ensures
        match find_spec(s@, c) {
            Some(i) => r is Some && r->0@ == s@.take(i),
            None => r is None,
        },
{
    let v = chars_of(s);
    proof {
        assert(v@.subrange(0, v@.len() as int) =~= v@);
        lemma_find_bounds(s@, c);
    }
    match find_from(&v, 0, c) {
        Some(i) => {
            let r = string_of(&v, 0, i);
            assert(r@ =~= s@.take(i as int));
            Some(r)
        },
        None => None,
    }
}

/// The strings of `parts` joined with `sep` between them (`[String]::join`).
pub fn join(parts: &Vec<String>, sep: &str) -> (r: String)
    ensures
        r@ == join_spec(parts.deep_view(), sep@),
{
    let ghost all = parts.deep_view();
    let mut r = String::new();
    let mut i: usize = 0;
    while i < parts.len()
        invariant
            all == parts.deep_view(),
            i <= parts@.len(),
            r@ == join_spec(all.take(i as int), sep@),
        decreases parts@.len() - i,
    {
        let ghost prev = all.take(i as int);
        assert(all.take(i + 1).drop_last() =~= prev);
        assert(all.take(i + 1).last() == parts@[i as int]@);
        if i > 0 {
            r.append(sep);
        } else {
            assert(all.take(1) =~= seq![parts@[0]@]);
        }
        r.append(parts[i].as_str());
        i = i + 1;
    }
    assert(all.take(parts@.len() as int) =~= all);
    r
}

/// Lexicographic order of character sequences (`String`'s `Ord`): `a` is not
/// greater than `b`.
pub open spec fn lex_le(a: Seq<char>, b: Seq<char>) -> bool
    decreases a.len(),
{
    if a.len() == 0 {
        true
    } else if b.len() == 0 {
        false
    } else if a[0] < b[0] {
        true
    } else if a[0] > b[0] {
        false
    } else {
        lex_le(a.drop_first(), b.drop_first())
    }
}

/// Any two sequences are ordered one way or the other.
pub proof fn lemma_lex_total(a: Seq<char>, b: Seq<char>)
    ensures
        lex_le(a, b) || lex_le(b, a),
    decreases a.len(),
{
    if a.len() > 0 && b.len() > 0 && a[0] == b[0] {
        lemma_lex_total(a.drop_first(), b.drop_first());
    } else if a.len() > 0 && b.len() > 0 {
        assert(a[0] != b[0]);
    }
}

/// The order is transitive.
pub proof fn lemma_lex_transitive(a: Seq<char>, b: Seq<char>, c: Seq<char>)
    requires
        lex_le(a, b),
        lex_le(b, c),
    ensures
        lex_le(a, c),
    decreases a.len(),
{
    if a.len() > 0 && b.len() > 0 && c.len() > 0 && a[0] == b[0] && b[0] == c[0] {
        lemma_lex_transitive(a.drop_first(), b.drop_first(), c.drop_first());
    }
}

/// The order is antisymmetric.
pub proof fn lemma_lex_antisymmetric(a: Seq<char>, b: Seq<char>)
    requires
        lex_le(a, b),
        lex_le(b, a),
    ensures
        a == b,
    decreases a.len(),
{
    if a.len() > 0 && b.len() > 0 {
        lemma_lex_antisymmetric(a.drop_first(), b.drop_first());
        assert(a =~= seq![a[0]] + a.drop_first());
        assert(b =~= seq![b[0]] + b.drop_first());
    } else {
        assert(a.len() == 0 && b.len() == 0);
        assert(a =~= b);
    }
}

/// `a` is not greater than `b` in `String`'s order.
pub fn lex_le_exec(a: &str, b: &str) -> (r: bool)
    ensures
        r == lex_le(a@, b@),
{
    let va = chars_of(a);
    let vb = chars_of(b);
    let mut i: usize = 0;
    assert(a@.skip(0) =~= a@);
    assert(b@.skip(0) =~= b@);
    while i < va.len() && i < vb.len() && va[i] == vb[i]
        invariant
            va@ == a@,
            vb@ == b@,
            i <= va@.len(),
            i <= vb@.len(),
            lex_le(a@, b@) == lex_le(a@.skip(i as int), b@.skip(i as int)),
        decreases va@.len() - i,
    {
        assert(a@.skip(i as int).drop_first() =~= a@.skip(i + 1));
        assert(b@.skip(i as int).drop_first() =~= b@.skip(i + 1));
        i = i + 1;
    }
    if i == va.len() {
        true
    } else if i == vb.len() {
        false
    } else {
        assert(a@.skip(i as int)[0] == va@[i as int]);
        assert(b@.skip(i as int)[0] == vb@[i as int]);
        va[i] < vb[i]
    }
}

} // verus!
