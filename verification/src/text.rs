//! Character-level text operations with exact contracts over `Seq<char>`.
//!
//! Everything the prompt and the renderers decide about a piece of text
//! (which command a line is, how a tool's output is cleaned up for display)
//! is computed here, on sequences of characters, so that the decisions can be
//! stated and proved independently of any terminal.

use vstd::prelude::*;

verus! {

broadcast use vstd::string::group_string_axioms;

/// Whether `c` is whitespace: one of the code points that Unicode gives the
/// property `White_Space`.
pub open spec fn is_white_space(c: char) -> bool {
    let u = c as u32;
    ||| 0x09 <= u <= 0x0D
    ||| u == 0x20
    ||| u == 0x85
    ||| u == 0xA0
    ||| u == 0x1680
    ||| 0x2000 <= u <= 0x200A
    ||| u == 0x2028
    ||| u == 0x2029
    ||| u == 0x202F
    ||| u == 0x205F
    ||| u == 0x3000
}

/// Executable form of [`is_white_space`].
pub fn is_whitespace(c: char) -> (b: bool)
    ensures
        b == is_white_space(c),
{
    let u: u32 = c as u32;
    (0x09 <= u && u <= 0x0D) || u == 0x20 || u == 0x85 || u == 0xA0 || u == 0x1680 || (0x2000 <= u
        && u <= 0x200A) || u == 0x2028 || u == 0x2029 || u == 0x202F || u == 0x205F || u == 0x3000
}

/// Calls `String::push`. Trusted: the character is appended at the end and
/// nothing else changes, as the standard library documents.
#[verifier::external_body]
fn push_char(s: &mut String, c: char)
    ensures
        final(s)@ == old(s)@.push(c),
{
    s.push(c)
}

/// `s` without its longest prefix of whitespace.
pub open spec fn trimmed_start(s: Seq<char>) -> Seq<char>
    decreases s.len(),
{
    if s.len() > 0 && is_white_space(s.first()) {
        trimmed_start(s.drop_first())
    } else {
        s
    }
}

/// `s` without its longest suffix of whitespace.
pub open spec fn trimmed_end(s: Seq<char>) -> Seq<char>
    decreases s.len(),
{
    if s.len() > 0 && is_white_space(s.last()) {
        trimmed_end(s.drop_last())
    } else {
        s
    }
}

/// `s` with leading and trailing whitespace removed.
pub open spec fn trimmed(s: Seq<char>) -> Seq<char> {
    trimmed_end(trimmed_start(s))
}

/// `s` without the quote that opens it, and without the quote that closes
/// what is left, if one does.
pub open spec fn unquoted(s: Seq<char>) -> Seq<char> {
    if s.len() > 0 && s.first() == '"' {
        let rest = s.drop_first();
        if rest.len() > 0 && rest.last() == '"' {
            rest.drop_last()
        } else {
            rest
        }
    } else {
        s
    }
}

/// The code point of `c`, with the ASCII capital letters mapped onto their
/// lower-case counterparts and every other character left alone.
pub open spec fn ascii_fold(c: char) -> int {
    let u = c as u32 as int;
    if 0x41 <= u <= 0x5A {
        u + 32
    } else {
        u
    }
}

/// Equality of two texts up to the case of ASCII letters.
pub open spec fn eq_ignoring_ascii_case(a: Seq<char>, b: Seq<char>) -> bool {
    &&& a.len() == b.len()
    &&& forall|i: int| 0 <= i < a.len() ==> ascii_fold(#[trigger] a[i]) == ascii_fold(b[i])
}

/// `s` with every occurrence of the two characters backslash, `n` replaced
/// by one line feed, scanning from the left without overlap.
pub open spec fn unescape_newlines(s: Seq<char>) -> Seq<char>
    decreases s.len(),
{
    if s.len() == 0 {
        s
    } else if s.len() >= 2 && s[0] == '\\' && s[1] == 'n' {
        seq!['\n'] + unescape_newlines(s.skip(2))
    } else {
        seq![s[0]] + unescape_newlines(s.skip(1))
    }
}

/// `s` with every line feed written as the two characters backslash, `n`.
pub open spec fn escape_newlines(s: Seq<char>) -> Seq<char>
    decreases s.len(),
{
    if s.len() == 0 {
        s
    } else if s[0] == '\n' {
        seq!['\\', 'n'] + escape_newlines(s.skip(1))
    } else {
        seq![s[0]] + escape_newlines(s.skip(1))
    }
}

/// Once every character before `i` is whitespace and the one at `i` (if
/// any) is not, trimming the start leaves exactly the part from `i` on.
proof fn lemma_trimmed_start_at(s: Seq<char>, i: int)
    requires
        0 <= i <= s.len(),
        forall|k: int| 0 <= k < i ==> is_white_space(#[trigger] s[k]),
        i < s.len() ==> !is_white_space(s[i]),
    ensures
        trimmed_start(s) == s.skip(i),
    decreases i,
{
    if i == 0 {
        assert(s.skip(0) =~= s);
    } else {
        let rest = s.drop_first();
        assert forall|k: int| 0 <= k < i - 1 implies is_white_space(#[trigger] rest[k]) by {
            assert(rest[k] == s[k + 1]);
        }
        lemma_trimmed_start_at(rest, i - 1);
        assert(rest.skip(i - 1) =~= s.skip(i));
    }
}

/// Once every character from `j` on is whitespace and the one before `j`
/// (if any) is not, trimming the end leaves exactly the part before `j`.
proof fn lemma_trimmed_end_at(s: Seq<char>, j: int)
    requires
        0 <= j <= s.len(),
        forall|k: int| j <= k < s.len() ==> is_white_space(#[trigger] s[k]),
        0 < j ==> !is_white_space(s[j - 1]),
    ensures
        trimmed_end(s) == s.take(j),
    decreases s.len() - j,
{
    if j == s.len() {
        assert(s.take(j) =~= s);
    } else {
        let rest = s.drop_last();
        lemma_trimmed_end_at(rest, j);
        assert(rest.take(j) =~= s.take(j));
    }
}

/// A text that neither begins nor ends with whitespace is its own trimming,
/// and trimming a second time changes nothing.
pub proof fn lemma_trimmed_is_stable(s: Seq<char>)
    ensures
        s.len() > 0 && !is_white_space(s.first()) && !is_white_space(s.last()) ==> trimmed(s)
            == s,
        trimmed(s).len() > 0 ==> !is_white_space(trimmed(s).first()) && !is_white_space(
            trimmed(s).last(),
        ),
        trimmed(trimmed(s)) == trimmed(s),
{
    lemma_trimmed_start_ends(s);
    lemma_trimmed_end_ends(trimmed_start(s));
    let t = trimmed(s);
    if t.len() > 0 {
        lemma_trimmed_end_keeps_start(trimmed_start(s));
    }
}

/// What trimming the start leaves does not begin with whitespace.
proof fn lemma_trimmed_start_ends(s: Seq<char>)
    ensures
        trimmed_start(s).len() > 0 ==> !is_white_space(trimmed_start(s).first()),
    decreases s.len(),
{
    if s.len() > 0 && is_white_space(s.first()) {
        lemma_trimmed_start_ends(s.drop_first());
    }
}

/// What trimming the end leaves does not end with whitespace.
proof fn lemma_trimmed_end_ends(s: Seq<char>)
    ensures
        trimmed_end(s).len() > 0 ==> !is_white_space(trimmed_end(s).last()),
    decreases s.len(),
{
    if s.len() > 0 && is_white_space(s.last()) {
        lemma_trimmed_end_ends(s.drop_last());
    }
}

/// Trimming the end leaves the first character where it was.
proof fn lemma_trimmed_end_keeps_start(s: Seq<char>)
    ensures
        trimmed_end(s).len() > 0 ==> s.len() > 0 && trimmed_end(s).first() == s.first(),
    decreases s.len(),
{
    if s.len() > 0 && is_white_space(s.last()) {
        lemma_trimmed_end_keeps_start(s.drop_last());
    }
}

/// Un-escaping undoes escaping, where the text holds no backslash of its
/// own.
pub proof fn lemma_unescape_inverts_escape(s: Seq<char>)
    requires
        forall|i: int| 0 <= i < s.len() ==> s[i] != '\\',
    ensures
        unescape_newlines(escape_newlines(s)) == s,
    decreases s.len(),
{
    if s.len() > 0 {
        let rest = s.skip(1);
        assert forall|i: int| 0 <= i < rest.len() implies rest[i] != '\\' by {
            assert(rest[i] == s[i + 1]);
        }
        lemma_unescape_inverts_escape(rest);
        let tail = escape_newlines(rest);
        if s[0] == '\n' {
            let e = seq!['\\', 'n'] + tail;
            assert(e.skip(2) =~= tail);
            assert(seq!['\n'] + rest =~= s);
        } else {
            let e = seq![s[0]] + tail;
            assert(e.skip(1) =~= tail);
            assert(e[0] == s[0]);
            if e.len() >= 2 {
                assert(e[0] != '\\');
            }
            assert(seq![s[0]] + rest =~= s);
        }
    }
}

/// The characters of `s`, in order.
pub fn to_chars(s: &str) -> (v: Vec<char>)
    ensures
        v@ == s@,
{
    let mut v: Vec<char> = Vec::new();
    for c in it: s.chars()
        invariant
            it.seq() == s@,
            v@ == s@.take(it.index()),
    {
        v.push(c);
    }
    v
}

/// The string made of the characters `v[from..to]`.
pub fn from_chars(v: &Vec<char>, from: usize, to: usize) -> (s: String)
    requires
        from <= to <= v.len(),
    ensures
        s@ == v@.subrange(from as int, to as int),
{
    let mut s = String::new();
    let mut i: usize = from;
    while i < to
        invariant
            from <= i <= to <= v.len(),
            s@ == v@.subrange(from as int, i as int),
        decreases to - i,
    {
        push_char(&mut s, v[i]);
        i += 1;
        assert(v@.subrange(from as int, i as int) =~= v@.subrange(from as int, i - 1).push(
            v@[i - 1],
        ));
    }
    s
}

/// Removes leading and trailing whitespace.
pub fn trim(s: &str) -> (t: String)
    ensures
        t@ == trimmed(s@),
{
    let v = to_chars(s);
    let n = v.len();
    let mut i: usize = 0;
    while i < n && is_whitespace(v[i])
        invariant
            i <= n == v.len(),
            forall|k: int| 0 <= k < i ==> is_white_space(#[trigger] v@[k]),
        decreases n - i,
    {
        i += 1;
    }
    let mut j: usize = n;
    while j > i && is_whitespace(v[j - 1])
        invariant
            i <= j <= n == v.len(),
            forall|k: int| j <= k < n ==> is_white_space(#[trigger] v@[k]),
        decreases j,
    {
        j -= 1;
    }
    proof {
        lemma_trimmed_start_at(v@, i as int);
        let tail = v@.skip(i as int);
        assert forall|k: int| j - i <= k < tail.len() implies is_white_space(#[trigger] tail[k]) by {
            assert(tail[k] == v@[k + i]);
        }
        if j > i {
            assert(tail[j - i - 1] == v@[j - 1]);
        } else if i < n {
            assert(tail[0] == v@[i as int]);
        }
        lemma_trimmed_end_at(tail, j - i);
        assert(tail.take(j - i) =~= v@.subrange(i as int, j as int));
    }
    from_chars(&v, i, j)
}

/// Takes the surrounding quotes off a quoted text; any other text is
/// handed back as it is.
pub fn unquote(s: &str) -> (t: String)
    ensures
        t@ == unquoted(s@),
{
    let v = to_chars(s);
    let n = v.len();
    if n > 0 && v[0] == '"' {
        let end = if n > 1 && v[n - 1] == '"' {
            n - 1
        } else {
            n
        };
        proof {
            let rest = v@.drop_first();
            assert(rest =~= v@.subrange(1, n as int));
            if rest.len() > 0 {
                assert(rest.last() == v@[n - 1]);
                assert(rest.drop_last() =~= v@.subrange(1, n - 1));
            }
        }
        from_chars(&v, 1, end)
    } else {
        assert(v@.subrange(0, n as int) =~= v@);
        from_chars(&v, 0, n)
    }
}

/// Executable form of [`ascii_fold`].
fn fold_char(c: char) -> (u: u32)
    ensures
        u == ascii_fold(c),
{
    let u: u32 = c as u32;
    if 0x41 <= u && u <= 0x5A {
        u + 32
    } else {
        u
    }
}

/// Compares two texts ignoring the case of ASCII letters.
pub fn eq_ignore_ascii_case(a: &str, b: &str) -> (same: bool)
    ensures
        same == eq_ignoring_ascii_case(a@, b@),
{
    let x = to_chars(a);
    let y = to_chars(b);
    if x.len() != y.len() {
        return false;
    }
    let mut i: usize = 0;
    while i < x.len()
        invariant
            i <= x.len() == y.len(),
            x@ == a@,
            y@ == b@,
            forall|k: int| 0 <= k < i ==> ascii_fold(#[trigger] x@[k]) == ascii_fold(y@[k]),
        decreases x.len() - i,
    {
        if fold_char(x[i]) != fold_char(y[i]) {
            return false;
        }
        i += 1;
    }
    true
}

/// Whether two texts are the same, character for character.
pub fn same_text(a: &str, b: &str) -> (same: bool)
    ensures
        same == (a@ == b@),
{
    let x = to_chars(a);
    let y = to_chars(b);
    if x.len() != y.len() {
        return false;
    }
    let mut i: usize = 0;
    while i < x.len()
        invariant
            i <= x.len() == y.len(),
            x@ == a@,
            y@ == b@,
            forall|k: int| 0 <= k < i ==> x@[k] == y@[k],
        decreases x.len() - i,
    {
        if x[i] != y[i] {
            return false;
        }
        i += 1;
    }
    assert(x@ =~= y@);
    true
}

/// Replaces each backslash followed by `n` with a line feed.
pub fn replace_escaped_newlines(s: &str) -> (t: String)
    ensures
        t@ == unescape_newlines(s@),
{
    let v = to_chars(s);
    let n = v.len();
    let mut out = String::new();
    let mut i: usize = 0;
    assert(v@.skip(0) =~= v@);
    assert(out@ + unescape_newlines(v@) =~= unescape_newlines(v@));
    while i < n
        invariant
            i <= n == v.len(),
            unescape_newlines(v@) == out@ + unescape_newlines(v@.skip(i as int)),
        decreases n - i,
    {
        let ghost rest = v@.skip(i as int);
        let ghost before = out@;
        assert(rest[0] == v@[i as int]);
        if v[i] == '\\' && i + 1 < n && v[i + 1] == 'n' {
            assert(rest[1] == v@[i + 1]);
            push_char(&mut out, '\n');
            i += 2;
            assert(rest.skip(2) =~= v@.skip(i as int));
            assert(before + (seq!['\n'] + unescape_newlines(rest.skip(2))) =~= before.push('\n')
                + unescape_newlines(rest.skip(2)));
        } else {
            proof {
                if rest.len() >= 2 {
                    assert(rest[1] == v@[i + 1]);
                }
            }
            push_char(&mut out, v[i]);
            i += 1;
            assert(rest.skip(1) =~= v@.skip(i as int));
            assert(before + (seq![rest[0]] + unescape_newlines(rest.skip(1))) =~= before.push(
                rest[0],
            ) + unescape_newlines(rest.skip(1)));
        }
    }
    assert(v@.skip(n as int) =~= Seq::<char>::empty());
    assert(out@ + Seq::<char>::empty() =~= out@);
    out
}

/// Whether the first character of `s` is `c`.
pub fn starts_with_char(s: &str, c: char) -> (yes: bool)
    ensures
        yes == (s@.len() > 0 && s@[0] == c),
{
    let mut it = s.chars();
    match it.next() {
        Some(first) => first == c,
        None => false,
    }
}

/// The concatenation of `a` and `b`.
pub fn concat(a: &str, b: &str) -> (s: String)
    ensures
        s@ == a@ + b@,
{
    let mut s = String::from_str(a);
    s.append(b);
    s
}

} // verus!
