//! JSON strings, by way of `serde_json`, and why they cannot be confused with
//! what stands around them.
use crate::hexadecimal::hex_digit;
use vstd::prelude::*;

verus! {

/// How one character stands inside a JSON string.
pub open spec fn escape(c: char) -> Seq<char> {
    if c == '"' {
        seq!['\\', '"']
    } else if c == '\\' {
        seq!['\\', '\\']
    } else if c == '\u{8}' {
        seq!['\\', 'b']
    } else if c == '\u{9}' {
        seq!['\\', 't']
    } else if c == '\u{a}' {
        seq!['\\', 'n']
    } else if c == '\u{c}' {
        seq!['\\', 'f']
    } else if c == '\u{d}' {
        seq!['\\', 'r']
    } else if (c as int) < 0x20 {
        seq!['\\', 'u', '0', '0', hex_digit(c as int / 16), hex_digit(c as int % 16)]
    } else {
        seq![c]
    }
}

/// A text with every character escaped.
pub open spec fn escaped(s: Seq<char>) -> Seq<char>
    decreases s.len(),
{
    if s.len() == 0 {
        Seq::empty()
    } else {
        escape(s[0]) + escaped(s.drop_first())
    }
}

/// A text as a JSON string.
pub open spec fn quoted(s: Seq<char>) -> Seq<char> {
    seq!['"'] + escaped(s) + seq!['"']
}

/// `serde_json::to_string` on a `str`: the text in double quotes, where the
/// quote, the backslash and the control characters below U+0020 are escaped
/// and every other character stands for itself. Writing into memory does not
/// fail, so there is always a result.
#[verifier::external_body]
pub(crate) fn json_string(s: &str) -> (r: String)
    ensures
        r@ == quoted(s@),
{
    serde_json::to_string(s).expect("string serialization is infallible")
}

/// What one escaped character starts with decides which character it is and
/// where it ends.
pub proof fn lemma_escape_prefix_free(c: char, d: char, x: Seq<char>, y: Seq<char>)
    requires
        escape(c) + x == escape(d) + y,
    ensures
        c == d,
        x == y,
{
    let p = escape(c) + x;
    let q = escape(d) + y;
    assert(p[0] == escape(c)[0]);
    assert(q[0] == escape(d)[0]);
    if escape(c).len() > 1 {
        assert(p[1] == escape(c)[1]);
    }
    if escape(d).len() > 1 {
        assert(q[1] == escape(d)[1]);
    }
    if escape(c).len() == 6 && escape(d).len() == 6 {
        assert(p[4] == escape(c)[4] && p[5] == escape(c)[5]);
        assert(q[4] == escape(d)[4] && q[5] == escape(d)[5]);
    }
    assert(c == d);
    assert(x == p.skip(escape(c).len() as int));
    assert(y == q.skip(escape(d).len() as int));
}

/// No escaped character starts with a bare quote.
pub proof fn lemma_escape_no_quote(c: char)
    ensures
        escape(c).len() > 0,
        escape(c)[0] != '"',
{
}

/// The closing quote of an escaped text can be told from its characters: two
/// texts that run into the same characters are the same text.
pub proof fn lemma_escaped_unambiguous(a: Seq<char>, b: Seq<char>, x: Seq<char>, y: Seq<char>)
    requires
        escaped(a) + (seq!['"'] + x) == escaped(b) + (seq!['"'] + y),
    ensures
        a == b,
        x == y,
    decreases a.len(),
{
    let p = escaped(a) + (seq!['"'] + x);
    let q = escaped(b) + (seq!['"'] + y);
    if a.len() == 0 && b.len() == 0 {
        assert(p.skip(1) == x);
        assert(q.skip(1) == y);
    } else if a.len() == 0 {
        lemma_escape_no_quote(b[0]);
        assert(p[0] == '"');
        assert(q[0] == escape(b[0])[0]);
    } else if b.len() == 0 {
        lemma_escape_no_quote(a[0]);
        assert(q[0] == '"');
        assert(p[0] == escape(a[0])[0]);
    } else {
        let p1 = escaped(a.drop_first()) + (seq!['"'] + x);
        let q1 = escaped(b.drop_first()) + (seq!['"'] + y);
        assert(p == escape(a[0]) + p1);
        assert(q == escape(b[0]) + q1);
        lemma_escape_prefix_free(a[0], b[0], p1, q1);
        lemma_escaped_unambiguous(a.drop_first(), b.drop_first(), x, y);
        assert(a == seq![a[0]] + a.drop_first());
        assert(b == seq![b[0]] + b.drop_first());
    }
}

/// A JSON string ends where its text says: if two of them, each followed by
/// more, give the same characters, then the texts and what follows are equal.
pub proof fn law_quoted_unambiguous(a: Seq<char>, b: Seq<char>, x: Seq<char>, y: Seq<char>)
    requires
        quoted(a) + x == quoted(b) + y,
    ensures
        a == b,
        x == y,
{
    let p = escaped(a) + (seq!['"'] + x);
    let q = escaped(b) + (seq!['"'] + y);
    assert((quoted(a) + x).skip(1) == p);
    assert((quoted(b) + y).skip(1) == q);
    lemma_escaped_unambiguous(a, b, x, y);
}

} // verus!
