//! Text: trimming, splitting, joining, and the few conversions that messages
//! and command output need. A text is modelled as its sequence of characters.
use vstd::prelude::*;
use vstd::utf8::{decode_utf8, valid_utf8};

verus! {

/// The characters with the Unicode property White_Space.
pub open spec fn is_white_space(c: char) -> bool {
    let n = c as u32;
    ||| 0x9 <= n <= 0xd
    ||| n == 0x20
    ||| n == 0x85
    ||| n == 0xa0
    ||| n == 0x1680
    ||| 0x2000 <= n <= 0x200a
    ||| n == 0x2028
    ||| n == 0x2029
    ||| n == 0x202f
    ||| n == 0x205f
    ||| n == 0x3000
}

/// `s` without its leading white space.
pub open spec fn trim_start(s: Seq<char>) -> Seq<char>
    decreases s.len(),
{
    if s.len() > 0 && is_white_space(s[0]) {
        trim_start(s.drop_first())
    } else {
        s
    }
}

/// `s` without its trailing white space.
pub open spec fn trim_end(s: Seq<char>) -> Seq<char>
    decreases s.len(),
{
    if s.len() > 0 && is_white_space(s.last()) {
        trim_end(s.drop_last())
    } else {
        s
    }
}

/// `s` without white space at either end.
pub open spec fn trimmed(s: Seq<char>) -> Seq<char> {
    trim_end(trim_start(s))
}

/// Where the first line feed of `s` stands; the length of `s` if there is none.
pub open spec fn line_end(s: Seq<char>) -> int
    decreases s.len(),
{
    if s.len() == 0 || s[0] == '\n' {
        0
    } else {
        1 + line_end(s.drop_first())
    }
}

/// `line` without one trailing carriage return.
pub open spec fn strip_cr(line: Seq<char>) -> Seq<char> {
    if line.len() > 0 && line.last() == '\r' {
        line.drop_last()
    } else {
        line
    }
}

/// The lines of `s`, without their line endings. A line ends in a line feed,
/// optionally after a carriage return; the last line needs no ending.
pub open spec fn split_lines(s: Seq<char>) -> Seq<Seq<char>>
    decreases s.len(),
{
    if s.len() == 0 {
        Seq::empty()
    } else if 0 <= line_end(s) < s.len() {
        seq![strip_cr(s.take(line_end(s)))] + split_lines(s.skip(line_end(s) + 1))
    } else {
        seq![s]
    }
}

/// Where the first white space of `s` stands; the length of `s` if there is none.
pub open spec fn word_end(s: Seq<char>) -> int
    decreases s.len(),
{
    if s.len() == 0 || is_white_space(s[0]) {
        0
    } else {
        1 + word_end(s.drop_first())
    }
}

/// The maximal runs of `s` that hold no white space.
pub open spec fn split_words(s: Seq<char>) -> Seq<Seq<char>>
    decreases s.len(),
{
    if s.len() == 0 {
        Seq::empty()
    } else if is_white_space(s[0]) {
        split_words(s.drop_first())
    } else if 0 < word_end(s) <= s.len() {
        seq![s.take(word_end(s))] + split_words(s.skip(word_end(s)))
    } else {
        Seq::empty()
    }
}

/// `parts` in order, with `sep` between each two neighbours.
pub open spec fn joined(parts: Seq<Seq<char>>, sep: Seq<char>) -> Seq<char>
    decreases parts.len(),
{
    if parts.len() == 0 {
        Seq::empty()
    } else if parts.len() == 1 {
        parts[0]
    } else {
        joined(parts.drop_last(), sep) + sep + parts.last()
    }
}

/// The texts of a list of strings.
pub open spec fn texts(v: Seq<String>) -> Seq<Seq<char>> {
    v.map_values(|s: String| s@)
}

/// The decimal digit for `d`, which is below ten.
pub open spec fn digit(d: int) -> char {
    (48 + d) as char
}

/// `n` in decimal, without leading zeros.
pub open spec fn decimal_digits(n: nat) -> Seq<char>
    decreases n,
{
    if n < 10 {
        seq![digit(n as int)]
    } else {
        decimal_digits(n / 10).push(digit((n % 10) as int))
    }
}

/// What `String::from_utf8_lossy` makes of `bytes` that are not UTF-8.
pub uninterp spec fn utf8_replaced_text(bytes: Seq<u8>) -> Seq<char>;

/// The text of a program's output: the characters that the bytes encode, or
/// what `String::from_utf8_lossy` makes of them if they are not UTF-8.
pub open spec fn lossy_text(bytes: Seq<u8>) -> Seq<char> {
    if valid_utf8(bytes) {
        decode_utf8(bytes)
    } else {
        utf8_replaced_text(bytes)
    }
}

/// What `{:?}` makes of a text: the text in double quotes, with escapes.
pub uninterp spec fn debug_text(s: Seq<char>) -> Seq<char>;

/// `String::push`: the character is appended to the text, which otherwise stays.
pub assume_specification[ String::push ](s: &mut String, c: char)
    ensures
        final(s)@ == old(s)@.push(c),
;

/// `String::from_utf8_lossy`: UTF-8 is decoded as it stands. For other bytes the
/// text is a function of the bytes alone, named `utf8_replaced_text`; nothing
/// more is claimed of how invalid bytes are replaced.
#[verifier::external_body]
pub(crate) fn utf8_lossy(bytes: &[u8]) -> (r: String)
    ensures
        valid_utf8(bytes@) ==> r@ == decode_utf8(bytes@),
        !valid_utf8(bytes@) ==> r@ == utf8_replaced_text(bytes@),
{
    String::from_utf8_lossy(bytes).into_owned()
}

/// `{:?}` on a `str`: the result is a function of the text alone, named
/// `debug_text`; nothing more is claimed of which characters are escaped.
#[verifier::external_body]
pub(crate) fn debug_quoted(s: &str) -> (r: String)
    ensures
        r@ == debug_text(s@),
{
    format!("{:?}", s)
}

/// The characters of `s`.
pub fn chars_of(s: &str) -> (r: Vec<char>)
    ensures
        r@ == s@,
{
    let mut v: Vec<char> = Vec::new();
    for c in it: s.chars()
        invariant
            it.seq() == s@,
            v@ == s@.take(it.index()),
    {
        v.push(c);
    }
    v
}

/// Whether the two texts are equal.
pub fn same_text(a: &str, b: &str) -> (r: bool)
    ensures
        r == (a@ == b@),
{
    a.to_owned() == b.to_owned()
}

/// Whether `c` is white space.
pub fn white_space(c: char) -> (r: bool)
    ensures
        r == is_white_space(c),
{
    let n: u32 = c as u32;
    (0x9 <= n && n <= 0xd) || n == 0x20 || n == 0x85 || n == 0xa0 || n == 0x1680 || (0x2000 <= n
        && n <= 0x200a) || n == 0x2028 || n == 0x2029 || n == 0x202f || n == 0x205f || n == 0x3000
}

/// `s` without white space at either end.
pub fn trim(s: &str) -> (r: &str)
    ensures
        r@ == trimmed(s@),
{
    let v: Vec<char> = chars_of(s);
    let mut from: usize = 0;
    assert(s@.skip(0) == s@);
    while from < v.len() && white_space(v[from])
        invariant
            v@ == s@,
            from <= v.len(),
            trim_start(s@) == trim_start(s@.skip(from as int)),
        decreases v.len() - from,
    {
        assert(s@.skip(from as int).drop_first() == s@.skip(from + 1));
        from = from + 1;
    }
    let mut to: usize = v.len();
    assert(s@.subrange(from as int, to as int) == s@.skip(from as int));
    while from < to && white_space(v[to - 1])
        invariant
            v@ == s@,
            from <= to <= v.len(),
            trim_end(s@.skip(from as int)) == trim_end(s@.subrange(from as int, to as int)),
        decreases to - from,
    {
        assert(s@.subrange(from as int, to as int).drop_last() == s@.subrange(
            from as int,
            to - 1,
        ));
        to = to - 1;
    }
    s.substring_char(from, to)
}

/// The lines of `s`, without their line endings.
pub fn lines(s: &str) -> (r: Vec<String>)
    ensures
        texts(r@) == split_lines(s@),
{
    let v: Vec<char> = chars_of(s);
    let mut out: Vec<String> = Vec::new();
    let mut start: usize = 0;
    assert(s@.skip(0) == s@);
    assert(texts(out@) + split_lines(s@) == split_lines(s@));
    while start < v.len()
        invariant
            v@ == s@,
            start <= v.len(),
            texts(out@) + split_lines(s@.skip(start as int)) == split_lines(s@),
        decreases v.len() - start,
    {
        let ghost rest = s@.skip(start as int);
        let mut end: usize = start;
        while end < v.len() && v[end] != '\n'
            invariant
                v@ == s@,
                start <= end <= v.len(),
                rest == s@.skip(start as int),
                line_end(rest) == end - start + line_end(s@.skip(end as int)),
            decreases v.len() - end,
        {
            assert(s@.skip(end as int).drop_first() == s@.skip(end + 1));
            end = end + 1;
        }
        assert(rest.take(end - start) == s@.subrange(start as int, end as int));
        let ghost before = texts(out@);
        if end < v.len() {
            let cut: usize = if start < end && v[end - 1] == '\r' {
                end - 1
            } else {
                end
            };
            assert(strip_cr(rest.take(end - start)) == s@.subrange(start as int, cut as int));
            out.push(s.substring_char(start, cut).to_owned());
            assert(rest.skip(end - start + 1) == s@.skip(end + 1));
            start = end + 1;
        } else {
            out.push(s.substring_char(start, end).to_owned());
            assert(split_lines(s@.skip(end as int)) == Seq::<Seq<char>>::empty());
            start = end;
        }
        assert(texts(out@) == before.push(out@.last()@));
        assert(texts(out@) + split_lines(s@.skip(start as int)) == before + (seq![out@.last()@]
            + split_lines(s@.skip(start as int))));
    }
    assert(split_lines(s@.skip(start as int)) == Seq::<Seq<char>>::empty());
    out
}

/// The white-space separated words of `s`.
pub fn words(s: &str) -> (r: Vec<String>)
    ensures
        texts(r@) == split_words(s@),
{
    let v: Vec<char> = chars_of(s);
    let mut out: Vec<String> = Vec::new();
    let mut start: usize = 0;
    assert(s@.skip(0) == s@);
    assert(texts(out@) + split_words(s@) == split_words(s@));
    while start < v.len()
        invariant
            v@ == s@,
            start <= v.len(),
            texts(out@) + split_words(s@.skip(start as int)) == split_words(s@),
        decreases v.len() - start,
    {
        let ghost rest = s@.skip(start as int);
        if white_space(v[start]) {
            assert(rest.drop_first() == s@.skip(start + 1));
            start = start + 1;
        } else {
            let mut end: usize = start;
            while end < v.len() && !white_space(v[end])
                invariant
                    v@ == s@,
                    start <= end <= v.len(),
                    rest == s@.skip(start as int),
                    word_end(rest) == end - start + word_end(s@.skip(end as int)),
                decreases v.len() - end,
            {
                assert(s@.skip(end as int).drop_first() == s@.skip(end + 1));
                end = end + 1;
            }
            let ghost before = texts(out@);
            assert(start < end);
            assert(rest.take(end - start) == s@.subrange(start as int, end as int));
            out.push(s.substring_char(start, end).to_owned());
            assert(rest.skip(end - start) == s@.skip(end as int));
            assert(texts(out@) == before.push(out@.last()@));
            assert(texts(out@) + split_words(s@.skip(end as int)) == before + (seq![out@.last()@]
                + split_words(s@.skip(end as int))));
            start = end;
        }
    }
    assert(split_words(s@.skip(start as int)) == Seq::<Seq<char>>::empty());
    out
}

/// `parts` in order, with `sep` between each two neighbours.
pub fn join(parts: &Vec<String>, sep: &str) -> (r: String)
    ensures
        r@ == joined(texts(parts@), sep@),
{
    let mut r: String = String::new();
    let mut i: usize = 0;
    while i < parts.len()
        invariant
            i <= parts.len(),
            r@ == joined(texts(parts@).take(i as int), sep@),
        decreases parts.len() - i,
    {
        let ghost so_far = texts(parts@).take(i + 1);
        assert(so_far.drop_last() == texts(parts@).take(i as int));
        if i > 0 {
            r.append(sep);
        }
        r.append(parts[i].as_str());
        i = i + 1;
    }
    assert(texts(parts@).take(i as int) == texts(parts@));
    r
}

/// A copy of a list of strings.
pub fn copy_texts(v: &Vec<String>) -> (r: Vec<String>)
    ensures
        texts(r@) == texts(v@),
{
    let mut r: Vec<String> = Vec::new();
    let mut i: usize = 0;
    while i < v.len()
        invariant
            i <= v.len(),
            texts(r@) == texts(v@).take(i as int),
        decreases v.len() - i,
    {
        let ghost before = texts(r@);
        r.push(v[i].clone());
        assert(texts(r@) == before.push(r@.last()@));
        i = i + 1;
    }
    r
}

/// The decimal digit for `d`.
fn digit_char(d: u64) -> (r: char)
    requires
        d < 10,
    ensures
        r == digit(d as int),
{
    (48 + d as u8) as char
}

/// `n` in decimal, without leading zeros.
pub fn decimal(n: u64) -> (r: String)
    ensures
        r@ == decimal_digits(n as nat),
    decreases n,
{
    if n < 10 {
        let mut r: String = String::new();
        r.push(digit_char(n));
        r
    } else {
        let mut r: String = decimal(n / 10);
        r.push(digit_char(n % 10));
        r
    }
}

} // verus!
