//! Laws of texts.
use crate::text::{
    decimal_digits, digit, is_white_space, joined, line_end, lossy_text, split_lines, split_words,
    texts, trim_end, trim_start, trimmed, word_end,
};
use vstd::prelude::*;
use vstd::utf8::{encode_utf8, encode_utf8_decode_utf8, encode_utf8_valid_utf8};

verus! {

/// Whether every character of `s` is white space.
pub open spec fn blank(s: Seq<char>) -> bool {
    forall|i: int| 0 <= i < s.len() ==> is_white_space(#[trigger] s[i])
}

/// Whether no character of `s` is white space.
pub open spec fn solid(s: Seq<char>) -> bool {
    forall|i: int| 0 <= i < s.len() ==> !is_white_space(#[trigger] s[i])
}

proof fn lemma_trim_start(before: Seq<char>, rest: Seq<char>)
    requires
        blank(before),
        rest.len() > 0 ==> !is_white_space(rest[0]),
    ensures
        trim_start(before + rest) == rest,
    decreases before.len(),
{
    let s = before + rest;
    if before.len() == 0 {
        assert(s == rest);
    } else {
        assert(s[0] == before[0]);
        assert(s.drop_first() == before.drop_first() + rest);
        lemma_trim_start(before.drop_first(), rest);
    }
}

proof fn lemma_trim_end(rest: Seq<char>, after: Seq<char>)
    requires
        blank(after),
        rest.len() > 0 ==> !is_white_space(rest.last()),
    ensures
        trim_end(rest + after) == rest,
    decreases after.len(),
{
    let s = rest + after;
    if after.len() == 0 {
        assert(s == rest);
    } else {
        assert(s.last() == after.last());
        assert(s.drop_last() == rest + after.drop_last());
        lemma_trim_end(rest, after.drop_last());
    }
}

/// Trimming takes the white space at both ends away, all of it and nothing else.
pub proof fn law_trimmed(before: Seq<char>, kept: Seq<char>, after: Seq<char>)
    requires
        blank(before),
        blank(after),
        kept.len() > 0 ==> !is_white_space(kept[0]) && !is_white_space(kept.last()),
    ensures
        trimmed(before + kept + after) == kept,
{
    if kept.len() == 0 {
        let s = before + kept + after;
        assert(blank(s)) by {
            assert forall|i: int| 0 <= i < s.len() implies is_white_space(#[trigger] s[i]) by {
                if i < before.len() {
                    assert(s[i] == before[i]);
                } else {
                    assert(s[i] == after[i - before.len()]);
                }
            }
        }
        assert(s + kept == s);
        lemma_trim_start(s, kept);
    } else {
        assert(before + kept + after == before + (kept + after));
        lemma_trim_start(before, kept + after);
        lemma_trim_end(kept, after);
    }
}

proof fn lemma_line_end(a: Seq<char>, b: Seq<char>)
    requires
        !a.contains('\n'),
    ensures
        line_end(a) == a.len(),
        line_end(a + seq!['\n'] + b) == a.len(),
    decreases a.len(),
{
    let s = a + seq!['\n'] + b;
    if a.len() > 0 {
        assert(a.contains(a[0]));
        let t = a.drop_first();
        assert forall|i: int| 0 <= i < t.len() implies t[i] != '\n' by {
            assert(a.contains(a[i + 1]));
        }
        assert(s.drop_first() == t + seq!['\n'] + b);
        lemma_line_end(t, b);
    }
}

/// A line ends at its line feed and loses one carriage return before it; the
/// lines of the rest follow. A text without a line feed is one line as it stands,
/// and there is no line in an empty text.
pub proof fn law_lines(line: Seq<char>, rest: Seq<char>)
    requires
        !line.contains('\n'),
    ensures
        split_lines(line + seq!['\n'] + rest) == seq![
            if line.len() > 0 && line.last() == '\r' {
                line.drop_last()
            } else {
                line
            },
        ] + split_lines(rest),
        split_lines(line) == if line.len() == 0 {
            Seq::<Seq<char>>::empty()
        } else {
            seq![line]
        },
{
    let s = line + seq!['\n'] + rest;
    lemma_line_end(line, rest);
    assert(s.take(line.len() as int) == line);
    assert(s.skip(line.len() as int + 1) == rest);
}

proof fn lemma_word_end(a: Seq<char>, b: Seq<char>)
    requires
        solid(a),
        b.len() > 0 ==> is_white_space(b[0]),
    ensures
        word_end(a + b) == a.len(),
    decreases a.len(),
{
    let s = a + b;
    if a.len() > 0 {
        assert(s[0] == a[0]);
        assert(s.drop_first() == a.drop_first() + b);
        assert forall|i: int| 0 <= i < a.drop_first().len() implies !is_white_space(
            #[trigger] a.drop_first()[i],
        ) by {
            assert(a.drop_first()[i] == a[i + 1]);
        }
        lemma_word_end(a.drop_first(), b);
    } else {
        assert(s == b);
    }
}

/// A word goes on until white space or the end and comes out as it stands; white
/// space around words leaves no trace.
pub proof fn law_words(word: Seq<char>, space: char, rest: Seq<char>)
    requires
        word.len() > 0,
        solid(word),
        is_white_space(space),
    ensures
        split_words(word) == seq![word],
        split_words(word + seq![space] + rest) == seq![word] + split_words(rest),
        split_words(seq![space] + rest) == split_words(rest),
        split_words(Seq::<char>::empty()) == Seq::<Seq<char>>::empty(),
{
    let none = Seq::<char>::empty();
    assert(word + none == word);
    lemma_word_end(word, none);
    assert(word.take(word.len() as int) == word);
    assert(word.skip(word.len() as int) == none);
    assert(!is_white_space(word[0]));
    assert(split_words(none) == Seq::<Seq<char>>::empty());
    let gap = seq![space] + rest;
    assert(gap.drop_first() == rest);
    assert(split_words(gap) == split_words(rest));
    let s = word + gap;
    assert(word + seq![space] + rest == s);
    lemma_word_end(word, gap);
    assert(s[0] == word[0]);
    assert(s.take(word.len() as int) == word);
    assert(s.skip(word.len() as int) == gap);
}

/// Two lists that are not empty join to what each joins to, with one separator
/// between; one item joins to itself and none to nothing.
pub proof fn law_joined(a: Seq<Seq<char>>, b: Seq<Seq<char>>, item: Seq<char>, sep: Seq<char>)
    ensures
        joined(Seq::empty(), sep) == Seq::<char>::empty(),
        joined(seq![item], sep) == item,
        a.len() > 0 && b.len() > 0 ==> joined(a + b, sep) == joined(a, sep) + sep + joined(b, sep),
    decreases b.len(),
{
    if a.len() > 0 && b.len() > 0 {
        let s = a + b;
        assert(s.last() == b.last());
        assert(s.drop_last() == a + b.drop_last());
        if b.len() == 1 {
            assert(a + b.drop_last() == a);
        } else {
            law_joined(a, b.drop_last(), item, sep);
            assert(joined(s, sep) == joined(a, sep) + sep + joined(b.drop_last(), sep) + sep
                + b.last());
            assert(joined(s, sep) =~= joined(a, sep) + sep + (joined(b.drop_last(), sep) + sep
                + b.last()));
        }
    }
}

/// The number that a row of decimal digits spells.
pub open spec fn spelled(digits: Seq<char>) -> int
    decreases digits.len(),
{
    if digits.len() == 0 {
        0
    } else {
        10 * spelled(digits.drop_last()) + (digits.last() as int - '0' as int)
    }
}

/// A number is written in decimal digits that spell it, without a zero in front.
pub proof fn law_decimal(n: nat)
    ensures
        spelled(decimal_digits(n)) == n,
        decimal_digits(n).len() > 0,
        decimal_digits(n)[0] == '0' <==> n == 0,
        n == 0 ==> decimal_digits(n).len() == 1,
        forall|i: int|
            0 <= i < decimal_digits(n).len() ==> '0' <= #[trigger] decimal_digits(n)[i] <= '9',
    decreases n,
{
    reveal_with_fuel(spelled, 2);
    let d = decimal_digits(n);
    if n < 10 {
        assert(d.drop_last() == Seq::<char>::empty());
        assert(d[0] == digit(n as int));
    } else {
        law_decimal(n / 10);
        let front = decimal_digits(n / 10);
        assert(d.drop_last() == front);
        assert(d[0] == front[0]);
        assert(d.last() == digit((n % 10) as int));
        assert forall|i: int| 0 <= i < d.len() implies '0' <= #[trigger] d[i] <= '9' by {
            if i < front.len() {
                assert(d[i] == front[i]);
            }
        }
    }
}

/// Output that encodes a text is read as that text.
pub proof fn law_output_is_read_as_written(s: Seq<char>)
    ensures
        lossy_text(encode_utf8(s)) == s,
{
    encode_utf8_valid_utf8(s);
    encode_utf8_decode_utf8(s);
}

/// The texts of a list are those of its strings, one for one.
pub proof fn law_texts(v: Seq<String>, i: int)
    requires
        0 <= i < v.len(),
    ensures
        texts(v).len() == v.len(),
        texts(v)[i] == v[i]@,
{
}

} // verus!
