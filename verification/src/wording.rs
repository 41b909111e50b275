//! What the operations on text give, said of the texts that go in and come
//! out.

use crate::command::words;
use crate::model::unquoted;
use crate::text::{
    begins, decimal_text, is_space, joined, joined_pieces_come_apart, lowered, replaced,
    replaced_first, strip_end, strip_start, strips, texts, trimmed, trimmed_of, Text,
};
use vstd::prelude::*;

verus! {

// ---------------------------------------------------------------- trimming
proof fn stripped_from_the_start(s: Text, what: Option<char>, from: int)
    requires
        0 <= from <= s.len(),
        forall|i: int| 0 <= i < from ==> strips(what, #[trigger] s[i]),
        from < s.len() ==> !strips(what, s[from]),
    ensures
        strip_start(s, what) == s.subrange(from, s.len() as int),
    decreases s.len(),
{
    if from > 0 {
        let rest = s.skip(1);
        assert forall|i: int| 0 <= i < from - 1 implies strips(what, #[trigger] rest[i]) by {
            assert(rest[i] == s[i + 1]);
        }
        stripped_from_the_start(rest, what, from - 1);
        assert(rest.subrange(from - 1, rest.len() as int) =~= s.subrange(from, s.len() as int));
    } else {
        assert(s.subrange(0, s.len() as int) =~= s);
    }
}

proof fn stripped_from_the_end(s: Text, what: Option<char>, to: int)
    requires
        0 <= to <= s.len(),
        forall|i: int| to <= i < s.len() ==> strips(what, #[trigger] s[i]),
        0 < to ==> !strips(what, s[to - 1]),
    ensures
        strip_end(s, what) == s.subrange(0, to),
    decreases s.len(),
{
    if to < s.len() {
        let shorter = s.drop_last();
        assert forall|i: int| to <= i < shorter.len() implies strips(what, #[trigger] shorter[i]) by {
            assert(shorter[i] == s[i]);
        }
        stripped_from_the_end(shorter, what, to);
        assert(shorter.subrange(0, to) =~= s.subrange(0, to));
    } else {
        assert(s.subrange(0, s.len() as int) =~= s);
    }
}

proof fn stripped_from_both_ends(s: Text, what: Option<char>, from: int, to: int)
    requires
        0 <= from <= to <= s.len(),
        forall|i: int| 0 <= i < from || to <= i < s.len() ==> strips(what, #[trigger] s[i]),
        from < to ==> !strips(what, s[from]) && !strips(what, s[to - 1]),
    ensures
        strip_end(strip_start(s, what), what) == s.subrange(from, to),
{
    if from == to {
        stripped_from_the_start(s, what, s.len() as int);
        assert(strip_start(s, what) =~= Seq::empty());
        assert(s.subrange(from, to) =~= Seq::empty());
    } else {
        stripped_from_the_start(s, what, from);
        let rest = s.subrange(from, s.len() as int);
        assert forall|i: int| to - from <= i < rest.len() implies strips(what, #[trigger] rest[i]) by {
            assert(rest[i] == s[from + i]);
        }
        stripped_from_the_end(rest, what, to - from);
        assert(rest.subrange(0, to - from) =~= s.subrange(from, to));
    }
}

/// Whether `inner` is what remains of `s` when every `q` at its two ends is
/// taken away: on both sides of `inner` there are only such characters, and
/// `inner` neither begins nor ends with one.
pub open spec fn is_core(s: Text, q: char, inner: Text) -> bool {
    exists|from: int, to: int|
        {
            &&& 0 <= from <= to <= s.len()
            &&& inner == #[trigger] s.subrange(from, to)
            &&& forall|i: int| 0 <= i < from || to <= i < s.len() ==> #[trigger] s[i] == q
            &&& from < to ==> s[from] != q && s[to - 1] != q
        }
}

/// Trimming a character takes every one of it off both ends, and nothing else.
pub proof fn trimming_leaves_the_core(s: Text, q: char, inner: Text)
    requires
        is_core(s, q, inner),
    ensures
        trimmed_of(s, q) == inner,
{
    let (from, to) = choose|from: int, to: int|
        {
            &&& 0 <= from <= to <= s.len()
            &&& inner == #[trigger] s.subrange(from, to)
            &&& forall|i: int| 0 <= i < from || to <= i < s.len() ==> #[trigger] s[i] == q
            &&& from < to ==> s[from] != q && s[to - 1] != q
        };
    stripped_from_both_ends(s, Some(q), from, to);
}

/// A text that neither begins nor ends with the character is its own core, and
/// so it is what is left of it with any number of them around it.
pub proof fn a_bare_text_is_a_core(s: Text, q: char, left: nat, right: nat)
    requires
        s.len() > 0 ==> s[0] != q && s.last() != q,
    ensures
        is_core(s, q, s),
        is_core(Seq::new(left, |i: int| q) + s + Seq::new(right, |i: int| q), q, s),
{
    assert(s.subrange(0, s.len() as int) =~= s);
    let around = Seq::new(left, |i: int| q) + s + Seq::new(right, |i: int| q);
    assert(around.subrange(left as int, (left + s.len()) as int) =~= s);
}

/// White space at the ends of a text is trimmed, and nothing else.
pub proof fn white_space_is_trimmed(s: Text, from: int, to: int)
    requires
        0 <= from <= to <= s.len(),
        forall|i: int| 0 <= i < from || to <= i < s.len() ==> is_space(#[trigger] s[i]),
        from < to ==> !is_space(s[from]) && !is_space(s[to - 1]),
    ensures
        trimmed(s) == s.subrange(from, to),
{
    stripped_from_both_ends(s, None, from, to);
}

/// An argument is read as what stands between its quotes, character for
/// character.
pub proof fn quotes_are_read_past(word: Text, inner: Text)
    requires
        is_core(word, '"', inner),
    ensures
        unquoted(word) == inner,
{
    trimming_leaves_the_core(word, '"', inner);
}

// ------------------------------------------------------------------ letters
/// Making the letters small turns each ASCII capital into the small letter 32
/// places after it, and leaves every other character alone.
pub proof fn capitals_are_made_small(s: Text, i: int)
    requires
        0 <= i < s.len(),
    ensures
        lowered(s).len() == s.len(),
        'A' <= s[i] <= 'Z' ==> lowered(s)[i] as int == s[i] as int + 32,
        !('A' <= s[i] <= 'Z') ==> lowered(s)[i] == s[i],
{
}

/// What the strings of a list hold is what each of them holds.
pub proof fn texts_are_what_the_strings_hold(list: Seq<String>, i: int)
    requires
        0 <= i < list.len(),
    ensures
        texts(list).len() == list.len(),
        texts(list)[i] == list[i]@,
{
}

// ---------------------------------------------------------------- replacing
/// Whether `part` stands in `s` from the place `i` on.
pub open spec fn stands_at(s: Text, part: Text, i: int) -> bool {
    0 <= i && i + part.len() <= s.len() && s.subrange(i, i + part.len()) == part
}

/// Whether `part` stands nowhere in `s`.
pub open spec fn stands_nowhere(s: Text, part: Text) -> bool {
    forall|i: int| !#[trigger] stands_at(s, part, i)
}

/// Whether the first place at which `part` stands in `before + part + after`
/// is right after `before`.
pub open spec fn stands_first_after(before: Text, part: Text, after: Text) -> bool {
    forall|i: int| 0 <= i < before.len() ==> !#[trigger] stands_at(before + part + after, part, i)
}

proof fn beginning_is_standing(s: Text, part: Text)
    ensures
        begins(s, part) == stands_at(s, part, 0),
{
    if part.len() <= s.len() {
        assert(s.take(part.len() as int) =~= s.subrange(0, part.len() as int));
    }
}

/// Where a text stands nowhere, there is nothing to replace.
pub proof fn what_is_not_there_is_not_replaced(s: Text, from: Text, to: Text)
    requires
        stands_nowhere(s, from),
    ensures
        replaced(s, from, to) == s,
        replaced_first(s, from, to) == s,
    decreases s.len(),
{
    beginning_is_standing(s, from);
    assert(!stands_at(s, from, 0));
    if s.len() > 0 {
        let rest = s.skip(1);
        assert forall|i: int| !#[trigger] stands_at(rest, from, i) by {
            if stands_at(rest, from, i) {
                assert(s.subrange(i + 1, i + 1 + from.len()) =~= rest.subrange(i, i + from.len()));
                assert(stands_at(s, from, i + 1));
            }
        }
        what_is_not_there_is_not_replaced(rest, from, to);
        assert(seq![s[0]] + rest =~= s);
    }
}

/// Replacing goes from left to right: what is before the first occurrence
/// stays, the occurrence gives way to the new text, and after it the same is
/// done with the rest, or nothing where only the first is replaced.
pub proof fn what_is_there_is_replaced(before: Text, from: Text, after: Text, to: Text)
    requires
        from.len() > 0,
        stands_first_after(before, from, after),
    ensures
        replaced(before + from + after, from, to) == before + to + replaced(after, from, to),
        replaced_first(before + from + after, from, to) == before + to + after,
    decreases before.len(),
{
    let s = before + from + after;
    beginning_is_standing(s, from);
    if before.len() == 0 {
        assert(s.subrange(0, from.len() as int) =~= from);
        assert(s.skip(from.len() as int) =~= after);
        assert(before + to =~= to);
    } else {
        assert(!stands_at(s, from, 0));
        let fewer = before.skip(1);
        let rest = fewer + from + after;
        assert(s.skip(1) =~= rest);
        assert forall|i: int| 0 <= i < fewer.len() implies !#[trigger] stands_at(rest, from, i) by {
            if stands_at(rest, from, i) {
                assert(s.subrange(i + 1, i + 1 + from.len()) =~= rest.subrange(i, i + from.len()));
                assert(stands_at(s, from, i + 1));
            }
        }
        what_is_there_is_replaced(fewer, from, after, to);
        assert(seq![s[0]] + (fewer + to + replaced(after, from, to)) =~= before + to + replaced(
            after,
            from,
            to,
        ));
        assert(seq![s[0]] + (fewer + to + after) =~= before + to + after);
    }
}

// ------------------------------------------------------------------ numbers
/// A number in decimal is made of digits, and begins with a zero only where it
/// is zero.
pub proof fn decimal_text_is_made_of_digits(n: nat, i: int)
    ensures
        decimal_text(n).len() > 0,
        0 <= i < decimal_text(n).len() ==> '0' <= decimal_text(n)[i] <= '9',
        n > 0 ==> decimal_text(n)[0] != '0',
        n == 0 ==> decimal_text(n) == seq!['0'],
    decreases n,
{
    if n >= 10 {
        decimal_text_is_made_of_digits(n / 10, i);
    } else {
        assert(decimal_text(n) =~= seq![(('0' as nat) + n) as char]);
    }
}

// ------------------------------------------------------------------ joining
/// Joining lists is joining each of them, with one separator between the two.
pub proof fn joining_puts_one_separator_between(a: Seq<Text>, b: Seq<Text>, sep: char, one: Text)
    requires
        a.len() > 0,
        b.len() > 0,
    ensures
        joined(Seq::empty(), sep) == Seq::<char>::empty(),
        joined(seq![one], sep) == one,
        joined(a + b, sep) == joined(a, sep) + seq![sep] + joined(b, sep),
    decreases b.len(),
{
    let last = b.last();
    assert((a + b).drop_last() =~= a + b.drop_last());
    if b.len() == 1 {
        assert(a + b.drop_last() =~= a);
        assert(joined(a, sep).push(sep) + last =~= joined(a, sep) + seq![sep] + last);
    } else {
        joining_puts_one_separator_between(a, b.drop_last(), sep, one);
        assert(joined(a + b, sep) =~= joined(a, sep) + seq![sep] + joined(b, sep));
    }
}

/// The words of a line are what stands between its single spaces, without the
/// white space around the line.
pub proof fn a_line_is_read_word_by_word(line: Text, list: Seq<Text>, from: int, to: int)
    requires
        list.len() > 0,
        forall|i: int| 0 <= i < list.len() ==> !(#[trigger] list[i]).contains(' '),
        0 <= from <= to <= line.len(),
        line.subrange(from, to) == joined(list, ' '),
        forall|i: int| 0 <= i < from || to <= i < line.len() ==> is_space(#[trigger] line[i]),
        from < to ==> !is_space(line[from]) && !is_space(line[to - 1]),
    ensures
        words(line) == list,
{
    white_space_is_trimmed(line, from, to);
    joined_pieces_come_apart(list, ' ');
}

} // verus!
