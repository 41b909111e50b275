//! Text as sequences of characters: the few string operations that the
//! protocol needs, each stated over `Seq<char>`.

use vstd::prelude::*;

verus! {

/// A piece of text, as the contracts see it.
pub type Text = Seq<char>;

/// What the strings of a list hold.
pub open spec fn texts(list: Seq<String>) -> Seq<Text> {
    list.map_values(|s: String| s@)
}

/// Appends one character.
///
/// Claims of `String::push` that the string afterwards is the string before
/// with the character at its end.
pub assume_specification[ String::push ](s: &mut String, c: char)
    ensures
        final(s)@ == old(s)@.push(c),
;

/// The characters with Unicode's `White_Space` property.
pub open spec fn is_space(c: char) -> bool {
    let n = c as u32;
    ||| 0x9 <= n <= 0xd
    ||| n == 0x20
    ||| n == 0x85
    ||| n == 0xa0
    ||| n == 0x1680
    ||| 0x2000 <= n <= 0x200a
    ||| n == 0x2028
    ||| n == 0x2029
    ||| n == 0x202f
    ||| n == 0x205f
    ||| n == 0x3000
}

/// Whether `c` is white space.
pub fn space(c: char) -> (res: bool)
    ensures
        res == is_space(c),
{
    let n: u32 = c as u32;
    (0x9 <= n && n <= 0xd) || n == 0x20 || n == 0x85 || n == 0xa0 || n == 0x1680 || (0x2000 <= n && n
        <= 0x200a) || n == 0x2028 || n == 0x2029 || n == 0x202f || n == 0x205f || n == 0x3000
}

/// The characters of `s`, one by one.
pub fn characters(s: &str) -> (res: Vec<char>)
    ensures
        res@ == s@,
{
    let mut res: Vec<char> = Vec::new();
    for c in it: s.chars()
        invariant
            it.seq() == s@,
            res@ == s@.take(it.index() as int),
    {
        res.push(c);
        assert(res@ =~= s@.take(it.index() + 1));
    }
    assert(s@.take(s@.len() as int) =~= s@);
    res
}

/// Whether `a` and `b` hold the same characters.
pub fn same(a: &str, b: &str) -> (res: bool)
    ensures
        res == (a@ == b@),
{
    let x = characters(a);
    let y = characters(b);
    if x.len() != y.len() {
        return false;
    }
    let mut i: usize = 0;
    while i < x.len()
        invariant
            x@ == a@,
            y@ == b@,
            x.len() == y.len(),
            i <= x.len(),
            x@.take(i as int) == y@.take(i as int),
        decreases x.len() - i,
    {
        if x[i] != y[i] {
            assert(a@[i as int] != b@[i as int]);
            return false;
        }
        assert(x@.take(i + 1) =~= x@.take(i as int).push(x@[i as int]));
        assert(y@.take(i + 1) =~= y@.take(i as int).push(y@[i as int]));
        i += 1;
    }
    assert(x@.take(i as int) =~= x@);
    assert(y@.take(i as int) =~= y@);
    true
}

// ---------------------------------------------------------------- trimming
/// Whether trimming takes `c` away: white space, or the one character named.
pub open spec fn strips(what: Option<char>, c: char) -> bool {
    match what {
        Some(q) => c == q,
        None => is_space(c),
    }
}

/// `s` from its first character that stays.
pub open spec fn strip_start(s: Text, what: Option<char>) -> Text
    decreases s.len(),
{
    if s.len() > 0 && strips(what, s[0]) {
        strip_start(s.skip(1), what)
    } else {
        s
    }
}

/// `s` up to its last character that stays.
pub open spec fn strip_end(s: Text, what: Option<char>) -> Text
    decreases s.len(),
{
    if s.len() > 0 && strips(what, s.last()) {
        strip_end(s.drop_last(), what)
    } else {
        s
    }
}

/// `s` without white space at its ends.
pub open spec fn trimmed(s: Text) -> Text {
    strip_end(strip_start(s, None), None)
}

/// `s` without the character `q` at its ends.
pub open spec fn trimmed_of(s: Text, q: char) -> Text {
    strip_end(strip_start(s, Some(q)), Some(q))
}

fn goes(what: Option<char>, c: char) -> (res: bool)
    ensures
        res == strips(what, c),
{
    match what {
        Some(q) => c == q,
        None => space(c),
    }
}

fn strip<'a>(s: &'a str, what: Option<char>) -> (res: &'a str)
    ensures
        res@ == strip_end(strip_start(s@, what), what),
{
    let chars = characters(s);
    let mut lo: usize = 0;
    assert(s@.skip(0) =~= s@);
    while lo < chars.len() && goes(what, chars[lo])
        invariant
            chars@ == s@,
            lo <= chars.len(),
            strip_start(s@, what) == strip_start(s@.skip(lo as int), what),
        decreases chars.len() - lo,
    {
        assert(s@.skip(lo as int).skip(1) =~= s@.skip(lo + 1));
        lo += 1;
    }
    let ghost rest = s@.skip(lo as int);
    assert(strip_start(s@, what) == rest);
    let mut hi: usize = chars.len();
    assert(rest =~= s@.subrange(lo as int, hi as int));
    while lo < hi && goes(what, chars[hi - 1])
        invariant
            chars@ == s@,
            lo <= hi <= chars.len(),
            strip_end(rest, what) == strip_end(s@.subrange(lo as int, hi as int), what),
        decreases hi,
    {
        assert(s@.subrange(lo as int, hi as int).drop_last() =~= s@.subrange(lo as int, hi - 1));
        hi -= 1;
    }
    s.substring_char(lo, hi)
}

/// `s` without white space at its ends.
pub fn trim<'a>(s: &'a str) -> (res: &'a str)
    ensures
        res@ == trimmed(s@),
{
    strip(s, None)
}

/// `s` without the character `q` at its ends.
pub fn trim_of<'a>(s: &'a str, q: char) -> (res: &'a str)
    ensures
        res@ == trimmed_of(s@, q),
{
    strip(s, Some(q))
}

// --------------------------------------------------------------- splitting
/// The pieces of `s` between the occurrences of `sep`, empty ones included.
pub open spec fn pieces(s: Text, sep: char) -> Seq<Text>
    decreases s.len(),
{
    if s.len() == 0 {
        seq![Seq::empty()]
    } else {
        let before = pieces(s.drop_last(), sep);
        if s.last() == sep {
            before.push(Seq::empty())
        } else {
            before.drop_last().push(before.last().push(s.last()))
        }
    }
}

/// The pieces of `s` between the occurrences of `sep`, empty ones included.
pub fn split(s: &str, sep: char) -> (res: Vec<String>)
    ensures
        texts(res@) == pieces(s@, sep),
        res@.len() > 0,
{
    let mut res: Vec<String> = Vec::new();
    let mut current: String = String::new();
    proof {
        assert(s@.take(0) =~= Seq::empty());
        assert(texts(res@).push(current@) =~= pieces(s@.take(0), sep));
    }
    for c in it: s.chars()
        invariant
            it.seq() == s@,
            texts(res@).push(current@) == pieces(s@.take(it.index() as int), sep),
    {
        let ghost i = it.index() as int;
        let ghost before = texts(res@);
        let ghost word = current@;
        assert(s@.take(i + 1).drop_last() =~= s@.take(i));
        assert(s@.take(i + 1).last() == c);
        if c == sep {
            res.push(current);
            current = String::new();
            assert(texts(res@) =~= before.push(word));
        } else {
            current.push(c);
            assert(before.push(word).drop_last() =~= before);
        }
    }
    let ghost before = texts(res@);
    let ghost word = current@;
    res.push(current);
    proof {
        assert(s@.take(s@.len() as int) =~= s@);
        assert(texts(res@) =~= before.push(word));
    }
    res
}

/// The pieces in order, with `sep` between any two.
pub open spec fn joined(list: Seq<Text>, sep: char) -> Text
    decreases list.len(),
{
    if list.len() == 0 {
        Seq::empty()
    } else if list.len() == 1 {
        list[0]
    } else {
        joined(list.drop_last(), sep).push(sep) + list.last()
    }
}

// -------------------------------------------------------------- lower case
/// `c`, with an ASCII capital made small.
pub open spec fn lower_char(c: char) -> char {
    if 'A' <= c <= 'Z' {
        (c as u8 + 32) as u8 as char
    } else {
        c
    }
}

/// `s`, with its ASCII capitals made small.
pub open spec fn lowered(s: Text) -> Text {
    s.map_values(|c: char| lower_char(c))
}

/// `s`, with its ASCII capitals made small.
pub fn lower(s: &str) -> (res: String)
    ensures
        res@ == lowered(s@),
{
    let mut res: String = String::new();
    for c in it: s.chars()
        invariant
            it.seq() == s@,
            res@ == lowered(s@.take(it.index() as int)),
    {
        let small: char = if 'A' <= c && c <= 'Z' {
            (c as u8 + 32) as char
        } else {
            c
        };
        res.push(small);
        assert(res@ =~= lowered(s@.take(it.index() + 1)));
    }
    assert(s@.take(s@.len() as int) =~= s@);
    res
}

// --------------------------------------------------------------- replacing
/// Whether `s` begins with `start`.
pub open spec fn begins(s: Text, start: Text) -> bool {
    start.len() <= s.len() && s.take(start.len() as int) == start
}

/// `s` with every occurrence of `from` replaced by `to`, taken from the left
/// and without overlaps.
pub open spec fn replaced(s: Text, from: Text, to: Text) -> Text
    decreases s.len(),
{
    if s.len() == 0 || from.len() == 0 {
        s
    } else if begins(s, from) {
        to + replaced(s.skip(from.len() as int), from, to)
    } else {
        seq![s[0]] + replaced(s.skip(1), from, to)
    }
}

/// `s` with the first occurrence of `from` replaced by `to`; `s` itself where
/// it holds none.
pub open spec fn replaced_first(s: Text, from: Text, to: Text) -> Text
    decreases s.len(),
{
    if begins(s, from) {
        to + s.skip(from.len() as int)
    } else if s.len() == 0 {
        s
    } else {
        seq![s[0]] + replaced_first(s.skip(1), from, to)
    }
}

fn occurs_at(chars: &Vec<char>, at: usize, needle: &Vec<char>) -> (res: bool)
    requires
        at <= chars.len(),
    ensures
        res == begins(chars@.skip(at as int), needle@),
{
    if chars.len() - at < needle.len() {
        return false;
    }
    let ghost rest = chars@.skip(at as int);
    let mut i: usize = 0;
    while i < needle.len()
        invariant
            at + needle.len() <= chars.len(),
            rest == chars@.skip(at as int),
            i <= needle.len(),
            rest.take(i as int) == needle@.take(i as int),
        decreases needle.len() - i,
    {
        if chars[at + i] != needle[i] {
            assert(rest.take(needle@.len() as int)[i as int] != needle@[i as int]);
            return false;
        }
        assert(rest.take(i + 1) =~= rest.take(i as int).push(needle@[i as int]));
        assert(needle@.take(i + 1) =~= needle@.take(i as int).push(needle@[i as int]));
        i += 1;
    }
    assert(needle@.take(i as int) =~= needle@);
    true
}

/// `s` with every occurrence of `from` replaced by `to`, taken from the left
/// and without overlaps.
pub fn replace(s: &str, from: &str, to: &str) -> (res: String)
    requires
        from@.len() > 0,
    ensures
        res@ == replaced(s@, from@, to@),
{
    let chars = characters(s);
    let needle = characters(from);
    let mut res: String = String::new();
    let mut i: usize = 0;
    assert(s@.skip(0) =~= s@);
    assert(res@ + replaced(s@, from@, to@) =~= replaced(s@, from@, to@));
    while i < chars.len()
        invariant
            chars@ == s@,
            needle@ == from@,
            from@.len() > 0,
            i <= chars.len(),
            res@ + replaced(s@.skip(i as int), from@, to@) == replaced(s@, from@, to@),
        decreases chars.len() - i,
    {
        let ghost rest = s@.skip(i as int);
        let ghost before = res@;
        if occurs_at(&chars, i, &needle) {
            res.append(to);
            assert(rest.skip(from@.len() as int) =~= s@.skip(i + from@.len()));
            assert(res@ + replaced(s@.skip(i + from@.len()), from@, to@) =~= before + replaced(
                rest,
                from@,
                to@,
            ));
            i += needle.len();
        } else {
            res.push(chars[i]);
            assert(rest.skip(1) =~= s@.skip(i + 1));
            assert(res@ + replaced(s@.skip(i + 1), from@, to@) =~= before + replaced(rest, from@, to@));
            i += 1;
        }
    }
    assert(s@.skip(i as int) =~= Seq::empty());
    assert(res@ + replaced(s@.skip(i as int), from@, to@) =~= res@);
    res
}

// ----------------------------------------------------------------- numbers
/// The character of a decimal digit.
pub open spec fn digit(d: nat) -> char {
    (('0' as nat) + d) as char
}

/// `n` in decimal, without leading zeros.
pub open spec fn decimal_text(n: nat) -> Text
    decreases n,
{
    if n < 10 {
        seq![digit(n)]
    } else {
        decimal_text(n / 10).push(digit(n % 10))
    }
}

/// `n` in decimal, without leading zeros.
pub fn decimal(n: usize) -> (res: String)
    ensures
        res@ == decimal_text(n as nat),
    decreases n,
{
    let low: u8 = (n % 10) as u8;
    let c: char = (48u8 + low) as char;
    assert(c == digit((n % 10) as nat));
    let mut res: String = if n < 10 {
        String::new()
    } else {
        decimal(n / 10)
    };
    res.push(c);
    res
}

// -------------------------------------------------------------------- laws
/// Whether `part` occurs in `s`.
pub open spec fn occurs(s: Text, part: Text) -> bool {
    exists|i: int| 0 <= i <= s.len() && #[trigger] begins(s.skip(i), part)
}

/// Where there is nothing to replace, nothing is changed.
pub proof fn nothing_to_replace(s: Text, from: Text, to: Text)
    requires
        !occurs(s, from),
    ensures
        replaced_first(s, from, to) == s,
    decreases s.len(),
{
    assert(s.skip(0) =~= s);
    assert(!begins(s.skip(0), from));
    if s.len() > 0 {
        let rest = s.skip(1);
        assert forall|i: int| 0 <= i <= rest.len() implies !#[trigger] begins(rest.skip(i), from) by {
            assert(rest.skip(i) =~= s.skip(i + 1));
            assert(!begins(s.skip(i + 1), from));
        }
        nothing_to_replace(rest, from, to);
        assert(seq![s[0]] + rest =~= s);
    }
}

/// The pieces of a text, put together again, are the text.
pub proof fn pieces_join_to_the_whole(s: Text, sep: char)
    ensures
        pieces(s, sep).len() > 0,
        joined(pieces(s, sep), sep) == s,
    decreases s.len(),
{
    if s.len() > 0 {
        let shorter = s.drop_last();
        let before = pieces(shorter, sep);
        pieces_join_to_the_whole(shorter, sep);
        if s.last() == sep {
            assert(before.push(Seq::empty()).drop_last() =~= before);
            assert(joined(before, sep).push(sep) + Seq::empty() =~= s);
        } else {
            let word = before.last().push(s.last());
            let after = before.drop_last().push(word);
            assert(after.drop_last() =~= before.drop_last());
            if before.len() == 1 {
                assert(word =~= s);
            } else {
                assert(joined(before.drop_last(), sep).push(sep) + word =~= (joined(
                    before.drop_last(),
                    sep,
                ).push(sep) + before.last()).push(s.last()));
                assert(shorter.push(s.last()) =~= s);
            }
        }
    }
}

/// No piece of a text holds the separator.
pub proof fn pieces_hold_no_separator(s: Text, sep: char, i: int)
    requires
        0 <= i < pieces(s, sep).len(),
    ensures
        !pieces(s, sep)[i].contains(sep),
    decreases s.len(),
{
    if s.len() > 0 {
        let before = pieces(s.drop_last(), sep);
        pieces_join_to_the_whole(s.drop_last(), sep);
        if i < before.len() {
            pieces_hold_no_separator(s.drop_last(), sep, i);
        }
        if s.last() != sep && i == before.len() - 1 {
            let word = before.last().push(s.last());
            assert forall|k: int| 0 <= k < word.len() implies word[k] != sep by {
                if k < before.last().len() {
                    assert(before.last()[k] == word[k]);
                    assert(!before.last().contains(sep));
                }
            }
        }
    }
}

proof fn pieces_of_one_more(s: Text, word: Text, sep: char)
    requires
        !word.contains(sep),
    ensures
        pieces(word, sep) == seq![word],
        pieces(s.push(sep) + word, sep) == pieces(s, sep).push(word),
    decreases word.len(),
{
    let whole = s.push(sep) + word;
    if word.len() == 0 {
        assert(word =~= Seq::empty());
        assert(whole.drop_last() =~= s);
    } else {
        let shorter = word.drop_last();
        assert forall|k: int| 0 <= k < shorter.len() implies shorter[k] != sep by {
            assert(word.contains(word[k]));
        }
        pieces_of_one_more(s, shorter, sep);
        assert(word.contains(word.last()));
        assert(whole.drop_last() =~= s.push(sep) + shorter);
        assert(shorter.push(word.last()) =~= word);
        assert(pieces(s, sep).push(shorter).drop_last() =~= pieces(s, sep));
        assert(seq![shorter].drop_last().push(word) =~= seq![word]);
    }
}

/// Texts that do not hold the separator are the pieces of what they join to.
pub proof fn joined_pieces_come_apart(list: Seq<Text>, sep: char)
    requires
        list.len() > 0,
        forall|i: int| 0 <= i < list.len() ==> !(#[trigger] list[i]).contains(sep),
    ensures
        pieces(joined(list, sep), sep) == list,
    decreases list.len(),
{
    let before = list.drop_last();
    if list.len() > 1 {
        joined_pieces_come_apart(before, sep);
        pieces_of_one_more(joined(before, sep), list.last(), sep);
        assert(before.push(list.last()) =~= list);
    } else {
        pieces_of_one_more(Seq::empty(), list[0], sep);
        assert(seq![list[0]] =~= list);
    }
}

/// The pieces hold no character that the text does not.
pub proof fn pieces_hold_nothing_new(s: Text, sep: char, c: char, i: int)
    requires
        !s.contains(c),
        0 <= i < pieces(s, sep).len(),
    ensures
        !pieces(s, sep)[i].contains(c),
    decreases s.len(),
{
    if s.len() > 0 {
        let shorter = s.drop_last();
        let before = pieces(shorter, sep);
        pieces_join_to_the_whole(shorter, sep);
        assert(s.contains(s.last()));
        assert forall|k: int| 0 <= k < shorter.len() implies shorter[k] != c by {
            assert(s.contains(s[k]));
        }
        if i < before.len() {
            pieces_hold_nothing_new(shorter, sep, c, i);
        }
        if s.last() != sep && i == before.len() - 1 {
            let word = before.last().push(s.last());
            assert forall|k: int| 0 <= k < word.len() implies word[k] != c by {
                if k < before.last().len() {
                    assert(before.last().contains(before.last()[k]));
                }
            }
        }
    }
}

proof fn stripping_adds_nothing(s: Text, what: Option<char>, c: char)
    requires
        !s.contains(c),
    ensures
        !strip_start(s, what).contains(c),
        !strip_end(s, what).contains(c),
    decreases s.len(),
{
    if s.len() > 0 {
        assert forall|k: int| 0 <= k < s.skip(1).len() implies s.skip(1)[k] != c by {
            assert(s.contains(s[k + 1]));
        }
        assert forall|k: int| 0 <= k < s.drop_last().len() implies s.drop_last()[k] != c by {
            assert(s.contains(s[k]));
        }
        stripping_adds_nothing(s.skip(1), what, c);
        stripping_adds_nothing(s.drop_last(), what, c);
    }
}

/// Trimming leaves no character that was not there.
pub proof fn trimming_adds_nothing(s: Text, q: char, c: char)
    requires
        !s.contains(c),
    ensures
        !trimmed_of(s, q).contains(c),
{
    stripping_adds_nothing(s, Some(q), c);
    stripping_adds_nothing(strip_start(s, Some(q)), Some(q), c);
}

/// A trimmed text has nothing left to trim.
pub proof fn trimming_twice_is_trimming_once(s: Text, q: char)
    ensures
        trimmed_of(trimmed_of(s, q), q) == trimmed_of(s, q),
{
    stripped_start(s, Some(q));
    stripped_end(strip_start(s, Some(q)), Some(q));
}

proof fn strip_start_of_one_more(s: Text, q: char)
    ensures
        strip_start(s.push(q), Some(q)) == if strip_start(s, Some(q)).len() == 0 {
            Seq::empty()
        } else {
            strip_start(s, Some(q)).push(q)
        },
    decreases s.len(),
{
    if s.len() == 0 {
        assert(s.push(q).skip(1) =~= Seq::empty());
        reveal_with_fuel(strip_start, 2);
    } else if s[0] == q {
        assert(s.push(q).skip(1) =~= s.skip(1).push(q));
        strip_start_of_one_more(s.skip(1), q);
    }
}

/// What is put around a text is trimmed off with the rest.
pub proof fn what_is_put_around_is_trimmed(s: Text, q: char)
    ensures
        trimmed_of(seq![q] + s.push(q), q) == trimmed_of(s, q),
{
    assert((seq![q] + s.push(q)).skip(1) =~= s.push(q));
    strip_start_of_one_more(s, q);
    let inner = strip_start(s, Some(q));
    assert(inner.push(q).drop_last() =~= inner);
}

proof fn stripping_keeps_the_case(s: Text, q: char)
    requires
        forall|c: char| lower_char(c) == q <==> c == q,
    ensures
        strip_start(lowered(s), Some(q)) == lowered(strip_start(s, Some(q))),
        strip_end(lowered(s), Some(q)) == lowered(strip_end(s, Some(q))),
    decreases s.len(),
{
    if s.len() > 0 {
        assert(lowered(s).skip(1) =~= lowered(s.skip(1)));
        assert(lowered(s).drop_last() =~= lowered(s.drop_last()));
        stripping_keeps_the_case(s.skip(1), q);
        stripping_keeps_the_case(s.drop_last(), q);
    }
}

/// Quotes can be trimmed before or after the letters are made small.
pub proof fn trimming_keeps_the_case(s: Text)
    ensures
        trimmed_of(lowered(s), '"') == lowered(trimmed_of(s, '"')),
{
    assert forall|c: char| lower_char(c) == '"' <==> c == '"' by {
        if 'A' <= c <= 'Z' {
            assert(lower_char(c) as u32 >= 97);
        }
    }
    stripping_keeps_the_case(s, '"');
    stripping_keeps_the_case(strip_start(s, Some('"')), '"');
}

/// What is left after trimming has no white space at its ends.
pub proof fn trimmed_text_has_no_space_at_its_ends(s: Text)
    ensures
        trimmed(s).len() > 0 ==> !is_space(trimmed(s)[0]) && !is_space(trimmed(s).last()),
{
    stripped_start(s, None);
    stripped_end(strip_start(s, None), None);
}

proof fn stripped_start(s: Text, what: Option<char>)
    ensures
        strip_start(s, what).len() > 0 ==> !strips(what, strip_start(s, what)[0]),
    decreases s.len(),
{
    if s.len() > 0 && strips(what, s[0]) {
        stripped_start(s.skip(1), what);
    }
}

proof fn stripped_end(s: Text, what: Option<char>)
    ensures
        strip_end(s, what).len() > 0 ==> !strips(what, strip_end(s, what).last())
            && strip_end(s, what)[0] == s[0],
    decreases s.len(),
{
    if s.len() > 0 && strips(what, s.last()) {
        stripped_end(s.drop_last(), what);
    }
}

/// The number that decimal digits stand for.
pub open spec fn number(digits: Text) -> nat
    decreases digits.len(),
{
    if digits.len() == 0 {
        0
    } else {
        number(digits.drop_last()) * 10 + (digits.last() as int - '0' as int) as nat
    }
}

/// A number in decimal reads as that number.
pub proof fn decimal_text_reads_back(n: nat)
    ensures
        number(decimal_text(n)) == n,
    decreases n,
{
    let text = decimal_text(n);
    let low = n % 10;
    assert(digit(low) as int - '0' as int == low);
    if n < 10 {
        assert(text.drop_last() =~= Seq::empty());
        assert(number(text.drop_last()) == 0);
    } else {
        decimal_text_reads_back(n / 10);
        assert(text.drop_last() =~= decimal_text(n / 10));
    }
}

proof fn pieces_of_two(a: Text, b: Text, sep: char)
    ensures
        pieces(a.push(sep) + b, sep) == pieces(a, sep) + pieces(b, sep),
    decreases b.len(),
{
    let whole = a.push(sep) + b;
    if b.len() == 0 {
        assert(whole.drop_last() =~= a);
        assert(pieces(a, sep).push(Seq::empty()) =~= pieces(a, sep) + pieces(b, sep));
    } else {
        let shorter = b.drop_last();
        pieces_of_two(a, shorter, sep);
        pieces_join_to_the_whole(shorter, sep);
        assert(whole.drop_last() =~= a.push(sep) + shorter);
        assert(pieces(whole, sep) =~= pieces(a, sep) + pieces(b, sep));
    }
}

/// The pieces of two texts with a separator between them are the pieces of the
/// one and then those of the other.
pub proof fn pieces_on_both_sides_of_a_separator(a: Text, b: Text, sep: char)
    ensures
        pieces(a + seq![sep] + b, sep) == pieces(a, sep) + pieces(b, sep),
{
    pieces_of_two(a, b, sep);
    assert(a + seq![sep] + b =~= a.push(sep) + b);
}

/// A text without the separator is its only piece.
pub proof fn a_text_without_separator_is_one_piece(s: Text, sep: char)
    requires
        !s.contains(sep),
    ensures
        pieces(s, sep) == seq![s],
{
    pieces_of_one_more(Seq::empty(), s, sep);
}

} // verus!
