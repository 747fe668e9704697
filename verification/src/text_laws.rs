//! What the operations on strings give, said of the characters alone.

use vstd::prelude::*;
use vstd::string::*;

use crate::text::{
    cut_back, cut_front, cut_suffixes, decimal, ends_in, first_of, is_digit, is_white_space,
    lemma_first_of, parsed_i64, split_at_each, split_at_first, starts_with, text_of, texts, trimmed, CharClass,
};

verus! {

/// The marks of a multiplier are `x` and `X`, and a slash is a slash.
pub proof fn law_classes(c: char)
    ensures
        CharClass::Times.has(c) <==> c == 'x' || c == 'X',
        CharClass::Slash.has(c) <==> c == '/',
        CharClass::White.has(c) <==> is_white_space(c),
{
}

/// What is cut off the front is made of the class alone, and what is left does
/// not start with it.
pub proof fn law_cut_front(s: Seq<char>, class: CharClass)
    ensures
        cut_front(s, class).len() <= s.len(),
        cut_front(s, class) == s.skip(s.len() - cut_front(s, class).len()),
        forall|i: int| 0 <= i < s.len() - cut_front(s, class).len() ==> class.has(#[trigger] s[i]),
        cut_front(s, class).len() > 0 ==> !class.has(cut_front(s, class)[0]),
    decreases s.len(),
{
    if s.len() > 0 && class.has(s.first()) {
        let t = s.drop_first();
        law_cut_front(t, class);
        let n = s.len() - cut_front(s, class).len();
        assert(s.skip(n) =~= t.skip(n - 1));
        assert forall|i: int| 0 <= i < n implies class.has(#[trigger] s[i]) by {
            if i > 0 {
                assert(s[i] == t[i - 1]);
            }
        }
    } else {
        assert(s.skip(0) =~= s);
    }
}

/// What is cut off the back is made of the class alone, and what is left does
/// not end in it.
pub proof fn law_cut_back(s: Seq<char>, class: CharClass)
    ensures
        cut_back(s, class).len() <= s.len(),
        cut_back(s, class) == s.take(cut_back(s, class).len() as int),
        forall|i: int| cut_back(s, class).len() <= i < s.len() ==> class.has(#[trigger] s[i]),
        cut_back(s, class).len() > 0 ==> !class.has(cut_back(s, class).last()),
    decreases s.len(),
{
    if s.len() > 0 && class.has(s.last()) {
        let t = s.drop_last();
        law_cut_back(t, class);
        let n = cut_back(s, class).len() as int;
        assert(s.take(n) =~= t.take(n));
        assert forall|i: int| n <= i < s.len() implies class.has(#[trigger] s[i]) by {
            if i < s.len() - 1 {
                assert(s[i] == t[i]);
            }
        }
    } else {
        assert(s.take(s.len() as int) =~= s);
    }
}

/// Trimming takes nothing but white space, and that only from the ends.
pub proof fn law_trimmed_part(s: Seq<char>) -> (start: int)
    ensures
        0 <= start <= start + trimmed(s).len() <= s.len(),
        trimmed(s) == s.subrange(start, start + trimmed(s).len()),
        forall|i: int| 0 <= i < start ==> is_white_space(#[trigger] s[i]),
        forall|i: int| start + trimmed(s).len() <= i < s.len() ==> is_white_space(#[trigger] s[i]),
        trimmed(s).len() > 0 ==> !is_white_space(trimmed(s)[0]) && !is_white_space(
            trimmed(s).last(),
        ),
{
    let front = cut_front(s, CharClass::White);
    law_cut_front(s, CharClass::White);
    law_cut_back(front, CharClass::White);
    let start = s.len() - front.len();
    let t = trimmed(s);
    assert(t =~= s.subrange(start, start + t.len()));
    assert forall|i: int| 0 <= i < start implies is_white_space(#[trigger] s[i]) by {
        assert(CharClass::White.has(s[i]));
    }
    assert forall|i: int| start + t.len() <= i < s.len() implies is_white_space(
        #[trigger] s[i],
    ) by {
        assert(front[i - start] == s[i]);
        assert(CharClass::White.has(front[i - start]));
    }
    start
}

/// A text starts with another where the characters in front agree, and ends in
/// one where those behind do.
pub proof fn law_ends(s: Seq<char>, part: Seq<char>)
    ensures
        starts_with(s, part) <==> part.len() <= s.len() && forall|i: int|
            0 <= i < part.len() ==> s[i] == part[i],
        ends_in(s, part) <==> part.len() <= s.len() && forall|i: int|
            0 <= i < part.len() ==> s[s.len() - part.len() + i] == part[i],
        starts_with(part + s, part),
        ends_in(s + part, part),
{
    let n = part.len() as int;
    if n <= s.len() {
        let head = s.take(n);
        let tail = s.skip(s.len() - n);
        if forall|i: int| 0 <= i < n ==> s[i] == part[i] {
            assert(head =~= part);
        }
        if head == part {
            assert forall|i: int| 0 <= i < n implies s[i] == part[i] by {
                assert(head[i] == s[i]);
            }
        }
        if forall|i: int| 0 <= i < n ==> s[s.len() - n + i] == part[i] {
            assert(tail =~= part);
        }
        if tail == part {
            assert forall|i: int| 0 <= i < n implies s[s.len() - n + i] == part[i] by {
                assert(tail[i] == s[s.len() - n + i]);
            }
        }
    }
    assert((part + s).take(n) =~= part);
    assert((s + part).skip(s.len() as int) =~= part);
}

/// Every trailing copy of a word is taken off, and nothing but copies of it.
pub proof fn law_cut_suffixes(s: Seq<char>, suffix: Seq<char>)
    requires
        suffix.len() > 0,
    ensures
        !ends_in(cut_suffixes(s, suffix), suffix),
        cut_suffixes(s + suffix, suffix) == cut_suffixes(s, suffix),
        !ends_in(s, suffix) ==> cut_suffixes(s, suffix) == s,
    decreases s.len(),
{
    if ends_in(s, suffix) {
        law_cut_suffixes(s.take(s.len() - suffix.len()), suffix);
    }
    law_ends(s, suffix);
    assert((s + suffix).take(s.len() as int) =~= s);
}

/// The first place of a character, or the length where it does not occur.
pub proof fn law_first_of(s: Seq<char>, c: char)
    ensures
        0 <= first_of(s, c) <= s.len(),
        forall|i: int| 0 <= i < first_of(s, c) ==> s[i] != c,
        first_of(s, c) < s.len() ==> s[first_of(s, c)] == c,
{
    lemma_first_of(s, c);
}

/// Splitting at the first separator loses nothing but the separator.
pub proof fn law_split_at_first(s: Seq<char>, c: char)
    ensures
        split_at_first(s, c) is Some <==> s.contains(c),
        split_at_first(s, c) matches Some((head, tail)) ==> s == head + seq![c] + tail
            && !head.contains(c),
{
    lemma_first_of(s, c);
    let i = first_of(s, c);
    if i < s.len() {
        assert(s =~= s.take(i) + seq![c] + s.skip(i + 1));
        if s.take(i).contains(c) {
            let k = choose|k: int| 0 <= k < i && s.take(i)[k] == c;
            assert(s[k] == c);
        }
    }
}

/// A text that was put together from a head and a tail is split into the two.
pub proof fn law_split_finds_the_parts(head: Seq<char>, c: char, tail: Seq<char>)
    requires
        !head.contains(c),
    ensures
        split_at_first(head + seq![c] + tail, c) == Some((head, tail)),
{
    let s = head + seq![c] + tail;
    lemma_first_of(s, c);
    let i = first_of(s, c);
    assert(s[head.len() as int] == c);
    assert(s.contains(c));
    if i < head.len() {
        assert(head[i] == s[i]);
        assert(head.contains(c));
    }
    assert(s.take(i) =~= head);
    assert(s.skip(i + 1) =~= tail);
}

/// The parts in order, with the separator between them.
pub open spec fn joined_with(parts: Seq<Seq<char>>, c: char) -> Seq<char>
    decreases parts.len(),
{
    if parts.len() == 0 {
        Seq::empty()
    } else if parts.len() == 1 {
        parts[0]
    } else {
        parts[0] + seq![c] + joined_with(parts.drop_first(), c)
    }
}

/// Splitting at every separator loses nothing but the separators, and leaves
/// none in the parts.
pub proof fn law_split_at_each(s: Seq<char>, c: char)
    ensures
        split_at_each(s, c).len() > 0,
        joined_with(split_at_each(s, c), c) == s,
        forall|i: int|
            0 <= i < split_at_each(s, c).len() ==> !(#[trigger] split_at_each(s, c)[i]).contains(c),
    decreases s.len(),
{
    lemma_first_of(s, c);
    let i = first_of(s, c);
    let all = split_at_each(s, c);
    if i < s.len() {
        let rest = split_at_each(s.skip(i + 1), c);
        law_split_at_each(s.skip(i + 1), c);
        law_split_at_first(s, c);
        assert(all =~= seq![s.take(i)] + rest);
        assert(all.drop_first() =~= rest);
        assert forall|j: int| 0 <= j < all.len() implies !(#[trigger] all[j]).contains(c) by {
            if j > 0 {
                assert(all[j] == rest[j - 1]);
            }
        }
    } else {
        assert(all =~= seq![s]);
    }
}

/// The digits of a number stand for powers of ten.
pub proof fn law_decimal(digits: Seq<char>, digit: char)
    requires
        '0' <= digit <= '9',
    ensures
        decimal(Seq::empty()) == 0,
        decimal(digits.push(digit)) == 10 * decimal(digits) + (digit as int - 48),
{
    assert(digits.push(digit).drop_last() =~= digits);
}

/// Digits alone denote their number, a plus in front changes nothing and a
/// minus turns it round; only what is in the range of `i64` counts.
pub proof fn law_integers(digits: Seq<char>)
    requires
        digits.len() > 0,
        forall|i: int| 0 <= i < digits.len() ==> '0' <= #[trigger] digits[i] <= '9',
    ensures
        parsed_i64(digits) == if -0x8000_0000_0000_0000 <= decimal(digits)
            <= 0x7fff_ffff_ffff_ffff {
            Some(decimal(digits) as i64)
        } else {
            None
        },
        parsed_i64(seq!['+'] + digits) == parsed_i64(digits),
        parsed_i64(seq!['-'] + digits) == if -0x8000_0000_0000_0000 <= -decimal(digits)
            <= 0x7fff_ffff_ffff_ffff {
            Some((-decimal(digits)) as i64)
        } else {
            None
        },
{
    assert('0' <= digits[0] <= '9');
    assert((seq!['+'] + digits).skip(1) =~= digits);
    assert((seq!['-'] + digits).skip(1) =~= digits);
}

/// A text with anything but digits behind its sign, or with nothing there,
/// denotes no number.
pub proof fn law_no_integers(s: Seq<char>, i: int)
    requires
        s.len() == 0 || s == seq!['+'] || s == seq!['-'] || (0 <= i < s.len() && !('0' <= s[i]
            <= '9') && (i > 0 || (s[0] != '+' && s[0] != '-'))),
    ensures
        parsed_i64(s) is None,
{
    let signed = s.len() > 0 && (s[0] == '+' || s[0] == '-');
    let digits = if signed { s.skip(1) } else { s };
    if digits.len() > 0 {
        let k = if signed { i - 1 } else { i };
        assert(digits[k] == s[i]);
        let is_dec = |c: char| is_digit(c);
        assert(!is_dec(digits[k]));
        assert(!digits.all(is_dec));
    }
}

/// A string stands for its text, a list of strings for their texts in order.
pub proof fn law_texts(s: &str, list: Seq<String>, i: int)
    requires
        0 <= i < list.len(),
    ensures
        text_of(Some(s)) == Some(s@),
        text_of(None) is None,
        texts(list).len() == list.len(),
        texts(list)[i] == list[i]@,
{
}

} // verus!
