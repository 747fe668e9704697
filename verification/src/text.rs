//! Operations on strings, stated over the sequence of their characters.

use vstd::prelude::*;
use vstd::string::*;

verus! {

/// A set of characters that can be cut off the ends of a string.
#[derive(Clone, Copy, PartialEq, Eq, Structural)]
pub enum CharClass {
    /// Characters with the Unicode property `White_Space`.
    White,
    /// The mark before a credit multiplier, in either case.
    Times,
    /// The separator of path segments.
    Slash,
}

impl CharClass {
    pub open spec fn has(self, c: char) -> bool {
        match self {
            CharClass::White => is_white_space(c),
            CharClass::Times => c == 'x' || c == 'X',
            CharClass::Slash => c == '/',
        }
    }

    /// Tells whether `c` belongs to the class.
    pub fn contains(self, c: char) -> (r: bool)
        ensures
            r == self.has(c),
    {
        match self {
            CharClass::White => white_space(c),
            CharClass::Times => c == 'x' || c == 'X',
            CharClass::Slash => c == '/',
        }
    }
}

/// The Unicode property `White_Space`.
pub open spec fn is_white_space(c: char) -> bool {
    ||| '\u{9}' <= c <= '\u{d}'
    ||| c == ' ' || c == '\u{85}' || c == '\u{a0}' || c == '\u{1680}'
    ||| '\u{2000}' <= c <= '\u{200a}'
    ||| c == '\u{2028}' || c == '\u{2029}' || c == '\u{202f}' || c == '\u{205f}'
    ||| c == '\u{3000}'
}

fn white_space(c: char) -> (r: bool)
    ensures
        r == is_white_space(c),
{
    ('\u{9}' <= c && c <= '\u{d}') || c == ' ' || c == '\u{85}' || c == '\u{a0}' || c == '\u{1680}'
        || ('\u{2000}' <= c && c <= '\u{200a}') || c == '\u{2028}' || c == '\u{2029}' || c
        == '\u{202f}' || c == '\u{205f}' || c == '\u{3000}'
}

/// `s` without its longest prefix of characters of `class`.
pub open spec fn cut_front(s: Seq<char>, class: CharClass) -> Seq<char>
    decreases s.len(),
{
    if s.len() > 0 && class.has(s.first()) {
        cut_front(s.drop_first(), class)
    } else {
        s
    }
}

/// `s` without its longest suffix of characters of `class`.
pub open spec fn cut_back(s: Seq<char>, class: CharClass) -> Seq<char>
    decreases s.len(),
{
    if s.len() > 0 && class.has(s.last()) {
        cut_back(s.drop_last(), class)
    } else {
        s
    }
}

/// `s` without the white space around it.
pub open spec fn trimmed(s: Seq<char>) -> Seq<char> {
    cut_back(cut_front(s, CharClass::White), CharClass::White)
}

/// `s` with every trailing copy of `suffix` taken off.
pub open spec fn cut_suffixes(s: Seq<char>, suffix: Seq<char>) -> Seq<char>
    decreases s.len(),
{
    if suffix.len() > 0 && ends_in(s, suffix) {
        cut_suffixes(s.take(s.len() - suffix.len()), suffix)
    } else {
        s
    }
}

/// Whether `s` has no white space at its ends.
pub open spec fn is_trimmed(s: Seq<char>) -> bool {
    s.len() > 0 ==> !is_white_space(s.first()) && !is_white_space(s.last())
}

pub open spec fn starts_with(s: Seq<char>, prefix: Seq<char>) -> bool {
    prefix.len() <= s.len() && s.take(prefix.len() as int) == prefix
}

pub open spec fn ends_in(s: Seq<char>, suffix: Seq<char>) -> bool {
    suffix.len() <= s.len() && s.skip(s.len() - suffix.len()) == suffix
}

/// The position of the first `c` in `s`; the length of `s` where there is none.
pub open spec fn first_of(s: Seq<char>, c: char) -> int
    decreases s.len(),
{
    if s.len() == 0 || s.first() == c {
        0
    } else {
        1 + first_of(s.drop_first(), c)
    }
}

/// The parts of `s` between the occurrences of `c`, in order.
pub open spec fn split_at_each(s: Seq<char>, c: char) -> Seq<Seq<char>>
    decreases s.len(),
{
    let i = first_of(s, c);
    if 0 <= i < s.len() {
        seq![s.take(i)] + split_at_each(s.skip(i + 1), c)
    } else {
        seq![s]
    }
}

/// The parts of `s` before and after its first `c`.
pub open spec fn split_at_first(s: Seq<char>, c: char) -> Option<(Seq<char>, Seq<char>)> {
    let i = first_of(s, c);
    if i < s.len() {
        Some((s.take(i), s.skip(i + 1)))
    } else {
        None
    }
}

/// The texts of a list of strings.
pub open spec fn texts(list: Seq<String>) -> Seq<Seq<char>> {
    list.map_values(|s: String| s@)
}

/// The text that an optional string holds.
pub open spec fn text_of(s: Option<&str>) -> Option<Seq<char>> {
    match s {
        Some(t) => Some(t@),
        None => None,
    }
}

pub proof fn lemma_first_of(s: Seq<char>, c: char)
    ensures
        0 <= first_of(s, c) <= s.len(),
        forall|j: int| 0 <= j < first_of(s, c) ==> s[j] != c,
        first_of(s, c) < s.len() ==> s[first_of(s, c)] == c,
        s.contains(c) <==> first_of(s, c) < s.len(),
    decreases s.len(),
{
    if s.len() > 0 && s.first() != c {
        let t = s.drop_first();
        lemma_first_of(t, c);
        assert forall|j: int| 0 <= j < first_of(s, c) implies s[j] != c by {
            if j > 0 {
                assert(t[j - 1] == s[j]);
            }
        }
        if s.contains(c) {
            let k = choose|k: int| 0 <= k < s.len() && s[k] == c;
            assert(t[k - 1] == c);
        }
    }
}

/// A position is the first of `c` if `c` stands there and nowhere before.
pub proof fn lemma_first_of_is(s: Seq<char>, c: char, i: int)
    requires
        0 <= i <= s.len(),
        forall|j: int| 0 <= j < i ==> s[j] != c,
        i < s.len() ==> s[i] == c,
    ensures
        first_of(s, c) == i,
{
    lemma_first_of(s, c);
    if first_of(s, c) < i {
        assert(s[first_of(s, c)] == c);
    }
}

proof fn lemma_cut_front_head(s: Seq<char>, class: CharClass)
    ensures
        cut_front(s, class).len() > 0 ==> !class.has(cut_front(s, class).first()),
    decreases s.len(),
{
    if s.len() > 0 && class.has(s.first()) {
        lemma_cut_front_head(s.drop_first(), class);
    }
}

proof fn lemma_cut_back_ends(s: Seq<char>, class: CharClass)
    ensures
        cut_back(s, class).len() > 0 ==> !class.has(cut_back(s, class).last())
            && cut_back(s, class).first() == s.first(),
    decreases s.len(),
{
    if s.len() > 0 && class.has(s.last()) {
        lemma_cut_back_ends(s.drop_last(), class);
    }
}

/// Cutting the back of two texts in a row: the front one is reached only where
/// nothing is left of the back one.
pub proof fn lemma_cut_back_joined(front: Seq<char>, back: Seq<char>, class: CharClass)
    ensures
        cut_back(front + back, class) == if cut_back(back, class).len() > 0 {
            front + cut_back(back, class)
        } else {
            cut_back(front, class)
        },
    decreases back.len(),
{
    if back.len() == 0 {
        assert(front + back =~= front);
    } else {
        assert((front + back).last() == back.last());
        if class.has(back.last()) {
            assert((front + back).drop_last() =~= front + back.drop_last());
            lemma_cut_back_joined(front, back.drop_last(), class);
        }
    }
}

/// It does not matter which end is cut first.
proof fn lemma_cuts_commute(s: Seq<char>, class: CharClass)
    ensures
        cut_front(cut_back(s, class), class) == cut_back(cut_front(s, class), class),
    decreases s.len(),
{
    if s.len() > 0 {
        if class.has(s.first()) {
            let head = seq![s.first()];
            let tail = s.drop_first();
            assert(s =~= head + tail);
            lemma_cuts_commute(tail, class);
            lemma_cut_back_joined(head, tail, class);
            if cut_back(tail, class).len() > 0 {
                assert((head + cut_back(tail, class)).drop_first() =~= cut_back(tail, class));
            } else {
                reveal_with_fuel(cut_back, 2);
                assert(cut_back(head, class) =~= cut_back(tail, class));
            }
        } else {
            lemma_cut_back_ends(s, class);
        }
    }
}

/// White space cut off the back is not missed when the text is trimmed.
pub proof fn lemma_trimmed_in_steps(s: Seq<char>)
    ensures
        trimmed(cut_back(s, CharClass::White)) == trimmed(s),
        trimmed(s).len() > 0 ==> cut_back(s, CharClass::White).len() > 0,
{
    lemma_cut_back_ends(s, CharClass::White);
    lemma_cuts_commute(s, CharClass::White);
    lemma_cuts_commute(cut_back(s, CharClass::White), CharClass::White);
}

/// Trimming leaves no white space at the ends, and changes nothing where there is none.
pub proof fn law_trimmed(s: Seq<char>)
    ensures
        is_trimmed(trimmed(s)),
        is_trimmed(s) ==> trimmed(s) == s,
        trimmed(trimmed(s)) == trimmed(s),
{
    lemma_cut_front_head(s, CharClass::White);
    lemma_cut_back_ends(cut_front(s, CharClass::White), CharClass::White);
}

/// The characters of `s`.
fn chars_of(s: &str) -> (r: Vec<char>)
    ensures
        r@ == s@,
{
    let mut r: Vec<char> = Vec::new();
    for c in it: s.chars()
        invariant
            r@ == it.seq().take(it.index() as int),
            it.seq() == s@,
    {
        r.push(c);
    }
    r
}

proof fn lemma_cut_front_skip(s: Seq<char>, class: CharClass, i: int)
    requires
        0 <= i < s.len(),
        class.has(s[i]),
    ensures
        cut_front(s.skip(i), class) == cut_front(s.skip(i + 1), class),
{
    assert(s.skip(i).drop_first() =~= s.skip(i + 1));
}

/// The part of `s` that follows its longest prefix of characters of `class`.
pub fn trim_front<'a>(s: &'a str, class: CharClass) -> (r: &'a str)
    ensures
        r@ == cut_front(s@, class),
{
    let chars = chars_of(s);
    let mut i: usize = 0;
    assert(s@.skip(0) =~= s@);
    while i < chars.len() && class.contains(chars[i])
        invariant
            i <= chars.len(),
            chars@ == s@,
            cut_front(s@, class) == cut_front(s@.skip(i as int), class),
        decreases chars.len() - i,
    {
        proof {
            lemma_cut_front_skip(s@, class, i as int);
        }
        i = i + 1;
    }
    s.substring_char(i, chars.len())
}

/// The part of `s` that precedes its longest suffix of characters of `class`.
pub fn trim_back<'a>(s: &'a str, class: CharClass) -> (r: &'a str)
    ensures
        r@ == cut_back(s@, class),
{
    let chars = chars_of(s);
    let mut i: usize = chars.len();
    assert(s@.take(i as int) =~= s@);
    while i > 0 && class.contains(chars[i - 1])
        invariant
            i <= chars.len(),
            chars@ == s@,
            cut_back(s@, class) == cut_back(s@.take(i as int), class),
        decreases i,
    {
        assert(s@.take(i as int).drop_last() =~= s@.take(i - 1));
        i = i - 1;
    }
    s.substring_char(0, i)
}

/// `s` without the white space around it.
pub fn trim<'a>(s: &'a str) -> (r: &'a str)
    ensures
        r@ == trimmed(s@),
{
    trim_back(trim_front(s, CharClass::White), CharClass::White)
}

/// Tells whether the two strings have the same characters.
pub fn same_text(a: &str, b: &str) -> (r: bool)
    ensures
        r == (a@ == b@),
{
    a.to_owned() == b.to_owned()
}

/// What follows `prefix` in `s`, where `s` starts with it.
pub fn after_prefix<'a>(s: &'a str, prefix: &str) -> (r: Option<&'a str>)
    ensures
        r is Some <==> starts_with(s@, prefix@),
        r matches Some(rest) ==> rest@ == s@.skip(prefix@.len() as int),
{
    let n: usize = s.unicode_len();
    let k: usize = prefix.unicode_len();
    if k <= n && same_text(s.substring_char(0, k), prefix) {
        Some(s.substring_char(k, n))
    } else {
        None
    }
}

/// What precedes `suffix` in `s`, where `s` ends in it.
pub fn before_suffix<'a>(s: &'a str, suffix: &str) -> (r: Option<&'a str>)
    ensures
        r is Some <==> ends_in(s@, suffix@),
        r matches Some(rest) ==> rest@ == s@.take(s@.len() - suffix@.len()),
{
    let n: usize = s.unicode_len();
    let k: usize = suffix.unicode_len();
    if k <= n && same_text(s.substring_char(n - k, n), suffix) {
        Some(s.substring_char(0, n - k))
    } else {
        None
    }
}

/// `s` with every trailing copy of `suffix` taken off.
pub fn trim_suffixes<'a>(s: &'a str, suffix: &str) -> (r: &'a str)
    ensures
        r@ == cut_suffixes(s@, suffix@),
    decreases s@.len(),
{
    if suffix.is_empty() {
        return s;
    }
    match before_suffix(s, suffix) {
        Some(rest) => trim_suffixes(rest, suffix),
        None => s,
    }
}

/// The position of the first `c` at or after `from`; the length where there is none.
fn find_char(chars: &Vec<char>, c: char, from: usize) -> (r: usize)
    requires
        from <= chars.len(),
    ensures
        from <= r <= chars.len(),
        r - from == first_of(chars@.skip(from as int), c),
{
    let mut i: usize = from;
    while i < chars.len() && chars[i] != c
        invariant
            from <= i <= chars.len(),
            forall|j: int| from <= j < i ==> chars@[j] != c,
        decreases chars.len() - i,
    {
        i = i + 1;
    }
    proof {
        lemma_first_of_is(chars@.skip(from as int), c, i - from);
    }
    i
}

/// Tells whether `c` occurs in `s`.
pub fn has_char(s: &str, c: char) -> (r: bool)
    ensures
        r == s@.contains(c),
{
    let chars = chars_of(s);
    let i: usize = find_char(&chars, c, 0);
    proof {
        assert(s@.skip(0) =~= s@);
        lemma_first_of(s@, c);
    }
    i < chars.len()
}

/// The parts of `s` before and after its first `c`.
pub fn split_once<'a>(s: &'a str, c: char) -> (r: Option<(&'a str, &'a str)>)
    ensures
        match r {
            Some((head, tail)) => split_at_first(s@, c) == Some((head@, tail@)),
            None => split_at_first(s@, c) is None,
        },
{
    let chars = chars_of(s);
    let n: usize = chars.len();
    let i: usize = find_char(&chars, c, 0);
    assert(s@.skip(0) =~= s@);
    if i < n {
        let head = s.substring_char(0, i);
        let tail = s.substring_char(i + 1, n);
        assert(head@ =~= s@.take(i as int));
        assert(tail@ =~= s@.skip(i + 1));
        Some((head, tail))
    } else {
        None
    }
}

/// The parts of `s` between the occurrences of `c`, in order.
pub fn split<'a>(s: &'a str, c: char) -> (r: Vec<&'a str>)
    ensures
        r@.map_values(|p: &'a str| p@) == split_at_each(s@, c),
{
    let chars = chars_of(s);
    let n: usize = chars.len();
    let mut parts: Vec<&'a str> = Vec::new();
    let mut from: usize = 0;
    let ghost view = |p: &'a str| p@;
    assert(s@.skip(0) =~= s@);
    assert(parts@.map_values(view) =~= Seq::<Seq<char>>::empty());
    loop
        invariant
            chars@ == s@,
            n == s@.len(),
            from <= n,
            view == (|p: &'a str| p@),
            parts@.map_values(view) + split_at_each(s@.skip(from as int), c) == split_at_each(s@, c),
        decreases n - from,
    {
        let i: usize = find_char(&chars, c, from);
        let ghost rest = s@.skip(from as int);
        let ghost before = parts@.map_values(view);
        let part = s.substring_char(from, i);
        assert(part@ =~= rest.take(i - from));
        parts.push(part);
        assert(parts@.map_values(view) =~= before.push(part@));
        if i == n {
            assert(part@ =~= rest);
            assert(split_at_each(rest, c) =~= seq![rest]);
            assert(parts@.map_values(view) =~= split_at_each(s@, c));
            return parts;
        }
        assert(rest.skip(i - from + 1) =~= s@.skip(i + 1));
        assert(parts@.map_values(view) + split_at_each(s@.skip(i + 1), c) =~= before + (seq![part@]
            + split_at_each(s@.skip(i + 1), c)));
        from = i + 1;
    }
}

/// `a` followed by `b`.
pub fn joined(a: &str, b: &str) -> (r: String)
    ensures
        r@ == a@ + b@,
{
    a.to_owned().concat(b)
}

pub open spec fn is_digit(c: char) -> bool {
    '0' <= c <= '9'
}

/// The number that a sequence of decimal digits denotes.
pub open spec fn decimal(digits: Seq<char>) -> int
    decreases digits.len(),
{
    if digits.len() == 0 {
        0
    } else {
        10 * decimal(digits.drop_last()) + (digits.last() as int - '0' as int)
    }
}

/// The integer that `s` denotes: an optional sign and at least one digit, in
/// the range of `i64`.
pub open spec fn parsed_i64(s: Seq<char>) -> Option<i64> {
    let signed = s.len() > 0 && (s[0] == '+' || s[0] == '-');
    let digits = if signed { s.skip(1) } else { s };
    let value = if signed && s[0] == '-' { -decimal(digits) } else { decimal(digits) };
    if digits.len() > 0 && digits.all(|c: char| is_digit(c)) && i64::MIN <= value <= i64::MAX {
        Some(value as i64)
    } else {
        None
    }
}

/// Appending digits never makes the number smaller.
proof fn lemma_decimal_grows(digits: Seq<char>, k: int)
    requires
        0 <= k <= digits.len(),
        forall|i: int| 0 <= i < digits.len() ==> is_digit(digits[i]),
    ensures
        0 <= decimal(digits.take(k)) <= decimal(digits),
    decreases digits.len(),
{
    if k == digits.len() {
        assert(digits.take(k) =~= digits);
        if k > 0 {
            let shorter = digits.drop_last();
            lemma_decimal_grows(shorter, shorter.len() as int);
            assert(shorter.take(shorter.len() as int) =~= shorter);
        }
    } else {
        let shorter = digits.drop_last();
        lemma_decimal_grows(shorter, k);
        assert(shorter.take(k) =~= digits.take(k));
    }
}

/// The integer that `s` denotes in decimal, where it denotes one of `i64`.
pub fn parse_i64(s: &str) -> (r: Option<i64>)
    ensures
        r == parsed_i64(s@),
{
    let chars = chars_of(s);
    let signed = chars.len() > 0 && (chars[0] == '+' || chars[0] == '-');
    let start: usize = if signed { 1 } else { 0 };
    let ghost digits = s@.skip(start as int);
    let ghost is_dec = |c: char| is_digit(c);
    assert(s@.skip(0) =~= s@);
    if start == chars.len() {
        return None;
    }
    let mut i: usize = start;
    let mut value: i128 = 0;
    assert(digits.take(0) =~= Seq::<char>::empty());
    while i < chars.len()
        invariant
            start <= i <= chars.len(),
            start < chars.len(),
            chars@ == s@,
            digits == s@.skip(start as int),
            s@.skip(0) == s@,
            is_dec == (|c: char| is_digit(c)),
            signed == (s@.len() > 0 && (s@[0] == '+' || s@[0] == '-')),
            start == if signed { 1usize } else { 0usize },
            forall|j: int| 0 <= j < i - start ==> is_digit(digits[j]),
            value == decimal(digits.take(i - start)),
            0 <= value <= 0x8000_0000_0000_0000,
        decreases chars.len() - i,
    {
        let c = chars[i];
        assert(digits[i - start] == c);
        if !('0' <= c && c <= '9') {
            assert(!is_dec(digits[i - start]));
            assert(!digits.all(is_dec));
            return None;
        }
        assert(digits.take(i - start + 1).drop_last() =~= digits.take(i - start));
        value = value * 10 + (c as u32 as i128 - '0' as u32 as i128);
        i = i + 1;
        assert(value == decimal(digits.take(i - start)));
        if value > 0x8000_0000_0000_0000 {
            proof {
                if digits.all(is_dec) {
                    assert forall|j: int| 0 <= j < digits.len() implies is_digit(digits[j]) by {
                        assert(is_dec(digits[j]));
                    }
                    lemma_decimal_grows(digits, i - start);
                    assert(decimal(digits) > 0x8000_0000_0000_0000);
                }
            }
            return None;
        }
    }
    assert(digits.take(i - start) =~= digits);
    assert(digits.all(is_dec));
    if signed && chars[0] == '-' {
        Some((0 - value) as i64)
    } else if value <= 0x7fff_ffff_ffff_ffff {
        Some(value as i64)
    } else {
        None
    }
}

} // verus!
