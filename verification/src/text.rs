//! Text as the agent reads and writes it: trimming, splitting, ASCII case and decimal numbers.
//!
//! A text is modelled by the sequence of its characters.

use vstd::prelude::*;
use vstd::string::StrSliceExecFns;
use vstd::string::StringExecFns;

verus! {

broadcast use vstd::string::group_string_axioms;

/// `String::push`: the text grows by exactly the given character, at its end.
pub assume_specification[ String::push ](s: &mut String, ch: char)
    ensures
        final(s)@ == old(s)@.push(ch),
;

/// The characters with the Unicode `White_Space` property.
pub open spec fn whitespace(c: char) -> bool {
    ||| '\u{9}' <= c <= '\u{d}'
    ||| c == '\u{20}'
    ||| c == '\u{85}'
    ||| c == '\u{a0}'
    ||| c == '\u{1680}'
    ||| '\u{2000}' <= c <= '\u{200a}'
    ||| c == '\u{2028}'
    ||| c == '\u{2029}'
    ||| c == '\u{202f}'
    ||| c == '\u{205f}'
    ||| c == '\u{3000}'
}

/// Whether `c` is white space.
pub fn is_whitespace(c: char) -> (r: bool)
    ensures
        r == whitespace(c),
{
    ('\u{9}' <= c && c <= '\u{d}') || c == '\u{20}' || c == '\u{85}' || c == '\u{a0}' || c
        == '\u{1680}' || ('\u{2000}' <= c && c <= '\u{200a}') || c == '\u{2028}' || c == '\u{2029}'
        || c == '\u{202f}' || c == '\u{205f}' || c == '\u{3000}'
}

/// `s` without the white space at its start.
pub open spec fn trimmed_start(s: Seq<char>) -> Seq<char>
    decreases s.len(),
{
    if s.len() > 0 && whitespace(s.first()) {
        trimmed_start(s.drop_first())
    } else {
        s
    }
}

/// `s` without the white space at its end.
pub open spec fn trimmed_end(s: Seq<char>) -> Seq<char>
    decreases s.len(),
{
    if s.len() > 0 && whitespace(s.last()) {
        trimmed_end(s.drop_last())
    } else {
        s
    }
}

/// `s` without the white space at either end.
pub open spec fn trimmed(s: Seq<char>) -> Seq<char> {
    trimmed_end(trimmed_start(s))
}

/// The characters of `s`, one by one.
pub fn chars_of(s: &str) -> (r: Vec<char>)
    ensures
        r@ == s@,
{
    let mut r: Vec<char> = Vec::new();
    for c in it: s.chars()
        invariant
            it.seq() == s@,
            r@ == s@.take(it.index() as int),
    {
        r.push(c);
    }
    r
}

/// The text without the white space at either end.
pub fn trim(s: &str) -> (r: &str)
    ensures
        r@ == trimmed(s@),
{
    let chars: Vec<char> = chars_of(s);
    let mut from: usize = 0;
    assert(s@.skip(0) =~= s@);
    while from < chars.len() && is_whitespace(chars[from])
        invariant
            from <= chars.len(),
            chars@ == s@,
            trimmed_start(s@) == trimmed_start(s@.skip(from as int)),
        decreases chars.len() - from,
    {
        assert(s@.skip(from as int).drop_first() =~= s@.skip(from + 1));
        from = from + 1;
    }
    assert(trimmed_start(s@) == s@.skip(from as int));
    let mut to: usize = chars.len();
    assert(s@.subrange(from as int, to as int) =~= s@.skip(from as int));
    while from < to && is_whitespace(chars[to - 1])
        invariant
            from <= to <= chars.len(),
            chars@ == s@,
            trimmed(s@) == trimmed_end(s@.subrange(from as int, to as int)),
        decreases to,
    {
        assert(s@.subrange(from as int, to as int).drop_last() =~= s@.subrange(
            from as int,
            to - 1,
        ));
        to = to - 1;
    }
    s.substring_char(from, to)
}

/// `c` in ASCII lower case: only `A` to `Z` change.
pub open spec fn lower(c: char) -> char {
    if 'A' <= c <= 'Z' {
        (c as u32 + 32) as char
    } else {
        c
    }
}

/// `s` in ASCII lower case.
pub open spec fn lowered(s: Seq<char>) -> Seq<char> {
    s.map_values(|c: char| lower(c))
}

/// The text in ASCII lower case.
pub fn to_ascii_lowercase(s: &str) -> (r: String)
    ensures
        r@ == lowered(s@),
{
    let chars: Vec<char> = chars_of(s);
    let mut r: String = String::new();
    let mut i: usize = 0;
    while i < chars.len()
        invariant
            i <= chars.len(),
            chars@ == s@,
            r@ == lowered(s@.take(i as int)),
        decreases chars.len() - i,
    {
        let c = chars[i];
        let l = if 'A' <= c && c <= 'Z' {
            ((c as u8) + 32) as char
        } else {
            c
        };
        r.push(l);
        assert(s@.take(i + 1) =~= s@.take(i as int).push(c));
        i = i + 1;
        assert(r@ =~= lowered(s@.take(i as int)));
    }
    assert(s@.take(i as int) =~= s@);
    r
}

/// The texts, each as its characters.
pub open spec fn texts(v: Seq<String>) -> Seq<Seq<char>> {
    v.map_values(|t: String| t@)
}

/// The pieces of `s` between separators: a separator opens a new piece, and any other
/// character extends the last one.
pub open spec fn pieces(s: Seq<char>, sep: char) -> Seq<Seq<char>>
    decreases s.len(),
{
    if s.len() == 0 {
        seq![Seq::<char>::empty()]
    } else {
        let before = pieces(s.drop_last(), sep);
        if s.last() == sep {
            before.push(Seq::<char>::empty())
        } else {
            before.drop_last().push(before.last().push(s.last()))
        }
    }
}

/// The pieces of the text between separators.
pub fn split(s: &str, sep: char) -> (r: Vec<String>)
    ensures
        texts(r@) == pieces(s@, sep),
{
    let chars: Vec<char> = chars_of(s);
    let mut done: Vec<String> = Vec::new();
    let mut current: String = String::new();
    let mut i: usize = 0;
    assert(texts(done@).push(current@) =~= pieces(s@.take(0), sep));
    while i < chars.len()
        invariant
            i <= chars.len(),
            chars@ == s@,
            texts(done@).push(current@) == pieces(s@.take(i as int), sep),
        decreases chars.len() - i,
    {
        let c = chars[i];
        assert(s@.take(i + 1).drop_last() =~= s@.take(i as int));
        let ghost before = pieces(s@.take(i as int), sep);
        assert(before.last() == current@);
        assert(before.drop_last() =~= texts(done@));
        if c == sep {
            done.push(current);
            current = String::new();
            assert(texts(done@) =~= before);
        } else {
            current.push(c);
        }
        i = i + 1;
    }
    let ghost old_done = done@;
    assert(s@.take(i as int) =~= s@);
    let ghost last = current@;
    done.push(current);
    assert(texts(done@) =~= texts(old_done).push(last));
    done
}

/// Whether the two texts hold the same characters.
pub fn same_text(a: &str, b: &str) -> (r: bool)
    ensures
        r == (a@ == b@),
{
    let x: Vec<char> = chars_of(a);
    let y: Vec<char> = chars_of(b);
    if x.len() != y.len() {
        return false;
    }
    let mut i: usize = 0;
    while i < x.len()
        invariant
            i <= x.len(),
            x.len() == y.len(),
            x@ == a@,
            y@ == b@,
            forall|j: int| 0 <= j < i ==> x@[j] == y@[j],
        decreases x.len() - i,
    {
        if x[i] != y[i] {
            return false;
        }
        i = i + 1;
    }
    assert(x@ =~= y@);
    true
}

/// Whether one of the texts is `wanted`.
pub fn lists(entries: &Vec<String>, wanted: &str) -> (r: bool)
    ensures
        r == texts(entries@).contains(wanted@),
{
    let ghost list = texts(entries@);
    let mut i: usize = 0;
    while i < entries.len()
        invariant
            i <= entries.len(),
            list == texts(entries@),
            forall|j: int| 0 <= j < i ==> #[trigger] list[j] != wanted@,
        decreases entries.len() - i,
    {
        assert(list[i as int] == entries@[i as int]@);
        if same_text(entries[i].as_str(), wanted) {
            return true;
        }
        i = i + 1;
    }
    false
}

/// `s` begins with `lead`.
pub open spec fn begins_with(s: Seq<char>, lead: Seq<char>) -> bool {
    lead.is_prefix_of(s)
}

/// Whether the text begins with `lead`.
pub fn starts_with(s: &str, lead: &str) -> (r: bool)
    ensures
        r == begins_with(s@, lead@),
{
    let x: Vec<char> = chars_of(s);
    let y: Vec<char> = chars_of(lead);
    if x.len() < y.len() {
        return false;
    }
    let mut i: usize = 0;
    while i < y.len()
        invariant
            i <= y.len() <= x.len(),
            x@ == s@,
            y@ == lead@,
            forall|j: int| 0 <= j < i ==> x@[j] == y@[j],
        decreases y.len() - i,
    {
        if x[i] != y[i] {
            assert(x@.subrange(0, y@.len() as int)[i as int] != y@[i as int]);
            return false;
        }
        i = i + 1;
    }
    assert(x@.subrange(0, y@.len() as int) =~= y@);
    true
}

/// `part` stands somewhere in `s`.
pub open spec fn has_part(s: Seq<char>, part: Seq<char>) -> bool {
    exists|i: int| #[trigger] part_at(s, part, i)
}

/// `part` stands in `s` from position `i` on.
pub open spec fn part_at(s: Seq<char>, part: Seq<char>, i: int) -> bool {
    0 <= i <= s.len() - part.len() && s.subrange(i, i + part.len()) == part
}

/// Whether `part` stands somewhere in the text.
pub fn contains(s: &str, part: &str) -> (r: bool)
    ensures
        r == has_part(s@, part@),
{
    let x: Vec<char> = chars_of(s);
    let y: Vec<char> = chars_of(part);
    if x.len() < y.len() {
        return false;
    }
    let mut i: usize = 0;
    while i <= x.len() - y.len()
        invariant
            y.len() <= x.len(),
            i <= x.len() - y.len() + 1,
            x@ == s@,
            y@ == part@,
            forall|k: int| 0 <= k < i ==> !part_at(s@, part@, k),
        decreases x.len() - i,
    {
        let mut j: usize = 0;
        while j < y.len() && x[i + j] == y[j]
            invariant
                y.len() <= x.len(),
                i <= x.len() - y.len(),
                j <= y.len(),
                forall|k: int| 0 <= k < j ==> x@[i + k] == y@[k],
            decreases y.len() - j,
        {
            j = j + 1;
        }
        if j == y.len() {
            assert(s@.subrange(i as int, i + y.len()) =~= part@);
            assert(part_at(s@, part@, i as int));
            return true;
        }
        assert(s@.subrange(i as int, i + y.len())[j as int] != part@[j as int]);
        i = i + 1;
        if i > x.len() - y.len() {
            return false;
        }
    }
    false
}

/// Where `c` first stands in `s`; the length of `s` where it does not.
pub open spec fn first_of(s: Seq<char>, c: char) -> int
    decreases s.len(),
{
    if s.len() == 0 || s.first() == c {
        0
    } else {
        1 + first_of(s.drop_first(), c)
    }
}

/// Where `c` last stands in `s`; -1 where it does not.
pub open spec fn last_of(s: Seq<char>, c: char) -> int
    decreases s.len(),
{
    if s.len() == 0 || s.last() == c {
        s.len() - 1
    } else {
        last_of(s.drop_last(), c)
    }
}

/// `first_of` is the one position that holds `c` with no `c` before it, or the length.
pub proof fn lemma_first_of(s: Seq<char>, c: char, i: int)
    requires
        0 <= i <= s.len(),
        forall|j: int| 0 <= j < i ==> s[j] != c,
        i < s.len() ==> s[i] == c,
    ensures
        first_of(s, c) == i,
    decreases i,
{
    if i > 0 {
        assert(s.drop_first().len() == s.len() - 1);
        assert forall|j: int| 0 <= j < i - 1 implies s.drop_first()[j] != c by {
            assert(s.drop_first()[j] == s[j + 1]);
        }
        lemma_first_of(s.drop_first(), c, i - 1);
    }
}

/// `last_of` is the one position that holds `c` with no `c` behind it, or -1.
pub proof fn lemma_last_of(s: Seq<char>, c: char, i: int)
    requires
        -1 <= i < s.len(),
        forall|j: int| i < j < s.len() ==> s[j] != c,
        i >= 0 ==> s[i] == c,
    ensures
        last_of(s, c) == i,
    decreases s.len(),
{
    if s.len() > 0 && i < s.len() - 1 {
        lemma_last_of(s.drop_last(), c, i);
    }
}

/// Where `c` first stands among these characters.
pub fn find_char(chars: &Vec<char>, c: char) -> (r: Option<usize>)
    ensures
        match r {
            Some(i) => i < chars@.len() && i == first_of(chars@, c) && chars@[i as int] == c,
            None => first_of(chars@, c) == chars@.len(),
        },
{
    let mut i: usize = 0;
    while i < chars.len()
        invariant
            i <= chars.len(),
            forall|j: int| 0 <= j < i ==> chars@[j] != c,
        decreases chars.len() - i,
    {
        if chars[i] == c {
            proof {
                lemma_first_of(chars@, c, i as int);
            }
            return Some(i);
        }
        i = i + 1;
    }
    proof {
        lemma_first_of(chars@, c, i as int);
    }
    None
}

/// Where `c` last stands among these characters.
pub fn rfind_char(chars: &Vec<char>, c: char) -> (r: Option<usize>)
    ensures
        match r {
            Some(i) => i < chars@.len() && i == last_of(chars@, c) && chars@[i as int] == c,
            None => last_of(chars@, c) == -1,
        },
{
    let mut i: usize = chars.len();
    while i > 0
        invariant
            i <= chars.len(),
            forall|j: int| i <= j < chars.len() ==> chars@[j] != c,
        decreases i,
    {
        i = i - 1;
        if chars[i] == c {
            proof {
                lemma_last_of(chars@, c, i as int);
            }
            return Some(i);
        }
    }
    proof {
        lemma_last_of(chars@, c, -1);
    }
    None
}

/// `c` is one of `0` to `9`.
pub open spec fn is_digit(c: char) -> bool {
    '0' <= c <= '9'
}

/// The number a digit stands for; other characters stand for nothing.
pub open spec fn digit_value(c: char) -> nat {
    if is_digit(c) {
        (c as int - '0' as int) as nat
    } else {
        0
    }
}

/// The number that a row of digits stands for.
pub open spec fn digits_value(s: Seq<char>) -> nat
    decreases s.len(),
{
    if s.len() == 0 {
        0
    } else {
        digits_value(s.drop_last()) * 10 + digit_value(s.last())
    }
}

/// `s` without the plus sign it may lead with.
pub open spec fn unsigned_part(s: Seq<char>) -> Seq<char> {
    if s.len() > 0 && s.first() == '+' {
        s.drop_first()
    } else {
        s
    }
}

/// The number that `s` writes, no larger than `max`: digits only, at least one, with or
/// without a plus sign in front.
pub open spec fn number_up_to(s: Seq<char>, max: nat) -> Option<nat> {
    let digits = unsigned_part(s);
    if digits.len() > 0 && (forall|i: int|
        0 <= i < digits.len() ==> #[trigger] is_digit(digits[i])) && digits_value(digits) <= max {
        Some(digits_value(digits))
    } else {
        None
    }
}

/// A row of digits stands for no less than any of its beginnings.
proof fn lemma_digits_value_grows(s: Seq<char>, i: int)
    requires
        0 <= i <= s.len(),
    ensures
        digits_value(s.take(i)) <= digits_value(s),
    decreases s.len(),
{
    if i == s.len() {
        assert(s.take(i) =~= s);
    } else {
        lemma_digits_value_grows(s.drop_last(), i);
        assert(s.drop_last().take(i) =~= s.take(i));
    }
}

/// The number that the text writes, if it fits in 64 bits.
pub fn parse_u64(s: &str) -> (r: Option<u64>)
    ensures
        r matches Some(n) ==> number_up_to(s@, u64::MAX as nat) == Some(n as nat),
        r is None ==> number_up_to(s@, u64::MAX as nat) is None,
{
    let chars: Vec<char> = chars_of(s);
    let mut start: usize = 0;
    if chars.len() > 0 && chars[0] == '+' {
        start = 1;
    }
    let ghost digits = unsigned_part(s@);
    assert(digits =~= s@.skip(start as int));
    if start == chars.len() {
        return None;
    }
    let mut value: u64 = 0;
    let mut i: usize = start;
    while i < chars.len()
        invariant
            start <= i <= chars.len(),
            chars@ == s@,
            digits == unsigned_part(s@),
            digits == s@.skip(start as int),
            value == digits_value(digits.take(i - start)),
            forall|j: int| 0 <= j < i - start ==> #[trigger] is_digit(digits[j]),
        decreases chars.len() - i,
    {
        let c = chars[i];
        assert(digits[i - start] == c);
        assert(digits.take(i + 1 - start).drop_last() =~= digits.take(i - start));
        proof {
            lemma_digits_value_grows(digits, i + 1 - start);
        }
        if !('0' <= c && c <= '9') {
            assert(!is_digit(digits[i - start]));
            return None;
        }
        let d: u64 = (c as u64) - 48;
        if value > (u64::MAX - d) / 10 {
            assert(value * 10 + d > u64::MAX);
            return None;
        }
        value = value * 10 + d;
        i = i + 1;
    }
    assert(digits.take(i - start) =~= digits);
    Some(value)
}

/// The number that the text writes, if it fits in 16 bits.
pub fn parse_u16(s: &str) -> (r: Option<u16>)
    ensures
        r matches Some(n) ==> number_up_to(s@, u16::MAX as nat) == Some(n as nat),
        r is None ==> number_up_to(s@, u16::MAX as nat) is None,
{
    match parse_u64(s) {
        Some(n) => {
            if n <= 0xffff {
                Some(n as u16)
            } else {
                None
            }
        },
        None => None,
    }
}

/// The digit for a number below ten.
pub open spec fn digit_char(d: nat) -> char {
    ('0' as nat + d) as char
}

/// `n` in decimal digits, without leading zeros.
pub open spec fn decimal(n: nat) -> Seq<char>
    decreases n,
{
    if n < 10 {
        seq![digit_char(n)]
    } else {
        decimal(n / 10).push(digit_char(n % 10))
    }
}

/// `n` in decimal digits.
pub fn decimal_text(n: u64) -> (r: String)
    ensures
        r@ == decimal(n as nat),
    decreases n,
{
    let last = (48 + (n % 10) as u8) as char;
    if n < 10 {
        let mut r: String = String::new();
        r.push(last);
        assert(r@ =~= decimal(n as nat));
        r
    } else {
        let mut r: String = decimal_text(n / 10);
        r.push(last);
        r
    }
}

/// Reading a decimal numeral gives back the number it was written from.
pub proof fn law_decimal_reads_back(n: nat, max: nat)
    requires
        n <= max,
    ensures
        number_up_to(decimal(n), max) == Some(n),
{
    lemma_decimal_digits(n);
    assert(is_digit(decimal(n)[0]));
}

/// Two numbers with the same numeral are the same number.
pub proof fn law_decimal_injective(m: nat, n: nat)
    requires
        decimal(m) == decimal(n),
    ensures
        m == n,
{
    lemma_decimal_digits(m);
    lemma_decimal_digits(n);
}

/// A numeral is digits only.
pub proof fn lemma_decimal_shape(n: nat)
    ensures
        decimal(n).len() > 0,
        forall|i: int| 0 <= i < decimal(n).len() ==> '0' <= #[trigger] decimal(n)[i] <= '9',
{
    lemma_decimal_digits(n);
    assert forall|i: int| 0 <= i < decimal(n).len() implies '0' <= #[trigger] decimal(n)[i] <= '9' by {
        assert(is_digit(decimal(n)[i]));
    }
}

/// Trimming leaves a text alone that has no white space.
pub proof fn lemma_trimmed_fixed(s: Seq<char>)
    requires
        forall|i: int| 0 <= i < s.len() ==> !whitespace(#[trigger] s[i]),
    ensures
        trimmed(s) == s,
{
}

/// Lower case leaves a text alone that has no capitals.
pub proof fn lemma_lowered_fixed(s: Seq<char>)
    requires
        forall|i: int| 0 <= i < s.len() ==> lower(#[trigger] s[i]) == s[i],
    ensures
        lowered(s) == s,
{
    assert(lowered(s) =~= s);
}

proof fn lemma_decimal_digits(n: nat)
    ensures
        decimal(n).len() > 0,
        forall|i: int| 0 <= i < decimal(n).len() ==> #[trigger] is_digit(decimal(n)[i]),
        digits_value(decimal(n)) == n,
    decreases n,
{
    if n < 10 {
        reveal_with_fuel(digits_value, 2);
        assert(decimal(n).drop_last() =~= Seq::<char>::empty());
        assert(decimal(n).last() == digit_char(n));
    } else {
        lemma_decimal_digits(n / 10);
        assert(decimal(n).drop_last() =~= decimal(n / 10));
    }
}

/// The characters that count as white space, by their code points.
pub proof fn law_white_space(c: char)
    ensures
        whitespace(c) <==> ({
            let code = c as int;
            9 <= code <= 13 || code == 32 || code == 133 || code == 160 || code == 5760 || 8192
                <= code <= 8202 || code == 8232 || code == 8233 || code == 8239 || code == 8287
                || code == 12288
        }),
{
}

/// Trimming takes the white space off both ends of a text, all of it, and nothing else: what is
/// left of a text between two rows of white space is the text.
pub proof fn law_trimming(lead: Seq<char>, s: Seq<char>, tail: Seq<char>)
    requires
        forall|i: int| 0 <= i < lead.len() ==> whitespace(#[trigger] lead[i]),
        forall|i: int| 0 <= i < tail.len() ==> whitespace(#[trigger] tail[i]),
        s.len() > 0 ==> !whitespace(s.first()) && !whitespace(s.last()),
    ensures
        trimmed(lead + s + tail) == s,
{
    if s.len() == 0 {
        assert(lead + s + tail =~= (lead + tail) + Seq::<char>::empty());
        lemma_start_trimmed(lead + tail, Seq::empty());
    } else {
        assert(lead + s + tail =~= lead + (s + tail));
        assert((s + tail).first() == s.first());
        lemma_start_trimmed(lead, s + tail);
        lemma_end_trimmed(s, tail);
    }
}

proof fn lemma_start_trimmed(lead: Seq<char>, s: Seq<char>)
    requires
        forall|i: int| 0 <= i < lead.len() ==> whitespace(#[trigger] lead[i]),
        s.len() > 0 ==> !whitespace(s.first()),
    ensures
        trimmed_start(lead + s) == s,
    decreases lead.len(),
{
    if lead.len() == 0 {
        assert(lead + s =~= s);
    } else {
        assert((lead + s).first() == lead[0]);
        assert((lead + s).drop_first() =~= lead.drop_first() + s);
        assert forall|i: int| 0 <= i < lead.drop_first().len() implies whitespace(
            #[trigger] lead.drop_first()[i],
        ) by {
            assert(lead.drop_first()[i] == lead[i + 1]);
        }
        lemma_start_trimmed(lead.drop_first(), s);
    }
}

proof fn lemma_end_trimmed(s: Seq<char>, tail: Seq<char>)
    requires
        forall|i: int| 0 <= i < tail.len() ==> whitespace(#[trigger] tail[i]),
        s.len() > 0 ==> !whitespace(s.last()),
    ensures
        trimmed_end(s + tail) == s,
    decreases tail.len(),
{
    if tail.len() == 0 {
        assert(s + tail =~= s);
    } else {
        assert((s + tail).last() == tail[tail.len() - 1]);
        assert((s + tail).drop_last() =~= s + tail.drop_last());
        lemma_end_trimmed(s, tail.drop_last());
    }
}

/// Lower case changes the 26 capital ASCII letters, each to its small letter, and no other
/// character: none of the capitals is left, and to do it again changes nothing.
pub proof fn law_lower_case(s: Seq<char>)
    ensures
        lowered(s).len() == s.len(),
        forall|i: int|
            #![trigger lowered(s)[i]]
            0 <= i < s.len() ==> lowered(s)[i] as int == if 65 <= s[i] as int <= 90 {
                s[i] as int + 32
            } else {
                s[i] as int
            },
        forall|i: int|
            0 <= i < s.len() ==> !(65 <= (#[trigger] lowered(s)[i]) as int && lowered(s)[i] as int
                <= 90),
        lowered(lowered(s)) == lowered(s),
{
    assert forall|i: int| 0 <= i < s.len() implies lower(#[trigger] lowered(s)[i])
        == lowered(s)[i] by {
        assert(lowered(s)[i] == lower(s[i]));
    }
    lemma_lowered_fixed(lowered(s));
}

/// Two texts that are the same up to the case of their ASCII letters, and only such, are the same
/// in lower case.
pub proof fn law_case_is_all_that_is_lost(a: Seq<char>, b: Seq<char>)
    ensures
        lowered(a) == lowered(b) <==> a.len() == b.len() && forall|i: int|
            #![trigger a[i]]
            0 <= i < a.len() ==> a[i] == b[i] || (65 <= a[i] as int <= 90 && b[i] as int
                == a[i] as int + 32) || (65 <= b[i] as int <= 90 && a[i] as int == b[i] as int
                + 32),
{
    law_lower_case(a);
    law_lower_case(b);
    let alike = a.len() == b.len() && forall|i: int|
        #![trigger a[i]]
        0 <= i < a.len() ==> a[i] == b[i] || (65 <= a[i] as int <= 90 && b[i] as int == a[i] as int
            + 32) || (65 <= b[i] as int <= 90 && a[i] as int == b[i] as int + 32);
    if lowered(a) == lowered(b) {
        assert forall|i: int| #![trigger a[i]] 0 <= i < a.len() implies a[i] == b[i] || (65
            <= a[i] as int <= 90 && b[i] as int == a[i] as int + 32) || (65 <= b[i] as int <= 90
            && a[i] as int == b[i] as int + 32) by {
            assert(lowered(a)[i] as int == lowered(b)[i] as int);
        }
    }
    if alike {
        assert forall|i: int| 0 <= i < a.len() implies lowered(a)[i] == lowered(b)[i] by {
            assert(a[i] == a[i]);
            assert(lowered(a)[i] as int == lowered(b)[i] as int);
        }
        assert(lowered(a) =~= lowered(b));
    }
}

/// Each text stands for its own characters, in the order of the list.
pub proof fn law_texts(v: Seq<String>)
    ensures
        texts(v).len() == v.len(),
        forall|i: int| 0 <= i < v.len() ==> #[trigger] texts(v)[i] == v[i]@,
{
}

/// A text without separators is one piece, and a separator parts what is before it from what is
/// behind it: the pieces of the two sides, one after the other, are the pieces of the whole.
pub proof fn law_pieces(x: Seq<char>, y: Seq<char>, sep: char)
    ensures
        !x.contains(sep) ==> pieces(x, sep) == seq![x],
        pieces(x + seq![sep] + y, sep) == pieces(x, sep) + pieces(y, sep),
{
    if !x.contains(sep) {
        lemma_one_piece(x, sep);
    }
    lemma_pieces_of_both(x, y, sep);
}

proof fn lemma_one_piece(x: Seq<char>, sep: char)
    requires
        !x.contains(sep),
    ensures
        pieces(x, sep) == seq![x],
    decreases x.len(),
{
    if x.len() == 0 {
        assert(x =~= Seq::empty());
    } else {
        let front = x.drop_last();
        assert(x.contains(x[x.len() - 1]));
        if front.contains(sep) {
            let i = choose|i: int| 0 <= i < front.len() && front[i] == sep;
            assert(x[i] == sep);
        }
        lemma_one_piece(front, sep);
        assert(front.push(x.last()) =~= x);
        assert(pieces(x, sep) =~= seq![x]);
    }
}

proof fn lemma_pieces_of_both(x: Seq<char>, y: Seq<char>, sep: char)
    ensures
        pieces(y, sep).len() > 0,
        pieces(x + seq![sep] + y, sep) == pieces(x, sep) + pieces(y, sep),
    decreases y.len(),
{
    let all = x + seq![sep] + y;
    if y.len() == 0 {
        assert(all.drop_last() =~= x);
        assert(all.last() == sep);
        assert(pieces(y, sep) =~= seq![Seq::<char>::empty()]);
        assert(pieces(all, sep) =~= pieces(x, sep) + pieces(y, sep));
    } else {
        let front = y.drop_last();
        lemma_pieces_of_both(x, front, sep);
        assert(all.drop_last() =~= x + seq![sep] + front);
        assert(all.last() == y.last());
        let before = pieces(x, sep) + pieces(front, sep);
        assert(before.last() == pieces(front, sep).last());
        assert(before.drop_last() =~= pieces(x, sep) + pieces(front, sep).drop_last());
        assert(pieces(all, sep) =~= pieces(x, sep) + pieces(y, sep));
    }
}

/// A text begins with its first characters, however many, and with nothing else.
pub proof fn law_begins_with(s: Seq<char>, lead: Seq<char>, rest: Seq<char>)
    ensures
        begins_with(lead + rest, lead),
        begins_with(s, lead) <==> lead.len() <= s.len() && forall|i: int|
            0 <= i < lead.len() ==> s[i] == #[trigger] lead[i],
{
    assert((lead + rest).subrange(0, lead.len() as int) =~= lead);
    if begins_with(s, lead) {
        assert forall|i: int| 0 <= i < lead.len() implies s[i] == #[trigger] lead[i] by {
            assert(s.subrange(0, lead.len() as int)[i] == lead[i]);
        }
    }
    if lead.len() <= s.len() && forall|i: int| 0 <= i < lead.len() ==> s[i] == #[trigger] lead[i] {
        assert(s.subrange(0, lead.len() as int) =~= lead);
    }
}

/// A part of a text is found wherever it stands, and what is found stands there.
pub proof fn law_parts(s: Seq<char>, part: Seq<char>, before: Seq<char>, behind: Seq<char>)
    ensures
        has_part(before + part + behind, part),
        has_part(s, part) ==> exists|a: Seq<char>, b: Seq<char>| s == #[trigger] (a + part + b),
{
    let whole = before + part + behind;
    assert(whole.subrange(before.len() as int, (before.len() + part.len()) as int) =~= part);
    assert(part_at(whole, part, before.len() as int));
    if has_part(s, part) {
        let i = choose|i: int| #[trigger] part_at(s, part, i);
        let a = s.take(i);
        let b = s.skip(i + part.len());
        assert forall|j: int| 0 <= j < s.len() implies s[j] == (a + part + b)[j] by {
            if i <= j < i + part.len() {
                assert(s.subrange(i, i + part.len())[j - i] == part[j - i]);
            }
        }
        assert(s =~= a + part + b);
    }
}

/// A number is read digit by digit: one digit stands for itself, each further one for ten times
/// what came before it and itself, and whatever is not a digit, or leads past the limit, makes
/// the text no number.
pub proof fn law_numbers_are_read_digit_by_digit(s: Seq<char>, c: char, max: nat)
    ensures
        number_up_to(Seq::empty(), max) is None,
        number_up_to(seq![c], max) == if 48 <= c as int <= 57 && c as int - 48 <= max {
            Some((c as int - 48) as nat)
        } else {
            None
        },
        s.len() > 0 && s != seq!['+'] ==> number_up_to(s.push(c), max) == match number_up_to(
            s,
            max,
        ) {
            Some(n) => if 48 <= c as int <= 57 && 10 * n + (c as int - 48) <= max {
                Some((10 * n + (c as int - 48)) as nat)
            } else {
                None
            },
            None => None,
        },
{
    reveal_with_fuel(digits_value, 2);
    let one = seq![c];
    assert(one.drop_last() =~= Seq::<char>::empty());
    if c == '+' {
        assert(unsigned_part(one) =~= Seq::<char>::empty());
    } else {
        assert(unsigned_part(one) =~= one);
        assert(is_digit(one[0]) ==> forall|i: int|
            0 <= i < one.len() ==> #[trigger] is_digit(one[i]));
    }
    if s.len() > 0 && s != seq!['+'] {
        let digits = unsigned_part(s);
        let more = unsigned_part(s.push(c));
        assert(s.push(c).first() == s.first());
        assert(more =~= digits.push(c));
        if s.first() == '+' && s.len() == 1 {
            assert(s =~= seq!['+']);
        }
        assert(digits.len() > 0);
        assert(more.drop_last() =~= digits);
        assert(more.last() == c);
        assert forall|i: int| 0 <= i < digits.len() implies #[trigger] is_digit(digits[i])
            == is_digit(more[i]) by {}
        if forall|i: int| 0 <= i < more.len() ==> #[trigger] is_digit(more[i]) {
            assert(is_digit(more[digits.len() as int]));
            assert forall|i: int| 0 <= i < digits.len() implies #[trigger] is_digit(
                digits[i],
            ) by {
                assert(is_digit(more[i]));
            }
        }
    }
}

/// One plus sign in front of a number does not count; a second one makes the text no number.
pub proof fn law_one_plus_sign(s: Seq<char>, max: nat)
    ensures
        number_up_to(seq!['+'] + s, max) == if s.len() > 0 && s.first() == '+' {
            None
        } else {
            number_up_to(s, max)
        },
{
    assert(unsigned_part(seq!['+'] + s) =~= s);
    if s.len() > 0 && s.first() == '+' {
        assert(!is_digit(s[0]));
    }
}

/// A numeral has no zero in front but that of zero itself.
pub proof fn law_no_leading_zero(n: nat)
    ensures
        decimal(n)[0] == '0' <==> n == 0,
        n == 0 ==> decimal(n) == seq!['0'],
    decreases n,
{
    lemma_decimal_digits(n / 10);
    if n >= 10 {
        law_no_leading_zero(n / 10);
        assert(decimal(n)[0] == decimal(n / 10)[0]);
    }
}

/// The first place of a character is the one that holds it with none before it, and the last
/// place the one that holds it with none behind it.
pub proof fn law_first_and_last(before: Seq<char>, behind: Seq<char>, c: char)
    ensures
        !before.contains(c) ==> first_of(before + seq![c] + behind, c) == before.len(),
        !behind.contains(c) ==> last_of(before + seq![c] + behind, c) == before.len(),
        !before.contains(c) ==> first_of(before, c) == before.len() && last_of(before, c) == -1,
{
    let whole = before + seq![c] + behind;
    let n = before.len() as int;
    if !before.contains(c) {
        assert forall|j: int| 0 <= j < n implies whole[j] != c && before[j] != c by {
            assert(before.contains(before[j]));
        }
        lemma_first_of(whole, c, n);
        lemma_first_of(before, c, n);
        lemma_last_of(before, c, -1);
    }
    if !behind.contains(c) {
        assert forall|j: int| n < j < whole.len() implies whole[j] != c by {
            assert(whole[j] == behind[j - n - 1]);
            assert(behind.contains(behind[j - n - 1]));
        }
        lemma_last_of(whole, c, n);
    }
}

/// A text in lower case has no capital ASCII letter left, and is otherwise the text.
pub proof fn law_no_capital_is_left(s: &str, r: String)
    requires
        call_ensures(to_ascii_lowercase, (s,), r),
    ensures
        r@.len() == s@.len(),
        forall|i: int|
            0 <= i < r@.len() ==> !(65 <= (#[trigger] r@[i]) as int && r@[i] as int <= 90),
        forall|i: int|
            0 <= i < r@.len() && !(65 <= s@[i] as int && s@[i] as int <= 90) ==> #[trigger] r@[i]
                == s@[i],
        forall|i: int|
            0 <= i < r@.len() && 65 <= s@[i] as int && s@[i] as int <= 90 ==> (
            #[trigger] r@[i]) as int == s@[i] as int + 32,
{
    law_lower_case(s@);
}

/// A text that is written from a number is read as that number, where it fits.
pub proof fn law_a_written_number_is_read(
    n: u64,
    written: String,
    s: &str,
    read: Option<u64>,
    short: Option<u16>,
)
    requires
        call_ensures(decimal_text, (n,), written),
        s@ == written@,
        call_ensures(parse_u64, (s,), read),
        call_ensures(parse_u16, (s,), short),
    ensures
        read == Some(n),
        n <= 0xffff ==> short == Some(n as u16),
        n > 0xffff ==> short is None,
{
    law_decimal_reads_back(n as nat, u64::MAX as nat);
    if n <= 0xffff {
        law_decimal_reads_back(n as nat, u16::MAX as nat);
    } else {
        lemma_decimal_digits(n as nat);
        assert(unsigned_part(s@) == s@) by {
            assert(is_digit(s@[0]));
        }
    }
}

/// Two texts are the same exactly where they have the same characters, and a list has a text exactly
/// where one of its entries is the same.
pub proof fn law_sameness_of_texts(
    a: &str,
    b: &str,
    same: bool,
    turned: bool,
    entries: Vec<String>,
    has: bool,
)
    requires
        call_ensures(same_text, (a, b), same),
        call_ensures(same_text, (b, a), turned),
        call_ensures(lists, (&entries, a), has),
    ensures
        same == turned,
        same <==> a@.len() == b@.len() && forall|i: int|
            0 <= i < a@.len() ==> #[trigger] a@[i] == b@[i],
        has <==> exists|i: int| 0 <= i < entries@.len() && (#[trigger] entries@[i])@ == a@,
{
    assert(same <==> a@ =~= b@);
    let all = texts(entries@);
    if has {
        let i = choose|i: int| 0 <= i < all.len() && all[i] == a@;
        assert(entries@[i]@ == a@);
    }
    if exists|i: int| 0 <= i < entries@.len() && (#[trigger] entries@[i])@ == a@ {
        let i = choose|i: int| 0 <= i < entries@.len() && (#[trigger] entries@[i])@ == a@;
        assert(all[i] == a@);
    }
}

} // verus!
