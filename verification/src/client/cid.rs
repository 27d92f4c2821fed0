//! CIDs as a page writes them: decimal numerals.

use crate::text;
use crate::text::chars_of;
use vstd::prelude::*;
use vstd::string::StringExecFns;

verus! {

/// What is wrong with a numeral.
#[derive(Debug, Clone, Copy, PartialEq, Eq, Structural)]
pub enum NumberFault {
    /// There is nothing.
    Empty,
    /// Something in it is not a digit.
    InvalidDigit,
    /// It is larger than 64 bits hold.
    TooLarge,
}

/// What is wrong with a row of digits, read from the left: the first character at which it goes
/// wrong tells.
pub open spec fn row_fault(digits: Seq<char>) -> Option<NumberFault>
    decreases digits.len(),
{
    if digits.len() == 0 {
        None
    } else {
        match row_fault(digits.drop_last()) {
            Some(fault) => Some(fault),
            None => if !text::is_digit(digits.last()) {
                Some(NumberFault::InvalidDigit)
            } else if text::digits_value(digits) > u64::MAX {
                Some(NumberFault::TooLarge)
            } else {
                None
            },
        }
    }
}

/// The number that a numeral stands for, or what is wrong with it. One plus sign may lead it, and
/// a sign alone is no number.
pub open spec fn number(s: Seq<char>) -> Result<nat, NumberFault> {
    let digits = text::unsigned_part(s);
    if s.len() == 0 {
        Err(NumberFault::Empty)
    } else if digits.len() == 0 {
        Err(NumberFault::InvalidDigit)
    } else {
        match row_fault(digits) {
            Some(fault) => Err(fault),
            None => Ok(text::digits_value(digits)),
        }
    }
}

proof fn lemma_fault_stays(digits: Seq<char>, i: int)
    requires
        0 <= i <= digits.len(),
        row_fault(digits.take(i)) is Some,
    ensures
        row_fault(digits) == row_fault(digits.take(i)),
    decreases digits.len() - i,
{
    if i < digits.len() {
        assert(digits.take(i + 1).drop_last() =~= digits.take(i));
        lemma_fault_stays(digits, i + 1);
    } else {
        assert(digits.take(i) =~= digits);
    }
}

/// The number that a numeral stands for, or what is wrong with it.
pub fn read_number(s: &str) -> (r: Result<u64, NumberFault>)
    ensures
        match r {
            Ok(n) => number(s@) == Ok::<nat, NumberFault>(n as nat),
            Err(fault) => number(s@) == Err::<nat, NumberFault>(fault),
        },
{
    let chars: Vec<char> = chars_of(s);
    if chars.len() == 0 {
        return Err(NumberFault::Empty);
    }
    let mut start: usize = 0;
    if chars[0] == '+' {
        start = 1;
    }
    let ghost digits = text::unsigned_part(s@);
    assert(digits =~= s@.skip(start as int));
    if start == chars.len() {
        return Err(NumberFault::InvalidDigit);
    }
    let mut value: u64 = 0;
    let mut i: usize = start;
    while i < chars.len()
        invariant
            start <= i <= chars.len(),
            start < chars.len(),
            chars@ == s@,
            digits == text::unsigned_part(s@),
            digits == s@.skip(start as int),
            value == text::digits_value(digits.take(i - start)),
            row_fault(digits.take(i - start)) is None,
        decreases chars.len() - i,
    {
        let c = chars[i];
        let ghost now = digits.take(i + 1 - start);
        assert(now.last() == c);
        assert(now.drop_last() =~= digits.take(i - start));
        if !('0' <= c && c <= '9') {
            proof {
                lemma_fault_stays(digits, i + 1 - start);
            }
            return Err(NumberFault::InvalidDigit);
        }
        let d: u64 = (c as u64) - 48;
        if value > (u64::MAX - d) / 10 {
            assert(value * 10 + d > u64::MAX);
            proof {
                lemma_fault_stays(digits, i + 1 - start);
            }
            return Err(NumberFault::TooLarge);
        }
        value = value * 10 + d;
        i = i + 1;
    }
    assert(digits.take(i - start) =~= digits);
    Ok(value)
}

/// What a fault says.
pub open spec fn fault_text(fault: NumberFault) -> Seq<char> {
    match fault {
        NumberFault::Empty => "cannot parse integer from empty string"@,
        NumberFault::InvalidDigit => "invalid digit found in string"@,
        NumberFault::TooLarge => "number too large to fit in target type"@,
    }
}

/// A CID that a page has written. `what` says which, for the error.
pub fn parse_cid(s: &str, what: &str) -> (r: Result<u64, String>)
    ensures
        match number(s@) {
            Ok(n) => r matches Ok(cid) && cid == n,
            Err(fault) => r matches Err(problem) && problem@ == "Invalid "@ + what@ + " format: "@
                + fault_text(fault),
        },
{
    match read_number(s) {
        Ok(cid) => Ok(cid),
        Err(fault) => {
            let said = match fault {
                NumberFault::Empty => "cannot parse integer from empty string",
                NumberFault::InvalidDigit => "invalid digit found in string",
                NumberFault::TooLarge => "number too large to fit in target type",
            };
            Err("Invalid ".to_owned().concat(what).concat(" format: ").concat(said))
        },
    }
}

/// Every CID reads back from its numeral.
pub proof fn law_cid_reads_back(cid: u64)
    ensures
        number(text::decimal(cid as nat)) == Ok::<nat, NumberFault>(cid as nat),
{
    let s = text::decimal(cid as nat);
    text::lemma_decimal_shape(cid as nat);
    text::law_decimal_reads_back(cid as nat, u64::MAX as nat);
    assert(text::unsigned_part(s) == s) by {
        assert('0' <= s[0] <= '9');
    }
    lemma_clean_row(s);
}

proof fn lemma_clean_row(digits: Seq<char>)
    requires
        forall|i: int| 0 <= i < digits.len() ==> '0' <= #[trigger] digits[i] <= '9',
        text::digits_value(digits) <= u64::MAX,
    ensures
        row_fault(digits) is None,
    decreases digits.len(),
{
    if digits.len() > 0 {
        assert('0' <= digits[digits.len() - 1] <= '9');
        lemma_clean_row(digits.drop_last());
    }
}

/// A numeral is read digit by digit: one digit stands for itself, each further one for ten times
/// what came before it and itself. The first character at which it goes wrong tells what is wrong,
/// whatever follows it.
pub proof fn law_numerals_are_read_digit_by_digit(s: Seq<char>, c: char)
    ensures
        number(Seq::empty()) == Err::<nat, NumberFault>(NumberFault::Empty),
        number(seq![c]) == if 48 <= c as int <= 57 {
            Ok::<nat, NumberFault>((c as int - 48) as nat)
        } else {
            Err::<nat, NumberFault>(NumberFault::InvalidDigit)
        },
        number(seq!['+', c]) == number(seq![c]),
        s.len() > 0 && s != seq!['+'] ==> number(s.push(c)) == match number(s) {
            Ok(n) => if !(48 <= c as int <= 57) {
                Err::<nat, NumberFault>(NumberFault::InvalidDigit)
            } else if 10 * n + (c as int - 48) > 18_446_744_073_709_551_615 {
                Err::<nat, NumberFault>(NumberFault::TooLarge)
            } else {
                Ok::<nat, NumberFault>((10 * n + (c as int - 48)) as nat)
            },
            Err(fault) => Err::<nat, NumberFault>(fault),
        },
{
    reveal_with_fuel(row_fault, 2);
    reveal_with_fuel(text::digits_value, 2);
    let one = seq![c];
    let signed = seq!['+', c];
    assert(one.drop_last() =~= Seq::<char>::empty());
    assert(one.last() == c);
    assert(text::unsigned_part(signed) =~= one);
    if c == '+' {
        assert(text::unsigned_part(one) =~= Seq::<char>::empty());
    }
    if s.len() > 0 && s != seq!['+'] {
        let digits = text::unsigned_part(s);
        let more = text::unsigned_part(s.push(c));
        assert(s.push(c).first() == s.first());
        assert(more =~= digits.push(c));
        if s.first() == '+' && s.len() == 1 {
            assert(s =~= seq!['+']);
        }
        assert(digits.len() > 0);
        assert(more.drop_last() =~= digits);
        assert(more.last() == c);
    }
}

/// What each fault says.
pub proof fn law_what_a_fault_says(fault: NumberFault)
    ensures
        match fault {
            NumberFault::Empty => fault_text(fault) == "cannot parse integer from empty string"@,
            NumberFault::InvalidDigit => fault_text(fault) == "invalid digit found in string"@,
            NumberFault::TooLarge => fault_text(fault)
                == "number too large to fit in target type"@,
        },
{
}

/// Every CID is read from its own numeral, with or without a plus sign in front.
pub proof fn law_a_written_cid_is_read(
    cid: u64,
    written: &str,
    signed: &str,
    what: &str,
    read: Result<u64, String>,
    read_signed: Result<u64, String>,
)
    requires
        written@ == text::decimal(cid as nat),
        signed@ == seq!['+'] + text::decimal(cid as nat),
        call_ensures(parse_cid, (written, what), read),
        call_ensures(parse_cid, (signed, what), read_signed),
    ensures
        read matches Ok(n) && n == cid,
        read_signed matches Ok(n) && n == cid,
{
    law_cid_reads_back(cid);
    let s = text::decimal(cid as nat);
    text::lemma_decimal_shape(cid as nat);
    assert('0' <= s[0] <= '9');
    assert(text::unsigned_part(signed@) =~= s);
}

/// A number that was read fits in 64 bits.
pub proof fn lemma_number_fits(s: Seq<char>)
    ensures
        number(s) matches Ok(n) ==> n <= u64::MAX,
{
    let digits = text::unsigned_part(s);
    if digits.len() > 0 && row_fault(digits) is None {
        assert(text::digits_value(digits) <= u64::MAX);
    }
}

} // verus!
