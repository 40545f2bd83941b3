//! Decimal numerals as they appear in control sequences: runs of ASCII digits.

use vstd::prelude::*;

verus! {

/// Whether `byte` is one of the ASCII digits `0` to `9`.
pub open spec fn is_digit(byte: u8) -> bool {
    0x30 <= byte <= 0x39
}

/// Whether `text` is a numeral: at least one byte, and digits only.
pub open spec fn is_numeral(text: Seq<u8>) -> bool {
    text.len() > 0 && forall|i: int| 0 <= i < text.len() ==> is_digit(#[trigger] text[i])
}

/// The number that a run of digits denotes, read in base ten.
pub open spec fn numeral_value(text: Seq<u8>) -> nat
    decreases text.len(),
{
    if text.len() == 0 {
        0
    } else {
        numeral_value(text.drop_last()) * 10 + (text.last() - 0x30) as nat
    }
}

/// The shortest numeral that denotes `n`.
pub open spec fn decimal(n: nat) -> Seq<u8>
    decreases n,
{
    if n < 10 {
        seq![(0x30 + n) as u8]
    } else {
        decimal(n / 10).push((0x30 + n % 10) as u8)
    }
}

/// The number that `text` denotes, if `text` is a numeral and the number fits
/// in sixteen bits.
pub open spec fn numeral_u16(text: Seq<u8>) -> Option<u16> {
    if is_numeral(text) && numeral_value(text) <= u16::MAX {
        Some(numeral_value(text) as u16)
    } else {
        None
    }
}

/// `decimal(n)` is a numeral, and it denotes `n`.
pub proof fn decimal_denotes(n: nat)
    ensures
        is_numeral(decimal(n)),
        numeral_value(decimal(n)) == n,
    decreases n,
{
    let text = decimal(n);
    if n < 10 {
        assert(text.drop_last() =~= Seq::<u8>::empty());
        assert(numeral_value(text.drop_last()) == 0);
    } else {
        decimal_denotes(n / 10);
        assert(text.drop_last() =~= decimal(n / 10));
        assert forall|i: int| 0 <= i < text.len() implies is_digit(#[trigger] text[i]) by {
            if i < text.len() - 1 {
                assert(text[i] == decimal(n / 10)[i]);
            }
        }
    }
}

/// A numeral denotes at least as much as any digits it starts with.
pub proof fn numeral_value_grows(text: Seq<u8>, k: int)
    requires
        0 <= k <= text.len(),
        forall|i: int| 0 <= i < text.len() ==> is_digit(#[trigger] text[i]),
    ensures
        numeral_value(text.subrange(0, k)) <= numeral_value(text),
    decreases text.len(),
{
    if k == text.len() {
        assert(text.subrange(0, k) =~= text);
    } else {
        numeral_value_grows(text.drop_last(), k);
        assert(text.drop_last().subrange(0, k) =~= text.subrange(0, k));
    }
}

/// Appends the shortest numeral that denotes `n`.
pub fn push_decimal(out: &mut Vec<u8>, n: u16)
    ensures
        final(out)@ == old(out)@ + decimal(n as nat),
    decreases n,
{
    if n >= 10 {
        push_decimal(out, n / 10);
    }
    let digit: u8 = (n % 10) as u8;
    out.push(0x30 + digit);
    assert(final(out)@ =~= old(out)@ + decimal(n as nat));
}

/// Reads the bytes of `text` from `start` up to `end` as a numeral.
///
/// The result is `None` when those bytes are empty, hold anything but digits,
/// or denote a number above 65535.
pub fn parse_numeral(text: &[u8], start: usize, end: usize) -> (value: Option<u16>)
    requires
        start <= end <= text@.len(),
    ensures
        value == numeral_u16(text@.subrange(start as int, end as int)),
{
    let ghost run = text@.subrange(start as int, end as int);
    if start == end {
        return None;
    }
    let mut total: u32 = 0;
    let mut at: usize = start;
    while at < end
        invariant
            start <= at <= end <= text@.len(),
            run == text@.subrange(start as int, end as int),
            forall|i: int| 0 <= i < at - start ==> is_digit(#[trigger] run[i]),
            total == numeral_value(run.subrange(0, at - start)),
            total <= u16::MAX,
        decreases end - at,
    {
        let byte: u8 = text[at];
        assert(byte == run[at - start]);
        if byte < 0x30 || byte > 0x39 {
            return None;
        }
        let ghost before = run.subrange(0, at - start);
        let ghost now = run.subrange(0, at - start + 1);
        assert(now.drop_last() =~= before);
        assert(now.last() == byte);
        total = total * 10 + (byte - 0x30) as u32;
        at = at + 1;
        if total > 0xffff {
            proof {
                if is_numeral(run) {
                    numeral_value_grows(run, at - start);
                }
            }
            return None;
        }
    }
    assert(run.subrange(0, at - start) =~= run);
    Some(total as u16)
}

} // verus!
