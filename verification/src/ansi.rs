//! The escape-sequence backend: every request is a run of bytes for the
//! output stream, and the terminal's size is read from the report that the
//! terminal sends back.

use vstd::prelude::*;
use crate::clear_type::ClearType;
use crate::decimal::{decimal, decimal_denotes, is_digit, is_numeral, numeral_u16, numeral_value,
    parse_numeral, push_decimal};

verus! {

/// The two bytes that introduce a control sequence: escape and `[`.
pub open spec fn csi() -> Seq<u8> {
    seq![0x1bu8, 0x5bu8]
}

/// The erase sequence that belongs to a clear type.
pub open spec fn clear_sequence(clear_type: ClearType) -> Seq<u8> {
    match clear_type {
        ClearType::All => csi() + seq![0x32u8, 0x4au8],
        ClearType::FromCursorDown => csi() + seq![0x4au8],
        ClearType::FromCursorUp => csi() + seq![0x31u8, 0x4au8],
        ClearType::CurrentLine => csi() + seq![0x32u8, 0x4bu8],
        ClearType::UntilNewLine => csi() + seq![0x4bu8],
    }
}

/// The sequence that scrolls by `lines` lines; `direction` is `S` for up and
/// `T` for down.
pub open spec fn scroll_sequence(lines: nat, direction: u8) -> Seq<u8> {
    csi() + decimal(lines) + seq![direction]
}

/// What scrolling up by `count` writes: a scroll up for a positive count, a
/// scroll down by as much for a negative one, nothing for zero.
pub open spec fn scroll_up_sequence(count: i16) -> Seq<u8> {
    if count > 0 {
        scroll_sequence(count as nat, 0x53u8)
    } else if count < 0 {
        scroll_sequence((-count) as nat, 0x54u8)
    } else {
        Seq::empty()
    }
}

/// What scrolling down by `count` writes: a scroll down for a positive count,
/// a scroll up by as much for a negative one, nothing for zero.
pub open spec fn scroll_down_sequence(count: i16) -> Seq<u8> {
    if count > 0 {
        scroll_sequence(count as nat, 0x54u8)
    } else if count < 0 {
        scroll_sequence((-count) as nat, 0x53u8)
    } else {
        Seq::empty()
    }
}

/// The sequence that names a text area of `rows` rows and `cols` columns. A
/// terminal is asked to resize with it, and reports its size with it.
pub open spec fn size_report(rows: nat, cols: nat) -> Seq<u8> {
    csi() + seq![0x38u8, 0x3bu8] + decimal(rows) + seq![0x3bu8] + decimal(cols) + seq![0x74u8]
}

/// What a resize request writes: the size report of the wanted dimensions
/// where both are positive, nothing otherwise.
pub open spec fn resize_sequence(width: i16, height: i16) -> Seq<u8> {
    if width > 0 && height > 0 {
        size_report(height as nat, width as nat)
    } else {
        Seq::empty()
    }
}

/// The sequence that asks the terminal to report its size.
pub open spec fn size_query_sequence() -> Seq<u8> {
    csi() + seq![0x31u8, 0x38u8, 0x74u8]
}

/// Whether `reply` is a size report whose two numerals, each within sixteen
/// bits, are separated by the semicolon at index `cut`.
pub open spec fn splits_at(reply: Seq<u8>, cut: int) -> bool {
    &&& 4 <= cut <= reply.len() - 2
    &&& reply.subrange(0, 4) == csi() + seq![0x38u8, 0x3bu8]
    &&& reply[cut] == 0x3bu8
    &&& reply.last() == 0x74u8
    &&& numeral_u16(reply.subrange(4, cut)) is Some
    &&& numeral_u16(reply.subrange(cut + 1, reply.len() - 1)) is Some
}

/// The size that `reply` reports, as (columns, rows), if `reply` is a size
/// report.
pub open spec fn reported_size(reply: Seq<u8>) -> Option<(u16, u16)> {
    if exists|cut: int| splits_at(reply, cut) {
        let cut = choose|cut: int| splits_at(reply, cut);
        Some(
            (
                numeral_value(reply.subrange(cut + 1, reply.len() - 1)) as u16,
                numeral_value(reply.subrange(4, cut)) as u16,
            ),
        )
    } else {
        None
    }
}

/// The size that the backend reads from `reply`: the reported one, or (0, 0)
/// where `reply` is no size report.
pub open spec fn size_from_reply(reply: Seq<u8>) -> (u16, u16) {
    match reported_size(reply) {
        Some(size) => size,
        None => (0u16, 0u16),
    }
}

/// No two clear types share an erase sequence.
pub proof fn clear_sequences_differ(a: ClearType, b: ClearType)
    requires
        a != b,
    ensures
        clear_sequence(a) != clear_sequence(b),
{
    let x = clear_sequence(a);
    let y = clear_sequence(b);
    if x.len() == y.len() {
        assert(x[2] != y[2] || x[x.len() - 1] != y[y.len() - 1]);
    }
}

/// A size report can be split in one place only.
pub proof fn split_is_unique(reply: Seq<u8>, a: int, b: int)
    requires
        splits_at(reply, a),
        splits_at(reply, b),
    ensures
        a == b,
{
    if a < b {
        let left = reply.subrange(4, b);
        assert(is_digit(left[a - 4]));
    } else if b < a {
        let left = reply.subrange(4, a);
        assert(is_digit(left[b - 4]));
    }
}

/// A terminal that honours a resize request exactly reports its size with the
/// very bytes of the request, and reading that report gives the dimensions
/// that were asked for.
pub proof fn resize_then_size(width: i16, height: i16)
    requires
        width > 0,
        height > 0,
    ensures
        size_from_reply(resize_sequence(width, height)) == (width as u16, height as u16),
{
    let rows = decimal(height as nat);
    let cols = decimal(width as nat);
    let reply = resize_sequence(width, height);
    let cut: int = 4 + rows.len() as int;
    decimal_denotes(height as nat);
    decimal_denotes(width as nat);
    assert(reply.subrange(0, 4) =~= csi() + seq![0x38u8, 0x3bu8]);
    assert(reply.subrange(4, cut) =~= rows);
    assert(reply.subrange(cut + 1, reply.len() - 1) =~= cols);
    assert(splits_at(reply, cut));
    split_is_unique(reply, cut, choose|c: int| splits_at(reply, c));
}

/// The bytes that erase the region named by `clear_type`.
pub fn clear(clear_type: ClearType) -> (bytes: Vec<u8>)
    ensures
        bytes@ == clear_sequence(clear_type),
{
    let bytes = match clear_type {
        ClearType::All => vec![0x1bu8, 0x5bu8, 0x32u8, 0x4au8],
        ClearType::FromCursorDown => vec![0x1bu8, 0x5bu8, 0x4au8],
        ClearType::FromCursorUp => vec![0x1bu8, 0x5bu8, 0x31u8, 0x4au8],
        ClearType::CurrentLine => vec![0x1bu8, 0x5bu8, 0x32u8, 0x4bu8],
        ClearType::UntilNewLine => vec![0x1bu8, 0x5bu8, 0x4bu8],
    };
    assert(bytes@ =~= clear_sequence(clear_type));
    bytes
}

/// The scroll sequence for a count that is already a number of lines.
fn scroll(lines: u16, direction: u8) -> (bytes: Vec<u8>)
    ensures
        bytes@ == scroll_sequence(lines as nat, direction),
{
    let mut bytes: Vec<u8> = vec![0x1bu8, 0x5bu8];
    assert(bytes@ =~= csi());
    push_decimal(&mut bytes, lines);
    bytes.push(direction);
    assert(bytes@ =~= scroll_sequence(lines as nat, direction));
    bytes
}

/// How many lines a count stands for, whichever way it points.
fn magnitude(count: i16) -> (lines: u16)
    ensures
        count >= 0 ==> lines == count,
        count < 0 ==> lines == -count,
{
    if count >= 0 {
        count as u16
    } else {
        (-(count as i32)) as u16
    }
}

/// The bytes that scroll the window up by `count` lines. A negative count
/// scrolls down instead; for zero nothing is written.
pub fn scroll_up(count: i16) -> (bytes: Vec<u8>)
    ensures
        bytes@ == scroll_up_sequence(count),
{
    if count > 0 {
        scroll(magnitude(count), 0x53u8)
    } else if count < 0 {
        scroll(magnitude(count), 0x54u8)
    } else {
        Vec::new()
    }
}

/// The bytes that scroll the window down by `count` lines. A negative count
/// scrolls up instead; for zero nothing is written.
pub fn scroll_down(count: i16) -> (bytes: Vec<u8>)
    ensures
        bytes@ == scroll_down_sequence(count),
{
    if count > 0 {
        scroll(magnitude(count), 0x54u8)
    } else if count < 0 {
        scroll(magnitude(count), 0x53u8)
    } else {
        Vec::new()
    }
}

/// The bytes that ask the terminal for `width` columns and `height` rows.
/// Nothing is written unless both are positive.
pub fn set_size(width: i16, height: i16) -> (bytes: Vec<u8>)
    ensures
        bytes@ == resize_sequence(width, height),
{
    if width <= 0 || height <= 0 {
        return Vec::new();
    }
    let mut bytes: Vec<u8> = vec![0x1bu8, 0x5bu8, 0x38u8, 0x3bu8];
    assert(bytes@ =~= csi() + seq![0x38u8, 0x3bu8]);
    push_decimal(&mut bytes, height as u16);
    bytes.push(0x3bu8);
    push_decimal(&mut bytes, width as u16);
    bytes.push(0x74u8);
    assert(bytes@ =~= size_report(height as nat, width as nat));
    bytes
}

/// The bytes that ask the terminal to report its size.
pub fn size_query() -> (bytes: Vec<u8>)
    ensures
        bytes@ == size_query_sequence(),
{
    let bytes = vec![0x1bu8, 0x5bu8, 0x31u8, 0x38u8, 0x74u8];
    assert(bytes@ =~= size_query_sequence());
    bytes
}

/// Reads a size report: `Some` of (columns, rows) where `reply` is one, and
/// `None` where it is not.
pub fn parse_size_report(reply: &[u8]) -> (size: Option<(u16, u16)>)
    ensures
        size == reported_size(reply@),
{
    let len = reply.len();
    if len < 8 || reply[0] != 0x1bu8 || reply[1] != 0x5bu8 || reply[2] != 0x38u8 || reply[3]
        != 0x3bu8 || reply[len - 1] != 0x74u8 {
        proof {
            assert forall|c: int| !splits_at(reply@, c) by {
                if splits_at(reply@, c) {
                    let head = reply@.subrange(0, 4);
                    assert(head[0] == 0x1bu8 && head[1] == 0x5bu8 && head[2] == 0x38u8 && head[3]
                        == 0x3bu8);
                }
            }
        }
        return None;
    }
    assert(reply@.subrange(0, 4) =~= csi() + seq![0x38u8, 0x3bu8]);
    let mut cut: usize = 4;
    while cut < len - 1 && reply[cut] != 0x3bu8
        invariant
            4 <= cut <= len - 1,
            len == reply@.len(),
            forall|i: int| 4 <= i < cut ==> reply@[i] != 0x3bu8,
        decreases len - cut,
    {
        cut = cut + 1;
    }
    proof {
        assert forall|c: int| splits_at(reply@, c) implies c == cut by {
            if c > cut {
                let left = reply@.subrange(4, c);
                assert(is_digit(left[cut - 4]));
            }
        }
    }
    if cut >= len - 1 {
        return None;
    }
    let rows = parse_numeral(reply, 4, cut);
    let cols = parse_numeral(reply, cut + 1, len - 1);
    match (rows, cols) {
        (Some(rows), Some(cols)) => {
            assert(splits_at(reply@, cut as int));
            Some((cols, rows))
        },
        _ => None,
    }
}

/// The terminal's size as (columns, rows), read from its reply to the size
/// query; (0, 0) where the reply is no size report.
pub fn terminal_size(reply: &[u8]) -> (size: (u16, u16))
    ensures
        size == size_from_reply(reply@),
{
    match parse_size_report(reply) {
        Some(size) => size,
        None => (0, 0),
    }
}

} // verus!
