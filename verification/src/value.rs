//! The typed database cell model and the shared value renderer: every cell
//! that reaches the display goes through `render`, which never fails and
//! reports whether the slot held a null.

use vstd::prelude::*;
use crate::numfmt::{
    dec2, dec4, dec_rep, int_rep, i64_string, u64_string, two_digit_string, four_digit_string,
};
use crate::style::{style_null, style_value};
use crate::text::{lossy_decoded, decode_lossy};

verus! {

/// One typed database value. Exactly one variant is active. Textual values
/// carry raw bytes, which may not be valid text and are decoded leniently.
/// Floating-point values carry the canonical text of the number, produced
/// at the boundary that received them, since this library holds no floats.
pub enum CellValue {
    Null,
    Text(Vec<u8>),
    Int(i64),
    UInt(u64),
    Float(String),
    Double(String),
    DateTime { year: u16, month: u8, day: u8, hour: u8, minute: u8, second: u8, micros: u32 },
    Duration { negative: bool, days: u32, hours: u8, minutes: u8, seconds: u8, micros: u32 },
}

/// One positional entry of a result row: a value, a slot the executor left
/// empty, or a slot whose value failed to decode.
pub enum CellSlot {
    Present(CellValue),
    Missing,
    Errored,
}

/// The fixed `YYYY-MM-DD HH:MM:SS` form of a date-time; the sub-second
/// component is intentionally dropped.
pub open spec fn datetime_rep(
    year: nat,
    month: nat,
    day: nat,
    hour: nat,
    minute: nat,
    second: nat,
) -> Seq<char> {
    dec4(year) + seq!['-'] + dec2(month) + seq!['-'] + dec2(day) + seq![' '] + dec2(hour)
        + seq![':'] + dec2(minute) + seq![':'] + dec2(second)
}

/// The `[-]D.HH:MM:SS` form of a duration: unpadded day count, sign prefix
/// only when negative, sub-second component dropped.
pub open spec fn duration_rep(
    negative: bool,
    days: nat,
    hours: nat,
    minutes: nat,
    seconds: nat,
) -> Seq<char> {
    (if negative {
        seq!['-']
    } else {
        Seq::<char>::empty()
    }) + dec_rep(days) + seq!['.'] + dec2(hours) + seq![':'] + dec2(minutes) + seq![':'] + dec2(
        seconds,
    )
}

/// The display text of one typed value.
pub open spec fn value_rendered(v: CellValue) -> Seq<char> {
    match v {
        CellValue::Null => seq!['N', 'U', 'L', 'L'],
        CellValue::Text(bytes) => lossy_decoded(bytes@),
        CellValue::Int(n) => int_rep(n as int),
        CellValue::UInt(n) => dec_rep(n as nat),
        CellValue::Float(text) => text@,
        CellValue::Double(text) => text@,
        CellValue::DateTime { year, month, day, hour, minute, second, .. } => datetime_rep(
            year as nat,
            month as nat,
            day as nat,
            hour as nat,
            minute as nat,
            second as nat,
        ),
        CellValue::Duration { negative, days, hours, minutes, seconds, .. } => duration_rep(
            negative,
            days as nat,
            hours as nat,
            minutes as nat,
            seconds as nat,
        ),
    }
}

/// The display text of one row slot: a missing slot renders as a null, an
/// errored slot as the literal `ERROR`.
pub open spec fn slot_rendered(s: CellSlot) -> Seq<char> {
    match s {
        CellSlot::Present(v) => value_rendered(v),
        CellSlot::Missing => seq!['N', 'U', 'L', 'L'],
        CellSlot::Errored => seq!['E', 'R', 'R', 'O', 'R'],
    }
}

/// Whether one row slot counts as null for display purposes: an explicit
/// null or a missing slot; a decode error does not.
pub open spec fn slot_is_null(s: CellSlot) -> bool {
    match s {
        CellSlot::Present(v) => v is Null,
        CellSlot::Missing => true,
        CellSlot::Errored => false,
    }
}

/// Law: the null flag is set exactly for an explicit null value or an
/// absent slot. A slot whose value failed to decode renders as the error
/// marker and does not count as null.
pub proof fn lemma_null_flag(s: CellSlot)
    ensures
        slot_is_null(s) <==> (s matches CellSlot::Present(v) && v is Null) || s is Missing,
{
}

fn render_datetime(year: u16, month: u8, day: u8, hour: u8, minute: u8, second: u8) -> (r: String)
    ensures
        r@ == datetime_rep(
            year as nat,
            month as nat,
            day as nat,
            hour as nat,
            minute as nat,
            second as nat,
        ),
{
    let mut s = four_digit_string(year as u64);
    s.append("-");
    let part = two_digit_string(month as u64);
    s.append(part.as_str());
    s.append("-");
    let part = two_digit_string(day as u64);
    s.append(part.as_str());
    s.append(" ");
    let part = two_digit_string(hour as u64);
    s.append(part.as_str());
    s.append(":");
    let part = two_digit_string(minute as u64);
    s.append(part.as_str());
    s.append(":");
    let part = two_digit_string(second as u64);
    s.append(part.as_str());
    proof {
        reveal_strlit("-");
        reveal_strlit(" ");
        reveal_strlit(":");
        assert(s@ =~= datetime_rep(
            year as nat,
            month as nat,
            day as nat,
            hour as nat,
            minute as nat,
            second as nat,
        ));
    }
    s
}

fn render_duration(negative: bool, days: u32, hours: u8, minutes: u8, seconds: u8) -> (r: String)
    ensures
        r@ == duration_rep(negative, days as nat, hours as nat, minutes as nat, seconds as nat),
{
    let mut s = if negative {
        "-".to_owned()
    } else {
        String::new()
    };
    let part = u64_string(days as u64);
    s.append(part.as_str());
    s.append(".");
    let part = two_digit_string(hours as u64);
    s.append(part.as_str());
    s.append(":");
    let part = two_digit_string(minutes as u64);
    s.append(part.as_str());
    s.append(":");
    let part = two_digit_string(seconds as u64);
    s.append(part.as_str());
    proof {
        reveal_strlit("-");
        reveal_strlit(".");
        reveal_strlit(":");
        assert(s@ =~= duration_rep(
            negative,
            days as nat,
            hours as nat,
            minutes as nat,
            seconds as nat,
        ));
    }
    s
}

/// The unstyled display text of one row slot, and whether the slot counts
/// as null. Total: every variant, including malformed text bytes, yields a
/// string.
pub fn render_plain(slot: &CellSlot) -> (r: (String, bool))
    ensures
        r.0@ == slot_rendered(*slot),
        r.1 == slot_is_null(*slot),
{
    match slot {
        CellSlot::Missing => {
            let s = "NULL".to_owned();
            proof {
                reveal_strlit("NULL");
                assert(s@ =~= slot_rendered(*slot));
            }
            (s, true)
        },
        CellSlot::Errored => {
            let s = "ERROR".to_owned();
            proof {
                reveal_strlit("ERROR");
                assert(s@ =~= slot_rendered(*slot));
            }
            (s, false)
        },
        CellSlot::Present(v) => match v {
            CellValue::Null => {
                let s = "NULL".to_owned();
                proof {
                    reveal_strlit("NULL");
                    assert(s@ =~= slot_rendered(*slot));
                }
                (s, true)
            },
            CellValue::Text(bytes) => (decode_lossy(bytes), false),
            CellValue::Int(n) => (i64_string(*n), false),
            CellValue::UInt(n) => (u64_string(*n), false),
            CellValue::Float(text) => (text.clone(), false),
            CellValue::Double(text) => (text.clone(), false),
            CellValue::DateTime { year, month, day, hour, minute, second, .. } => (
                render_datetime(*year, *month, *day, *hour, *minute, *second),
                false,
            ),
            CellValue::Duration { negative, days, hours, minutes, seconds, .. } => (
                render_duration(*negative, *days, *hours, *minutes, *seconds),
                false,
            ),
        },
    }
}

/// The display text of one row slot with styling applied when colors are
/// on: nulls and values each get their fixed accent. Styling never changes
/// the null flag and never shortens the text, and the unstyled form is the
/// one every width computation uses.
pub fn render(slot: &CellSlot, color_enabled: bool) -> (r: (String, bool))
    ensures
        r.1 == slot_is_null(*slot),
        !color_enabled ==> r.0@ == slot_rendered(*slot),
        r.0@.len() >= slot_rendered(*slot).len(),
{
    let (plain, is_null) = render_plain(slot);
    if is_null {
        (style_null(plain, color_enabled), is_null)
    } else {
        (style_value(plain, color_enabled), is_null)
    }
}

} // verus!
