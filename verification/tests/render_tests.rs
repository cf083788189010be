use mysql_console::value::{CellSlot, CellValue, render, render_plain};

#[test]
fn null_renders_as_null() {
    let (s, is_null) = render(&CellSlot::Present(CellValue::Null), false);
    assert_eq!(s, "NULL");
    assert!(is_null);
}

#[test]
fn missing_slot_renders_as_null() {
    let (s, is_null) = render(&CellSlot::Missing, false);
    assert_eq!(s, "NULL");
    assert!(is_null);
}

#[test]
fn errored_slot_renders_as_error_not_null() {
    let (s, is_null) = render(&CellSlot::Errored, false);
    assert_eq!(s, "ERROR");
    assert!(!is_null);
}

#[test]
fn text_decodes_bytes() {
    let (s, is_null) = render(&CellSlot::Present(CellValue::Text(b"alice".to_vec())), false);
    assert_eq!(s, "alice");
    assert!(!is_null);
}

#[test]
fn malformed_text_decodes_leniently() {
    let (s, is_null) = render(&CellSlot::Present(CellValue::Text(vec![0xff, 0x61])), false);
    assert_eq!(s, "\u{FFFD}a");
    assert!(!is_null);
}

#[test]
fn signed_integers_render_in_base_ten() {
    let (s, _) = render(&CellSlot::Present(CellValue::Int(-123)), false);
    assert_eq!(s, "-123");
    let (s, _) = render(&CellSlot::Present(CellValue::Int(i64::MIN)), false);
    assert_eq!(s, "-9223372036854775808");
    let (s, _) = render(&CellSlot::Present(CellValue::Int(0)), false);
    assert_eq!(s, "0");
}

#[test]
fn unsigned_integers_render_in_base_ten() {
    let (s, is_null) = render(&CellSlot::Present(CellValue::UInt(u64::MAX)), false);
    assert_eq!(s, "18446744073709551615");
    assert!(!is_null);
}

#[test]
fn float_cells_carry_their_text() {
    let single = format!("{}", 1.5f32);
    let (s, is_null) = render(&CellSlot::Present(CellValue::Float(single)), false);
    assert_eq!(s, "1.5");
    assert!(!is_null);
    let double = format!("{}", -0.25f64);
    let (s, _) = render(&CellSlot::Present(CellValue::Double(double)), false);
    assert_eq!(s, "-0.25");
}

#[test]
fn datetime_renders_fixed_format() {
    let slot = CellSlot::Present(CellValue::DateTime {
        year: 2024,
        month: 1,
        day: 2,
        hour: 3,
        minute: 4,
        second: 5,
        micros: 999999,
    });
    let (s, is_null) = render(&slot, false);
    assert_eq!(s, "2024-01-02 03:04:05");
    assert!(!is_null);
}

#[test]
fn duration_renders_with_sign_and_padding() {
    let slot = CellSlot::Present(CellValue::Duration {
        negative: true,
        days: 2,
        hours: 3,
        minutes: 4,
        seconds: 5,
        micros: 0,
    });
    let (s, is_null) = render(&slot, false);
    assert_eq!(s, "-2.03:04:05");
    assert!(!is_null);
}

#[test]
fn positive_duration_has_no_sign() {
    let slot = CellSlot::Present(CellValue::Duration {
        negative: false,
        days: 0,
        hours: 0,
        minutes: 0,
        seconds: 9,
        micros: 123,
    });
    let (s, _) = render(&slot, false);
    assert_eq!(s, "0.00:00:09");
}

#[test]
fn render_is_total_over_all_variants() {
    let slots = vec![
        CellSlot::Missing,
        CellSlot::Errored,
        CellSlot::Present(CellValue::Null),
        CellSlot::Present(CellValue::Text(vec![0xf0, 0x28, 0x8c, 0x28])),
        CellSlot::Present(CellValue::Int(-1)),
        CellSlot::Present(CellValue::UInt(1)),
        CellSlot::Present(CellValue::Float(format!("{}", f32::MAX))),
        CellSlot::Present(CellValue::Double(format!("{}", f64::MIN))),
        CellSlot::Present(CellValue::DateTime {
            year: 0,
            month: 0,
            day: 0,
            hour: 0,
            minute: 0,
            second: 0,
            micros: 0,
        }),
        CellSlot::Present(CellValue::Duration {
            negative: false,
            days: 400,
            hours: 23,
            minutes: 59,
            seconds: 59,
            micros: 1,
        }),
    ];
    for slot in &slots {
        let (s, is_null) = render(slot, false);
        let expect_null = matches!(
            slot,
            CellSlot::Missing | CellSlot::Present(CellValue::Null)
        );
        assert_eq!(is_null, expect_null);
        assert!(!s.is_empty());
    }
}

#[test]
fn styling_wraps_null_and_value_without_changing_flag() {
    colored::control::set_override(true);
    let (plain, _) = render_plain(&CellSlot::Present(CellValue::Null));
    let (styled, is_null) = render(&CellSlot::Present(CellValue::Null), true);
    assert!(is_null);
    assert!(styled.len() > plain.len());
    assert!(styled.contains("NULL"));
    let (styled_value, value_null) = render(&CellSlot::Present(CellValue::Int(7)), true);
    assert!(!value_null);
    assert!(styled_value.len() > 1);
    assert!(styled_value.contains('7'));
}
