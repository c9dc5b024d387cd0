//! Byte-level behavior: mouse-report encoding in every protocol, focus
//! events, decimal and UTF-8 helpers.

use term_input::codec::{push_dec_digits, utf8_encode};
use term_input::index::Point;
use term_input::modes::{ModifiersState, TermMode, TERM_SGR_MOUSE, TERM_UTF8_MOUSE};
use term_input::report::{encode, report_mode_of, ReportMode};

#[test]
fn sgr_shift_press_exact_bytes() {
    // Button 0 with shift (mods 4) at column 3, line 7.
    let point = Point { line: 7, column: 3 };
    let bytes = encode(point, 0, 4, ReportMode::Sgr, true).unwrap();
    assert_eq!(bytes, b"\x1b[<4;4;8M".to_vec());
}

#[test]
fn sgr_release_keeps_button_code() {
    let point = Point { line: 0, column: 0 };
    let bytes = encode(point, 2, 0, ReportMode::Sgr, false).unwrap();
    assert_eq!(bytes, b"\x1b[<2;1;1m".to_vec());
}

#[test]
fn sgr_has_no_coordinate_limit() {
    let point = Point { line: 5000, column: 4000 };
    let bytes = encode(point, 0, 0, ReportMode::Sgr, true).unwrap();
    assert_eq!(bytes, b"\x1b[<0;4001;5001M".to_vec());
}

#[test]
fn normal_mode_caps_at_223() {
    let over = Point { line: 0, column: 224 };
    assert!(encode(over, 0, 0, ReportMode::Normal, true).is_none());
    let at_cap = Point { line: 0, column: 223 };
    assert!(encode(at_cap, 0, 0, ReportMode::Normal, true).is_none());
    let under = Point { line: 0, column: 222 };
    let bytes = encode(under, 0, 0, ReportMode::Normal, true).unwrap();
    assert_eq!(bytes, vec![0x1b, b'[', b'M', 32, 32 + 1 + 222, 32 + 1]);
}

#[test]
fn utf8_mode_caps_at_2015() {
    let over = Point { line: 0, column: 2016 };
    assert!(encode(over, 0, 0, ReportMode::Utf8, true).is_none());
    let at_cap = Point { line: 0, column: 2015 };
    assert!(encode(at_cap, 0, 0, ReportMode::Utf8, true).is_none());
}

#[test]
fn utf8_mode_packs_large_columns_in_two_bytes() {
    // Column 100: position 133 becomes the pair 0xC2 0x85.
    let point = Point { line: 0, column: 100 };
    let bytes = encode(point, 0, 0, ReportMode::Utf8, true).unwrap();
    assert_eq!(bytes, vec![0x1b, b'[', b'M', 32, 0xC2, 0x85, 32 + 1]);
}

#[test]
fn utf8_mode_small_columns_stay_single_byte() {
    let point = Point { line: 0, column: 94 };
    let bytes = encode(point, 0, 0, ReportMode::Utf8, true).unwrap();
    assert_eq!(bytes, vec![0x1b, b'[', b'M', 32, 32 + 1 + 94, 32 + 1]);
}

#[test]
fn legacy_release_reports_generic_code() {
    // Any button: a release in a legacy protocol reports 3 + mods.
    let point = Point { line: 2, column: 2 };
    let left = encode(point, 0, 8, ReportMode::Normal, false).unwrap();
    let middle = encode(point, 1, 8, ReportMode::Normal, false).unwrap();
    let right = encode(point, 2, 8, ReportMode::Normal, false).unwrap();
    assert_eq!(left, middle);
    assert_eq!(left, right);
    assert_eq!(left[3], 32 + 3 + 8);
}

#[test]
fn scrollback_lines_are_dropped() {
    let point = Point { line: -1, column: 0 };
    assert!(encode(point, 0, 0, ReportMode::Normal, true).is_none());
    assert!(encode(point, 0, 0, ReportMode::Sgr, true).is_none());
}

#[test]
fn off_mode_reports_nothing() {
    let point = Point { line: 0, column: 0 };
    assert!(encode(point, 0, 0, ReportMode::Off, true).is_none());
}

#[test]
fn report_mode_follows_terminal_bits() {
    assert_eq!(report_mode_of(TermMode { bits: 0 }), ReportMode::Normal);
    assert_eq!(report_mode_of(TermMode { bits: TERM_UTF8_MOUSE }), ReportMode::Utf8);
    assert_eq!(report_mode_of(TermMode { bits: TERM_SGR_MOUSE }), ReportMode::Sgr);
    // SGR wins over UTF-8 when both are set.
    assert_eq!(
        report_mode_of(TermMode { bits: TERM_SGR_MOUSE | TERM_UTF8_MOUSE }),
        ReportMode::Sgr
    );
}

#[test]
fn decimal_digits_render_most_significant_first() {
    let mut out = Vec::new();
    push_dec_digits(0, &mut out);
    assert_eq!(out, b"0".to_vec());
    out.clear();
    push_dec_digits(2016, &mut out);
    assert_eq!(out, b"2016".to_vec());
}

#[test]
fn utf8_encoding_matches_std() {
    for c in ['a', '\u{e9}', '\u{20ac}', '\u{1f600}'] {
        let mut buf = [0u8; 4];
        let expected = c.encode_utf8(&mut buf).as_bytes().to_vec();
        assert_eq!(utf8_encode(c), expected);
    }
}

#[test]
fn modifier_codes_add_up() {
    let mods = ModifiersState { shift: true, ctrl: true, alt: true, logo: false };
    assert_eq!(mods.code(), 4 + 8 + 16);
    let shift_only = ModifiersState { shift: true, ctrl: false, alt: false, logo: false };
    assert_eq!(shift_only.code(), 4);
}
