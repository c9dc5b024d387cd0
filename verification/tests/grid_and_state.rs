//! Grid searches, window geometry, hint selection and IME state.

use term_input::hint::{Hint, HintAction, HintMatch, HintState, Hyperlink};
use term_input::ime::{Ime, Preedit};
use term_input::index::Point;
use term_input::size::SizeInfo;
use term_input::term::{Cell, Term, FLAG_WRAPLINE};
use term_input::touch::isqrt64;

/// A grid from rows of text; a `line[i]` ending in `true` wraps.
fn grid(history: usize, rows: Vec<(&str, bool)>, columns: usize, escapes: &str) -> Term {
    let screen_lines = rows.len() - history;
    let mut cells = Vec::new();
    for (text, wrap) in &rows {
        let chars: Vec<char> = text.chars().collect();
        assert_eq!(chars.len(), columns);
        for (i, ch) in chars.iter().enumerate() {
            let mut cell = Cell::new(*ch);
            if *wrap && i == columns - 1 {
                cell.flags = FLAG_WRAPLINE;
            }
            cells.push(cell);
        }
    }
    Term::new(history, screen_lines, columns, cells, escapes.chars().collect())
}

#[test]
fn bracket_search_finds_matching_pair() {
    let t = grid(0, vec![("(ab()cd)", false)], 8, " ");
    // The opening parenthesis skips the nested pair at indices 3 and 4.
    let r = t.bracket_search(Point { line: 0, column: 0 });
    assert_eq!(r, Some(Point { line: 0, column: 7 }));
    // Searching from the closing parenthesis walks backward.
    let r = t.bracket_search(Point { line: 0, column: 7 });
    assert_eq!(r, Some(Point { line: 0, column: 0 }));
    // A non-bracket cell finds nothing.
    assert_eq!(t.bracket_search(Point { line: 0, column: 1 }), None);
}

#[test]
fn bracket_search_skips_nested_pairs() {
    let t = grid(0, vec![("((()))xx", false)], 8, " ");
    assert_eq!(
        t.bracket_search(Point { line: 0, column: 0 }),
        Some(Point { line: 0, column: 5 })
    );
    assert_eq!(
        t.bracket_search(Point { line: 0, column: 1 }),
        Some(Point { line: 0, column: 4 })
    );
}

#[test]
fn bracket_search_unbalanced_finds_nothing() {
    let t = grid(0, vec![("(((  xxx", false)], 8, " ");
    assert_eq!(t.bracket_search(Point { line: 0, column: 0 }), None);
}

#[test]
fn semantic_search_stops_at_delimiters() {
    let t = grid(0, vec![("ab cd ef", false)], 8, " ");
    let left = t.semantic_search_left(Point { line: 0, column: 4 });
    assert_eq!(left, Point { line: 0, column: 3 });
    let right = t.semantic_search_right(Point { line: 0, column: 3 });
    assert_eq!(right, Point { line: 0, column: 4 });
}

#[test]
fn semantic_search_crosses_wrapped_lines() {
    // The first line wraps, so the word continues across the boundary.
    let t = grid(0, vec![("xxxxx ab", true), ("cd yyyyy", false)], 8, " ");
    let left = t.semantic_search_left(Point { line: 1, column: 1 });
    assert_eq!(left, Point { line: 0, column: 6 });
    let right = t.semantic_search_right(Point { line: 0, column: 6 });
    assert_eq!(right, Point { line: 1, column: 1 });
}

#[test]
fn semantic_search_stops_at_unwrapped_line_end() {
    let t = grid(0, vec![("xxxxx ab", false), ("cd yyyyy", false)], 8, " ");
    let left = t.semantic_search_left(Point { line: 1, column: 1 });
    assert_eq!(left, Point { line: 1, column: 0 });
    let right = t.semantic_search_right(Point { line: 0, column: 6 });
    assert_eq!(right, Point { line: 0, column: 7 });
}

#[test]
fn line_search_walks_wrapped_lines() {
    let t = grid(
        1,
        vec![("aaaaaaaa", true), ("bbbbbbbb", true), ("cccccccc", false)],
        8,
        " ",
    );
    // Line -1 (history) wraps onto line 0, which wraps onto line 1.
    let start = t.line_search_left(Point { line: 1, column: 5 });
    assert_eq!(start, Point { line: -1, column: 0 });
    let end = t.line_search_right(Point { line: -1, column: 2 });
    assert_eq!(end, Point { line: 1, column: 7 });
}

#[test]
fn line_search_stays_on_unwrapped_line() {
    let t = grid(0, vec![("aaaaaaaa", false), ("bbbbbbbb", false)], 8, " ");
    assert_eq!(t.line_search_left(Point { line: 1, column: 5 }), Point { line: 1, column: 0 });
    assert_eq!(t.line_search_right(Point { line: 0, column: 5 }), Point { line: 0, column: 7 });
}

#[test]
fn size_info_derives_grid_dimensions() {
    let size = SizeInfo::new(1000, 500, 10, 20, 5, 5, false);
    assert_eq!(size.columns(), 99);
    assert_eq!(size.screen_lines(), 24);
    assert_eq!(size.width(), 1000);
    assert_eq!(size.cell_width(), 10);
    // Tiny windows stay at the minimum grid.
    let tiny = SizeInfo::new(10, 10, 10, 20, 0, 0, false);
    assert_eq!(tiny.columns(), 2);
    assert_eq!(tiny.screen_lines(), 1);
}

#[test]
fn size_info_dynamic_padding_spreads_leftover() {
    // 1000 - 2*5 = 990; 990 % 40 = 30; padding grows by 15.
    let size = SizeInfo::new(1000, 500, 40, 20, 5, 5, true);
    assert_eq!(size.padding_x(), 20);
}

#[test]
fn size_info_contains_point_excludes_padding() {
    let size = SizeInfo::new(200, 100, 10, 10, 10, 10, false);
    assert!(size.contains_point(50, 50));
    assert!(!size.contains_point(5, 50));
    assert!(!size.contains_point(50, 5));
}

#[test]
fn reserve_lines_keeps_minimum() {
    let mut size = SizeInfo::new(200, 100, 10, 10, 0, 0, false);
    assert_eq!(size.screen_lines(), 10);
    size.reserve_lines(3);
    assert_eq!(size.screen_lines(), 7);
    size.reserve_lines(100);
    assert_eq!(size.screen_lines(), 1);
}

#[test]
fn hint_state_tracks_selection_lifecycle() {
    let mut hints = HintState::new("jfkdls;ahg".to_string());
    assert!(!hints.active());
    hints.start(Hint { action: HintAction::Select });
    assert!(hints.active());
    // Escape cancels the selection.
    assert_eq!(hints.keyboard_input('\u{1b}'), None);
    assert!(!hints.active());
}

#[test]
fn hint_alphabet_change_clears_keys() {
    let mut hints = HintState::new("abc".to_string());
    hints.update_alphabet(&"abc".to_string());
    hints.update_alphabet(&"xyz".to_string());
    assert!(!hints.active());
}

#[test]
fn hint_match_exposes_action_and_hyperlink() {
    let link = Hyperlink { id: None, uri: "https://example.com".to_string() };
    let m = HintMatch::new(HintAction::Copy, Some(link.clone()));
    assert_eq!(*m.action(), HintAction::Copy);
    assert_eq!(m.hyperlink(), Some(&link));
}

#[test]
fn ime_disabling_clears_preedit() {
    let mut ime = Ime::new();
    ime.set_enabled(true);
    ime.set_preedit(Some(Preedit::new(vec!['a'], None)));
    assert!(ime.preedit().is_some());
    ime.set_enabled(false);
    assert!(!ime.is_enabled());
    assert!(ime.preedit().is_none());
}

#[test]
fn preedit_measures_cursor_in_columns() {
    // "a" (1 column), then two ideographs of 2 columns each. The cursor at
    // byte offset 1 sits before the ideographs: 4 columns from the end.
    let text: Vec<char> = "a\u{4e16}\u{754c}".chars().collect();
    let p = Preedit::new(text, Some(1));
    assert_eq!(p.cursor_end_offset, Some(4));
    // A cursor at the end of the text is 0 columns from the end.
    let text: Vec<char> = "a\u{4e16}\u{754c}".chars().collect();
    let p = Preedit::new(text, Some(7));
    assert_eq!(p.cursor_end_offset, Some(0));
    // An invisible cursor has no offset.
    let p = Preedit::new(vec!['a'], None);
    assert_eq!(p.cursor_end_offset, None);
}

#[test]
fn isqrt_rounds_down() {
    assert_eq!(isqrt64(0), 0);
    assert_eq!(isqrt64(1), 1);
    assert_eq!(isqrt64(8), 2);
    assert_eq!(isqrt64(9), 3);
    assert_eq!(isqrt64(2500), 50);
    assert_eq!(isqrt64(u64::MAX), 4294967295);
}
