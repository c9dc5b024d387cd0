//! A model of the terminal grid and the searches the selection logic runs
//! on it: matching-bracket search, semantic word boundaries, and line
//! boundaries across wrapped lines.
//!
//! The grid is a rectangle of cells, scrollback history included: line 0 is
//! the top of the viewport and negative lines lie in history. Each cell
//! holds its character and its flags.

use vstd::prelude::*;
use crate::index::Point;

verus! {

/// Cell flag: the line wraps onto the next one.
pub const FLAG_WRAPLINE: u16 = 0x1;
/// Cell flag: a double-width character.
pub const FLAG_WIDE_CHAR: u16 = 0x2;
/// Cell flag: the spacer after a double-width character.
pub const FLAG_WIDE_CHAR_SPACER: u16 = 0x4;
/// Cell flag: the spacer before a double-width character on the next line.
pub const FLAG_LEADING_WIDE_CHAR_SPACER: u16 = 0x8;

/// All three wide-character flags.
pub const FLAG_WIDE_ALL: u16 = 0xe;

/// One grid cell: its character and flags.
#[derive(Clone, Copy, PartialEq, Eq, Structural, Debug)]
pub struct Cell {
    pub c: char,
    pub flags: u16,
}

impl Cell {
    /// A plain cell with no flags.
    pub fn new(c: char) -> (r: Cell)
        ensures
            r.c == c && r.flags == 0,
    {
        Cell { c, flags: 0 }
    }

    /// Whether every bit of `flags` is set.
    pub open spec fn spec_has(self, flags: u16) -> bool {
        self.flags & flags == flags
    }

    /// Whether at least one bit of `flags` is set.
    pub open spec fn spec_intersects(self, flags: u16) -> bool {
        self.flags & flags != 0
    }
}

/// The terminal grid: a rectangle of cells with scrollback history above
/// the viewport, and the characters that end a semantic word.
pub struct Term {
    /// All cells, row by row, the oldest history line first.
    cells: Vec<Cell>,
    /// Lines of scrollback above the viewport.
    history: usize,
    /// Lines in the viewport.
    screen_lines: usize,
    /// Columns per line.
    columns: usize,
    /// Characters that delimit a semantic word.
    semantic_escape_chars: Vec<char>,
}

impl Term {
    /// Well-formedness: a nonempty grid of bounded size whose cell list
    /// covers exactly its rectangle.
    pub closed spec fn spec_wf(&self) -> bool {
        &&& 1 <= self.screen_lines
        &&& 1 <= self.columns
        &&& self.history + self.screen_lines <= 100000
        &&& self.columns <= 10000
        &&& self.cells@.len() == (self.history + self.screen_lines) * self.columns
        &&& self.cells@.len() <= 1000000000
    }

    /// The grid's cells, row by row.
    pub closed spec fn spec_cells(&self) -> Seq<Cell> {
        self.cells@
    }

    /// Lines of scrollback above the viewport.
    pub closed spec fn spec_history(&self) -> int {
        self.history as int
    }

    /// Lines in the viewport.
    pub closed spec fn spec_screen_lines(&self) -> int {
        self.screen_lines as int
    }

    /// Columns per line.
    pub closed spec fn spec_columns(&self) -> int {
        self.columns as int
    }

    /// The semantic word delimiters.
    pub closed spec fn spec_escape_chars(&self) -> Seq<char> {
        self.semantic_escape_chars@
    }

    /// Whether a point lies in the grid, history included.
    pub open spec fn spec_valid_point(&self, p: Point) -> bool {
        &&& -self.spec_history() <= p.line < self.spec_screen_lines()
        &&& p.column < self.spec_columns()
    }

    /// The flat index of a point: its row (counted from the top of
    /// history) times the width, plus its column.
    pub open spec fn spec_index(&self, p: Point) -> int {
        (p.line + self.spec_history()) * self.spec_columns() + p.column
    }

    /// The point of a flat index.
    pub open spec fn spec_point_of(&self, gi: int) -> Point {
        Point {
            line: (gi / self.spec_columns() - self.spec_history()) as i32,
            column: (gi % self.spec_columns()) as usize,
        }
    }

    /// The cell at a flat index.
    pub open spec fn spec_cell(&self, gi: int) -> Cell {
        self.spec_cells()[gi]
    }

    /// Build a grid from its parts.
    pub fn new(
        history: usize,
        screen_lines: usize,
        columns: usize,
        cells: Vec<Cell>,
        semantic_escape_chars: Vec<char>,
    ) -> (r: Term)
        requires
            1 <= screen_lines,
            1 <= columns,
            history + screen_lines <= 100000,
            columns <= 10000,
            cells@.len() == (history + screen_lines) * columns,
        ensures
            r.spec_wf(),
            r.spec_cells().len() <= 1000000000,
            r.spec_cells() == cells@,
            r.spec_history() == history,
            r.spec_screen_lines() == screen_lines,
            r.spec_columns() == columns,
            r.spec_escape_chars() == semantic_escape_chars@,
    {
        proof {
            assert((history + screen_lines) * columns <= 1000000000) by (nonlinear_arith)
                requires
                    0 < history + screen_lines <= 100000,
                    0 < columns <= 10000,
            ;
        }
        Term { cells, history, screen_lines, columns, semantic_escape_chars }
    }

    /// The line at the top of the scrollback history.
    pub fn topmost_line(&self) -> (r: i32)
        requires
            self.spec_wf(),
        ensures
            r == -self.spec_history(),
    {
        -(self.history as i32)
    }

    /// The number of columns.
    pub fn columns(&self) -> (r: usize)
        ensures
            r == self.spec_columns(),
    {
        self.columns
    }

    /// The number of viewport lines.
    pub fn screen_lines(&self) -> (r: usize)
        ensures
            r == self.spec_screen_lines(),
    {
        self.screen_lines
    }

    /// The index of the last column.
    pub fn last_column(&self) -> (r: usize)
        requires
            self.spec_wf(),
        ensures
            r == self.spec_columns() - 1,
    {
        self.columns - 1
    }

    /// The flat index of a point.
    fn index_of(&self, p: Point) -> (r: usize)
        requires
            self.spec_wf(),
            self.spec_valid_point(p),
        ensures
            r == self.spec_index(p),
            r < self.spec_cells().len(),
    {
        proof {
            lemma_row_index_bounds(
                p.line + self.spec_history(),
                self.spec_history() + self.spec_screen_lines(),
                p.column as int,
                self.spec_columns(),
            );
        }
        let row = (p.line + self.history as i32) as usize;
        row * self.columns + p.column
    }

    /// The cell at a point.
    pub fn cell_at(&self, p: Point) -> (r: Cell)
        requires
            self.spec_wf(),
            self.spec_valid_point(p),
        ensures
            r == self.spec_cell(self.spec_index(p)),
    {
        let gi = self.index_of(p);
        self.cells[gi]
    }

    /// The point of a flat index.
    fn point_of(&self, gi: usize) -> (r: Point)
        requires
            self.spec_wf(),
            gi < self.spec_cells().len(),
        ensures
            r == self.spec_point_of(gi as int),
            self.spec_valid_point(r),
            self.spec_index(r) == gi,
    {
        proof {
            lemma_flat_index_roundtrip(
                gi as int,
                self.spec_history() + self.spec_screen_lines(),
                self.spec_columns(),
                self.spec_history(),
            );
        }
        let row = gi / self.columns;
        let col = gi % self.columns;
        Point { line: (row as i64 - self.history as i64) as i32, column: col }
    }

    /// Whether a character delimits a semantic word.
    fn is_escape_char(&self, c: char) -> (r: bool)
        ensures
            r == self.spec_escape_chars().contains(c),
    {
        let mut i: usize = 0;
        while i < self.semantic_escape_chars.len()
            invariant
                i <= self.semantic_escape_chars@.len(),
                forall|j: int| 0 <= j < i ==> self.semantic_escape_chars@[j] != c,
            decreases self.semantic_escape_chars@.len() - i,
        {
            if self.semantic_escape_chars[i] == c {
                proof {
                    assert(self.spec_escape_chars().contains(c));
                }
                return true;
            }
            i = i + 1;
        }
        false
    }
}

/// The matching bracket for a bracket character: whether to search forward
/// and the character that closes the pair, or nothing for any other
/// character.
pub open spec fn spec_bracket_pair(c: char) -> Option<(bool, char)> {
    if c == '(' {
        Some((true, ')'))
    } else if c == ')' {
        Some((false, '('))
    } else if c == '[' {
        Some((true, ']'))
    } else if c == ']' {
        Some((false, '['))
    } else if c == '{' {
        Some((true, '}'))
    } else if c == '}' {
        Some((false, '{'))
    } else if c == '<' {
        Some((true, '>'))
    } else if c == '>' {
        Some((false, '<'))
    } else {
        None
    }
}

/// Scan forward for the matching bracket: every further `start_char` opens
/// one more pair of the opposite kind to skip.
pub open spec fn spec_bracket_scan_fwd(
    cells: Seq<Cell>,
    i: int,
    start_char: char,
    end_char: char,
    skip: int,
) -> Option<int>
    decreases cells.len() - i,
{
    if i < 0 || i >= cells.len() {
        None
    } else if cells[i].c == end_char && skip == 0 {
        Some(i)
    } else {
        let skip2 = if cells[i].c == start_char {
            skip + 1
        } else if cells[i].c == end_char {
            skip - 1
        } else {
            skip
        };
        spec_bracket_scan_fwd(cells, i + 1, start_char, end_char, skip2)
    }
}

/// Scan backward for the matching bracket.
pub open spec fn spec_bracket_scan_back(
    cells: Seq<Cell>,
    i: int,
    start_char: char,
    end_char: char,
    skip: int,
) -> Option<int>
    decreases i + 1,
{
    if i < 0 || i >= cells.len() {
        None
    } else if cells[i].c == end_char && skip == 0 {
        Some(i)
    } else {
        let skip2 = if cells[i].c == start_char {
            skip + 1
        } else if cells[i].c == end_char {
            skip - 1
        } else {
            skip
        };
        spec_bracket_scan_back(cells, i - 1, start_char, end_char, skip2)
    }
}

impl Term {
    /// The left end of the semantic word around flat index `gi`: scanning
    /// down, stop before a word delimiter (wide cells never delimit) and
    /// before the end of an unwrapped line.
    pub open spec fn spec_semantic_left(&self, gi: int) -> int
        decreases gi,
    {
        if gi <= 0 {
            gi
        } else {
            let prev = self.spec_cell(gi - 1);
            if !prev.spec_intersects(FLAG_WIDE_ALL) && self.spec_escape_chars().contains(prev.c) {
                gi
            } else if (gi - 1) % self.spec_columns() == self.spec_columns() - 1 && !prev.spec_has(
                FLAG_WRAPLINE,
            ) {
                gi
            } else {
                self.spec_semantic_left(gi - 1)
            }
        }
    }

    /// The right end of the semantic word around flat index `gi`: scanning
    /// up, stop before a word delimiter and at the end of an unwrapped
    /// line, which is still part of the word.
    pub open spec fn spec_semantic_right(&self, gi: int) -> int
        decreases self.spec_cells().len() - gi,
    {
        if gi < 0 || gi + 1 >= self.spec_cells().len() {
            gi
        } else {
            let next = self.spec_cell(gi + 1);
            if !next.spec_intersects(FLAG_WIDE_ALL) && self.spec_escape_chars().contains(next.c) {
                gi
            } else if (gi + 1) % self.spec_columns() == self.spec_columns() - 1 && !next.spec_has(
                FLAG_WRAPLINE,
            ) {
                gi + 1
            } else {
                self.spec_semantic_right(gi + 1)
            }
        }
    }

    /// The first line of the wrapped logical line holding `line`: walk up
    /// while the line above wraps onto the current one.
    pub open spec fn spec_line_start(&self, line: int) -> int
        decreases line + self.spec_history(),
    {
        if line <= -self.spec_history() {
            line
        } else if self.spec_cell(
            self.spec_index(
                Point { line: (line - 1) as i32, column: (self.spec_columns() - 1) as usize },
            ),
        ).spec_has(FLAG_WRAPLINE) {
            self.spec_line_start(line - 1)
        } else {
            line
        }
    }

    /// The last line of the wrapped logical line holding `line`: walk down
    /// while the current line wraps onto the next one.
    pub open spec fn spec_line_end(&self, line: int) -> int
        decreases self.spec_screen_lines() - line,
    {
        if line + 1 >= self.spec_screen_lines() {
            line
        } else if self.spec_cell(
            self.spec_index(Point { line: line as i32, column: (self.spec_columns() - 1) as usize }),
        ).spec_has(FLAG_WRAPLINE) {
            self.spec_line_end(line + 1)
        } else {
            line
        }
    }

    /// Find the bracket matching the one under `point`, skipping nested
    /// pairs, or nothing when the cell holds no bracket or the pair is
    /// unbalanced.
    pub fn bracket_search(&self, point: Point) -> (r: Option<Point>)
        requires
            self.spec_wf(),
            self.spec_valid_point(point),
        ensures
            match spec_bracket_pair(self.spec_cell(self.spec_index(point)).c) {
                None => r is None,
                Some((forward, end_char)) => {
                    let start_char = self.spec_cell(self.spec_index(point)).c;
                    let scan = if forward {
                        spec_bracket_scan_fwd(
                            self.spec_cells(),
                            self.spec_index(point) + 1,
                            start_char,
                            end_char,
                            0,
                        )
                    } else {
                        spec_bracket_scan_back(
                            self.spec_cells(),
                            self.spec_index(point) - 1,
                            start_char,
                            end_char,
                            0,
                        )
                    };
                    match r {
                        Some(p) => scan matches Some(gi) && p == self.spec_point_of(gi),
                        None => scan is None,
                    }
                },
            },
    {
        let start_char = self.cell_at(point).c;

        // Find the matching bracket we are looking for.
        let (forward, end_char): (bool, char) = if start_char == '(' {
            (true, ')')
        } else if start_char == ')' {
            (false, '(')
        } else if start_char == '[' {
            (true, ']')
        } else if start_char == ']' {
            (false, '[')
        } else if start_char == '{' {
            (true, '}')
        } else if start_char == '}' {
            (false, '{')
        } else if start_char == '<' {
            (true, '>')
        } else if start_char == '>' {
            (false, '<')
        } else {
            return None;
        };

        let start = self.index_of(point);
        let len = self.cells.len();
        // For every character that equals the starting bracket, one bracket
        // of the opposite kind is ignored.
        let mut skip_pairs: i64 = 0;

        proof {
            assert(spec_bracket_pair(start_char) == Some((forward, end_char)));
        }
        if forward {
            let mut i: usize = start + 1;
            while i < len
                invariant
                    self.spec_wf(),
                    start == self.spec_index(point),
                    start_char == self.spec_cell(self.spec_index(point)).c,
                    spec_bracket_pair(start_char) == Some((forward, end_char)),
                    forward,
                    start < i <= len,
                    len == self.spec_cells().len(),
                    -(i - start) <= skip_pairs <= i - start,
                    spec_bracket_scan_fwd(
                        self.spec_cells(),
                        start + 1,
                        start_char,
                        end_char,
                        0,
                    ) == spec_bracket_scan_fwd(
                        self.spec_cells(),
                        i as int,
                        start_char,
                        end_char,
                        skip_pairs as int,
                    ),
                decreases len - i,
            {
                let cell = self.cells[i];
                if cell.c == end_char && skip_pairs == 0 {
                    proof {
                        assert(spec_bracket_scan_fwd(
                            self.spec_cells(),
                            i as int,
                            start_char,
                            end_char,
                            skip_pairs as int,
                        ) == Some(i as int));
                    }
                    return Some(self.point_of(i));
                } else if cell.c == start_char {
                    skip_pairs = skip_pairs + 1;
                } else if cell.c == end_char {
                    skip_pairs = skip_pairs - 1;
                }
                i = i + 1;
            }
            None
        } else {
            proof {
                assert(start <= 1000000000);
            }
            let mut i: i64 = start as i64 - 1;
            while i >= 0
                invariant
                    self.spec_wf(),
                    start == self.spec_index(point),
                    start_char == self.spec_cell(self.spec_index(point)).c,
                    spec_bracket_pair(start_char) == Some((forward, end_char)),
                    !forward,
                    -1 <= i < start,
                    start < self.spec_cells().len(),
                    -(start - i) <= skip_pairs <= start - i,
                    spec_bracket_scan_back(
                        self.spec_cells(),
                        start - 1,
                        start_char,
                        end_char,
                        0,
                    ) == spec_bracket_scan_back(
                        self.spec_cells(),
                        i as int,
                        start_char,
                        end_char,
                        skip_pairs as int,
                    ),
                decreases i + 1,
            {
                let cell = self.cells[i as usize];
                if cell.c == end_char && skip_pairs == 0 {
                    proof {
                        assert(spec_bracket_scan_back(
                            self.spec_cells(),
                            i as int,
                            start_char,
                            end_char,
                            skip_pairs as int,
                        ) == Some(i as int));
                    }
                    return Some(self.point_of(i as usize));
                } else if cell.c == start_char {
                    skip_pairs = skip_pairs + 1;
                } else if cell.c == end_char {
                    skip_pairs = skip_pairs - 1;
                }
                i = i - 1;
            }
            None
        }
    }

    /// Find the left end of the semantic word around `point`. A starting
    /// line above the scrollback is clamped to its top.
    pub fn semantic_search_left(&self, point: Point) -> (r: Point)
        requires
            self.spec_wf(),
            point.line < self.spec_screen_lines(),
            point.column < self.spec_columns(),
        ensures
            ({
                let clamped = Point {
                    line: vstd::math::max(point.line as int, -self.spec_history()) as i32,
                    ..point
                };
                r == self.spec_point_of(self.spec_semantic_left(self.spec_index(clamped)))
            }),
    {
        // Limit the starting point to the last line in the history.
        let top = self.topmost_line();
        let point = if point.line < top {
            Point { line: top, column: point.column }
        } else {
            point
        };

        let start = self.index_of(point);
        let mut gi = start;
        loop
            invariant_except_break
                self.spec_wf(),
                gi <= start < self.spec_cells().len(),
                self.spec_semantic_left(start as int) == self.spec_semantic_left(gi as int),
            ensures
                gi < self.spec_cells().len(),
                self.spec_semantic_left(start as int) == gi,
            decreases gi,
        {
            if gi == 0 {
                proof {
                    assert(self.spec_semantic_left(gi as int) == gi);
                }
                break ;
            }
            let prev = self.cells[gi - 1];
            if !(prev.flags & FLAG_WIDE_ALL != 0) && self.is_escape_char(prev.c) {
                proof {
                    assert(self.spec_semantic_left(gi as int) == gi);
                }
                break ;
            }
            if (gi - 1) % self.columns == self.columns - 1 && !(prev.flags & FLAG_WRAPLINE
                == FLAG_WRAPLINE) {
                // Cut off at the end of an unwrapped line.
                proof {
                    assert(self.spec_semantic_left(gi as int) == gi);
                }
                break ;
            }
            gi = gi - 1;
        }
        self.point_of(gi)
    }

    /// Find the right end of the semantic word around `point`. A starting
    /// line above the scrollback is clamped to its top.
    pub fn semantic_search_right(&self, point: Point) -> (r: Point)
        requires
            self.spec_wf(),
            point.line < self.spec_screen_lines(),
            point.column < self.spec_columns(),
        ensures
            ({
                let clamped = Point {
                    line: vstd::math::max(point.line as int, -self.spec_history()) as i32,
                    ..point
                };
                r == self.spec_point_of(self.spec_semantic_right(self.spec_index(clamped)))
            }),
    {
        // Limit the starting point to the last line in the history.
        let top = self.topmost_line();
        let point = if point.line < top {
            Point { line: top, column: point.column }
        } else {
            point
        };

        let start = self.index_of(point);
        let len = self.cells.len();
        let mut gi = start;
        loop
            invariant_except_break
                self.spec_wf(),
                start <= gi < len,
                len == self.spec_cells().len(),
                self.spec_semantic_right(start as int) == self.spec_semantic_right(gi as int),
            ensures
                gi < self.spec_cells().len(),
                self.spec_semantic_right(start as int) == gi,
            decreases len - gi,
        {
            if gi + 1 >= len {
                proof {
                    assert(self.spec_semantic_right(gi as int) == gi);
                }
                break ;
            }
            let next = self.cells[gi + 1];
            if !(next.flags & FLAG_WIDE_ALL != 0) && self.is_escape_char(next.c) {
                proof {
                    assert(self.spec_semantic_right(gi as int) == gi);
                }
                break ;
            }
            let ghost gi_old = gi as int;
            gi = gi + 1;
            if gi % self.columns == self.columns - 1 && !(next.flags & FLAG_WRAPLINE
                == FLAG_WRAPLINE) {
                // Cut off at the end of an unwrapped line.
                proof {
                    assert(self.spec_semantic_right(gi_old) == gi);
                }
                break ;
            }
            proof {
                assert(self.spec_semantic_right(gi_old) == self.spec_semantic_right(gi as int));
            }
        }
        self.point_of(gi)
    }

    /// Find the beginning of the logical line holding `point`, walking up
    /// across wrapped lines, at column 0.
    pub fn line_search_left(&self, point: Point) -> (r: Point)
        requires
            self.spec_wf(),
            self.spec_valid_point(point),
        ensures
            r.line == self.spec_line_start(point.line as int),
            r.column == 0,
    {
        let mut line = point.line;
        let last_col = self.last_column();
        let top = self.topmost_line();
        loop
            invariant
                self.spec_wf(),
                last_col == self.spec_columns() - 1,
                top == -self.spec_history(),
                -self.spec_history() <= line < self.spec_screen_lines(),
                self.spec_line_start(point.line as int) == self.spec_line_start(line as int),
            ensures
                -self.spec_history() <= line < self.spec_screen_lines(),
                self.spec_line_start(point.line as int) == line,
            decreases line + self.spec_history(),
        {
            if line <= top {
                break ;
            }
            let probe = self.cell_at(Point { line: line - 1, column: last_col });
            if !(probe.flags & FLAG_WRAPLINE == FLAG_WRAPLINE) {
                break ;
            }
            line = line - 1;
        }
        Point { line, column: 0 }
    }

    /// Find the end of the logical line holding `point`, walking down
    /// across wrapped lines, at the last column.
    pub fn line_search_right(&self, point: Point) -> (r: Point)
        requires
            self.spec_wf(),
            self.spec_valid_point(point),
        ensures
            r.line == self.spec_line_end(point.line as int),
            r.column == self.spec_columns() - 1,
    {
        let mut line = point.line;
        let last_col = self.last_column();
        let bottom = self.screen_lines();
        loop
            invariant
                self.spec_wf(),
                last_col == self.spec_columns() - 1,
                bottom == self.spec_screen_lines(),
                -self.spec_history() <= line < self.spec_screen_lines(),
                self.spec_line_end(point.line as int) == self.spec_line_end(line as int),
            ensures
                -self.spec_history() <= line < self.spec_screen_lines(),
                self.spec_line_end(point.line as int) == line,
            decreases self.spec_screen_lines() - line,
        {
            if line + 1 >= bottom as i32 {
                break ;
            }
            let probe = self.cell_at(Point { line, column: last_col });
            if !(probe.flags & FLAG_WRAPLINE == FLAG_WRAPLINE) {
                break ;
            }
            line = line + 1;
        }
        Point { line, column: last_col }
    }
}

/// A row and column inside the rectangle index below the whole area.
proof fn lemma_row_index_bounds(row: int, rows: int, col: int, cols: int)
    requires
        0 <= row < rows,
        0 <= col < cols,
        rows <= 100000,
        cols <= 10000,
    ensures
        0 <= row * cols + col < rows * cols,
        rows * cols <= 1000000000,
{
    assert(row * cols + col < rows * cols) by (nonlinear_arith)
        requires
            0 <= row < rows,
            0 <= col < cols,
    ;
    assert(0 <= row * cols) by (nonlinear_arith)
        requires
            0 <= row,
            0 <= cols,
    ;
    assert(rows * cols <= 1000000000) by (nonlinear_arith)
        requires
            0 < rows <= 100000,
            0 < cols <= 10000,
    ;
}

/// Splitting a flat index into row and column and putting it back gives the
/// index again, within the rectangle.
proof fn lemma_flat_index_roundtrip(gi: int, rows: int, cols: int, history: int)
    requires
        1 <= cols,
        0 <= history,
        0 <= gi < rows * cols,
    ensures
        0 <= gi / cols < rows,
        0 <= gi % cols < cols,
        (gi / cols) * cols + gi % cols == gi,
{
    vstd::arithmetic::div_mod::lemma_fundamental_div_mod(gi, cols);
    assert(gi / cols < rows) by (nonlinear_arith)
        requires
            1 <= cols,
            0 <= gi < rows * cols,
            gi == (gi / cols) * cols + gi % cols,
            0 <= gi % cols < cols,
    ;
}

} // verus!
