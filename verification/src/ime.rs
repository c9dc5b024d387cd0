//! Input-method state: whether the IME is enabled and the preedit text it
//! is composing, with the cursor measured in display columns.

use vstd::prelude::*;
use crate::codec::{spec_utf8_len, utf8_len};

verus! {

/// The displayed column width that the Unicode width tables give a
/// character: none for a control character.
pub uninterp spec fn width_of(c: char) -> Option<usize>;

/// Relies on unicode_width::UnicodeWidthChar::width: the displayed column
/// width of a character, determined by the character alone; at most 3
/// columns, and absent only for control characters.
#[verifier::external_body]
fn char_width(c: char) -> (r: Option<usize>)
    ensures
        r == width_of(c),
        r matches Some(w) ==> w <= 3,
{
    unicode_width::UnicodeWidthChar::width(c)
}

/// The sum of UTF-8 byte lengths of the first `k` characters.
pub open spec fn spec_utf8_prefix_len(chars: Seq<char>, k: int) -> int
    decreases k,
{
    if k <= 0 {
        0
    } else {
        spec_utf8_prefix_len(chars, k - 1) + spec_utf8_len(chars[k - 1])
    }
}

/// Whether `byte_offset` falls on a character boundary of the text.
pub open spec fn spec_is_boundary(chars: Seq<char>, byte_offset: int) -> bool {
    exists|k: int| 0 <= k <= chars.len() && spec_utf8_prefix_len(chars, k) == byte_offset
}

/// The character index at byte offset `byte_offset`.
pub open spec fn spec_char_index(chars: Seq<char>, byte_offset: int) -> int {
    choose|k: int| 0 <= k <= chars.len() && spec_utf8_prefix_len(chars, k) == byte_offset
}

/// The displayed width of the characters from index `from` on: each
/// character's table width, one column for control characters.
pub open spec fn spec_width_from(chars: Seq<char>, from: int) -> int
    decreases chars.len() - from,
{
    if from < 0 || from >= chars.len() {
        0
    } else {
        (match width_of(chars[from]) {
            Some(w) => w as int,
            None => 1,
        }) + spec_width_from(chars, from + 1)
    }
}

/// Prefix byte lengths grow strictly with the index.
proof fn lemma_prefix_len_strict(chars: Seq<char>, k1: int, k2: int)
    requires
        0 <= k1 < k2 <= chars.len(),
    ensures
        spec_utf8_prefix_len(chars, k1) < spec_utf8_prefix_len(chars, k2),
    decreases k2 - k1,
{
    assert(spec_utf8_len(chars[k2 - 1]) >= 1);
    if k1 < k2 - 1 {
        lemma_prefix_len_strict(chars, k1, k2 - 1);
    }
}

/// An IME preedit: the text being composed and the cursor within it.
pub struct Preedit {
    /// The preedit text, as characters.
    pub text: Vec<char>,
    /// Byte offset for cursor start into the UTF-8 form of the text;
    /// absent when the cursor is invisible.
    pub cursor_byte_offset: Option<usize>,
    /// The cursor offset from the end of the preedit in display columns.
    pub cursor_end_offset: Option<usize>,
}

impl Preedit {
    /// Build a preedit, measuring the cursor's distance from the end of
    /// the text in display columns.
    pub fn new(text: Vec<char>, cursor_byte_offset: Option<usize>) -> (r: Preedit)
        requires
            text@.len() <= 1000000000,
            cursor_byte_offset matches Some(bo) ==> spec_is_boundary(text@, bo as int),
        ensures
            r.text == text,
            r.cursor_byte_offset == cursor_byte_offset,
            cursor_byte_offset is None ==> r.cursor_end_offset is None,
            cursor_byte_offset matches Some(bo) ==> r.cursor_end_offset == Some(
                spec_width_from(text@, spec_char_index(text@, bo as int)) as usize,
            ),
    {
        let cursor_end_offset = if let Some(byte_offset) = cursor_byte_offset {
            let ghost k0 = spec_char_index(text@, byte_offset as int);
            // Find the character index of the byte offset.
            let mut k: usize = 0;
            let mut bytes: usize = 0;
            while bytes < byte_offset
                invariant
                    k <= text@.len(),
                    bytes == spec_utf8_prefix_len(text@, k as int),
                    bytes <= byte_offset,
                    text@.len() <= 1000000000,
                    0 <= k0 <= text@.len(),
                    spec_utf8_prefix_len(text@, k0) == byte_offset,
                    k <= k0,
                decreases byte_offset - bytes,
            {
                proof {
                    if k as int == k0 {
                        assert(false);
                    }
                    assert(k < k0);
                    assert(k < text@.len());
                    if k as int + 1 < k0 {
                        lemma_prefix_len_strict(text@, k as int + 1, k0);
                    }
                    assert(spec_utf8_prefix_len(text@, k as int + 1) == spec_utf8_prefix_len(
                        text@,
                        k as int,
                    ) + spec_utf8_len(text@[k as int]));
                    assert(spec_utf8_prefix_len(text@, k as int + 1) <= byte_offset);
                }
                let step = utf8_len(text[k]);
                bytes = bytes + step;
                k = k + 1;
            }
            proof {
                if (k as int) < k0 {
                    lemma_prefix_len_strict(text@, k as int, k0);
                    assert(false);
                }
            }

            // Convert the byte offset into a column offset from the end.
            let mut acc: usize = 0;
            let mut i: usize = k;
            while i < text.len()
                invariant
                    k <= i <= text@.len(),
                    text@.len() <= 1000000000,
                    acc + spec_width_from(text@, i as int) == spec_width_from(text@, k as int),
                    acc <= 3 * i,
                decreases text@.len() - i,
            {
                let w = match char_width(text[i]) {
                    Some(w) => w,
                    None => 1,
                };
                acc = acc + w;
                i = i + 1;
            }
            Some(acc)
        } else {
            None
        };

        Preedit { text, cursor_byte_offset, cursor_end_offset }
    }
}

/// Input method state.
pub struct Ime {
    /// Whether the IME is enabled.
    enabled: bool,
    /// Current IME preedit.
    preedit: Option<Preedit>,
}

impl Ime {
    /// Whether the IME is enabled.
    pub closed spec fn spec_enabled(&self) -> bool {
        self.enabled
    }

    /// The current preedit, if any.
    pub closed spec fn spec_preedit(&self) -> Option<Preedit> {
        self.preedit
    }

    /// A disabled IME with no preedit.
    pub fn new() -> (r: Ime)
        ensures
            !r.spec_enabled(),
            r.spec_preedit() is None,
    {
        Ime { enabled: false, preedit: None }
    }

    /// Enable or disable the IME; disabling clears the pending preedit.
    pub fn set_enabled(&mut self, is_enabled: bool)
        ensures
            final(self).spec_enabled() == is_enabled,
            is_enabled ==> final(self).spec_preedit() == old(self).spec_preedit(),
            !is_enabled ==> final(self).spec_preedit() is None,
    {
        if is_enabled {
            self.enabled = true;
        } else {
            // Clear the state when disabling the IME.
            self.enabled = false;
            self.preedit = None;
        }
    }

    /// Whether the IME is enabled.
    pub fn is_enabled(&self) -> (r: bool)
        ensures
            r == self.spec_enabled(),
    {
        self.enabled
    }

    /// Replace the pending preedit.
    pub fn set_preedit(&mut self, preedit: Option<Preedit>)
        ensures
            final(self).spec_preedit() == preedit,
            final(self).spec_enabled() == old(self).spec_enabled(),
    {
        self.preedit = preedit;
    }

    /// The pending preedit, if any.
    pub fn preedit(&self) -> (r: Option<&Preedit>)
        ensures
            match r {
                Some(p) => self.spec_preedit() == Some(*p),
                None => self.spec_preedit() is None,
            },
    {
        self.preedit.as_ref()
    }
}

} // verus!
