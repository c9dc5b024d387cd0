//! Keyboard-driven hint selection state.
//!
//! While a hint is active, typed characters select among the visible hint
//! labels; backspace removes the last key and escape or ctrl-c cancels the
//! selection.

use vstd::prelude::*;

verus! {

/// What to do with the text of a triggered hint.
#[derive(Clone, Copy, PartialEq, Eq, Structural, Debug)]
pub enum HintAction {
    /// Copy the text to the clipboard.
    Copy,
    /// Paste the text into the terminal.
    Paste,
    /// Select the text.
    Select,
    /// Move the vi-mode cursor to the match.
    MoveViModeCursor,
}

/// A configured hint: what happens when one of its matches is triggered.
#[derive(Clone, Copy, PartialEq, Eq, Structural, Debug)]
pub struct Hint {
    /// Action taken on the matched text.
    pub action: HintAction,
}

/// A hyperlink attached to a grid cell.
#[derive(Clone, PartialEq, Eq, Debug)]
pub struct Hyperlink {
    /// Identifier supplied with the escape sequence, if any.
    pub id: Option<String>,
    /// Target of the link.
    pub uri: String,
}

/// Hint match which was selected by the user.
#[derive(PartialEq, Eq, Debug, Clone)]
pub struct HintMatch {
    /// Action for handling the text.
    action: HintAction,
    hyperlink: Option<Hyperlink>,
}

impl HintMatch {
    /// The action of this match.
    pub closed spec fn spec_action(&self) -> HintAction {
        self.action
    }

    /// The hyperlink of this match, if any.
    pub closed spec fn spec_hyperlink(&self) -> Option<Hyperlink> {
        self.hyperlink
    }

    pub fn new(action: HintAction, hyperlink: Option<Hyperlink>) -> (r: HintMatch)
        ensures
            r.spec_action() == action,
            r.spec_hyperlink() == hyperlink,
    {
        HintMatch { action, hyperlink }
    }

    /// The configured action of this match.
    pub fn action(&self) -> (r: &HintAction)
        ensures
            r == self.spec_action(),
    {
        &self.action
    }

    /// The hyperlink under the match, if the cell carries one.
    pub fn hyperlink(&self) -> (r: Option<&Hyperlink>)
        ensures
            match r {
                Some(h) => self.spec_hyperlink() == Some(*h),
                None => self.spec_hyperlink() is None,
            },
    {
        self.hyperlink.as_ref()
    }
}

/// Keyboard hint selection state.
pub struct HintState {
    /// Hint currently in use.
    hint: Option<Hint>,
    /// Alphabet for hint labels.
    alphabet: String,
    /// Key label for each visible match.
    labels: Vec<Vec<char>>,
    /// Keys pressed for hint selection.
    keys: Vec<char>,
}

impl HintState {
    /// Whether no hint selection is in progress.
    pub closed spec fn spec_inactive(&self) -> bool {
        self.hint is None
    }

    /// The hint currently in use.
    pub closed spec fn spec_hint(&self) -> Option<Hint> {
        self.hint
    }

    /// The characters typed so far towards a label.
    pub closed spec fn spec_keys(&self) -> Seq<char> {
        self.keys@
    }

    /// The configured label alphabet.
    pub closed spec fn spec_alphabet(&self) -> Seq<char> {
        self.alphabet@
    }

    /// The label of each visible match.
    pub closed spec fn spec_labels(&self) -> Seq<Vec<char>> {
        self.labels@
    }

    /// Law: an inactive state is exactly one whose hint is absent.
    pub proof fn lemma_inactive_iff_no_hint(&self)
        ensures
            self.spec_inactive() <==> self.spec_hint() is None,
    {
    }

    /// Initialize an inactive hint state.
    pub fn new(alphabet: String) -> (r: HintState)
        ensures
            r.spec_inactive(),
            r.spec_alphabet() == alphabet@,
            r.spec_keys().len() == 0,
            r.spec_labels().len() == 0,
    {
        HintState { alphabet, hint: None, labels: Vec::new(), keys: Vec::new() }
    }

    /// Check if a hint selection is in progress.
    pub fn active(&self) -> (r: bool)
        ensures
            r == !self.spec_inactive(),
    {
        self.hint.is_some()
    }

    /// Start the hint selection process.
    pub fn start(&mut self, hint: Hint)
        ensures
            final(self).spec_hint() == Some(hint),
            final(self).spec_alphabet() == old(self).spec_alphabet(),
            final(self).spec_labels() == old(self).spec_labels(),
            final(self).spec_keys() == old(self).spec_keys(),
    {
        self.hint = Some(hint);
    }

    /// Cancel the hint highlighting process.
    fn stop(&mut self)
        ensures
            final(self).spec_inactive(),
            final(self).spec_keys().len() == 0,
            final(self).spec_labels().len() == 0,
            final(self).spec_alphabet() == old(self).spec_alphabet(),
    {
        self.labels.clear();
        self.keys.clear();
        self.hint = None;
    }

    /// Handle keyboard input during hint selection: backspace removes the
    /// last pressed key, escape or ctrl-c cancels the selection, anything
    /// else is kept pending. No match is ever selected here.
    pub fn keyboard_input(&mut self, c: char) -> (r: Option<HintMatch>)
        ensures
            r is None,
            final(self).spec_alphabet() == old(self).spec_alphabet(),
            (c == '\u{8}' || c == '\u{1f}') ==> {
                &&& (final(self).spec_keys() == old(self).spec_keys().drop_last() || (old(
                    self,
                ).spec_keys().len() == 0 && final(self).spec_keys().len() == 0))
                &&& final(self).spec_hint() == old(self).spec_hint()
                &&& final(self).spec_labels() == old(self).spec_labels()
            },
            (c == '\u{1b}' || c == '\u{3}') ==> {
                &&& final(self).spec_inactive()
                &&& final(self).spec_keys().len() == 0
                &&& final(self).spec_labels().len() == 0
            },
            !(c == '\u{8}' || c == '\u{1f}' || c == '\u{1b}' || c == '\u{3}') ==> *final(self)
                == *old(self),
    {
        if c == '\u{8}' || c == '\u{1f}' {
            // Use backspace to remove the last character pressed.
            self.keys.pop();
        } else if c == '\u{1b}' || c == '\u{3}' {
            // Cancel hint highlighting on ESC/Ctrl+c.
            self.stop();
        }
        None
    }

    /// Update the alphabet used for hint labels: a changed alphabet clears
    /// the pending keys.
    pub fn update_alphabet(&mut self, alphabet: &String)
        ensures
            final(self).spec_alphabet() == alphabet@,
            old(self).spec_alphabet() != alphabet@ ==> final(self).spec_keys().len() == 0,
            old(self).spec_alphabet() == alphabet@ ==> *final(self) == *old(self),
            final(self).spec_hint() == old(self).spec_hint(),
            final(self).spec_labels() == old(self).spec_labels(),
    {
        if !(self.alphabet == *alphabet) {
            self.alphabet = alphabet.clone();
            self.keys.clear();
        }
    }
}

} // verus!
