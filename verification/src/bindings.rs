//! Key and mouse bindings and their matching rules.
//!
//! A binding carries a trigger (a resolved key code, a raw scancode, or a
//! mouse button), an exact modifier mask, a mode mask whose bits must all be
//! set, a mask whose bits must all be clear, and the action to run. Matching
//! is order-stable and every matching binding fires, not just the first.

use vstd::prelude::*;
use crate::event::MouseButton;
use crate::hint::Hint;
use crate::modes::{BindingMode, ModifiersState};

verus! {

/// A key trigger: either a resolved key code or a raw scancode.
#[derive(Clone, Copy, PartialEq, Eq, Structural, Debug)]
pub enum Key {
    /// A resolved (layout-dependent) key code, as a plain number.
    Keycode(u32),
    /// A raw hardware scancode.
    Scancode(u32),
}

/// A search-related binding action.
#[derive(Clone, Copy, PartialEq, Eq, Structural, Debug)]
pub enum SearchAction {
    SearchFocusNext,
    SearchFocusPrevious,
    SearchConfirm,
    SearchCancel,
    SearchClear,
    SearchDeleteWord,
    SearchHistoryPrevious,
    SearchHistoryNext,
}

/// A mouse-specific binding action.
#[derive(Clone, Copy, PartialEq, Eq, Structural, Debug)]
pub enum MouseAction {
    ExpandSelection,
}

/// An external command with its arguments.
#[derive(Clone, PartialEq, Eq, Debug)]
pub struct Program {
    pub program: String,
    pub args: Vec<String>,
}

/// The action a binding runs when it fires.
#[derive(Clone, PartialEq, Eq, Debug)]
pub enum Action {
    /// Write an escape string to the PTY.
    Esc(String),
    /// Spawn an external command.
    Command(Program),
    /// Start hint selection for a configured hint.
    Hint(Hint),
    Search(SearchAction),
    Mouse(MouseAction),
    SearchForward,
    SearchBackward,
    Copy,
    CopySelection,
    ClearSelection,
    Paste,
    PasteSelection,
    ToggleFullscreen,
    ToggleMaximized,
    Hide,
    Minimize,
    Quit,
    IncreaseFontSize,
    DecreaseFontSize,
    ResetFontSize,
    ScrollPageUp,
    ScrollPageDown,
    ScrollHalfPageUp,
    ScrollHalfPageDown,
    ScrollLineUp,
    ScrollLineDown,
    ScrollToTop,
    ScrollToBottom,
    ClearHistory,
    ClearLogNotice,
    SpawnNewInstance,
    CreateNewWindow,
    /// Sentinel: let the pressed key's character through to the PTY.
    ReceiveChar,
    /// Do nothing.
    Noop,
}

impl Action {
    /// Whether this is the `ReceiveChar` sentinel, used only for the
    /// character-suppression decision.
    pub fn is_receive_char(&self) -> (r: bool)
        ensures
            r == (*self is ReceiveChar),
    {
        match self {
            Action::ReceiveChar => true,
            _ => false,
        }
    }
}

/// Equality test for binding triggers.
pub trait TriggerEq: Sized {
    /// Whether the two triggers are the same.
    fn trigger_eq(&self, other: &Self) -> (r: bool)
        ensures
            r == (self == other),
    ;
}

impl TriggerEq for Key {
    fn trigger_eq(&self, other: &Key) -> (r: bool)
        ensures
            r == (self == other),
    {
        *self == *other
    }
}

impl TriggerEq for MouseButton {
    fn trigger_eq(&self, other: &MouseButton) -> (r: bool)
        ensures
            r == (self == other),
    {
        *self == *other
    }
}

/// A trigger paired with the conditions under which it fires and the action
/// it runs. Bindings are immutable, ordered, and supplied by the host's
/// configuration.
#[derive(Clone, PartialEq, Eq, Debug)]
pub struct Binding<T> {
    /// The trigger itself.
    pub trigger: T,
    /// Modifiers that must match exactly.
    pub mods: ModifiersState,
    /// Binding-mode bits that must all be set.
    pub mode: BindingMode,
    /// Binding-mode bits that must all be clear.
    pub notmode: BindingMode,
    /// Action to run when the binding fires.
    pub action: Action,
}

/// A binding whose trigger is a key.
pub type KeyBinding = Binding<Key>;

/// A binding whose trigger is a mouse button.
pub type MouseBinding = Binding<MouseButton>;

impl<T> Binding<T> {
    /// Whether this binding fires for `input` under the live mode mask and
    /// modifiers: the trigger is the same, the modifiers match exactly,
    /// every `mode` bit is set and no `notmode` bit is set.
    pub open spec fn spec_triggered(
        self,
        mode: BindingMode,
        mods: ModifiersState,
        input: T,
    ) -> bool {
        &&& self.trigger == input
        &&& self.mods == mods
        &&& mode.spec_contains(self.mode)
        &&& !mode.spec_intersects(self.notmode)
    }

    /// Whether two bindings have the same trigger, the same modifiers and
    /// the same mode masks, so that one overrides the other.
    pub open spec fn spec_triggers_match(self, other: Binding<T>) -> bool {
        &&& self.trigger == other.trigger
        &&& self.mods == other.mods
        &&& self.mode == other.mode
        &&& self.notmode == other.notmode
    }
}

impl<T: TriggerEq> Binding<T> {
    /// Check whether this binding fires for `input` under the live mode mask
    /// and modifiers.
    pub fn is_triggered_by(&self, mode: BindingMode, mods: ModifiersState, input: &T) -> (r: bool)
        ensures
            r == self.spec_triggered(mode, mods, *input),
    {
        self.trigger.trigger_eq(input) && self.mods == mods && mode.contains(self.mode)
            && !mode.intersects(self.notmode)
    }

    /// Check whether the two bindings share trigger, modifiers and mode
    /// masks.
    pub fn triggers_match(&self, other: &Binding<T>) -> (r: bool)
        ensures
            r == self.spec_triggers_match(*other),
    {
        self.trigger.trigger_eq(&other.trigger) && self.mods == other.mods && self.mode
            == other.mode && self.notmode == other.notmode
    }
}

/// Whether `b` overrides some binding in `user`.
pub open spec fn spec_overridden<T>(b: Binding<T>, user: Seq<Binding<T>>) -> bool {
    exists|i: int| 0 <= i < user.len() && #[trigger] user[i].spec_triggers_match(b)
}

/// The defaults of `default` that no binding of `user` overrides, in order.
pub open spec fn spec_retained<T>(default: Seq<Binding<T>>, user: Seq<Binding<T>>) -> Seq<
    Binding<T>,
>
    decreases default.len(),
{
    if default.len() == 0 {
        Seq::empty()
    } else {
        spec_retained(default.drop_last(), user) + (if spec_overridden(default.last(), user) {
            Seq::empty()
        } else {
            seq![default.last()]
        })
    }
}

/// Merge user bindings with the defaults: a user binding whose trigger,
/// modifiers and mode masks match a default suppresses that default; the
/// surviving defaults follow the user bindings in their original order.
pub fn merge_bindings<T: TriggerEq>(user: Vec<Binding<T>>, default: Vec<Binding<T>>) -> (r: Vec<
    Binding<T>,
>)
    ensures
        r@ == user@ + spec_retained(default@, user@),
{
    let user_len = user.len();
    let ghost user_view = user@;
    let ghost default_view = default@;
    let mut out = user;
    let mut rest = default;
    while rest.len() > 0
        invariant
            rest@.len() <= default_view.len(),
            rest@ == default_view.skip(default_view.len() - rest@.len()),
            user_len == user_view.len(),
            out@.len() >= user_len,
            out@.take(user_len as int) == user_view,
            out@ == user_view + spec_retained(
                default_view.take(default_view.len() - rest@.len()),
                user_view,
            ),
        decreases rest@.len(),
    {
        let ghost j = default_view.len() - rest@.len();
        let b = rest.remove(0);
        proof {
            assert(b == default_view[j]);
            assert(rest@ =~= default_view.skip(j + 1));
        }
        // Check whether some user binding overrides this default.
        let mut overridden = false;
        let mut i: usize = 0;
        while i < user_len
            invariant
                i <= user_len,
                user_len <= out@.len(),
                out@.take(user_len as int) == user_view,
                b == default_view[j],
                overridden == exists|k: int|
                    0 <= k < i && #[trigger] user_view[k].spec_triggers_match(default_view[j]),
            decreases user_len - i,
        {
            assert(out@[i as int] == user_view[i as int]);
            if out[i].triggers_match(&b) {
                overridden = true;
            }
            i = i + 1;
        }
        proof {
            assert(overridden == spec_overridden(default_view[j], user_view));
        }
        if !overridden {
            out.push(b);
        }
        proof {
            assert(default_view.take(j + 1).drop_last() =~= default_view.take(j));
            assert(default_view.take(j + 1).last() == default_view[j]);
        }
    }
    proof {
        assert(default_view.take(default_view.len() as int) =~= default_view);
    }
    out
}

/// A keyboard event as the host hands it in: press state, the raw hardware
/// scancode and the resolved key code, when the platform gives one.
#[derive(Clone, Copy, PartialEq, Eq, Structural, Debug)]
pub struct KeyboardInput {
    pub state: crate::event::ElementState,
    pub scancode: u32,
    pub virtual_keycode: Option<u32>,
}

/// The candidate key a binding's trigger is compared against: scancode
/// bindings match on the raw scancode, all others on the resolved key code,
/// which may be absent.
pub open spec fn spec_key_for(trigger: Key, input: KeyboardInput) -> Option<Key> {
    match trigger {
        Key::Scancode(_) => Some(Key::Scancode(input.scancode)),
        Key::Keycode(_) => match input.virtual_keycode {
            Some(code) => Some(Key::Keycode(code)),
            None => None,
        },
    }
}

/// Whether the key binding at hand fires for this keyboard event.
pub open spec fn spec_key_triggered(
    b: Binding<Key>,
    mode: BindingMode,
    mods: ModifiersState,
    input: KeyboardInput,
) -> bool {
    match spec_key_for(b.trigger, input) {
        Some(key) => b.spec_triggered(mode, mods, key),
        None => false,
    }
}

/// Whether a key press's character is suppressed: at least one binding
/// fired and none of the fired bindings is the `ReceiveChar` sentinel.
/// Suppression is the conjunction, over all matches, of "the action is not
/// `ReceiveChar`"; with no match at all the character passes through.
pub open spec fn spec_suppress_chars(
    bindings: Seq<Binding<Key>>,
    mode: BindingMode,
    mods: ModifiersState,
    input: KeyboardInput,
) -> bool {
    &&& exists|i: int|
        0 <= i < bindings.len() && spec_key_triggered(#[trigger] bindings[i], mode, mods, input)
    &&& forall|i: int|
        0 <= i < bindings.len() && spec_key_triggered(#[trigger] bindings[i], mode, mods, input)
            ==> !(bindings[i].action is ReceiveChar)
}

/// Find every key binding that the event fires, and decide whether the
/// key's character is suppressed.
///
/// The result lists the indices of the triggered bindings in configuration
/// order, all of them. The character is suppressed exactly when at least one
/// binding fired and none of the fired bindings is the `ReceiveChar`
/// sentinel: suppression is the conjunction, over all matches, of
/// "the action is not `ReceiveChar`", and with no match at all the
/// character passes through.
pub fn match_key_bindings(
    bindings: &Vec<Binding<Key>>,
    mode: BindingMode,
    mods: ModifiersState,
    input: KeyboardInput,
) -> (r: (Vec<usize>, bool))
    ensures
        forall|k: int|
            0 <= k < r.0@.len() ==> r.0@[k] < bindings@.len() && spec_key_triggered(
                bindings@[r.0@[k] as int],
                mode,
                mods,
                input,
            ),
        forall|k1: int, k2: int| 0 <= k1 < k2 < r.0@.len() ==> r.0@[k1] < r.0@[k2],
        forall|i: int|
            0 <= i < bindings@.len() && spec_key_triggered(#[trigger] bindings@[i], mode, mods, input)
                ==> r.0@.contains(i as usize),
        r.1 == (r.0@.len() > 0 && forall|k: int|
            0 <= k < r.0@.len() ==> !(#[trigger] bindings@[r.0@[k] as int].action is ReceiveChar)),
{
    let mut matched: Vec<usize> = Vec::new();
    let mut all_non_receive = true;
    let mut i: usize = 0;
    while i < bindings.len()
        invariant
            i <= bindings@.len(),
            forall|k: int|
                0 <= k < matched@.len() ==> matched@[k] < i && spec_key_triggered(
                    bindings@[matched@[k] as int],
                    mode,
                    mods,
                    input,
                ),
            forall|k1: int, k2: int| 0 <= k1 < k2 < matched@.len() ==> matched@[k1] < matched@[k2],
            forall|j: int|
                0 <= j < i && spec_key_triggered(#[trigger] bindings@[j], mode, mods, input)
                    ==> matched@.contains(j as usize),
            all_non_receive == forall|k: int|
                0 <= k < matched@.len() ==> !(#[trigger] bindings@[matched@[k] as int].action
                    is ReceiveChar),
        decreases bindings@.len() - i,
    {
        let binding = &bindings[i];
        let key = match binding.trigger {
            Key::Scancode(_) => Some(Key::Scancode(input.scancode)),
            Key::Keycode(_) => match input.virtual_keycode {
                Some(code) => Some(Key::Keycode(code)),
                None => None,
            },
        };
        let mut fired = false;
        if let Some(key) = key {
            if binding.is_triggered_by(mode, mods, &key) {
                fired = true;
            }
        }
        if fired {
            let ghost before = matched@;
            matched.push(i);
            let receives = binding.action.is_receive_char();
            if receives {
                all_non_receive = false;
            }
            proof {
                lemma_push_members(before, i);
                if receives {
                    assert(matched@[matched@.len() - 1] == i);
                    assert(bindings@[i as int].action is ReceiveChar);
                } else if all_non_receive {
                    assert forall|k: int| 0 <= k < matched@.len() implies !(
                    #[trigger] bindings@[matched@[k] as int].action is ReceiveChar) by {
                        if k < before.len() {
                            assert(matched@[k] == before[k]);
                        } else {
                            assert(matched@[k] == i);
                        }
                    }
                } else {
                    let k0 = choose|k: int|
                        0 <= k < before.len() && #[trigger] bindings@[before[k] as int].action
                            is ReceiveChar;
                    assert(matched@[k0] == before[k0]);
                }
                assert(forall|j: int|
                    0 <= j < i && spec_key_triggered(#[trigger] bindings@[j], mode, mods, input)
                        ==> matched@.contains(j as usize));
                assert(matched@.contains(i as usize));
            }
        }
        i = i + 1;
    }
    let suppress = matched.len() > 0 && all_non_receive;
    (matched, suppress)
}

/// After a push, the sequence holds its old members and the new one.
proof fn lemma_push_members(s: Seq<usize>, x: usize)
    ensures
        forall|y: usize| s.contains(y) ==> #[trigger] s.push(x).contains(y),
        s.push(x).contains(x),
        forall|k: int| 0 <= k < s.len() ==> s.push(x)[k] == s[k],
        s.push(x)[s.len() as int] == x,
{
    assert forall|y: usize| s.contains(y) implies #[trigger] s.push(x).contains(y) by {
        let k = choose|k: int| 0 <= k < s.len() && s[k] == y;
        assert(s.push(x)[k] == y);
    }
    assert(s.push(x)[s.len() as int] == x);
}

/// Find every mouse binding that the button press fires, in configuration
/// order. When the terminal itself is in mouse mode, every binding demands
/// shift on top of its configured modifiers, so that bindings stay reachable
/// while the application grabs the mouse.
pub fn match_mouse_bindings(
    bindings: &Vec<Binding<MouseButton>>,
    mode: BindingMode,
    mouse_mode: bool,
    mods: ModifiersState,
    button: MouseButton,
) -> (r: Vec<usize>)
    ensures
        forall|k: int|
            0 <= k < r@.len() ==> r@[k] < bindings@.len() && spec_mouse_triggered(
                bindings@[r@[k] as int],
                mode,
                mouse_mode,
                mods,
                button,
            ),
        forall|k1: int, k2: int| 0 <= k1 < k2 < r@.len() ==> r@[k1] < r@[k2],
        forall|i: int|
            0 <= i < bindings@.len() && spec_mouse_triggered(
                #[trigger] bindings@[i],
                mode,
                mouse_mode,
                mods,
                button,
            ) ==> r@.contains(i as usize),
{
    let mut matched: Vec<usize> = Vec::new();
    let mut i: usize = 0;
    while i < bindings.len()
        invariant
            i <= bindings@.len(),
            forall|k: int|
                0 <= k < matched@.len() ==> matched@[k] < i && spec_mouse_triggered(
                    bindings@[matched@[k] as int],
                    mode,
                    mouse_mode,
                    mods,
                    button,
                ),
            forall|k1: int, k2: int| 0 <= k1 < k2 < matched@.len() ==> matched@[k1] < matched@[k2],
            forall|j: int|
                0 <= j < i && spec_mouse_triggered(
                    #[trigger] bindings@[j],
                    mode,
                    mouse_mode,
                    mods,
                    button,
                ) ==> matched@.contains(j as usize),
        decreases bindings@.len() - i,
    {
        let binding = &bindings[i];
        let required_mods = if mouse_mode {
            binding.mods.with_shift()
        } else {
            binding.mods
        };
        if binding.trigger.trigger_eq(&button) && required_mods == mods && mode.contains(
            binding.mode,
        ) && !mode.intersects(binding.notmode) {
            let ghost before = matched@;
            matched.push(i);
            proof {
                lemma_push_members(before, i);
                assert(forall|j: int|
                    0 <= j < i && spec_mouse_triggered(
                        #[trigger] bindings@[j],
                        mode,
                        mouse_mode,
                        mods,
                        button,
                    ) ==> matched@.contains(j as usize));
                assert(matched@.contains(i as usize));
            }
        }
        i = i + 1;
    }
    matched
}

/// Whether the mouse binding fires for this button press. In mouse mode the
/// binding's modifier requirement gains shift.
pub open spec fn spec_mouse_triggered(
    b: Binding<MouseButton>,
    mode: BindingMode,
    mouse_mode: bool,
    mods: ModifiersState,
    button: MouseButton,
) -> bool {
    let required = if mouse_mode {
        ModifiersState { shift: true, ..b.mods }
    } else {
        b.mods
    };
    &&& b.trigger == button
    &&& required == mods
    &&& mode.spec_contains(b.mode)
    &&& !mode.spec_intersects(b.notmode)
}

} // verus!
