//! Keys, and which of them are held down.
use std::collections::HashSet;
use vstd::prelude::*;

verus! {

broadcast use vstd::std_specs::hash::group_hash_axioms;

/// A key by its meaning, whether it comes from the keyboard or from the input method. `Mapped`
/// carries what the key table gives for every key that has no name here.
#[derive(Debug, PartialEq)]
pub enum Key<K> {
    Backspace,
    Enter,
    Mapped(K),
}

/// A key code of the platform.
#[derive(Clone, Copy, Debug, PartialEq, Eq, Hash, Structural)]
pub enum NativeKeyCode {
    Unidentified,
    Ohos(u32),
}

/// A key by its place on the keyboard.
#[derive(Clone, Copy, Debug, PartialEq, Eq, Hash, Structural)]
pub enum KeyCode {
    Backspace,
    Enter,
    Unidentified(NativeKeyCode),
}

/// Which of several keys of the same meaning was used.
#[derive(Clone, Copy, Debug, PartialEq, Eq, Hash, Structural)]
pub enum KeyLocation {
    Standard,
    Left,
    Right,
    Numpad,
}

/// The modifier keys that accompany an event.
#[derive(Clone, Copy, Debug, PartialEq, Eq, Hash, Structural)]
pub struct ModifiersState {
    pub shift: bool,
    pub control: bool,
    pub alt: bool,
    pub super_key: bool,
}

impl ModifiersState {
    /// No modifier.
    pub open spec fn none() -> ModifiersState {
        ModifiersState { shift: false, control: false, alt: false, super_key: false }
    }

    /// The control key alone.
    pub open spec fn only_control() -> ModifiersState {
        ModifiersState { shift: false, control: true, alt: false, super_key: false }
    }

    /// No modifier.
    pub fn empty() -> (modifiers: ModifiersState)
        ensures
            modifiers == ModifiersState::none(),
    {
        ModifiersState { shift: false, control: false, alt: false, super_key: false }
    }

    /// The control key alone.
    pub fn control() -> (modifiers: ModifiersState)
        ensures
            modifiers == ModifiersState::only_control(),
    {
        ModifiersState { shift: false, control: true, alt: false, super_key: false }
    }
}

/// What the platform adds to a key event: nothing.
#[derive(Clone, Copy, Debug, PartialEq, Eq, Hash, Structural)]
pub struct KeyEventExtra {}

/// The scan code of a key code. The platform has none.
pub fn keycode_to_scancode(_code: KeyCode) -> (scancode: Option<u32>)
    ensures
        scancode is None,
{
    None
}

/// The key code of a scan code. The platform knows none.
pub fn keycode_from_scancode(_scancode: u32) -> (code: KeyCode)
    ensures
        code == KeyCode::Unidentified(NativeKeyCode::Unidentified),
{
    KeyCode::Unidentified(NativeKeyCode::Unidentified)
}

/// What happened to a key, as the ability framework reports it.
#[derive(Clone, Copy, Debug, PartialEq, Eq, Structural)]
pub enum KeyAction {
    Unknown,
    Down,
    Up,
}

/// The keys that are held down.
#[derive(Debug)]
pub struct PressedKeys {
    keys: HashSet<i32>,
}

impl View for PressedKeys {
    type V = Set<i32>;

    closed spec fn view(&self) -> Set<i32> {
        self.keys@
    }
}

/// The keys held after a key that was among `held` or not has seen `action`.
pub open spec fn held_after(held: Set<i32>, action: KeyAction, key: i32) -> Set<i32> {
    match action {
        KeyAction::Down => held.insert(key),
        KeyAction::Up => held.remove(key),
        KeyAction::Unknown => held,
    }
}

/// Whether the action repeats one that is still in effect.
pub open spec fn is_repeat(held: Set<i32>, action: KeyAction, key: i32) -> bool {
    action is Down && held.contains(key)
}

impl PressedKeys {
    /// No key is held.
    pub fn new() -> (keys: PressedKeys)
        ensures
            keys@ == Set::<i32>::empty(),
    {
        PressedKeys { keys: HashSet::new() }
    }

    /// Notes what happened to a key and says whether it went down without having come up.
    pub fn record(&mut self, action: KeyAction, key: i32) -> (repeat: bool)
        ensures
            final(self)@ == held_after(old(self)@, action, key),
            repeat == is_repeat(old(self)@, action, key),
    {
        match action {
            KeyAction::Down => !self.keys.insert(key),
            KeyAction::Up => {
                self.keys.remove(&key);
                false
            },
            KeyAction::Unknown => false,
        }
    }
}

/// A key action and the key it befell.
pub struct KeyStroke {
    pub action: KeyAction,
    pub key: i32,
}

/// The keys held once all strokes of `history` have been recorded, oldest first.
pub open spec fn held_by(history: Seq<KeyStroke>) -> Set<i32>
    decreases history.len(),
{
    if history.len() == 0 {
        Set::empty()
    } else {
        held_after(
            held_by(history.drop_last()),
            history.last().action,
            history.last().key,
        )
    }
}

/// Whether `key` went down at stroke `i` and did not come up later.
pub open spec fn down_since(history: Seq<KeyStroke>, key: i32, i: int) -> bool {
    &&& 0 <= i < history.len()
    &&& history[i] == KeyStroke { action: KeyAction::Down, key }
    &&& forall|j: int|
        i < j < history.len() ==> #[trigger] history[j] != KeyStroke { action: KeyAction::Up, key }
}

/// A key counts as held exactly if it has gone down and has not come up since.
pub proof fn law_held_means_down_and_not_up(history: Seq<KeyStroke>, key: i32)
    ensures
        held_by(history).contains(key) <==> exists|i: int| down_since(history, key, i),
    decreases history.len(),
{
    if history.len() > 0 {
        let before = history.drop_last();
        let last = history.last();
        let end = history.len() - 1;
        law_held_means_down_and_not_up(before, key);
        assert(history[end] == last);
        if last == (KeyStroke { action: KeyAction::Down, key }) {
            assert(down_since(history, key, end));
        } else if last == (KeyStroke { action: KeyAction::Up, key }) {
            assert forall|i: int| !down_since(history, key, i) by {
                if 0 <= i < end {
                    assert(history[end] == last);
                }
            }
        } else {
            assert forall|i: int| down_since(before, key, i) implies down_since(
                history,
                key,
                i,
            ) by {
                assert forall|j: int| i < j < history.len() implies #[trigger] history[j] != (
                KeyStroke { action: KeyAction::Up, key }) by {
                    if j < end {
                        assert(before[j] == history[j]);
                    }
                }
                assert(before[i] == history[i]);
            }
            assert forall|i: int| down_since(history, key, i) implies down_since(
                before,
                key,
                i,
            ) by {
                assert(before[i] == history[i]);
                assert forall|j: int| i < j < before.len() implies #[trigger] before[j] != (
                KeyStroke { action: KeyAction::Up, key }) by {
                    assert(before[j] == history[j]);
                }
            }
        }
    }
}

/// A key that goes down is reported as a repeat exactly if it has gone down before and has not
/// come up since; nothing else is reported as one.
pub proof fn law_repeat_means_still_held(history: Seq<KeyStroke>, action: KeyAction, key: i32)
    ensures
        is_repeat(held_by(history), action, key) <==> action is Down && exists|i: int|
            down_since(history, key, i),
{
    law_held_means_down_and_not_up(history, key);
}

/// After a key went down it is held, after it came up it is not, and any other report of it leaves
/// that as it was. Only a key that goes down while it is held repeats.
pub proof fn law_keys_are_held_until_they_come_up(
    keys: &mut PressedKeys,
    action: KeyAction,
    key: i32,
    repeat: bool,
)
    requires
        call_ensures(PressedKeys::record, (keys, action, key), repeat),
    ensures
        final(keys)@.contains(key) <==> action is Down || (old(keys)@.contains(key) && action
            !is Up),
        forall|other: i32|
            other != key ==> (#[trigger] final(keys)@.contains(other) <==> old(keys)@.contains(
                other,
            )),
        repeat <==> action is Down && old(keys)@.contains(key),
{
}

/// What happens to one key leaves every other key held or not held as it was.
pub proof fn law_keys_are_independent(held: Set<i32>, action: KeyAction, key: i32, other: i32)
    requires
        other != key,
    ensures
        held_after(held, action, key).contains(other) == held.contains(other),
{
}

} // verus!
