//! Edge-triggered key input.
//!
//! Every key has a level, pressed or released, and a mark that tells whether
//! an event for it arrived since the marks were last cleared. A key that
//! nothing was ever said of is released and unmarked.

use vstd::prelude::*;
use std::collections::HashSet;

verus! {

broadcast use vstd::std_specs::hash::group_hash_axioms;

/// A physical key: those that the frame loop binds, by name, and any other by
/// the number that the window system gives it.
#[derive(Copy, Clone, Debug, PartialEq, Eq, Structural)]
pub enum KeyCode {
    KeyA,
    KeyD,
    KeyF,
    KeyR,
    KeyS,
    KeyW,
    ArrowDown,
    ArrowLeft,
    ArrowRight,
    ArrowUp,
    F11,
    Other(u32),
}

/// What is known of one key.
#[derive(Copy, Clone, Debug, PartialEq, Eq, Structural)]
pub struct KeyState {
    /// The key is down.
    pub pressed: bool,
    /// An event for the key arrived since the marks were last cleared.
    pub changed: bool,
}

/// The number of keys that have a name of their own.
pub const NAMED_KEYS: u64 = 11;

impl KeyCode {
    /// The number under which a key is stored: one for each key.
    pub open spec fn spec_id(self) -> u64 {
        match self {
            KeyCode::KeyA => 0,
            KeyCode::KeyD => 1,
            KeyCode::KeyF => 2,
            KeyCode::KeyR => 3,
            KeyCode::KeyS => 4,
            KeyCode::KeyW => 5,
            KeyCode::ArrowDown => 6,
            KeyCode::ArrowLeft => 7,
            KeyCode::ArrowRight => 8,
            KeyCode::ArrowUp => 9,
            KeyCode::F11 => 10,
            KeyCode::Other(n) => (NAMED_KEYS + n) as u64,
        }
    }

    /// The number under which a key is stored.
    pub fn id(self) -> (r: u64)
        ensures
            r == self.spec_id(),
    {
        match self {
            KeyCode::KeyA => 0,
            KeyCode::KeyD => 1,
            KeyCode::KeyF => 2,
            KeyCode::KeyR => 3,
            KeyCode::KeyS => 4,
            KeyCode::KeyW => 5,
            KeyCode::ArrowDown => 6,
            KeyCode::ArrowLeft => 7,
            KeyCode::ArrowRight => 8,
            KeyCode::ArrowUp => 9,
            KeyCode::F11 => 10,
            KeyCode::Other(n) => NAMED_KEYS + n as u64,
        }
    }

    /// No two keys are stored under one number.
    pub proof fn lemma_id_injective(a: KeyCode, b: KeyCode)
        ensures
            a.spec_id() == b.spec_id() <==> a == b,
    {
    }
}

/// The state in which no key is pressed and none is marked.
pub open spec fn all_released() -> Map<KeyCode, KeyState> {
    Map::total(|key: KeyCode| KeyState { pressed: false, changed: false })
}

/// The state after an event for `key`: the key has the level of the event and
/// is marked, whatever it was before.
pub open spec fn key_changed(
    keys: Map<KeyCode, KeyState>,
    key: KeyCode,
    is_pressed: bool,
) -> Map<KeyCode, KeyState> {
    keys.insert(key, KeyState { pressed: is_pressed, changed: true })
}

/// The state after the marks are cleared: every key keeps its level and none
/// is marked.
pub open spec fn changes_cleared(keys: Map<KeyCode, KeyState>) -> Map<KeyCode, KeyState> {
    Map::total(|key: KeyCode| KeyState { pressed: keys[key].pressed, changed: false })
}

/// The key is down.
pub open spec fn key_pressed(keys: Map<KeyCode, KeyState>, key: KeyCode) -> bool {
    keys[key].pressed
}

/// The key is down and an event for it has not been acknowledged yet.
pub open spec fn key_clicked(keys: Map<KeyCode, KeyState>, key: KeyCode) -> bool {
    keys[key].pressed && keys[key].changed
}

/// A press is a click until the marks are cleared, and then no longer, though
/// the key is still down: after an event that presses `key` the key is
/// clicked, whatever the state was; after the marks are then cleared it is
/// pressed and not clicked.
pub proof fn lemma_click_lasts_until_cleared(keys: Map<KeyCode, KeyState>, key: KeyCode)
    ensures
        key_clicked(key_changed(keys, key, true), key),
        key_pressed(changes_cleared(key_changed(keys, key, true)), key),
        !key_clicked(changes_cleared(key_changed(keys, key, true)), key),
{
}

/// A key that is pressed and released before the marks are cleared is marked
/// and not clicked.
pub proof fn lemma_tap_within_window(keys: Map<KeyCode, KeyState>, key: KeyCode)
    ensures
        key_changed(key_changed(keys, key, true), key, false)[key] == (KeyState {
            pressed: false,
            changed: true,
        }),
        !key_clicked(key_changed(key_changed(keys, key, true), key, false), key),
{
}

/// A key is marked only by an event for it, and the mark lasts until the
/// marks are cleared: after an event a key is marked where the event was for
/// it or it was marked before, and after the marks are cleared no key is
/// marked.
pub proof fn lemma_mark_needs_event(
    keys: Map<KeyCode, KeyState>,
    key: KeyCode,
    is_pressed: bool,
    other: KeyCode,
)
    ensures
        key_changed(keys, key, is_pressed)[other].changed == (other == key || keys[other].changed),
        other != key ==> key_changed(keys, key, is_pressed)[other] == keys[other],
        !changes_cleared(keys)[other].changed,
        changes_cleared(keys)[other].pressed == keys[other].pressed,
{
}

/// The levels and marks of all keys at one moment.
pub struct State {
    pressed: HashSet<u64>,
    changed: HashSet<u64>,
}

impl View for State {
    type V = Map<KeyCode, KeyState>;

    closed spec fn view(&self) -> Map<KeyCode, KeyState> {
        Map::total(
            |key: KeyCode|
                KeyState {
                    pressed: self.pressed@.contains(key.spec_id()),
                    changed: self.changed@.contains(key.spec_id()),
                },
        )
    }
}

impl State {
    /// Whether the key is down.
    pub fn is_key_pressed(&self, key: KeyCode) -> (r: bool)
        ensures
            r == key_pressed(self@, key),
    {
        let id = key.id();
        self.pressed.contains(&id)
    }

    /// Whether the key is down and an event for it arrived since the marks
    /// were last cleared.
    pub fn is_key_clicked(&self, key: KeyCode) -> (r: bool)
        ensures
            r == key_clicked(self@, key),
    {
        let id = key.id();
        self.pressed.contains(&id) && self.changed.contains(&id)
    }

    /// What is known of the key.
    pub fn key_state(&self, key: KeyCode) -> (r: KeyState)
        ensures
            r == self@[key],
    {
        let id = key.id();
        KeyState { pressed: self.pressed.contains(&id), changed: self.changed.contains(&id) }
    }
}

/// The receiver of key events.
pub struct Input {
    state: State,
}

impl View for Input {
    type V = Map<KeyCode, KeyState>;

    closed spec fn view(&self) -> Map<KeyCode, KeyState> {
        self.state@
    }
}

impl Input {
    /// An input on which no key is pressed and none is marked.
    pub fn new() -> (r: Self)
        ensures
            r@ == all_released(),
    {
        let r = Input { state: State { pressed: HashSet::new(), changed: HashSet::new() } };
        assert(r@ =~= all_released());
        r
    }

    /// Takes an event for a key: the key gets the event's level and is
    /// marked, also where the level is the one it had.
    pub fn on_key_change(&mut self, key: KeyCode, is_pressed: bool)
        ensures
            final(self)@ == key_changed(old(self)@, key, is_pressed),
    {
        let id = key.id();
        if is_pressed {
            self.state.pressed.insert(id);
        } else {
            self.state.pressed.remove(&id);
        }
        self.state.changed.insert(id);
        proof {
            assert forall|other: KeyCode|
                self@[other] == #[trigger] key_changed(old(self)@, key, is_pressed)[other] by {
                KeyCode::lemma_id_injective(other, key);
            }
            assert(self@ =~= key_changed(old(self)@, key, is_pressed));
        }
    }

    /// The state as it is now, for one tick to read.
    pub fn get_state(&self) -> (r: &State)
        ensures
            r@ == self@,
    {
        &self.state
    }

    /// Clears the marks of all keys and keeps their levels.
    pub fn clear_changed(&mut self)
        ensures
            final(self)@ == changes_cleared(old(self)@),
    {
        self.state.changed.clear();
        assert(self@ =~= changes_cleared(old(self)@));
    }
}

} // verus!
