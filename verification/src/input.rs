//! Input state: which keys are held, whether a touch is down, and the
//! movement axes the held keys ask for.

use std::collections::HashMap;
use vstd::prelude::*;

verus! {

broadcast use vstd::std_specs::hash::group_hash_axioms;

/// Key codes as the browser reports them.
pub const KEY_LEFT: u32 = 37;
pub const KEY_UP: u32 = 38;
pub const KEY_RIGHT: u32 = 39;
pub const KEY_DOWN: u32 = 40;
pub const KEY_A: u32 = 65;
pub const KEY_D: u32 = 68;
pub const KEY_S: u32 = 83;
pub const KEY_W: u32 = 87;
pub const KEY_SPACE: u32 = 32;
pub const KEY_R: u32 = 82;
pub const KEY_TILDE: u32 = 192;

/// The keys heard of so far, each held or not, and whether a touch is down.
#[derive(Debug)]
pub struct WebInputSystem {
    pub keys: HashMap<u32, bool>,
    pub touch_active: bool,
}

/// Whether `keys` records `key_code` as held.
pub open spec fn pressed(keys: Map<u32, bool>, key_code: u32) -> bool {
    keys.contains_key(key_code) && keys[key_code]
}

/// One movement axis: -1 where only the key towards less is held (by letter
/// or by arrow), 1 where only the key towards more is held, 0 otherwise.
pub open spec fn axis(keys: Map<u32, bool>, less: u32, less_arrow: u32, more: u32, more_arrow: u32)
    -> int {
    (if pressed(keys, more) || pressed(keys, more_arrow) { 1int } else { 0int }) - (if pressed(
        keys,
        less,
    ) || pressed(keys, less_arrow) { 1int } else { 0int })
}

/// The movement the held keys ask for: x grows to the right, y grows downwards.
pub open spec fn movement(keys: Map<u32, bool>) -> (int, int) {
    (
        axis(keys, KEY_A, KEY_LEFT, KEY_D, KEY_RIGHT),
        axis(keys, KEY_W, KEY_UP, KEY_S, KEY_DOWN),
    )
}

impl WebInputSystem {
    /// No key held, no touch down.
    pub fn new() -> (input: Self)
        ensures
            input.keys@ == Map::<u32, bool>::empty(),
            !input.touch_active,
    {
        WebInputSystem { keys: HashMap::new(), touch_active: false }
    }

    /// Records that a key went down or came up.
    pub fn set_key(&mut self, key_code: u32, pressed: bool)
        ensures
            final(self).keys@ == old(self).keys@.insert(key_code, pressed),
            final(self).touch_active == old(self).touch_active,
    {
        self.keys.insert(key_code, pressed);
    }

    /// Whether a key is held. A key never heard of is not.
    pub fn is_key_pressed(&self, key_code: u32) -> (held: bool)
        ensures
            held == pressed(self.keys@, key_code),
    {
        match self.keys.get(&key_code) {
            Some(state) => *state,
            None => false,
        }
    }

    /// Records how many touches are down.
    pub fn set_touch(&mut self, touch_count: usize)
        ensures
            final(self).touch_active == (touch_count > 0),
            final(self).keys@ == old(self).keys@,
    {
        self.touch_active = touch_count > 0;
    }

    /// The movement axes asked for by the letter and arrow keys held, each -1, 0 or 1.
    pub fn get_movement_input(&self) -> (axes: (i8, i8))
        ensures
            (axes.0 as int, axes.1 as int) == movement(self.keys@),
            -1 <= axes.0 <= 1,
            -1 <= axes.1 <= 1,
    {
        let mut x: i8 = 0;
        let mut y: i8 = 0;
        if self.is_key_pressed(KEY_W) || self.is_key_pressed(KEY_UP) {
            y = y - 1;
        }
        if self.is_key_pressed(KEY_S) || self.is_key_pressed(KEY_DOWN) {
            y = y + 1;
        }
        if self.is_key_pressed(KEY_A) || self.is_key_pressed(KEY_LEFT) {
            x = x - 1;
        }
        if self.is_key_pressed(KEY_D) || self.is_key_pressed(KEY_RIGHT) {
            x = x + 1;
        }
        (x, y)
    }
}

} // verus!
