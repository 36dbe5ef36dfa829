//! The PS/2 keyboard protocol: scancodes to key events, controller responses, and
//! the stop conditions of the key-waiting loops.
use vstd::prelude::*;

verus! {

/// The keys the kernel reacts to.
#[derive(Debug, PartialEq, Eq, Structural)]
pub enum Key {
    Space,
    Up,
    Down,
    M,
    Unknown(u8),
}

/// Whether a key went down, came up, or the scancode was not understood.
#[derive(Debug, PartialEq, Eq, Structural)]
pub enum KeyState {
    Press,
    Release,
    Unknown,
}

/// One decoded scancode.
#[derive(Debug)]
pub struct Event {
    pub key: Key,
    pub state: KeyState,
}

/// Answers of the keyboard controller to a command.
#[derive(Debug, PartialEq, Eq, Structural)]
pub enum ResponseCodes {
    Ack,
    Error,
    Echo,
    InvalidCode,
}

/// The response a controller byte stands for.
pub open spec fn response_of(value: u8) -> ResponseCodes {
    if value == 0xFA {
        ResponseCodes::Ack
    } else if value == 0xFE {
        ResponseCodes::Error
    } else if value == 0xEE {
        ResponseCodes::Echo
    } else {
        ResponseCodes::InvalidCode
    }
}

impl ResponseCodes {
    /// Decodes a byte that the controller answered.
    pub fn from(value: u8) -> (r: Self)
        ensures
            r == response_of(value),
    {
        match value {
            0xFA => ResponseCodes::Ack,
            0xFE => ResponseCodes::Error,
            0xEE => ResponseCodes::Echo,
            _ => ResponseCodes::InvalidCode,
        }
    }
}

/// The key a scancode names: 39 and 0xB9 Space, 72 and 200 Up, 80 and 208 Down,
/// 0x32 and 0xB2 M; every other byte is an unknown key carrying the byte.
pub open spec fn key_of(value: u8) -> Key {
    if value == 39 || value == 0xB9 {
        Key::Space
    } else if value == 72 || value == 200 {
        Key::Up
    } else if value == 80 || value == 208 {
        Key::Down
    } else if value == 0x32 || value == 0xB2 {
        Key::M
    } else {
        Key::Unknown(value)
    }
}

/// The state a scancode reports: 39, 72, 80 and 0x32 press a key, 0xB9, 200, 208
/// and 0xB2 release it, every other byte is not understood.
pub open spec fn state_of(value: u8) -> KeyState {
    if value == 39 || value == 72 || value == 80 || value == 0x32 {
        KeyState::Press
    } else if value == 0xB9 || value == 200 || value == 208 || value == 0xB2 {
        KeyState::Release
    } else {
        KeyState::Unknown
    }
}

impl Event {
    /// Decodes a scancode.
    pub fn from(value: u8) -> (e: Self)
        ensures
            e.key == key_of(value),
            e.state == state_of(value),
            value == 39 ==> e.key == Key::Space && e.state == KeyState::Press,
            value == 0xB9 ==> e.key == Key::Space && e.state == KeyState::Release,
            value == 72 ==> e.key == Key::Up && e.state == KeyState::Press,
            value == 200 ==> e.key == Key::Up && e.state == KeyState::Release,
            value == 80 ==> e.key == Key::Down && e.state == KeyState::Press,
            value == 208 ==> e.key == Key::Down && e.state == KeyState::Release,
            value == 0x32 ==> e.key == Key::M && e.state == KeyState::Press,
            value == 0xB2 ==> e.key == Key::M && e.state == KeyState::Release,
            !(value == 39 || value == 0xB9 || value == 72 || value == 200 || value == 80 || value
                == 208 || value == 0x32 || value == 0xB2) ==> e.key == Key::Unknown(value)
                && e.state == KeyState::Unknown,
    {
        match value {
            39 => Event { key: Key::Space, state: KeyState::Press },
            0xB9 => Event { key: Key::Space, state: KeyState::Release },
            72 => Event { key: Key::Up, state: KeyState::Press },
            200 => Event { key: Key::Up, state: KeyState::Release },
            80 => Event { key: Key::Down, state: KeyState::Press },
            208 => Event { key: Key::Down, state: KeyState::Release },
            0x32 => Event { key: Key::M, state: KeyState::Press },
            0xB2 => Event { key: Key::M, state: KeyState::Release },
            _ => Event { key: Key::Unknown(value), state: KeyState::Unknown },
        }
    }
}

/// A scancode is understood exactly when it names a known key, and the known keys
/// are pressed and released by different codes.
pub proof fn lemma_scancode_known(value: u8)
    ensures
        (state_of(value) == KeyState::Unknown) <==> (key_of(value) == Key::Unknown(value)),
        state_of(value) != KeyState::Unknown ==> !(key_of(value) is Unknown),
{
}

/// The scancode table: each key has one press code and one release code, and
/// both name that key. Space is 39 and 0xB9, Up 72 and 200, Down 80 and 208, M
/// 0x32 and 0xB2; for Up, Down and M the release code is the press code plus
/// 0x80. Only these eight codes are understood.
pub proof fn lemma_scancode_table(v: u8)
    ensures
        key_of(39) == Key::Space && state_of(39) == KeyState::Press,
        key_of(0xB9) == Key::Space && state_of(0xB9) == KeyState::Release,
        key_of(72) == Key::Up && state_of(72) == KeyState::Press,
        key_of(200) == Key::Up && state_of(200) == KeyState::Release,
        key_of(80) == Key::Down && state_of(80) == KeyState::Press,
        key_of(208) == Key::Down && state_of(208) == KeyState::Release,
        key_of(0x32) == Key::M && state_of(0x32) == KeyState::Press,
        key_of(0xB2) == Key::M && state_of(0xB2) == KeyState::Release,
        state_of(v) == KeyState::Press && v != 39 ==> v + 0x80 <= u8::MAX && key_of(
            (v + 0x80) as u8,
        ) == key_of(v) && state_of((v + 0x80) as u8) == KeyState::Release,
        state_of(v) != KeyState::Unknown <==> (v == 39 || v == 0xB9 || v == 72 || v == 200 || v
            == 80 || v == 208 || v == 0x32 || v == 0xB2),
{
}

/// Equality of keys.
pub fn key_eq(a: &Key, b: &Key) -> (r: bool)
    ensures
        r == (*a == *b),
{
    match (a, b) {
        (Key::Space, Key::Space) => true,
        (Key::Up, Key::Up) => true,
        (Key::Down, Key::Down) => true,
        (Key::M, Key::M) => true,
        (Key::Unknown(x), Key::Unknown(y)) => *x == *y,
        _ => false,
    }
}

/// Equality of key states.
pub fn state_eq(a: &KeyState, b: &KeyState) -> (r: bool)
    ensures
        r == (*a == *b),
{
    match (a, b) {
        (KeyState::Press, KeyState::Press) => true,
        (KeyState::Release, KeyState::Release) => true,
        (KeyState::Unknown, KeyState::Unknown) => true,
        _ => false,
    }
}

/// Whether `keys` holds `key`.
pub fn contains_key(keys: &[Key], key: &Key) -> (r: bool)
    ensures
        r == keys@.contains(*key),
{
    let mut i: usize = 0;
    while i < keys.len()
        invariant
            i <= keys@.len(),
            forall|k: int| 0 <= k < i ==> keys@[k] != *key,
        decreases keys@.len() - i,
    {
        if key_eq(&keys[i], key) {
            assert(keys@[i as int] == *key);
            return true;
        }
        i = i + 1;
    }
    false
}

/// Whether the scan loop goes on reading after `event`.
pub open spec fn scan_continues(keys: Seq<Key>, event: Event) -> bool {
    (!keys.contains(event.key) && event.state == KeyState::Press) || event.state == KeyState::Unknown
}

/// Whether the controller status reports a byte waiting to be read (bit 0).
pub fn output_buffer_full(status: u8) -> (r: bool)
    ensures
        r == (status % 2 == 1),
{
    let r = status & 0x01 != 0;
    assert((status & 0x01u8 != 0) == (status % 2 == 1)) by (bit_vector);
    r
}

/// Whether the controller status reports that it is still busy with input (bit 1).
pub fn input_buffer_full(status: u8) -> (r: bool)
    ensures
        r == ((status / 2) % 2 == 1),
{
    let r = status & 0x02 != 0;
    assert((status & 0x02u8 != 0) == ((status / 2) % 2 == 1)) by (bit_vector);
    r
}

/// The PS/2 keyboard. Reading it is the caller's part; these functions decide
/// when the waiting loops stop.
pub struct Keyboard;

impl Keyboard {
    /// Whether `wait_key` stops at `event`: the event concerns `key`, whatever its state.
    pub fn wait_key_stops(&self, key: &Key, event: &Event) -> (r: bool)
        ensures
            r == (event.key == *key),
    {
        key_eq(&event.key, key)
    }

    /// Whether `event` is a press of M.
    pub fn m_pressed(&self, event: &Event) -> (r: bool)
        ensures
            r == (event.state == KeyState::Press && event.key == Key::M),
    {
        state_eq(&event.state, &KeyState::Press) && key_eq(&event.key, &Key::M)
    }

    /// Whether `scan` stops at `event`: it goes on while the event is a press of a
    /// key outside `keys`, or not understood; it stops at anything else.
    pub fn scan_stops(&self, keys: &[Key], event: &Event) -> (r: bool)
        ensures
            r == !scan_continues(keys@, *event),
    {
        let in_keys = contains_key(keys, &event.key);
        let pressed = state_eq(&event.state, &KeyState::Press);
        let unknown = state_eq(&event.state, &KeyState::Unknown);
        !((!in_keys && pressed) || unknown)
    }
}

} // verus!
