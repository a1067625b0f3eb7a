use vstd::prelude::*;

verus! {

/// The byte `;` that opens a modified-key sequence.
pub const SEPARATOR: u8 = 0x3B;

/// Logical key code reported for the up arrow.
pub const KEY_UP: u8 = 0x11;
/// Logical key code reported for the down arrow.
pub const KEY_DOWN: u8 = 0x12;
/// Logical key code reported for the right arrow.
pub const KEY_RIGHT: u8 = 0x13;
/// Logical key code reported for the left arrow.
pub const KEY_LEFT: u8 = 0x14;

/// Which of the four modifier keys were held.
#[derive(Clone, Copy, Debug, PartialEq, Eq, Structural)]
pub struct KeyModifiers {
    pub alt: bool,
    pub meta: bool,
    pub shift: bool,
    pub control: bool,
}

/// A decoded key press: a logical key code and its modifiers.
#[derive(Clone, Copy, Debug, PartialEq, Eq, Structural)]
pub struct Key {
    pub char: u8,
    pub modifiers: KeyModifiers,
}

/// An input event handed on to the engine.
#[derive(Clone, Copy, Debug, PartialEq, Eq, Structural)]
pub enum Event {
    KeyPress { key: Key },
}

/// What one byte fed to the decoder amounted to.
#[derive(Clone, Copy, Debug, PartialEq, Eq, Structural)]
pub enum ParseControlFlow {
    /// The byte was taken into a sequence that is not finished yet.
    NeedMore,
    /// The byte starts no sequence; the caller treats it as an ordinary character.
    NotConsumed,
    /// The byte ended a sequence, which yielded at most one event.
    Done(Option<Event>),
}

/// Where the decoder stands between two bytes.
#[derive(Clone, Copy, Debug, PartialEq, Eq, Structural)]
pub enum DecoderState {
    /// Between sequences (the initial state).
    Separator,
    /// After `;`, with the modifier code read so far.
    Modifier(u8),
}

/// Incremental decoder of `; <modifier code> <terminator>` key sequences.
pub struct Keyboard {
    state: DecoderState,
}

pub open spec fn no_modifiers() -> KeyModifiers {
    KeyModifiers { alt: false, meta: false, shift: false, control: false }
}

/// The modifiers that a code stands for. Codes 2 to 16 are one more than a
/// four-bit set in which shift is worth 1, alt 2, control 4 and meta 8; every
/// other code means no modifier.
pub open spec fn modifiers_of(code: u8) -> KeyModifiers {
    if 2 <= code <= 16 {
        let n = code - 1;
        KeyModifiers {
            shift: n % 2 == 1,
            alt: (n / 2) % 2 == 1,
            control: (n / 4) % 2 == 1,
            meta: (n / 8) % 2 == 1,
        }
    } else {
        no_modifiers()
    }
}

/// The logical key that a sequence terminator names, if any.
pub open spec fn key_code_of(terminator: u8) -> Option<u8> {
    if terminator == 0x41 /* 'A' */ {
        Some(KEY_UP)
    } else if terminator == 0x42 /* 'B' */ {
        Some(KEY_DOWN)
    } else if terminator == 0x43 /* 'C' */ {
        Some(KEY_RIGHT)
    } else if terminator == 0x44 /* 'D' */ {
        Some(KEY_LEFT)
    } else {
        None
    }
}

/// The event that a terminator and a modifier code make together.
pub open spec fn key_event(terminator: u8, code: u8) -> Option<Event> {
    match key_code_of(terminator) {
        Some(c) => Some(Event::KeyPress { key: Key { char: c, modifiers: modifiers_of(code) } }),
        None => None,
    }
}

pub open spec fn is_digit(b: u8) -> bool {
    0x30 <= b <= 0x39
}

/// Appends a decimal digit to a modifier code. A code that would pass 255
/// stays at 255, which like every code above 16 means no modifier.
pub open spec fn accumulate(code: u8, digit: u8) -> u8 {
    let v = code * 10 + (digit - 0x30);
    if v > 255 { 255 } else { v as u8 }
}

/// One step of the decoder: the next state and what the byte amounted to.
pub open spec fn decode_step(s: DecoderState, b: u8) -> (DecoderState, ParseControlFlow) {
    match s {
        DecoderState::Separator => if b == SEPARATOR {
            (DecoderState::Modifier(0), ParseControlFlow::NeedMore)
        } else {
            (DecoderState::Separator, ParseControlFlow::NotConsumed)
        },
        DecoderState::Modifier(code) => if is_digit(b) {
            (DecoderState::Modifier(accumulate(code, b)), ParseControlFlow::NeedMore)
        } else {
            (DecoderState::Separator, ParseControlFlow::Done(key_event(b, code)))
        },
    }
}

impl KeyModifiers {
    /// Decodes a modifier code.
    pub fn parse(key: u8) -> (r: KeyModifiers)
        ensures
            r == modifiers_of(key),
    {
        let (shift, alt, control, meta) = match key {
            2 => (true, false, false, false),
            3 => (false, true, false, false),
            4 => (true, true, false, false),
            5 => (false, false, true, false),
            6 => (true, false, true, false),
            7 => (false, true, true, false),
            8 => (true, true, true, false),
            9 => (false, false, false, true),
            10 => (true, false, false, true),
            11 => (false, true, false, true),
            12 => (true, true, false, true),
            13 => (false, false, true, true),
            14 => (true, false, true, true),
            15 => (false, true, true, true),
            16 => (true, true, true, true),
            _ => (false, false, false, false),
        };
        KeyModifiers { alt, meta, shift, control }
    }
}

impl Default for KeyModifiers {
    fn default() -> (r: KeyModifiers)
        ensures
            r == no_modifiers(),
    {
        KeyModifiers { alt: false, meta: false, shift: false, control: false }
    }
}

impl From<u8> for Key {
    fn from(char: u8) -> (r: Key) {
        Key { char, modifiers: KeyModifiers { alt: false, meta: false, shift: false, control: false } }
    }
}

impl vstd::std_specs::convert::FromSpecImpl<u8> for Key {
    open spec fn obeys_from_spec() -> bool {
        true
    }

    open spec fn from_spec(v: u8) -> Key {
        Key { char: v, modifiers: no_modifiers() }
    }
}

impl Keyboard {
    pub closed spec fn view(&self) -> DecoderState {
        self.state
    }

    /// A decoder between sequences.
    pub fn new() -> (r: Keyboard)
        ensures
            r.view() == DecoderState::Separator,
    {
        Keyboard { state: DecoderState::Separator }
    }

    /// The decoder's current state.
    pub fn state(&self) -> (r: DecoderState)
        ensures
            r == self.view(),
    {
        self.state
    }

    /// The event for a terminator byte and a modifier code; `None` where the
    /// terminator names no key.
    pub fn key(key: u8, modifiers: u8) -> (r: Option<Event>)
        ensures
            r == key_event(key, modifiers),
    {
        let modifiers = KeyModifiers::parse(modifiers);
        let char = match key {
            0x41 => KEY_UP,
            0x42 => KEY_DOWN,
            0x43 => KEY_RIGHT,
            0x44 => KEY_LEFT,
            _ => return None,
        };
        Some(Event::KeyPress { key: Key { char, modifiers } })
    }

    /// Feeds one byte to the decoder.
    pub fn parse(&mut self, key: u8) -> (r: ParseControlFlow)
        ensures
            (final(self).view(), r) == decode_step(old(self).view(), key),
    {
        match self.state {
            DecoderState::Separator => {
                if key == SEPARATOR {
                    self.state = DecoderState::Modifier(0);
                    ParseControlFlow::NeedMore
                } else {
                    ParseControlFlow::NotConsumed
                }
            },
            DecoderState::Modifier(code) => {
                if 0x30 <= key && key <= 0x39 {
                    let v: u16 = code as u16 * 10 + (key - 0x30) as u16;
                    self.state = DecoderState::Modifier(if v > 255 { 255u8 } else { v as u8 });
                    ParseControlFlow::NeedMore
                } else {
                    self.state = DecoderState::Separator;
                    ParseControlFlow::Done(Self::key(key, code))
                }
            },
        }
    }
}

impl Default for Keyboard {
    fn default() -> (r: Keyboard)
        ensures
            r.view() == DecoderState::Separator,
    {
        Keyboard::new()
    }
}

} // verus!
