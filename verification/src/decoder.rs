//! The scancode decoder: from the bytes of the keyboard to key events.
//!
//! The decoding itself, scancode set 1 and the US 104-key layout, is that
//! of the `pc_keyboard` crate. The decoder keeps one `Keyboard` of it for its
//! whole life, since what a byte means depends on the bytes before it: a
//! prefix announces an extended key, a shift that is held turns `a` into `A`.

use vstd::prelude::*;
use pc_keyboard::layouts::Us104Key;
use pc_keyboard::{DecodedKey, HandleControl, KeyCode, KeyState, Keyboard, ScancodeSet1};

verus! {

/// The keyboard of `pc_keyboard` for scancode set 1 and the US 104-key
/// layout: the state of the decoding. It is held as it is, and only the
/// three functions below reach into it.
#[verifier::external_body]
pub struct Us104Keyboard {
    inner: Keyboard<Us104Key, ScancodeSet1>,
}

/// The key that an event of `pc_keyboard` is about.
#[verifier::external_type_specification]
#[verifier::external_body]
pub struct ExKeyCode(KeyCode);

/// The way a key went.
#[derive(Clone, Copy, Debug, PartialEq, Eq, Structural)]
pub enum KeyMotion {
    /// The key was released.
    Up,
    /// The key was pressed.
    Down,
    /// The key was pressed and released as one.
    SingleShot,
}

/// The error for a byte that stands for no key where it comes.
#[derive(Clone, Copy, Debug, PartialEq, Eq, Structural)]
pub struct Malformed;

/// What a key press comes to.
#[derive(Clone, Copy, Debug, PartialEq, Eq)]
pub enum KeyEvent {
    /// The character that the key stands for under the modifiers held.
    Unicode(char),
    /// A key without a character, such as an arrow or a function key, by the
    /// number that `pc_keyboard` gives it.
    RawKey(u8),
}

impl KeyEvent {
    /// The character of the event, if it has one.
    pub open spec fn character_of(self) -> Option<char> {
        match self {
            KeyEvent::Unicode(c) => Some(c),
            KeyEvent::RawKey(_) => None,
        }
    }

    /// The character of the event, if it has one.
    pub fn character(self) -> (c: Option<char>)
        ensures
            c == self.character_of(),
    {
        match self {
            KeyEvent::Unicode(c) => Some(c),
            KeyEvent::RawKey(_) => None,
        }
    }
}

/// What a held control key does to the letters.
#[derive(Clone, Copy, Debug, PartialEq, Eq, Structural)]
pub enum ControlHandling {
    /// The letters A to Z come out as the characters U+0001 to U+001A.
    MapLettersToUnicode,
    /// The letters come out as letters.
    Ignore,
}

/// What `Keyboard::new` of `pc_keyboard` makes of scancode set 1, the US
/// 104-key layout and a handling of the control key: the keyboard that has
/// taken no byte yet.
pub uninterp spec fn fresh_keyboard(handling: ControlHandling) -> Us104Keyboard;

/// What `Keyboard::add_byte` of `pc_keyboard` makes of a keyboard and a byte:
/// the keyboard after it, and what it returns, the key and the way it went,
/// nothing for a byte that completes no key, or the refusal of the byte.
pub uninterp spec fn scan_step(keyboard: Us104Keyboard, byte: u8) -> (
    Us104Keyboard,
    Result<Option<(KeyCode, KeyMotion)>, Malformed>,
);

/// What `Keyboard::process_keyevent` of `pc_keyboard` makes of a keyboard and
/// the event of a key: the keyboard after it, and what it returns.
pub uninterp spec fn key_step(keyboard: Us104Keyboard, code: KeyCode, motion: KeyMotion) -> (
    Us104Keyboard,
    Option<KeyEvent>,
);

/// The way a key went whose event a byte completes: in scancode set 1 the
/// top bit of the byte tells a release from a press.
pub open spec fn motion_of(byte: u8) -> KeyMotion {
    if byte >= 0x80 {
        KeyMotion::Up
    } else {
        KeyMotion::Down
    }
}

/// What becomes of a byte that the keyboard has taken: where it completed
/// the event of a key, the keyboard makes of the event what the modifiers
/// say. A byte that completed nothing, or that was refused, comes to nothing
/// and leaves the keyboard as it is.
pub open spec fn press_model(
    keyboard: Us104Keyboard,
    scanned: Result<Option<(KeyCode, KeyMotion)>, Malformed>,
) -> (Us104Keyboard, Option<KeyEvent>) {
    match scanned {
        Ok(Some((code, motion))) => key_step(keyboard, code, motion),
        _ => (keyboard, None),
    }
}

/// What a byte does to the decoding: the keyboard takes the byte, and what
/// it makes of it comes to a key event or to nothing.
pub open spec fn feed_model(keyboard: Us104Keyboard, byte: u8) -> (
    Us104Keyboard,
    Option<KeyEvent>,
) {
    let (scanned, outcome) = scan_step(keyboard, byte);
    press_model(scanned, outcome)
}

/// The decoder of the one layout and the one scancode set that the keyboard
/// speaks.
pub struct ScancodeDecoder {
    keyboard: Us104Keyboard,
}

impl View for ScancodeDecoder {
    type V = Us104Keyboard;

    closed spec fn view(&self) -> Us104Keyboard {
        self.keyboard
    }
}

/// Calls `Keyboard::new` of `pc_keyboard` with a new scancode set 1, the US
/// 104-key layout and the handling of the control key that is asked for. The
/// call reads nothing but what it is given, so the keyboard made is the same
/// for the same handling, and that is all that is claimed: `fresh_keyboard`
/// names it.
#[verifier::external_body]
fn new_keyboard(handling: ControlHandling) -> (keyboard: Us104Keyboard)
    ensures
        keyboard == fresh_keyboard(handling),
{
    let handle_ctrl = match handling {
        ControlHandling::MapLettersToUnicode => HandleControl::MapLettersToUnicode,
        ControlHandling::Ignore => HandleControl::Ignore,
    };
    Us104Keyboard { inner: Keyboard::new(ScancodeSet1::new(), Us104Key, handle_ctrl) }
}

/// Calls `Keyboard::add_byte` of `pc_keyboard` and hands on the key and the
/// way it went, or that the byte was refused. The keyboard is plain data,
/// so what comes of the call is given by the keyboard before it and the
/// byte: `scan_step` names it. Of the event of a key the scancode set says
/// one thing more: the bytes from 0x80 on are releases, the bytes below are
/// presses.
#[verifier::external_body]
fn add_byte(keyboard: &mut Us104Keyboard, byte: u8) -> (outcome: Result<
    Option<(KeyCode, KeyMotion)>,
    Malformed,
>)
    ensures
        (*final(keyboard), outcome) == scan_step(*old(keyboard), byte),
        outcome matches Ok(Some((_, motion))) ==> motion == motion_of(byte),
{
    match keyboard.inner.add_byte(byte) {
        Ok(Some(event)) => Ok(Some((event.code, match event.state {
            KeyState::Up => KeyMotion::Up,
            KeyState::Down => KeyMotion::Down,
            KeyState::SingleShot => KeyMotion::SingleShot,
        }))),
        Ok(None) => Ok(None),
        Err(_) => Err(Malformed),
    }
}

/// Calls `Keyboard::process_keyevent` of `pc_keyboard` on the event of a key
/// and the way it went, and hands its answer on in the library's own type.
/// What comes of the call is given by the keyboard before it, which holds
/// the modifiers, and the event: `key_step` names it. One thing more is
/// plain: a key that is pressed always comes to a key event, and a key that
/// is released never does.
#[verifier::external_body]
fn process_keyevent(keyboard: &mut Us104Keyboard, code: KeyCode, motion: KeyMotion) -> (key:
    Option<KeyEvent>)
    ensures
        (*final(keyboard), key) == key_step(*old(keyboard), code, motion),
        key.is_some() == (motion is Down),
{
    let state = match motion {
        KeyMotion::Up => KeyState::Up,
        KeyMotion::Down => KeyState::Down,
        KeyMotion::SingleShot => KeyState::SingleShot,
    };
    match keyboard.inner.process_keyevent(pc_keyboard::KeyEvent::new(code, state)) {
        Some(DecodedKey::Unicode(c)) => Some(KeyEvent::Unicode(c)),
        Some(DecodedKey::RawKey(code)) => Some(KeyEvent::RawKey(code as u8)),
        None => None,
    }
}

impl ScancodeDecoder {
    /// A decoder that has seen no byte yet: the keyboard as `pc_keyboard`
    /// makes it, with the control key left to itself. Every decoder begins
    /// the same, so what a decoder makes of its bytes is given by the bytes
    /// alone.
    pub fn new() -> (decoder: ScancodeDecoder)
        ensures
            decoder@ == fresh_keyboard(ControlHandling::Ignore),
    {
        ScancodeDecoder { keyboard: new_keyboard(ControlHandling::Ignore) }
    }

    /// Hands the next byte of the keyboard to the scancode set: the key
    /// whose event the byte completes and the way it went, nothing for a
    /// prefix, or the refusal of a byte that stands for no key.
    pub fn scan(&mut self, byte: u8) -> (scanned: Result<Option<(KeyCode, KeyMotion)>, Malformed>)
        ensures
            (final(self)@, scanned) == scan_step(old(self)@, byte),
            scanned matches Ok(Some((_, motion))) ==> motion == motion_of(byte),
    {
        add_byte(&mut self.keyboard, byte)
    }

    /// Makes a key event of what `scan` gave. The event of a key goes
    /// through the modifiers and the layout. A byte that completed nothing
    /// gives nothing, and so does a byte that was refused: it is dropped,
    /// and the decoder stays as it is.
    pub fn press(&mut self, scanned: Result<Option<(KeyCode, KeyMotion)>, Malformed>) -> (key:
        Option<KeyEvent>)
        ensures
            (final(self)@, key) == press_model(old(self)@, scanned),
            key.is_some() == (scanned matches Ok(Some((_, motion))) && motion is Down),
            !(scanned matches Ok(Some(_))) ==> final(self)@ == old(self)@,
    {
        match scanned {
            Ok(Some((code, motion))) => process_keyevent(&mut self.keyboard, code, motion),
            Ok(None) => None,
            Err(_) => None,
        }
    }

    /// Takes the next byte of the keyboard. A byte that completes a key
    /// press gives the event of that key. A prefix, a key release, and a
    /// byte that stands for no key give nothing: a byte that makes no sense
    /// is dropped, and the decoding goes on with the next.
    pub fn feed(&mut self, byte: u8) -> (key: Option<KeyEvent>)
        ensures
            (final(self)@, key) == feed_model(old(self)@, byte),
            key.is_some() == (byte < 0x80 && scan_step(old(self)@, byte).1 matches Ok(Some(_))),
    {
        let scanned = self.scan(byte);
        self.press(scanned)
    }
}

} // verus!
