//! The interrupt binding: what the handler of the keyboard interrupt does
//! with the driver, the decoder and the key buffer.
//!
//! One interrupt may stand for several bytes, so the handler drains the
//! controller: it reads until a read times out. Each byte goes through the
//! decoder. A key press that comes to a character is handed to the host for
//! its output sink and, where the character fits in a byte, queued in the key
//! buffer for whoever polls for input. Keys without a character are decoded
//! and dropped.

use vstd::prelude::*;
use crate::buffer::{push_model, RingBuffer};
use crate::decoder::{feed_model, KeyEvent, ScancodeDecoder, Us104Keyboard};
use crate::driver::{begin_model, resume_model, DriverView, Ps2Driver, Task};
use crate::protocol::{Access, Reply, Request, Step};

verus! {

/// What the handler asks of the host after each call.
#[derive(Clone, Copy, Debug, PartialEq, Eq)]
pub struct DrainStep {
    /// The character to hand to the output sink, if a key press just came
    /// to one.
    pub emit: Option<char>,
    /// The port access to perform next and to report to `drain`. `None`
    /// ends the handler: the controller has no more bytes.
    pub next: Option<Request>,
}

/// The three parts that the handler works on, as the contracts see them.
pub struct DrainView {
    pub driver: DriverView,
    pub keyboard: Us104Keyboard,
    pub queued: Seq<u8>,
}

/// The access that a step of the driver asks for, if it asks for one.
pub open spec fn request_in(step: Step) -> Option<Request> {
    match step {
        Step::Port(request) => Some(request),
        Step::Done(_) => None,
    }
}

/// The byte that stands for a character in the key buffer: the characters up
/// to U+00FF have one, the others are not queued.
pub open spec fn byte_for(c: char) -> Option<u8> {
    if c as u32 <= 0xFF {
        Some(c as u8)
    } else {
        None
    }
}

/// The character that a decoded key hands on: keys without one hand on
/// nothing.
pub open spec fn character_in(key: Option<KeyEvent>) -> Option<char> {
    match key {
        Some(event) => event.character_of(),
        None => None,
    }
}

/// What the key buffer holds once a character was offered to it.
pub open spec fn queue_model(queued: Seq<u8>, emit: Option<char>) -> Seq<u8> {
    match emit {
        Some(c) => match byte_for(c) {
            Some(byte) => push_model(queued, byte),
            None => queued,
        },
        None => queued,
    }
}

/// The beginning of a drain: the first read is begun.
pub open spec fn handler_model(d: DriverView) -> (DriverView, DrainStep) {
    let (driver, step) = begin_model(d, Task::Read, Access::ReadData);
    (driver, DrainStep { emit: None, next: request_in(step) })
}

/// What a reply does to the drain. The driver takes it. When that completes
/// a read, the byte goes through the decoder, the character that it comes
/// to, if any, is queued and handed out, and the next read is begun. When
/// the operation in flight ends in any other way, the drain is over.
pub open spec fn drain_model(v: DrainView, reply: Reply) -> (DrainView, DrainStep) {
    let (driver, step) = resume_model(v.driver, reply);
    match step {
        Step::Done(Ok(Some(byte))) => {
            let (keyboard, key) = feed_model(v.keyboard, byte);
            let emit = character_in(key);
            let (driver, again) = begin_model(driver, Task::Read, Access::ReadData);
            (
                DrainView { driver, keyboard, queued: queue_model(v.queued, emit) },
                DrainStep { emit, next: request_in(again) },
            )
        },
        _ => (
            DrainView { driver, keyboard: v.keyboard, queued: v.queued },
            DrainStep { emit: None, next: request_in(step) },
        ),
    }
}

/// The byte that stands for a character in the key buffer, if it has one.
pub fn char_byte(c: char) -> (byte: Option<u8>)
    ensures
        byte == byte_for(c),
{
    let code = c as u32;
    if code <= 0xFF {
        Some(code as u8)
    } else {
        None
    }
}

/// Takes what the decoder made of a byte. A key press that came to a
/// character is queued in the key buffer, where the character fits in a
/// byte and the buffer has room, and handed back for the output sink. A key
/// without a character, and no key at all, leave the buffer as it is and hand
/// back nothing.
pub fn deliver(buffer: &mut RingBuffer, key: Option<KeyEvent>) -> (emit: Option<char>)
    ensures
        emit == character_in(key),
        final(buffer)@ == queue_model(old(buffer)@, emit),
{
    let emit = match key {
        Some(event) => event.character(),
        None => None,
    };
    if let Some(c) = emit {
        if let Some(byte) = char_byte(c) {
            let _ = buffer.push(byte);
        }
    }
    emit
}

/// Begins the handling of one keyboard interrupt: asks for the first poll
/// of the first read. A faulted driver asks for nothing.
pub fn handler(driver: &mut Ps2Driver) -> (step: DrainStep)
    ensures
        (final(driver)@, step) == handler_model(old(driver)@),
{
    match driver.read_data() {
        Step::Port(request) => DrainStep { emit: None, next: Some(request) },
        Step::Done(_) => DrainStep { emit: None, next: None },
    }
}

/// Goes on with the handling of the interrupt: takes the host's report of
/// the access that the last step asked for.
pub fn drain(
    driver: &mut Ps2Driver,
    decoder: &mut ScancodeDecoder,
    buffer: &mut RingBuffer,
    reply: Reply,
) -> (step: DrainStep)
    ensures
        (
            DrainView { driver: final(driver)@, keyboard: final(decoder)@, queued: final(buffer)@ },
            step,
        ) == drain_model(
            DrainView { driver: old(driver)@, keyboard: old(decoder)@, queued: old(buffer)@ },
            reply,
        ),
{
    match driver.resume(reply) {
        Step::Done(Ok(Some(byte))) => {
            let key = decoder.feed(byte);
            let emit = deliver(buffer, key);
            match driver.read_data() {
                Step::Port(request) => DrainStep { emit, next: Some(request) },
                Step::Done(_) => DrainStep { emit, next: None },
            }
        },
        Step::Port(request) => DrainStep { emit: None, next: Some(request) },
        Step::Done(_) => DrainStep { emit: None, next: None },
    }
}

} // verus!
