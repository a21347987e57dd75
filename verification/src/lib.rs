//! A pull-based window abstraction: a thread-safe handle to a native window
//! that runs its blocking event loop on one dedicated platform thread.
//!
//! This crate holds the verified core: the lifecycle stage machine, the
//! mutex-guarded shared state snapshot, the FIFO command queue that carries
//! configuration changes to the platform thread, the single-slot message
//! mailbox with its two handshake gates, and the decoding of raw native
//! event codes into [`window::message::Message`] values.
//!
//! The platform thread itself, the native calls it makes, and the locks and
//! condition variables that carry this state across threads are deliberately
//! outside: they drive the state machine defined here through its verified
//! transition functions.
use vstd::prelude::*;

pub mod prelude;
pub mod window;

verus! {

/// Low 16 bits of a 32-bit value.
pub open spec fn spec_lo_word(x: u32) -> u16 {
    (x & 0xFFFF) as u16
}

/// High 16 bits of a 32-bit value.
pub open spec fn spec_hi_word(x: u32) -> u16 {
    (x >> 16) as u16
}

/// Low 8 bits of a 16-bit value.
pub open spec fn spec_lo_byte(x: u16) -> u8 {
    (x & 0xFF) as u8
}

#[verifier::when_used_as_spec(spec_lo_word)]
pub fn lo_word(x: u32) -> (r: u16)
    ensures
        r == spec_lo_word(x),
{
    (x & 0xFFFF) as u16
}

#[verifier::when_used_as_spec(spec_hi_word)]
pub fn hi_word(x: u32) -> (r: u16)
    ensures
        r == spec_hi_word(x),
{
    (x >> 16) as u16
}

#[verifier::when_used_as_spec(spec_lo_byte)]
pub fn lo_byte(x: u16) -> (r: u8)
    ensures
        r == spec_lo_byte(x),
{
    (x & 0xFF) as u8
}

/// Low 16 bits of a 32-bit value, reinterpreted as signed.
pub open spec fn spec_signed_lo_word(x: i32) -> i16 {
    spec_lo_word(x as u32) as i16
}

/// High 16 bits of a 32-bit value, reinterpreted as signed.
pub open spec fn spec_signed_hi_word(x: i32) -> i16 {
    spec_hi_word(x as u32) as i16
}

#[verifier::when_used_as_spec(spec_signed_lo_word)]
pub fn signed_lo_word(x: i32) -> (r: i16)
    ensures
        r == spec_signed_lo_word(x),
{
    lo_word(x as u32) as i16
}

#[verifier::when_used_as_spec(spec_signed_hi_word)]
pub fn signed_hi_word(x: i32) -> (r: i16)
    ensures
        r == spec_signed_hi_word(x),
{
    hi_word(x as u32) as i16
}

} // verus!
