//! The calls that the library makes into other crates and into parts of the
//! standard library that the verifier knows nothing about. The verifier takes
//! the contracts in this file on trust.

use crate::track::complete_sysex;
use midly::num::{u24, u7};
use rand::Rng;
use vstd::prelude::*;

verus! {

/// `midly::num::u7::from_int_lossy`, read back with `as_int`: the low seven
/// bits of `raw`.
#[verifier::external_body]
pub(crate) fn u7_from_int_lossy(raw: u8) -> (kept: u8)
    ensures
        kept == raw & 0x7f,
{
    u7::from_int_lossy(raw).as_int()
}

/// `midly::num::u24::from_int_lossy`, read back with `as_int`: the low 24
/// bits of `raw`.
#[verifier::external_body]
pub(crate) fn u24_from_int_lossy(raw: u32) -> (kept: u32)
    ensures
        kept == raw & 0xff_ffff,
{
    u24::from_int_lossy(raw).as_int()
}

/// The number of `midi_msg::ControlNumber::Volume`, the controller of the
/// channel volume: 7.
#[verifier::external_body]
pub(crate) fn volume_controller() -> (number: u8)
    ensures
        number == 7,
{
    midi_msg::ControlNumber::Volume as u8
}

/// The number of `midi_msg::ControlNumber::Hold`, the controller of the
/// sustain: 64.
#[verifier::external_body]
pub(crate) fn sustain_controller() -> (number: u8)
    ensures
        number == 64,
{
    midi_msg::ControlNumber::Hold as u8
}

/// `midly::TrackEventKind::as_live_event` on a system exclusive message of
/// these bytes: whether it gives a live event. It gives one where the last
/// byte is `0xF7` and every byte before it has seven bits.
#[verifier::external_body]
pub(crate) fn sysex_is_live(data: &Vec<u8>) -> (live: bool)
    ensures
        live == complete_sysex(data@),
{
    midly::TrackEventKind::SysEx(data).as_live_event().is_some()
}

/// `rand::Rng::gen_range` on the generator of the running thread, over the
/// range from `low` to `high`, both included. Nothing is known of the draw
/// but that it lies in the range.
#[verifier::external_body]
pub(crate) fn gen_range(low: u16, high: u16) -> (draw: u16)
    requires
        low <= high,
    ensures
        low <= draw <= high,
{
    rand::thread_rng().gen_range(low..=high)
}

/// `String::push`: `ch` is appended to `text`.
#[verifier::external_body]
pub(crate) fn push_char(text: &mut String, ch: char)
    ensures
        final(text)@ == old(text)@.push(ch),
{
    text.push(ch)
}

} // verus!
