//! Short messages delivered packed into one machine word.
//!
//! Some systems pack a short message into the low bytes of a word whatever
//! its real length, so a two-byte Program Change arrives with a third byte
//! that is not part of it. How many bytes are meaningful follows from the
//! status byte; passing the padding on would put a byte on screen that nothing
//! transmitted, and since padding is zero and zero is a valid data byte, a
//! decoder carrying running status could complete an entirely fictional
//! message from it.

use crate::decoder::{data_len_of, expected_data_len};
use crate::message::InvalidReason;
use vstd::prelude::*;

verus! {

/// A status byte and at most two data bytes: every short message MIDI defines.
pub const PACKED_MESSAGE_BYTES: usize = 3;

/// The first three bytes of a packed word, least significant first.
pub open spec fn packed_bytes(packed: usize) -> Seq<u8> {
    seq![
        (packed as int % 256) as u8,
        (packed as int / 256 % 256) as u8,
        (packed as int / 65536 % 256) as u8,
    ]
}

/// How many packed bytes a short message starting with `status` occupies: the
/// status and its data bytes, or the status alone when nothing is known of
/// any byte after it.
pub open spec fn short_len(status: u8) -> nat {
    match data_len_of(status) {
        Some(data) => if data + 1 < 3 { data + 1 } else { 3 },
        None => 1,
    }
}

/// The packed bytes of a word, least significant first.
fn split(packed: usize) -> (bytes: [u8; 3])
    ensures
        bytes@ == packed_bytes(packed),
{
    let bytes = [(packed % 256) as u8, ((packed / 256) % 256) as u8, ((packed / 65536) % 256) as u8];
    assert(bytes@ =~= packed_bytes(packed));
    bytes
}

/// The meaningful bytes of a packed short message.
///
/// An unrecognised status, or one that carries no length of its own, yields
/// the status byte alone: it is certainly a message, and nothing is known of
/// the bytes after it.
pub fn unpack_short(packed: usize) -> (bytes: Vec<u8>)
    ensures
        bytes@ == packed_bytes(packed).take(short_len(packed_bytes(packed)[0]) as int),
{
    let all = split(packed);
    let len: usize = match expected_data_len(all[0]) {
        Some(data) => if data + 1 < PACKED_MESSAGE_BYTES { data + 1 } else { PACKED_MESSAGE_BYTES },
        None => 1,
    };
    let mut bytes: Vec<u8> = Vec::new();
    let mut i: usize = 0;
    while i < len
        invariant
            len <= 3,
            i <= len,
            all@ == packed_bytes(packed),
            bytes@ == all@.take(i as int),
        decreases len - i,
    {
        bytes.push(all[i]);
        proof {
            assert(bytes@ =~= all@.take(i + 1));
        }
        i = i + 1;
    }
    bytes
}

/// What can honestly be shown of a packed message the system reported as
/// invalid: where the first byte is a recognised status, the bytes its length
/// implies; otherwise that byte alone, with the rest reported undeterminable.
pub fn unpack_invalid(packed: usize) -> (r: (Vec<u8>, InvalidReason))
    ensures
        match data_len_of(packed_bytes(packed)[0]) {
            None => r.0@ == seq![packed_bytes(packed)[0]] && r.1 == InvalidReason::ExtentUnknown,
            Some(_) => r.0@ == packed_bytes(packed).take(short_len(packed_bytes(packed)[0]) as int)
                && r.1 == InvalidReason::ReportedInvalid,
        },
{
    let status = split(packed)[0];
    match expected_data_len(status) {
        None => {
            let mut bytes: Vec<u8> = Vec::new();
            bytes.push(status);
            proof {
                assert(bytes@ =~= seq![packed_bytes(packed)[0]]);
            }
            (bytes, InvalidReason::ExtentUnknown)
        },
        Some(_) => (unpack_short(packed), InvalidReason::ReportedInvalid),
    }
}

} // verus!
