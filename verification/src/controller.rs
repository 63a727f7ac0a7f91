//! The conventional names of the Control Change controllers.
//!
//! Most of the 128 controller numbers have no assigned name; [`name`] returns
//! `None` for those and the renderer shows the number, so a name is always an
//! addition to the number and never a replacement that hides it.

use vstd::prelude::*;

verus! {

/// The conventional name for each controller number, or an empty string where
/// the specification assigns none. Entry `n` names controller `n`.
pub const NAMES: [&'static str; 128] = [
    "Bank Select (MSB)",
    "Modulation (MSB)",
    "Breath Controller (MSB)",
    "",
    "Foot Controller (MSB)",
    "Portamento Time (MSB)",
    "Data Entry (MSB)",
    "Volume (MSB)",
    "Balance (MSB)",
    "",
    "Pan (MSB)",
    "Expression (MSB)",
    "Effect Control 1 (MSB)",
    "Effect Control 2 (MSB)",
    "",
    "",
    "General Purpose 1 (MSB)",
    "General Purpose 2 (MSB)",
    "General Purpose 3 (MSB)",
    "General Purpose 4 (MSB)",
    "",
    "",
    "",
    "",
    "",
    "",
    "",
    "",
    "",
    "",
    "",
    "",
    "Bank Select (LSB)",
    "Modulation (LSB)",
    "Breath Controller (LSB)",
    "",
    "Foot Controller (LSB)",
    "Portamento Time (LSB)",
    "Data Entry (LSB)",
    "Volume (LSB)",
    "Balance (LSB)",
    "",
    "Pan (LSB)",
    "Expression (LSB)",
    "Effect Control 1 (LSB)",
    "Effect Control 2 (LSB)",
    "",
    "",
    "General Purpose 1 (LSB)",
    "General Purpose 2 (LSB)",
    "General Purpose 3 (LSB)",
    "General Purpose 4 (LSB)",
    "",
    "",
    "",
    "",
    "",
    "",
    "",
    "",
    "",
    "",
    "",
    "",
    "Sustain",
    "Portamento",
    "Sostenuto",
    "Soft Pedal",
    "Legato Footswitch",
    "Hold 2",
    "Sound Controller 1",
    "Sound Controller 2",
    "Sound Controller 3",
    "Sound Controller 4",
    "Sound Controller 5",
    "Sound Controller 6",
    "Sound Controller 7",
    "Sound Controller 8",
    "Sound Controller 9",
    "Sound Controller 10",
    "General Purpose 5",
    "General Purpose 6",
    "General Purpose 7",
    "General Purpose 8",
    "Portamento Control",
    "",
    "",
    "",
    "High Resolution Velocity Prefix",
    "",
    "",
    "Effects 1 Depth",
    "Effects 2 Depth",
    "Effects 3 Depth",
    "Effects 4 Depth",
    "Effects 5 Depth",
    "Data Increment",
    "Data Decrement",
    "NRPN (LSB)",
    "NRPN (MSB)",
    "RPN (LSB)",
    "RPN (MSB)",
    "",
    "",
    "",
    "",
    "",
    "",
    "",
    "",
    "",
    "",
    "",
    "",
    "",
    "",
    "",
    "",
    "",
    "",
    "All Sound Off",
    "Reset All Controllers",
    "Local Control",
    "All Notes Off",
    "Omni Mode Off",
    "Omni Mode On",
    "Mono Mode On",
    "Poly Mode On",
];

/// The conventional name for a controller number, if it has one; numbers past
/// the table have none.
pub open spec fn controller_name(controller: u8) -> Option<Seq<char>> {
    if controller >= 128 || NAMES@[controller as int]@.len() == 0 {
        None
    } else {
        Some(NAMES@[controller as int]@)
    }
}

/// The conventional name for a controller number, or `None` where none is
/// assigned; the caller then renders the number.
pub fn name(controller: u8) -> (r: Option<&'static str>)
    ensures
        match r {
            Some(s) => controller_name(controller) == Some(s@),
            None => controller_name(controller) is None,
        },
{
    let names = NAMES;
    if controller as usize >= names.len() {
        return None;
    }
    let entry = names[controller as usize];
    if entry.is_empty() {
        None
    } else {
        Some(entry)
    }
}

} // verus!
