//! The group label to the left of each radio stack on the display settings tab.

use vstd::prelude::*;

verus! {

/// Labels the time format group.
pub const TIME: &'static str = "Time format";

/// Labels the note format group.
pub const NOTE: &'static str = "Note format";

/// Labels the controller format group.
pub const CONTROLLER: &'static str = "Controller format";

/// Labels the data format group.
pub const DATA: &'static str = "Data format";

/// Labels the program numbering group.
pub const PROGRAM: &'static str = "Program number";

/// The second line of the program numbering group's label, set beneath the first.
pub const PROGRAM_SECOND_LINE: &'static str = "(Decimal)";

} // verus!
