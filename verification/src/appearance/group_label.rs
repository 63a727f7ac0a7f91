//! The group label to the left of the appearance tab's radio stack.

use vstd::prelude::*;

verus! {

/// Labels the theme group.
pub const THEME: &'static str = "Theme";

} // verus!
