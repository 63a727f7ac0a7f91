//! The disguise: the MIDI source this application offers to the rest of the
//! machine.
//!
//! Both halves persist: a user who left the source published expects to find
//! it on the next launch, and the name is what receiving programs remember
//! their own settings against. `published` is a request the platform may
//! refuse; the state reported afterwards is the truth.

use crate::ids::PublishedName;
use vstd::prelude::*;

verus! {

/// The published source's name, and whether it is currently published.
#[derive(Debug, Clone, PartialEq, Eq)]
pub struct Publication {
    /// The name other programs see, and remember their settings against.
    pub name: PublishedName,
    /// Whether the source is published right now.
    pub published: bool,
}

impl Publication {
    /// A copy of this publication.
    pub fn duplicate(&self) -> (p: Self)
        ensures
            p.name@ == self.name@,
            p.published == self.published,
    {
        Publication { name: self.name.duplicate(), published: self.published }
    }
}

impl Default for Publication {
    /// The product name, not published: publishing puts an endpoint on the
    /// machine that other software can see, which is a thing to opt into.
    fn default() -> (p: Self)
        ensures
            p.name@ == "MIDI Monitor"@,
            !p.published,
    {
        Publication { name: PublishedName::default(), published: false }
    }
}

} // verus!
