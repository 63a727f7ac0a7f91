//! Where sent traffic goes.
//!
//! A target's id is session identity, since two destinations may share a name;
//! its key outlives the session, so a chosen target is found again after a
//! replug or a restart.

use crate::ids::{TargetId, TargetKey};
use vstd::prelude::*;

verus! {

/// What sort of place a target is: the adapter reaches the two through
/// different platform calls, and the screen must say which is in force.
#[derive(Debug, Clone, Copy, PartialEq, Eq, Structural, Hash)]
pub enum TargetKind {
    /// A MIDI destination the operating system reports.
    Destination,
    /// This application's own published source, under the user's chosen name.
    PublishedSource,
}

/// A place this application can send to.
#[derive(Debug, Clone, PartialEq, Eq)]
pub struct Target {
    /// Session identity.
    pub id: TargetId,
    /// Identity that outlives the session.
    pub key: TargetKey,
    /// The name shown in the picker and recorded against a send, verbatim.
    pub name: String,
    /// A machine destination, or this application's published source.
    pub kind: TargetKind,
}

impl Target {
    /// Builds a target.
    pub fn new(id: TargetId, key: TargetKey, name: String, kind: TargetKind) -> (t: Self)
        ensures
            t.id == id,
            t.key@ == key@,
            t.name@ == name@,
            t.kind == kind,
    {
        Target { id, key, name, kind }
    }

    /// A copy of this target.
    pub fn duplicate(&self) -> (t: Self)
        ensures
            t.id == self.id,
            t.key@ == self.key@,
            t.name@ == self.name@,
            t.kind == self.kind,
    {
        Target { id: self.id, key: self.key.duplicate(), name: self.name.clone(), kind: self.kind }
    }
}

} // verus!
