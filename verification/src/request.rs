//! Ready-made messages, and the ones the user saves beside them.
//!
//! A request's name is its identity: names are unique across the whole
//! library, built-ins included, so a saved request can never shadow a built-in
//! and a view acting on a name that has gone is told so rather than acting on
//! whatever now sits in its place. The built-ins are code rather than data:
//! they are part of what the application is, always present and never edited.

use crate::composition::{Composition, CompositionModel};
use crate::error::CoreError;
use crate::ids::{ChannelNumber, DataByte, RequestName};
use crate::message::{MessageModel, MidiMessage};
use crate::sendable::{default_model, SendableKind};
use crate::text::to_string;
use vstd::prelude::*;

verus! {

/// The controller number that releases every note on a channel.
const CONTROLLER_ALL_NOTES_OFF: u8 = 123;

/// Where a request came from, and therefore what may be done to it.
#[derive(Debug, Clone, Copy, PartialEq, Eq, Structural)]
pub enum RequestOrigin {
    /// Shipped with the application. Always present, never editable.
    BuiltIn,
    /// Saved by the user. Renameable, deletable, persisted.
    Saved,
}

/// A request, as a value.
pub struct RequestModel {
    pub name: Seq<char>,
    pub description: Seq<char>,
    pub composition: CompositionModel,
    pub origin: RequestOrigin,
}

/// One named, sendable message.
#[derive(Debug, Clone, PartialEq, Eq)]
pub struct Request {
    /// The name, which is also the identity.
    pub name: RequestName,
    /// What it does, in plain language rather than in protocol terms.
    pub description: String,
    /// The message, and where its authority lies.
    pub composition: Composition,
    /// Whether the user may rename or delete it.
    pub origin: RequestOrigin,
}

impl Request {
    /// The request as a value.
    pub open spec fn view(&self) -> RequestModel {
        RequestModel {
            name: self.name@,
            description: self.description@,
            composition: self.composition@,
            origin: self.origin,
        }
    }

    /// A copy of this request.
    pub fn duplicate(&self) -> (r: Self)
        ensures
            r@ == self@,
    {
        Request {
            name: self.name.duplicate(),
            description: self.description.clone(),
            composition: self.composition.duplicate(),
            origin: self.origin,
        }
    }
}

/// The requests of a list, as values.
pub open spec fn request_models(v: Seq<Request>) -> Seq<RequestModel> {
    v.map_values(|r: Request| r@)
}

/// A built-in request that starts as a message type's defaults.
pub open spec fn built_in_of_kind(
    name: Seq<char>,
    description: Seq<char>,
    kind: SendableKind,
) -> RequestModel {
    RequestModel {
        name,
        description,
        composition: CompositionModel::Guided { message: default_model(kind) },
        origin: RequestOrigin::BuiltIn,
    }
}

/// The fifteen requests the application ships with, in the order they are
/// listed: between them they play, release and silence notes, move a
/// controller, change a sound, bend, press, drive transport, and ask the device
/// who it is.
pub open spec fn built_in_models() -> Seq<RequestModel> {
    seq![
        built_in_of_kind(
            "Note On"@,
            "Play a note. Middle C at a firm velocity, on channel 1."@,
            SendableKind::NoteOn,
        ),
        built_in_of_kind("Note Off"@, "Release a note that is sounding."@, SendableKind::NoteOff),
        RequestModel {
            name: "All Notes Off"@,
            description: "Release every note sounding on the channel. Use this when a note is stuck on."@,
            composition: CompositionModel::Guided {
                message: MessageModel::Control { channel: 1, controller: 123, value: 0 },
            },
            origin: RequestOrigin::BuiltIn,
        },
        built_in_of_kind(
            "Control Change"@,
            "Move a controller. Channel volume by default — turn it down and up to check the other end is listening."@,
            SendableKind::Control,
        ),
        built_in_of_kind(
            "Program Change"@,
            "Switch the instrument or patch the receiving device is using."@,
            SendableKind::Program,
        ),
        built_in_of_kind(
            "Pitch Bend"@,
            "Bend the pitch. Starts centred, which bends nothing."@,
            SendableKind::PitchWheel,
        ),
        built_in_of_kind(
            "Channel Pressure"@,
            "Press harder on every note at once, on devices that respond to it."@,
            SendableKind::ChannelPressure,
        ),
        built_in_of_kind(
            "Aftertouch (Poly)"@,
            "Press harder on one note, on devices that respond to it."@,
            SendableKind::AftertouchPoly,
        ),
        built_in_of_kind(
            "Start"@,
            "Tell the receiving device to start playing from the beginning."@,
            SendableKind::Start,
        ),
        built_in_of_kind("Stop"@, "Tell the receiving device to stop playing."@, SendableKind::Stop),
        built_in_of_kind(
            "Continue"@,
            "Tell the receiving device to resume from where it stopped."@,
            SendableKind::Continue,
        ),
        built_in_of_kind(
            "Clock"@,
            "One timing pulse. Devices expect twenty-four of these per quarter note, so a single one proves the connection rather than driving anything."@,
            SendableKind::Clock,
        ),
        built_in_of_kind(
            "Active Sense"@,
            "The keep-alive heartbeat some devices send to say they are still connected."@,
            SendableKind::ActiveSense,
        ),
        built_in_of_kind(
            "Reset"@,
            "Tell the receiving device to return to its power-on state."@,
            SendableKind::Reset,
        ),
        built_in_of_kind(
            "Identity Request"@,
            "Ask the device to say what it is. The reply arrives in the monitor like any other traffic — this screen does not wait for it."@,
            SendableKind::SystemExclusive,
        ),
    ]
}

/// The names of a list of requests.
pub open spec fn names_of(v: Seq<RequestModel>) -> Seq<Seq<char>> {
    v.map_values(|r: RequestModel| r.name)
}

/// Whether no two requests of a list share a name.
pub open spec fn names_unique(v: Seq<RequestModel>) -> bool {
    forall|i: int, j: int| 0 <= i < j < v.len() ==> v[i].name != v[j].name
}

/// Whether `i` is the first position in a list whose request has this name.
pub open spec fn first_named(v: Seq<RequestModel>, name: Seq<char>, i: int) -> bool {
    &&& 0 <= i < v.len()
    &&& v[i].name == name
    &&& forall|j: int| 0 <= j < i ==> v[j].name != name
}

/// A request of a list carrying this name, renamed.
pub open spec fn renamed(r: RequestModel, to: Seq<char>) -> RequestModel {
    RequestModel { name: to, ..r }
}

/// Whether a list of requests holds one with this name.
pub open spec fn has_name(v: Seq<RequestModel>, name: Seq<char>) -> bool {
    exists|i: int| 0 <= i < v.len() && v[i].name == name
}

/// Whether an error says no request carries this name.
pub open spec fn unknown_request(e: CoreError, name: Seq<char>) -> bool {
    e matches CoreError::UnknownRequest { name: n } && n@ == name
}

/// Whether an error says a request already carries this name.
pub open spec fn duplicate_name(e: CoreError, name: Seq<char>) -> bool {
    e matches CoreError::DuplicateRequestName { name: n } && n@ == name
}

/// Whether an error says this name belongs to a built-in, which cannot change.
pub open spec fn built_in_refusal(e: CoreError, name: Seq<char>) -> bool {
    e matches CoreError::BuiltInRequestImmutable { name: n } && n@ == name
}

/// The built-in requests and the user's own, together.
#[derive(Debug)]
pub struct RequestLibrary {
    built_in: Vec<Request>,
    saved: Vec<Request>,
}

impl RequestLibrary {
    #[verifier::type_invariant]
    spec fn built_ins_intact(self) -> bool {
        request_models(self.built_in@) == built_in_models()
    }

    /// The user's own requests, in the order they were saved.
    pub closed spec fn saved_requests(&self) -> Seq<RequestModel> {
        request_models(self.saved@)
    }

    /// Every request: the built-ins first, then the user's own.
    pub open spec fn requests(&self) -> Seq<RequestModel> {
        built_in_models() + self.saved_requests()
    }

    /// A library holding the built-ins only.
    pub fn new() -> (lib: Self)
        ensures
            lib.saved_requests() == Seq::<RequestModel>::empty(),
    {
        let lib = RequestLibrary { built_in: built_in_requests(), saved: Vec::new() };
        assert(lib.saved_requests() =~= Seq::<RequestModel>::empty());
        lib
    }

    /// Every request, built-ins first and then the user's own.
    pub fn all(&self) -> (v: Vec<&Request>)
        ensures
            v@.map_values(|r: &Request| r@) == self.requests(),
    {
        proof {
            use_type_invariant(self);
        }
        let mut v: Vec<&Request> = Vec::new();
        let mut i: usize = 0;
        while i < self.built_in.len()
            invariant
                i <= self.built_in@.len(),
                v@.map_values(|r: &Request| r@) == request_models(self.built_in@).take(i as int),
            decreases self.built_in@.len() - i,
        {
            let ghost before = v@;
            v.push(&self.built_in[i]);
            proof {
                assert(v@.map_values(|r: &Request| r@) =~= before.map_values(|r: &Request| r@).push(
                    self.built_in@[i as int]@,
                ));
                assert(request_models(self.built_in@).take(i + 1) =~= request_models(
                    self.built_in@,
                ).take(i as int).push(self.built_in@[i as int]@));
            }
            i = i + 1;
        }
        let mut j: usize = 0;
        while j < self.saved.len()
            invariant
                j <= self.saved@.len(),
                v@.map_values(|r: &Request| r@) == request_models(self.built_in@) + request_models(
                    self.saved@,
                ).take(j as int),
            decreases self.saved@.len() - j,
        {
            let ghost before = v@;
            v.push(&self.saved[j]);
            proof {
                assert(v@.map_values(|r: &Request| r@) =~= before.map_values(|r: &Request| r@).push(
                    self.saved@[j as int]@,
                ));
                assert(request_models(self.built_in@) + request_models(self.saved@).take(j + 1)
                    =~= (request_models(self.built_in@) + request_models(self.saved@).take(
                    j as int,
                )).push(self.saved@[j as int]@));
            }
            j = j + 1;
        }
        assert(request_models(self.built_in@).take(i as int) =~= request_models(self.built_in@));
        assert(request_models(self.saved@).take(j as int) =~= request_models(self.saved@));
        v
    }

    /// One request, by name: the first that carries it.
    pub fn get(&self, name: &RequestName) -> (r: Result<&Request, CoreError>)
        ensures
            match r {
                Ok(request) => exists|i: int|
                    first_named(self.requests(), name@, i) && request@ == self.requests()[i],
                Err(e) => !has_name(self.requests(), name@) && unknown_request(e, name@),
            },
    {
        proof {
            use_type_invariant(self);
        }
        let ghost all = self.requests();
        let mut i: usize = 0;
        while i < self.built_in.len()
            invariant
                i <= self.built_in@.len(),
                all == self.requests(),
                request_models(self.built_in@) == built_in_models(),
                forall|j: int| 0 <= j < i ==> all[j].name != name@,
            decreases self.built_in@.len() - i,
        {
            if self.built_in[i].name == *name {
                proof {
                    assert(all[i as int] == self.built_in@[i as int]@);
                }
                return Ok(&self.built_in[i]);
            }
            proof {
                assert(all[i as int] == self.built_in@[i as int]@);
            }
            i = i + 1;
        }
        let offset = self.built_in.len();
        let mut j: usize = 0;
        while j < self.saved.len()
            invariant
                j <= self.saved@.len(),
                offset == built_in_models().len(),
                all == self.requests(),
                forall|k: int| 0 <= k < offset + j ==> all[k].name != name@,
            decreases self.saved@.len() - j,
        {
            if self.saved[j].name == *name {
                proof {
                    assert(all[offset + j] == self.saved@[j as int]@);
                    assert(first_named(all, name@, offset + j));
                }
                return Ok(&self.saved[j]);
            }
            proof {
                assert(all[offset + j] == self.saved@[j as int]@);
            }
            j = j + 1;
        }
        Err(CoreError::UnknownRequest { name: to_string(name.as_str()) })
    }

    /// The user's own requests, for persistence.
    pub fn saved(&self) -> (s: &[Request])
        ensures
            request_models(s@) == self.saved_requests(),
    {
        self.saved.as_slice()
    }

    /// Replaces the user's own requests, as restored from storage; entries that
    /// could not be rebuilt were already dropped by the caller.
    pub fn replace_saved(&mut self, saved: Vec<Request>)
        ensures
            final(self).saved_requests() == request_models(saved@),
    {
        proof {
            use_type_invariant(&*self);
        }
        self.saved = saved;
    }

    /// Saves a composition under a name of the user's choosing.
    ///
    /// Refused with `DuplicateRequestName` when any request, built-in or saved,
    /// already carries the name; the library is then left exactly as it was.
    pub fn save(&mut self, name: RequestName, composition: Composition) -> (r: Result<(), CoreError>)
        ensures
            match r {
                Ok(()) => !has_name(old(self).requests(), name@) && final(self).saved_requests()
                    == old(self).saved_requests().push(
                    RequestModel {
                        name: name@,
                        description: Seq::empty(),
                        composition: composition@,
                        origin: RequestOrigin::Saved,
                    },
                ),
                Err(e) => has_name(old(self).requests(), name@) && duplicate_name(e, name@)
                    && final(self).saved_requests() == old(self).saved_requests(),
            },
    {
        proof {
            use_type_invariant(&*self);
        }
        self.refuse_duplicate(&name)?;
        let request = Request {
            name,
            description: String::new(),
            composition,
            origin: RequestOrigin::Saved,
        };
        let mut saved: Vec<Request> = Vec::new();
        std::mem::swap(&mut saved, &mut self.saved);
        saved.push(request);
        self.saved = saved;
        proof {
            assert(self.saved_requests() =~= old(self).saved_requests().push(request@));
        }
        Ok(())
    }

    /// Renames one of the user's own requests: the first saved one carrying
    /// `from`. Nothing is changed when this is refused.
    ///
    /// Refused with `BuiltInRequestImmutable` when `from` names a built-in,
    /// `DuplicateRequestName` when `to` differs from `from` and any request
    /// already carries it, and `UnknownRequest` when no request carries `from`.
    pub fn rename(&mut self, from: &RequestName, to: RequestName) -> (r: Result<(), CoreError>)
        ensures
            has_name(built_in_models(), from@) ==> (r matches Err(e) && built_in_refusal(e, from@)),
            !has_name(built_in_models(), from@) && from@ != to@ && has_name(
                old(self).requests(),
                to@,
            ) ==> (r matches Err(e) && duplicate_name(e, to@)),
            !has_name(built_in_models(), from@) && !(from@ != to@ && has_name(
                old(self).requests(),
                to@,
            )) && !has_name(old(self).saved_requests(), from@) ==> (r matches Err(e)
                && unknown_request(e, from@)),
            r is Ok <==> (!has_name(built_in_models(), from@) && !(from@ != to@ && has_name(
                old(self).requests(),
                to@,
            )) && has_name(old(self).saved_requests(), from@)),
            r is Ok ==> exists|i: int|
                first_named(old(self).saved_requests(), from@, i) && final(self).saved_requests()
                    == old(self).saved_requests().update(
                    i,
                    renamed(old(self).saved_requests()[i], to@),
                ),
            r is Err ==> final(self).saved_requests() == old(self).saved_requests(),
    {
        proof {
            use_type_invariant(&*self);
        }
        self.refuse_built_in(from)?;
        if !(*from == to) {
            self.refuse_duplicate(&to)?;
        }
        let ghost before = self.saved_requests();
        let mut i: usize = 0;
        while i < self.saved.len()
            invariant
                i <= self.saved@.len(),
                before == request_models(self.saved@),
                before == old(self).saved_requests(),
                request_models(self.built_in@) == built_in_models(),
                !has_name(built_in_models(), from@),
                !(from@ != to@ && has_name(old(self).requests(), to@)),
                forall|j: int| 0 <= j < i ==> before[j].name != from@,
            decreases self.saved@.len() - i,
        {
            if self.saved[i].name == *from {
                let mut saved: Vec<Request> = Vec::new();
                std::mem::swap(&mut saved, &mut self.saved);
                let mut request = saved.remove(i);
                request.name = to;
                saved.insert(i, request);
                self.saved = saved;
                proof {
                    assert(first_named(before, from@, i as int));
                    assert(self.saved_requests() =~= before.update(
                        i as int,
                        renamed(before[i as int], to@),
                    ));
                }
                return Ok(());
            }
            i = i + 1;
        }
        Err(CoreError::UnknownRequest { name: to_string(from.as_str()) })
    }

    /// Deletes every one of the user's own requests carrying this name.
    ///
    /// Refused with `BuiltInRequestImmutable` when it names a built-in, and with
    /// `UnknownRequest` when nothing carries it.
    pub fn delete(&mut self, name: &RequestName) -> (r: Result<(), CoreError>)
        ensures
            has_name(built_in_models(), name@) ==> (r matches Err(e) && built_in_refusal(e, name@)),
            !has_name(built_in_models(), name@) && !has_name(old(self).saved_requests(), name@)
                ==> (r matches Err(e) && unknown_request(e, name@)),
            r is Ok <==> (!has_name(built_in_models(), name@) && has_name(
                old(self).saved_requests(),
                name@,
            )),
            r is Ok ==> final(self).saved_requests() == old(self).saved_requests().filter(
                |q: RequestModel| q.name != name@,
            ),
            r is Err ==> final(self).saved_requests() == old(self).saved_requests(),
    {
        proof {
            use_type_invariant(&*self);
        }
        self.refuse_built_in(name)?;
        let ghost before = self.saved_requests();
        let mut saved: Vec<Request> = Vec::new();
        std::mem::swap(&mut saved, &mut self.saved);
        let mut kept: Vec<Request> = Vec::new();
        let total = saved.len();
        let mut found = false;
        let mut i: usize = 0;
        while i < total
            invariant
                i <= total,
                total == saved@.len(),
                before == request_models(saved@),
                request_models(kept@) == before.take(i as int).filter(
                    |q: RequestModel| q.name != name@,
                ),
                found <==> has_name(before.take(i as int), name@),
            decreases total - i,
        {
            let ghost prior = kept@;
            proof {
                assert(before.take(i + 1).drop_last() =~= before.take(i as int));
                assert(before.take(i + 1).last() == saved@[i as int]@);
                reveal_with_fuel(Seq::filter, 1);
            }
            if saved[i].name == *name {
                found = true;
                proof {
                    assert(before.take(i + 1)[i as int].name == name@);
                }
            } else {
                kept.push(saved[i].duplicate());
                proof {
                    assert(request_models(kept@) =~= request_models(prior).push(saved@[i as int]@));
                    let longer = before.take(i + 1);
                    if has_name(longer, name@) {
                        let w = choose|w: int| 0 <= w < longer.len() && #[trigger] longer[w].name == name@;
                        assert(before.take(i as int)[w].name == name@);
                    }
                }
            }
            proof {
                let shorter = before.take(i as int);
                if has_name(shorter, name@) {
                    let w = choose|w: int| 0 <= w < shorter.len() && #[trigger] shorter[w].name == name@;
                    assert(before.take(i + 1)[w].name == name@);
                }
            }
            i = i + 1;
        }
        proof {
            assert(before.take(i as int) =~= before);
        }
        if !found {
            self.saved = saved;
            return Err(CoreError::UnknownRequest { name: to_string(name.as_str()) });
        }
        self.saved = kept;
        Ok(())
    }

    /// Refuses a name any request already carries.
    fn refuse_duplicate(&self, name: &RequestName) -> (r: Result<(), CoreError>)
        ensures
            match r {
                Ok(()) => !has_name(self.requests(), name@),
                Err(e) => has_name(self.requests(), name@) && duplicate_name(e, name@),
            },
    {
        match self.get(name) {
            Ok(_) => Err(CoreError::DuplicateRequestName { name: to_string(name.as_str()) }),
            Err(_) => Ok(()),
        }
    }

    /// Refuses an attempt to change a built-in.
    fn refuse_built_in(&self, name: &RequestName) -> (r: Result<(), CoreError>)
        ensures
            match r {
                Ok(()) => !has_name(built_in_models(), name@),
                Err(e) => has_name(built_in_models(), name@) && built_in_refusal(e, name@),
            },
    {
        proof {
            use_type_invariant(self);
        }
        let mut i: usize = 0;
        while i < self.built_in.len()
            invariant
                i <= self.built_in@.len(),
                request_models(self.built_in@) == built_in_models(),
                forall|j: int| 0 <= j < i ==> built_in_models()[j].name != name@,
            decreases self.built_in@.len() - i,
        {
            if self.built_in[i].name == *name {
                proof {
                    assert(built_in_models()[i as int] == self.built_in@[i as int]@);
                }
                return Err(CoreError::BuiltInRequestImmutable { name: to_string(name.as_str()) });
            }
            proof {
                assert(built_in_models()[i as int] == self.built_in@[i as int]@);
            }
            i = i + 1;
        }
        Ok(())
    }
}

impl Default for RequestLibrary {
    /// A library holding the built-ins only.
    fn default() -> (lib: Self)
        ensures
            lib.saved_requests() == Seq::<RequestModel>::empty(),
    {
        Self::new()
    }
}

/// A built-in request that starts as a message type's defaults.
fn from_kind(name: &'static str, description: &'static str, kind: SendableKind) -> (r: Request)
    ensures
        r@ == built_in_of_kind(name@, description@, kind),
{
    Request {
        name: RequestName::built_in(name),
        description: to_string(description),
        composition: Composition::from_kind(kind),
        origin: RequestOrigin::BuiltIn,
    }
}

/// Channel 1, for the one built-in that is not a message type's defaults.
fn all_notes_off_channel() -> (c: ChannelNumber)
    ensures
        c@ == 1,
{
    let c = ChannelNumber::from_wire_nibble(0);
    assert(0u8 & 0x0F == 0) by (bit_vector);
    c
}

/// The fifteen requests the application ships with.
fn built_in_requests() -> (v: Vec<Request>)
    ensures
        request_models(v@) == built_in_models(),
{
    let mut v: Vec<Request> = Vec::new();
    v.push(
        from_kind(
            "Note On",
            "Play a note. Middle C at a firm velocity, on channel 1.",
            SendableKind::NoteOn,
        ),
    );
    v.push(from_kind("Note Off", "Release a note that is sounding.", SendableKind::NoteOff));
    assert(CONTROLLER_ALL_NOTES_OFF & 0x7F == 123) by (bit_vector);
    v.push(
        Request {
            name: RequestName::built_in("All Notes Off"),
            description: to_string(
                "Release every note sounding on the channel. Use this when a note is stuck on.",
            ),
            composition: Composition::from_message(
                MidiMessage::Control {
                    channel: all_notes_off_channel(),
                    controller: DataByte::from_masked(CONTROLLER_ALL_NOTES_OFF),
                    value: DataByte::zero(),
                },
            ),
            origin: RequestOrigin::BuiltIn,
        },
    );
    v.push(
        from_kind(
            "Control Change",
            "Move a controller. Channel volume by default — turn it down and up to check the other end is listening.",
            SendableKind::Control,
        ),
    );
    v.push(
        from_kind(
            "Program Change",
            "Switch the instrument or patch the receiving device is using.",
            SendableKind::Program,
        ),
    );
    v.push(
        from_kind(
            "Pitch Bend",
            "Bend the pitch. Starts centred, which bends nothing.",
            SendableKind::PitchWheel,
        ),
    );
    v.push(
        from_kind(
            "Channel Pressure",
            "Press harder on every note at once, on devices that respond to it.",
            SendableKind::ChannelPressure,
        ),
    );
    v.push(
        from_kind(
            "Aftertouch (Poly)",
            "Press harder on one note, on devices that respond to it.",
            SendableKind::AftertouchPoly,
        ),
    );
    v.push(
        from_kind(
            "Start",
            "Tell the receiving device to start playing from the beginning.",
            SendableKind::Start,
        ),
    );
    v.push(from_kind("Stop", "Tell the receiving device to stop playing.", SendableKind::Stop));
    v.push(
        from_kind(
            "Continue",
            "Tell the receiving device to resume from where it stopped.",
            SendableKind::Continue,
        ),
    );
    v.push(
        from_kind(
            "Clock",
            "One timing pulse. Devices expect twenty-four of these per quarter note, so a single one proves the connection rather than driving anything.",
            SendableKind::Clock,
        ),
    );
    v.push(
        from_kind(
            "Active Sense",
            "The keep-alive heartbeat some devices send to say they are still connected.",
            SendableKind::ActiveSense,
        ),
    );
    v.push(
        from_kind(
            "Reset",
            "Tell the receiving device to return to its power-on state.",
            SendableKind::Reset,
        ),
    );
    v.push(
        from_kind(
            "Identity Request",
            "Ask the device to say what it is. The reply arrives in the monitor like any other traffic — this screen does not wait for it.",
            SendableKind::SystemExclusive,
        ),
    );
    assert(request_models(v@) =~= built_in_models());
    v
}

/// The length and first two characters of each built-in name, in list order.
spec fn built_in_name_signature(k: int) -> (nat, char, char) {
    if k == 0 { (7, 'N', 'o') }
    else if k == 1 { (8, 'N', 'o') }
    else if k == 2 { (13, 'A', 'l') }
    else if k == 3 { (14, 'C', 'o') }
    else if k == 4 { (14, 'P', 'r') }
    else if k == 5 { (10, 'P', 'i') }
    else if k == 6 { (16, 'C', 'h') }
    else if k == 7 { (17, 'A', 'f') }
    else if k == 8 { (5, 'S', 't') }
    else if k == 9 { (4, 'S', 't') }
    else if k == 10 { (8, 'C', 'o') }
    else if k == 11 { (5, 'C', 'l') }
    else if k == 12 { (12, 'A', 'c') }
    else if k == 13 { (5, 'R', 'e') }
    else { (16, 'I', 'd') }
}

proof fn lemma_built_in_name_signature(k: int)
    requires
        0 <= k < 15,
    ensures
        built_in_models()[k].name.len() == built_in_name_signature(k).0,
        built_in_models()[k].name.len() >= 2,
        built_in_models()[k].name[0] == built_in_name_signature(k).1,
        built_in_models()[k].name[1] == built_in_name_signature(k).2,
{
    if k == 0 { reveal_strlit("Note On"); }
    else if k == 1 { reveal_strlit("Note Off"); }
    else if k == 2 { reveal_strlit("All Notes Off"); }
    else if k == 3 { reveal_strlit("Control Change"); }
    else if k == 4 { reveal_strlit("Program Change"); }
    else if k == 5 { reveal_strlit("Pitch Bend"); }
    else if k == 6 { reveal_strlit("Channel Pressure"); }
    else if k == 7 { reveal_strlit("Aftertouch (Poly)"); }
    else if k == 8 { reveal_strlit("Start"); }
    else if k == 9 { reveal_strlit("Stop"); }
    else if k == 10 { reveal_strlit("Continue"); }
    else if k == 11 { reveal_strlit("Clock"); }
    else if k == 12 { reveal_strlit("Active Sense"); }
    else if k == 13 { reveal_strlit("Reset"); }
    else { reveal_strlit("Identity Request"); }
}

/// No two built-in requests share a name.
pub proof fn lemma_built_in_names_unique()
    ensures
        names_unique(built_in_models()),
{
    assert forall|i: int, j: int| 0 <= i < j < built_in_models().len() implies built_in_models()[i].name
        != built_in_models()[j].name by {
        lemma_built_in_name_signature(i);
        lemma_built_in_name_signature(j);
    }
}

/// Saving under a name no request carries keeps every name in the library
/// unique.
pub proof fn lemma_save_keeps_names_unique(saved: Seq<RequestModel>, added: RequestModel)
    requires
        names_unique(built_in_models() + saved),
        !has_name(built_in_models() + saved, added.name),
    ensures
        names_unique(built_in_models() + saved.push(added)),
{
    let before = built_in_models() + saved;
    let after = built_in_models() + saved.push(added);
    assert(after =~= before.push(added));
    assert forall|i: int, j: int| 0 <= i < j < after.len() implies after[i].name != after[j].name by {
        if j == after.len() - 1 {
            assert(after[i] == before[i]);
        } else {
            assert(after[i] == before[i]);
            assert(after[j] == before[j]);
        }
    }
}

/// A rename that was not refused keeps every name in the library unique.
pub proof fn lemma_rename_keeps_names_unique(
    saved: Seq<RequestModel>,
    from: Seq<char>,
    to: Seq<char>,
    i: int,
)
    requires
        names_unique(built_in_models() + saved),
        first_named(saved, from, i),
        from != to ==> !has_name(built_in_models() + saved, to),
    ensures
        names_unique(built_in_models() + saved.update(i, renamed(saved[i], to))),
{
    let b = built_in_models();
    let before = b + saved;
    let after = b + saved.update(i, renamed(saved[i], to));
    let at = b.len() + i;
    assert(after =~= before.update(at, renamed(saved[i], to)));
    assert forall|x: int, y: int| 0 <= x < y < after.len() implies after[x].name != after[y].name by {
        if x != at && y != at {
            assert(after[x] == before[x]);
            assert(after[y] == before[y]);
        } else if from == to {
            assert(after[x].name == before[x].name);
            assert(after[y].name == before[y].name);
        } else if x == at {
            assert(after[y] == before[y]);
        } else {
            assert(after[x] == before[x]);
        }
    }
}

proof fn lemma_filter_keeps_names_unique(v: Seq<RequestModel>, p: spec_fn(RequestModel) -> bool)
    requires
        names_unique(v),
    ensures
        names_unique(v.filter(p)),
        forall|k: int| 0 <= k < v.filter(p).len() ==> v.contains(#[trigger] v.filter(p)[k]),
    decreases v.len(),
{
    reveal_with_fuel(Seq::filter, 1);
    if v.len() > 0 {
        let front = v.drop_last();
        assert(names_unique(front)) by {
            assert forall|i: int, j: int| 0 <= i < j < front.len() implies front[i].name
                != front[j].name by {
                assert(front[i] == v[i]);
                assert(front[j] == v[j]);
            }
        }
        lemma_filter_keeps_names_unique(front, p);
        let kept = front.filter(p);
        assert forall|k: int| 0 <= k < kept.len() implies kept[k].name != v.last().name by {
            assert(front.contains(kept[k]));
            let w = choose|w: int| 0 <= w < front.len() && front[w] == kept[k];
            assert(v[w] == front[w]);
        }
        if p(v.last()) {
            let out = kept.push(v.last());
            assert forall|k: int| 0 <= k < out.len() implies v.contains(#[trigger] out[k]) by {
                if k < kept.len() {
                    assert(front.contains(kept[k]));
                    let w = choose|w: int| 0 <= w < front.len() && front[w] == kept[k];
                    assert(v[w] == front[w]);
                } else {
                    assert(v[v.len() - 1] == out[k]);
                }
            }
        } else {
            assert forall|k: int| 0 <= k < kept.len() implies v.contains(#[trigger] kept[k]) by {
                assert(front.contains(kept[k]));
                let w = choose|w: int| 0 <= w < front.len() && front[w] == kept[k];
                assert(v[w] == front[w]);
            }
        }
    }
}

/// Deleting a saved request keeps every name in the library unique.
pub proof fn lemma_delete_keeps_names_unique(saved: Seq<RequestModel>, name: Seq<char>)
    requires
        names_unique(built_in_models() + saved),
        !has_name(built_in_models(), name),
    ensures
        names_unique(built_in_models() + saved.filter(|q: RequestModel| q.name != name)),
{
    let p = |q: RequestModel| q.name != name;
    let b = built_in_models();
    assert(b.filter(p) =~= b) by {
        assert forall|k: int| 0 <= k < b.len() implies p(#[trigger] b[k]) by {}
        lemma_filter_all_kept(b, p);
    }
    Seq::filter_distributes_over_add(b, saved, p);
    lemma_filter_keeps_names_unique(b + saved, p);
}

proof fn lemma_filter_all_kept(v: Seq<RequestModel>, p: spec_fn(RequestModel) -> bool)
    requires
        forall|k: int| 0 <= k < v.len() ==> p(#[trigger] v[k]),
    ensures
        v.filter(p) == v,
    decreases v.len(),
{
    reveal_with_fuel(Seq::filter, 1);
    if v.len() > 0 {
        let front = v.drop_last();
        assert forall|k: int| 0 <= k < front.len() implies p(#[trigger] front[k]) by {
            assert(front[k] == v[k]);
        }
        lemma_filter_all_kept(front, p);
        assert(p(v[v.len() - 1]));
        assert(front.push(v.last()) =~= v);
    }
}

} // verus!
