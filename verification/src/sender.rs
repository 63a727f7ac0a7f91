//! The sender: the one place where what the user is composing, where it goes,
//! and what went meet.
//!
//! It holds no port. Sending is split in two: [`Sender::outgoing`] says what
//! would go where, the caller transmits it, and [`Sender::record`] writes down
//! how that turned out. Every refused operation leaves the sender as it was.

use crate::composition::{
    captured, rebuilt, set_field_outcome, typed_entry_outcome, Composition, CompositionModel,
    FieldRefusal, PersistedComposition, PersistedModel, refused_as,
};
use crate::constants::SEND_RECORD_LIMIT;
use crate::encoder::encoding;
use crate::error::CoreError;
use crate::event_log::keep_newest;
use crate::ids::{
    PublishedName, RequestName, SendRecordId, TargetId, TargetKey, TargetKeyModel, Timestamp,
};
use crate::message::MidiMessage;
use crate::ports::{PlatformCapabilities, PublicationSupport};
use crate::publication::Publication;
use crate::request::{
    first_named, has_name, request_models, RequestLibrary, RequestModel, Request, RequestOrigin,
    duplicate_name, unknown_request,
};
use crate::send_record::{SendOutcome, SendRecord};
use crate::sendable::{default_model, FieldId, SendableKind};
use crate::settings::{PersistedSettings, SavedRequest, SendSettings};
use crate::target::Target;
use crate::text::{copy_bytes, to_string};
use std::collections::VecDeque;
use vstd::prelude::*;

verus! {

broadcast use vstd::std_specs::vecdeque::group_vec_dequeue_axioms;

/// The chosen target: its lasting identity, and the name it had when last
/// seen, so a failure can name it after it has gone.
#[derive(Debug, Clone, PartialEq, Eq)]
struct ChosenTarget {
    key: TargetKey,
    name: Option<String>,
}

/// What a send would transmit, and to where.
#[derive(Debug, Clone, PartialEq, Eq)]
pub struct Outgoing {
    /// The target, by session identity.
    pub target: TargetId,
    /// The target's name now, for the record.
    pub target_name: String,
    /// The message, for the record.
    pub message: MidiMessage,
    /// The bytes to transmit.
    pub bytes: Vec<u8>,
}

/// Whether `i` is the first target in a list with this key.
pub open spec fn first_keyed(targets: Seq<Target>, key: TargetKeyModel, i: int) -> bool {
    &&& 0 <= i < targets.len()
    &&& targets[i].key@ == key
    &&& forall|j: int| 0 <= j < i ==> #[trigger] targets[j].key@ != key
}

/// Whether no target in a list has this key.
pub open spec fn none_keyed(targets: Seq<Target>, key: TargetKeyModel) -> bool {
    forall|j: int| 0 <= j < targets.len() ==> #[trigger] targets[j].key@ != key
}

/// Whether `i` is the first target in a list with this session id.
pub open spec fn first_with_target_id(targets: Seq<Target>, id: TargetId, i: int) -> bool {
    &&& 0 <= i < targets.len()
    &&& targets[i].id == id
    &&& forall|j: int| 0 <= j < i ==> #[trigger] targets[j].id != id
}

/// The names of stored requests, in order.
pub open spec fn stored_names(entries: Seq<SavedRequest>) -> Seq<Seq<char>> {
    entries.map_values(|e: SavedRequest| e.name@)
}

/// The requests a stored list restores to: the first entry carrying each name,
/// when its message can be rebuilt. A later entry with a name already seen is
/// dropped even when the earlier one could not be rebuilt.
pub open spec fn restored_requests(entries: Seq<SavedRequest>) -> Seq<RequestModel>
    decreases entries.len(),
{
    if entries.len() == 0 {
        Seq::empty()
    } else {
        let earlier = restored_requests(entries.drop_last());
        let entry = entries.last();
        if !stored_names(entries.drop_last()).contains(entry.name@) && rebuilt(
            entry.composition@,
        ) is Ok {
            earlier.push(
                RequestModel {
                    name: entry.name@,
                    description: entry.description@,
                    composition: rebuilt(entry.composition@)->Ok_0,
                    origin: RequestOrigin::Saved,
                },
            )
        } else {
            earlier
        }
    }
}

/// A stored request, as a value.
pub open spec fn stored_request(r: RequestModel) -> (Seq<char>, Seq<char>, PersistedModel) {
    (r.name, r.description, captured(r.composition))
}

/// Whether a record is the one written for this send.
pub open spec fn records_send(
    r: SendRecord,
    id: u32,
    at: Timestamp,
    outgoing: Outgoing,
    outcome: SendOutcome,
) -> bool {
    &&& r.id@ == id
    &&& r.time == at
    &&& r.target@ == outgoing.target_name@
    &&& r.message@ == outgoing.message@
    &&& r.bytes@ == outgoing.bytes@
    &&& r.outcome == outcome
}

/// Whether `i` is the first record in a list with this id.
pub open spec fn first_record(records: Seq<SendRecord>, id: SendRecordId, i: int) -> bool {
    &&& 0 <= i < records.len()
    &&& records[i].id == id
    &&& forall|j: int| 0 <= j < i ==> #[trigger] records[j].id != id
}

/// The send screen's state.
pub struct Sender {
    targets: Vec<Target>,
    chosen: Option<ChosenTarget>,
    publication: Publication,
    composition: Composition,
    library: RequestLibrary,
    records: VecDeque<SendRecord>,
    next_record_id: u32,
    publication_error: Option<String>,
    capabilities: PlatformCapabilities,
    history: Ghost<Seq<SendRecord>>,
}

impl Sender {
    /// The places that can be sent to now.
    pub closed spec fn targets_spec(&self) -> Seq<Target> {
        self.targets@
    }

    /// The chosen target's key, if one is chosen.
    pub closed spec fn chosen_key(&self) -> Option<TargetKeyModel> {
        match self.chosen {
            Some(c) => Some(c.key@),
            None => None,
        }
    }

    /// The name the chosen target had when last seen, if any.
    pub closed spec fn chosen_name(&self) -> Option<Seq<char>> {
        match self.chosen {
            Some(c) => match c.name {
                Some(n) => Some(n@),
                None => None,
            },
            None => None,
        }
    }

    /// The published source's state.
    pub closed spec fn publication_spec(&self) -> Publication {
        self.publication
    }

    /// What is being composed.
    pub closed spec fn composition_spec(&self) -> CompositionModel {
        self.composition@
    }

    /// The user's own requests.
    pub closed spec fn saved_spec(&self) -> Seq<RequestModel> {
        self.library.saved_requests()
    }

    /// The record of sends, oldest first.
    pub closed spec fn records_spec(&self) -> Seq<SendRecord> {
        self.records@
    }

    /// The identity the next record will carry.
    pub closed spec fn next_id_spec(&self) -> u32 {
        self.next_record_id
    }

    /// Every send recorded since the sender was made, oldest first, including
    /// those the record no longer holds.
    pub closed spec fn history(&self) -> Seq<SendRecord> {
        self.history@
    }

    /// Whether the record is the newest of everything sent, and every send so
    /// far was numbered in order from zero without wrapping.
    pub open spec fn log_sound(&self) -> bool {
        &&& self.records_spec() == keep_newest(self.history(), SEND_RECORD_LIMIT as nat)
        &&& forall|i: int| 0 <= i < self.history().len() ==> #[trigger] self.history()[i].id@ == i
        &&& self.next_id_spec() == self.history().len()
    }

    /// The last publication failure, until cleared.
    pub closed spec fn publication_error_spec(&self) -> Option<Seq<char>> {
        match self.publication_error {
            Some(s) => Some(s@),
            None => None,
        }
    }

    /// What the platform can do.
    pub closed spec fn capabilities_spec(&self) -> PlatformCapabilities {
        self.capabilities
    }

    /// Starts the send screen from the saved settings, if any.
    ///
    /// The saved target is chosen (its name is learned when it is next seen),
    /// the saved publication is restored, and the saved requests are rebuilt:
    /// an entry that cannot be rebuilt, or repeats an earlier entry's name, is
    /// dropped rather than costing the whole document. The composition starts
    /// as a Note On, and the record is empty.
    pub fn new(
        targets: Vec<Target>,
        saved: Option<&PersistedSettings>,
        capabilities: PlatformCapabilities,
    ) -> (s: Self)
        ensures
            s.targets_spec() == targets@,
            s.composition_spec() == (CompositionModel::Guided {
                message: default_model(SendableKind::NoteOn),
            }),
            s.records_spec() == Seq::<SendRecord>::empty(),
            s.history() == Seq::<SendRecord>::empty(),
            s.log_sound(),
            s.next_id_spec() == 0,
            s.publication_error_spec() is None,
            s.capabilities_spec() == capabilities,
            s.chosen_name() is None,
            match saved {
                Some(settings) => {
                    &&& s.chosen_key() == match settings.send.target {
                        Some(k) => Some(k@),
                        None => None::<TargetKeyModel>,
                    }
                    &&& s.publication_spec().name@ == settings.send.publication.name@
                    &&& s.publication_spec().published == settings.send.publication.published
                    &&& s.saved_spec() == restored_requests(settings.send.saved_requests@)
                },
                None => {
                    &&& s.chosen_key() is None
                    &&& s.publication_spec().name@ == "MIDI Monitor"@
                    &&& !s.publication_spec().published
                    &&& s.saved_spec() == Seq::<RequestModel>::empty()
                },
            },
    {
        let mut library = RequestLibrary::new();
        let (chosen, publication) = match saved {
            Some(settings) => {
                let send = &settings.send;
                let chosen = match &send.target {
                    Some(key) => Some(ChosenTarget { key: key.duplicate(), name: None }),
                    None => None,
                };
                let restored = restore_requests(send.saved_requests.as_slice());
                library.replace_saved(restored);
                (chosen, send.publication.duplicate())
            },
            None => (None, Publication::default()),
        };
        Sender {
            targets,
            chosen,
            publication,
            composition: Composition::from_kind(SendableKind::NoteOn),
            library,
            records: VecDeque::new(),
            next_record_id: 0,
            publication_error: None,
            capabilities,
            history: Ghost(Seq::empty()),
        }
    }

    /// Replaces the target list, refreshing the chosen target's remembered
    /// name while it is still in view.
    pub fn replace_targets(&mut self, targets: Vec<Target>)
        ensures
            final(self).targets_spec() == targets@,
            final(self).chosen_key() == old(self).chosen_key(),
            match old(self).chosen_key() {
                Some(key) => if exists|i: int| first_keyed(targets@, key, i) {
                    exists|i: int|
                        first_keyed(targets@, key, i) && final(self).chosen_name() == Some(
                            targets@[i].name@,
                        )
                } else {
                    final(self).chosen_name() == old(self).chosen_name()
                },
                None => final(self).chosen_name() is None,
            },
            final(self).composition_spec() == old(self).composition_spec(),
            final(self).saved_spec() == old(self).saved_spec(),
            final(self).records_spec() == old(self).records_spec(),
            final(self).publication_spec() == old(self).publication_spec(),
    {
        self.targets = targets;
        let current = self.chosen.take();
        self.chosen = match current {
            Some(chosen) => match find_keyed(self.targets.as_slice(), &chosen.key) {
                Some(i) => Some(
                    ChosenTarget { key: chosen.key, name: Some(self.targets[i].name.clone()) },
                ),
                None => Some(chosen),
            },
            None => None,
        };
    }

    /// The places that can be sent to now.
    pub fn targets(&self) -> (t: &[Target])
        ensures
            t@ == self.targets_spec(),
    {
        self.targets.as_slice()
    }

    /// The chosen target, when it is among those that can be sent to now.
    pub fn chosen_target(&self) -> (t: Option<&Target>)
        ensures
            match self.chosen_key() {
                Some(key) => match t {
                    Some(target) => exists|i: int|
                        first_keyed(self.targets_spec(), key, i) && *target
                            == self.targets_spec()[i],
                    None => none_keyed(self.targets_spec(), key),
                },
                None => t is None,
            },
    {
        match &self.chosen {
            Some(chosen) => match find_keyed(self.targets.as_slice(), &chosen.key) {
                Some(i) => {
                    proof {
                        assert(first_keyed(self.targets_spec(), chosen.key@, i as int));
                    }
                    Some(&self.targets[i])
                },
                None => None,
            },
            None => None,
        }
    }

    /// The published source's state.
    pub fn publication(&self) -> (p: &Publication)
        ensures
            *p == self.publication_spec(),
    {
        &self.publication
    }

    /// What the platform can do.
    pub fn capabilities(&self) -> (c: &PlatformCapabilities)
        ensures
            *c == self.capabilities_spec(),
    {
        &self.capabilities
    }

    /// What is being composed.
    pub fn composition(&self) -> (c: &Composition)
        ensures
            c@ == self.composition_spec(),
    {
        &self.composition
    }

    /// Replaces what is being composed.
    pub fn set_composition(&mut self, composition: Composition)
        ensures
            final(self).composition_spec() == composition@,
            final(self).saved_spec() == old(self).saved_spec(),
            final(self).records_spec() == old(self).records_spec(),
    {
        self.composition = composition;
    }

    /// Sets one value of what is being composed, as the composition does.
    pub fn set_composition_field(&mut self, field: FieldId, entry: &str) -> (r: Result<
        (),
        CoreError,
    >)
        ensures
            match set_field_outcome(old(self).composition_spec(), field, entry@) {
                Ok(c) => r is Ok && final(self).composition_spec() == c,
                Err(refusal) => r matches Err(e) && refused_as(e, refusal)
                    && final(self).composition_spec() == old(self).composition_spec(),
            },
            final(self).saved_spec() == old(self).saved_spec(),
            final(self).records_spec() == old(self).records_spec(),
    {
        self.composition.set_field(field, entry)
    }

    /// The record of sends, oldest first.
    pub fn records(&self) -> (r: Vec<&SendRecord>)
        ensures
            r@.map_values(|x: &SendRecord| *x) == self.records_spec(),
    {
        let mut r: Vec<&SendRecord> = Vec::new();
        let mut i: usize = 0;
        while i < self.records.len()
            invariant
                i <= self.records@.len(),
                r@.map_values(|x: &SendRecord| *x) == self.records@.take(i as int),
            decreases self.records@.len() - i,
        {
            let ghost before = r@;
            r.push(&self.records[i]);
            proof {
                assert(r@.map_values(|x: &SendRecord| *x) =~= before.map_values(
                    |x: &SendRecord| *x,
                ).push(self.records@[i as int]));
                assert(self.records@.take(i + 1) =~= self.records@.take(i as int).push(
                    self.records@[i as int],
                ));
            }
            i = i + 1;
        }
        assert(self.records@.take(i as int) =~= self.records@);
        r
    }

    /// What a send would transmit now, and to where.
    ///
    /// Refused with `NoSendTarget` when no target is chosen, or when the chosen
    /// one has gone and was never seen by name; with `UnknownTarget` naming it
    /// when it was seen and has gone; and with the encoder's refusal when the
    /// message cannot be transmitted.
    pub fn outgoing(&self) -> (r: Result<Outgoing, CoreError>)
        ensures
            match self.chosen_key() {
                None => r matches Err(e) && e == CoreError::NoSendTarget,
                Some(key) => if none_keyed(self.targets_spec(), key) {
                    match self.chosen_name() {
                        Some(name) => r matches Err(e) && e matches CoreError::UnknownTarget {
                            name: n,
                        } && n@ == name,
                        None => r matches Err(e) && e == CoreError::NoSendTarget,
                    }
                } else {
                    exists|i: int|
                        first_keyed(self.targets_spec(), key, i) && match r {
                            Ok(out) => {
                                &&& out.target == self.targets_spec()[i].id
                                &&& out.target_name@ == self.targets_spec()[i].name@
                                &&& out.message@ == match self.composition_spec() {
                                    CompositionModel::Guided { message } => message,
                                    CompositionModel::Raw { message, .. } => message,
                                }
                                &&& match self.composition_spec() {
                                    CompositionModel::Guided { message } => encoding(message)
                                        == Some(out.bytes@),
                                    CompositionModel::Raw { bytes, .. } => out.bytes@ == bytes,
                                }
                            },
                            Err(e) => self.composition_spec() matches CompositionModel::Guided {
                                message,
                            } && encoding(message) is None && e is UnsendableMessage,
                        }
                },
            },
    {
        let chosen = match &self.chosen {
            Some(chosen) => chosen,
            None => {
                return Err(CoreError::NoSendTarget);
            },
        };
        let i = match find_keyed(self.targets.as_slice(), &chosen.key) {
            Some(i) => i,
            None => {
                return match &chosen.name {
                    Some(name) => Err(CoreError::UnknownTarget { name: name.clone() }),
                    None => Err(CoreError::NoSendTarget),
                };
            },
        };
        let target = &self.targets[i];
        let bytes = self.composition.bytes()?;
        Ok(
            Outgoing {
                target: target.id,
                target_name: target.name.clone(),
                message: self.composition.message().duplicate(),
                bytes,
            },
        )
    }

    /// Writes down how a send turned out, keeping only the newest two hundred
    /// records. Record identities count up from zero, wrapping at the top of
    /// their range.
    pub fn record(&mut self, outgoing: &Outgoing, outcome: SendOutcome, at: Timestamp)
        ensures
            final(self).next_id_spec() == if old(self).next_id_spec() == u32::MAX {
                0
            } else {
                (old(self).next_id_spec() + 1) as u32
            },
            exists|r: SendRecord|
                records_send(r, old(self).next_id_spec(), at, *outgoing, outcome)
                    && final(self).records_spec() == keep_newest(
                    old(self).records_spec().push(r),
                    SEND_RECORD_LIMIT as nat,
                ) && final(self).history() == old(self).history().push(r),
            final(self).records_spec().len() <= SEND_RECORD_LIMIT,
            old(self).log_sound() && old(self).next_id_spec() < u32::MAX ==> final(self).log_sound(),
            final(self).composition_spec() == old(self).composition_spec(),
            final(self).saved_spec() == old(self).saved_spec(),
            final(self).chosen_key() == old(self).chosen_key(),
            final(self).targets_spec() == old(self).targets_spec(),
    {
        let id = SendRecordId::new(self.next_record_id);
        self.next_record_id = self.next_record_id.wrapping_add(1);
        let entry = SendRecord {
            id,
            time: at,
            target: outgoing.target_name.clone(),
            message: outgoing.message.duplicate(),
            bytes: copy_bytes(outgoing.bytes.as_slice()),
            outcome,
        };
        proof {
            assert(records_send(entry, old(self).next_id_spec(), at, *outgoing, outcome));
            lemma_keep_newest_push(self.history@, entry, SEND_RECORD_LIMIT as nat);
        }
        let ghost e = entry;
        self.history = Ghost(self.history@.push(entry));
        let mut records: VecDeque<SendRecord> = VecDeque::new();
        std::mem::swap(&mut records, &mut self.records);
        let ghost pushed = records@.push(entry);
        records.push_back(entry);
        while records.len() > SEND_RECORD_LIMIT
            invariant
                records@.len() >= keep_newest(pushed, SEND_RECORD_LIMIT as nat).len(),
                keep_newest(records@, SEND_RECORD_LIMIT as nat) == keep_newest(
                    pushed,
                    SEND_RECORD_LIMIT as nat,
                ),
            decreases records@.len(),
        {
            let ghost before = records@;
            records.pop_front();
            proof {
                assert(keep_newest(records@, SEND_RECORD_LIMIT as nat) =~= keep_newest(
                    before,
                    SEND_RECORD_LIMIT as nat,
                ));
            }
        }
        proof {
            assert(keep_newest(records@, SEND_RECORD_LIMIT as nat) =~= records@);
        }
        self.records = records;
        proof {
            assert(records_send(e, old(self).next_id_spec(), at, *outgoing, outcome));
            assert(self.records_spec() == keep_newest(old(self).records_spec().push(e), SEND_RECORD_LIMIT as nat));
            assert(self.history() == old(self).history().push(e));
        }
    }

    /// Chooses a target by session id, remembering its lasting key and its
    /// name; refused with `UnknownTarget` when no target has that id.
    pub fn set_target(&mut self, id: TargetId) -> (r: Result<(), CoreError>)
        ensures
            match r {
                Ok(()) => exists|i: int|
                    first_with_target_id(old(self).targets_spec(), id, i) && final(self).chosen_key()
                        == Some(old(self).targets_spec()[i].key@) && final(self).chosen_name()
                        == Some(old(self).targets_spec()[i].name@),
                Err(e) => (forall|j: int|
                    0 <= j < old(self).targets_spec().len() ==> #[trigger] old(
                        self,
                    ).targets_spec()[j].id != id) && (e matches CoreError::UnknownTarget { name: n }
                    && n@.len() == 0) && final(self).chosen_key() == old(self).chosen_key()
                    && final(self).chosen_name() == old(self).chosen_name(),
            },
            final(self).targets_spec() == old(self).targets_spec(),
            final(self).composition_spec() == old(self).composition_spec(),
    {
        match find_target_id(self.targets.as_slice(), id) {
            Some(i) => {
                let target = &self.targets[i];
                self.chosen = Some(
                    ChosenTarget { key: target.key.duplicate(), name: Some(target.name.clone()) },
                );
                Ok(())
            },
            None => Err(CoreError::UnknownTarget { name: String::new() }),
        }
    }

    /// Renames the published source.
    pub fn set_publication_name(&mut self, name: PublishedName)
        ensures
            final(self).publication_spec() == (Publication {
                name,
                ..old(self).publication_spec()
            }),
            final(self).chosen_key() == old(self).chosen_key(),
    {
        self.publication.name = name;
    }

    /// Publishes or withdraws the source; refused with `PublicationUnsupported`
    /// where the platform cannot publish. Withdrawing it also unchooses it as
    /// the target, since it can no longer be sent to.
    pub fn set_published(&mut self, published: bool) -> (r: Result<(), CoreError>)
        ensures
            match old(self).capabilities_spec().publication {
                PublicationSupport::Unsupported { detail } => r matches Err(e)
                    && e matches CoreError::PublicationUnsupported { detail: d } && d@ == detail@
                    && final(self).publication_spec() == old(self).publication_spec()
                    && final(self).chosen_key() == old(self).chosen_key(),
                PublicationSupport::Supported => {
                    &&& r is Ok
                    &&& final(self).publication_spec() == (Publication {
                        published,
                        ..old(self).publication_spec()
                    })
                    &&& if !published && old(self).chosen_key() == Some(
                        TargetKeyModel::PublishedSource,
                    ) {
                        final(self).chosen_key() is None
                    } else {
                        final(self).chosen_key() == old(self).chosen_key()
                            && final(self).chosen_name() == old(self).chosen_name()
                    }
                },
            },
            final(self).composition_spec() == old(self).composition_spec(),
    {
        match &self.capabilities.publication {
            PublicationSupport::Unsupported { detail } => {
                return Err(CoreError::PublicationUnsupported { detail: detail.clone() });
            },
            PublicationSupport::Supported => {},
        }
        self.publication.published = published;
        if !published {
            let withdrawn = match &self.chosen {
                Some(chosen) => chosen.key == TargetKey::PublishedSource,
                None => false,
            };
            if withdrawn {
                self.chosen = None;
            }
        }
        Ok(())
    }

    /// The send screen's half of the settings to save.
    pub fn persisted_settings(&self) -> (s: SendSettings)
        ensures
            match s.target {
                Some(k) => self.chosen_key() == Some(k@),
                None => self.chosen_key() is None,
            },
            s.publication.name@ == self.publication_spec().name@,
            s.publication.published == self.publication_spec().published,
            s.saved_requests@.map_values(
                |q: SavedRequest| (q.name@, q.description@, q.composition@),
            ) == self.saved_spec().map_values(|r: RequestModel| stored_request(r)),
    {
        let target = match &self.chosen {
            Some(chosen) => Some(chosen.key.duplicate()),
            None => None,
        };
        let saved = self.library.saved();
        let mut saved_requests: Vec<SavedRequest> = Vec::new();
        let mut i: usize = 0;
        while i < saved.len()
            invariant
                i <= saved@.len(),
                request_models(saved@) == self.saved_spec(),
                saved_requests@.map_values(
                    |q: SavedRequest| (q.name@, q.description@, q.composition@),
                ) == request_models(saved@).take(i as int).map_values(
                    |r: RequestModel| stored_request(r),
                ),
            decreases saved@.len() - i,
        {
            let request = &saved[i];
            let ghost before = saved_requests@;
            saved_requests.push(
                SavedRequest {
                    name: request.name.duplicate(),
                    description: request.description.clone(),
                    composition: PersistedComposition::capture(&request.composition),
                },
            );
            proof {
                let f = |q: SavedRequest| (q.name@, q.description@, q.composition@);
                let g = |r: RequestModel| stored_request(r);
                assert(saved_requests@.map_values(f) =~= before.map_values(f).push(
                    g(saved@[i as int]@),
                ));
                assert(request_models(saved@).take(i + 1) =~= request_models(saved@).take(
                    i as int,
                ).push(saved@[i as int]@));
                assert(request_models(saved@).take(i + 1).map_values(g) =~= request_models(
                    saved@,
                ).take(i as int).map_values(g).push(g(saved@[i as int]@)));
            }
            i = i + 1;
        }
        proof {
            assert(request_models(saved@).take(i as int) =~= request_models(saved@));
        }
        SendSettings { target, publication: self.publication.duplicate(), saved_requests }
    }

    /// One record, by identity; refused with `UnknownSendRecord` once it has
    /// been evicted.
    pub fn recorded(&self, id: SendRecordId) -> (r: Result<&SendRecord, CoreError>)
        ensures
            match r {
                Ok(record) => exists|i: int|
                    first_record(self.records_spec(), id, i) && *record == self.records_spec()[i],
                Err(e) => e == CoreError::UnknownSendRecord && forall|j: int|
                    0 <= j < self.records_spec().len() ==> #[trigger] self.records_spec()[j].id
                        != id,
            },
    {
        let mut i: usize = 0;
        while i < self.records.len()
            invariant
                i <= self.records@.len(),
                forall|j: int| 0 <= j < i ==> #[trigger] self.records@[j].id != id,
            decreases self.records@.len() - i,
        {
            if self.records[i].id == id {
                proof {
                    assert(first_record(self.records_spec(), id, i as int));
                }
                return Ok(&self.records[i]);
            }
            i = i + 1;
        }
        Err(CoreError::UnknownSendRecord)
    }

    /// Records that the platform refused to publish: the source is marked not
    /// published, and the reason kept until cleared.
    pub fn report_publication_failure(&mut self, detail: &str)
        ensures
            final(self).publication_spec() == (Publication {
                published: false,
                ..old(self).publication_spec()
            }),
            final(self).publication_error_spec() == Some(detail@),
            final(self).chosen_key() == old(self).chosen_key(),
    {
        self.publication.published = false;
        self.publication_error = Some(to_string(detail));
    }

    /// The last publication failure, until cleared.
    pub fn publication_error(&self) -> (e: Option<&str>)
        ensures
            match e {
                Some(s) => self.publication_error_spec() == Some(s@),
                None => self.publication_error_spec() is None,
            },
    {
        match &self.publication_error {
            Some(s) => Some(s.as_str()),
            None => None,
        }
    }

    /// Forgets the last publication failure.
    pub fn clear_publication_error(&mut self)
        ensures
            final(self).publication_error_spec() is None,
            final(self).publication_spec() == old(self).publication_spec(),
    {
        self.publication_error = None;
    }

    /// The request library.
    pub fn library(&self) -> (l: &RequestLibrary)
        ensures
            l.saved_requests() == self.saved_spec(),
    {
        &self.library
    }

    /// Starts composing from a request in the library, by name; refused with
    /// `UnknownRequest` when nothing carries it.
    pub fn select_request(&mut self, name: &RequestName) -> (r: Result<(), CoreError>)
        ensures
            match r {
                Ok(()) => exists|i: int|
                    first_named(old(self).library_requests(), name@, i)
                        && final(self).composition_spec() == old(
                        self,
                    ).library_requests()[i].composition,
                Err(e) => !has_name(old(self).library_requests(), name@) && unknown_request(
                    e,
                    name@,
                ) && final(self).composition_spec() == old(self).composition_spec(),
            },
            final(self).saved_spec() == old(self).saved_spec(),
    {
        let composition = match self.library.get(name) {
            Ok(request) => {
                proof {
                    let i = choose|i: int|
                        first_named(self.library.requests(), name@, i) && request@
                            == self.library.requests()[i];
                    assert(request.composition@ == self.library_requests()[i].composition);
                }
                request.composition.duplicate()
            },
            Err(e) => {
                return Err(e);
            },
        };
        self.composition = composition;
        Ok(())
    }

    /// Every request in the library, built-ins first.
    pub open spec fn library_requests(&self) -> Seq<RequestModel> {
        crate::request::built_in_models() + self.saved_spec()
    }

    /// Starts composing a message type from its defaults.
    pub fn set_composition_kind(&mut self, kind: SendableKind)
        ensures
            final(self).composition_spec() == (CompositionModel::Guided {
                message: default_model(kind),
            }),
            final(self).saved_spec() == old(self).saved_spec(),
    {
        self.composition = Composition::from_kind(kind);
    }

    /// Composes from hand-typed bytes, or refuses them and keeps what was
    /// being composed.
    pub fn compose_raw(&mut self, entry: &str) -> (r: Result<(), CoreError>)
        ensures
            match typed_entry_outcome(entry@) {
                Ok(c) => r is Ok && final(self).composition_spec() == c,
                Err(detail) => r matches Err(e) && refused_as(
                    e,
                    FieldRefusal::Malformed { detail },
                ) && final(self).composition_spec() == old(self).composition_spec(),
            },
            final(self).saved_spec() == old(self).saved_spec(),
    {
        self.composition = Composition::parse_raw(entry)?;
        Ok(())
    }

    /// Saves what is being composed under a new name; refused with
    /// `DuplicateRequestName` when any request already carries it.
    pub fn save_request(&mut self, name: RequestName) -> (r: Result<(), CoreError>)
        ensures
            match r {
                Ok(()) => !has_name(old(self).library_requests(), name@) && final(self).saved_spec()
                    == old(self).saved_spec().push(
                    RequestModel {
                        name: name@,
                        description: Seq::empty(),
                        composition: old(self).composition_spec(),
                        origin: RequestOrigin::Saved,
                    },
                ),
                Err(e) => has_name(old(self).library_requests(), name@) && duplicate_name(
                    e,
                    name@,
                ) && final(self).saved_spec() == old(self).saved_spec(),
            },
            final(self).composition_spec() == old(self).composition_spec(),
    {
        let composition = self.composition.duplicate();
        self.library.save(name, composition)
    }

    /// The request library, for renaming and deleting.
    pub fn library_mut(&mut self) -> (l: &mut RequestLibrary)
        ensures
            l.saved_requests() == old(self).saved_spec(),
            final(self).saved_spec() == final(l).saved_requests(),
            final(self).composition_spec() == old(self).composition_spec(),
            final(self).records_spec() == old(self).records_spec(),
    {
        &mut self.library
    }
}

/// The position of the first target with this key.
fn find_keyed(targets: &[Target], key: &TargetKey) -> (r: Option<usize>)
    ensures
        match r {
            Some(i) => first_keyed(targets@, key@, i as int),
            None => none_keyed(targets@, key@),
        },
{
    let mut i: usize = 0;
    while i < targets.len()
        invariant
            i <= targets@.len(),
            forall|j: int| 0 <= j < i ==> #[trigger] targets@[j].key@ != key@,
        decreases targets@.len() - i,
    {
        if targets[i].key == *key {
            return Some(i);
        }
        i = i + 1;
    }
    None
}

/// The position of the first target with this session id.
fn find_target_id(targets: &[Target], id: TargetId) -> (r: Option<usize>)
    ensures
        match r {
            Some(i) => first_with_target_id(targets@, id, i as int),
            None => forall|j: int| 0 <= j < targets@.len() ==> #[trigger] targets@[j].id != id,
        },
{
    let mut i: usize = 0;
    while i < targets.len()
        invariant
            i <= targets@.len(),
            forall|j: int| 0 <= j < i ==> #[trigger] targets@[j].id != id,
        decreases targets@.len() - i,
    {
        if targets[i].id == id {
            return Some(i);
        }
        i = i + 1;
    }
    None
}

/// A list of names, as values.
pub open spec fn name_views(names: Seq<RequestName>) -> Seq<Seq<char>> {
    names.map_values(|n: RequestName| n@)
}

/// Whether a list of names holds this one.
fn contains_name(names: &[RequestName], name: &RequestName) -> (b: bool)
    ensures
        b == name_views(names@).contains(name@),
{
    let mut i: usize = 0;
    while i < names.len()
        invariant
            i <= names@.len(),
            forall|j: int| 0 <= j < i ==> #[trigger] names@[j]@ != name@,
        decreases names@.len() - i,
    {
        if names[i] == *name {
            proof {
                assert(name_views(names@)[i as int] == name@);
            }
            return true;
        }
        i = i + 1;
    }
    proof {
        let views = name_views(names@);
        if views.contains(name@) {
            let w = choose|w: int| 0 <= w < views.len() && #[trigger] views[w] == name@;
            assert(names@[w]@ == name@);
        }
    }
    false
}

/// Rebuilds stored requests, keeping the first entry for each name and
/// dropping any whose message cannot be rebuilt.
fn restore_requests(entries: &[SavedRequest]) -> (restored: Vec<Request>)
    ensures
        request_models(restored@) == restored_requests(entries@),
{
    let mut restored: Vec<Request> = Vec::new();
    let mut seen: Vec<RequestName> = Vec::new();
    let mut i: usize = 0;
    while i < entries.len()
        invariant
            i <= entries@.len(),
            forall|n: Seq<char>|
                name_views(seen@).contains(n) <==> stored_names(
                    entries@.take(i as int),
                ).contains(n),
            request_models(restored@) == restored_requests(entries@.take(i as int)),
        decreases entries@.len() - i,
    {
        let entry = &entries[i];
        let ghost prefix = entries@.take(i + 1);
        proof {
            assert(prefix.drop_last() =~= entries@.take(i as int));
            assert(prefix.last() == entries@[i as int]);
        }
        let ghost before_seen = seen@;
        let ghost before = restored@;
        if !contains_name(seen.as_slice(), &entry.name) {
            seen.push(entry.name.duplicate());
            match entry.composition.rebuild() {
                Ok(composition) => {
                    restored.push(
                        Request {
                            name: entry.name.duplicate(),
                            description: entry.description.clone(),
                            composition,
                            origin: RequestOrigin::Saved,
                        },
                    );
                    proof {
                        assert(request_models(restored@) =~= request_models(before).push(
                            restored@.last()@,
                        ));
                    }
                },
                Err(_) => {},
            }
        }
        proof {
            let names = stored_names(prefix);
            assert(names =~= stored_names(entries@.take(i as int)).push(entries@[i as int].name@));
            let now = name_views(seen@);
            let was = name_views(before_seen);
            if !was.contains(entry.name@) {
                assert(now =~= was.push(entry.name@));
            } else {
                assert(now == was);
            }
            assert forall|n: Seq<char>| now.contains(n) <==> names.contains(n) by {
                if now.contains(n) {
                    let w = choose|w: int| 0 <= w < now.len() && #[trigger] now[w] == n;
                    if n != entry.name@ {
                        assert(was.contains(n)) by {
                            if !was.contains(entry.name@) {
                                assert(w < was.len());
                                assert(was[w] == n);
                            } else {
                                assert(was[w] == n);
                            }
                        }
                        let x = choose|x: int|
                            0 <= x < stored_names(entries@.take(i as int)).len() && #[trigger] stored_names(
                                entries@.take(i as int),
                            )[x] == n;
                        assert(names[x] == n);
                    } else {
                        assert(names[names.len() - 1] == n);
                    }
                }
                if names.contains(n) {
                    let x = choose|x: int| 0 <= x < names.len() && #[trigger] names[x] == n;
                    if x == names.len() - 1 {
                        if was.contains(entry.name@) {
                            let w = choose|w: int| 0 <= w < was.len() && #[trigger] was[w] == n;
                            assert(now[w] == n);
                        } else {
                            assert(now[now.len() - 1] == n);
                        }
                    } else {
                        assert(stored_names(entries@.take(i as int))[x] == n);
                        assert(stored_names(entries@.take(i as int)).contains(n));
                        assert(was.contains(n));
                        let w = choose|w: int| 0 <= w < was.len() && #[trigger] was[w] == n;
                        assert(now[w] == n);
                    }
                }
            }
            if was.contains(entry.name@) {
                assert(stored_names(prefix.drop_last()).contains(entry.name@));
            }
        }
        i = i + 1;
    }
    assert(entries@.take(i as int) =~= entries@);
    restored
}

/// The send log after each of `history` is recorded in turn, starting empty.
pub open spec fn log_after(history: Seq<SendRecord>) -> Seq<SendRecord>
    decreases history.len(),
{
    if history.len() == 0 {
        Seq::empty()
    } else {
        keep_newest(log_after(history.drop_last()).push(history.last()), SEND_RECORD_LIMIT as nat)
    }
}

/// Keeping the newest `n` after each addition is keeping the newest `n` of
/// everything added.
proof fn lemma_keep_newest_push<T>(a: Seq<T>, x: T, n: nat)
    requires
        n > 0,
    ensures
        keep_newest(keep_newest(a, n).push(x), n) == keep_newest(a.push(x), n),
{
    if a.len() > n {
        assert(keep_newest(a, n).push(x).skip(1) =~= a.push(x).skip(a.len() + 1 - n));
    }
}

/// Over any run of sends numbered in call order, the log holds the newest
/// two hundred records in the order they were made, their ids strictly
/// increase, and no record that was dropped is held any longer, so asking for
/// it again is refused with `UnknownSendRecord`. Ids wrap at the top of their
/// range, so a run that passes it is numbered apart from this.
pub proof fn lemma_send_log(history: Seq<SendRecord>, first: u32)
    requires
        forall|i: int| 0 <= i < history.len() ==> #[trigger] history[i].id@ == first + i,
    ensures
        log_after(history) == keep_newest(history, SEND_RECORD_LIMIT as nat),
        forall|i: int, j: int|
            0 <= i < j < log_after(history).len() ==> log_after(history)[i].id@ < log_after(
                history,
            )[j].id@,
        forall|i: int, j: int|
            0 <= i < history.len() - SEND_RECORD_LIMIT && 0 <= j < log_after(history).len()
                ==> #[trigger] log_after(history)[j].id != #[trigger] history[i].id,
    decreases history.len(),
{
    if history.len() > 0 {
        let rest = history.drop_last();
        assert forall|i: int| 0 <= i < rest.len() implies #[trigger] rest[i].id@ == first + i by {
            assert(rest[i] == history[i]);
        }
        lemma_send_log(rest, first);
        lemma_keep_newest_push(rest, history.last(), SEND_RECORD_LIMIT as nat);
        assert(rest.push(history.last()) =~= history);
    }
    let log = keep_newest(history, SEND_RECORD_LIMIT as nat);
    let d: int = if history.len() <= SEND_RECORD_LIMIT {
        0
    } else {
        history.len() - SEND_RECORD_LIMIT
    };
    assert forall|j: int| 0 <= j < log.len() implies #[trigger] log[j] == history[j + d] by {}
    assert forall|i: int, j: int| 0 <= i < j < log.len() implies log[i].id@ < log[j].id@ by {
        assert(log[i] == history[i + d]);
        assert(log[j] == history[j + d]);
    }
    assert forall|i: int, j: int|
        0 <= i < history.len() - SEND_RECORD_LIMIT && 0 <= j < log.len() implies #[trigger] log[j].id
        != #[trigger] history[i].id by {
        assert(log[j] == history[j + d]);
        assert(history[j + d].id@ != history[i].id@);
    }
}

/// What a sender's record holds after any run of sends: a sender starts
/// sound ([`Sender::new`]) and stays sound through every [`Sender::record`]
/// until its ids would wrap. Its record then holds the newest two hundred
/// sends, the newest last, in the order they were made; their ids strictly
/// increase; and no send that was dropped is held any longer, so
/// [`Sender::recorded`] refuses its id with `UnknownSendRecord`.
pub proof fn lemma_sender_record(s: Sender)
    requires
        s.log_sound(),
    ensures
        s.records_spec().len() == if s.history().len() <= SEND_RECORD_LIMIT {
            s.history().len()
        } else {
            SEND_RECORD_LIMIT as nat
        },
        forall|j: int|
            0 <= j < s.records_spec().len() ==> #[trigger] s.records_spec()[j] == s.history()[s.history().len()
                - s.records_spec().len() + j],
        forall|i: int, j: int|
            0 <= i < j < s.records_spec().len() ==> s.records_spec()[i].id@ < s.records_spec()[j].id@,
        forall|i: int, j: int|
            0 <= i < s.history().len() - SEND_RECORD_LIMIT && 0 <= j < s.records_spec().len()
                ==> #[trigger] s.records_spec()[j].id != #[trigger] s.history()[i].id,
{
    let h = s.history();
    assert forall|i: int| 0 <= i < h.len() implies #[trigger] h[i].id@ == 0u32 + i by {}
    lemma_send_log(h, 0);
}

} // verus!
