//! Session identifiers for ports and send targets.
//!
//! A device unplugged and replugged keeps the id it had, so a row the webview
//! already shows is updated rather than rebuilt. Ids are minted the first time
//! an identity is seen and remembered for the rest of the session; each one is
//! the count of identities seen so far, so no two identities ever share one.

use crate::ids::{SourceId, SourceKey, SourceKeyModel, TargetId, TargetKey, TargetKeyModel};
use vstd::prelude::*;

verus! {

/// What a session id is remembered against, as a comparable value.
pub enum MintKeyModel {
    Persistent(SourceKeyModel),
    Positional(u32),
}

/// What a session id is remembered against.
///
/// Two ports with no device-interface string and the same name carry the same
/// [`SourceKey`], because nothing distinguishes them. Minting from that key
/// would hand both rows one id, and two rows sharing an id cannot be selected
/// separately; such ports are minted by position instead.
#[derive(Debug, Clone, Eq, Hash)]
pub enum MintKey {
    /// The port has an identity that outlives the session.
    Persistent(SourceKey),
    /// Nothing distinguishes this port but where it currently sits. Never
    /// persisted: today's enumeration order says nothing about tomorrow's.
    Positional(u32),
}

impl MintKey {
    /// The key as a comparable value.
    pub open spec fn view(&self) -> MintKeyModel {
        match self {
            MintKey::Persistent(key) => MintKeyModel::Persistent(key@),
            MintKey::Positional(index) => MintKeyModel::Positional(*index),
        }
    }

    /// A copy of this key.
    pub fn duplicate(&self) -> (r: Self)
        ensures
            r@ == self@,
    {
        match self {
            MintKey::Persistent(key) => MintKey::Persistent(key.duplicate()),
            MintKey::Positional(index) => MintKey::Positional(*index),
        }
    }
}

impl PartialEq for MintKey {
    fn eq(&self, other: &Self) -> (r: bool) {
        match (self, other) {
            (MintKey::Persistent(a), MintKey::Persistent(b)) => a == b,
            (MintKey::Positional(a), MintKey::Positional(b)) => *a == *b,
            _ => false,
        }
    }
}

impl vstd::std_specs::cmp::PartialEqSpecImpl for MintKey {
    open spec fn obeys_eq_spec() -> bool {
        true
    }

    open spec fn eq_spec(&self, other: &Self) -> bool {
        self@ == other@
    }
}

/// The id remembered for `key`, if any.
pub open spec fn recalled<K, I>(entries: Seq<(K, I)>, key: K) -> Option<I>
    decreases entries.len(),
{
    if entries.len() == 0 {
        None
    } else if entries.last().0 == key {
        Some(entries.last().1)
    } else {
        recalled(entries.drop_last(), key)
    }
}

/// The remembered entries after asking for `key`: unchanged when it is
/// remembered, otherwise with `key` added under the next id.
pub open spec fn after_minting<K, I>(entries: Seq<(K, I)>, key: K, fresh: I) -> Seq<(K, I)> {
    if recalled(entries, key) is Some {
        entries
    } else {
        entries.push((key, fresh))
    }
}

/// Whether no key is remembered twice.
pub open spec fn keys_distinct<K, I>(entries: Seq<(K, I)>) -> bool {
    forall|i: int, j: int| 0 <= i < j < entries.len() ==> entries[i].0 != entries[j].0
}

/// What is remembered for a key that sits at `i` in an entry list with no
/// repeated key is the id beside it; a key at no position is not remembered.
pub proof fn lemma_recalled_at<K, I>(entries: Seq<(K, I)>, key: K)
    requires
        keys_distinct(entries),
    ensures
        forall|i: int| 0 <= i < entries.len() && entries[i].0 == key ==> recalled(entries, key)
            == Some(entries[i].1),
        (forall|i: int| 0 <= i < entries.len() ==> entries[i].0 != key) ==> recalled(entries, key)
            is None,
    decreases entries.len(),
{
    if entries.len() > 0 {
        let rest = entries.drop_last();
        assert(keys_distinct(rest));
        lemma_recalled_at(rest, key);
        assert forall|i: int| 0 <= i < entries.len() && entries[i].0 == key implies recalled(
            entries,
            key,
        ) == Some(entries[i].1) by {
            if i < entries.len() - 1 {
                assert(rest[i] == entries[i]);
                assert(entries.last() == entries[entries.len() - 1]);
            }
        }
        if forall|i: int| 0 <= i < entries.len() ==> entries[i].0 != key {
            assert forall|i: int| 0 <= i < rest.len() implies rest[i].0 != key by {
                assert(rest[i] == entries[i]);
            }
            assert(entries.last() == entries[entries.len() - 1]);
        }
    }
}

/// Asking for one key leaves what is remembered for every other key as it was,
/// and afterwards the key asked for is remembered.
pub proof fn lemma_recalled_after_minting<K, I>(entries: Seq<(K, I)>, key: K, fresh: I, other: K)
    ensures
        recalled(after_minting(entries, key, fresh), other) == if recalled(entries, other) is Some {
            recalled(entries, other)
        } else if other == key {
            Some(fresh)
        } else {
            None::<I>
        },
{
    if recalled(entries, key) is None {
        let grown = entries.push((key, fresh));
        assert(grown.drop_last() =~= entries);
        assert(grown.last() == (key, fresh));
    }
}

/// The id asking for `key` gives.
pub open spec fn minted_id(entries: Seq<(MintKeyModel, SourceId)>, key: MintKeyModel) -> SourceId {
    match recalled(entries, key) {
        Some(id) => id,
        None => IdMinter::nth_id(entries.len()),
    }
}

/// What is remembered after asking for each of `keys` in turn.
pub open spec fn mint_all(entries: Seq<(MintKeyModel, SourceId)>, keys: Seq<MintKeyModel>) -> Seq<
    (MintKeyModel, SourceId),
>
    decreases keys.len(),
{
    if keys.len() == 0 {
        entries
    } else {
        let before = mint_all(entries, keys.drop_last());
        after_minting(before, keys.last(), minted_id(before, keys.last()))
    }
}

/// Assigns and remembers session ids for source ports.
#[derive(Debug)]
pub struct IdMinter {
    known: Vec<(MintKey, SourceId)>,
}

impl IdMinter {
    /// What has been minted, in order, each key beside its id.
    pub closed spec fn entries(&self) -> Seq<(MintKeyModel, SourceId)> {
        self.known@.map_values(|e: (MintKey, SourceId)| (e.0@, e.1))
    }

    /// The id the `n`th identity seen is given, counting from zero.
    pub open(crate) spec fn nth_id(n: nat) -> SourceId {
        SourceId((n + 1) as u32)
    }

    /// Each key remembered once, each beside the id its position gives.
    pub open spec fn numbered(entries: Seq<(MintKeyModel, SourceId)>) -> bool {
        &&& entries.len() < u32::MAX
        &&& keys_distinct(entries)
        &&& forall|i: int| 0 <= i < entries.len() ==> #[trigger] entries[i].1 == Self::nth_id(i as nat)
    }

    #[verifier::type_invariant]
    spec fn well_formed(&self) -> bool {
        Self::numbered(self.entries())
    }

    /// Whether an id remains for an identity not seen yet.
    pub open spec fn has_room(&self) -> bool {
        self.entries().len() + 1 < u32::MAX
    }

    /// A minter that has seen nothing.
    pub fn new() -> (m: Self)
        ensures
            m.entries() == Seq::<(MintKeyModel, SourceId)>::empty(),
            Self::numbered(m.entries()),
    {
        let m = IdMinter { known: Vec::new() };
        assert(m.entries() =~= Seq::<(MintKeyModel, SourceId)>::empty());
        m
    }

    /// How many identities have been given an id.
    pub fn minted(&self) -> (n: usize)
        ensures
            n == self.entries().len(),
            Self::numbered(self.entries()),
    {
        proof {
            use_type_invariant(self);
        }
        self.known.len()
    }

    /// The id for a key, minting one the first time the key is seen.
    pub fn id_for(&mut self, key: MintKey) -> (id: SourceId)
        requires
            recalled(old(self).entries(), key@) is Some || old(self).has_room(),
        ensures
            match recalled(old(self).entries(), key@) {
                Some(known) => id == known,
                None => id == Self::nth_id(old(self).entries().len()),
            },
            final(self).entries() == after_minting(old(self).entries(), key@, id),
            Self::numbered(final(self).entries()),
    {
        proof {
            use_type_invariant(&*self);
            lemma_recalled_at(self.entries(), key@);
        }
        let mut i: usize = 0;
        while i < self.known.len()
            invariant
                i <= self.known@.len(),
                forall|j: int| 0 <= j < i ==> self.known@[j].0@ != key@,
                self.entries() == old(self).entries(),
                Self::numbered(self.entries()),
                forall|j: int| 0 <= j < self.entries().len() && #[trigger] self.entries()[j].0 == key@
                    ==> recalled(self.entries(), key@) == Some(self.entries()[j].1),
            decreases self.known@.len() - i,
        {
            if self.known[i].0 == key {
                proof {
                    assert(self.entries()[i as int].0 == key@);
                }
                return self.known[i].1;
            }
            i = i + 1;
        }
        proof {
            assert forall|j: int| 0 <= j < self.entries().len() implies self.entries()[j].0 != key@ by {
                assert(self.entries()[j].0 == self.known@[j].0@);
            }
        }
        let id = SourceId::new((self.known.len() + 1) as u32);
        let ghost before = self.entries();
        let mut known = Vec::new();
        std::mem::swap(&mut known, &mut self.known);
        known.push((key, id));
        proof {
            assert(known@.map_values(|e: (MintKey, SourceId)| (e.0@, e.1)) =~= before.push((key@, id)));
        }
        self.known = known;
        id
    }
}

/// Assigns and remembers session ids for send targets.
///
/// Inputs and outputs are different sets keyed by different types, so they
/// get separate number spaces: an id from one list is never accepted by the
/// other's lookup.
#[derive(Debug)]
pub struct TargetIdMinter {
    known: Vec<(TargetKey, TargetId)>,
}

impl TargetIdMinter {
    /// What has been minted, in order, each key beside its id.
    pub closed spec fn entries(&self) -> Seq<(TargetKeyModel, TargetId)> {
        self.known@.map_values(|e: (TargetKey, TargetId)| (e.0@, e.1))
    }

    /// The id the `n`th target seen is given, counting from zero.
    pub open(crate) spec fn nth_id(n: nat) -> TargetId {
        TargetId((n + 1) as u32)
    }

    /// Each key remembered once, each beside the id its position gives.
    pub open spec fn numbered(entries: Seq<(TargetKeyModel, TargetId)>) -> bool {
        &&& entries.len() < u32::MAX
        &&& keys_distinct(entries)
        &&& forall|i: int| 0 <= i < entries.len() ==> #[trigger] entries[i].1 == Self::nth_id(i as nat)
    }

    #[verifier::type_invariant]
    spec fn well_formed(&self) -> bool {
        Self::numbered(self.entries())
    }

    /// Whether an id remains for a target not seen yet.
    pub open spec fn has_room(&self) -> bool {
        self.entries().len() + 1 < u32::MAX
    }

    /// A minter that has seen nothing.
    pub fn new() -> (m: Self)
        ensures
            m.entries() == Seq::<(TargetKeyModel, TargetId)>::empty(),
            Self::numbered(m.entries()),
    {
        let m = TargetIdMinter { known: Vec::new() };
        assert(m.entries() =~= Seq::<(TargetKeyModel, TargetId)>::empty());
        m
    }

    /// How many targets have been given an id.
    pub fn minted(&self) -> (n: usize)
        ensures
            n == self.entries().len(),
            Self::numbered(self.entries()),
    {
        proof {
            use_type_invariant(self);
        }
        self.known.len()
    }

    /// The id for a key, minting one the first time the key is seen.
    pub fn id_for(&mut self, key: TargetKey) -> (id: TargetId)
        requires
            recalled(old(self).entries(), key@) is Some || old(self).has_room(),
        ensures
            match recalled(old(self).entries(), key@) {
                Some(known) => id == known,
                None => id == Self::nth_id(old(self).entries().len()),
            },
            final(self).entries() == after_minting(old(self).entries(), key@, id),
            Self::numbered(final(self).entries()),
    {
        proof {
            use_type_invariant(&*self);
            lemma_recalled_at(self.entries(), key@);
        }
        let mut i: usize = 0;
        while i < self.known.len()
            invariant
                i <= self.known@.len(),
                forall|j: int| 0 <= j < i ==> self.known@[j].0@ != key@,
                self.entries() == old(self).entries(),
                Self::numbered(self.entries()),
                forall|j: int| 0 <= j < self.entries().len() && #[trigger] self.entries()[j].0 == key@
                    ==> recalled(self.entries(), key@) == Some(self.entries()[j].1),
            decreases self.known@.len() - i,
        {
            if self.known[i].0 == key {
                proof {
                    assert(self.entries()[i as int].0 == key@);
                }
                return self.known[i].1;
            }
            i = i + 1;
        }
        proof {
            assert forall|j: int| 0 <= j < self.entries().len() implies self.entries()[j].0 != key@ by {
                assert(self.entries()[j].0 == self.known@[j].0@);
            }
        }
        let id = TargetId::new((self.known.len() + 1) as u32);
        let ghost before = self.entries();
        let mut known = Vec::new();
        std::mem::swap(&mut known, &mut self.known);
        known.push((key, id));
        proof {
            assert(known@.map_values(|e: (TargetKey, TargetId)| (e.0@, e.1)) =~= before.push((key@, id)));
        }
        self.known = known;
        id
    }
}

/// No two ports seen in a session share an id, and asking again for a port
/// already seen gives back the id it was given.
pub proof fn lemma_source_ids_stable_and_distinct(entries: Seq<(MintKeyModel, SourceId)>, key: MintKeyModel)
    requires
        IdMinter::numbered(entries),
    ensures
        forall|i: int, j: int| 0 <= i < j < entries.len() ==> entries[i].1 != entries[j].1,
        recalled(entries, key) matches Some(id) ==> after_minting(entries, key, id) == entries,
{
    assert forall|i: int, j: int| 0 <= i < j < entries.len() implies entries[i].1 != entries[j].1 by {
        assert(entries[i].1 == IdMinter::nth_id(i as nat));
        assert(entries[j].1 == IdMinter::nth_id(j as nat));
    }
}

/// No two send targets seen in a session share an id, and asking again for a
/// target already seen gives back the id it was given.
pub proof fn lemma_target_ids_stable_and_distinct(entries: Seq<(TargetKeyModel, TargetId)>, key: TargetKeyModel)
    requires
        TargetIdMinter::numbered(entries),
    ensures
        forall|i: int, j: int| 0 <= i < j < entries.len() ==> entries[i].1 != entries[j].1,
        recalled(entries, key) matches Some(id) ==> after_minting(entries, key, id) == entries,
{
    assert forall|i: int, j: int| 0 <= i < j < entries.len() implies entries[i].1 != entries[j].1 by {
        assert(entries[i].1 == TargetIdMinter::nth_id(i as nat));
        assert(entries[j].1 == TargetIdMinter::nth_id(j as nat));
    }
}

} // verus!
