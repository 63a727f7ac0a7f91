//! Monitored sources and the tri-state grouping shown in the Sources panel.

use crate::error::CoreError;
use crate::ids::{SourceGroupId, SourceId, SourceKey, SourceKeyModel};
use crate::text::to_string;
use vstd::prelude::*;

verus! {

/// A named origin of events.
#[derive(Debug, Clone, PartialEq, Eq)]
pub struct Source {
    /// Session identity; two sources may share a display name.
    pub id: SourceId,
    /// Identity that outlives the session, which saved selections are keyed on.
    pub key: SourceKey,
    /// The name the operating system supplies, used verbatim.
    pub name: String,
    /// The group this source is indented under, or `None` for a standalone row.
    pub group: Option<SourceGroupId>,
    /// Whether events from this source enter the monitor.
    pub selected: bool,
    /// Whether it is currently able to deliver anything.
    pub availability: Availability,
}

/// Whether a listed source can currently deliver events, and if not, why.
#[derive(Debug, Clone, PartialEq, Eq)]
pub enum Availability {
    /// Attached and listening.
    Open,
    /// Attached, but the port could not be opened.
    Unopenable { detail: String },
    /// Remembered from a previous session and not currently attached.
    Absent,
    /// The platform in use cannot offer this source at all.
    Unsupported { detail: String },
}

impl Availability {
    /// The reason this source cannot deliver, or `None` when it can.
    pub fn reason(&self) -> (r: Option<String>)
        ensures
            match self {
                Availability::Open => r is None,
                Availability::Unopenable { detail } => r matches Some(s) && s@ == detail@,
                Availability::Absent => r matches Some(s) && s@ == "Not connected"@,
                Availability::Unsupported { detail } => r matches Some(s) && s@ == detail@,
            },
    {
        match self {
            Availability::Open => None,
            Availability::Unopenable { detail } => Some(detail.clone()),
            Availability::Absent => Some(to_string("Not connected")),
            Availability::Unsupported { detail } => Some(detail.clone()),
        }
    }
}

/// Whether a group's checkbox is on, off, or partially on.
#[derive(Debug, Clone, Copy, PartialEq, Eq, Structural)]
pub enum CheckState {
    /// Every child is selected.
    Checked,
    /// No child is selected.
    Unchecked,
    /// Some but not all children are selected.
    Mixed,
}

/// The tri-state a group of children adds up to. An empty group is unchecked.
pub open spec fn check_state_of(children: Seq<bool>) -> CheckState {
    if children.len() > 0 && forall|i: int| 0 <= i < children.len() ==> #[trigger] children[i] {
        CheckState::Checked
    } else if forall|i: int| 0 <= i < children.len() ==> !#[trigger] children[i] {
        CheckState::Unchecked
    } else {
        CheckState::Mixed
    }
}

/// What a tri-state checkbox says of its children: ticked exactly when there
/// are children and every one is selected, clear exactly when none is, and
/// indeterminate exactly when at least one is and at least one is not.
pub proof fn lemma_check_state_meaning(children: Seq<bool>)
    ensures
        (check_state_of(children) == CheckState::Checked) <==> (children.len() > 0 && forall|i: int|
            0 <= i < children.len() ==> #[trigger] children[i]),
        (check_state_of(children) == CheckState::Unchecked) <==> (forall|i: int|
            0 <= i < children.len() ==> !#[trigger] children[i]),
        (check_state_of(children) == CheckState::Mixed) <==> ((exists|i: int|
            0 <= i < children.len() && #[trigger] children[i]) && (exists|j: int|
            0 <= j < children.len() && !#[trigger] children[j])),
{
    if children.len() > 0 && forall|i: int| 0 <= i < children.len() ==> #[trigger] children[i] {
        assert(children[0]);
    }
}

impl CheckState {
    /// Derives a group's state from its children's selections.
    pub fn from_children(children: &[bool]) -> (state: Self)
        ensures
            state == check_state_of(children@),
    {
        if children.len() == 0 {
            return CheckState::Unchecked;
        }
        let first = children[0];
        let mut i: usize = 1;
        while i < children.len()
            invariant
                1 <= i <= children@.len(),
                first == children@[0],
                forall|k: int| 0 <= k < i ==> #[trigger] children@[k] == first,
            decreases children@.len() - i,
        {
            if children[i] != first {
                return CheckState::Mixed;
            }
            i = i + 1;
        }
        if first {
            CheckState::Checked
        } else {
            CheckState::Unchecked
        }
    }
}

/// Whether some source in the list carries this key.
pub open spec fn has_key(sources: Seq<Source>, key: SourceKeyModel) -> bool {
    exists|i: int| 0 <= i < sources.len() && #[trigger] sources[i].key@ == key
}

/// The selection a source carrying this key had, taken from the first such
/// source in the list.
pub open spec fn selection_for(sources: Seq<Source>, key: SourceKeyModel) -> bool {
    let i = choose|i: int|
        0 <= i < sources.len() && sources[i].key@ == key && forall|j: int|
            0 <= j < i ==> sources[j].key@ != key;
    sources[i].selected
}

/// Whether `i` is the first position in the list holding a source with this id.
pub open spec fn first_with_id(sources: Seq<Source>, id: SourceId, i: int) -> bool {
    0 <= i < sources.len() && sources[i].id == id && forall|j: int|
        0 <= j < i ==> #[trigger] sources[j].id != id
}

/// Whether no source in the list has this id.
pub open spec fn no_source_with_id(sources: Seq<Source>, id: SourceId) -> bool {
    forall|j: int| 0 <= j < sources.len() ==> #[trigger] sources[j].id != id
}

/// The label the Source column shows: `To` for traffic observed on its way out
/// to a destination, `From` otherwise, then the source's name.
pub open spec fn event_label_of(source: Source) -> Seq<char> {
    (if source.group == Some(SourceGroupId::SpyOnOutput) {
        "To "@
    } else {
        "From "@
    }) + source.name@
}

/// The selections of the members of a group, in order.
pub open spec fn group_selections_of(sources: Seq<Source>, group: SourceGroupId) -> Seq<bool> {
    sources.filter(|s: Source| s.group == Some(group)).map_values(|s: Source| s.selected)
}

/// The ids of the sources that are not selected, in order.
pub open spec fn deselected_ids_of(sources: Seq<Source>) -> Seq<SourceId> {
    ids_of(sources.filter(|s: Source| !s.selected))
}

/// The keys of the selected sources, in order.
pub open spec fn selected_keys_of(sources: Seq<Source>) -> Seq<SourceKeyModel> {
    keys_of(sources.filter(|s: Source| s.selected))
}

/// The ids of a list of sources, in order.
pub open spec fn ids_of(sources: Seq<Source>) -> Seq<SourceId> {
    sources.map_values(|s: Source| s.id)
}

/// The sources this application is currently able to monitor.
#[derive(Debug, Clone, Default)]
pub struct SourceCatalogue {
    sources: Vec<Source>,
}

impl SourceCatalogue {
    /// The sources, in the order the event source reported them.
    pub closed spec fn view(&self) -> Seq<Source> {
        self.sources@
    }

    /// Builds a catalogue from the sources an event source reports.
    pub fn new(sources: Vec<Source>) -> (c: Self)
        ensures
            c@ == sources@,
    {
        Self { sources }
    }

    /// Swaps in a newly discovered set of sources, carrying selections across
    /// by key, so a device that is unplugged and replugged comes back ticked.
    pub fn replace(&mut self, incoming: Vec<Source>)
        ensures
            final(self)@.len() == incoming@.len(),
            forall|i: int|
                0 <= i < incoming@.len() ==> #[trigger] final(self)@[i] == (Source {
                    selected: if has_key(old(self)@, incoming@[i].key@) {
                        selection_for(old(self)@, incoming@[i].key@)
                    } else {
                        incoming@[i].selected
                    },
                    ..incoming@[i]
                }),
    {
        let ghost previous = self.sources@;
        let mut result: Vec<Source> = Vec::new();
        let mut rest = incoming;
        let ghost incoming_view = rest@;
        let mut taken: Vec<Source> = Vec::new();
        // Reverse so sources can be taken from the back in their original order.
        while rest.len() > 0
            invariant
                taken@.len() + rest@.len() == incoming_view.len(),
                forall|k: int| 0 <= k < rest@.len() ==> rest@[k] == incoming_view[k],
                forall|k: int| 0 <= k < taken@.len() ==> #[trigger] taken@[k] == incoming_view[incoming_view.len() - 1 - k],
            decreases rest@.len(),
        {
            let s = rest.pop().unwrap();
            taken.push(s);
        }
        while taken.len() > 0
            invariant
                result@.len() + taken@.len() == incoming_view.len(),
                previous == self.sources@,
                forall|k: int| 0 <= k < taken@.len() ==> #[trigger] taken@[k] == incoming_view[incoming_view.len() - 1 - k],
                forall|i: int|
                    0 <= i < result@.len() ==> #[trigger] result@[i] == (Source {
                        selected: if has_key(previous, incoming_view[i].key@) {
                            selection_for(previous, incoming_view[i].key@)
                        } else {
                            incoming_view[i].selected
                        },
                        ..incoming_view[i]
                    }),
            decreases taken@.len(),
        {
            let mut source = taken.pop().unwrap();
            let ghost idx = result@.len() as int;
            proof {
                assert(source == incoming_view[idx]);
            }
            match self.previous_selection(&source.key) {
                Some(was_selected) => {
                    source.selected = was_selected;
                },
                None => {},
            }
            result.push(source);
        }
        self.sources = result;
    }

    /// The selection of the first listed source carrying this key.
    fn previous_selection(&self, key: &SourceKey) -> (r: Option<bool>)
        ensures
            match r {
                Some(b) => has_key(self@, key@) && b == selection_for(self@, key@),
                None => !has_key(self@, key@),
            },
    {
        let mut i: usize = 0;
        while i < self.sources.len()
            invariant
                i <= self.sources@.len(),
                forall|j: int| 0 <= j < i ==> self.sources@[j].key@ != key@,
            decreases self.sources@.len() - i,
        {
            if self.sources[i].key == *key {
                proof {
                    let w = choose|w: int|
                        0 <= w < self.sources@.len() && self.sources@[w].key@ == key@ && forall|j: int|
                            0 <= j < w ==> self.sources@[j].key@ != key@;
                    assert(0 <= i < self.sources@.len() && self.sources@[i as int].key@ == key@ && forall|j: int|
                            0 <= j < i ==> self.sources@[j].key@ != key@);
                    if w < i {
                        assert(self.sources@[w].key@ != key@);
                    } else if w > i {
                        assert(self.sources@[i as int].key@ != key@);
                    }
                }
                return Some(self.sources[i].selected);
            }
            i = i + 1;
        }
        None
    }

    /// Every source, in the order the event source reported them.
    pub fn sources(&self) -> (s: &[Source])
        ensures
            s@ == self@,
    {
        self.sources.as_slice()
    }

    /// Position of the first source with this id, if any.
    fn position_of(&self, id: SourceId) -> (r: Option<usize>)
        ensures
            match r {
                Some(i) => first_with_id(self@, id, i as int),
                None => no_source_with_id(self@, id),
            },
    {
        let mut i: usize = 0;
        while i < self.sources.len()
            invariant
                i <= self.sources@.len(),
                forall|j: int| 0 <= j < i ==> #[trigger] self.sources@[j].id != id,
            decreases self.sources@.len() - i,
        {
            if self.sources[i].id == id {
                return Some(i);
            }
            i = i + 1;
        }
        None
    }

    /// The display name for a source, if the id still resolves.
    pub fn name_of(&self, id: SourceId) -> (r: Option<&str>)
        ensures
            match r {
                Some(name) => exists|i: int| first_with_id(self@, id, i) && name@ == self@[i].name@,
                None => no_source_with_id(self@, id),
            },
    {
        match self.position_of(id) {
            Some(i) => Some(self.sources[i].name.as_str()),
            None => None,
        }
    }

    /// The persistent identity behind a session id, if it still resolves.
    pub fn key_of(&self, id: SourceId) -> (r: Option<SourceKey>)
        ensures
            match r {
                Some(key) => exists|i: int| first_with_id(self@, id, i) && key@ == self@[i].key@,
                None => no_source_with_id(self@, id),
            },
    {
        match self.position_of(id) {
            Some(i) => Some(self.sources[i].key.duplicate()),
            None => None,
        }
    }

    /// The label the Source column shows for events from this source, such as
    /// `From MidiKeys`, or `To ...` for traffic observed on its way out.
    pub fn event_label(&self, id: SourceId) -> (r: Option<String>)
        ensures
            match r {
                Some(label) => exists|i: int| first_with_id(self@, id, i) && label@ == event_label_of(self@[i]),
                None => no_source_with_id(self@, id),
            },
    {
        match self.position_of(id) {
            Some(i) => {
                let source = &self.sources[i];
                let mut label = match source.group {
                    Some(SourceGroupId::SpyOnOutput) => to_string("To "),
                    _ => to_string("From "),
                };
                label.append(source.name.as_str());
                Some(label)
            },
            None => None,
        }
    }

    /// Whether events from this source are currently admitted. An unknown id
    /// reports `false`: a stale reference suppresses traffic, never admits it.
    pub fn is_selected(&self, id: SourceId) -> (b: bool)
        ensures
            b == exists|i: int| first_with_id(self@, id, i) && self@[i].selected,
    {
        match self.position_of(id) {
            Some(i) => self.sources[i].selected,
            None => false,
        }
    }

    /// Whether any source at all is selected.
    pub fn any_selected(&self) -> (b: bool)
        ensures
            b == exists|i: int| 0 <= i < self@.len() && #[trigger] self@[i].selected,
    {
        let mut i: usize = 0;
        while i < self.sources.len()
            invariant
                i <= self.sources@.len(),
                forall|j: int| 0 <= j < i ==> !#[trigger] self.sources@[j].selected,
            decreases self.sources@.len() - i,
        {
            if self.sources[i].selected {
                return true;
            }
            i = i + 1;
        }
        false
    }

    /// Selects or deselects one source.
    pub fn set_selected(&mut self, id: SourceId, selected: bool) -> (r: Result<(), CoreError>)
        ensures
            match r {
                Ok(()) => exists|i: int|
                    first_with_id(old(self)@, id, i) && final(self)@ == old(self)@.update(
                        i,
                        Source { selected, ..old(self)@[i] },
                    ),
                Err(e) => no_source_with_id(old(self)@, id) && final(self)@ == old(self)@ && e
                    == CoreError::UnknownSource { id },
            },
    {
        match self.position_of(id) {
            Some(i) => {
                self.sources[i].selected = selected;
                Ok(())
            },
            None => Err(CoreError::UnknownSource { id }),
        }
    }

    /// Records that a port could not be opened, so the row can explain itself.
    pub fn set_unopenable(&mut self, id: SourceId, detail: String)
        ensures
            match old(self).position_of_spec(id) {
                Some(i) => final(self)@ == old(self)@.update(
                    i,
                    Source { availability: Availability::Unopenable { detail }, ..old(self)@[i] },
                ),
                None => final(self)@ == old(self)@,
            },
    {
        match self.position_of(id) {
            Some(i) => {
                self.sources[i].availability = Availability::Unopenable { detail };
            },
            None => {},
        }
    }

    /// The first position holding this id, if any.
    pub closed spec fn position_of_spec(&self, id: SourceId) -> Option<int> {
        if exists|i: int| first_with_id(self@, id, i) {
            Some(choose|i: int| first_with_id(self@, id, i))
        } else {
            None
        }
    }

    /// Applies one selection state to every member of a group.
    pub fn set_group_selected(&mut self, group: SourceGroupId, selected: bool)
        ensures
            final(self)@.len() == old(self)@.len(),
            forall|i: int|
                0 <= i < old(self)@.len() ==> #[trigger] final(self)@[i] == if old(self)@[i].group
                    == Some(group) {
                    Source { selected, ..old(self)@[i] }
                } else {
                    old(self)@[i]
                },
    {
        let mut i: usize = 0;
        while i < self.sources.len()
            invariant
                i <= self.sources@.len(),
                self.sources@.len() == old(self)@.len(),
                forall|k: int|
                    0 <= k < i ==> #[trigger] self.sources@[k] == if old(self)@[k].group == Some(
                        group,
                    ) {
                        Source { selected, ..old(self)@[k] }
                    } else {
                        old(self)@[k]
                    },
                forall|k: int| i <= k < self.sources@.len() ==> #[trigger] self.sources@[k] == old(self)@[k],
            decreases self.sources@.len() - i,
        {
            if self.sources[i].group == Some(group) {
                self.sources[i].selected = selected;
            }
            i = i + 1;
        }
    }

    /// The tri-state for a group's own checkbox.
    pub fn group_state(&self, group: SourceGroupId) -> (state: CheckState)
        ensures
            state == check_state_of(group_selections_of(self@, group)),
    {
        let mut children: Vec<bool> = Vec::new();
        let mut i: usize = 0;
        while i < self.sources.len()
            invariant
                i <= self.sources@.len(),
                children@ == self.sources@.take(i as int).filter(|s: Source| s.group == Some(group)).map_values(
                    |s: Source| s.selected,
                ),
            decreases self.sources@.len() - i,
        {
            proof {
                reveal_with_fuel(Seq::filter, 1);
                assert(self.sources@.take(i + 1).drop_last() =~= self.sources@.take(i as int));
            }
            if self.sources[i].group == Some(group) {
                children.push(self.sources[i].selected);
            }
            i = i + 1;
            proof {
                let f = |s: Source| s.group == Some(group);
                let g = |s: Source| s.selected;
                assert(children@ =~= self.sources@.take(i as int).filter(f).map_values(g));
            }
        }
        proof {
            assert(self.sources@.take(i as int) =~= self.sources@);
        }
        CheckState::from_children(children.as_slice())
    }

    /// The ids of every currently deselected source, in order.
    pub fn deselected_ids(&self) -> (ids: Vec<SourceId>)
        ensures
            ids@ == deselected_ids_of(self@),
    {
        let mut ids: Vec<SourceId> = Vec::new();
        let mut i: usize = 0;
        while i < self.sources.len()
            invariant
                i <= self.sources@.len(),
                ids@ == ids_of(self.sources@.take(i as int).filter(|s: Source| !s.selected)),
            decreases self.sources@.len() - i,
        {
            proof {
                reveal_with_fuel(Seq::filter, 1);
                assert(self.sources@.take(i + 1).drop_last() =~= self.sources@.take(i as int));
            }
            if !self.sources[i].selected {
                ids.push(self.sources[i].id);
            }
            i = i + 1;
            proof {
                assert(ids@ =~= ids_of(self.sources@.take(i as int).filter(|s: Source| !s.selected)));
            }
        }
        proof {
            assert(self.sources@.take(i as int) =~= self.sources@);
        }
        ids
    }

    /// The ids of every currently selected source, in order.
    pub fn selected_ids(&self) -> (ids: Vec<SourceId>)
        ensures
            ids@ == ids_of(self@.filter(|s: Source| s.selected)),
    {
        let mut ids: Vec<SourceId> = Vec::new();
        let mut i: usize = 0;
        while i < self.sources.len()
            invariant
                i <= self.sources@.len(),
                ids@ == ids_of(self.sources@.take(i as int).filter(|s: Source| s.selected)),
            decreases self.sources@.len() - i,
        {
            proof {
                reveal_with_fuel(Seq::filter, 1);
                assert(self.sources@.take(i + 1).drop_last() =~= self.sources@.take(i as int));
            }
            if self.sources[i].selected {
                ids.push(self.sources[i].id);
            }
            i = i + 1;
            proof {
                assert(ids@ =~= ids_of(self.sources@.take(i as int).filter(|s: Source| s.selected)));
            }
        }
        proof {
            assert(self.sources@.take(i as int) =~= self.sources@);
        }
        ids
    }

    /// Restores selections saved from a previous session: a source is selected
    /// exactly when its key is among `selected`.
    pub fn apply_selection(&mut self, selected: &[SourceKey])
        ensures
            final(self)@.len() == old(self)@.len(),
            forall|i: int|
                0 <= i < old(self)@.len() ==> #[trigger] final(self)@[i] == (Source {
                    selected: keys_contain(selected@, old(self)@[i].key@),
                    ..old(self)@[i]
                }),
    {
        let mut i: usize = 0;
        while i < self.sources.len()
            invariant
                i <= self.sources@.len(),
                self.sources@.len() == old(self)@.len(),
                forall|k: int|
                    0 <= k < i ==> #[trigger] self.sources@[k] == (Source {
                        selected: keys_contain(selected@, old(self)@[k].key@),
                        ..old(self)@[k]
                    }),
                forall|k: int| i <= k < self.sources@.len() ==> #[trigger] self.sources@[k] == old(self)@[k],
            decreases self.sources@.len() - i,
        {
            let found = contains_key(selected, &self.sources[i].key);
            self.sources[i].selected = found;
            i = i + 1;
        }
    }

    /// The identities of every currently selected source, for persistence.
    pub fn selected_keys(&self) -> (keys: Vec<SourceKey>)
        ensures
            key_views(keys@) == selected_keys_of(self@),
    {
        let mut keys: Vec<SourceKey> = Vec::new();
        let mut i: usize = 0;
        while i < self.sources.len()
            invariant
                i <= self.sources@.len(),
                key_views(keys@) == keys_of(self.sources@.take(i as int).filter(|s: Source| s.selected)),
            decreases self.sources@.len() - i,
        {
            proof {
                reveal_with_fuel(Seq::filter, 1);
                assert(self.sources@.take(i + 1).drop_last() =~= self.sources@.take(i as int));
            }
            let ghost before = keys@;
            let ghost pred = |s: Source| s.selected;
            if self.sources[i].selected {
                keys.push(self.sources[i].key.duplicate());
                proof {
                    assert(key_views(keys@) =~= key_views(before).push(self.sources@[i as int].key@));
                    assert(self.sources@.take(i + 1).filter(pred) =~= self.sources@.take(i as int).filter(pred).push(self.sources@[i as int]));
                }
            } else {
                proof {
                    assert(self.sources@.take(i + 1).filter(pred) =~= self.sources@.take(i as int).filter(pred));
                }
            }
            i = i + 1;
            proof {
                assert(key_views(keys@) =~= keys_of(self.sources@.take(i as int).filter(pred)));
            }
        }
        proof {
            assert(self.sources@.take(i as int) =~= self.sources@);
        }
        keys
    }

    /// Every key currently in the catalogue, selected or not, in order.
    pub fn present_keys(&self) -> (keys: Vec<SourceKey>)
        ensures
            key_views(keys@) == keys_of(self@),
    {
        let mut keys: Vec<SourceKey> = Vec::new();
        let mut i: usize = 0;
        while i < self.sources.len()
            invariant
                i <= self.sources@.len(),
                key_views(keys@) == keys_of(self.sources@.take(i as int)),
            decreases self.sources@.len() - i,
        {
            let ghost before = keys@;
            keys.push(self.sources[i].key.duplicate());
            proof {
                assert(key_views(keys@) =~= key_views(before).push(self.sources@[i as int].key@));
                assert(self.sources@.take(i + 1) =~= self.sources@.take(i as int).push(self.sources@[i as int]));
            }
            i = i + 1;
            proof {
                assert(key_views(keys@) =~= keys_of(self.sources@.take(i as int)));
            }
        }
        proof {
            assert(self.sources@.take(i as int) =~= self.sources@);
        }
        keys
    }
}

/// The keys of a list of sources, as values.
pub open spec fn keys_of(sources: Seq<Source>) -> Seq<SourceKeyModel> {
    sources.map_values(|s: Source| s.key@)
}

/// A list of keys, as values.
pub open spec fn key_views(keys: Seq<SourceKey>) -> Seq<SourceKeyModel> {
    keys.map_values(|k: SourceKey| k@)
}

/// Whether a list of keys holds one equal to `key`.
pub open spec fn keys_contain(keys: Seq<SourceKey>, key: SourceKeyModel) -> bool {
    exists|i: int| 0 <= i < keys.len() && #[trigger] keys[i]@ == key
}

/// Whether a list of keys holds one equal to `key`.
pub fn contains_key(keys: &[SourceKey], key: &SourceKey) -> (b: bool)
    ensures
        b == keys_contain(keys@, key@),
{
    let mut i: usize = 0;
    while i < keys.len()
        invariant
            i <= keys@.len(),
            forall|j: int| 0 <= j < i ==> #[trigger] keys@[j]@ != key@,
        decreases keys@.len() - i,
    {
        if keys[i] == *key {
            return true;
        }
        i = i + 1;
    }
    false
}

/// A snapshot of one group and its members, shaped for display.
#[derive(Debug, Clone, PartialEq, Eq)]
pub struct SourceGroupView {
    /// The group, or `None` for standalone rows.
    pub group: Option<SourceGroupId>,
    /// The ids of the sources in this group, in display order.
    pub source_ids: Vec<SourceId>,
}

} // verus!
