//! What the user is currently looking at, as opposed to what is being monitored.
//!
//! Source selection decides what enters the retained log; the settings here
//! decide what is shown from it, so a filter change re-reveals retained events.

use crate::error::CoreError;
use crate::event::MidiEvent;
use crate::ids::{ChannelNumber, HexPrefix};
use crate::message::{kind_category, MessageCategory, MessageKind};
use crate::source::{check_state_of, CheckState};
use crate::text::{chars_of, compact_hex, starts_with, to_string};
use vstd::prelude::*;

verus! {

/// Whether the channel radio pair is on All Channels or a single one.
#[derive(Debug, Clone, Copy, PartialEq, Eq, Structural)]
pub enum ChannelMode {
    /// Every channel passes, and channel-less messages pass too.
    AllChannels,
    /// Only this channel passes; channel-less messages are excluded entirely.
    OneChannel(ChannelNumber),
}

impl Default for ChannelMode {
    /// `All Channels` is what a new window starts with.
    fn default() -> (m: Self)
        ensures
            m == ChannelMode::AllChannels,
    {
        ChannelMode::AllChannels
    }
}

/// Whether hex prefix matches are the only events shown, or the only ones hidden.
#[derive(Debug, Clone, Copy, PartialEq, Eq, Structural)]
pub enum PrefixMode {
    /// Show only matching events.
    Include,
    /// Hide only matching events.
    Exclude,
}

impl Default for PrefixMode {
    /// The user types what they want to see.
    fn default() -> (m: Self)
        ensures
            m == PrefixMode::Include,
    {
        PrefixMode::Include
    }
}

/// One prefix and what it does to the events that match it.
#[derive(Debug, Clone, PartialEq, Eq)]
pub struct DataPrefixRule {
    /// The normalised nibble prefix this rule tests.
    pub prefix: HexPrefix,
    /// Whether matching events are the only ones shown, or the only ones hidden.
    pub kind: PrefixMode,
}

/// Whether a rule's prefix begins an event's raw hex.
pub open spec fn rule_matches(rule: DataPrefixRule, hex: Seq<char>) -> bool {
    rule.prefix@.is_prefix_of(hex)
}

/// Whether two prefixes can ever match the same bytes: one begins the other.
pub open spec fn overlap(a: Seq<char>, b: Seq<char>) -> bool {
    a.is_prefix_of(b) || b.is_prefix_of(a)
}

/// Whether two rules cannot stand in one list: the same prefix under either
/// kind, or overlapping prefixes of opposite kinds.
pub open spec fn clash(a: DataPrefixRule, b: DataPrefixRule) -> bool {
    a.prefix@ == b.prefix@ || (a.kind != b.kind && overlap(a.prefix@, b.prefix@))
}

/// No two rules in the list clash.
pub open spec fn rules_consistent(rules: Seq<DataPrefixRule>) -> bool {
    forall|i: int, j: int| 0 <= i < j < rules.len() ==> !clash(#[trigger] rules[i], #[trigger] rules[j])
}

/// Whether the list already carries this rule's prefix.
pub open spec fn duplicate_at(rules: Seq<DataPrefixRule>, rule: DataPrefixRule, i: int) -> bool {
    0 <= i < rules.len() && rules[i].prefix@ == rule.prefix@ && forall|j: int|
        0 <= j < i ==> #[trigger] rules[j].prefix@ != rule.prefix@
}

/// Whether the list carries no rule with this rule's prefix.
pub open spec fn no_duplicate(rules: Seq<DataPrefixRule>, rule: DataPrefixRule) -> bool {
    forall|j: int| 0 <= j < rules.len() ==> #[trigger] rules[j].prefix@ != rule.prefix@
}

/// Whether a listed rule of the opposite kind overlaps this rule's prefix.
pub open spec fn contradicts(listed: DataPrefixRule, rule: DataPrefixRule) -> bool {
    listed.kind != rule.kind && overlap(listed.prefix@, rule.prefix@)
}

/// Whether `i` is the first listed rule this rule contradicts.
pub open spec fn contradiction_at(rules: Seq<DataPrefixRule>, rule: DataPrefixRule, i: int) -> bool {
    0 <= i < rules.len() && contradicts(rules[i], rule) && forall|j: int|
        0 <= j < i ==> !contradicts(#[trigger] rules[j], rule)
}

/// Whether no listed rule contradicts this rule.
pub open spec fn no_contradiction(rules: Seq<DataPrefixRule>, rule: DataPrefixRule) -> bool {
    forall|j: int| 0 <= j < rules.len() ==> !contradicts(#[trigger] rules[j], rule)
}

/// Whether an event with this raw hex survives the rules: it matches no
/// `Exclude` rule, and, if any `Include` rule exists, it matches one of them.
/// With no rules at all, everything passes.
pub open spec fn prefix_rules_admit(rules: Seq<DataPrefixRule>, hex: Seq<char>) -> bool {
    &&& !exists|i: int|
        0 <= i < rules.len() && rules[i].kind == PrefixMode::Exclude && rule_matches(
            #[trigger] rules[i],
            hex,
        )
    &&& (!exists|i: int| 0 <= i < rules.len() && (#[trigger] rules[i]).kind == PrefixMode::Include)
        || exists|i: int|
        0 <= i < rules.len() && rules[i].kind == PrefixMode::Include && rule_matches(
            #[trigger] rules[i],
            hex,
        )
}

impl DataPrefixRule {
    /// Builds a rule from an already-parsed prefix.
    pub fn new(prefix: HexPrefix, kind: PrefixMode) -> (r: Self)
        ensures
            r == (DataPrefixRule { prefix, kind }),
    {
        Self { prefix, kind }
    }

    /// Whether this rule's prefix begins an event's raw hex. Matching is on
    /// nibbles, so an odd-length prefix like `9` matches `90` through `9F`.
    pub fn matches(&self, raw_hex: &str) -> (b: bool)
        ensures
            b == rule_matches(*self, raw_hex@),
    {
        let hex = chars_of(raw_hex);
        self.matches_chars(&hex)
    }

    fn matches_chars(&self, hex: &Vec<char>) -> (b: bool)
        ensures
            b == rule_matches(*self, hex@),
    {
        let prefix = chars_of(self.prefix.as_str());
        starts_with(hex.as_slice(), prefix.as_slice())
    }

    /// Whether these two rules' prefixes can ever match the same bytes.
    fn overlaps(&self, other: &Self) -> (b: bool)
        ensures
            b == overlap(self.prefix@, other.prefix@),
    {
        let this = chars_of(self.prefix.as_str());
        let that = chars_of(other.prefix.as_str());
        starts_with(this.as_slice(), that.as_slice()) || starts_with(that.as_slice(), this.as_slice())
    }

    /// A copy of this rule.
    pub fn duplicate(&self) -> (r: Self)
        ensures
            r.prefix@ == self.prefix@,
            r.kind == self.kind,
    {
        DataPrefixRule { prefix: self.prefix.duplicate(), kind: self.kind }
    }
}

/// The prefixes of a list of rules, as values.
pub open spec fn prefixes_of(rules: Seq<DataPrefixRule>) -> Seq<Seq<char>> {
    rules.map_values(|r: DataPrefixRule| r.prefix@)
}

/// Each prefix kept at its first occurrence only.
pub open spec fn first_occurrences(prefixes: Seq<Seq<char>>) -> Seq<Seq<char>>
    decreases prefixes.len(),
{
    if prefixes.len() == 0 {
        Seq::empty()
    } else {
        let kept = first_occurrences(prefixes.drop_last());
        if kept.contains(prefixes.last()) {
            kept
        } else {
            kept.push(prefixes.last())
        }
    }
}

/// The data prefix rules currently in force, in the order they were added.
///
/// No two rules share a prefix, and no two rules of different kinds overlap
/// (`rules_consistent`): [`Self::add`] is the way in, and it refuses anything
/// that would break that.
#[derive(Debug, Clone, Default, PartialEq, Eq)]
pub struct DataPrefixFilter {
    /// The rules in force, in the order they were added.
    pub rules: Vec<DataPrefixRule>,
}

impl DataPrefixFilter {
    /// Adds a rule, or refuses it because it clashes with one already listed.
    ///
    /// The same prefix under either kind is a duplicate; an overlapping prefix of
    /// the opposite kind is a contradiction; an overlapping prefix of the same
    /// kind is permitted. Nothing changes on refusal.
    pub fn add(&mut self, rule: DataPrefixRule) -> (r: Result<(), CoreError>)
        ensures
            match r {
                Ok(()) => no_duplicate(old(self).rules@, rule) && no_contradiction(
                    old(self).rules@,
                    rule,
                ) && final(self).rules@ == old(self).rules@.push(rule),
                Err(CoreError::DuplicatePrefixRule { prefix, existing_kind }) => exists|i: int|
                    duplicate_at(old(self).rules@, rule, i) && existing_kind == old(self).rules@[i].kind
                        && prefix@ == rule.prefix@ && final(self).rules@ == old(self).rules@,
                Err(
                    CoreError::ContradictoryPrefixRule { prefix, kind, existing_prefix, existing_kind },
                ) => no_duplicate(old(self).rules@, rule) && exists|i: int|
                    contradiction_at(old(self).rules@, rule, i) && existing_kind == old(
                        self,
                    ).rules@[i].kind && existing_prefix@ == old(self).rules@[i].prefix@
                        && prefix@ == rule.prefix@ && kind == rule.kind && final(self).rules@
                        == old(self).rules@,
                Err(_) => false,
            },
    {
        let mut i: usize = 0;
        while i < self.rules.len()
            invariant
                i <= self.rules@.len(),
                forall|j: int| 0 <= j < i ==> #[trigger] self.rules@[j].prefix@ != rule.prefix@,
            decreases self.rules@.len() - i,
        {
            if self.rules[i].prefix == rule.prefix {
                proof {
                    assert(duplicate_at(self.rules@, rule, i as int));
                }
                return Err(
                    CoreError::DuplicatePrefixRule {
                        prefix: to_string(rule.prefix.as_str()),
                        existing_kind: self.rules[i].kind,
                    },
                );
            }
            i = i + 1;
        }
        let mut j: usize = 0;
        while j < self.rules.len()
            invariant
                j <= self.rules@.len(),
                no_duplicate(self.rules@, rule),
                forall|k: int| 0 <= k < j ==> !contradicts(#[trigger] self.rules@[k], rule),
            decreases self.rules@.len() - j,
        {
            if self.rules[j].kind != rule.kind && self.rules[j].overlaps(&rule) {
                proof {
                    assert(contradiction_at(self.rules@, rule, j as int));
                }
                return Err(
                    CoreError::ContradictoryPrefixRule {
                        prefix: to_string(rule.prefix.as_str()),
                        kind: rule.kind,
                        existing_prefix: to_string(self.rules[j].prefix.as_str()),
                        existing_kind: self.rules[j].kind,
                    },
                );
            }
            j = j + 1;
        }
        self.rules.push(rule);
        Ok(())
    }

    /// Removes the rule carrying this prefix.
    pub fn remove(&mut self, prefix: &HexPrefix) -> (r: Result<(), CoreError>)
        ensures
            final(self).rules@ == old(self).rules@.filter(|rule: DataPrefixRule| rule.prefix@ != prefix@),
            match r {
                Ok(()) => exists|i: int| 0 <= i < old(self).rules@.len() && #[trigger] old(self).rules@[i].prefix@ == prefix@,
                Err(e) => (forall|i: int| 0 <= i < old(self).rules@.len() ==> #[trigger] old(self).rules@[i].prefix@ != prefix@)
                    && (e matches CoreError::UnknownPrefixRule { prefix: p } && p@ == prefix@),
            },
    {
        let mut kept: Vec<DataPrefixRule> = Vec::new();
        let mut found = false;
        let mut rest: Vec<DataPrefixRule> = Vec::new();
        std::mem::swap(&mut rest, &mut self.rules);
        let ghost initial = rest@;
        let total = rest.len();
        let mut reversed: Vec<DataPrefixRule> = Vec::new();
        while rest.len() > 0
            invariant
                reversed@.len() + rest@.len() == initial.len(),
                forall|k: int| 0 <= k < rest@.len() ==> rest@[k] == initial[k],
                forall|k: int| 0 <= k < reversed@.len() ==> #[trigger] reversed@[k] == initial[initial.len() - 1 - k],
            decreases rest@.len(),
        {
            let rule = rest.pop().unwrap();
            reversed.push(rule);
        }
        let mut taken: usize = 0;
        while reversed.len() > 0
            invariant
                taken + reversed@.len() == initial.len(),
                initial.len() == total,
                forall|k: int| 0 <= k < reversed@.len() ==> #[trigger] reversed@[k] == initial[initial.len() - 1 - k],
                kept@ == initial.take(taken as int).filter(|rule: DataPrefixRule| rule.prefix@ != prefix@),
                found == exists|i: int| 0 <= i < taken && #[trigger] initial[i].prefix@ == prefix@,
            decreases reversed@.len(),
        {
            let rule = reversed.pop().unwrap();
            proof {
                reveal_with_fuel(Seq::filter, 1);
                assert(rule == initial[taken as int]);
                assert(initial.take(taken + 1).drop_last() =~= initial.take(taken as int));
            }
            let ghost before = kept@;
            let same = rule.prefix == *prefix;
            proof {
                assert(same == (rule.prefix@ == prefix@));
            }
            if same {
                found = true;
                proof {
                    reveal_with_fuel(Seq::filter, 1);
                    assert(initial.take(taken + 1).drop_last() =~= initial.take(taken as int));
                    assert(rule.prefix@ == prefix@);
                    assert(initial.take(taken + 1).filter(|rule: DataPrefixRule| rule.prefix@ != prefix@) =~= before);
                }
            } else {
                kept.push(rule);
                proof {
                    reveal_with_fuel(Seq::filter, 1);
                    assert(initial.take(taken + 1).drop_last() =~= initial.take(taken as int));
                    assert(rule.prefix@ != prefix@);
                    assert(initial.take(taken + 1).filter(|rule: DataPrefixRule| rule.prefix@ != prefix@) =~= before.push(rule));
                }
            }
            taken = taken + 1;
        }
        proof {
            assert(initial.take(taken as int) =~= initial);
        }
        self.rules = kept;
        if !found {
            return Err(CoreError::UnknownPrefixRule { prefix: to_string(prefix.as_str()) });
        }
        Ok(())
    }

    /// Whether this event survives the rules. See [`prefix_rules_admit`].
    pub fn admits(&self, event: &MidiEvent) -> (b: bool)
        ensures
            b == prefix_rules_admit(self.rules@, compact_hex(event.raw@)),
    {
        if self.rules.len() == 0 {
            return true;
        }
        let hex_string = event.raw_hex();
        let hex = chars_of(hex_string.as_str());
        let ghost h = compact_hex(event.raw@);
        let mut i: usize = 0;
        while i < self.rules.len()
            invariant
                i <= self.rules@.len(),
                hex@ == h,
                h == compact_hex(event.raw@),
                forall|k: int|
                    0 <= k < i ==> !(self.rules@[k].kind == PrefixMode::Exclude && rule_matches(
                        #[trigger] self.rules@[k],
                        h,
                    )),
            decreases self.rules@.len() - i,
        {
            if self.rules[i].kind == PrefixMode::Exclude && self.rules[i].matches_chars(&hex) {
                proof {
                    lemma_excluded(self.rules@, h, i as int);
                }
                return false;
            }
            i = i + 1;
        }
        let mut any_include = false;
        let mut j: usize = 0;
        while j < self.rules.len()
            invariant
                j <= self.rules@.len(),
                hex@ == h,
                h == compact_hex(event.raw@),
                forall|k: int|
                    0 <= k < self.rules@.len() ==> !(self.rules@[k].kind == PrefixMode::Exclude && rule_matches(
                        #[trigger] self.rules@[k],
                        h,
                    )),
                any_include == exists|k: int| 0 <= k < j && (#[trigger] self.rules@[k]).kind == PrefixMode::Include,
                forall|k: int|
                    0 <= k < j ==> !(self.rules@[k].kind == PrefixMode::Include && rule_matches(
                        #[trigger] self.rules@[k],
                        h,
                    )),
            decreases self.rules@.len() - j,
        {
            if self.rules[j].kind == PrefixMode::Include {
                any_include = true;
                if self.rules[j].matches_chars(&hex) {
                    proof {
                        lemma_included(self.rules@, h, j as int);
                    }
                    return true;
                }
            }
            j = j + 1;
        }
        !any_include
    }

    /// Builds a rule list from the older stored shape: one mode over a list of
    /// prefixes. A repeated prefix is kept at its first occurrence only, so each
    /// prefix still identifies one rule.
    pub fn from_legacy(mode: PrefixMode, prefixes: Vec<HexPrefix>) -> (f: Self)
        ensures
            prefixes_of(f.rules@) == first_occurrences(prefixes@.map_values(|p: HexPrefix| p@)),
            forall|i: int| 0 <= i < f.rules@.len() ==> (#[trigger] f.rules@[i]).kind == mode,
            rules_consistent(f.rules@),
    {
        let ghost views = prefixes@.map_values(|p: HexPrefix| p@);
        let mut rules: Vec<DataPrefixRule> = Vec::new();
        let mut i: usize = 0;
        while i < prefixes.len()
            invariant
                i <= prefixes@.len(),
                views == prefixes@.map_values(|p: HexPrefix| p@),
                prefixes_of(rules@) == first_occurrences(views.take(i as int)),
                forall|k: int| 0 <= k < rules@.len() ==> (#[trigger] rules@[k]).kind == mode,
                forall|a: int, b: int| 0 <= a < b < rules@.len() ==> (#[trigger] rules@[a]).prefix@ != (#[trigger] rules@[b]).prefix@,
            decreases prefixes@.len() - i,
        {
            let mut seen = false;
            let mut k: usize = 0;
            while k < rules.len()
                invariant
                    k <= rules@.len(),
                    i < prefixes@.len(),
                    seen == exists|m: int| 0 <= m < k && (#[trigger] rules@[m]).prefix@ == prefixes@[i as int]@,
                decreases rules@.len() - k,
            {
                if rules[k].prefix == prefixes[i] {
                    seen = true;
                }
                k = k + 1;
            }
            proof {
                assert(views.take(i + 1).drop_last() =~= views.take(i as int));
                assert(views.take(i + 1).last() == prefixes@[i as int]@);
                let kept = first_occurrences(views.take(i as int));
                assert(kept == prefixes_of(rules@));
                if seen {
                    let m = choose|m: int| 0 <= m < rules@.len() && (#[trigger] rules@[m]).prefix@ == prefixes@[i as int]@;
                    assert(kept[m] == prefixes@[i as int]@);
                } else {
                    assert forall|m: int| 0 <= m < kept.len() implies kept[m] != prefixes@[i as int]@ by {
                        assert(kept[m] == rules@[m].prefix@);
                    }
                }
            }
            if !seen {
                let ghost before = rules@;
                rules.push(DataPrefixRule::new(prefixes[i].duplicate(), mode));
                proof {
                    assert(prefixes_of(rules@) =~= prefixes_of(before).push(prefixes@[i as int]@));
                }
            }
            i = i + 1;
        }
        proof {
            assert(views.take(i as int) =~= views);
        }
        DataPrefixFilter { rules }
    }
}

/// Every message kind, in the order the Filter panel lists them.
pub open spec fn all_kinds() -> Seq<MessageKind> {
    seq![
        MessageKind::NoteOnOff,
        MessageKind::AftertouchPoly,
        MessageKind::Control,
        MessageKind::Program,
        MessageKind::ChannelPressure,
        MessageKind::PitchWheel,
        MessageKind::TimeCode,
        MessageKind::SongPositionPointer,
        MessageKind::SongSelect,
        MessageKind::TuneRequest,
        MessageKind::Clock,
        MessageKind::StartStopContinue,
        MessageKind::ActiveSense,
        MessageKind::Reset,
        MessageKind::SystemExclusive,
        MessageKind::Invalid,
    ]
}

/// Every message kind, in the order the Filter panel lists them.
pub fn all_message_kinds() -> (v: Vec<MessageKind>)
    ensures
        v@ == all_kinds(),
{
    let v = vec![
        MessageKind::NoteOnOff,
        MessageKind::AftertouchPoly,
        MessageKind::Control,
        MessageKind::Program,
        MessageKind::ChannelPressure,
        MessageKind::PitchWheel,
        MessageKind::TimeCode,
        MessageKind::SongPositionPointer,
        MessageKind::SongSelect,
        MessageKind::TuneRequest,
        MessageKind::Clock,
        MessageKind::StartStopContinue,
        MessageKind::ActiveSense,
        MessageKind::Reset,
        MessageKind::SystemExclusive,
        MessageKind::Invalid,
    ];
    assert(v@ =~= all_kinds());
    v
}

/// Whether the channel rule admits a message carrying this channel. Under One
/// Channel, channel-less messages are excluded.
pub open spec fn channel_admits(mode: ChannelMode, channel: Option<u8>) -> bool {
    match mode {
        ChannelMode::AllChannels => true,
        ChannelMode::OneChannel(wanted) => channel == Some(wanted@),
    }
}

/// Whether a filter shows an event: its kind is ticked, the channel rule is
/// satisfied, and the prefix rules admit its raw bytes.
pub open spec fn filter_admits(filter: FilterSettings, event: MidiEvent) -> bool {
    &&& filter.kinds@.contains(event.message@.kind())
    &&& channel_admits(filter.channel_mode, event.message@.channel())
    &&& prefix_rules_admit(filter.data_filter.rules@, compact_hex(event.raw@))
}

/// Everything the Filter panel currently admits.
#[derive(Debug, Clone, PartialEq, Eq)]
pub struct FilterSettings {
    /// The message kinds whose checkboxes are ticked.
    pub kinds: Vec<MessageKind>,
    /// The channel radio pair's state.
    pub channel_mode: ChannelMode,
    /// The hexadecimal prefix filter.
    pub data_filter: DataPrefixFilter,
}

impl Default for FilterSettings {
    /// Every checkbox ticked and `All Channels` selected.
    fn default() -> (f: Self)
        ensures
            f.kinds@ == all_kinds(),
            f.channel_mode == ChannelMode::AllChannels,
            f.data_filter.rules@.len() == 0,
    {
        Self {
            kinds: all_message_kinds(),
            channel_mode: ChannelMode::AllChannels,
            data_filter: DataPrefixFilter { rules: Vec::new() },
        }
    }
}

/// Whether a list of kinds holds this one.
pub fn contains_kind(kinds: &[MessageKind], kind: MessageKind) -> (b: bool)
    ensures
        b == kinds@.contains(kind),
{
    let mut i: usize = 0;
    while i < kinds.len()
        invariant
            i <= kinds@.len(),
            forall|k: int| 0 <= k < i ==> kinds@[k] != kind,
        decreases kinds@.len() - i,
    {
        if kinds[i] == kind {
            proof {
                assert(kinds@[i as int] == kind);
            }
            return true;
        }
        i = i + 1;
    }
    false
}

/// The tick states of one Filter column's checkboxes, in order.
pub open spec fn category_ticks(kinds: Seq<MessageKind>, category: MessageCategory) -> Seq<bool> {
    all_kinds().filter(|k: MessageKind| kind_category(k) == Some(category)).map_values(
        |k: MessageKind| kinds.contains(k),
    )
}

impl FilterSettings {
    /// Whether this event should be shown.
    pub fn admits(&self, event: &MidiEvent) -> (b: bool)
        ensures
            b == filter_admits(*self, *event),
    {
        contains_kind(self.kinds.as_slice(), event.message.kind()) && self.admits_channel(event)
            && self.data_filter.admits(event)
    }

    /// Whether the channel rule admits this event.
    fn admits_channel(&self, event: &MidiEvent) -> (b: bool)
        ensures
            b == channel_admits(self.channel_mode, event.message@.channel()),
    {
        match self.channel_mode {
            ChannelMode::AllChannels => true,
            ChannelMode::OneChannel(wanted) => match event.channel() {
                Some(c) => c.get() == wanted.get(),
                None => false,
            },
        }
    }

    /// Whether every kind in a category is ticked, none are, or some are.
    pub fn category_state(&self, category: MessageCategory) -> (state: CheckState)
        ensures
            state == check_state_of(category_ticks(self.kinds@, category)),
    {
        let all = all_message_kinds();
        let mut children: Vec<bool> = Vec::new();
        let mut i: usize = 0;
        while i < all.len()
            invariant
                i <= all@.len(),
                all@ == all_kinds(),
                children@ == all@.take(i as int).filter(|k: MessageKind| kind_category(k) == Some(category)).map_values(|k: MessageKind| self.kinds@.contains(k)),
            decreases all@.len() - i,
        {
            proof {
                reveal_with_fuel(Seq::filter, 1);
                assert(all@.take(i + 1).drop_last() =~= all@.take(i as int));
            }
            let kind = all[i];
            let in_category = match kind.category() {
                Some(c) => c == category,
                None => false,
            };
            if in_category {
                children.push(contains_kind(self.kinds.as_slice(), kind));
            }
            i = i + 1;
            proof {
                assert(children@ =~= all@.take(i as int).filter(|k: MessageKind| kind_category(k) == Some(category)).map_values(|k: MessageKind| self.kinds@.contains(k)));
            }
        }
        proof {
            assert(all@.take(i as int) =~= all@);
        }
        CheckState::from_children(children.as_slice())
    }

    /// A copy of these settings.
    pub fn duplicate(&self) -> (f: Self)
        ensures
            f.kinds@ == self.kinds@,
            f.channel_mode == self.channel_mode,
            f.data_filter.rules@.len() == self.data_filter.rules@.len(),
            forall|i: int| 0 <= i < self.data_filter.rules@.len() ==> (#[trigger] f.data_filter.rules@[i]).prefix@
                == self.data_filter.rules@[i].prefix@ && f.data_filter.rules@[i].kind == self.data_filter.rules@[i].kind,
    {
        let mut kinds: Vec<MessageKind> = Vec::new();
        let mut i: usize = 0;
        while i < self.kinds.len()
            invariant
                i <= self.kinds@.len(),
                kinds@ == self.kinds@.take(i as int),
            decreases self.kinds@.len() - i,
        {
            kinds.push(self.kinds[i]);
            i = i + 1;
            assert(kinds@ =~= self.kinds@.take(i as int));
        }
        assert(self.kinds@.take(i as int) =~= self.kinds@);
        let mut rules: Vec<DataPrefixRule> = Vec::new();
        let mut j: usize = 0;
        while j < self.data_filter.rules.len()
            invariant
                j <= self.data_filter.rules@.len(),
                rules@.len() == j,
                forall|k: int| 0 <= k < j ==> (#[trigger] rules@[k]).prefix@ == self.data_filter.rules@[k].prefix@
                    && rules@[k].kind == self.data_filter.rules@[k].kind,
            decreases self.data_filter.rules@.len() - j,
        {
            rules.push(self.data_filter.rules[j].duplicate());
            j = j + 1;
        }
        FilterSettings { kinds, channel_mode: self.channel_mode, data_filter: DataPrefixFilter { rules } }
    }
}

proof fn lemma_excluded(rules: Seq<DataPrefixRule>, hex: Seq<char>, i: int)
    requires
        0 <= i < rules.len(),
        rules[i].kind == PrefixMode::Exclude,
        rule_matches(rules[i], hex),
    ensures
        !prefix_rules_admit(rules, hex),
{
}

proof fn lemma_included(rules: Seq<DataPrefixRule>, hex: Seq<char>, i: int)
    requires
        0 <= i < rules.len(),
        rules[i].kind == PrefixMode::Include,
        rule_matches(rules[i], hex),
        forall|k: int|
            0 <= k < rules.len() ==> !(rules[k].kind == PrefixMode::Exclude && rule_matches(
                #[trigger] rules[k],
                hex,
            )),
    ensures
        prefix_rules_admit(rules, hex),
{
}

/// Adding a rule that is accepted keeps the list free of clashes.
pub proof fn lemma_add_keeps_rules_consistent(rules: Seq<DataPrefixRule>, rule: DataPrefixRule)
    requires
        rules_consistent(rules),
        no_duplicate(rules, rule),
        no_contradiction(rules, rule),
    ensures
        rules_consistent(rules.push(rule)),
{
    let next = rules.push(rule);
    assert forall|i: int, j: int| 0 <= i < j < next.len() implies !clash(#[trigger] next[i], #[trigger] next[j]) by {
        if j == rules.len() {
            assert(next[j] == rule);
            assert(next[i] == rules[i]);
            assert(rules[i].prefix@ != rule.prefix@);
            assert(!contradicts(rules[i], rule));
        } else {
            assert(next[i] == rules[i] && next[j] == rules[j]);
        }
    }
}

/// Whether two rules clash does not depend on which of them was listed first:
/// adding one to a list holding the other is refused exactly when the reverse
/// would be.
pub proof fn lemma_clash_symmetric(a: DataPrefixRule, b: DataPrefixRule)
    ensures
        clash(a, b) == clash(b, a),
        (no_duplicate(seq![a], b) && no_contradiction(seq![a], b)) == (no_duplicate(seq![b], a)
            && no_contradiction(seq![b], a)),
{
    if no_duplicate(seq![a], b) && no_contradiction(seq![a], b) {
        assert(seq![a][0] == a);
    }
    if no_duplicate(seq![b], a) && no_contradiction(seq![b], a) {
        assert(seq![b][0] == b);
    }
}

proof fn lemma_two_prefixes(a: Seq<char>, b: Seq<char>, h: Seq<char>)
    requires
        a.is_prefix_of(h),
        b.is_prefix_of(h),
    ensures
        overlap(a, b),
{
    if a.len() <= b.len() {
        assert(a =~= b.subrange(0, a.len() as int));
    } else {
        assert(b =~= a.subrange(0, b.len() as int));
    }
}

/// In a consistent list no event can match both a show-only rule and a hide
/// rule, so the prefix filter needs no precedence between the two kinds.
pub proof fn lemma_no_event_matches_both_kinds(rules: Seq<DataPrefixRule>, hex: Seq<char>)
    requires
        rules_consistent(rules),
    ensures
        !(exists|i: int, j: int|
            0 <= i < rules.len() && 0 <= j < rules.len() && rules[i].kind == PrefixMode::Include
                && rules[j].kind == PrefixMode::Exclude && rule_matches(#[trigger] rules[i], hex)
                && rule_matches(#[trigger] rules[j], hex)),
{
    if exists|i: int, j: int|
        0 <= i < rules.len() && 0 <= j < rules.len() && rules[i].kind == PrefixMode::Include
            && rules[j].kind == PrefixMode::Exclude && rule_matches(#[trigger] rules[i], hex)
            && rule_matches(#[trigger] rules[j], hex) {
        let (i, j) = choose|i: int, j: int|
            0 <= i < rules.len() && 0 <= j < rules.len() && rules[i].kind == PrefixMode::Include
                && rules[j].kind == PrefixMode::Exclude && rule_matches(#[trigger] rules[i], hex)
                && rule_matches(#[trigger] rules[j], hex);
        lemma_two_prefixes(rules[i].prefix@, rules[j].prefix@, hex);
        if i < j {
            assert(!clash(rules[i], rules[j]));
        } else {
            assert(!clash(rules[j], rules[i]));
        }
    }
}

} // verus!
