//! Reading what a command from the interface names: a source group, a set of
//! message-kind checkboxes, a set of columns, and the channel radio pair.
//!
//! Identifiers the interface does not know are simply not named; a group id
//! that names no group is refused, because a group command has nothing else to
//! act on.

use crate::column::{all_columns, column_id, Column};
use crate::dto::{group_wire_id, wire_group_id, ChannelModeDto};
use crate::error::CoreError;
use crate::filter::{all_kinds, all_message_kinds, ChannelMode};
use crate::ids::{ChannelNumber, SourceGroupId};
use crate::ipc_error::IpcError;
use crate::message::{kind_id, MessageKind};
use crate::text::{contains_text, same_text, texts, to_string};
use vstd::prelude::*;

verus! {

/// The kinds of `kinds`, in order, whose identifier is one of `ids`.
pub open spec fn kinds_named(kinds: Seq<MessageKind>, ids: Seq<Seq<char>>) -> Seq<MessageKind>
    decreases kinds.len(),
{
    if kinds.len() == 0 {
        Seq::empty()
    } else {
        let rest = kinds_named(kinds.drop_last(), ids);
        if ids.contains(kind_id(kinds.last())) {
            rest.push(kinds.last())
        } else {
            rest
        }
    }
}

/// The columns of `columns`, in order, whose identifier is one of `ids`.
pub open spec fn columns_named(columns: Seq<Column>, ids: Seq<Seq<char>>) -> Seq<Column>
    decreases columns.len(),
{
    if columns.len() == 0 {
        Seq::empty()
    } else {
        let rest = columns_named(columns.drop_last(), ids);
        if ids.contains(column_id(columns.last())) {
            rest.push(columns.last())
        } else {
            rest
        }
    }
}

/// No two groups share a wire identifier.
pub proof fn lemma_group_ids_distinct(a: SourceGroupId, b: SourceGroupId)
    ensures
        group_wire_id(a) == group_wire_id(b) ==> a == b,
{
    reveal_strlit("midiSources");
    reveal_strlit("spyOnOutput");
    if a != b {
        assert(group_wire_id(a)[0] != group_wire_id(b)[0]);
    }
}

/// The group a wire identifier names, or `UnknownGroup` carrying the
/// identifier when it names none. Reading back a group's own identifier gives
/// that group.
pub fn parse_group(id: &str) -> (r: Result<SourceGroupId, IpcError>)
    ensures
        match r {
            Ok(group) => group_wire_id(group) == id@,
            Err(e) => (forall|g: SourceGroupId| group_wire_id(g) != id@) && (e matches IpcError::UnknownGroup {
                id: x,
            } && x@ == id@),
        },
        forall|g: SourceGroupId| group_wire_id(g) == id@ ==> r == Ok::<SourceGroupId, IpcError>(g),
{
    proof {
        lemma_group_ids_distinct(SourceGroupId::MidiSources, SourceGroupId::SpyOnOutput);
    }
    if same_text(wire_group_id(SourceGroupId::MidiSources), id) {
        Ok(SourceGroupId::MidiSources)
    } else if same_text(wire_group_id(SourceGroupId::SpyOnOutput), id) {
        Ok(SourceGroupId::SpyOnOutput)
    } else {
        proof {
            assert forall|g: SourceGroupId| group_wire_id(g) != id@ by {
                match g {
                    SourceGroupId::MidiSources => {},
                    SourceGroupId::SpyOnOutput => {},
                }
            }
        }
        Err(IpcError::UnknownGroup { id: to_string(id) })
    }
}

/// The message kinds whose checkbox identifiers are among `ids`, in the
/// Filter panel's order.
pub fn kinds_from_ids(ids: &[String]) -> (kinds: Vec<MessageKind>)
    ensures
        kinds@ == kinds_named(all_kinds(), texts(ids@)),
{
    let all = all_message_kinds();
    let mut kinds: Vec<MessageKind> = Vec::new();
    let mut i: usize = 0;
    while i < all.len()
        invariant
            i <= all@.len(),
            all@ == all_kinds(),
            kinds@ == kinds_named(all@.take(i as int), texts(ids@)),
        decreases all@.len() - i,
    {
        proof {
            assert(all@.take(i + 1).drop_last() =~= all@.take(i as int));
            assert(all@.take(i + 1).last() == all@[i as int]);
        }
        if contains_text(ids, all[i].id()) {
            kinds.push(all[i]);
        }
        i = i + 1;
    }
    proof {
        assert(all@.take(i as int) =~= all@);
    }
    kinds
}

/// The columns whose identifiers are among `ids`, in display order.
pub fn columns_from_ids(ids: &[String]) -> (columns: Vec<Column>)
    ensures
        columns@ == columns_named(all_columns(), texts(ids@)),
{
    let all = Column::ALL;
    proof {
        assert(all@ =~= all_columns());
    }
    let mut columns: Vec<Column> = Vec::new();
    let mut i: usize = 0;
    while i < 5
        invariant
            i <= 5,
            all@ == all_columns(),
            columns@ == columns_named(all@.take(i as int), texts(ids@)),
        decreases 5 - i,
    {
        proof {
            assert(all@.take(i + 1).drop_last() =~= all@.take(i as int));
            assert(all@.take(i + 1).last() == all@[i as int]);
        }
        if contains_text(ids, all[i].id()) {
            columns.push(all[i]);
        }
        i = i + 1;
    }
    proof {
        assert(all@.take(5) =~= all@);
    }
    columns
}

/// The channel radio pair as the core holds it: a channel outside 1-16 is
/// refused with `ChannelOutOfRange`.
pub fn channel_mode_of(mode: ChannelModeDto) -> (r: Result<ChannelMode, CoreError>)
    ensures
        match mode {
            ChannelModeDto::AllChannels => r == Ok::<ChannelMode, CoreError>(ChannelMode::AllChannels),
            ChannelModeDto::OneChannel(n) => if 1 <= n <= 16 {
                r matches Ok(ChannelMode::OneChannel(c)) && c@ == n
            } else {
                r == Err::<ChannelMode, CoreError>(CoreError::ChannelOutOfRange { value: n })
            },
        },
{
    match mode {
        ChannelModeDto::AllChannels => Ok(ChannelMode::AllChannels),
        ChannelModeDto::OneChannel(n) => match ChannelNumber::new(n) {
            Ok(channel) => Ok(ChannelMode::OneChannel(channel)),
            Err(e) => Err(e),
        },
    }
}

} // verus!
