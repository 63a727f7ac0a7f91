//! Building the source catalogue from the ports a platform reports, and
//! deciding which ports to open and close when the selection changes.
//!
//! Listing and opening mint ids the same way, from the same enumeration: the
//! ids the catalogue is built with are the ids a selection is looked up by, so
//! a difference between the two would open the wrong port or none at all.

use crate::adapter::{EndpointSnapshot, PortSnapshot};
use crate::error::{error_text, CoreError};
use crate::ids::{SourceGroupId, SourceId, SourceKey, SourceKeyModel};
use crate::session_ids::{
    lemma_recalled_after_minting, mint_all, minted_id, recalled, IdMinter, MintKey,
    MintKeyModel,
};
use crate::source::{Availability, Source};
use crate::text::{contains_text, decimal, push_decimal, same_text, texts, to_string};
use vstd::prelude::*;

verus! {

broadcast use vstd::string::group_string_axioms;

/// The label of the standalone row for acting as a destination.
///
/// The row is in the same place saying the same thing on every platform; only
/// its availability differs.
pub const DESTINATION_ROW_LABEL: &'static str = "Act as a destination for other programs";

/// Why the destination row cannot work where applications cannot publish a
/// destination, and what does work instead.
pub const DESTINATION_UNSUPPORTED: &'static str = "Windows provides no built-in way for an application to publish a MIDI destination that other programs can send to. To monitor what another program sends, install a MIDI loopback utility: its ports appear under MIDI sources and are monitored like any other port.";

/// What a row says when nothing tells it apart from another row.
pub const UNMATCHABLE_SELECTION: &'static str = "Windows reports no identity for this port beyond its name, and another port has the same name, so a previously saved selection could not be matched to either.";

/// The system's code for a device another program already holds.
pub const DEVICE_ALLOCATED: u32 = 68;

/// The names of the ports that report no device-interface string, in order.
pub open spec fn nameless(ports: Seq<PortSnapshot>) -> Seq<Seq<char>>
    decreases ports.len(),
{
    if ports.len() == 0 {
        Seq::empty()
    } else {
        let rest = nameless(ports.drop_last());
        if ports.last().interface_id is None {
            rest.push(ports.last().display_name@)
        } else {
            rest
        }
    }
}

/// How many times `name` occurs in `names`.
pub open spec fn occurrences(names: Seq<Seq<char>>, name: Seq<char>) -> nat
    decreases names.len(),
{
    if names.len() == 0 {
        0
    } else {
        occurrences(names.drop_last(), name) + if names.last() == name {
            1nat
        } else {
            0nat
        }
    }
}

/// The entries of `names` that occur more than once in `among`, in order.
pub open spec fn shared(names: Seq<Seq<char>>, among: Seq<Seq<char>>) -> Seq<Seq<char>>
    decreases names.len(),
{
    if names.len() == 0 {
        Seq::empty()
    } else {
        let rest = shared(names.drop_last(), among);
        if occurrences(among, names.last()) > 1 {
            rest.push(names.last())
        } else {
            rest
        }
    }
}

/// The display names carried by more than one port that has no other
/// identity, once for each such port.
pub open spec fn ambiguous_of(ports: Seq<PortSnapshot>) -> Seq<Seq<char>> {
    shared(nameless(ports), nameless(ports))
}

/// The identity a port's selection is saved against.
pub open spec fn port_key(port: PortSnapshot) -> SourceKeyModel {
    match port.interface_id {
        Some(interface) => SourceKeyModel::DeviceInterface(interface@),
        None => SourceKeyModel::PortName(port.display_name@),
    }
}

/// Whether nothing but its position tells a port apart: it reports no
/// device-interface string and its name is ambiguous. A port with an interface
/// string is never ambiguous, whatever its name.
pub open spec fn told_apart_by_position(port: PortSnapshot, ambiguous: Seq<Seq<char>>) -> bool {
    port.interface_id is None && ambiguous.contains(port.display_name@)
}

/// How a port's session id is minted: by position when nothing else tells it
/// apart, by its lasting identity otherwise.
pub open spec fn mint_key_of(port: PortSnapshot, ambiguous: Seq<Seq<char>>) -> MintKeyModel {
    if told_apart_by_position(port, ambiguous) {
        MintKeyModel::Positional(port.device_index)
    } else {
        MintKeyModel::Persistent(port_key(port))
    }
}

/// The display names carried by more than one port that has no
/// device-interface string.
///
/// When the system reports no interface string, a port's name is the only
/// identity left, and two ports can share it. Restoring a saved selection onto
/// one of them would mean picking arbitrarily, so such ports are told apart by
/// position for the session and neither is selected from a saved choice.
/// Ports that do report an interface string are never ambiguous.
pub fn ambiguous_names(ports: &[PortSnapshot]) -> (names: Vec<String>)
    ensures
        texts(names@) == ambiguous_of(ports@),
{
    let mut unnamed: Vec<String> = Vec::new();
    let mut i: usize = 0;
    while i < ports.len()
        invariant
            i <= ports@.len(),
            texts(unnamed@) == nameless(ports@.take(i as int)),
        decreases ports@.len() - i,
    {
        proof {
            assert(ports@.take(i + 1).drop_last() =~= ports@.take(i as int));
            assert(ports@.take(i + 1).last() == ports@[i as int]);
        }
        if ports[i].interface_id.is_none() {
            let ghost before = unnamed@;
            unnamed.push(ports[i].display_name.clone());
            proof {
                assert(texts(unnamed@) =~= texts(before).push(ports@[i as int].display_name@));
            }
        }
        i = i + 1;
    }
    proof {
        assert(ports@.take(i as int) =~= ports@);
    }
    let ghost all = texts(unnamed@);
    let mut names: Vec<String> = Vec::new();
    let mut k: usize = 0;
    while k < unnamed.len()
        invariant
            k <= unnamed@.len(),
            all == texts(unnamed@),
            texts(names@) == shared(all.take(k as int), all),
        decreases unnamed@.len() - k,
    {
        let mut count: usize = 0;
        let mut j: usize = 0;
        while j < unnamed.len()
            invariant
                j <= unnamed@.len(),
                k < unnamed@.len(),
                all == texts(unnamed@),
                count <= j,
                count == occurrences(all.take(j as int), all[k as int]),
            decreases unnamed@.len() - j,
        {
            proof {
                assert(all.take(j + 1).drop_last() =~= all.take(j as int));
                assert(all.take(j + 1).last() == all[j as int]);
            }
            if same_text(unnamed[j].as_str(), unnamed[k].as_str()) {
                count = count + 1;
            }
            j = j + 1;
        }
        proof {
            assert(all.take(j as int) =~= all);
            assert(all.take(k + 1).drop_last() =~= all.take(k as int));
            assert(all.take(k + 1).last() == all[k as int]);
        }
        if count > 1 {
            let ghost before = names@;
            names.push(unnamed[k].clone());
            proof {
                assert(texts(names@) =~= texts(before).push(all[k as int]));
            }
        }
        k = k + 1;
    }
    proof {
        assert(all.take(k as int) =~= all);
    }
    names
}

/// How one port's session id is minted, given the ambiguous names.
pub fn mint_key(snapshot: &PortSnapshot, ambiguous: &[String]) -> (key: MintKey)
    ensures
        key@ == mint_key_of(*snapshot, texts(ambiguous@)),
{
    if snapshot.interface_id.is_none() && contains_text(ambiguous, snapshot.display_name.as_str()) {
        MintKey::Positional(snapshot.device_index)
    } else {
        MintKey::Persistent(snapshot.key())
    }
}

/// The text a port failure is reported with on its row.
pub open spec fn failure_reason(error: CoreError) -> Seq<char> {
    match error {
        CoreError::PortUnavailable { detail, .. } => detail@,
        CoreError::MidiSystemUnavailable { detail } => detail@,
        other => error_text(other),
    }
}

/// The user-facing reason carried by a port or system error: the detail the
/// platform gave, or the error's own description for anything else.
pub fn reason_of(error: &CoreError) -> (reason: String)
    ensures
        reason@ == failure_reason(*error),
{
    match error {
        CoreError::PortUnavailable { detail, .. } => detail.clone(),
        CoreError::MidiSystemUnavailable { detail } => detail.clone(),
        other => other.describe(),
    }
}

/// The text a refused open is reported with.
pub open spec fn open_failure_text(result: u32) -> Seq<char> {
    if result == DEVICE_ALLOCATED {
        "Another program is using this port."@
    } else {
        "Windows would not open this port (error "@ + decimal(result as nat) + ")."@
    }
}

/// The user-facing reason a port would not open.
///
/// Exclusive use by another program is the case worth naming: it is common,
/// it is not the user's mistake, and it clears when the other program lets go.
pub fn open_failure_detail(result: u32) -> (detail: String)
    ensures
        detail@ == open_failure_text(result),
{
    if result == DEVICE_ALLOCATED {
        to_string("Another program is using this port.")
    } else {
        let mut detail = to_string("Windows would not open this port (error ");
        push_decimal(&mut detail, result as u128);
        let ghost mid = detail@;
        detail.append(").");
        proof {
            reveal_strlit("Windows would not open this port (error ");
            reveal_strlit(").");
        }
        detail
    }
}

/// How each listed port's session id is minted, in listing order.
pub open spec fn port_keys(ports: Seq<PortSnapshot>) -> Seq<MintKeyModel> {
    ports.map_values(|p: PortSnapshot| mint_key_of(p, ambiguous_of(ports)))
}

/// How each listed endpoint's session id is minted, in listing order.
pub open spec fn endpoint_keys(endpoints: Seq<EndpointSnapshot>) -> Seq<MintKeyModel> {
    endpoints.map_values(
        |e: EndpointSnapshot| MintKeyModel::Persistent(SourceKeyModel::Endpoint(e.unique_id)),
    )
}

/// How the destination row's session id is minted.
pub open spec fn destination_key() -> MintKeyModel {
    MintKeyModel::Persistent(SourceKeyModel::VirtualDestination)
}

/// Whether `ids` are the ids asking for each of `keys` in turn gives, and
/// `after` is what is remembered afterwards.
pub open spec fn minted_in_turn(
    before: Seq<(MintKeyModel, SourceId)>,
    keys: Seq<MintKeyModel>,
    ids: Seq<SourceId>,
    after: Seq<(MintKeyModel, SourceId)>,
) -> bool {
    &&& after == mint_all(before, keys)
    &&& ids.len() == keys.len()
    &&& forall|i: int| 0 <= i < keys.len() ==> recalled(after, #[trigger] keys[i]) == Some(ids[i])
}

/// Asks `minter` for the id of each key in turn.
fn mint_each(keys: Vec<MintKey>, minter: &mut IdMinter) -> (ids: Vec<SourceId>)
    requires
        old(minter).entries().len() + keys@.len() + 1 < u32::MAX,
    ensures
        minted_in_turn(
            old(minter).entries(),
            keys@.map_values(|k: MintKey| k@),
            ids@,
            final(minter).entries(),
        ),
        final(minter).entries().len() <= old(minter).entries().len() + keys@.len(),
{
    let ghost views = keys@.map_values(|k: MintKey| k@);
    let ghost start = minter.entries();
    let mut ids: Vec<SourceId> = Vec::new();
    let mut i: usize = 0;
    while i < keys.len()
        invariant
            i <= keys@.len(),
            views == keys@.map_values(|k: MintKey| k@),
            start.len() + keys@.len() + 1 < u32::MAX,
            minter.entries() == mint_all(start, views.take(i as int)),
            minter.entries().len() <= start.len() + i,
            ids@.len() == i,
            forall|j: int| 0 <= j < i ==> recalled(minter.entries(), #[trigger] views[j]) == Some(ids@[j]),
        decreases keys@.len() - i,
    {
        let ghost prev = minter.entries();
        let id = minter.id_for(keys[i].duplicate());
        proof {
            assert(views.take(i + 1).drop_last() =~= views.take(i as int));
            assert(views.take(i + 1).last() == views[i as int]);
            assert(id == minted_id(prev, views[i as int]));
            assert forall|j: int| 0 <= j <= i implies recalled(minter.entries(), #[trigger] views[j])
                == Some(if j == i { id } else { ids@[j] }) by {
                lemma_recalled_after_minting(prev, views[i as int], id, views[j]);
            }
        }
        ids.push(id);
        i = i + 1;
    }
    proof {
        assert(views.take(i as int) =~= views);
    }
    ids
}

/// The session id of each listed port, minted exactly as the catalogue is.
pub fn port_ids(ports: &[PortSnapshot], minter: &mut IdMinter) -> (ids: Vec<SourceId>)
    requires
        old(minter).entries().len() + ports@.len() + 1 < u32::MAX,
    ensures
        minted_in_turn(old(minter).entries(), port_keys(ports@), ids@, final(minter).entries()),
        final(minter).entries().len() <= old(minter).entries().len() + ports@.len(),
{
    let ambiguous = ambiguous_names(ports);
    let mut keys: Vec<MintKey> = Vec::new();
    let mut i: usize = 0;
    while i < ports.len()
        invariant
            i <= ports@.len(),
            texts(ambiguous@) == ambiguous_of(ports@),
            keys@.len() == i,
            forall|j: int| 0 <= j < i ==> #[trigger] keys@[j]@ == port_keys(ports@)[j],
        decreases ports@.len() - i,
    {
        let key = mint_key(&ports[i], &ambiguous);
        keys.push(key);
        i = i + 1;
    }
    proof {
        assert(keys@.map_values(|k: MintKey| k@) =~= port_keys(ports@));
    }
    mint_each(keys, minter)
}

/// The session id of each listed endpoint, minted exactly as the catalogue is.
pub fn endpoint_ids(endpoints: &[EndpointSnapshot], minter: &mut IdMinter) -> (ids: Vec<SourceId>)
    requires
        old(minter).entries().len() + endpoints@.len() + 1 < u32::MAX,
    ensures
        minted_in_turn(
            old(minter).entries(),
            endpoint_keys(endpoints@),
            ids@,
            final(minter).entries(),
        ),
        final(minter).entries().len() <= old(minter).entries().len() + endpoints@.len(),
{
    let mut keys: Vec<MintKey> = Vec::new();
    let mut i: usize = 0;
    while i < endpoints.len()
        invariant
            i <= endpoints@.len(),
            keys@.len() == i,
            forall|j: int| 0 <= j < i ==> #[trigger] keys@[j]@ == endpoint_keys(endpoints@)[j],
        decreases endpoints@.len() - i,
    {
        keys.push(MintKey::Persistent(SourceKey::Endpoint(endpoints[i].unique_id)));
        i = i + 1;
    }
    proof {
        assert(keys@.map_values(|k: MintKey| k@) =~= endpoint_keys(endpoints@));
    }
    mint_each(keys, minter)
}

/// Whether `row` is the catalogue entry for `port`: listed under MIDI sources
/// with the system's name, not yet selected, and reporting that a saved choice
/// cannot be matched when nothing but its position tells it apart.
pub open spec fn port_row(row: Source, port: PortSnapshot, ambiguous: Seq<Seq<char>>) -> bool {
    &&& row.key@ == port_key(port)
    &&& row.name@ == port.display_name@
    &&& row.group == Some(SourceGroupId::MidiSources)
    &&& !row.selected
    &&& if told_apart_by_position(port, ambiguous) {
        row.availability matches Availability::Unopenable { detail } && detail@
            == UNMATCHABLE_SELECTION@
    } else {
        row.availability is Open
    }
}

/// Whether `row` is the catalogue entry for `endpoint`: listed under MIDI
/// sources with the system's name, not yet selected, and absent when offline.
pub open spec fn endpoint_row(row: Source, endpoint: EndpointSnapshot) -> bool {
    &&& row.key@ == SourceKeyModel::Endpoint(endpoint.unique_id)
    &&& row.name@ == endpoint.display_name@
    &&& row.group == Some(SourceGroupId::MidiSources)
    &&& !row.selected
    &&& if endpoint.offline {
        row.availability is Absent
    } else {
        row.availability is Open
    }
}

/// Whether `row` is the standalone destination row: unselected, in no group,
/// and either open or saying why the platform cannot offer it.
pub open spec fn destination_row(row: Source, offered: bool) -> bool {
    &&& row.key@ == SourceKeyModel::VirtualDestination
    &&& row.name@ == DESTINATION_ROW_LABEL@
    &&& row.group is None
    &&& !row.selected
    &&& if offered {
        row.availability is Open
    } else {
        row.availability matches Availability::Unsupported { detail } && detail@
            == DESTINATION_UNSUPPORTED@
    }
}

/// Mints the destination row's id after the ports' and builds the row.
fn push_destination_row(
    rows: &mut Vec<Source>,
    minter: &mut IdMinter,
    offered: bool,
    Ghost(keys): Ghost<Seq<MintKeyModel>>,
    Ghost(start): Ghost<Seq<(MintKeyModel, SourceId)>>,
)
    requires
        old(minter).entries() == mint_all(start, keys),
        old(minter).entries().len() + 1 < u32::MAX,
        old(rows)@.len() == keys.len(),
        forall|i: int| 0 <= i < keys.len() ==> recalled(old(minter).entries(), #[trigger] keys[i])
            == Some(old(rows)@[i].id),
    ensures
        final(minter).entries() == mint_all(start, keys.push(destination_key())),
        final(rows)@.len() == keys.len() + 1,
        forall|i: int| 0 <= i < keys.len() ==> #[trigger] final(rows)@[i] == old(rows)@[i],
        forall|i: int| 0 <= i < keys.len() ==> recalled(final(minter).entries(), #[trigger] keys[i])
            == Some(final(rows)@[i].id),
        destination_row(final(rows)@[keys.len() as int], offered),
        recalled(final(minter).entries(), destination_key()) == Some(final(rows)@[keys.len() as int].id),
{
    let ghost mid = minter.entries();
    let id = minter.id_for(MintKey::Persistent(SourceKey::VirtualDestination));
    proof {
        let all = keys.push(destination_key());
        assert(all.drop_last() =~= keys);
        assert(all.last() == destination_key());
        assert(id == minted_id(mid, destination_key()));
        assert forall|i: int| 0 <= i < keys.len() implies recalled(minter.entries(), #[trigger] keys[i])
            == Some(rows@[i].id) by {
            lemma_recalled_after_minting(mid, destination_key(), id, keys[i]);
        }
        lemma_recalled_after_minting(mid, destination_key(), id, destination_key());
    }
    let availability = if offered {
        Availability::Open
    } else {
        Availability::Unsupported { detail: to_string(DESTINATION_UNSUPPORTED) }
    };
    rows.push(
        Source {
            id,
            key: SourceKey::VirtualDestination,
            name: to_string(DESTINATION_ROW_LABEL),
            group: None,
            selected: false,
            availability,
        },
    );
}

/// The catalogue for a system that identifies ports by interface string or
/// name: every port as reported, then the destination row, which this system
/// cannot offer.
///
/// Ports whose name is ambiguous are listed and stay tickable, but say that a
/// saved selection could not be matched to them.
pub fn scan_ports(ports: &[PortSnapshot], minter: &mut IdMinter) -> (rows: Vec<Source>)
    requires
        old(minter).entries().len() + ports@.len() + 2 < u32::MAX,
    ensures
        final(minter).entries() == mint_all(
            old(minter).entries(),
            port_keys(ports@).push(destination_key()),
        ),
        rows@.len() == ports@.len() + 1,
        forall|i: int|
            0 <= i < ports@.len() ==> port_row(#[trigger] rows@[i], ports@[i], ambiguous_of(ports@))
                && recalled(final(minter).entries(), port_keys(ports@)[i]) == Some(rows@[i].id),
        destination_row(rows@[ports@.len() as int], false),
        recalled(final(minter).entries(), destination_key()) == Some(rows@[ports@.len() as int].id),
{
    let ids = port_ids(ports, minter);
    let ambiguous = ambiguous_names(ports);
    let mut rows: Vec<Source> = Vec::new();
    let mut i: usize = 0;
    while i < ports.len()
        invariant
            i <= ports@.len(),
            ids@.len() == ports@.len(),
            texts(ambiguous@) == ambiguous_of(ports@),
            rows@.len() == i,
            forall|j: int| 0 <= j < i ==> port_row(#[trigger] rows@[j], ports@[j], ambiguous_of(ports@)),
            forall|j: int| 0 <= j < i ==> #[trigger] rows@[j].id == ids@[j],
        decreases ports@.len() - i,
    {
        let availability = if ports[i].interface_id.is_none() && contains_text(
            &ambiguous,
            ports[i].display_name.as_str(),
        ) {
            Availability::Unopenable { detail: to_string(UNMATCHABLE_SELECTION) }
        } else {
            Availability::Open
        };
        rows.push(ports[i].to_source(ids[i], availability));
        i = i + 1;
    }
    proof {
        assert forall|j: int| 0 <= j < ports@.len() implies recalled(
            minter.entries(),
            #[trigger] port_keys(ports@)[j],
        ) == Some(rows@[j].id) by {
            assert(rows@[j].id == ids@[j]);
        }
    }
    push_destination_row(&mut rows, minter, false, Ghost(port_keys(ports@)), Ghost(old(minter).entries()));
    proof {
        assert forall|j: int| 0 <= j < ports@.len() implies port_row(
            #[trigger] rows@[j],
            ports@[j],
            ambiguous_of(ports@),
        ) by {
            assert(port_row(rows@[j], ports@[j], ambiguous_of(ports@)));
        }
    }
    rows
}

/// The catalogue for a system with stable endpoint identifiers: every
/// endpoint as reported, then the destination row, which this system offers.
pub fn scan_endpoints(endpoints: &[EndpointSnapshot], minter: &mut IdMinter) -> (rows: Vec<Source>)
    requires
        old(minter).entries().len() + endpoints@.len() + 2 < u32::MAX,
    ensures
        final(minter).entries() == mint_all(
            old(minter).entries(),
            endpoint_keys(endpoints@).push(destination_key()),
        ),
        rows@.len() == endpoints@.len() + 1,
        forall|i: int|
            0 <= i < endpoints@.len() ==> endpoint_row(#[trigger] rows@[i], endpoints@[i])
                && recalled(final(minter).entries(), endpoint_keys(endpoints@)[i]) == Some(rows@[i].id),
        destination_row(rows@[endpoints@.len() as int], true),
        recalled(final(minter).entries(), destination_key()) == Some(rows@[endpoints@.len() as int].id),
{
    let ids = endpoint_ids(endpoints, minter);
    let mut rows: Vec<Source> = Vec::new();
    let mut i: usize = 0;
    while i < endpoints.len()
        invariant
            i <= endpoints@.len(),
            ids@.len() == endpoints@.len(),
            rows@.len() == i,
            forall|j: int| 0 <= j < i ==> endpoint_row(#[trigger] rows@[j], endpoints@[j]),
            forall|j: int| 0 <= j < i ==> #[trigger] rows@[j].id == ids@[j],
        decreases endpoints@.len() - i,
    {
        rows.push(endpoints[i].to_source(ids[i]));
        i = i + 1;
    }
    proof {
        assert forall|j: int| 0 <= j < endpoints@.len() implies recalled(
            minter.entries(),
            #[trigger] endpoint_keys(endpoints@)[j],
        ) == Some(rows@[j].id) by {
            assert(rows@[j].id == ids@[j]);
        }
    }
    push_destination_row(
        &mut rows,
        minter,
        true,
        Ghost(endpoint_keys(endpoints@)),
        Ghost(old(minter).entries()),
    );
    proof {
        assert forall|j: int| 0 <= j < endpoints@.len() implies endpoint_row(
            #[trigger] rows@[j],
            endpoints@[j],
        ) by {
            assert(endpoint_row(rows@[j], endpoints@[j]));
        }
    }
    rows
}

/// The ids of the selected rows that stand for real ports, in listing order.
pub open spec fn chosen_ports(sources: Seq<Source>) -> Seq<SourceId>
    decreases sources.len(),
{
    if sources.len() == 0 {
        Seq::empty()
    } else {
        let rest = chosen_ports(sources.drop_last());
        if sources.last().selected && sources.last().key@ != SourceKeyModel::VirtualDestination {
            rest.push(sources.last().id)
        } else {
            rest
        }
    }
}

/// The positions, in order, of the listed ports that are chosen and not yet
/// open.
pub open spec fn to_open(ids: Seq<SourceId>, chosen: Seq<SourceId>, open: Seq<SourceId>) -> Seq<int>
    decreases ids.len(),
{
    if ids.len() == 0 {
        Seq::empty()
    } else {
        let rest = to_open(ids.drop_last(), chosen, open);
        if chosen.contains(ids.last()) && !open.contains(ids.last()) {
            rest.push(ids.len() - 1)
        } else {
            rest
        }
    }
}

/// The open ports, in order, whose row is no longer chosen.
pub open spec fn to_close(open: Seq<SourceId>, chosen: Seq<SourceId>) -> Seq<SourceId>
    decreases open.len(),
{
    if open.len() == 0 {
        Seq::empty()
    } else {
        let rest = to_close(open.drop_last(), chosen);
        if chosen.contains(open.last()) {
            rest
        } else {
            rest.push(open.last())
        }
    }
}

/// The id of the first destination row, if there is one.
pub open spec fn first_destination(sources: Seq<Source>) -> Option<SourceId>
    decreases sources.len(),
{
    if sources.len() == 0 {
        None
    } else if first_destination(sources.drop_last()) is Some {
        first_destination(sources.drop_last())
    } else if sources.last().key@ == SourceKeyModel::VirtualDestination {
        Some(sources.last().id)
    } else {
        None
    }
}

/// Whether `id` is one of `ids`.
fn holds_id(ids: &[SourceId], id: SourceId) -> (found: bool)
    ensures
        found == ids@.contains(id),
{
    let mut i: usize = 0;
    while i < ids.len()
        invariant
            i <= ids@.len(),
            forall|j: int| 0 <= j < i ==> ids@[j] != id,
        decreases ids@.len() - i,
    {
        if ids[i] == id {
            return true;
        }
        i = i + 1;
    }
    false
}

/// Whether a source is the destination row.
fn is_destination(source: &Source) -> (b: bool)
    ensures
        b == (source.key@ == SourceKeyModel::VirtualDestination),
{
    match &source.key {
        SourceKey::VirtualDestination => true,
        _ => false,
    }
}

/// The ids of the selected rows that stand for real ports: the ports that
/// should be open.
pub fn selected_port_ids(sources: &[Source]) -> (ids: Vec<SourceId>)
    ensures
        ids@ == chosen_ports(sources@),
{
    let mut ids: Vec<SourceId> = Vec::new();
    let mut i: usize = 0;
    while i < sources.len()
        invariant
            i <= sources@.len(),
            ids@ == chosen_ports(sources@.take(i as int)),
        decreases sources@.len() - i,
    {
        proof {
            assert(sources@.take(i + 1).drop_last() =~= sources@.take(i as int));
            assert(sources@.take(i + 1).last() == sources@[i as int]);
        }
        if sources[i].selected && !is_destination(&sources[i]) {
            ids.push(sources[i].id);
        }
        i = i + 1;
    }
    proof {
        assert(sources@.take(i as int) =~= sources@);
    }
    ids
}

/// The positions of the listed ports to open: those whose row is chosen and
/// which are not open already.
pub fn ports_to_open(ids: &[SourceId], chosen: &[SourceId], open: &[SourceId]) -> (which: Vec<usize>)
    ensures
        which@.map_values(|k: usize| k as int) == to_open(ids@, chosen@, open@),
{
    let mut which: Vec<usize> = Vec::new();
    let mut i: usize = 0;
    while i < ids.len()
        invariant
            i <= ids@.len(),
            which@.map_values(|k: usize| k as int) == to_open(ids@.take(i as int), chosen@, open@),
        decreases ids@.len() - i,
    {
        proof {
            assert(ids@.take(i + 1).drop_last() =~= ids@.take(i as int));
            assert(ids@.take(i + 1).last() == ids@[i as int]);
        }
        if holds_id(chosen, ids[i]) && !holds_id(open, ids[i]) {
            let ghost before = which@;
            which.push(i);
            proof {
                assert(which@.map_values(|k: usize| k as int) =~= before.map_values(
                    |k: usize| k as int,
                ).push(i as int));
            }
        }
        i = i + 1;
    }
    proof {
        assert(ids@.take(i as int) =~= ids@);
    }
    which
}

/// The open ports to close: those whose row is no longer chosen, because it
/// was unticked or its device has gone.
pub fn ports_to_close(open: &[SourceId], chosen: &[SourceId]) -> (stale: Vec<SourceId>)
    ensures
        stale@ == to_close(open@, chosen@),
{
    let mut stale: Vec<SourceId> = Vec::new();
    let mut i: usize = 0;
    while i < open.len()
        invariant
            i <= open@.len(),
            stale@ == to_close(open@.take(i as int), chosen@),
        decreases open@.len() - i,
    {
        proof {
            assert(open@.take(i + 1).drop_last() =~= open@.take(i as int));
            assert(open@.take(i + 1).last() == open@[i as int]);
        }
        if !holds_id(chosen, open[i]) {
            stale.push(open[i]);
        }
        i = i + 1;
    }
    proof {
        assert(open@.take(i as int) =~= open@);
    }
    stale
}

/// Whether the destination row is ticked, so the destination should be
/// published.
pub fn wants_destination(sources: &[Source]) -> (wanted: bool)
    ensures
        wanted == exists|i: int|
            0 <= i < sources@.len() && #[trigger] sources@[i].selected
                && sources@[i].key@ == SourceKeyModel::VirtualDestination,
{
    let mut i: usize = 0;
    while i < sources.len()
        invariant
            i <= sources@.len(),
            forall|j: int|
                0 <= j < i ==> !(#[trigger] sources@[j].selected && sources@[j].key@
                    == SourceKeyModel::VirtualDestination),
        decreases sources@.len() - i,
    {
        if sources[i].selected && is_destination(&sources[i]) {
            return true;
        }
        i = i + 1;
    }
    false
}

/// The id of the destination row, which a failure to publish is reported on.
pub fn destination_row_id(sources: &[Source]) -> (id: Option<SourceId>)
    ensures
        id == first_destination(sources@),
{
    let mut i: usize = 0;
    while i < sources.len()
        invariant
            i <= sources@.len(),
            first_destination(sources@.take(i as int)) is None,
        decreases sources@.len() - i,
    {
        proof {
            assert(sources@.take(i + 1).drop_last() =~= sources@.take(i as int));
            assert(sources@.take(i + 1).last() == sources@[i as int]);
        }
        if is_destination(&sources[i]) {
            proof {
                lemma_first_destination_kept(sources@, i as int);
            }
            return Some(sources[i].id);
        }
        i = i + 1;
    }
    proof {
        assert(sources@.take(i as int) =~= sources@);
    }
    None
}

/// Once a prefix has a destination row, every longer prefix has the same first one.
proof fn lemma_first_destination_kept(sources: Seq<Source>, i: int)
    requires
        0 <= i < sources.len(),
        first_destination(sources.take(i + 1)) is Some,
    ensures
        first_destination(sources) == first_destination(sources.take(i + 1)),
    decreases sources.len() - i,
{
    if i + 1 == sources.len() {
        assert(sources.take(i + 1) =~= sources);
    } else {
        assert(sources.take(i + 2).drop_last() =~= sources.take(i + 1));
        lemma_first_destination_kept(sources, i + 1);
    }
}

/// After asking for each of `keys` in turn, every one of them is remembered,
/// and whatever was remembered before is remembered as it was.
pub proof fn lemma_minted_keys_remembered(entries: Seq<(MintKeyModel, SourceId)>, keys: Seq<MintKeyModel>)
    ensures
        forall|i: int| 0 <= i < keys.len() ==> recalled(mint_all(entries, keys), #[trigger] keys[i]) is Some,
        forall|k: MintKeyModel|
            #[trigger] recalled(entries, k) is Some ==> recalled(mint_all(entries, keys), k) == recalled(
                entries,
                k,
            ),
    decreases keys.len(),
{
    if keys.len() > 0 {
        let rest = keys.drop_last();
        lemma_minted_keys_remembered(entries, rest);
        let before = mint_all(entries, rest);
        let last = keys.last();
        let id = crate::session_ids::minted_id(before, last);
        assert forall|k: MintKeyModel| #[trigger] recalled(before, k) is Some implies recalled(
            mint_all(entries, keys),
            k,
        ) == recalled(before, k) by {
            lemma_recalled_after_minting(before, last, id, k);
        }
        assert forall|i: int| 0 <= i < keys.len() implies recalled(mint_all(entries, keys), #[trigger] keys[i])
            is Some by {
            lemma_recalled_after_minting(before, last, id, keys[i]);
            if i < keys.len() - 1 {
                assert(rest[i] == keys[i]);
            }
        }
        assert forall|k: MintKeyModel| #[trigger] recalled(entries, k) is Some implies recalled(
            mint_all(entries, keys),
            k,
        ) == recalled(entries, k) by {
            lemma_recalled_after_minting(before, last, id, k);
        }
    }
}

/// Asking again for keys that are all remembered changes nothing.
pub proof fn lemma_remembered_keys_mint_nothing(entries: Seq<(MintKeyModel, SourceId)>, keys: Seq<MintKeyModel>)
    requires
        forall|i: int| 0 <= i < keys.len() ==> recalled(entries, #[trigger] keys[i]) is Some,
    ensures
        mint_all(entries, keys) == entries,
    decreases keys.len(),
{
    if keys.len() > 0 {
        let rest = keys.drop_last();
        assert forall|i: int| 0 <= i < rest.len() implies recalled(entries, #[trigger] rest[i]) is Some by {
            assert(rest[i] == keys[i]);
        }
        lemma_remembered_keys_mint_nothing(entries, rest);
        assert(recalled(entries, keys[keys.len() - 1]) is Some);
    }
}

/// Listing and opening agree: once the catalogue has been built from a set of
/// ports, minting ids for the same ports again, as opening them does, leaves
/// what is remembered unchanged, so every port gets the id its row was listed
/// with.
pub proof fn lemma_listing_and_opening_agree(entries: Seq<(MintKeyModel, SourceId)>, ports: Seq<PortSnapshot>)
    ensures
        ({
            let listed = mint_all(entries, port_keys(ports).push(destination_key()));
            &&& mint_all(listed, port_keys(ports)) == listed
            &&& forall|i: int|
                0 <= i < ports.len() ==> recalled(listed, #[trigger] port_keys(ports)[i]) is Some
        }),
{
    let keys = port_keys(ports).push(destination_key());
    let listed = mint_all(entries, keys);
    lemma_minted_keys_remembered(entries, keys);
    assert forall|i: int| 0 <= i < port_keys(ports).len() implies recalled(listed, #[trigger] port_keys(ports)[i])
        is Some by {
        assert(keys[i] == port_keys(ports)[i]);
    }
    lemma_remembered_keys_mint_nothing(listed, port_keys(ports));
}

} // verus!
