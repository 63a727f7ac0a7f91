//! Which of the event table's five columns are shown.
//!
//! Hiding a column is a display choice and never reaches the filtering code:
//! the event log's view takes no column set, so hiding Chan while a channel
//! filter is active still filters by channel.

use crate::error::CoreError;
use vstd::prelude::*;

verus! {

/// One field of an event row, declared in the left-to-right order of the
/// table. Display order is derived from this order rather than stored, so a
/// column hidden and shown again returns to its place.
#[derive(Debug, Clone, Copy, PartialEq, Eq, Structural, Hash, PartialOrd, Ord)]
pub enum Column {
    /// Arrival time.
    Time,
    /// Originating source's display name.
    Source,
    /// Human-readable message name.
    Message,
    /// Channel number, blank for messages that carry none.
    Chan,
    /// The message payload, rendered per message type.
    Data,
}

/// Every column, in display order.
pub open spec fn all_columns() -> Seq<Column> {
    seq![Column::Time, Column::Source, Column::Message, Column::Chan, Column::Data]
}

/// A column's header label.
pub open spec fn column_label(c: Column) -> Seq<char> {
    match c {
        Column::Time => "Time"@,
        Column::Source => "Source"@,
        Column::Message => "Message"@,
        Column::Chan => "Chan"@,
        Column::Data => "Data"@,
    }
}

/// A column's stable identifier for the IPC boundary.
pub open spec fn column_id(c: Column) -> Seq<char> {
    match c {
        Column::Time => "time"@,
        Column::Source => "source"@,
        Column::Message => "message"@,
        Column::Chan => "chan"@,
        Column::Data => "data"@,
    }
}

impl Column {
    /// Every column, in display order.
    pub const ALL: [Column; 5] = [
        Column::Time,
        Column::Source,
        Column::Message,
        Column::Chan,
        Column::Data,
    ];

    /// The header label.
    pub fn label(self) -> (s: &'static str)
        ensures
            s@ == column_label(self),
    {
        match self {
            Column::Time => "Time",
            Column::Source => "Source",
            Column::Message => "Message",
            Column::Chan => "Chan",
            Column::Data => "Data",
        }
    }

    /// A stable identifier for crossing the IPC boundary.
    pub fn id(self) -> (s: &'static str)
        ensures
            s@ == column_id(self),
    {
        match self {
            Column::Time => "time",
            Column::Source => "source",
            Column::Message => "message",
            Column::Chan => "chan",
            Column::Data => "data",
        }
    }
}

/// Whether a list of columns holds this one.
pub fn contains_column(columns: &[Column], column: Column) -> (b: bool)
    ensures
        b == columns@.contains(column),
{
    let mut i: usize = 0;
    while i < columns.len()
        invariant
            i <= columns@.len(),
            forall|k: int| 0 <= k < i ==> columns@[k] != column,
        decreases columns@.len() - i,
    {
        if columns[i] == column {
            proof {
                assert(columns@[i as int] == column);
            }
            return true;
        }
        i = i + 1;
    }
    false
}

/// The set of columns currently shown, held as the columns hidden.
#[derive(Debug, Clone, PartialEq, Eq)]
pub struct ColumnVisibility {
    hidden: Vec<Column>,
}

impl ColumnVisibility {
    /// Whether a column is hidden.
    pub closed spec fn hides(&self, c: Column) -> bool {
        self.hidden@.contains(c)
    }

    /// The visible columns, in display order.
    pub open spec fn shown(&self) -> Seq<Column> {
        all_columns().filter(|c: Column| !self.hides(c))
    }

    /// Builds a visibility set from the columns that should be shown.
    ///
    /// Refused with `LastColumnVisible` when `visible` is empty, so that no
    /// caller can produce a table with no columns.
    pub fn from_visible(visible: &[Column]) -> (r: Result<Self, CoreError>)
        ensures
            match r {
                Ok(v) => visible@.len() > 0 && forall|c: Column| v.hides(c) <==> !visible@.contains(c),
                Err(e) => visible@.len() == 0 && e == CoreError::LastColumnVisible,
            },
    {
        if visible.len() == 0 {
            return Err(CoreError::LastColumnVisible);
        }
        let all = Column::ALL;
        let mut hidden: Vec<Column> = Vec::new();
        let mut i: usize = 0;
        while i < 5
            invariant
                i <= 5,
                all@ == all_columns(),
                forall|c: Column| hidden@.contains(c) <==> (exists|k: int|
                    0 <= k < i && all@[k] == c && !visible@.contains(c)),
            decreases 5 - i,
        {
            let column = all[i];
            let ghost before = hidden@;
            if !contains_column(visible, column) {
                hidden.push(column);
                proof {
                    assert forall|c: Column| hidden@.contains(c) <==> (exists|k: int|
                        0 <= k < i + 1 && all@[k] == c && !visible@.contains(c)) by {
                        if hidden@.contains(c) && c != column {
                            let w = choose|w: int| 0 <= w < hidden@.len() && hidden@[w] == c;
                            assert(before[w] == c);
                            assert(before.contains(c));
                        }
                        if c == column {
                            assert(hidden@[before.len() as int] == c);
                        }
                        if exists|k: int| 0 <= k < i + 1 && all@[k] == c && !visible@.contains(c) {
                            if c != column {
                                let k = choose|k: int|
                                    0 <= k < i + 1 && all@[k] == c && !visible@.contains(c);
                                assert(k < i);
                                assert(before.contains(c));
                                let w = choose|w: int| 0 <= w < before.len() && before[w] == c;
                                assert(hidden@[w] == c);
                            }
                        }
                    }
                }
            } else {
                proof {
                    assert forall|c: Column| hidden@.contains(c) <==> (exists|k: int|
                        0 <= k < i + 1 && all@[k] == c && !visible@.contains(c)) by {
                        if exists|k: int| 0 <= k < i + 1 && all@[k] == c && !visible@.contains(c) {
                            let k = choose|k: int|
                                0 <= k < i + 1 && all@[k] == c && !visible@.contains(c);
                            assert(k < i);
                        }
                    }
                }
            }
            i = i + 1;
        }
        let v = ColumnVisibility { hidden };
        proof {
            assert forall|c: Column| v.hides(c) <==> !visible@.contains(c) by {
                let k: int = match c {
                    Column::Time => 0,
                    Column::Source => 1,
                    Column::Message => 2,
                    Column::Chan => 3,
                    Column::Data => 4,
                };
                assert(all@[k] == c);
            }
        }
        Ok(v)
    }

    /// A copy of this set.
    pub fn duplicate(&self) -> (v: Self)
        ensures
            forall|c: Column| v.hides(c) == self.hides(c),
    {
        let mut hidden: Vec<Column> = Vec::new();
        let mut i: usize = 0;
        while i < self.hidden.len()
            invariant
                i <= self.hidden@.len(),
                hidden@ == self.hidden@.take(i as int),
            decreases self.hidden@.len() - i,
        {
            hidden.push(self.hidden[i]);
            i = i + 1;
            assert(hidden@ =~= self.hidden@.take(i as int));
        }
        assert(self.hidden@.take(i as int) =~= self.hidden@);
        ColumnVisibility { hidden }
    }

    /// Whether this column is displayed.
    pub fn is_visible(&self, column: Column) -> (b: bool)
        ensures
            b == !self.hides(column),
    {
        !contains_column(self.hidden.as_slice(), column)
    }

    /// The visible columns, in display order.
    pub fn visible(&self) -> (v: Vec<Column>)
        ensures
            v@ == self.shown(),
    {
        let all = Column::ALL;
        let mut v: Vec<Column> = Vec::new();
        let mut i: usize = 0;
        while i < 5
            invariant
                i <= 5,
                all@ == all_columns(),
                v@ == all_columns().take(i as int).filter(|c: Column| !self.hides(c)),
            decreases 5 - i,
        {
            let column = all[i];
            proof {
                assert(all_columns().take(i + 1).drop_last() =~= all_columns().take(i as int));
                assert(all_columns().take(i + 1).last() == column);
                reveal_with_fuel(Seq::filter, 1);
            }
            if self.is_visible(column) {
                v.push(column);
            }
            i = i + 1;
        }
        assert(all_columns().take(5) =~= all_columns());
        v
    }
}

impl Default for ColumnVisibility {
    /// All five columns shown.
    fn default() -> (v: Self)
        ensures
            forall|c: Column| !v.hides(c),
    {
        ColumnVisibility { hidden: Vec::new() }
    }
}

} // verus!
