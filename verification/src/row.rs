//! Result sets and the two ways of finding a column in them.

use vstd::prelude::*;
use vstd::string::*;
use crate::param::{row_models, DbModel, DbValue};
use crate::text::texts;

verus! {

/// The rows that a query gave, with the names of their columns.
#[derive(Clone, Debug, PartialEq, Eq)]
pub struct RowSet {
    pub columns: Vec<String>,
    pub rows: Vec<Vec<DbValue>>,
}

/// What a `RowSet` stands for.
pub struct RowSetModel {
    pub columns: Seq<Seq<char>>,
    pub rows: Seq<Seq<DbModel>>,
}

impl View for RowSet {
    type V = RowSetModel;

    open spec fn view(&self) -> RowSetModel {
        RowSetModel {
            columns: texts(self.columns@),
            rows: self.rows@.map_values(|row: Vec<DbValue>| row_models(row@)),
        }
    }
}

/// How a backend tells the columns of a row apart.
#[derive(Clone, Copy, Debug, PartialEq, Eq)]
pub enum ColumnAddressing {
    /// By the names that come with the result set.
    ByName,
    /// By the order in which the query lists them.
    ByOrdinal,
}

impl ColumnAddressing {
    /// The lookup that this addressing gives for the given columns.
    pub open spec fn lookup_of(self, columns: Seq<Seq<char>>) -> ColumnLookup {
        match self {
            ColumnAddressing::ByName => lookup_by_name(columns),
            ColumnAddressing::ByOrdinal => ordinal_lookup(),
        }
    }
}

/// Where the three columns of a profile stand in a row.
#[derive(Clone, Copy, Debug, PartialEq, Eq)]
pub struct ColumnLookup {
    pub id: Option<usize>,
    pub handle: Option<usize>,
    pub avatar: Option<usize>,
}

/// `found` is the last position at which `name` stands in `columns`, or
/// `None` when the name does not occur.
pub open spec fn is_position_of(columns: Seq<Seq<char>>, name: Seq<char>, found: Option<usize>) -> bool {
    match found {
        Some(i) => {
            &&& i < columns.len()
            &&& columns[i as int] == name
            &&& forall|j: int| i < j < columns.len() ==> columns[j] != name
        },
        None => forall|j: int| 0 <= j < columns.len() ==> columns[j] != name,
    }
}

/// `lookup` holds the positions of `id`, `handle` and `avatar` in `columns`.
pub open spec fn is_lookup_of(columns: Seq<Seq<char>>, lookup: ColumnLookup) -> bool {
    &&& is_position_of(columns, "id"@, lookup.id)
    &&& is_position_of(columns, "handle"@, lookup.handle)
    &&& is_position_of(columns, "avatar"@, lookup.avatar)
}

/// A list of columns has one lookup only.
pub proof fn lemma_lookup_unique(columns: Seq<Seq<char>>, a: ColumnLookup, b: ColumnLookup)
    requires
        is_lookup_of(columns, a),
        is_lookup_of(columns, b),
    ensures
        a == b,
{
    lemma_position_unique(columns, "id"@, a.id, b.id);
    lemma_position_unique(columns, "handle"@, a.handle, b.handle);
    lemma_position_unique(columns, "avatar"@, a.avatar, b.avatar);
}

/// A name has one last position only.
proof fn lemma_position_unique(
    columns: Seq<Seq<char>>,
    name: Seq<char>,
    a: Option<usize>,
    b: Option<usize>,
)
    requires
        is_position_of(columns, name, a),
        is_position_of(columns, name, b),
    ensures
        a == b,
{
}

/// The lookup by name for a result set with the given columns.
pub open spec fn lookup_by_name(columns: Seq<Seq<char>>) -> ColumnLookup {
    choose|lookup: ColumnLookup| is_lookup_of(columns, lookup)
}

/// The positions of the columns as the query lists them: id, handle, avatar.
pub open spec fn ordinal_lookup() -> ColumnLookup {
    ColumnLookup { id: Some(0), handle: Some(1), avatar: Some(2) }
}

/// The last position of `name` among `columns`.
fn position_of(columns: &Vec<String>, name: &str) -> (found: Option<usize>)
    ensures
        is_position_of(texts(columns@), name@, found),
{
    let wanted = String::from_str(name);
    let mut found: Option<usize> = None;
    let mut i: usize = 0;
    while i < columns.len()
        invariant
            i <= columns.len(),
            wanted@ == name@,
            is_position_of(texts(columns@).take(i as int), name@, found),
        decreases columns.len() - i,
    {
        if columns[i] == wanted {
            found = Some(i);
        }
        i = i + 1;
    }
    assert(texts(columns@).take(i as int) =~= texts(columns@));
    found
}

/// Finds the columns of a profile by their names.
pub fn get_column_lookup(columns: &Vec<String>) -> (lookup: ColumnLookup)
    ensures
        is_lookup_of(texts(columns@), lookup),
        lookup == lookup_by_name(texts(columns@)),
{
    let lookup = ColumnLookup {
        id: position_of(columns, "id"),
        handle: position_of(columns, "handle"),
        avatar: position_of(columns, "avatar"),
    };
    proof {
        assert(is_lookup_of(texts(columns@), lookup));
        lemma_lookup_unique(texts(columns@), lookup, lookup_by_name(texts(columns@)));
    }
    lookup
}

impl ColumnAddressing {
    /// The lookup that this addressing gives for a result set with the given
    /// columns.
    pub fn lookup(&self, columns: &Vec<String>) -> (lookup: ColumnLookup)
        ensures
            lookup == self.lookup_of(texts(columns@)),
            self is ByName ==> is_lookup_of(texts(columns@), lookup),
    {
        match self {
            ColumnAddressing::ByName => get_column_lookup(columns),
            ColumnAddressing::ByOrdinal => ColumnLookup {
                id: Some(0),
                handle: Some(1),
                avatar: Some(2),
            },
        }
    }
}

} // verus!
