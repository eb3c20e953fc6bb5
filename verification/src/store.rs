//! The record store as the operations see it: a table of comics in memory.
//!
//! The table says what finding, inserting, replacing, updating, deleting and
//! listing mean, so that what the operations promise can be stated and proved.
//! A store that keeps its records elsewhere is held to the same behaviour.

use vstd::prelude::*;
use chrono::NaiveDateTime;
use crate::models::Comic;
use crate::models::NewComic;
use crate::models::ReplaceComic;
use crate::models::UpdateComic;
use crate::paging::FetchSpec;

verus! {

/// Why the table did not do what it was asked.
#[derive(Clone, Copy, Debug, PartialEq, Eq)]
pub enum StoreError {
    /// No record has the identifier.
    NotFound,
    /// Every identifier has been given out.
    OutOfIdentifiers,
}

impl StoreError {
    /// The message of the failure.
    pub open spec fn text(self) -> Seq<char> {
        match self {
            StoreError::NotFound => "NotFound"@,
            StoreError::OutOfIdentifiers => "No identifier is left for a new record"@,
        }
    }

    /// Computes [`StoreError::text`].
    pub fn message(&self) -> (message: String)
        ensures
            message@ == self.text(),
    {
        match self {
            StoreError::NotFound => "NotFound".to_owned(),
            StoreError::OutOfIdentifiers => "No identifier is left for a new record".to_owned(),
        }
    }
}

/// The position of the first record of `rows` at or after `from` that has the
/// identifier `id`, or the length of `rows` if there is none.
pub open spec fn position_of(rows: Seq<Comic>, id: i32, from: int) -> int
    decreases rows.len() - from,
{
    if from >= rows.len() {
        rows.len() as int
    } else if rows[from].id == id {
        from
    } else {
        position_of(rows, id, from + 1)
    }
}

/// The record of `rows` that has the identifier `id`.
pub open spec fn lookup(rows: Seq<Comic>, id: i32) -> Option<Comic> {
    let at = position_of(rows, id, 0);
    if at < rows.len() {
        Some(rows[at])
    } else {
        None
    }
}

/// Whether no two records of `rows` share an identifier.
pub open spec fn distinct_ids(rows: Seq<Comic>) -> bool {
    forall|i: int, j: int|
        0 <= i < j < rows.len() ==> (#[trigger] rows[i]).id != (#[trigger] rows[j]).id
}

/// The records after the one with the identifier `id`, if there is one, has
/// been replaced at the time `at`.
pub open spec fn rows_after_replace(
    rows: Seq<Comic>,
    id: i32,
    data: ReplaceComic,
    at: NaiveDateTime,
) -> Seq<Comic> {
    let found = position_of(rows, id, 0);
    if found < rows.len() {
        rows.update(found, rows[found].replaced(data, at))
    } else {
        rows
    }
}

/// The records after the one with the identifier `id`, if there is one, has
/// been updated at the time `at`. An update that names no field changes
/// nothing, not even the time of the last write.
pub open spec fn rows_after_patch(
    rows: Seq<Comic>,
    id: i32,
    data: UpdateComic,
    at: NaiveDateTime,
) -> Seq<Comic> {
    let found = position_of(rows, id, 0);
    if found < rows.len() && !data.changes_nothing() {
        rows.update(found, rows[found].patched(data, at))
    } else {
        rows
    }
}

/// The records after the one with the identifier `id`, if there is one, has
/// been deleted.
pub open spec fn rows_after_delete(rows: Seq<Comic>, id: i32) -> Seq<Comic> {
    let found = position_of(rows, id, 0);
    if found < rows.len() {
        rows.remove(found)
    } else {
        rows
    }
}

/// A table of comics. Its records stand in the order in which they were
/// inserted, and each has an identifier of its own.
pub struct ComicTable {
    rows: Vec<Comic>,
    next_id: i32,
}

impl View for ComicTable {
    type V = Seq<Comic>;

    /// The records of the table, in the order in which it holds them.
    closed spec fn view(&self) -> Seq<Comic> {
        self.rows@
    }
}

impl ComicTable {
    /// The identifier that the next new record gets.
    pub closed spec fn next_id(&self) -> int {
        self.next_id as int
    }

    /// What holds of every table: identifiers are positive, below the next one
    /// to give out, and no two records share one; so there are fewer records
    /// than identifiers given out.
    pub open spec fn wf(&self) -> bool {
        &&& 1 <= self.next_id() <= i32::MAX
        &&& self@.len() < self.next_id()
        &&& forall|i: int| 0 <= i < self@.len() ==> 1 <= (#[trigger] self@[i]).id < self.next_id()
        &&& distinct_ids(self@)
    }

    /// An empty table.
    pub fn new() -> (table: ComicTable)
        ensures
            table.wf(),
            table@ == Seq::<Comic>::empty(),
            table.next_id() == 1,
    {
        ComicTable { rows: Vec::new(), next_id: 1 }
    }

    /// An empty table whose first record gets the identifier `first_id`, or 1
    /// where `first_id` is below 1.
    pub fn starting_at(first_id: i32) -> (table: ComicTable)
        ensures
            table.wf(),
            table@ == Seq::<Comic>::empty(),
            table.next_id() == (if first_id < 1 {
                1
            } else {
                first_id as int
            }),
    {
        let next_id: i32 = if first_id < 1 {
            1
        } else {
            first_id
        };
        ComicTable { rows: Vec::new(), next_id }
    }

    /// The number of records.
    pub fn len(&self) -> (len: usize)
        ensures
            len == self@.len(),
    {
        self.rows.len()
    }

    /// Computes [`position_of`] from the start of the table.
    fn locate(&self, id: i32) -> (at: usize)
        ensures
            at == position_of(self@, id, 0),
            at <= self@.len(),
            at < self@.len() ==> self@[at as int].id == id,
    {
        let mut at: usize = 0;
        while at < self.rows.len() && self.rows[at].id != id
            invariant
                at <= self.rows.len(),
                position_of(self.rows@, id, 0) == position_of(self.rows@, id, at as int),
            decreases self.rows.len() - at,
        {
            at += 1;
        }
        at
    }

    /// Finds the record with the identifier `id`: a copy of it, or
    /// [`StoreError::NotFound`].
    pub fn find(&self, id: i32) -> (found: Result<Comic, StoreError>)
        ensures
            found == (match lookup(self@, id) {
                Some(comic) => Ok::<Comic, StoreError>(comic),
                None => Err(StoreError::NotFound),
            }),
    {
        let at: usize = self.locate(id);
        if at < self.rows.len() {
            Ok(self.rows[at].duplicate())
        } else {
            Err(StoreError::NotFound)
        }
    }

    /// Inserts a record at the time `at`. The table gives it the next
    /// identifier and stamps it with the time; the record goes behind all
    /// others. When no identifier is left, nothing changes.
    pub fn insert(&mut self, new: NewComic, at: NaiveDateTime) -> (inserted: Result<
        Comic,
        StoreError,
    >)
        requires
            old(self).wf(),
        ensures
            final(self).wf(),
            old(self).next_id() < i32::MAX ==> {
                &&& inserted == Ok::<Comic, StoreError>(new.stored(old(self).next_id() as i32, at))
                &&& final(self)@ == old(self)@.push(new.stored(old(self).next_id() as i32, at))
                &&& final(self).next_id() == old(self).next_id() + 1
            },
            old(self).next_id() == i32::MAX ==> {
                &&& inserted == Err::<Comic, StoreError>(StoreError::OutOfIdentifiers)
                &&& final(self)@ == old(self)@
                &&& final(self).next_id() == old(self).next_id()
            },
    {
        if self.next_id == i32::MAX {
            return Err(StoreError::OutOfIdentifiers);
        }
        let record = new.into_record(self.next_id, at);
        let copy = record.duplicate();
        self.rows.push(record);
        self.next_id = self.next_id + 1;
        Ok(copy)
    }

    /// Replaces every changeable field of the record with the identifier `id`
    /// at the time `at`, and returns a copy of the record as it stands then.
    /// Without such a record nothing changes.
    pub fn replace(&mut self, id: i32, data: ReplaceComic, at: NaiveDateTime) -> (replaced: Result<
        Comic,
        StoreError,
    >)
        requires
            old(self).wf(),
        ensures
            final(self).wf(),
            final(self).next_id() == old(self).next_id(),
            final(self)@ == rows_after_replace(old(self)@, id, data, at),
            replaced == (match lookup(old(self)@, id) {
                Some(comic) => Ok::<Comic, StoreError>(comic.replaced(data, at)),
                None => Err(StoreError::NotFound),
            }),
    {
        let found: usize = self.locate(id);
        if found >= self.rows.len() {
            return Err(StoreError::NotFound);
        }
        let before = self.rows.remove(found);
        let after = before.replace_with(data, at);
        let copy = after.duplicate();
        self.rows.insert(found, after);
        assert(self.rows@ == old(self).rows@.update(found as int, after));
        Ok(copy)
    }

    /// Changes the fields that `data` names of the record with the identifier
    /// `id` at the time `at`, and returns a copy of the record as it stands
    /// then. An update that names no field writes nothing and returns the
    /// record as it is; without such a record nothing changes.
    pub fn patch(&mut self, id: i32, data: UpdateComic, at: NaiveDateTime) -> (patched: Result<
        Comic,
        StoreError,
    >)
        requires
            old(self).wf(),
        ensures
            final(self).wf(),
            final(self).next_id() == old(self).next_id(),
            final(self)@ == rows_after_patch(old(self)@, id, data, at),
            patched == (match lookup(old(self)@, id) {
                Some(comic) => Ok::<Comic, StoreError>(
                    if data.changes_nothing() {
                        comic
                    } else {
                        comic.patched(data, at)
                    },
                ),
                None => Err(StoreError::NotFound),
            }),
    {
        let found: usize = self.locate(id);
        if found >= self.rows.len() {
            return Err(StoreError::NotFound);
        }
        if data.is_empty() {
            return Ok(self.rows[found].duplicate());
        }
        let before = self.rows.remove(found);
        let after = before.patch_with(data, at);
        let copy = after.duplicate();
        self.rows.insert(found, after);
        assert(self.rows@ == old(self).rows@.update(found as int, after));
        Ok(copy)
    }

    /// Deletes the record with the identifier `id` and says how many records
    /// went: one, or none where no record has the identifier.
    pub fn delete(&mut self, id: i32) -> (deleted: usize)
        requires
            old(self).wf(),
        ensures
            final(self).wf(),
            final(self).next_id() == old(self).next_id(),
            final(self)@ == rows_after_delete(old(self)@, id),
            deleted == (if lookup(old(self)@, id) is Some {
                1usize
            } else {
                0usize
            }),
    {
        let found: usize = self.locate(id);
        if found >= self.rows.len() {
            return 0;
        }
        let _ = self.rows.remove(found);
        1
    }

    /// Lists what `query` selects of the records: see [`FetchSpec::select`].
    pub fn list(&self, query: &FetchSpec) -> (listed: Vec<Comic>)
        ensures
            listed@ == query.select(self@),
    {
        query.apply(&self.rows)
    }
}

/// In a table without shared identifiers, a record is found under its own
/// identifier, wherever it stands.
pub proof fn lemma_lookup_finds(rows: Seq<Comic>, at: int)
    requires
        distinct_ids(rows),
        0 <= at < rows.len(),
    ensures
        position_of(rows, rows[at].id, 0) == at,
        lookup(rows, rows[at].id) == Some(rows[at]),
{
    lemma_position_from(rows, rows[at].id, 0, at);
}

/// The search for an identifier passes over every record that does not have
/// it.
pub proof fn lemma_position_from(rows: Seq<Comic>, id: i32, from: int, at: int)
    requires
        0 <= from <= at <= rows.len(),
        forall|k: int| from <= k < at ==> (#[trigger] rows[k]).id != id,
        at < rows.len() ==> rows[at].id == id,
    ensures
        position_of(rows, id, from) == at,
    decreases at - from,
{
    if from < at {
        lemma_position_from(rows, id, from + 1, at);
    }
}

/// Where the search for an identifier ends: at a record that has it, with
/// none before that has it, or behind the last record.
pub proof fn lemma_position_found(rows: Seq<Comic>, id: i32, from: int)
    requires
        0 <= from <= rows.len(),
    ensures
        from <= position_of(rows, id, from) <= rows.len(),
        position_of(rows, id, from) < rows.len() ==> rows[position_of(rows, id, from)].id == id,
        forall|k: int| from <= k < position_of(rows, id, from) ==> (#[trigger] rows[k]).id != id,
    decreases rows.len() - from,
{
    if from < rows.len() && rows[from].id != id {
        lemma_position_found(rows, id, from + 1);
    }
}

} // verus!
