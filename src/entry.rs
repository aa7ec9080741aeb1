//! The stored record, the candidate that an insert starts from, and how a
//! row read from the table becomes a record.
use vstd::prelude::*;

use crate::clock::{read_created_at, resolved, parsed_timestamp, Timestamp};

verus! {

/// One tracked path with its metadata, as stored.
#[derive(Debug, Clone)]
pub struct Entry {
    pub id: i32,
    pub name: String,
    pub path: String,
    pub project_name: String,
    pub language: String,
    /// The encoded preserve list.
    pub preserve: String,
    /// When the path was last (re)inserted.
    pub created_at: Timestamp,
}

/// A record to insert: everything but the id and the time stamp, which the
/// store assigns.
#[derive(Debug, Clone)]
pub struct EntryBuilder {
    pub name: String,
    pub path: String,
    pub project_name: String,
    pub language: String,
    pub preserve: Vec<String>,
}

/// A row as read from the table, its time stamp still as text.
#[derive(Debug, Clone)]
pub struct StoredRow {
    pub id: i32,
    pub name: String,
    pub path: String,
    pub project_name: String,
    pub language: String,
    pub preserve: String,
    pub created_at: String,
}

impl EntryBuilder {
    /// Builds a candidate record; a missing preserve list is an empty one.
    pub fn new(
        name: &str,
        path: &str,
        project_name: &str,
        language: &str,
        preserve: Option<Vec<String>>,
    ) -> (r: Self)
        ensures
            r.name@ == name@,
            r.path@ == path@,
            r.project_name@ == project_name@,
            r.language@ == language@,
            r.preserve@ == (match preserve {
                Some(p) => p@,
                None => Seq::empty(),
            }),
    {
        let kept = match preserve {
            Some(p) => p,
            None => Vec::new(),
        };
        EntryBuilder {
            name: name.to_string(),
            path: path.to_string(),
            project_name: project_name.to_string(),
            language: language.to_string(),
            preserve: kept,
        }
    }
}

/// `e` is the record read from `row`, with `now` standing in for a time
/// stamp that cannot be read.
pub open spec fn entry_of_row(e: Entry, row: StoredRow, now: Timestamp) -> bool {
    &&& e.id == row.id
    &&& e.name@ == row.name@
    &&& e.path@ == row.path@
    &&& e.project_name@ == row.project_name@
    &&& e.language@ == row.language@
    &&& e.preserve@ == row.preserve@
    &&& e.created_at == resolved(parsed_timestamp(row.created_at@), now)
}

/// Turns a row into a record, substituting `now` for an unreadable time stamp.
pub fn entry_from_row(row: &StoredRow, now: Timestamp) -> (r: Entry)
    ensures
        entry_of_row(r, *row, now),
        now.wf() ==> r.created_at.wf(),
{
    let created_at = read_created_at(row.created_at.as_str(), now);
    Entry {
        id: row.id,
        name: row.name.clone(),
        path: row.path.clone(),
        project_name: row.project_name.clone(),
        language: row.language.clone(),
        preserve: row.preserve.clone(),
        created_at,
    }
}

/// Turns rows into records, one for one and in the same order.
pub fn entries_from_rows(rows: Vec<StoredRow>, now: Timestamp) -> (r: Vec<Entry>)
    ensures
        r@.len() == rows@.len(),
        forall|i: int| 0 <= i < rows@.len() ==> entry_of_row(#[trigger] r@[i], rows@[i], now),
        now.wf() ==> forall|i: int| 0 <= i < r@.len() ==> (#[trigger] r@[i]).created_at.wf(),
{
    let mut out: Vec<Entry> = Vec::new();
    let mut i: usize = 0;
    while i < rows.len()
        invariant
            i <= rows@.len(),
            out@.len() == i,
            forall|k: int| 0 <= k < i ==> entry_of_row(#[trigger] out@[k], rows@[k], now),
            now.wf() ==> forall|k: int| 0 <= k < i ==> (#[trigger] out@[k]).created_at.wf(),
        decreases rows@.len() - i,
    {
        let e = entry_from_row(&rows[i], now);
        out.push(e);
        i = i + 1;
    }
    out
}

/// Some row of `rows` lies at `path`.
pub open spec fn has_path(rows: Seq<StoredRow>, path: Seq<char>) -> bool {
    exists|k: int| 0 <= k < rows.len() && (#[trigger] rows[k]).path@ == path
}

/// `e` is the record of the first row of `rows` that lies at `path`.
pub open spec fn first_entry_at(e: Entry, rows: Seq<StoredRow>, path: Seq<char>, now: Timestamp) -> bool {
    exists|k: int|
        0 <= k < rows.len() && rows[k].path@ == path && (forall|j: int|
            0 <= j < k ==> (#[trigger] rows[j]).path@ != path) && entry_of_row(
            e,
            #[trigger] rows[k],
            now,
        )
}

/// The record of the first row at `path`, or `None` when no row lies there.
pub fn first_at_path(rows: &Vec<StoredRow>, path: &str, now: Timestamp) -> (r: Option<Entry>)
    ensures
        r is None <==> !has_path(rows@, path@),
        r matches Some(e) ==> first_entry_at(e, rows@, path@, now),
        r matches Some(e) ==> e.path@ == path@,
        now.wf() ==> (r matches Some(e) ==> e.created_at.wf()),
{
    let key = path.to_string();
    let mut i: usize = 0;
    while i < rows.len()
        invariant
            i <= rows@.len(),
            key@ == path@,
            forall|j: int| 0 <= j < i ==> (#[trigger] rows@[j]).path@ != path@,
        decreases rows@.len() - i,
    {
        if rows[i].path == key {
            let e = entry_from_row(&rows[i], now);
            return Some(e);
        }
        i = i + 1;
    }
    None
}

} // verus!
