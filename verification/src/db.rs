//! The storage rules the persistence layer follows: its error type and
//! messages, when a write counts as "not found", which schema migrations are
//! still to run, and how stored day lists are read back.
use vstd::prelude::*;
use crate::codes::{day_from_code, day_from_db};
use crate::recurrence::DayOfWeek;

verus! {

/// What can go wrong in the storage layer.
#[derive(Debug, Clone, PartialEq, Eq)]
pub enum DbError {
    /// The database driver reported an error; the text is its message.
    Sqlite(String),
    /// No record has the requested id.
    NotFound,
    /// A schema migration failed.
    Migration(String),
}

/// The result of a storage operation.
pub type DbResult<T> = Result<T, DbError>;

impl DbError {
    /// The message shown for this error.
    pub open spec fn spec_message(&self) -> Seq<char> {
        match self {
            DbError::Sqlite(e) => "database error: "@ + e@,
            DbError::NotFound => "record not found"@,
            DbError::Migration(m) => "migration failed: "@ + m@,
        }
    }

    /// The message shown for this error (what the error displays as).
    pub fn message(&self) -> (r: String)
        ensures
            r@ == self.spec_message(),
    {
        match self {
            DbError::Sqlite(e) => {
                let mut s = "database error: ".to_string();
                s.append(e.as_str());
                s
            },
            DbError::NotFound => "record not found".to_string(),
            DbError::Migration(m) => {
                let mut s = "migration failed: ".to_string();
                s.append(m.as_str());
                s
            },
        }
    }

    /// The error for a failure the database driver reported: a query that
    /// returned no rows means the record was not found; anything else keeps
    /// the driver's message.
    pub fn from_driver_error(no_rows: bool, message: String) -> (r: DbError)
        ensures
            no_rows ==> r == DbError::NotFound,
            !no_rows ==> r == DbError::Sqlite(message),
    {
        if no_rows {
            DbError::NotFound
        } else {
            DbError::Sqlite(message)
        }
    }
}

/// An update or delete that touched no row found nothing to change.
pub fn require_found(affected: usize) -> (r: DbResult<()>)
    ensures
        affected == 0 ==> r == Err::<(), DbError>(DbError::NotFound),
        affected > 0 ==> r is Ok,
{
    if affected == 0 {
        Err(DbError::NotFound)
    } else {
        Ok(())
    }
}

/// The first schema version above `current` that a list of `count`
/// migrations (versions `1..=count`) still has to reach.
pub open spec fn first_pending(current: i64, count: usize) -> int {
    if current < 0 {
        1
    } else if current >= count {
        count + 1
    } else {
        current + 1
    }
}

/// The schema versions to migrate to, in order, when the database is at
/// `current` and migration `k` (counting from 1) brings it to version `k`:
/// every version in `1..=count` above `current`.
pub fn pending_migrations(current: i64, count: usize) -> (r: Vec<i64>)
    requires
        count < i64::MAX,
    ensures
        r@.len() == count + 1 - first_pending(current, count),
        forall|k: int| 0 <= k < r@.len() ==> #[trigger] r@[k] == first_pending(current, count) + k,
{
    let mut r: Vec<i64> = Vec::new();
    let mut index: usize = 0;
    while index < count
        invariant
            count < i64::MAX,
            0 <= index <= count,
            r@.len() == (if first_pending(current, count) <= index { index + 1 - first_pending(current, count) } else { 0 }),
            forall|k: int| 0 <= k < r@.len() ==> #[trigger] r@[k] == first_pending(current, count) + k,
        decreases count - index,
    {
        let target = (index + 1) as i64;
        if current < target {
            r.push(target);
        }
        index += 1;
    }
    r
}

/// The days stored for a rule, read back in order; text that names no day
/// is skipped.
pub open spec fn days_from_codes(values: Seq<Seq<char>>) -> Seq<DayOfWeek>
    decreases values.len(),
{
    if values.len() == 0 {
        Seq::empty()
    } else {
        let rest = days_from_codes(values.drop_last());
        match day_from_code(values.last()) {
            Some(d) => rest.push(d),
            None => rest,
        }
    }
}

/// Reads back the days stored for a rule, skipping text that names no day.
pub fn decode_days(values: &Vec<String>) -> (r: Vec<DayOfWeek>)
    ensures
        r@ == days_from_codes(values@.map_values(|v: String| v@)),
{
    let ghost texts = values@.map_values(|v: String| v@);
    let mut r: Vec<DayOfWeek> = Vec::new();
    let mut i: usize = 0;
    while i < values.len()
        invariant
            texts == values@.map_values(|v: String| v@),
            0 <= i <= values@.len(),
            r@ == days_from_codes(texts.take(i as int)),
        decreases values@.len() - i,
    {
        proof {
            assert(texts.take(i as int + 1).drop_last() =~= texts.take(i as int));
        }
        match day_from_db(values[i].as_str()) {
            Some(d) => r.push(d),
            None => {},
        }
        i += 1;
    }
    proof {
        assert(texts.take(i as int) =~= texts);
    }
    r
}

} // verus!
