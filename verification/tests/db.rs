use explorer::db::{decode_days, pending_migrations, require_found, DbError};
use explorer::recurrence::DayOfWeek;

#[test]
fn messages_match_each_error() {
    assert_eq!(DbError::Sqlite("disk full".to_string()).message(), "database error: disk full");
    assert_eq!(DbError::NotFound.message(), "record not found");
    assert_eq!(DbError::Migration("bad sql".to_string()).message(), "migration failed: bad sql");
}

#[test]
fn driver_errors_map_no_rows_to_not_found() {
    assert_eq!(DbError::from_driver_error(true, "Query returned no rows".to_string()), DbError::NotFound);
    assert_eq!(
        DbError::from_driver_error(false, "UNIQUE constraint failed".to_string()),
        DbError::Sqlite("UNIQUE constraint failed".to_string())
    );
}

#[test]
fn zero_affected_rows_is_not_found() {
    assert_eq!(require_found(0), Err(DbError::NotFound));
    assert_eq!(require_found(1), Ok(()));
    assert_eq!(require_found(7), Ok(()));
}

#[test]
fn pending_migrations_are_the_versions_above_current() {
    assert_eq!(pending_migrations(0, 1), vec![1]);
    assert_eq!(pending_migrations(1, 1), Vec::<i64>::new());
    assert_eq!(pending_migrations(2, 5), vec![3, 4, 5]);
    assert_eq!(pending_migrations(-4, 3), vec![1, 2, 3]);
    assert_eq!(pending_migrations(9, 3), Vec::<i64>::new());
    assert_eq!(pending_migrations(0, 0), Vec::<i64>::new());
}

#[test]
fn decode_days_skips_unknown_text() {
    let stored = vec!["monday".to_string(), "someday".to_string(), "friday".to_string(), "Monday".to_string()];
    assert_eq!(decode_days(&stored), vec![DayOfWeek::Monday, DayOfWeek::Friday]);
    assert!(decode_days(&Vec::new()).is_empty());
}
