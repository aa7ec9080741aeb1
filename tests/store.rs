use garman::entry::EntryBuilder;
use garman::store::{
    connect_to_db, delete_all, delete_entry, does_exist, get_all, insert_into_db, prep_db,
    DbError,
};
use rusqlite::Connection;

fn fresh() -> Connection {
    let conn = connect_to_db(":memory:").unwrap();
    prep_db(&conn).unwrap();
    conn
}

fn builder(name: &str, path: &str, project: &str, lang: &str) -> EntryBuilder {
    EntryBuilder::new(name, path, project, lang, None)
}

#[test]
fn schema_creation_is_idempotent() {
    let conn = fresh();
    insert_into_db(&conn, builder("a", "/a", "p", "go")).unwrap();
    assert!(prep_db(&conn).is_ok());
    assert_eq!(get_all(&conn).unwrap().len(), 1);
}

#[test]
fn reading_without_schema_is_storage_failure() {
    let conn = connect_to_db(":memory:").unwrap();
    assert!(matches!(get_all(&conn), Err(DbError::StorageFailure(_))));
}

#[test]
fn same_path_keeps_one_record_with_last_fields() {
    let conn = fresh();
    insert_into_db(&conn, builder("one", "/a", "p1", "go")).unwrap();
    insert_into_db(&conn, builder("two", "/a", "p2", "rust")).unwrap();
    insert_into_db(&conn, builder("three", "/a", "p3", "c")).unwrap();
    let all = get_all(&conn).unwrap();
    let at_a: Vec<_> = all.iter().filter(|e| e.path == "/a").collect();
    assert_eq!(at_a.len(), 1);
    assert_eq!(at_a[0].name, "three");
    assert_eq!(at_a[0].project_name, "p3");
    assert_eq!(at_a[0].language, "c");
}

#[test]
fn later_insert_has_greater_id() {
    let conn = fresh();
    let a = insert_into_db(&conn, builder("a", "/a", "p", "go")).unwrap();
    let b = insert_into_db(&conn, builder("b", "/b", "p", "go")).unwrap();
    assert!(b.id > a.id);
    let a2 = insert_into_db(&conn, builder("a", "/a", "p", "go")).unwrap();
    assert!(a2.id > b.id);
}

#[test]
fn inserted_fields_read_back() {
    let conn = fresh();
    insert_into_db(&conn, builder("x", "/a", "p", "go")).unwrap();
    let e = does_exist(&conn, "/a").unwrap();
    assert_eq!(e.name, "x");
    assert_eq!(e.path, "/a");
    assert_eq!(e.project_name, "p");
    assert_eq!(e.language, "go");
}

#[test]
fn insert_encodes_preserve_list() {
    let conn = fresh();
    let eb = EntryBuilder::new("x", "/a", "p", "go", Some(vec!["a".to_string(), "b".to_string()]));
    let e = insert_into_db(&conn, eb).unwrap();
    assert_eq!(e.preserve, "ab");
}

#[test]
fn untracked_path_is_not_found() {
    let conn = fresh();
    insert_into_db(&conn, builder("x", "/a", "p", "go")).unwrap();
    assert!(matches!(does_exist(&conn, "/never"), Err(DbError::NotFound)));
}

#[test]
fn second_delete_removes_nothing() {
    let conn = fresh();
    insert_into_db(&conn, builder("x", "/a", "p", "go")).unwrap();
    assert_eq!(delete_entry(&conn, "/a").unwrap(), 1);
    assert_eq!(delete_entry(&conn, "/a").unwrap(), 0);
    assert!(matches!(does_exist(&conn, "/a"), Err(DbError::NotFound)));
}

#[test]
fn delete_all_clears_store() {
    let conn = fresh();
    for p in ["/a", "/b", "/c"] {
        insert_into_db(&conn, builder("x", p, "p", "go")).unwrap();
    }
    assert_eq!(delete_all(&conn).unwrap(), 3);
    assert!(get_all(&conn).unwrap().is_empty());
    assert_eq!(delete_all(&conn).unwrap(), 0);
}

#[test]
fn list_is_newest_first() {
    let conn = fresh();
    for p in ["/a", "/b", "/c"] {
        insert_into_db(&conn, builder("x", p, "p", "go")).unwrap();
    }
    insert_into_db(&conn, builder("x", "/a", "p", "go")).unwrap();
    let paths: Vec<String> = get_all(&conn).unwrap().into_iter().map(|e| e.path).collect();
    assert_eq!(paths, vec!["/a", "/c", "/b"]);
}

#[test]
fn empty_store_lists_nothing() {
    let conn = fresh();
    assert!(get_all(&conn).unwrap().is_empty());
}

#[test]
fn stored_time_stamp_reads_back() {
    let conn = fresh();
    let e = insert_into_db(&conn, builder("x", "/a", "p", "go")).unwrap();
    conn.execute("UPDATE store SET created_at = '2024-01-02 03:04:05 +01:00'", []).unwrap();
    let again = does_exist(&conn, "/a").unwrap();
    assert_eq!(again.id, e.id);
    assert_eq!(again.created_at.secs, 1704161045);
    assert_eq!(again.created_at.offset_secs, 3600);
}

#[test]
fn unreadable_stored_time_stamp_becomes_now() {
    let conn = fresh();
    insert_into_db(&conn, builder("x", "/a", "p", "go")).unwrap();
    conn.execute("UPDATE store SET created_at = 'garbage'", []).unwrap();
    let before = std::time::SystemTime::now()
        .duration_since(std::time::UNIX_EPOCH)
        .unwrap()
        .as_secs() as i64;
    let e = does_exist(&conn, "/a").unwrap();
    assert!(e.created_at.secs >= before);
    assert!(e.created_at.secs <= before + 60);
}
