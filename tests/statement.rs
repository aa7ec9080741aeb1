use garman::entry::EntryBuilder;
use garman::store::{
    clear_statement, delete_statement, insert_statement, list_statement, lookup_statement,
    schema_statement,
};

#[test]
fn schema_statement_names_every_column() {
    let sql = schema_statement();
    assert!(sql.starts_with("CREATE TABLE IF NOT EXISTS \"store\""));
    for col in ["id", "name", "path", "project_name", "language", "preserve", "created_at"] {
        assert!(sql.contains(&format!("\"{}\"", col)), "{} missing from {}", col, sql);
    }
    assert!(sql.contains("AUTOINCREMENT"));
}

#[test]
fn insert_statement_writes_encoded_values() {
    let eb = EntryBuilder::new("x", "/a", "p", "go", Some(vec!["b".to_string(), "c".to_string()]));
    let sql = insert_statement(&eb, "2024-01-02 03:04:05 +01:00");
    assert!(sql.starts_with("INSERT INTO \"store\""));
    assert!(sql.contains("'x'"));
    assert!(sql.contains("'/a'"));
    assert!(sql.contains("'bc'"));
    assert!(sql.contains("'2024-01-02 03:04:05 +01:00'"));
    assert!(!sql.contains("\"id\""));
}

#[test]
fn lookup_statement_filters_on_path() {
    let sql = lookup_statement("/a");
    assert!(sql.contains("WHERE \"path\" = '/a'"), "{}", sql);
    assert!(sql.contains("LIMIT 1"));
}

#[test]
fn list_statement_orders_by_id_descending() {
    assert!(list_statement().contains("ORDER BY \"id\" DESC"));
}

#[test]
fn delete_statements_target_the_table() {
    assert!(delete_statement("/a").starts_with("DELETE FROM \"store\" WHERE \"path\" = '/a'"));
    assert_eq!(clear_statement(), "DELETE FROM \"store\"");
}
