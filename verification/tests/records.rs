use slintext::sqlmdl::{Next, SqlIdTable, SqliteModel};

static INITIALLY: [&str; 1] = ["CREATE TABLE IF NOT EXISTS pets (id TEXT, name TEXT)"];
static DELKEY: [&str; 1] = ["id"];

fn table() -> SqlIdTable<'static> {
    SqlIdTable::new(
        &INITIALLY,
        "INSERT INTO pets (id, name) VALUES (:id, :name)",
        "SELECT id, name FROM pets WHERE id = ?1",
        "SELECT id, name FROM pets",
        "UPDATE pets SET name = :name WHERE id = :id",
        "DELETE FROM pets WHERE id = :id",
        &DELKEY,
    )
}

#[test]
fn statements_are_kept() {
    let t = table();
    assert_eq!(t.initially, &INITIALLY);
    assert_eq!(t.create, "INSERT INTO pets (id, name) VALUES (:id, :name)");
    assert_eq!(t.read, "SELECT id, name FROM pets WHERE id = ?1");
    assert_eq!(t.all, "SELECT id, name FROM pets");
    assert_eq!(t.update, "UPDATE pets SET name = :name WHERE id = :id");
    assert_eq!(t.delete, "DELETE FROM pets WHERE id = :id");
    assert_eq!(t.delkey, &DELKEY);
}

#[test]
fn new_model_is_empty() {
    let m: SqliteModel<String> = SqliteModel::new(table());
    assert_eq!(m.row_count(), 0);
    assert_eq!(m.row_data(0), None);
    assert_eq!(m.sql().all, "SELECT id, name FROM pets");
}

#[test]
fn reset_lists_the_records() {
    let mut m: SqliteModel<String> = SqliteModel::new(table());
    assert_eq!(m.reset::<String>(Ok(vec!["a".to_string(), "b".to_string()])), None);
    assert_eq!(m.row_count(), 2);
    assert_eq!(m.row_data(1), Some("b".to_string()));
    assert_eq!(m.reset(Err("gone".to_string())), Some("gone".to_string()));
    assert_eq!(m.row_count(), 2);
}

#[test]
fn set_row_data_takes_effect_only_when_written() {
    let mut m: SqliteModel<String> = SqliteModel::new(table());
    m.reset::<String>(Ok(vec!["a".to_string(), "b".to_string()]));
    assert_eq!(m.set_row_data::<String>(0, "c".to_string(), Ok(())), None);
    assert_eq!(m.row_data(0), Some("c".to_string()));
    assert_eq!(
        m.set_row_data(1, "d".to_string(), Err("readonly".to_string())),
        Some("readonly".to_string())
    );
    assert_eq!(m.row_data(1), Some("b".to_string()));
    assert_eq!(m.row_count(), 2);
}

#[test]
fn add_reloads_only_after_a_stored_record() {
    let m: SqliteModel<String> = SqliteModel::new(table());
    assert!(matches!(m.add::<String>(Ok(())), Next::Reload));
    match m.add(Err("UNIQUE constraint failed".to_string())) {
        Next::Report(e) => assert_eq!(e, "UNIQUE constraint failed"),
        Next::Reload => panic!("a failed insert is reported"),
    }
}

#[test]
fn del_value_always_reloads() {
    let m: SqliteModel<String> = SqliteModel::new(table());
    assert!(matches!(m.del_value::<String>(Ok(1)), Next::Reload));
    assert!(matches!(m.del_value(Err("locked".to_string())), Next::Reload));
}

#[test]
fn del_row_deletes_only_an_existing_row() {
    let mut m: SqliteModel<String> = SqliteModel::new(table());
    m.reset::<String>(Ok(vec!["a".to_string(), "b".to_string()]));
    assert_eq!(m.del_row(1), Some("b".to_string()));
    assert_eq!(m.del_row(2), None);
    assert!(matches!(m.row_deleted::<String>(Ok(1)), Next::Reload));
    match m.row_deleted(Err("no such row".to_string())) {
        Next::Report(e) => assert_eq!(e, "no such row"),
        Next::Reload => panic!("a failed delete is reported"),
    }
}
