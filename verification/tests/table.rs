use slintext::sqltmdl::{
    column_titles, render_rows, row_params, sqlite_standard_table_model_from,
    standard_table_model_from, LoadError, SqlIdTable, SqlValue, SqliteStandardTableModel,
    StandardListViewItem, TableError,
};

fn item(s: &str) -> StandardListViewItem {
    StandardListViewItem { text: s.to_string() }
}

fn texts(rows: &[Vec<StandardListViewItem>]) -> Vec<Vec<String>> {
    rows.iter().map(|r| r.iter().map(|i| i.text.clone()).collect()).collect()
}

fn names(ns: &[&str]) -> Vec<String> {
    ns.iter().map(|s| s.to_string()).collect()
}

#[test]
fn cells_are_shown_as_text() {
    let rows = vec![vec![
        SqlValue::Null,
        SqlValue::Integer(-42),
        SqlValue::Real("2.5".to_string()),
        SqlValue::Text("Grüße".as_bytes().to_vec()),
        SqlValue::Blob(vec![0, 1, 2]),
    ]];
    let table = render_rows(&rows).unwrap();
    assert_eq!(texts(&table), vec![vec!["", "-42", "2.5", "Grüße", "BLOB"]]);
}

#[test]
fn integers_are_shown_in_decimal() {
    let rows = vec![vec![
        SqlValue::Integer(0),
        SqlValue::Integer(7),
        SqlValue::Integer(1234567890),
        SqlValue::Integer(i64::MAX),
        SqlValue::Integer(i64::MIN),
    ]];
    let table = render_rows(&rows).unwrap();
    assert_eq!(
        texts(&table),
        vec![vec!["0", "7", "1234567890", "9223372036854775807", "-9223372036854775808"]]
    );
}

#[test]
fn first_invalid_text_is_named() {
    let rows = vec![
        vec![SqlValue::Integer(1), SqlValue::Text(b"ok".to_vec())],
        vec![SqlValue::Integer(2), SqlValue::Text(vec![0xff, 0xfe])],
        vec![SqlValue::Text(vec![0xc3]), SqlValue::Null],
    ];
    assert_eq!(
        render_rows(&rows).err(),
        Some(TableError::InvalidText { row: 1, column: 1 })
    );
}

#[test]
fn empty_result_gives_empty_table() {
    let (headings, table) = standard_table_model_from(&names(&["id"]), &vec![]).ok().unwrap();
    assert_eq!(headings.len(), 1);
    assert_eq!(headings[0].title, "id");
    assert!(table.is_empty());
}

#[test]
fn headings_are_the_column_names() {
    let headings = column_titles(&names(&["id", "name", "category"]));
    let titles: Vec<String> = headings.iter().map(|h| h.title.clone()).collect();
    assert_eq!(titles, vec!["id", "name", "category"]);
}

#[test]
fn standard_table_from_query_result() {
    let rows = vec![
        vec![SqlValue::Integer(1), SqlValue::Text(b"Alex".to_vec())],
        vec![SqlValue::Integer(2), SqlValue::Null],
    ];
    let (headings, table) = standard_table_model_from(&names(&["id", "name"]), &rows).ok().unwrap();
    assert_eq!(headings.len(), 2);
    assert_eq!(texts(&table), vec![vec!["1", "Alex"], vec!["2", ""]]);
}

#[test]
fn standard_table_refuses_invalid_text() {
    let rows = vec![vec![SqlValue::Text(vec![0x80])]];
    assert_eq!(
        standard_table_model_from(&names(&["x"]), &rows).err(),
        Some(TableError::InvalidText { row: 0, column: 0 })
    );
}

#[test]
fn row_params_are_the_item_texts() {
    assert_eq!(row_params(&vec![item("1"), item("Rex")]), vec!["1", "Rex"]);
}

fn model() -> SqliteStandardTableModel {
    let rows = vec![
        vec![SqlValue::Integer(1), SqlValue::Text(b"Alex".to_vec())],
        vec![SqlValue::Integer(2), SqlValue::Text(b"Sydney".to_vec())],
    ];
    let (_, model) = sqlite_standard_table_model_from(
        &names(&["id", "name"]),
        &rows,
        "SELECT id, name FROM pets".to_string(),
        "UPDATE pets SET name = ?2 WHERE id = ?1".to_string(),
    )
    .ok()
    .unwrap();
    model
}

#[test]
fn table_model_keeps_its_statements() {
    let m = model();
    assert_eq!(m.sql().all, "SELECT id, name FROM pets");
    assert_eq!(m.sql().update, "UPDATE pets SET name = ?2 WHERE id = ?1");
    assert_eq!(m.row_count(), 2);
    assert_eq!(texts(&[m.row_data(1).unwrap()]), vec![vec!["2", "Sydney"]]);
    assert!(m.row_data(2).is_none());
}

#[test]
fn table_model_from_refuses_invalid_text() {
    let rows = vec![vec![SqlValue::Integer(1)], vec![SqlValue::Blob(vec![]), SqlValue::Text(vec![0xe2, 0x82])]];
    let r = sqlite_standard_table_model_from(&names(&["a", "b"]), &rows, String::new(), String::new());
    assert_eq!(r.err(), Some(TableError::InvalidText { row: 1, column: 1 }));
}

#[test]
fn reset_takes_the_fetched_rows() {
    let mut m = model();
    let fetched: Result<Vec<Vec<SqlValue>>, String> = Ok(vec![vec![SqlValue::Integer(3)]]);
    assert!(m.reset(fetched).is_none());
    assert_eq!(m.row_count(), 1);
    assert_eq!(texts(&[m.row_data(0).unwrap()]), vec![vec!["3"]]);
}

#[test]
fn reset_keeps_the_rows_when_the_query_fails() {
    let mut m = model();
    match m.reset(Err::<Vec<Vec<SqlValue>>, String>("no such table".to_string())) {
        Some(LoadError::Database(e)) => assert_eq!(e, "no such table"),
        _ => panic!("expected a database error"),
    }
    assert_eq!(m.row_count(), 2);
}

#[test]
fn reset_keeps_the_rows_when_the_text_is_invalid() {
    let mut m = model();
    let fetched: Result<Vec<Vec<SqlValue>>, String> = Ok(vec![vec![SqlValue::Text(vec![0xff])]]);
    match m.reset(fetched) {
        Some(LoadError::Table(e)) => assert_eq!(e, TableError::InvalidText { row: 0, column: 0 }),
        _ => panic!("expected a table error"),
    }
    assert_eq!(m.row_count(), 2);
}

#[test]
fn set_row_data_writes_then_reloads() {
    let mut m = model();
    let (failed, reload) = m.set_row_data::<String>(
        0,
        vec![item("1"), item("Rex")],
        Ok(1),
        Err("database is locked".to_string()),
    );
    assert!(failed.is_none());
    assert!(matches!(reload, Some(LoadError::Database(_))));
    assert_eq!(texts(&[m.row_data(0).unwrap()]), vec![vec!["1", "Rex"]]);

    let (failed, reload) = m.set_row_data::<String>(
        1,
        vec![item("2"), item("Tom")],
        Ok(1),
        Ok(vec![vec![SqlValue::Integer(9), SqlValue::Text(b"Fresh".to_vec())]]),
    );
    assert!(failed.is_none());
    assert!(reload.is_none());
    assert_eq!(texts(&[m.row_data(0).unwrap()]), vec![vec!["9", "Fresh"]]);
    assert_eq!(m.row_count(), 1);
}

#[test]
fn set_row_data_reports_a_failed_write() {
    let mut m = model();
    let (failed, reload) = m.set_row_data::<String>(
        7,
        vec![item("x")],
        Err("constraint failed".to_string()),
        Err("still locked".to_string()),
    );
    assert_eq!(failed, Some("constraint failed".to_string()));
    assert!(reload.is_some());
    assert_eq!(m.row_count(), 2);
    assert_eq!(texts(&[m.row_data(0).unwrap()]), vec![vec!["1", "Alex"]]);
}

#[test]
fn execute_hands_back_its_outcome_and_reloads() {
    let mut m = model();
    let (outcome, reload) = m.execute::<String>(Ok(3), Ok(vec![]));
    assert_eq!(outcome, Ok(3));
    assert!(reload.is_none());
    assert_eq!(m.row_count(), 0);
}

#[test]
fn new_table_model_holds_the_given_rows() {
    let m = SqliteStandardTableModel::new(
        vec![vec![item("a")]],
        SqlIdTable::new("SELECT a FROM t".to_string(), "UPDATE t SET a = ?1".to_string()),
    );
    assert_eq!(m.row_count(), 1);
    assert_eq!(m.sql().all, "SELECT a FROM t");
}
