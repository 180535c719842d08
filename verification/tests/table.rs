use simplesql::table::{RawCell, RawData, RawRow, RawValue, Table};

fn cell(name: &str, value: RawValue) -> RawCell {
    RawCell { name: name.to_string(), value }
}

fn text(s: &str) -> RawValue {
    RawValue::Text(s.to_string())
}

#[test]
fn null_is_rendered_as_the_word_null() {
    let rows = vec![vec![cell("id", text("1")), cell("name", RawValue::Null)]];
    let t = Table::from_raw_row(RawRow::MySql(rows), RawData::MySql { rows_affected: 0, last_insert_id: 0 });
    assert_eq!(t.headers, vec!["id", "name"]);
    assert_eq!(t.rows, vec![vec!["1", "NULL"]]);
    assert_ne!(t.rows[0][1], "");
}

#[test]
fn unreadable_and_missing_columns_are_null() {
    let rows = vec![
        vec![cell("id", text("1")), cell("n", RawValue::Unreadable), cell("c", text(""))],
        vec![cell("id", text("2"))],
        vec![cell("c", text("x")), cell("other", text("y")), cell("id", RawValue::Null)],
    ];
    let t = Table::from_raw_row(RawRow::Postgres(rows), RawData::Postgres { rows_affected: 3 });
    assert_eq!(t.headers, vec!["id", "n", "c"]);
    assert_eq!(
        t.rows,
        vec![vec!["1", "NULL", ""], vec!["2", "NULL", "NULL"], vec!["NULL", "NULL", "x"]]
    );
    assert_eq!(t.raw_data, Some(RawData::Postgres { rows_affected: 3 }));
}

#[test]
fn duplicate_column_names_read_the_last_column() {
    let rows = vec![vec![cell("a", text("first")), cell("b", text("mid")), cell("a", text("last"))]];
    let t = Table::from_raw_row(
        RawRow::Any(rows),
        RawData::Any { rows_affected: 1, last_insert_id: Some(9) },
    );
    assert_eq!(t.headers, vec!["a", "b", "a"]);
    assert_eq!(t.rows, vec![vec!["last", "mid", "last"]]);
    assert_eq!(t.raw_data, Some(RawData::Any { rows_affected: 1, last_insert_id: Some(9) }));
}

#[test]
fn no_rows_give_no_headers() {
    let t = Table::from_raw_row(RawRow::Any(Vec::new()), RawData::Any { rows_affected: 0, last_insert_id: None });
    assert!(t.headers.is_empty());
    assert!(t.rows.is_empty());
    assert!(t.is_empty());
    assert!(t.raw_data.is_some());
}

#[test]
fn rows_without_columns_give_empty_rows() {
    let t = Table::from_raw_row(
        RawRow::MySql(vec![Vec::new(), Vec::new()]),
        RawData::MySql { rows_affected: 2, last_insert_id: 5 },
    );
    assert!(t.headers.is_empty());
    assert_eq!(t.rows.len(), 2);
    assert!(t.rows[0].is_empty() && t.rows[1].is_empty());
    assert!(!t.is_empty());
}

#[test]
fn the_three_drivers_give_the_same_table() {
    let make = || vec![vec![cell("k", text("v")), cell("z", RawValue::Null)], vec![cell("k", text("w"))]];
    let a = Table::from_raw_row(RawRow::MySql(make()), RawData::Postgres { rows_affected: 0 });
    let b = Table::from_raw_row(RawRow::Postgres(make()), RawData::Postgres { rows_affected: 0 });
    let c = Table::from_raw_row(RawRow::Any(make()), RawData::Postgres { rows_affected: 0 });
    assert_eq!(a.headers, b.headers);
    assert_eq!(b.headers, c.headers);
    assert_eq!(a.rows, b.rows);
    assert_eq!(b.rows, c.rows);
    assert_eq!(a.rows, vec![vec!["v", "NULL"], vec!["w", "NULL"]]);
}

#[test]
fn new_and_default_tables_are_empty() {
    let t = Table::new();
    assert!(t.headers.is_empty() && t.rows.is_empty() && t.raw_data.is_none());
    assert!(t.is_empty());
    let d = Table::default();
    assert!(d.headers.is_empty() && d.rows.is_empty() && d.raw_data.is_none());
}

#[test]
fn clone_drops_the_summary() {
    let rows = vec![vec![cell("id", text("1")), cell("name", text("x"))]];
    let t = Table::from_raw_row(RawRow::MySql(rows), RawData::MySql { rows_affected: 1, last_insert_id: 2 });
    let c = t.clone();
    assert_eq!(c.headers, t.headers);
    assert_eq!(c.rows, t.rows);
    assert_eq!(c.raw_data, None);
    assert!(t.raw_data.is_some());
}
