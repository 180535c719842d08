use simplesql::layout::{column_width, column_widths, fit_columns, truncate_cell, ELLIPSIS};
use simplesql::table::Table;

fn table_of(headers: &[&str], rows: &[&[&str]]) -> Table {
    Table {
        headers: headers.iter().map(|s| s.to_string()).collect(),
        rows: rows.iter().map(|r| r.iter().map(|s| s.to_string()).collect()).collect(),
        raw_data: None,
    }
}

#[test]
fn column_width_formula() {
    // clamp(max(4, 10) + 2, 5, 30) = 12
    assert_eq!(column_width(4, 10, 2, 5, 30), 12);
    // the header is the longer one
    assert_eq!(column_width(10, 4, 2, 5, 30), 12);
    // below the minimum
    assert_eq!(column_width(1, 1, 1, 5, 30), 5);
    // above the maximum
    assert_eq!(column_width(4, 100, 2, 5, 30), 30);
    assert_eq!(column_width(0, 0, 0, 0, 0), 0);
    assert_eq!(column_width(28, 0, 2, 5, 30), 30);
    assert_eq!(column_width(27, 0, 2, 5, 30), 29);
    assert_eq!(column_width(usize::MAX, usize::MAX, usize::MAX, 3, usize::MAX), usize::MAX);
    assert_eq!(column_width(usize::MAX, 0, usize::MAX, 3, 40), 40);
}

#[test]
fn column_widths_sample_a_prefix_of_rows() {
    let t = table_of(
        &["id", "name"],
        &[&["1", "ab"], &["22", "abcdef"], &["333333333", "x"], &["4", "a very long name indeed"]],
    );
    assert_eq!(column_widths(&t, 2, 2, 3, 40), vec![4, 8]);
    assert_eq!(column_widths(&t, 3, 2, 3, 40), vec![11, 8]);
    assert_eq!(column_widths(&t, 100, 2, 3, 40), vec![11, 25]);
    assert_eq!(column_widths(&t, 100, 2, 3, 12), vec![11, 12]);
    assert_eq!(column_widths(&t, 0, 2, 3, 40), vec![4, 6]);
    assert_eq!(column_widths(&t, 0, 0, 3, 40), vec![3, 4]);
}

#[test]
fn column_widths_count_characters_and_tolerate_short_rows() {
    let t = table_of(&["a", "b", "c"], &[&["gr\u{fc}\u{df}e"], &["x", "yy"]]);
    assert_eq!(column_widths(&t, 10, 1, 1, 20), vec![6, 3, 2]);
    let empty = table_of(&[], &[&["x"]]);
    assert!(column_widths(&empty, 10, 1, 1, 20).is_empty());
}

#[test]
fn truncate_cell_values() {
    assert_eq!(truncate_cell("hello", 10), "hello");
    assert_eq!(truncate_cell("hello", 5), "hello");
    assert_eq!(truncate_cell("hello", 4), "hel\u{2026}");
    assert_eq!(truncate_cell("hello", 1), "\u{2026}");
    assert_eq!(truncate_cell("hello", 0), "");
    assert_eq!(truncate_cell("", 0), "");
    assert_eq!(truncate_cell("", 3), "");
    assert_eq!(truncate_cell("gr\u{fc}\u{df}e dich", 4), "gr\u{fc}\u{2026}");
    assert_eq!(ELLIPSIS, '\u{2026}');
}

#[test]
fn truncated_cells_fit_their_column() {
    let text = "The quick brown fox";
    for width in 0..25usize {
        let cut = truncate_cell(text, width);
        assert!(cut.chars().count() <= width);
        if width >= text.chars().count() {
            assert_eq!(cut, text);
        } else {
            assert_eq!(cut.chars().count(), width);
        }
    }
}

#[test]
fn fit_columns_takes_what_fits() {
    let widths = vec![10usize, 20, 30, 5];
    // 10 + 1 + 20 = 31 fits in 31, the third column does not
    assert_eq!(fit_columns(&widths, 0, 31, 1), (0, 2));
    assert_eq!(fit_columns(&widths, 0, 30, 1), (0, 1));
    assert_eq!(fit_columns(&widths, 0, 62, 1), (0, 3));
    assert_eq!(fit_columns(&widths, 0, 68, 1), (0, 4));
    assert_eq!(fit_columns(&widths, 0, 1000, 1), (0, 4));
    assert_eq!(fit_columns(&widths, 1, 57, 1), (1, 4));
    assert_eq!(fit_columns(&widths, 1, 56, 1), (1, 3));
    assert_eq!(fit_columns(&widths, 1, 50, 1), (1, 2));
    assert_eq!(fit_columns(&widths, 3, 100, 1), (3, 4));
}

#[test]
fn fit_columns_always_shows_one_column() {
    let widths = vec![10usize, 20];
    assert_eq!(fit_columns(&widths, 0, 0, 1), (0, 1));
    assert_eq!(fit_columns(&widths, 1, 3, 1), (1, 2));
    assert_eq!(fit_columns(&widths, 0, 9, 0), (0, 1));
}

#[test]
fn fit_columns_beyond_the_table_is_empty() {
    let widths = vec![10usize, 20];
    assert_eq!(fit_columns(&widths, 2, 100, 1), (2, 2));
    assert_eq!(fit_columns(&widths, 7, 100, 1), (2, 2));
    assert_eq!(fit_columns(&Vec::new(), 0, 100, 1), (0, 0));
}

#[test]
fn fit_columns_with_huge_widths() {
    let widths = vec![usize::MAX, usize::MAX, 1];
    assert_eq!(fit_columns(&widths, 0, usize::MAX, 1), (0, 1));
    assert_eq!(fit_columns(&widths, 0, usize::MAX, 0), (0, 1));
    assert_eq!(fit_columns(&vec![usize::MAX - 1, 1, 1], 0, usize::MAX, 0), (0, 2));
    assert_eq!(fit_columns(&vec![1, 1], 0, usize::MAX, usize::MAX), (0, 1));
}
