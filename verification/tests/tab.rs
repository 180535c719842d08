use simplesql::tab::Tab;

#[test]
fn test_tab_index_conversion() {
    assert_eq!(Tab::from_index(0), Tab::SqlEditor);
    assert_eq!(Tab::from_index(1), Tab::TableView);
    assert_eq!(Tab::SqlEditor.to_index(), 0);
    assert_eq!(Tab::TableView.to_index(), 1);
}

#[test]
fn tab_index_round_trip_for_all_tabs() {
    for i in 0..3usize {
        assert_eq!(Tab::from_index(i).to_index(), i);
    }
    assert_eq!(Tab::from_index(2), Tab::LogViewer);
    assert_eq!(Tab::LogViewer.to_index(), 2);
}

#[test]
fn tab_next_cycles() {
    assert_eq!(Tab::SqlEditor.next(), Tab::TableView);
    assert_eq!(Tab::TableView.next(), Tab::LogViewer);
    assert_eq!(Tab::LogViewer.next(), Tab::SqlEditor);
    for t in [Tab::SqlEditor, Tab::TableView, Tab::LogViewer] {
        assert_eq!(t.next().next().next(), t);
    }
}

#[test]
fn tab_default_is_editor() {
    assert_eq!(Tab::default(), Tab::SqlEditor);
}

#[test]
fn tab_titles() {
    assert_eq!(Tab::SqlEditor.to_string(), "SQL Editor");
    assert_eq!(Tab::TableView.to_string(), "Table View");
    assert_eq!(Tab::LogViewer.to_string(), "Log Viewer");
}
