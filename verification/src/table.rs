//! The result table: what a query returned, as rows of strings under a row
//! of column headers, and the step that makes such a table out of the rows
//! that a database driver delivered.

use vstd::prelude::*;
use vstd::string::*;

verus! {

/// What reading one column of one row as text gave.
#[derive(Debug)]
pub enum RawValue {
    /// The column held this text.
    Text(String),
    /// The column held the database's null.
    Null,
    /// The column could not be read as text.
    Unreadable,
}

/// A `RawValue` with its text as a sequence of characters.
pub enum RawValueView {
    Text(Seq<char>),
    Null,
    Unreadable,
}

impl DeepView for RawValue {
    type V = RawValueView;

    open spec fn deep_view(&self) -> RawValueView {
        match self {
            RawValue::Text(s) => RawValueView::Text(s@),
            RawValue::Null => RawValueView::Null,
            RawValue::Unreadable => RawValueView::Unreadable,
        }
    }
}

/// One column of one row as the driver delivered it: the column's name and
/// what reading it as text gave.
#[derive(Debug)]
pub struct RawCell {
    pub name: String,
    pub value: RawValue,
}

/// A `RawCell` over sequences of characters.
pub struct RawCellView {
    pub name: Seq<char>,
    pub value: RawValueView,
}

impl DeepView for RawCell {
    type V = RawCellView;

    open spec fn deep_view(&self) -> RawCellView {
        RawCellView { name: self.name@, value: self.value.deep_view() }
    }
}

/// The rows that a query returned, tagged with the kind of driver that
/// delivered them. Each row lists its columns in the order of the database.
#[derive(Debug)]
pub enum RawRow {
    MySql(Vec<Vec<RawCell>>),
    Postgres(Vec<Vec<RawCell>>),
    Any(Vec<Vec<RawCell>>),
}

impl RawRow {
    /// The rows, whatever driver delivered them.
    pub open spec fn records(&self) -> Seq<Seq<RawCellView>> {
        match self {
            RawRow::MySql(rows) => rows.deep_view(),
            RawRow::Postgres(rows) => rows.deep_view(),
            RawRow::Any(rows) => rows.deep_view(),
        }
    }
}

/// The summary that a driver gives of a statement it ran. The table carries
/// it along and nothing reads it when the table is drawn.
#[derive(Clone, Copy, Debug, PartialEq, Eq)]
#[allow(inconsistent_fields)]
pub enum RawData {
    MySql { rows_affected: u64, last_insert_id: u64 },
    Postgres { rows_affected: u64 },
    Any { rows_affected: u64, last_insert_id: Option<i64> },
}

/// What a row yields for a column name: the value of its last column of
/// that name, if it has one.
pub open spec fn lookup(row: Seq<RawCellView>, name: Seq<char>) -> Option<RawValueView>
    decreases row.len(),
{
    if row.len() == 0 {
        None
    } else if row.last().name == name {
        Some(row.last().value)
    } else {
        lookup(row.drop_last(), name)
    }
}

/// The text that stands in a table for what a row yielded: the text itself,
/// or the word `NULL` for a null, an unreadable or a missing column.
pub open spec fn cell_text(found: Option<RawValueView>) -> Seq<char> {
    match found {
        Some(RawValueView::Text(s)) => s,
        _ => "NULL"@,
    }
}

/// The names of the columns of a row, in order.
pub open spec fn column_names(row: Seq<RawCellView>) -> Seq<Seq<char>> {
    Seq::new(row.len(), |j: int| row[j].name)
}

/// The headers of the table made from `records`: the column names of the
/// first row, and none where there is no row.
pub open spec fn normalized_headers(records: Seq<Seq<RawCellView>>) -> Seq<Seq<char>> {
    if records.len() == 0 {
        Seq::empty()
    } else {
        column_names(records[0])
    }
}

/// A row of the table: for each header, the text of what `row` yields for it.
pub open spec fn normalized_row(headers: Seq<Seq<char>>, row: Seq<RawCellView>) -> Seq<Seq<char>> {
    Seq::new(headers.len(), |j: int| cell_text(lookup(row, headers[j])))
}

/// The rows of the table made from `records`.
pub open spec fn normalized_rows(records: Seq<Seq<RawCellView>>) -> Seq<Seq<Seq<char>>> {
    Seq::new(records.len(), |i: int| normalized_row(normalized_headers(records), records[i]))
}

/// Headers and rows of strings: the one shape in which every query result is
/// kept and drawn.
#[derive(Debug)]
pub struct Table {
    pub headers: Vec<String>,
    pub rows: Vec<Vec<String>>,
    pub raw_data: Option<RawData>,
}

/// A `Table` over sequences of characters.
pub struct TableView {
    pub headers: Seq<Seq<char>>,
    pub rows: Seq<Seq<Seq<char>>>,
    pub raw_data: Option<RawData>,
}

impl View for Table {
    type V = TableView;

    open spec fn view(&self) -> TableView {
        TableView {
            headers: self.headers.deep_view(),
            rows: self.rows.deep_view(),
            raw_data: self.raw_data,
        }
    }
}

impl TableView {
    /// Every row has one cell for each header.
    pub open spec fn aligned(self) -> bool {
        forall|i: int| 0 <= i < self.rows.len() ==> (#[trigger] self.rows[i]).len() == self.headers.len()
    }

    /// The table has neither headers nor rows.
    pub open spec fn is_empty(self) -> bool {
        self.headers.len() == 0 && self.rows.len() == 0
    }
}

/// Finds what `row` yields for the column `name`.
fn find_value<'a>(row: &'a Vec<RawCell>, name: &String) -> (r: Option<&'a RawValue>)
    ensures
        match r {
            Some(v) => lookup(row.deep_view(), name@) == Some(v.deep_view()),
            None => lookup(row.deep_view(), name@) is None,
        },
{
    let mut k: usize = row.len();
    proof {
        assert(row.deep_view().take(k as int) =~= row.deep_view());
    }
    while k > 0
        invariant
            k <= row.len(),
            lookup(row.deep_view(), name@) == lookup(row.deep_view().take(k as int), name@),
        decreases k,
    {
        proof {
            let prefix = row.deep_view().take(k as int);
            assert(prefix.drop_last() =~= row.deep_view().take(k - 1));
        }
        if row[k - 1].name == *name {
            return Some(&row[k - 1].value);
        }
        k = k - 1;
    }
    None
}

/// Writes the text that stands in a table for what a row yielded.
fn value_text(found: Option<&RawValue>) -> (r: String)
    ensures
        r@ == cell_text(
            match found {
                Some(v) => Some(v.deep_view()),
                None => None,
            },
        ),
{
    match found {
        Some(RawValue::Text(s)) => s.clone(),
        _ => "NULL".to_owned(),
    }
}

/// Makes the table row of `row` under `headers`.
fn normalize_row(headers: &Vec<String>, row: &Vec<RawCell>) -> (r: Vec<String>)
    ensures
        r.deep_view() == normalized_row(headers.deep_view(), row.deep_view()),
{
    let mut values: Vec<String> = Vec::new();
    let mut j: usize = 0;
    while j < headers.len()
        invariant
            j <= headers.len(),
            values.len() == j,
            forall|c: int|
                0 <= c < j ==> (#[trigger] values[c])@ == cell_text(
                    lookup(row.deep_view(), headers[c]@),
                ),
        decreases headers.len() - j,
    {
        let found = find_value(row, &headers[j]);
        values.push(value_text(found));
        j = j + 1;
    }
    values
}

/// Copies the column names of `row`.
fn header_names(row: &Vec<RawCell>) -> (r: Vec<String>)
    ensures
        r.deep_view() == column_names(row.deep_view()),
{
    let mut names: Vec<String> = Vec::new();
    let mut j: usize = 0;
    while j < row.len()
        invariant
            j <= row.len(),
            names.len() == j,
            forall|c: int| 0 <= c < j ==> (#[trigger] names[c])@ == row[c].name@,
        decreases row.len() - j,
    {
        names.push(row[j].name.clone());
        j = j + 1;
    }
    names
}

/// Makes headers and rows of strings out of the rows of a driver.
fn normalize(records: &Vec<Vec<RawCell>>) -> (r: (Vec<String>, Vec<Vec<String>>))
    ensures
        r.0.deep_view() == normalized_headers(records.deep_view()),
        r.1.deep_view() == normalized_rows(records.deep_view()),
{
    let mut rows: Vec<Vec<String>> = Vec::new();
    if records.len() == 0 {
        let headers: Vec<String> = Vec::new();
        return (headers, rows);
    }
    let headers = header_names(&records[0]);
    let mut i: usize = 0;
    while i < records.len()
        invariant
            i <= records.len(),
            rows.len() == i,
            records.len() > 0,
            headers.deep_view() == normalized_headers(records.deep_view()),
            forall|k: int|
                0 <= k < i ==> (#[trigger] rows[k]).deep_view() == normalized_row(
                    headers.deep_view(),
                    records[k].deep_view(),
                ),
        decreases records.len() - i,
    {
        rows.push(normalize_row(&headers, &records[i]));
        i = i + 1;
    }
    (headers, rows)
}

/// Copies a list of strings.
fn copy_strings(items: &Vec<String>) -> (r: Vec<String>)
    ensures
        r.deep_view() == items.deep_view(),
{
    let mut out: Vec<String> = Vec::new();
    let mut j: usize = 0;
    while j < items.len()
        invariant
            j <= items.len(),
            out.len() == j,
            forall|c: int| 0 <= c < j ==> (#[trigger] out[c])@ == items[c]@,
        decreases items.len() - j,
    {
        out.push(items[j].clone());
        j = j + 1;
    }
    out
}

impl Table {
    /// Every row has one cell for each header.
    pub open spec fn wf(&self) -> bool {
        self@.aligned()
    }

    /// The empty table: no headers, no rows, no summary.
    pub fn new() -> (t: Table)
        ensures
            t@.is_empty(),
            t@.raw_data is None,
            t.wf(),
    {
        let t = Table { headers: Vec::new(), rows: Vec::new(), raw_data: None };
        t
    }

    /// Makes the table of a query result.
    ///
    /// The headers are the column names of the first row, in the order of the
    /// database; a result without rows gives a table without headers. Every
    /// row of the result gives one row of the table, with one cell for each
    /// header: the text that the row holds under that name, or the word
    /// `NULL` where the row holds a null there, cannot be read as text
    /// there, or has no such column. Where a row has several columns of one
    /// name, the last of them is read. The driver's summary is kept beside
    /// the rows.
    pub fn from_raw_row(raw_row: RawRow, raw_data: RawData) -> (t: Table)
        ensures
            t@.headers == normalized_headers(raw_row.records()),
            t@.rows == normalized_rows(raw_row.records()),
            t@.raw_data == Some(raw_data),
            t.wf(),
    {
        let (headers, rows) = match &raw_row {
            RawRow::MySql(records) => normalize(records),
            RawRow::Postgres(records) => normalize(records),
            RawRow::Any(records) => normalize(records),
        };
        Table { headers, rows, raw_data: Some(raw_data) }
    }

    /// Whether the table has neither headers nor rows.
    pub fn is_empty(&self) -> (r: bool)
        ensures
            r == self@.is_empty(),
    {
        self.headers.len() == 0 && self.rows.len() == 0
    }
}

impl Clone for Table {
    /// A copy of the headers and rows. The driver's summary is not copied:
    /// the copy has none.
    fn clone(&self) -> (t: Table)
        ensures
            t@.headers == self@.headers,
            t@.rows == self@.rows,
            t@.raw_data is None,
    {
        let headers = copy_strings(&self.headers);
        let mut rows: Vec<Vec<String>> = Vec::new();
        let mut i: usize = 0;
        while i < self.rows.len()
            invariant
                i <= self.rows.len(),
                rows.len() == i,
                forall|k: int|
                    0 <= k < i ==> (#[trigger] rows[k]).deep_view() == self.rows[k].deep_view(),
            decreases self.rows.len() - i,
        {
            rows.push(copy_strings(&self.rows[i]));
            i = i + 1;
        }
        Table { headers, rows, raw_data: None }
    }
}

impl Default for Table {
    /// The empty table.
    fn default() -> (t: Table)
        ensures
            t@.is_empty(),
            t@.raw_data is None,
            t.wf(),
    {
        Table::new()
    }
}

/// The rows and headers of a table made by `from_raw_row` line up: every row
/// has as many cells as there are headers.
pub proof fn lemma_normalized_rows_aligned(records: Seq<Seq<RawCellView>>)
    ensures
        normalized_rows(records).len() == records.len(),
        forall|i: int|
            0 <= i < records.len() ==> (#[trigger] normalized_rows(records)[i]).len()
                == normalized_headers(records).len(),
{
}

/// A null under a header reads `NULL` in the table, never the empty string.
pub proof fn lemma_null_reads_as_word(row: Seq<RawCellView>, name: Seq<char>)
    requires
        lookup(row, name) == Some(RawValueView::Null),
    ensures
        cell_text(lookup(row, name)) == "NULL"@,
        cell_text(lookup(row, name)).len() == 4,
{
    reveal_strlit("NULL");
}

} // verus!
