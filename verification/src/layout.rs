//! How wide the columns of the result table are drawn, and how a cell that
//! is wider than its column is cut.

use vstd::prelude::*;
use vstd::string::*;
use crate::table::Table;
use crate::text::{char_count, push_char};
use crate::viewport::{max_int, min_int};

verus! {

/// The sign that ends a cell whose text was cut.
pub const ELLIPSIS: char = '\u{2026}';

/// `value` brought into the range from `low` to `high`.
pub open spec fn clamp_int(value: int, low: int, high: int) -> int {
    if value < low {
        low
    } else if value > high {
        high
    } else {
        value
    }
}

/// The number of characters of the cell of `row` in column `col`; 0 where the
/// row has no such cell.
pub open spec fn cell_len(row: Seq<Seq<char>>, col: int) -> nat {
    if 0 <= col < row.len() {
        row[col].len()
    } else {
        0
    }
}

/// The length of the longest cell of column `col` among the first `count`
/// rows.
pub open spec fn max_cell_len(rows: Seq<Seq<Seq<char>>>, col: int, count: nat) -> nat
    decreases count,
{
    if count == 0 {
        0
    } else {
        let rest = max_cell_len(rows, col, (count - 1) as nat);
        let cell = cell_len(rows[count - 1], col);
        if cell > rest {
            cell
        } else {
            rest
        }
    }
}

/// The width of a column: room for its header and for its longest sampled
/// cell, plus the padding, but neither less than `min_width` nor more than
/// `max_width`.
pub open spec fn column_width_spec(
    header_len: int,
    longest_cell: int,
    padding: int,
    min_width: int,
    max_width: int,
) -> int {
    clamp_int(max_int(header_len, longest_cell) + padding, min_width, max_width)
}

/// The width of column `col` of a table, its cells sampled over the first
/// `sample_rows` rows.
pub open spec fn table_column_width(
    headers: Seq<Seq<char>>,
    rows: Seq<Seq<Seq<char>>>,
    col: int,
    sample_rows: int,
    padding: int,
    min_width: int,
    max_width: int,
) -> int {
    column_width_spec(
        headers[col].len() as int,
        max_cell_len(rows, col, min_int(sample_rows, rows.len() as int) as nat) as int,
        padding,
        min_width,
        max_width,
    )
}

/// No sampled cell is longer than the longest, and the longest is the length
/// of a sampled cell, unless every sampled cell is empty.
pub proof fn lemma_max_cell_len(rows: Seq<Seq<Seq<char>>>, col: int, count: nat)
    ensures
        forall|i: int| 0 <= i < count ==> cell_len(#[trigger] rows[i], col) <= max_cell_len(rows, col, count),
        max_cell_len(rows, col, count) > 0 ==> exists|i: int|
            0 <= i < count && cell_len(#[trigger] rows[i], col) == max_cell_len(rows, col, count),
    decreases count,
{
    if count > 0 {
        lemma_max_cell_len(rows, col, (count - 1) as nat);
    }
}

/// The width of a column from the lengths of its header and of its longest
/// sampled cell.
pub fn column_width(
    header_len: usize,
    longest_cell: usize,
    padding: usize,
    min_width: usize,
    max_width: usize,
) -> (w: usize)
    requires
        min_width <= max_width,
    ensures
        w == column_width_spec(
            header_len as int,
            longest_cell as int,
            padding as int,
            min_width as int,
            max_width as int,
        ),
        min_width <= w <= max_width,
{
    let content = if header_len >= longest_cell {
        header_len
    } else {
        longest_cell
    };
    if content >= max_width || padding >= max_width - content {
        max_width
    } else if content + padding < min_width {
        min_width
    } else {
        content + padding
    }
}

/// Measures the longest cell of column `col` among the first `count` rows.
fn longest_cell(rows: &Vec<Vec<String>>, col: usize, count: usize) -> (m: usize)
    requires
        count <= rows.len(),
    ensures
        m == max_cell_len(rows.deep_view(), col as int, count as nat),
{
    let mut m: usize = 0;
    let mut i: usize = 0;
    while i < count
        invariant
            i <= count <= rows.len(),
            m == max_cell_len(rows.deep_view(), col as int, i as nat),
        decreases count - i,
    {
        let row = &rows[i];
        let len = if col < row.len() {
            char_count(row[col].as_str())
        } else {
            0
        };
        if len > m {
            m = len;
        }
        i = i + 1;
    }
    m
}

/// The widths of all columns of a table, each from its header and from its
/// cells in the first `sample_rows` rows.
pub fn column_widths(
    table: &Table,
    sample_rows: usize,
    padding: usize,
    min_width: usize,
    max_width: usize,
) -> (widths: Vec<usize>)
    requires
        min_width <= max_width,
    ensures
        widths.len() == table@.headers.len(),
        forall|j: int|
            0 <= j < widths.len() ==> #[trigger] widths[j] == table_column_width(
                table@.headers,
                table@.rows,
                j,
                sample_rows as int,
                padding as int,
                min_width as int,
                max_width as int,
            ),
        forall|j: int| 0 <= j < widths.len() ==> min_width <= #[trigger] widths[j] <= max_width,
{
    let count = if sample_rows < table.rows.len() {
        sample_rows
    } else {
        table.rows.len()
    };
    let mut widths: Vec<usize> = Vec::new();
    let mut j: usize = 0;
    while j < table.headers.len()
        invariant
            j <= table.headers.len(),
            widths.len() == j,
            min_width <= max_width,
            count == min_int(sample_rows as int, table@.rows.len() as int),
            count <= table.rows.len(),
            forall|c: int|
                0 <= c < j ==> #[trigger] widths[c] == table_column_width(
                    table@.headers,
                    table@.rows,
                    c,
                    sample_rows as int,
                    padding as int,
                    min_width as int,
                    max_width as int,
                ),
            forall|c: int| 0 <= c < j ==> min_width <= #[trigger] widths[c] <= max_width,
        decreases table.headers.len() - j,
    {
        let header_len = char_count(table.headers[j].as_str());
        let longest = longest_cell(&table.rows, j, count);
        widths.push(column_width(header_len, longest, padding, min_width, max_width));
        j = j + 1;
    }
    widths
}

/// The width that the columns from `start` up to `end` take side by side,
/// with `spacing` cells between neighbours.
pub open spec fn span(widths: Seq<usize>, start: int, end: int, spacing: int) -> int
    decreases end - start,
{
    if end <= start {
        0
    } else if end == start + 1 {
        widths[start] as int
    } else {
        span(widths, start, end - 1, spacing) + spacing + widths[end - 1]
    }
}

/// Whether `range` is the range of columns drawn from column `offset` on in
/// `available` cells: it starts at `offset`, or behind the last column where
/// `offset` lies beyond; it holds the first column whenever there is one,
/// however wide; and it holds every further column with which the columns
/// still fit side by side, and no more.
pub open spec fn is_column_window(
    widths: Seq<usize>,
    offset: int,
    available: int,
    spacing: int,
    range: (usize, usize),
) -> bool {
    &&& range.0 == min_int(offset, widths.len() as int)
    &&& range.0 <= range.1 <= widths.len()
    &&& range.0 < widths.len() ==> range.0 < range.1
    &&& range.0 + 1 < range.1 ==> span(widths, range.0 as int, range.1 as int, spacing) <= available
    &&& range.0 < range.1 < widths.len() ==> span(widths, range.0 as int, range.1 + 1, spacing)
        > available
}

/// The columns that are drawn from column `offset` on in `available` cells,
/// with `spacing` cells between neighbours, as a half-open range.
pub fn fit_columns(widths: &Vec<usize>, offset: usize, available: usize, spacing: usize) -> (range:
    (usize, usize))
    ensures
        is_column_window(widths@, offset as int, available as int, spacing as int, range),
{
    let len = widths.len();
    if offset >= len {
        return (len, len);
    }
    let mut end: usize = offset + 1;
    let mut used: usize = widths[offset];
    let mut fits = true;
    while end < len && fits
        invariant
            offset < end <= len,
            len == widths.len(),
            used == span(widths@, offset as int, end as int, spacing as int),
            offset + 1 < end ==> used <= available,
            !fits ==> end < len && span(widths@, offset as int, end + 1, spacing as int) > available,
        decreases len - end + if fits { 1int } else { 0int },
    {
        let next = match used.checked_add(spacing) {
            Some(padded) => padded.checked_add(widths[end]),
            None => None,
        };
        match next {
            Some(total) => {
                if total <= available {
                    used = total;
                    end = end + 1;
                } else {
                    fits = false;
                }
            },
            None => {
                fits = false;
            },
        }
    }
    (offset, end)
}

/// A cell as it is drawn in a column of `width` characters: the text itself
/// where it fits, else its first `width - 1` characters and the ellipsis. In
/// a column without width nothing is drawn.
pub open spec fn truncated(text: Seq<char>, width: int) -> Seq<char> {
    if text.len() <= width {
        text
    } else if width <= 0 {
        Seq::empty()
    } else {
        text.subrange(0, width - 1).push(ELLIPSIS)
    }
}

/// A cell as it is drawn never takes more room than its column has, and a
/// cell that fits is drawn as it is.
pub proof fn lemma_truncated_fits(text: Seq<char>, width: int)
    requires
        0 <= width,
    ensures
        truncated(text, width).len() <= width,
        text.len() <= width ==> truncated(text, width) == text,
        text.len() > width ==> truncated(text, width).len() == width,
{
}

/// Cuts a cell to the width of its column.
pub fn truncate_cell(text: &str, width: usize) -> (r: String)
    ensures
        r@ == truncated(text@, width as int),
        r@.len() <= width,
{
    let n = char_count(text);
    if n <= width {
        text.to_owned()
    } else if width == 0 {
        String::new()
    } else {
        let mut cut = text.substring_char(0, width - 1).to_owned();
        push_char(&mut cut, ELLIPSIS);
        cut
    }
}

} // verus!
