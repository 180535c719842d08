//! Scrolling arithmetic for a window onto a longer sequence of items.
//!
//! The same functions serve the vertical axis (rows) and the horizontal axis
//! (columns) of the result table.

use vstd::prelude::*;
use vstd::arithmetic::div_mod::{lemma_fundamental_div_mod, lemma_fundamental_div_mod_converse};

verus! {

/// The scroll offset that brings `selected` into a window of `capacity`
/// items starting at `offset`, moving the window as little as possible.
pub open spec fn clamp_offset_spec(selected: int, offset: int, capacity: int) -> int {
    if selected < offset {
        selected
    } else if selected >= offset + capacity {
        selected - capacity + 1
    } else {
        offset
    }
}

/// Moves a window of `capacity` items so that it shows `selected`.
///
/// A selection above the window pulls the window up to it; a selection below
/// pushes the window down until the selection is its last item; otherwise the
/// window stays where it is.
pub fn clamp_offset(selected: usize, offset: usize, capacity: usize) -> (r: usize)
    requires
        capacity == 0 ==> selected < usize::MAX,
    ensures
        r == clamp_offset_spec(selected as int, offset as int, capacity as int),
{
    if selected < offset {
        selected
    } else if selected - offset >= capacity {
        selected - capacity + 1
    } else {
        offset
    }
}

/// Clamping an offset that is already clamped changes nothing, for a window
/// that holds at least one item.
pub proof fn lemma_clamp_offset_idempotent(selected: int, offset: int, capacity: int)
    requires
        capacity >= 1,
    ensures
        clamp_offset_spec(selected, clamp_offset_spec(selected, offset, capacity), capacity)
            == clamp_offset_spec(selected, offset, capacity),
{
}

/// After clamping, the selection lies inside the window.
pub proof fn lemma_clamp_offset_shows_selection(selected: int, offset: int, capacity: int)
    requires
        capacity >= 1,
    ensures
        clamp_offset_spec(selected, offset, capacity) <= selected,
        selected < clamp_offset_spec(selected, offset, capacity) + capacity,
{
}

/// The smaller of two integers.
pub open spec fn min_int(a: int, b: int) -> int {
    if a <= b {
        a
    } else {
        b
    }
}

/// Whether the half-open range `range` holds the index `i`.
pub open spec fn in_slice(range: (usize, usize), i: int) -> bool {
    range.0 <= i < range.1
}

/// The half-open range `[start, end)` of items that a window of `capacity`
/// items at `offset` shows out of `total` items.
///
/// The range never reaches past the last item: every index in it is the
/// index of an item. With an offset beyond the last item the range is empty.
pub fn visible_slice(offset: usize, capacity: usize, total: usize) -> (r: (usize, usize))
    ensures
        r.0 == offset,
        r.1 == min_int(offset + capacity, total as int),
        r.1 <= total,
        forall|i: int| #[trigger] in_slice(r, i) ==> 0 <= i < total,
        offset <= total ==> r.0 <= r.1,
{
    if offset >= total {
        (offset, total)
    } else if capacity >= total - offset {
        (offset, total)
    } else {
        (offset, offset + capacity)
    }
}

/// The larger of two integers.
pub open spec fn max_int(a: int, b: int) -> int {
    if a >= b {
        a
    } else {
        b
    }
}

/// The integer nearest to `n / d`, halves rounded up; for `n >= 0` and
/// `d > 0`.
pub open spec fn round_div(n: int, d: int) -> int {
    (2 * n + d) / (2 * d)
}

/// `round_div(n, d)` is the integer nearest to the fraction `n / d`: twice
/// their distance, in units of `1 / d`, is at most `d`.
pub proof fn lemma_round_div_is_nearest(n: int, d: int)
    requires
        0 <= n,
        0 < d,
    ensures
        2 * n - d < 2 * d * round_div(n, d) <= 2 * n + d,
        0 <= round_div(n, d),
{
    let x = 2 * n + d;
    let dd = 2 * d;
    lemma_fundamental_div_mod(x, dd);
    assert(0 <= x % dd < dd) by (nonlinear_arith)
        requires
            0 < dd,
    ;
    assert(0 <= x / dd) by (nonlinear_arith)
        requires
            0 <= x,
            0 < dd,
    ;
}

/// Computes `round_div` without leaving the range of the machine's integers.
fn rounded_quotient(n: u128, d: u128) -> (r: u128)
    requires
        0 < d <= u64::MAX,
        n <= u64::MAX * u64::MAX,
    ensures
        r == round_div(n as int, d as int),
{
    let q = n / d;
    let rem = n % d;
    proof {
        let ni = n as int;
        let di = d as int;
        let qi = q as int;
        let ri = rem as int;
        lemma_fundamental_div_mod(ni, di);
        assert(qi <= ni) by (nonlinear_arith)
            requires
                ni == di * qi + ri,
                0 <= ri,
                0 < di,
                0 <= qi,
        ;
        if 2 * ri >= di {
            assert(2 * ni + di == (qi + 1) * (2 * di) + (2 * ri - di)) by (nonlinear_arith)
                requires
                    ni == di * qi + ri,
            ;
            lemma_fundamental_div_mod_converse(2 * ni + di, 2 * di, qi + 1, 2 * ri - di);
        } else {
            assert(2 * ni + di == qi * (2 * di) + (2 * ri + di)) by (nonlinear_arith)
                requires
                    ni == di * qi + ri,
            ;
            lemma_fundamental_div_mod_converse(2 * ni + di, 2 * di, qi, 2 * ri + di);
        }
    }
    if 2 * rem >= d {
        q + 1
    } else {
        q
    }
}

/// Whether a scrollbar is drawn: there is more content than the viewport
/// shows, and there is a track to draw on.
pub open spec fn has_scrollbar(content_len: int, viewport_len: int, track_len: int) -> bool {
    content_len > viewport_len && track_len > 0
}

/// The length of the thumb: the share of the track that the viewport is of
/// the content, rounded, and at least one cell.
pub open spec fn thumb_size(content_len: int, viewport_len: int, track_len: int) -> int {
    max_int(1, round_div(viewport_len * track_len, content_len))
}

/// The position of the thumb on the track: the share of the free track that
/// the scroll position is of its range, rounded, and never past the end.
pub open spec fn thumb_pos(content_len: int, viewport_len: int, track_len: int, scroll_pos: int) -> int {
    let max_thumb_pos = track_len - thumb_size(content_len, viewport_len, track_len);
    min_int(max_thumb_pos, round_div(scroll_pos * max_thumb_pos, content_len - viewport_len))
}

/// Where a scrollbar is drawn, the thumb has at least one cell and lies on
/// the track from end to end.
pub proof fn lemma_thumb_on_track(content_len: int, viewport_len: int, track_len: int, scroll_pos: int)
    requires
        0 <= viewport_len,
        0 <= scroll_pos,
        has_scrollbar(content_len, viewport_len, track_len),
    ensures
        1 <= thumb_size(content_len, viewport_len, track_len) <= track_len,
        0 <= thumb_pos(content_len, viewport_len, track_len, scroll_pos),
        thumb_pos(content_len, viewport_len, track_len, scroll_pos) + thumb_size(
            content_len,
            viewport_len,
            track_len,
        ) <= track_len,
{
    let n = viewport_len * track_len;
    assert(0 <= n) by (nonlinear_arith)
        requires
            n == viewport_len * track_len,
            0 <= viewport_len,
            0 < track_len,
    ;
    lemma_round_div_is_nearest(n, content_len);
    let r = round_div(n, content_len);
    assert(r <= track_len) by (nonlinear_arith)
        requires
            2 * content_len * r <= 2 * n + content_len,
            n == viewport_len * track_len,
            0 <= viewport_len < content_len,
            0 < track_len,
    ;
    let m = track_len - thumb_size(content_len, viewport_len, track_len);
    assert(0 <= scroll_pos * m) by (nonlinear_arith)
        requires
            0 <= scroll_pos,
            0 <= m,
    ;
    lemma_round_div_is_nearest(scroll_pos * m, content_len - viewport_len);
}

/// The thumb stands at the start of the track while nothing is scrolled, and
/// reaches the end of the track when the viewport has come to the end of the
/// content.
pub proof fn lemma_thumb_at_ends(content_len: int, viewport_len: int, track_len: int)
    requires
        0 <= viewport_len,
        has_scrollbar(content_len, viewport_len, track_len),
    ensures
        thumb_pos(content_len, viewport_len, track_len, 0) == 0,
        thumb_pos(content_len, viewport_len, track_len, content_len - viewport_len) + thumb_size(
            content_len,
            viewport_len,
            track_len,
        ) == track_len,
{
    lemma_thumb_on_track(content_len, viewport_len, track_len, 0);
    let range = content_len - viewport_len;
    let free = track_len - thumb_size(content_len, viewport_len, track_len);
    lemma_fundamental_div_mod_converse(range, 2 * range, 0, range);
    assert(2 * (range * free) + range == free * (2 * range) + range) by (nonlinear_arith);
    lemma_fundamental_div_mod_converse(2 * (range * free) + range, 2 * range, free, range);
}

/// The size and the position of the thumb of a scrollbar, in cells of a
/// track of `track_len` cells, for a viewport of `viewport_len` items
/// scrolled to `scroll_pos` over `content_len` items.
///
/// Gives nothing where no scrollbar is drawn: where the viewport shows all
/// the content, or the track has no cell.
pub fn scrollbar_geometry(
    content_len: usize,
    viewport_len: usize,
    track_len: usize,
    scroll_pos: usize,
) -> (r: Option<(usize, usize)>)
    ensures
        r is Some <==> has_scrollbar(content_len as int, viewport_len as int, track_len as int),
        r matches Some((size, pos)) ==> {
            &&& size == thumb_size(content_len as int, viewport_len as int, track_len as int)
            &&& pos == thumb_pos(
                content_len as int,
                viewport_len as int,
                track_len as int,
                scroll_pos as int,
            )
            &&& 1 <= size <= track_len
            &&& pos + size <= track_len
        },
{
    if content_len <= viewport_len || track_len == 0 {
        return None;
    }
    proof {
        lemma_thumb_on_track(
            content_len as int,
            viewport_len as int,
            track_len as int,
            scroll_pos as int,
        );
        assert(viewport_len * track_len <= u64::MAX * u64::MAX) by (nonlinear_arith)
            requires
                0 <= viewport_len <= u64::MAX,
                0 <= track_len <= u64::MAX,
        ;
    }
    let share = rounded_quotient((viewport_len as u128) * (track_len as u128), content_len as u128);
    let size: usize = if share < 1 {
        1
    } else {
        share as usize
    };
    let max_thumb_pos: usize = track_len - size;
    proof {
        assert(scroll_pos * max_thumb_pos <= u64::MAX * u64::MAX) by (nonlinear_arith)
            requires
                0 <= scroll_pos <= u64::MAX,
                0 <= max_thumb_pos <= u64::MAX,
        ;
    }
    let travelled = rounded_quotient(
        (scroll_pos as u128) * (max_thumb_pos as u128),
        (content_len - viewport_len) as u128,
    );
    let pos: usize = if travelled > max_thumb_pos as u128 {
        max_thumb_pos
    } else {
        travelled as usize
    };
    Some((size, pos))
}

/// Where the user is in the result table: the selected row, and the first
/// row and the first column that are drawn.
#[derive(Clone, Copy, Debug, PartialEq, Eq, Structural)]
pub struct Viewport {
    pub selected: usize,
    pub row_offset: usize,
    pub col_offset: usize,
}

/// An index brought back among `total` items: the last item where it lies
/// beyond, and 0 where there is no item.
pub open spec fn bounded_index(index: int, total: int) -> int {
    if total <= 0 {
        0
    } else {
        min_int(index, total - 1)
    }
}

/// The row offset that a frame is drawn with: the offset clamped to show
/// the selection, and pulled back so that the window does not reach past the
/// last row while rows above it are hidden. A window without room for any
/// row starts at the selection.
pub open spec fn restored_offset(selected: int, offset: int, capacity: int, total: int) -> int {
    if capacity <= 0 {
        selected
    } else {
        min_int(clamp_offset_spec(selected, offset, capacity), max_int(total - capacity, 0))
    }
}

impl Viewport {
    /// The viewport as a frame draws it for a table of `rows` rows and
    /// `cols` columns in a window of `row_capacity` rows.
    pub open spec fn restored(self, rows: int, row_capacity: int, cols: int) -> Viewport {
        let selected = bounded_index(self.selected as int, rows);
        Viewport {
            selected: selected as usize,
            row_offset: restored_offset(selected, self.row_offset as int, row_capacity, rows) as usize,
            col_offset: bounded_index(self.col_offset as int, cols) as usize,
        }
    }

    /// The selection and the offsets point at rows and columns of the table,
    /// the selected row lies in the window, and the window does not reach
    /// past the last row of a table that fills it.
    pub open spec fn fits(self, rows: int, row_capacity: int, cols: int) -> bool {
        &&& rows > 0 ==> self.selected < rows && self.row_offset < rows
        &&& rows <= 0 ==> self.selected == 0 && self.row_offset == 0
        &&& cols > 0 ==> self.col_offset < cols
        &&& cols <= 0 ==> self.col_offset == 0
        &&& row_capacity > 0 ==> self.row_offset <= self.selected < self.row_offset + row_capacity
        &&& row_capacity > 0 && rows >= row_capacity ==> self.row_offset + row_capacity <= rows
    }

    /// The viewport at the top left corner of a table.
    pub fn new() -> (v: Viewport)
        ensures
            v == (Viewport { selected: 0, row_offset: 0, col_offset: 0 }),
    {
        Viewport { selected: 0, row_offset: 0, col_offset: 0 }
    }

    /// Brings the selection and the offsets back to where a frame can be
    /// drawn from them, whatever the table and the window have become.
    pub fn restore(&mut self, rows: usize, row_capacity: usize, cols: usize)
        ensures
            *final(self) == old(self).restored(rows as int, row_capacity as int, cols as int),
            final(self).fits(rows as int, row_capacity as int, cols as int),
    {
        let selected = if rows == 0 {
            0
        } else if self.selected < rows - 1 {
            self.selected
        } else {
            rows - 1
        };
        let row_offset = if row_capacity == 0 {
            selected
        } else {
            let shown = clamp_offset(selected, self.row_offset, row_capacity);
            let last_start = if rows >= row_capacity {
                rows - row_capacity
            } else {
                0
            };
            if shown < last_start {
                shown
            } else {
                last_start
            }
        };
        let col_offset = if cols == 0 {
            0
        } else if self.col_offset < cols - 1 {
            self.col_offset
        } else {
            cols - 1
        };
        self.selected = selected;
        self.row_offset = row_offset;
        self.col_offset = col_offset;
    }

    /// The viewport with the selection one row further down, and not past
    /// the last of `rows` rows.
    pub open spec fn moved_down(self, rows: int) -> Viewport {
        Viewport { selected: bounded_index(self.selected + 1, rows) as usize, ..self }
    }

    /// The viewport with the selection one row further up, and not past the
    /// first row.
    pub open spec fn moved_up(self) -> Viewport {
        Viewport { selected: max_int(self.selected - 1, 0) as usize, ..self }
    }

    /// The viewport scrolled one column to the right, and not past the last
    /// of `cols` columns.
    pub open spec fn moved_right(self, cols: int) -> Viewport {
        Viewport { col_offset: bounded_index(self.col_offset + 1, cols) as usize, ..self }
    }

    /// The viewport scrolled one column to the left, and not past the first
    /// column.
    pub open spec fn moved_left(self) -> Viewport {
        Viewport { col_offset: max_int(self.col_offset - 1, 0) as usize, ..self }
    }

    /// Moves the selection one row down, and not past the last of `rows`
    /// rows.
    pub fn select_next(&mut self, rows: usize)
        ensures
            *final(self) == old(self).moved_down(rows as int),
    {
        if rows == 0 {
            self.selected = 0;
        } else if self.selected < rows - 1 {
            self.selected = self.selected + 1;
        } else {
            self.selected = rows - 1;
        }
    }

    /// Moves the selection one row up, and not past the first row.
    pub fn select_previous(&mut self)
        ensures
            *final(self) == old(self).moved_up(),
    {
        if self.selected > 0 {
            self.selected = self.selected - 1;
        }
    }

    /// Scrolls one column to the right, and not past the last of `cols`
    /// columns.
    pub fn scroll_right(&mut self, cols: usize)
        ensures
            *final(self) == old(self).moved_right(cols as int),
    {
        if cols == 0 {
            self.col_offset = 0;
        } else if self.col_offset < cols - 1 {
            self.col_offset = self.col_offset + 1;
        } else {
            self.col_offset = cols - 1;
        }
    }

    /// Scrolls one column to the left, and not past the first column.
    pub fn scroll_left(&mut self)
        ensures
            *final(self) == old(self).moved_left(),
    {
        if self.col_offset > 0 {
            self.col_offset = self.col_offset - 1;
        }
    }

    /// The rows that a window of `row_capacity` rows shows of `rows` rows.
    pub fn visible_rows(&self, rows: usize, row_capacity: usize) -> (r: (usize, usize))
        ensures
            r.0 == self.row_offset,
            r.1 == min_int(self.row_offset + row_capacity, rows as int),
            r.1 <= rows,
            self.fits(rows as int, row_capacity as int, 0) ==> r.0 <= r.1,
    {
        visible_slice(self.row_offset, row_capacity, rows)
    }
}

/// Restoring a viewport that a frame was drawn from changes nothing.
pub proof fn lemma_restore_idempotent(v: Viewport, rows: int, row_capacity: int, cols: int)
    requires
        0 <= rows <= usize::MAX,
        0 <= row_capacity <= usize::MAX,
        0 <= cols <= usize::MAX,
    ensures
        v.restored(rows, row_capacity, cols).restored(rows, row_capacity, cols) == v.restored(
            rows,
            row_capacity,
            cols,
        ),
{
}

/// A frame draws the selected row: after restoring, the selection lies in
/// the range of rows that the window shows, wherever there is a row and room
/// for one.
pub proof fn lemma_restored_selection_is_visible(
    v: Viewport,
    rows: int,
    row_capacity: int,
    cols: int,
)
    requires
        0 < rows <= usize::MAX,
        0 < row_capacity <= usize::MAX,
        0 <= cols <= usize::MAX,
    ensures
        ({
            let drawn = v.restored(rows, row_capacity, cols);
            &&& drawn.row_offset <= drawn.selected < min_int(drawn.row_offset + row_capacity, rows)
            &&& drawn.fits(rows, row_capacity, cols)
        }),
{
}

} // verus!
