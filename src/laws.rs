use vstd::prelude::*;
use crate::buffer::{lemma_offset_in_grid, lemma_offsets_distinct, Buffer};
use crate::color::VGAEntry;
use crate::memory::CellMemory;
use crate::color::cell_value;
use crate::console::{
    glyph_byte, is_ascii_char, put_byte, run, scrolled, step, view_wf, ConsoleView, BLANK,
};

verus! {

/// A character that is written as itself and moves the cursor one column:
/// ASCII, and neither a line feed nor a carriage return.
pub open spec fn is_plain(ch: char) -> bool {
    is_ascii_char(ch) && ch != '\n' && ch != '\r'
}

/// `cells` with the `k` cells from `base` on holding the first `k`
/// characters of `s` in `color`.
pub open spec fn filled(cells: Seq<u16>, base: int, s: Seq<char>, k: int, color: u8) -> Seq<u16> {
    Seq::new(
        cells.len(),
        |i: int|
            if base <= i < base + k {
                cell_value(s[i - base] as u8, color)
            } else {
                cells[i]
            },
    )
}

proof fn lemma_run_take_last(v: ConsoleView, s: Seq<char>, k: int)
    requires
        0 <= k < s.len(),
    ensures
        run(v, s.take(k + 1)) == step(run(v, s.take(k)), s[k]),
{
    assert(s.take(k + 1).drop_last() =~= s.take(k));
}

/// Plain characters written from the start of a line fill the grid row by
/// row: after `(r - v.row) * width + c` of them the cursor is at `(r, c)`,
/// as long as the text stays above the point where it would scroll.
proof fn lemma_fill(v: ConsoleView, s: Seq<char>, r: nat, c: nat)
    requires
        view_wf(v),
        v.col == 0,
        v.row <= r < v.height,
        c < v.width,
        (r - v.row) * v.width + c <= s.len(),
        forall|i: int| 0 <= i < s.len() ==> is_plain(#[trigger] s[i]),
    ensures
        run(v, s.take((r - v.row) * v.width + c)) == (ConsoleView {
            cells: filled(v.cells, (v.row * v.width) as int, s, (r - v.row) * v.width + c, v.color),
            row: r,
            col: c,
            ..v
        }),
    decreases r - v.row, c,
{
    let w = v.width as int;
    let k = (r - v.row) * w + c;
    let base = v.row * w;
    lemma_offset_in_grid(r as int, c as int, w, v.height as int);
    assert(r * w == base + (r - v.row) * w) by (nonlinear_arith)
        requires
            base == v.row * w,
    ;
    if r == v.row && c == 0 {
        assert(s.take(0) =~= Seq::<char>::empty());
        assert(filled(v.cells, base, s, 0, v.color) =~= v.cells);
    } else {
        let (pr, pc) = if c > 0 {
            (r, (c - 1) as nat)
        } else {
            ((r - 1) as nat, (w - 1) as nat)
        };
        assert(((pr - v.row) * w + pc) + 1 == k) by (nonlinear_arith)
            requires
                c > 0 ==> pr == r && pc == c - 1,
                c == 0 ==> pr == r - 1 && pc == w - 1,
                k == (r - v.row) * w + c,
        ;
        lemma_fill(v, s, pr, pc);
        lemma_offset_in_grid(pr as int, pc as int, w, v.height as int);
        assert(pr * w == base + (pr - v.row) * w) by (nonlinear_arith)
            requires
                base == v.row * w,
        ;
        let prev = run(v, s.take(k - 1));
        lemma_run_take_last(v, s, k - 1);
        assert(is_plain(s[k - 1]));
        assert(glyph_byte(s[k - 1]) == s[k - 1] as u8);
        assert(put_byte(prev, glyph_byte(s[k - 1])).cells =~= filled(v.cells, base, s, k, v.color));
    }
}

/// A glyph written at a position of the grid reads back as exactly that
/// glyph, character and colour, and every other cell of the grid keeps what
/// it held.
pub proof fn law_write_read_back<M: CellMemory>(
    before: Buffer<M>,
    after: Buffer<M>,
    row: int,
    col: int,
    written: VGAEntry,
    read: VGAEntry,
)
    requires
        before.wf(),
        before.in_bounds(row, col),
        after.width() == before.width(),
        after.cells() == before.cells().update(
            before.offset(row, col),
            cell_value(written.byte, written.color.0),
        ),
        cell_value(read.byte, read.color.0) == after.cell(row, col),
    ensures
        read.byte == written.byte,
        read.color == written.color,
        forall|r2: int, c2: int|
            #![trigger after.cell(r2, c2)]
            before.in_bounds(r2, c2) && (r2 != row || c2 != col) ==> after.cell(r2, c2)
                == before.cell(r2, c2),
{
    lemma_offset_in_grid(row, col, before.width() as int, before.height() as int);
    assert forall|r2: int, c2: int|
        #![trigger after.cell(r2, c2)]
        before.in_bounds(r2, c2) && (r2 != row || c2 != col) implies after.cell(r2, c2)
            == before.cell(r2, c2) by {
        lemma_offset_in_grid(r2, c2, before.width() as int, before.height() as int);
        if before.offset(r2, c2) == before.offset(row, col) {
            lemma_offsets_distinct(r2, c2, row, col, before.width() as int);
        }
    }
}

/// Writing as many plain characters as the grid is wide, from the start of a
/// line above the last, fills that line and moves the cursor to the start of
/// the next one; no other cell changes and nothing scrolls.
pub proof fn law_full_line_wraps(v: ConsoleView, s: Seq<char>)
    requires
        view_wf(v),
        v.col == 0,
        v.row + 1 < v.height,
        s.len() == v.width,
        forall|i: int| 0 <= i < s.len() ==> is_plain(#[trigger] s[i]),
    ensures
        run(v, s) == (ConsoleView {
            cells: filled(v.cells, (v.row * v.width) as int, s, v.width as int, v.color),
            row: v.row + 1,
            col: 0,
            ..v
        }),
{
    let w = v.width as int;
    lemma_fill(v, s, v.row, (w - 1) as nat);
    lemma_run_take_last(v, s, w - 1);
    assert(s.take(w) =~= s);
    lemma_offset_in_grid(v.row as int, w - 1, w, v.height as int);
    let prev = run(v, s.take(w - 1));
    assert(glyph_byte(s[w - 1]) == s[w - 1] as u8);
    assert(put_byte(prev, glyph_byte(s[w - 1])).cells =~= filled(
        v.cells,
        (v.row * v.width) as int,
        s,
        w,
        v.color,
    ));
}

/// From the top left corner of a grid more than one column wide, writing
/// `height * width + 1` plain characters scrolls exactly once: after the
/// first `height * width` the text has moved up by one row, the last row is
/// blank in the current colour and the cursor starts it; the last character
/// then lands at the start of that row.
pub proof fn law_screenful_scrolls_once(v: ConsoleView, s: Seq<char>)
    requires
        view_wf(v),
        v.row == 0,
        v.col == 0,
        v.width > 1,
        s.len() == v.height * v.width + 1,
        forall|i: int| 0 <= i < s.len() ==> is_plain(#[trigger] s[i]),
    ensures
        run(v, s.take((v.height * v.width) as int)) == (ConsoleView {
            cells: scrolled(
                filled(v.cells, 0, s, (v.height * v.width) as int, v.color),
                v.width,
                v.height,
                v.color,
            ),
            row: (v.height - 1) as nat,
            col: 0,
            ..v
        }),
        run(v, s) == (ConsoleView {
            cells: scrolled(
                filled(v.cells, 0, s, (v.height * v.width) as int, v.color),
                v.width,
                v.height,
                v.color,
            ).update((v.height - 1) * v.width, cell_value(s[(v.height * v.width) as int] as u8, v.color)),
            row: (v.height - 1) as nat,
            col: 1,
            ..v
        }),
{
    let w = v.width as int;
    let h = v.height as int;
    let n = h * w;
    lemma_offset_in_grid(h - 1, w - 1, w, h);
    assert((h - 1) * w + (w - 1) == n - 1);
    lemma_fill(v, s, (h - 1) as nat, (w - 1) as nat);
    lemma_run_take_last(v, s, n - 1);
    let prev = run(v, s.take(n - 1));
    assert(glyph_byte(s[n - 1]) == s[n - 1] as u8);
    assert(put_byte(prev, glyph_byte(s[n - 1])).cells =~= filled(v.cells, 0, s, n, v.color));
    lemma_run_take_last(v, s, n);
    assert(s.take(n + 1) =~= s);
    lemma_offset_in_grid(h - 1, 0, w, h);
    assert(glyph_byte(s[n]) == s[n] as u8);
}

/// A line feed moves the cursor to the first column of the next row, or
/// scrolls on the last row; a carriage return only moves it to the first
/// column.
pub proof fn law_line_feed_and_return(v: ConsoleView)
    requires
        view_wf(v),
    ensures
        step(v, '\n').col == 0,
        v.row + 1 < v.height ==> step(v, '\n').row == v.row + 1 && step(v, '\n').cells == v.cells,
        v.row + 1 == v.height ==> step(v, '\n').row == v.row && step(v, '\n').cells == scrolled(
            v.cells,
            v.width,
            v.height,
            v.color,
        ),
        step(v, '\r') == (ConsoleView { col: 0, ..v }),
{
}

/// Every cell after a write holds a whole cell: one it held before, the one
/// that moved up into it, the glyph just written, or a blank, each in full,
/// never a character of one with the colour of another.
pub proof fn law_cells_stay_whole(v: ConsoleView, ch: char)
    requires
        view_wf(v),
    ensures
        forall|i: int|
            0 <= i < step(v, ch).cells.len() ==> {
                let c = #[trigger] step(v, ch).cells[i];
                ||| c == v.cells[i]
                ||| (i + v.width < v.cells.len() && c == v.cells[i + v.width])
                ||| c == cell_value(glyph_byte(ch), v.color)
                ||| c == cell_value(BLANK, v.color)
            },
{
    let w = v.width as int;
    let h = v.height as int;
    lemma_offset_in_grid(v.row as int, v.col as int, w, h);
    assert((h - 1) * w + w == h * w) by (nonlinear_arith);
    let glyph = cell_value(glyph_byte(ch), v.color);
    let blank = cell_value(BLANK, v.color);
    assert forall|i: int| 0 <= i < step(v, ch).cells.len() implies {
        let c = #[trigger] step(v, ch).cells[i];
        ||| c == v.cells[i]
        ||| (i + v.width < v.cells.len() && c == v.cells[i + v.width])
        ||| c == glyph
        ||| c == blank
    } by {
        let c = step(v, ch).cells[i];
        if ch == '\n' || ch == '\r' {
            if i < (h - 1) * w {
                assert(i + w < v.cells.len());
            }
        } else {
            let p = put_byte(v, glyph_byte(ch));
            let at = v.row * v.width + v.col;
            assert(p.cells[i] == v.cells[i] || p.cells[i] == glyph);
            if i < (h - 1) * w {
                assert(i + w < v.cells.len());
                assert(p.cells[i + w] == v.cells[i + w] || p.cells[i + w] == glyph);
            }
        }
    }
}

} // verus!
