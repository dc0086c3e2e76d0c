//! The cursor, wrap and scroll state machine of a text console.
//!
//! Two character policies are offered. `WriterInner` takes the permissive
//! one, the canonical one: it never fails, and writes `'?'` for a character
//! outside ASCII, so a fault report can always be written. `EgaWriterInner`
//! is the configuration with the strict one: it refuses such a character
//! with `NonAsciiCharacter` and changes nothing for it.
//!
//! `ConsoleView` is the model the contracts speak of; `step` and `run` say
//! what writing a character or a string does to it.

use vstd::prelude::*;
use vstd::string::axiom_spec_iter;
use crate::buffer::Buffer;
use crate::color::{cell_value, CgaColor, VGAEntry, VGAEntryColor};
use crate::error::EgaWriteError;
use crate::memory::CellMemory;

verus! {

broadcast use axiom_spec_iter;

/// What a console is, as far as its users can tell: the cells of its buffer,
/// the geometry, the cursor and the colour of the text it writes next.
pub struct ConsoleView {
    pub cells: Seq<u16>,
    pub width: nat,
    pub height: nat,
    pub row: nat,
    pub col: nat,
    pub color: u8,
}

/// The character code that stands for a non-ASCII character.
pub const PLACEHOLDER: u8 = 0x3f;

/// The character code of a blank cell.
pub const BLANK: u8 = 0x20;

pub open spec fn is_ascii_char(ch: char) -> bool {
    (ch as u32) < 128
}

/// The character code written for `ch`: itself if ASCII, else the placeholder.
pub open spec fn glyph_byte(ch: char) -> u8 {
    if is_ascii_char(ch) {
        ch as u8
    } else {
        PLACEHOLDER
    }
}

/// The geometry is non-empty, fits in the cells, and the cursor is on it.
pub open spec fn view_wf(v: ConsoleView) -> bool {
    &&& 0 < v.width
    &&& 0 < v.height
    &&& v.width * v.height <= v.cells.len()
    &&& v.row < v.height
    &&& v.col < v.width
}

/// The cells after every row moved up by one: row `r` takes what row `r + 1`
/// held, the last row is blank in `color`, cells past the grid stay.
pub open spec fn scrolled(cells: Seq<u16>, width: nat, height: nat, color: u8) -> Seq<u16> {
    Seq::new(
        cells.len(),
        |i: int|
            if i < (height - 1) * width {
                cells[i + width]
            } else if i < height * width {
                cell_value(BLANK, color)
            } else {
                cells[i]
            },
    )
}

/// The cursor moves one row down; on the last row the text scrolls instead.
/// The column stays.
pub open spec fn line_feed(v: ConsoleView) -> ConsoleView {
    if v.row + 1 < v.height {
        ConsoleView { row: v.row + 1, ..v }
    } else {
        ConsoleView { cells: scrolled(v.cells, v.width, v.height, v.color), ..v }
    }
}

/// The cursor moves to the first column.
pub open spec fn carriage_return(v: ConsoleView) -> ConsoleView {
    ConsoleView { col: 0, ..v }
}

/// The cursor moves one column on, wrapping to the start of the next line.
pub open spec fn advance(v: ConsoleView) -> ConsoleView {
    if v.col + 1 == v.width {
        carriage_return(line_feed(v))
    } else {
        ConsoleView { col: v.col + 1, ..v }
    }
}

/// `byte` is written at the cursor in the current colour.
pub open spec fn put_byte(v: ConsoleView, byte: u8) -> ConsoleView {
    ConsoleView {
        cells: v.cells.update((v.row * v.width + v.col) as int, cell_value(byte, v.color)),
        ..v
    }
}

/// The effect of writing one character.
pub open spec fn step(v: ConsoleView, ch: char) -> ConsoleView {
    if ch == '\n' {
        carriage_return(line_feed(v))
    } else if ch == '\r' {
        carriage_return(v)
    } else {
        advance(put_byte(v, glyph_byte(ch)))
    }
}

/// The effect of writing the characters of `s` in order.
pub open spec fn run(v: ConsoleView, s: Seq<char>) -> ConsoleView
    decreases s.len(),
{
    if s.len() == 0 {
        v
    } else {
        step(run(v, s.drop_last()), s.last())
    }
}

/// The cursor/colour state of a console over a buffer.
pub struct WriterInner<M> {
    buffer: Buffer<M>,
    cursor: (usize, usize),
    current_color: VGAEntryColor,
}

impl<M: CellMemory> View for WriterInner<M> {
    type V = ConsoleView;

    closed spec fn view(&self) -> ConsoleView {
        ConsoleView {
            cells: self.buffer.cells(),
            width: self.buffer.width(),
            height: self.buffer.height(),
            row: self.cursor.0 as nat,
            col: self.cursor.1 as nat,
            color: self.current_color.0,
        }
    }
}

impl<M: CellMemory> WriterInner<M> {
    /// The buffer is well formed and the cursor lies on it.
    pub closed spec fn cursor_on_grid(&self) -> bool {
        &&& self.buffer.wf()
        &&& self.cursor.0 < self.buffer.height()
        &&& self.cursor.1 < self.buffer.width()
    }

    /// The console is well formed, and so is its model.
    pub open spec fn wf(&self) -> bool {
        &&& self.cursor_on_grid()
        &&& view_wf(self@)
    }

    /// A console over `buffer`, cursor at the top left, white on black.
    pub fn new(buffer: Buffer<M>) -> (r: Self)
        requires
            buffer.wf(),
        ensures
            r.wf(),
            r@.cells == buffer.cells(),
            r@.width == buffer.width(),
            r@.height == buffer.height(),
            r@.row == 0,
            r@.col == 0,
            r@.color == 0x0f,
    {
        WriterInner { buffer, cursor: (0, 0), current_color: VGAEntryColor::default_color() }
    }

    /// The buffer the console writes to.
    pub fn buffer(&self) -> (r: &Buffer<M>)
        requires
            self.wf(),
        ensures
            r.wf(),
            r.cells() == self@.cells,
            r.width() == self@.width,
            r.height() == self@.height,
    {
        &self.buffer
    }

    /// The cursor, as `(row, column)`.
    pub fn cursor(&self) -> (r: (usize, usize))
        ensures
            r.0 == self@.row,
            r.1 == self@.col,
    {
        self.cursor
    }

    /// The colour of the text written next.
    pub fn color(&self) -> (r: VGAEntryColor)
        ensures
            r.0 == self@.color,
    {
        self.current_color
    }

    /// Replaces the colour of subsequent writes and of scroll fill.
    pub fn set_color(&mut self, color: VGAEntryColor)
        requires
            old(self).wf(),
        ensures
            final(self).wf(),
            final(self)@ == (ConsoleView { color: color.0, ..old(self)@ }),
    {
        self.current_color = color;
    }

    /// Writes `byte` at `pos` in the current colour; the cursor stays. Off the
    /// grid nothing is written and the result is `OutOfBoundsWrite`.
    pub fn write_byte_at(&mut self, byte: u8, pos: (usize, usize)) -> (r: Result<(), EgaWriteError>)
        requires
            old(self).wf(),
        ensures
            final(self).wf(),
            r is Ok <==> pos.0 < old(self)@.height && pos.1 < old(self)@.width,
            r is Ok ==> final(self)@ == (ConsoleView {
                cells: old(self)@.cells.update(
                    pos.0 * old(self)@.width + pos.1,
                    cell_value(byte, old(self)@.color),
                ),
                ..old(self)@
            }),
            r matches Err(e) ==> e == EgaWriteError::OutOfBoundsWrite && final(self)@ == old(self)@,
    {
        let entry = VGAEntry { byte, color: self.current_color };
        let r = self.buffer.write(pos.0, pos.1, entry);
        proof {
            if r is Err {
                assert(self@ =~= old(self)@);
            }
        }
        r
    }

    /// Moves every row up by one, top row first, and blanks the last row in
    /// the current colour. Each row is read before anything overwrites it.
    pub fn move_lines_up(&mut self)
        requires
            old(self).wf(),
        ensures
            final(self).wf(),
            final(self)@ == (ConsoleView {
                cells: scrolled(old(self)@.cells, old(self)@.width, old(self)@.height, old(self)@.color),
                ..old(self)@
            }),
    {
        let (h, w) = self.buffer.size();
        let ghost old_cells = self@.cells;
        assert((h - 1) * w <= h * w) by (nonlinear_arith)
            requires
                h >= 1,
                w >= 0,
        ;
        let last = (h - 1) * w;
        let end = h * w;
        assert(last + w == end) by (nonlinear_arith)
            requires
                last == (h - 1) * w,
                end == h * w,
        ;
        let mut i: usize = 0;
        while i < last
            invariant
                self.wf(),
                i <= last,
                last + w == end,
                end == self@.width * self@.height,
                self@ == (ConsoleView { cells: self@.cells, ..old(self)@ }),
                self@.cells.len() == old_cells.len(),
                forall|j: int| 0 <= j < i ==> self@.cells[j] == old_cells[j + w],
                forall|j: int| i <= j < old_cells.len() ==> self@.cells[j] == old_cells[j],
            decreases last - i,
        {
            let v = self.buffer.read_at(i + w);
            self.buffer.write_at(i, v);
            i = i + 1;
        }
        let blank = cell_value_of(BLANK, self.current_color);
        while i < end
            invariant
                self.wf(),
                last <= i <= end,
                last + w == end,
                end == self@.width * self@.height,
                self@ == (ConsoleView { cells: self@.cells, ..old(self)@ }),
                self@.cells.len() == old_cells.len(),
                blank == cell_value(BLANK, old(self)@.color),
                forall|j: int| 0 <= j < last ==> self@.cells[j] == old_cells[j + w],
                forall|j: int| last <= j < i ==> self@.cells[j] == blank,
                forall|j: int| i <= j < old_cells.len() ==> self@.cells[j] == old_cells[j],
            decreases end - i,
        {
            self.buffer.write_at(i, blank);
            i = i + 1;
        }
        assert(self@.cells =~= scrolled(old_cells, self@.width, self@.height, self@.color));
    }

    /// Moves the cursor one row down, scrolling on the last row; the column stays.
    pub fn new_line(&mut self)
        requires
            old(self).wf(),
        ensures
            final(self).wf(),
            final(self)@ == line_feed(old(self)@),
    {
        let (h, _w) = self.buffer.size();
        if self.cursor.0 + 1 < h {
            self.cursor.0 = self.cursor.0 + 1;
        } else {
            self.move_lines_up();
        }
    }

    /// Moves the cursor to the first column.
    pub fn carriage_return(&mut self)
        requires
            old(self).wf(),
        ensures
            final(self).wf(),
            final(self)@ == carriage_return(old(self)@),
    {
        self.cursor.1 = 0;
    }

    /// Moves the cursor one column on; past the last column it goes to the
    /// start of the next line, scrolling on the last row.
    pub fn increment_cursor(&mut self)
        requires
            old(self).wf(),
        ensures
            final(self).wf(),
            final(self)@ == advance(old(self)@),
    {
        let (_h, w) = self.buffer.size();
        if self.cursor.1 + 1 == w {
            self.new_line();
            self.carriage_return();
        } else {
            self.cursor.1 = self.cursor.1 + 1;
        }
    }

    /// Writes one character under the permissive policy: `'\n'` starts a new
    /// line, `'\r'` returns to the first column, any other ASCII character is
    /// written at the cursor, and a non-ASCII one is written as `'?'`.
    pub fn add_char(&mut self, ch: char)
        requires
            old(self).wf(),
        ensures
            final(self).wf(),
            final(self)@ == step(old(self)@, ch),
    {
        if ch == '\n' {
            self.new_line();
            self.carriage_return();
        } else if ch == '\r' {
            self.carriage_return();
        } else {
            let byte = if (ch as u32) < 128 {
                ch as u8
            } else {
                PLACEHOLDER
            };
            let pos = self.cursor;
            let r = self.write_byte_at(byte, pos);
            assert(r is Ok);
            self.increment_cursor();
        }
    }

    /// Writes the characters of `s` in order under the permissive policy.
    pub fn add_str(&mut self, s: &str)
        requires
            old(self).wf(),
        ensures
            final(self).wf(),
            final(self)@ == run(old(self)@, s@),
    {
        let ghost start = self@;
        for ch in it: s.chars()
            invariant
                self.wf(),
                it.seq() == s@,
                self@ == run(start, s@.take(it.index() as int)),
        {
            proof {
                let k = it.index() as int;
                assert(s@.take(k + 1).drop_last() =~= s@.take(k));
            }
            self.add_char(ch);
        }
        assert(s@.take(s@.len() as int) =~= s@);
    }

    /// Writes one character under the permissive policy; never fails.
    pub fn write_char(&mut self, ch: char) -> (r: Result<(), EgaWriteError>)
        requires
            old(self).wf(),
        ensures
            final(self).wf(),
            r is Ok,
            final(self)@ == step(old(self)@, ch),
    {
        self.add_char(ch);
        Ok(())
    }

    /// Writes the characters of `s` in order under the permissive policy;
    /// never fails.
    pub fn write_str(&mut self, s: &str) -> (r: Result<(), EgaWriteError>)
        requires
            old(self).wf(),
        ensures
            final(self).wf(),
            r is Ok,
            final(self)@ == run(old(self)@, s@),
    {
        self.add_str(s);
        Ok(())
    }
}

/// The writer with the strict character policy, as the fixed 80 x 25 EGA
/// console is configured: a non-ASCII character is refused with
/// `NonAsciiCharacter` rather than written as `'?'`. Everything else behaves
/// as `WriterInner`.
pub struct EgaWriterInner<M> {
    inner: WriterInner<M>,
}

impl<M: CellMemory> View for EgaWriterInner<M> {
    type V = ConsoleView;

    closed spec fn view(&self) -> ConsoleView {
        self.inner@
    }
}

impl<M: CellMemory> EgaWriterInner<M> {
    /// The console state underneath is well formed.
    pub closed spec fn inner_wf(&self) -> bool {
        self.inner.wf()
    }

    /// The console is well formed, and so is its model.
    pub open spec fn wf(&self) -> bool {
        &&& self.inner_wf()
        &&& view_wf(self@)
    }

    /// A strict console over `buffer`, cursor at the top left, white on black.
    pub fn new(buffer: Buffer<M>) -> (r: Self)
        requires
            buffer.wf(),
        ensures
            r.wf(),
            r@.cells == buffer.cells(),
            r@.width == buffer.width(),
            r@.height == buffer.height(),
            r@.row == 0,
            r@.col == 0,
            r@.color == 0x0f,
    {
        EgaWriterInner { inner: WriterInner::new(buffer) }
    }

    /// The console state, with its buffer and cursor.
    pub fn inner(&self) -> (r: &WriterInner<M>)
        requires
            self.wf(),
        ensures
            r.wf(),
            r@ == self@,
    {
        &self.inner
    }

    /// Replaces the colour of subsequent writes and of scroll fill.
    pub fn set_color(&mut self, color: CgaColor)
        requires
            old(self).wf(),
        ensures
            final(self).wf(),
            final(self)@ == (ConsoleView { color: color.0, ..old(self)@ }),
    {
        self.inner.set_color(color.attribute());
    }

    /// Writes `byte` at `pos` in the current colour, as `WriterInner::write_byte_at`.
    pub fn write_byte_at(&mut self, byte: u8, pos: (usize, usize)) -> (r: Result<(), EgaWriteError>)
        requires
            old(self).wf(),
        ensures
            final(self).wf(),
            r is Ok <==> pos.0 < old(self)@.height && pos.1 < old(self)@.width,
            r is Ok ==> final(self)@ == (ConsoleView {
                cells: old(self)@.cells.update(
                    pos.0 * old(self)@.width + pos.1,
                    cell_value(byte, old(self)@.color),
                ),
                ..old(self)@
            }),
            r matches Err(e) ==> e == EgaWriteError::OutOfBoundsWrite && final(self)@ == old(self)@,
    {
        self.inner.write_byte_at(byte, pos)
    }

    /// Moves the cursor one column on, as `WriterInner::increment_cursor`.
    pub fn increment_cursor(&mut self)
        requires
            old(self).wf(),
        ensures
            final(self).wf(),
            final(self)@ == advance(old(self)@),
    {
        self.inner.increment_cursor();
    }

    /// Writes one character under the strict policy: as `add_char` for an
    /// ASCII character; a non-ASCII one is refused with `NonAsciiCharacter`
    /// and nothing changes.
    pub fn write_char(&mut self, ch: char) -> (r: Result<(), EgaWriteError>)
        requires
            old(self).wf(),
        ensures
            final(self).wf(),
            r is Ok <==> is_ascii_char(ch),
            r is Ok ==> final(self)@ == step(old(self)@, ch),
            r matches Err(e) ==> e == EgaWriteError::NonAsciiCharacter && final(self)@ == old(self)@,
    {
        if (ch as u32) < 128 {
            self.inner.add_char(ch);
            Ok(())
        } else {
            Err(EgaWriteError::NonAsciiCharacter)
        }
    }

    /// Writes the characters of `s` in order under the strict policy, and
    /// stops at the first non-ASCII character, which is refused with
    /// `NonAsciiCharacter`; what came before it stays written.
    pub fn write_str(&mut self, s: &str) -> (r: Result<(), EgaWriteError>)
        requires
            old(self).wf(),
        ensures
            final(self).wf(),
            r is Ok <==> (forall|i: int| 0 <= i < s@.len() ==> is_ascii_char(#[trigger] s@[i])),
            r is Ok ==> final(self)@ == run(old(self)@, s@),
            r matches Err(e) ==> {
                &&& e == EgaWriteError::NonAsciiCharacter
                &&& exists|k: int|
                    {
                        &&& 0 <= k < s@.len()
                        &&& !is_ascii_char(#[trigger] s@[k])
                        &&& forall|i: int| 0 <= i < k ==> is_ascii_char(#[trigger] s@[i])
                        &&& final(self)@ == run(old(self)@, s@.take(k))
                    }
            },
    {
        let ghost start = self@;
        for ch in it: s.chars()
            invariant
                self.wf(),
                it.seq() == s@,
                start == old(self)@,
                self@ == run(start, s@.take(it.index() as int)),
                forall|i: int| 0 <= i < it.index() ==> is_ascii_char(#[trigger] s@[i]),
        {
            let ghost k = it.index() as int;
            proof {
                assert(s@.take(k + 1).drop_last() =~= s@.take(k));
            }
            let r = self.write_char(ch);
            if r.is_err() {
                assert(ch == s@[k]);
                assert(!is_ascii_char(s@[k]));
                return r;
            }
        }
        assert(s@.take(s@.len() as int) =~= s@);
        Ok(())
    }
}

/// The cell that shows `byte` in `color`.
fn cell_value_of(byte: u8, color: VGAEntryColor) -> (r: u16)
    ensures
        r == cell_value(byte, color.0),
{
    VGAEntry { byte, color }.to_cell()
}

} // verus!
