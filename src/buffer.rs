use vstd::prelude::*;
use crate::color::{cell_value, VGAEntry};
use crate::error::EgaWriteError;
use crate::memory::CellMemory;

verus! {

/// Offsets of the cells of a `width`-wide grid in row-major order stay below
/// `width * height`, and the cell below sits `width` cells further on.
pub proof fn lemma_offset_in_grid(row: int, col: int, width: int, height: int)
    requires
        0 <= row < height,
        0 <= col < width,
    ensures
        0 <= row * width,
        0 <= row * width + col < width * height,
        (row + 1) * width == row * width + width,
{
    assert(0 <= row * width) by (nonlinear_arith)
        requires
            0 <= row,
            0 <= width,
    ;
    assert(row * width + col < width * height) by (nonlinear_arith)
        requires
            0 <= row < height,
            0 <= col < width,
    ;
    assert((row + 1) * width == row * width + width) by (nonlinear_arith);
}

/// Two cells of a `width`-wide grid with the same row-major offset are the
/// same cell.
pub proof fn lemma_offsets_distinct(r1: int, c1: int, r2: int, c2: int, width: int)
    requires
        0 <= r1,
        0 <= r2,
        0 <= c1 < width,
        0 <= c2 < width,
        r1 * width + c1 == r2 * width + c2,
    ensures
        r1 == r2,
        c1 == c2,
{
    if r1 < r2 {
        assert(r1 * width + c1 < r2 * width + c2) by (nonlinear_arith)
            requires
                r1 < r2,
                0 <= c1 < width,
                0 <= c2,
        ;
    } else if r2 < r1 {
        assert(r2 * width + c2 < r1 * width + c1) by (nonlinear_arith)
            requires
                r2 < r1,
                0 <= c2 < width,
                0 <= c1,
        ;
    }
}

/// A bounds-checked view of a text buffer of `width` x `height` cells, laid
/// out row by row in the memory it owns.
pub struct Buffer<M> {
    mem: M,
    width: usize,
    height: usize,
}

impl<M: CellMemory> Buffer<M> {
    /// What the underlying memory holds, row by row.
    pub closed spec fn cells(&self) -> Seq<u16> {
        self.mem.cells()
    }

    pub closed spec fn width(&self) -> nat {
        self.width as nat
    }

    pub closed spec fn height(&self) -> nat {
        self.height as nat
    }

    /// The geometry is non-empty and fits in the memory.
    pub open spec fn wf(&self) -> bool {
        &&& 0 < self.width()
        &&& 0 < self.height()
        &&& self.width() * self.height() <= self.cells().len()
        &&& self.width() * self.height() <= usize::MAX
    }

    /// The flat offset of the cell at `(row, col)`.
    pub open spec fn offset(&self, row: int, col: int) -> int {
        row * self.width() + col
    }

    /// Whether `(row, col)` names a cell of the grid.
    pub open spec fn in_bounds(&self, row: int, col: int) -> bool {
        0 <= row < self.height() && 0 <= col < self.width()
    }

    /// The cell at `(row, col)`.
    pub open spec fn cell(&self, row: int, col: int) -> u16 {
        self.cells()[self.offset(row, col)]
    }

    /// A grid of `width` x `height` cells over `mem`; `None` when either side
    /// is zero or the memory holds fewer cells than the grid needs.
    pub fn new(mem: M, width: usize, height: usize) -> (r: Option<Self>)
        ensures
            r is Some <==> (0 < width && 0 < height && width * height <= mem.cells().len()),
            r matches Some(b) ==> {
                &&& b.wf()
                &&& b.cells() == mem.cells()
                &&& b.width() == width
                &&& b.height() == height
            },
    {
        if width == 0 || height == 0 {
            return None;
        }
        let len = mem.len();
        match width.checked_mul(height) {
            Some(n) => {
                if n <= len {
                    Some(Buffer { mem, width, height })
                } else {
                    None
                }
            },
            None => {
                assert(width * height > len) by (nonlinear_arith)
                    requires
                        width * height > usize::MAX,
                        len <= usize::MAX,
                ;
                None
            },
        }
    }

    /// The geometry, as `(height, width)`.
    pub fn size(&self) -> (r: (usize, usize))
        ensures
            r.0 == self.height(),
            r.1 == self.width(),
    {
        (self.height, self.width)
    }

    /// The memory under the grid.
    pub fn memory(&self) -> (r: &M)
        ensures
            r.cells() == self.cells(),
    {
        &self.mem
    }

    /// Reads the cell at flat offset `i`.
    pub fn read_at(&self, i: usize) -> (r: u16)
        requires
            self.wf(),
            i < self.width() * self.height(),
        ensures
            r == self.cells()[i as int],
    {
        self.mem.read(i)
    }

    /// Writes the cell at flat offset `i`; no other cell changes.
    pub fn write_at(&mut self, i: usize, value: u16)
        requires
            old(self).wf(),
            i < old(self).width() * old(self).height(),
        ensures
            final(self).wf(),
            final(self).width() == old(self).width(),
            final(self).height() == old(self).height(),
            final(self).cells() == old(self).cells().update(i as int, value),
    {
        self.mem.write(i, value);
    }

    /// The flat offset of the cell `idx == (row, col)`, which lies on the grid.
    /// Distinct cells have distinct offsets (`lemma_offsets_distinct`).
    pub fn index(&self, idx: (usize, usize)) -> (r: usize)
        requires
            self.wf(),
            self.in_bounds(idx.0 as int, idx.1 as int),
        ensures
            r == self.offset(idx.0 as int, idx.1 as int),
            r < self.width() * self.height(),
    {
        proof {
            lemma_offset_in_grid(idx.0 as int, idx.1 as int, self.width() as int, self.height() as int);
        }
        idx.0 * self.width + idx.1
    }

    /// The glyph at `(row, col)`, or `OutOfBoundsWrite` off the grid.
    pub fn read(&self, row: usize, col: usize) -> (r: Result<VGAEntry, EgaWriteError>)
        requires
            self.wf(),
        ensures
            r is Ok <==> self.in_bounds(row as int, col as int),
            r matches Ok(e) ==> cell_value(e.byte, e.color.0) == self.cell(row as int, col as int),
            r matches Err(e) ==> e == EgaWriteError::OutOfBoundsWrite,
    {
        if row < self.height && col < self.width {
            let i = self.index((row, col));
            Ok(VGAEntry::from_cell(self.mem.read(i)))
        } else {
            Err(EgaWriteError::OutOfBoundsWrite)
        }
    }

    /// Writes a glyph at `(row, col)` as one cell; off the grid nothing is
    /// written and the result is `OutOfBoundsWrite`.
    pub fn write(&mut self, row: usize, col: usize, entry: VGAEntry) -> (r: Result<
        (),
        EgaWriteError,
    >)
        requires
            old(self).wf(),
        ensures
            final(self).wf(),
            final(self).width() == old(self).width(),
            final(self).height() == old(self).height(),
            r is Ok <==> old(self).in_bounds(row as int, col as int),
            r is Ok ==> final(self).cells() == old(self).cells().update(
                old(self).offset(row as int, col as int),
                cell_value(entry.byte, entry.color.0),
            ),
            r matches Err(e) ==> e == EgaWriteError::OutOfBoundsWrite && final(self).cells()
                == old(self).cells(),
    {
        if row < self.height && col < self.width {
            let i = self.index((row, col));
            self.mem.write(i, entry.to_cell());
            Ok(())
        } else {
            Err(EgaWriteError::OutOfBoundsWrite)
        }
    }
}

} // verus!
