use vstd::prelude::*;
use voladdress::{Safe, VolRegion};

verus! {

/// Storage for the 16-bit cells of a text buffer, addressed by a flat index.
///
/// `cells` is the content that the storage holds; each access reads or writes
/// exactly one whole cell.
pub trait CellMemory {
    spec fn cells(&self) -> Seq<u16>;

    /// The number of cells.
    fn len(&self) -> (r: usize)
        ensures
            r == self.cells().len(),
    ;

    /// Reads the cell at `i`.
    fn read(&self, i: usize) -> (r: u16)
        requires
            i < self.cells().len(),
        ensures
            r == self.cells()[i as int],
    ;

    /// Writes the cell at `i`, in one access; no other cell changes.
    fn write(&mut self, i: usize, value: u16)
        requires
            i < old(self).cells().len(),
        ensures
            final(self).cells() == old(self).cells().update(i as int, value),
    ;
}

/// Cells held in ordinary memory: a stand-in for the hardware buffer.
pub struct SimulatedMemory {
    data: Vec<u16>,
}

impl SimulatedMemory {
    /// `len` cells, each holding `fill`.
    pub fn new(len: usize, fill: u16) -> (r: Self)
        ensures
            r.cells() == Seq::new(len as nat, |i: int| fill),
    {
        let mut data: Vec<u16> = Vec::new();
        let mut i: usize = 0;
        while i < len
            invariant
                i <= len,
                data@ == Seq::new(i as nat, |j: int| fill),
            decreases len - i,
        {
            data.push(fill);
            i = i + 1;
            assert(data@ =~= Seq::new(i as nat, |j: int| fill));
        }
        SimulatedMemory { data }
    }
}

impl CellMemory for SimulatedMemory {
    closed spec fn cells(&self) -> Seq<u16> {
        self.data@
    }

    fn len(&self) -> (r: usize) {
        self.data.len()
    }

    fn read(&self, i: usize) -> (r: u16) {
        self.data[i]
    }

    fn write(&mut self, i: usize, value: u16) {
        self.data.set(i, value);
    }
}

/// voladdress's `VolRegion`: an address and a length of volatile cells,
/// carried through as an opaque value.
#[verifier::external_type_specification]
#[verifier::external_body]
#[verifier::reject_recursive_types(T)]
#[verifier::reject_recursive_types(R)]
#[verifier::reject_recursive_types(W)]
pub struct ExVolRegion<T, R, W>(VolRegion<T, R, W>);

/// voladdress's `Safe` marker: reads and writes of the region need no `unsafe`.
#[verifier::external_type_specification]
#[verifier::external_body]
pub struct ExSafe(Safe);

/// The number of cells a region spans, as `VolRegion::len` gives it: the
/// length the region was made with.
pub uninterp spec fn region_len(r: VolRegion<u16, Safe, Safe>) -> nat;

/// Relies on voladdress's `VolRegion::len`, which returns the region's length.
#[verifier::external_body]
fn region_cell_count(r: &VolRegion<u16, Safe, Safe>) -> (n: usize)
    ensures
        n == region_len(*r),
{
    r.len()
}

/// Relies on voladdress's `VolRegion::index` (which panics past the end) and
/// `VolAddress::read`: one volatile read of cell `i`. Nothing is claimed of
/// the value; the hardware, or another handle, may have changed the cell.
#[verifier::external_body]
fn volatile_read(r: &VolRegion<u16, Safe, Safe>, i: usize) -> u16
    requires
        i < region_len(*r),
{
    r.index(i).read()
}

/// Relies on voladdress's `VolRegion::index` (which panics past the end) and
/// `VolAddress::write`: one volatile write of the whole cell `i`.
#[verifier::external_body]
fn volatile_write(r: &VolRegion<u16, Safe, Safe>, i: usize, value: u16)
    requires
        i < region_len(*r),
{
    r.index(i).write(value)
}

/// The hardware text buffer: a span of volatile memory, written one whole
/// cell per volatile write, in program order.
///
/// A `VolRegion` is a `Copy` address and enforces no exclusive access, so the
/// handle keeps its own copy of the cells: what it read from the region when
/// it was made, updated by every write through it. Reads come from that copy.
/// Another handle over the same region may change the hardware without this
/// copy knowing; `cells` then describes what this handle put on screen.
pub struct VolatileCells {
    region: VolRegion<u16, Safe, Safe>,
    shadow: Vec<u16>,
}

impl VolatileCells {
    /// A handle over `region`, starting from what the region holds now.
    pub fn from_region(region: VolRegion<u16, Safe, Safe>) -> (r: Self)
        ensures
            r.cells().len() == region_len(region),
    {
        let n = region_cell_count(&region);
        let mut shadow: Vec<u16> = Vec::new();
        let mut i: usize = 0;
        while i < n
            invariant
                i <= n,
                n == region_len(region),
                shadow@.len() == i,
            decreases n - i,
        {
            shadow.push(volatile_read(&region, i));
            i = i + 1;
        }
        VolatileCells { region, shadow }
    }
}

impl CellMemory for VolatileCells {
    /// The copy, cut to the region's length (the two lengths agree from
    /// construction on).
    closed spec fn cells(&self) -> Seq<u16> {
        if self.shadow@.len() <= region_len(self.region) {
            self.shadow@
        } else {
            self.shadow@.take(region_len(self.region) as int)
        }
    }

    fn len(&self) -> (r: usize) {
        let n = region_cell_count(&self.region);
        if self.shadow.len() <= n {
            self.shadow.len()
        } else {
            n
        }
    }

    fn read(&self, i: usize) -> (r: u16) {
        self.shadow[i]
    }

    fn write(&mut self, i: usize, value: u16) {
        volatile_write(&self.region, i, value);
        self.shadow.set(i, value);
        proof {
            if self.shadow@.len() > region_len(self.region) {
                assert(self.shadow@.take(region_len(self.region) as int) =~= old(self).cells().update(
                    i as int,
                    value,
                ));
            }
        }
    }
}

} // verus!
