use vstd::prelude::*;
use crate::color::{cell_value, VGAEntry, VGAEntryColor};
use crate::console::BLANK;
use crate::memory::CellMemory;
use crate::writer::{VGA_HEIGHT, VGA_WIDTH};

verus! {

/// Cells of the fallback screen the fault path writes to.
pub const FAULT_SCREEN_CELLS: usize = 2000;

/// The attribute of the fault screen: white on black.
pub const FAULT_ATTRIBUTE: u8 = 0x0f;

/// The bytes of `line`, most significant first.
pub open spec fn line_bytes(line: u32) -> Seq<u8> {
    seq![
        (line / 0x100_0000) as u8,
        ((line / 0x1_0000) % 0x100) as u8,
        ((line / 0x100) % 0x100) as u8,
        (line % 0x100) as u8,
    ]
}

/// The character shown when the line of a fault is not known: `'a'`.
pub const NO_LINE_MARK: u8 = 0x61;

/// What the top left corner shows: the four bytes of the line, most
/// significant first, or a single `'a'` when the line is not known.
pub open spec fn fault_mark(line: Option<u32>) -> Seq<u8> {
    match line {
        Some(l) => line_bytes(l),
        None => seq![NO_LINE_MARK],
    }
}

/// The fault screen: the mark in the top left corner, blanks elsewhere.
pub open spec fn fault_screen(line: Option<u32>) -> Seq<u16> {
    Seq::new(
        FAULT_SCREEN_CELLS as nat,
        |i: int|
            if i < fault_mark(line).len() {
                cell_value(fault_mark(line)[i], FAULT_ATTRIBUTE)
            } else {
                cell_value(BLANK, FAULT_ATTRIBUTE)
            },
    )
}

/// The cells of the fault screen for a fault at `line`, if known.
pub fn fault_cells(line: Option<u32>) -> (r: Vec<u16>)
    ensures
        r@ == fault_screen(line),
{
    let color = VGAEntryColor(FAULT_ATTRIBUTE);
    let bytes: Vec<u8> = match line {
        Some(l) => vec![
            (l / 0x100_0000) as u8,
            ((l / 0x1_0000) % 0x100) as u8,
            ((l / 0x100) % 0x100) as u8,
            (l % 0x100) as u8,
        ],
        None => vec![NO_LINE_MARK],
    };
    assert(bytes@ =~= fault_mark(line));
    let mut cells: Vec<u16> = Vec::new();
    let mut i: usize = 0;
    while i < VGA_WIDTH * VGA_HEIGHT
        invariant
            i <= FAULT_SCREEN_CELLS,
            VGA_WIDTH * VGA_HEIGHT == FAULT_SCREEN_CELLS,
            bytes@ == fault_mark(line),
            color.0 == FAULT_ATTRIBUTE,
            cells@ == fault_screen(line).take(i as int),
        decreases FAULT_SCREEN_CELLS - i,
    {
        let byte = if i < bytes.len() {
            bytes[i]
        } else {
            BLANK
        };
        let cell = VGAEntry { byte, color }.to_cell();
        cells.push(cell);
        i = i + 1;
        assert(cells@ =~= fault_screen(line).take(i as int));
    }
    assert(cells@ =~= fault_screen(line));
    cells
}

/// Paints the fault screen for a fault at `line` over the first 80 x 25
/// cells of `memory`, one whole cell per write, whatever the console was
/// doing; cells past those stay.
pub fn report_fault<M: CellMemory>(memory: &mut M, line: Option<u32>)
    requires
        old(memory).cells().len() >= FAULT_SCREEN_CELLS,
    ensures
        final(memory).cells().len() == old(memory).cells().len(),
        final(memory).cells().take(FAULT_SCREEN_CELLS as int) == fault_screen(line),
        final(memory).cells().skip(FAULT_SCREEN_CELLS as int) == old(memory).cells().skip(
            FAULT_SCREEN_CELLS as int,
        ),
{
    let cells = fault_cells(line);
    let ghost start = memory.cells();
    let mut i: usize = 0;
    while i < cells.len()
        invariant
            cells@ == fault_screen(line),
            i <= FAULT_SCREEN_CELLS,
            memory.cells().len() == start.len(),
            start.len() >= FAULT_SCREEN_CELLS,
            forall|j: int| 0 <= j < i ==> memory.cells()[j] == cells@[j],
            forall|j: int| i <= j < start.len() ==> memory.cells()[j] == start[j],
        decreases FAULT_SCREEN_CELLS - i,
    {
        memory.write(i, cells[i]);
        i = i + 1;
    }
    assert(memory.cells().take(FAULT_SCREEN_CELLS as int) =~= fault_screen(line));
    assert(memory.cells().skip(FAULT_SCREEN_CELLS as int) =~= start.skip(FAULT_SCREEN_CELLS as int));
}

} // verus!
