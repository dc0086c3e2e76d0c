//! A text-mode console for an early-boot kernel: colour attributes, a
//! bounds-checked view of the hardware text buffer, and the cursor, wrap and
//! scroll logic that renders ASCII text into it.

pub mod boot;
pub mod buffer;
pub mod color;
pub mod console;
pub mod error;
pub mod fault;
pub mod laws;
pub mod memory;
pub mod writer;

pub use boot::{
    encode_header, header_checksum, kernel_header, kernel_tags, BootHeader, HeaderTag, Multiboot,
    MultibootInfo, KERNEL_HEADER,
};
pub use buffer::Buffer;
pub use color::{CgaCode, CgaColor, VGAColor, VGAEntry, VGAEntryColor};
pub use console::{ConsoleView, EgaWriterInner, WriterInner};
pub use error::{EgaWriteError, InitError};
pub use fault::{fault_cells, report_fault, FAULT_SCREEN_CELLS};
pub use laws::{
    law_cells_stay_whole, law_full_line_wraps, law_line_feed_and_return, law_screenful_scrolls_once,
    law_write_read_back,
};
pub use memory::{CellMemory, SimulatedMemory, VolatileCells};
pub use writer::{
    setup_headless, setup_visuals, FramebufferFormat, FramebufferInfo, Writer, VGA_HEIGHT, VGA_WIDTH,
};
