use vstd::prelude::*;
use crate::buffer::Buffer;
use crate::console::{run, view_wf, ConsoleView, WriterInner};
use crate::error::InitError;
use crate::memory::CellMemory;

verus! {

/// Columns of the default text mode.
pub const VGA_WIDTH: usize = 80;

/// Rows of the default text mode.
pub const VGA_HEIGHT: usize = 25;

/// The pixel format of the display the boot loader set up.
#[derive(Copy, Clone, Debug, PartialEq, Eq, Structural)]
pub enum FramebufferFormat {
    Text,
    Rgb,
    Indexed,
}

/// What the boot loader reports of the display: its geometry in cells (text
/// mode) and its format.
#[derive(Copy, Clone, Debug, PartialEq, Eq, Structural)]
pub struct FramebufferInfo {
    pub width: usize,
    pub height: usize,
    pub format: FramebufferFormat,
}

impl FramebufferInfo {
    /// The number of cells a text-mode display spans. Any other format is
    /// refused with `UnsupportedFramebufferFormat`; a count past `usize` with
    /// `InvalidGeometry`.
    pub fn text_cells(&self) -> (r: Result<usize, InitError>)
        ensures
            self.format != FramebufferFormat::Text ==> r == Err::<usize, InitError>(
                InitError::UnsupportedFramebufferFormat,
            ),
            self.format == FramebufferFormat::Text && self.width * self.height <= usize::MAX ==> r
                == Ok::<usize, InitError>((self.width * self.height) as usize),
            self.format == FramebufferFormat::Text && self.width * self.height > usize::MAX ==> r
                == Err::<usize, InitError>(InitError::InvalidGeometry),
    {
        match self.format {
            FramebufferFormat::Text => match self.width.checked_mul(self.height) {
                Some(n) => Ok(n),
                None => Err(InitError::InvalidGeometry),
            },
            _ => Err(InitError::UnsupportedFramebufferFormat),
        }
    }
}

/// The console as set up once at boot: empty until `initialize` gives it a
/// buffer, which it then keeps for good.
pub struct Writer<M> {
    inner: Option<WriterInner<M>>,
}

/// The console that a successful set-up over `cells` of `width` x `height` starts as.
pub open spec fn fresh_console(cells: Seq<u16>, width: nat, height: nat) -> ConsoleView {
    ConsoleView { cells, width, height, row: 0, col: 0, color: 0x0f }
}

/// Whether `width` x `height` cells fit in `len` cells and are not empty.
pub open spec fn geometry_fits(width: nat, height: nat, len: nat) -> bool {
    0 < width && 0 < height && width * height <= len
}

impl<M: CellMemory> Writer<M> {
    /// Once set up, the console state is well formed.
    pub closed spec fn inner_wf(&self) -> bool {
        self.inner matches Some(w) ==> w.wf()
    }

    pub open spec fn wf(&self) -> bool {
        &&& self.inner_wf()
        &&& self.initialized() ==> view_wf(self.console())
    }

    pub closed spec fn initialized(&self) -> bool {
        self.inner is Some
    }

    /// The state of the console once initialized.
    pub closed spec fn console(&self) -> ConsoleView {
        self.inner->0@
    }

    /// A console that has not been set up yet.
    pub fn new() -> (r: Self)
        ensures
            r.wf(),
            !r.initialized(),
    {
        Writer { inner: None }
    }

    /// Whether the console has been set up.
    pub fn is_initialized(&self) -> (r: bool)
        ensures
            r == self.initialized(),
    {
        self.inner.is_some()
    }

    /// The console state, once set up.
    pub fn inner(&self) -> (r: Option<&WriterInner<M>>)
        requires
            self.wf(),
        ensures
            r is Some <==> self.initialized(),
            r matches Some(w) ==> w.wf() && w@ == self.console(),
    {
        match &self.inner {
            Some(w) => Some(w),
            None => None,
        }
    }

    /// Sets the console up once, over `memory` as a grid of `width` x `height`
    /// cells. A second call fails with `AlreadyInitialized` and leaves the
    /// first configuration as it was; a grid that is empty or larger than the
    /// memory fails with `InvalidGeometry`.
    pub fn initialize(&mut self, memory: M, width: usize, height: usize) -> (r: Result<(), InitError>)
        requires
            old(self).wf(),
        ensures
            final(self).wf(),
            old(self).initialized() ==> r == Err::<(), InitError>(InitError::AlreadyInitialized)
                && *final(self) == *old(self),
            !old(self).initialized() && !geometry_fits(width as nat, height as nat, memory.cells().len())
                ==> r == Err::<(), InitError>(InitError::InvalidGeometry) && !final(self).initialized(),
            !old(self).initialized() && geometry_fits(width as nat, height as nat, memory.cells().len())
                ==> r is Ok && final(self).initialized() && final(self).console() == fresh_console(
                memory.cells(),
                width as nat,
                height as nat,
            ),
    {
        if self.inner.is_some() {
            return Err(InitError::AlreadyInitialized);
        }
        match Buffer::new(memory, width, height) {
            Some(buffer) => {
                self.inner = Some(WriterInner::new(buffer));
                Ok(())
            },
            None => Err(InitError::InvalidGeometry),
        }
    }

    /// Writes `s` under the permissive policy, if the console is set up;
    /// returns whether it was. Before set-up nothing changes.
    pub fn add_str(&mut self, s: &str) -> (r: bool)
        requires
            old(self).wf(),
        ensures
            final(self).wf(),
            r == old(self).initialized(),
            final(self).initialized() == old(self).initialized(),
            r ==> final(self).console() == run(old(self).console(), s@),
            !r ==> *final(self) == *old(self),
    {
        match &mut self.inner {
            Some(w) => {
                w.add_str(s);
                true
            },
            None => false,
        }
    }
}

/// Sets the console up over the default text-mode geometry, 80 x 25.
pub fn setup_headless<M: CellMemory>(writer: &mut Writer<M>, memory: M) -> (r: Result<(), InitError>)
    requires
        old(writer).wf(),
    ensures
        final(writer).wf(),
        old(writer).initialized() ==> r == Err::<(), InitError>(InitError::AlreadyInitialized)
            && *final(writer) == *old(writer),
        !old(writer).initialized() && memory.cells().len() < 2000 ==> r == Err::<(), InitError>(
            InitError::InvalidGeometry,
        ) && !final(writer).initialized(),
        !old(writer).initialized() && memory.cells().len() >= 2000 ==> r is Ok
            && final(writer).initialized() && final(writer).console() == fresh_console(memory.cells(), 80, 25),
{
    writer.initialize(memory, VGA_WIDTH, VGA_HEIGHT)
}

/// Sets the console up over the display the boot loader describes. Only
/// text mode is supported: any other format fails with
/// `UnsupportedFramebufferFormat` and nothing changes.
pub fn setup_visuals<M: CellMemory>(writer: &mut Writer<M>, info: &FramebufferInfo, memory: M) -> (r:
    Result<(), InitError>)
    requires
        old(writer).wf(),
    ensures
        final(writer).wf(),
        info.format != FramebufferFormat::Text ==> r == Err::<(), InitError>(
            InitError::UnsupportedFramebufferFormat,
        ) && *final(writer) == *old(writer),
        info.format == FramebufferFormat::Text && old(writer).initialized() ==> r == Err::<
            (),
            InitError,
        >(InitError::AlreadyInitialized) && *final(writer) == *old(writer),
        info.format == FramebufferFormat::Text && !old(writer).initialized() && !geometry_fits(
            info.width as nat,
            info.height as nat,
            memory.cells().len(),
        ) ==> r == Err::<(), InitError>(InitError::InvalidGeometry) && !final(writer).initialized(),
        info.format == FramebufferFormat::Text && !old(writer).initialized() && geometry_fits(
            info.width as nat,
            info.height as nat,
            memory.cells().len(),
        ) ==> r is Ok && final(writer).initialized() && final(writer).console() == fresh_console(
            memory.cells(),
            info.width as nat,
            info.height as nat,
        ),
{
    match info.format {
        FramebufferFormat::Text => writer.initialize(memory, info.width, info.height),
        _ => Err(InitError::UnsupportedFramebufferFormat),
    }
}

} // verus!
