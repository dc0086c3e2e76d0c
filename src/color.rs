use vstd::prelude::*;

verus! {

/// One of the sixteen palette entries of text mode.
#[derive(Copy, Clone, Debug, PartialEq, Eq, Structural)]
pub enum VGAColor {
    Black,
    Blue,
    Green,
    Cyan,
    Red,
    Magenta,
    Brown,
    LightGrey,
    DarkGrey,
    LightBlue,
    LightGreen,
    LightCyan,
    LightRed,
    LightMagenta,
    LightBrown,
    White,
}

/// The palette index of a colour, as the hardware numbers it.
pub open spec fn palette_index(c: VGAColor) -> u8 {
    match c {
        VGAColor::Black => 0,
        VGAColor::Blue => 1,
        VGAColor::Green => 2,
        VGAColor::Cyan => 3,
        VGAColor::Red => 4,
        VGAColor::Magenta => 5,
        VGAColor::Brown => 6,
        VGAColor::LightGrey => 7,
        VGAColor::DarkGrey => 8,
        VGAColor::LightBlue => 9,
        VGAColor::LightGreen => 10,
        VGAColor::LightCyan => 11,
        VGAColor::LightRed => 12,
        VGAColor::LightMagenta => 13,
        VGAColor::LightBrown => 14,
        VGAColor::White => 15,
    }
}

/// The attribute byte of a foreground/background pair: background in the
/// high nibble, foreground in the low one.
pub open spec fn attribute_byte(fg: VGAColor, bg: VGAColor) -> u8 {
    (palette_index(bg) * 16 + palette_index(fg)) as u8
}

/// The 16-bit cell the hardware stores for a glyph: attribute in the high
/// byte, character code in the low byte.
pub open spec fn cell_value(byte: u8, attribute: u8) -> u16 {
    (attribute * 256 + byte) as u16
}

impl VGAColor {
    /// The palette index of this colour.
    pub fn index(self) -> (r: u8)
        ensures
            r == palette_index(self),
            r < 16,
    {
        match self {
            VGAColor::Black => 0,
            VGAColor::Blue => 1,
            VGAColor::Green => 2,
            VGAColor::Cyan => 3,
            VGAColor::Red => 4,
            VGAColor::Magenta => 5,
            VGAColor::Brown => 6,
            VGAColor::LightGrey => 7,
            VGAColor::DarkGrey => 8,
            VGAColor::LightBlue => 9,
            VGAColor::LightGreen => 10,
            VGAColor::LightCyan => 11,
            VGAColor::LightRed => 12,
            VGAColor::LightMagenta => 13,
            VGAColor::LightBrown => 14,
            VGAColor::White => 15,
        }
    }
}

/// A colour attribute: the byte that pairs a foreground and a background.
#[derive(Copy, Clone, Debug, PartialEq, Eq, Structural)]
pub struct VGAEntryColor(pub u8);

impl VGAEntryColor {
    /// Packs a foreground/background pair into one attribute byte.
    pub fn from_fg_bg(fg: VGAColor, bg: VGAColor) -> (r: Self)
        ensures
            r.0 == attribute_byte(fg, bg),
    {
        VGAEntryColor(bg.index() * 16 + fg.index())
    }

    /// White on black, the colour a console starts with.
    pub fn default_color() -> (r: Self)
        ensures
            r.0 == 0x0f,
    {
        VGAEntryColor::from_fg_bg(VGAColor::White, VGAColor::Black)
    }
}

/// A glyph as the buffer holds it: a character code and its colour.
#[derive(Copy, Clone, Debug, PartialEq, Eq, Structural)]
pub struct VGAEntry {
    pub byte: u8,
    pub color: VGAEntryColor,
}

impl VGAEntry {
    /// The 16-bit cell that holds this glyph.
    pub fn to_cell(self) -> (r: u16)
        ensures
            r == cell_value(self.byte, self.color.0),
    {
        (self.color.0 as u16) * 256 + (self.byte as u16)
    }

    /// The glyph that a 16-bit cell holds.
    pub fn from_cell(cell: u16) -> (r: Self)
        ensures
            cell_value(r.byte, r.color.0) == cell,
            r.byte == cell % 256,
            r.color.0 == cell / 256,
    {
        VGAEntry { byte: (cell % 256) as u8, color: VGAEntryColor((cell / 256) as u8) }
    }
}

/// A colour attribute as the fixed-geometry EGA writer names it.
#[derive(Copy, Clone, Debug)]
pub struct CgaColor(pub u8);

/// A character code together with its attribute, as one 16-bit cell.
#[derive(Copy, Clone, Debug)]
pub struct CgaCode(pub u16);

impl CgaColor {
    /// Packs a foreground/background pair into one attribute byte.
    pub fn new(fg: VGAColor, bg: VGAColor) -> (r: CgaColor)
        ensures
            r.0 == attribute_byte(fg, bg),
    {
        let f = fg.index();
        let b = bg.index();
        assert(f < 16 && b < 16 ==> f | (b << 4u8) == b * 16 + f) by (bit_vector);
        CgaColor(f | (b << 4))
    }

    /// The cell that shows `byte` in this colour.
    pub fn color(&self, byte: u8) -> (r: CgaCode)
        ensures
            r.0 == cell_value(byte, self.0),
    {
        let a = self.0 as u16;
        let c = byte as u16;
        assert(a < 256 && c < 256 ==> (a << 8u16) | c == a * 256 + c) by (bit_vector);
        CgaCode((a << 8) | c)
    }

    /// The same attribute, as the console state holds it.
    pub fn attribute(&self) -> (r: VGAEntryColor)
        ensures
            r.0 == self.0,
    {
        VGAEntryColor(self.0)
    }
}

} // verus!
