use vstd::prelude::*;
use crate::writer::{FramebufferFormat, FramebufferInfo};

verus! {

/// The magic number that opens a multiboot2 header.
pub const MAGIC: u32 = 0xE85250D6;

/// The architecture field: 32-bit protected mode of i386.
pub const ARCHITECTURE: u32 = 0;

/// The length in bytes of this kernel's header: the four fields, its
/// information request and the end tag.
pub const HEADER_LENGTH: u32 = 40;

/// The checksum of this kernel's multiboot2 header.
pub const HEADER_CHECKSUM: u32 = 0x17ADAF02;

/// The magic number that opens a multiboot (version 1) header.
pub const MULTIBOOT_MAGIC: u32 = 0x1BADB002;

/// Boot modules are loaded on page boundaries.
pub const FLAG_PAGE_ALIGNED_MODULES: u32 = 1;

/// The loader reports the memory map.
pub const FLAG_MEMORY_INFORMATION: u32 = 1 << 1;

/// The loader reports the video mode table.
pub const FLAG_VIDEO_MODE_TABLE: u32 = 1 << 2;

/// The header's address fields are valid.
pub const FLAG_CHECK_FURTHER_FIELDS: u32 = 1 << 16;

/// The flags this kernel's multiboot header asks for.
pub const BOOT_FLAGS: u32 = FLAG_PAGE_ALIGNED_MODULES | FLAG_MEMORY_INFORMATION;

/// The checksum of this kernel's multiboot (version 1) header.
pub const MULTIBOOT_CHECKSUM: u32 = 0xE4524FFB;

/// The fields of a header, checksum included, sum to zero modulo 2^32.
pub open spec fn sums_to_zero(a: u32, b: u32, c: u32, checksum: u32) -> bool {
    (a + b + c + checksum) % 0x1_0000_0000 == 0
}

/// The one 32-bit value that brings `a + b + c` to zero modulo 2^32.
pub open spec fn checksum_of(a: u32, b: u32, c: u32) -> u32 {
    ((0x1_0000_0000 - (a + b + c) % 0x1_0000_0000) % 0x1_0000_0000) as u32
}

/// The checksum that makes `magic + architecture + header_length + checksum`
/// zero modulo 2^32.
pub fn header_checksum(magic: u32, architecture: u32, header_length: u32) -> (r: u32)
    ensures
        r == checksum_of(magic, architecture, header_length),
        sums_to_zero(magic, architecture, header_length, r),
{
    let sum = architecture.wrapping_add(header_length).wrapping_add(magic);
    0u32.wrapping_sub(sum)
}

/// The fixed part of a multiboot2 header, as the loader reads it.
#[derive(Copy, Clone, Debug, PartialEq, Eq, Structural)]
pub struct BootHeader {
    pub magic: u32,
    pub architecture: u32,
    pub header_length: u32,
    pub checksum: u32,
}

impl BootHeader {
    /// A header with these fields and the checksum that matches them.
    pub fn new(magic: u32, architecture: u32, header_length: u32) -> (r: Self)
        ensures
            r.magic == magic,
            r.architecture == architecture,
            r.header_length == header_length,
            sums_to_zero(r.magic, r.architecture, r.header_length, r.checksum),
    {
        BootHeader { magic, architecture, header_length, checksum: header_checksum(magic, architecture, header_length) }
    }

    /// This kernel's header: i386, no tags.
    pub fn kernel() -> (r: Self)
        ensures
            r.magic == MAGIC,
            r.architecture == ARCHITECTURE,
            r.header_length == HEADER_LENGTH,
            r.checksum == HEADER_CHECKSUM,
            sums_to_zero(r.magic, r.architecture, r.header_length, r.checksum),
    {
        BootHeader::new(MAGIC, ARCHITECTURE, HEADER_LENGTH)
    }
}

/// A multiboot (version 1) header: magic, flags and their checksum.
#[derive(Copy, Clone, Debug, PartialEq, Eq, Structural)]
pub struct Multiboot {
    magic: u32,
    flags: u32,
    checksum: u32,
}

impl Multiboot {
    pub closed spec fn spec_magic(&self) -> u32 {
        self.magic
    }

    pub closed spec fn spec_flags(&self) -> u32 {
        self.flags
    }

    pub closed spec fn spec_checksum(&self) -> u32 {
        self.checksum
    }

    /// A header that asks for `flags`, with the checksum that matches.
    pub fn new(flags: u32) -> (r: Self)
        ensures
            r.spec_magic() == MULTIBOOT_MAGIC,
            r.spec_flags() == flags,
            sums_to_zero(r.spec_magic(), r.spec_flags(), 0, r.spec_checksum()),
    {
        Multiboot { magic: MULTIBOOT_MAGIC, flags, checksum: header_checksum(MULTIBOOT_MAGIC, flags, 0) }
    }

    /// This kernel's header: page-aligned modules and the memory map.
    pub fn boot_tag() -> (r: Self)
        ensures
            r.spec_magic() == MULTIBOOT_MAGIC,
            r.spec_flags() == 3,
            r.spec_checksum() == MULTIBOOT_CHECKSUM,
            sums_to_zero(r.spec_magic(), r.spec_flags(), 0, r.spec_checksum()),
    {
        assert(1u32 | (1u32 << 1u32) == 3u32) by (bit_vector);
        Multiboot::new(BOOT_FLAGS)
    }

    pub fn magic(&self) -> (r: u32)
        ensures
            r == self.spec_magic(),
    {
        self.magic
    }

    pub fn flags(&self) -> (r: u32)
        ensures
            r == self.spec_flags(),
    {
        self.flags
    }

    pub fn checksum(&self) -> (r: u32)
        ensures
            r == self.spec_checksum(),
    {
        self.checksum
    }
}

/// The boot information a multiboot (version 1) loader hands over.
#[derive(Copy, Clone, Debug, PartialEq, Eq)]
pub struct MultibootInfo {
    pub flags: u32,
    pub mem_lower: u32,
    pub mem_upper: u32,
    pub boot_device: u32,
    pub cmdline: u32,
    pub mods_count: u32,
    pub mods_addr: u32,
    pub syms: [u32; 4],
    pub mmap_length: u32,
    pub mmap_addr: u32,
    pub drives_length: u32,
    pub drives_addr: u32,
    pub config_table: u32,
    pub boot_loader_name: u32,
    pub apm_table: u32,
    pub vbe_control_info: u32,
    pub vbe_mode_info: u32,
    pub vbe_mode: u32,
    pub vbe_interface_seg: u32,
    pub vbe_interface_off: u32,
    pub vbe_interface_len: u16,
    pub framebuffer_addr: u64,
    pub framebuffer_pitch: u32,
    pub framebuffer_width: u32,
    pub framebuffer_height: u32,
    pub framebuffer_bpp: u32,
    pub framebuffer_type: u8,
    pub color_info: [u8; 5],
}

/// Whether bit `bit` of `flags` is set.
pub open spec fn flag_set(flags: u32, bit: nat) -> bool {
    (flags as nat / vstd::arithmetic::power2::pow2(bit)) % 2 == 1
}

/// The format a multiboot framebuffer type code names: 0 indexed, 1 RGB,
/// 2 EGA text.
pub open spec fn format_of_code(code: u8) -> Option<FramebufferFormat> {
    if code == 0 {
        Some(FramebufferFormat::Indexed)
    } else if code == 1 {
        Some(FramebufferFormat::Rgb)
    } else if code == 2 {
        Some(FramebufferFormat::Text)
    } else {
        None
    }
}

impl MultibootInfo {
    /// The display the loader describes: present when flag bit 12 is set and
    /// the type code is known. In text mode width and height count cells.
    pub fn framebuffer_info(&self) -> (r: Option<FramebufferInfo>)
        ensures
            r is Some <==> flag_set(self.flags, 12) && format_of_code(self.framebuffer_type) is Some,
            r matches Some(i) ==> {
                &&& Some(i.format) == format_of_code(self.framebuffer_type)
                &&& i.width == self.framebuffer_width
                &&& i.height == self.framebuffer_height
            },
    {
        let flags = self.flags;
        let set = (flags >> 12) & 1 == 1;
        assert(((flags >> 12u32) & 1u32 == 1u32) == ((flags / 4096) % 2 == 1)) by (bit_vector);
        proof {
            vstd::arithmetic::power2::lemma2_to64();
        }
        if !set {
            return None;
        }
        let format = if self.framebuffer_type == 0 {
            FramebufferFormat::Indexed
        } else if self.framebuffer_type == 1 {
            FramebufferFormat::Rgb
        } else if self.framebuffer_type == 2 {
            FramebufferFormat::Text
        } else {
            return None;
        };
        Some(
            FramebufferInfo {
                width: self.framebuffer_width as usize,
                height: self.framebuffer_height as usize,
                format,
            },
        )
    }
}

/// A tag of a multiboot2 header: its type, its flags, and the bytes that
/// follow its 8-byte head.
#[derive(Clone, Debug)]
pub struct HeaderTag {
    pub tag_type: u16,
    pub flags: u16,
    pub payload: Vec<u8>,
}

/// The tag type that asks the loader for information.
pub const TAG_INFORMATION_REQUEST: u16 = 1;

/// The tag flag (bit 0) that marks a tag as optional: a loader that does
/// not support it may ignore it.
pub const TAG_OPTIONAL: u16 = 1;

/// The boot information tag type of the framebuffer description.
pub const INFO_FRAMEBUFFER: u32 = 8;

/// The little-endian bytes of `x`.
pub open spec fn le_u16(x: u16) -> Seq<u8> {
    seq![(x % 0x100) as u8, (x / 0x100) as u8]
}

/// The little-endian bytes of `x`.
pub open spec fn le_u32(x: u32) -> Seq<u8> {
    seq![
        (x % 0x100) as u8,
        ((x / 0x100) % 0x100) as u8,
        ((x / 0x1_0000) % 0x100) as u8,
        (x / 0x100_0000) as u8,
    ]
}

/// The zero bytes that bring `n` bytes up to a multiple of 8.
pub open spec fn padding(n: nat) -> Seq<u8> {
    Seq::new(((8 - n % 8) % 8) as nat, |i: int| 0u8)
}

/// One tag as the loader reads it: type, flags, size (head and payload,
/// without padding), payload, then zeros up to the next 8-byte boundary.
pub open spec fn tag_record(tag_type: u16, flags: u16, payload: Seq<u8>) -> Seq<u8> {
    le_u16(tag_type) + le_u16(flags) + le_u32((8 + payload.len()) as u32) + payload + padding(
        payload.len(),
    )
}

/// The records of `tags`, in order.
pub open spec fn tag_records(tags: Seq<HeaderTag>) -> Seq<u8>
    decreases tags.len(),
{
    if tags.len() == 0 {
        Seq::empty()
    } else {
        let t = tags.last();
        tag_records(tags.drop_last()) + tag_record(t.tag_type, t.flags, t.payload@)
    }
}

/// The tags followed by the end tag: type 0, flags 0, size 8.
pub open spec fn header_body(tags: Seq<HeaderTag>) -> Seq<u8> {
    tag_records(tags) + tag_record(0, 0, Seq::empty())
}

/// A whole multiboot2 header: magic, architecture, the length of it all,
/// the checksum over those three, then the tags and the end tag.
pub open spec fn header_image(architecture: u32, tags: Seq<HeaderTag>) -> Seq<u8> {
    let len = (16 + header_body(tags).len()) as u32;
    le_u32(MAGIC) + le_u32(architecture) + le_u32(len) + le_u32(checksum_of(MAGIC, architecture, len))
        + header_body(tags)
}

proof fn lemma_records_grow(tags: Seq<HeaderTag>, k: int)
    requires
        0 <= k <= tags.len(),
    ensures
        tag_records(tags.take(k)).len() <= tag_records(tags).len(),
    decreases tags.len() - k,
{
    if k < tags.len() {
        lemma_records_grow(tags, k + 1);
        assert(tags.take(k + 1).drop_last() =~= tags.take(k));
    } else {
        assert(tags.take(k) =~= tags);
    }
}

fn push_u16(out: &mut Vec<u8>, x: u16)
    ensures
        final(out)@ == old(out)@ + le_u16(x),
{
    out.push((x % 0x100) as u8);
    out.push((x / 0x100) as u8);
    assert(final(out)@ =~= old(out)@ + le_u16(x));
}

fn push_u32(out: &mut Vec<u8>, x: u32)
    ensures
        final(out)@ == old(out)@ + le_u32(x),
{
    out.push((x % 0x100) as u8);
    out.push(((x / 0x100) % 0x100) as u8);
    out.push(((x / 0x1_0000) % 0x100) as u8);
    out.push((x / 0x100_0000) as u8);
    assert(final(out)@ =~= old(out)@ + le_u32(x));
}

fn push_bytes(out: &mut Vec<u8>, bytes: &Vec<u8>)
    ensures
        final(out)@ == old(out)@ + bytes@,
{
    let ghost start = out@;
    let mut i: usize = 0;
    while i < bytes.len()
        invariant
            i <= bytes.len(),
            out@ == start + bytes@.take(i as int),
        decreases bytes.len() - i,
    {
        out.push(bytes[i]);
        i = i + 1;
        assert(out@ =~= start + bytes@.take(i as int));
    }
    assert(bytes@.take(i as int) =~= bytes@);
}

fn push_record(out: &mut Vec<u8>, tag_type: u16, flags: u16, payload: &Vec<u8>)
    requires
        8 + payload.len() <= u32::MAX,
    ensures
        final(out)@ == old(out)@ + tag_record(tag_type, flags, payload@),
{
    push_u16(out, tag_type);
    push_u16(out, flags);
    push_u32(out, (8 + payload.len()) as u32);
    push_bytes(out, payload);
    let ghost before_pad = out@;
    let pad: usize = (8 - payload.len() % 8) % 8;
    let mut i: usize = 0;
    while i < pad
        invariant
            i <= pad,
            pad == (8 - payload@.len() % 8) % 8,
            out@ == before_pad + padding(payload@.len()).take(i as int),
        decreases pad - i,
    {
        out.push(0u8);
        i = i + 1;
        assert(out@ =~= before_pad + padding(payload@.len()).take(i as int));
    }
    assert(padding(payload@.len()).take(i as int) =~= padding(payload@.len()));
    assert(final(out)@ =~= old(out)@ + tag_record(tag_type, flags, payload@));
}

/// Encodes a multiboot2 header with `tags`, ends it with the end tag, and
/// derives its length and checksum from what it holds; `None` when the
/// length does not fit in 32 bits.
pub fn encode_header(architecture: u32, tags: &Vec<HeaderTag>) -> (r: Option<Vec<u8>>)
    ensures
        r is Some <==> 16 + header_body(tags@).len() <= u32::MAX,
        r matches Some(b) ==> b@ == header_image(architecture, tags@),
{
    let mut body: Vec<u8> = Vec::new();
    let mut i: usize = 0;
    while i < tags.len()
        invariant
            i <= tags.len(),
            body@ == tag_records(tags@.take(i as int)),
            body@.len() + 24 <= u32::MAX,
        decreases tags.len() - i,
    {
        let tag = &tags[i];
        proof {
            assert(tags@.take(i + 1).drop_last() =~= tags@.take(i as int));
            lemma_records_grow(tags@, i + 1);
        }
        if tag.payload.len() > 0xFFFF_FFFF - 24 - body.len() {
            return None;
        }
        push_record(&mut body, tag.tag_type, tag.flags, &tag.payload);
        i = i + 1;
        if body.len() > 0xFFFF_FFFF - 24 {
            proof {
                lemma_records_grow(tags@, i as int);
            }
            return None;
        }
    }
    assert(tags@.take(i as int) =~= tags@);
    let empty: Vec<u8> = Vec::new();
    push_record(&mut body, 0, 0, &empty);
    let len = (16 + body.len()) as u32;
    let mut out: Vec<u8> = Vec::new();
    push_u32(&mut out, MAGIC);
    push_u32(&mut out, architecture);
    push_u32(&mut out, len);
    push_u32(&mut out, header_checksum(MAGIC, architecture, len));
    push_bytes(&mut out, &body);
    assert(empty@ =~= Seq::<u8>::empty());
    assert(out@ =~= header_image(architecture, tags@));
    Some(out)
}

/// The tags of this kernel's header: an optional request for the
/// framebuffer description.
pub fn kernel_tags() -> (r: Vec<HeaderTag>)
    ensures
        r@.len() == 1,
        r@[0].tag_type == TAG_INFORMATION_REQUEST,
        r@[0].flags == TAG_OPTIONAL,
        r@[0].payload@ == le_u32(INFO_FRAMEBUFFER),
{
    let mut payload: Vec<u8> = Vec::new();
    push_u32(&mut payload, INFO_FRAMEBUFFER);
    assert(payload@ =~= le_u32(INFO_FRAMEBUFFER));
    vec![HeaderTag { tag_type: TAG_INFORMATION_REQUEST, flags: TAG_OPTIONAL, payload }]
}

/// This kernel's multiboot2 header as 32-bit little-endian words, for the
/// linker: magic, architecture, length, checksum, the framebuffer request
/// (type 1, optional, size 12, tag 8, padding) and the end tag (size 8).
pub const KERNEL_HEADER: [u32; 10] = [
    MAGIC,
    ARCHITECTURE,
    HEADER_LENGTH,
    HEADER_CHECKSUM,
    0x0001_0001,
    12,
    INFO_FRAMEBUFFER,
    0,
    0,
    8,
];

/// The little-endian bytes of a run of 32-bit words.
pub open spec fn words_le(words: Seq<u32>) -> Seq<u8>
    decreases words.len(),
{
    if words.len() == 0 {
        Seq::empty()
    } else {
        words_le(words.drop_last()) + le_u32(words.last())
    }
}

/// This kernel's header, encoded: 40 bytes whose length and checksum fields
/// are `HEADER_LENGTH` and `HEADER_CHECKSUM`, and which are the bytes of
/// `KERNEL_HEADER`.
pub fn kernel_header() -> (r: Vec<u8>)
    ensures
        r@.len() == HEADER_LENGTH,
        r@.subrange(8, 12) == le_u32(HEADER_LENGTH),
        r@.subrange(12, 16) == le_u32(HEADER_CHECKSUM),
        r@ == words_le(KERNEL_HEADER@),
{
    let tags = kernel_tags();
    proof {
        reveal_with_fuel(tag_records, 2);
        assert(tags@.drop_last() =~= Seq::<HeaderTag>::empty());
        assert(header_body(tags@).len() == 24);
    }
    match encode_header(ARCHITECTURE, &tags) {
        Some(bytes) => {
            proof {
                let img = header_image(ARCHITECTURE, tags@);
                assert(img.subrange(8, 12) =~= le_u32(HEADER_LENGTH));
                assert(img.subrange(12, 16) =~= le_u32(HEADER_CHECKSUM));
                reveal_with_fuel(words_le, 11);
                assert(KERNEL_HEADER@ =~= seq![
                    MAGIC,
                    ARCHITECTURE,
                    HEADER_LENGTH,
                    HEADER_CHECKSUM,
                    0x0001_0001u32,
                    12u32,
                    INFO_FRAMEBUFFER,
                    0u32,
                    0u32,
                    8u32,
                ]);
                assert(img =~= words_le(KERNEL_HEADER@));
            }
            bytes
        },
        None => {
            assert(false);
            Vec::new()
        },
    }
}

} // verus!
