use vga_console::{
    encode_header, fault_cells, header_checksum, kernel_header, kernel_tags, report_fault,
    setup_headless, setup_visuals, BootHeader, CellMemory, CgaColor, FramebufferFormat,
    FramebufferInfo, HeaderTag, InitError, Multiboot, MultibootInfo, SimulatedMemory, VGAColor,
    VGAEntryColor, Writer, FAULT_SCREEN_CELLS, KERNEL_HEADER,
};

#[test]
fn second_initialize_is_refused() {
    let mut writer: Writer<SimulatedMemory> = Writer::new();
    assert!(!writer.is_initialized());
    assert!(!writer.add_str("lost"));
    assert_eq!(writer.initialize(SimulatedMemory::new(40, 1), 8, 5), Ok(()));
    assert_eq!(
        writer.initialize(SimulatedMemory::new(2000, 2), 80, 25),
        Err(InitError::AlreadyInitialized)
    );
    let inner = writer.inner().unwrap();
    assert_eq!(inner.buffer().size(), (5, 8));
    assert_eq!(inner.buffer().memory().read(39), 1);
}

#[test]
fn initialize_checks_the_geometry() {
    let mut writer: Writer<SimulatedMemory> = Writer::new();
    assert_eq!(
        writer.initialize(SimulatedMemory::new(39, 0), 8, 5),
        Err(InitError::InvalidGeometry)
    );
    assert!(!writer.is_initialized());
    assert_eq!(writer.initialize(SimulatedMemory::new(40, 0), 8, 5), Ok(()));
}

#[test]
fn headless_setup_uses_80_by_25() {
    let mut writer: Writer<SimulatedMemory> = Writer::new();
    assert_eq!(setup_headless(&mut writer, SimulatedMemory::new(2000, 0)), Ok(()));
    assert_eq!(writer.inner().unwrap().buffer().size(), (25, 80));
    assert_eq!(
        setup_headless(&mut writer, SimulatedMemory::new(2000, 0)),
        Err(InitError::AlreadyInitialized)
    );
    let mut small: Writer<SimulatedMemory> = Writer::new();
    assert_eq!(
        setup_headless(&mut small, SimulatedMemory::new(1999, 0)),
        Err(InitError::InvalidGeometry)
    );
}

#[test]
fn only_text_framebuffers_are_supported() {
    for format in [FramebufferFormat::Rgb, FramebufferFormat::Indexed] {
        let mut writer: Writer<SimulatedMemory> = Writer::new();
        let info = FramebufferInfo { width: 80, height: 25, format };
        assert_eq!(
            setup_visuals(&mut writer, &info, SimulatedMemory::new(2000, 0)),
            Err(InitError::UnsupportedFramebufferFormat)
        );
        assert!(!writer.is_initialized());
    }
    let mut writer: Writer<SimulatedMemory> = Writer::new();
    let info = FramebufferInfo { width: 40, height: 10, format: FramebufferFormat::Text };
    assert_eq!(setup_visuals(&mut writer, &info, SimulatedMemory::new(400, 0)), Ok(()));
    assert_eq!(writer.inner().unwrap().buffer().size(), (10, 40));
}

#[test]
fn header_checksum_cancels_the_fields() {
    assert_eq!(header_checksum(0xE85250D6, 0, 16), 0x17ADAF1A);
    let header = BootHeader::kernel();
    assert_eq!(header.magic, 0xE85250D6);
    assert_eq!(header.header_length, 40);
    assert_eq!(header.checksum, 0x17ADAF02);
    let sum = header
        .magic
        .wrapping_add(header.architecture)
        .wrapping_add(header.header_length)
        .wrapping_add(header.checksum);
    assert_eq!(sum, 0);
    let odd = BootHeader::new(0xFFFF_FFFF, 0xFFFF_FFFF, 0xFFFF_FFFF);
    assert_eq!(odd.checksum, 3);
}

#[test]
fn multiboot_tag_has_matching_checksum() {
    let tag = Multiboot::boot_tag();
    assert_eq!(tag.magic(), 0x1BADB002);
    assert_eq!(tag.flags(), 3);
    assert_eq!(tag.checksum(), 0xE4524FFB);
}

#[test]
fn colors_pack_background_high() {
    assert_eq!(VGAEntryColor::from_fg_bg(VGAColor::White, VGAColor::Black), VGAEntryColor(0x0f));
    assert_eq!(VGAEntryColor::from_fg_bg(VGAColor::Blue, VGAColor::Red), VGAEntryColor(0x41));
    let c = CgaColor::new(VGAColor::LightBrown, VGAColor::Blue);
    assert_eq!(c.0, 0x1e);
    assert_eq!(c.color(b'A').0, 0x1e41);
    assert_eq!(c.attribute(), VGAEntryColor(0x1e));
    assert_eq!(VGAColor::White.index(), 15);
}

#[test]
fn fault_screen_shows_the_line() {
    let cells = fault_cells(Some(0x0102_0304));
    assert_eq!(cells.len(), FAULT_SCREEN_CELLS);
    assert_eq!(&cells[0..5], &[0x0f01, 0x0f02, 0x0f03, 0x0f04, 0x0f20]);
    assert!(cells[4..].iter().all(|c| *c == 0x0f20));
    let mut memory = SimulatedMemory::new(2001, 9);
    report_fault(&mut memory, Some(42));
    assert_eq!(memory.read(3), 0x0f2a);
    assert_eq!(memory.read(0), 0x0f00);
    assert_eq!(memory.read(1999), 0x0f20);
    assert_eq!(memory.read(2000), 9);
}

fn info(flags: u32, framebuffer_type: u8) -> MultibootInfo {
    MultibootInfo {
        flags,
        mem_lower: 0,
        mem_upper: 0,
        boot_device: 0,
        cmdline: 0,
        mods_count: 0,
        mods_addr: 0,
        syms: [0; 4],
        mmap_length: 0,
        mmap_addr: 0,
        drives_length: 0,
        drives_addr: 0,
        config_table: 0,
        boot_loader_name: 0,
        apm_table: 0,
        vbe_control_info: 0,
        vbe_mode_info: 0,
        vbe_mode: 0,
        vbe_interface_seg: 0,
        vbe_interface_off: 0,
        vbe_interface_len: 0,
        framebuffer_addr: 0xb8000,
        framebuffer_pitch: 160,
        framebuffer_width: 80,
        framebuffer_height: 25,
        framebuffer_bpp: 16,
        framebuffer_type,
        color_info: [0; 5],
    }
}

#[test]
fn multiboot_info_names_the_framebuffer() {
    let text = info(1 << 12, 2).framebuffer_info().unwrap();
    assert_eq!(text, FramebufferInfo { width: 80, height: 25, format: FramebufferFormat::Text });
    assert_eq!(info(1 << 12, 1).framebuffer_info().unwrap().format, FramebufferFormat::Rgb);
    assert_eq!(info(1 << 12, 0).framebuffer_info().unwrap().format, FramebufferFormat::Indexed);
    assert!(info(1 << 12, 3).framebuffer_info().is_none());
    assert!(info(0xffff_efff, 2).framebuffer_info().is_none());
}

#[test]
fn fault_screen_without_a_line_shows_a_mark() {
    let cells = fault_cells(None);
    assert_eq!(cells.len(), FAULT_SCREEN_CELLS);
    assert_eq!(cells[0], 0x0f61);
    assert!(cells[1..].iter().all(|c| *c == 0x0f20));
}

#[test]
fn text_cells_of_a_framebuffer() {
    let text = FramebufferInfo { width: 80, height: 25, format: FramebufferFormat::Text };
    assert_eq!(text.text_cells(), Ok(2000));
    let rgb = FramebufferInfo { width: 80, height: 25, format: FramebufferFormat::Rgb };
    assert_eq!(rgb.text_cells(), Err(InitError::UnsupportedFramebufferFormat));
    let huge = FramebufferInfo { width: usize::MAX, height: 2, format: FramebufferFormat::Text };
    assert_eq!(huge.text_cells(), Err(InitError::InvalidGeometry));
}

fn words(bytes: &[u8]) -> Vec<u32> {
    bytes.chunks(4).map(|c| u32::from_le_bytes([c[0], c[1], c[2], c[3]])).collect()
}

#[test]
fn header_without_tags_ends_with_the_end_tag() {
    let bytes = encode_header(0, &Vec::new()).unwrap();
    assert_eq!(words(&bytes), vec![0xE85250D6, 0, 24, header_checksum(0xE85250D6, 0, 24), 0, 8]);
}

#[test]
fn tags_are_padded_to_eight_bytes() {
    let tags = vec![
        HeaderTag { tag_type: 5, flags: 0, payload: vec![1, 2, 3, 4, 5, 6, 7, 8] },
        HeaderTag { tag_type: 6, flags: 1, payload: vec![9] },
    ];
    let bytes = encode_header(4, &tags).unwrap();
    assert_eq!(bytes.len(), 16 + 16 + 16 + 8);
    assert_eq!(&bytes[16..24], &[5, 0, 0, 0, 16, 0, 0, 0]);
    assert_eq!(&bytes[24..32], &[1, 2, 3, 4, 5, 6, 7, 8]);
    assert_eq!(&bytes[32..48], &[6, 0, 1, 0, 9, 0, 0, 0, 9, 0, 0, 0, 0, 0, 0, 0]);
    let w = words(&bytes);
    assert_eq!(w[2], 56);
    assert_eq!(w[0].wrapping_add(w[1]).wrapping_add(w[2]).wrapping_add(w[3]), 0);
}

#[test]
fn kernel_header_matches_the_linked_words() {
    let bytes = kernel_header();
    assert_eq!(words(&bytes), KERNEL_HEADER.to_vec());
    assert_eq!(encode_header(0, &kernel_tags()).unwrap(), bytes);
    assert_eq!(KERNEL_HEADER[2], 40);
    assert_eq!(KERNEL_HEADER[3], 0x17ADAF02);
}

#[test]
fn boot_greeting_lands_on_the_first_row() {
    let mut writer: Writer<SimulatedMemory> = Writer::new();
    assert_eq!(setup_headless(&mut writer, SimulatedMemory::new(2000, 0)), Ok(()));
    assert!(writer.is_initialized());
    assert!(writer.add_str("Hello, world!"));
    assert!(writer.add_str("\n"));
    let inner = writer.inner().unwrap();
    for (i, b) in b"Hello, world!".iter().enumerate() {
        assert_eq!(inner.buffer().memory().read(i), 0x0f00 | *b as u16);
    }
    assert_eq!(inner.cursor(), (1, 0));
}
