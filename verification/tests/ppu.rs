use nes_core::errors::LoadError;
use nes_core::ppu::{NesImage, Ppu};

fn io_addr(b: u8) -> Vec<u8> {
    vec![0, 0, 0, 0, 0, 0, b, 0]
}

fn io_data(b: u8) -> Vec<u8> {
    vec![0, 0, 0, 0, 0, 0, 0, b]
}

#[test]
fn vram_write_protocol_assembles_address_high_byte_first() {
    let mut ppu = Ppu::new();
    ppu.update(&io_addr(0x21));
    ppu.update(&io_addr(0x08));
    ppu.update(&io_data(0x42));
    assert_eq!(ppu.get_memory(0x2108, 0x2109), &[0x42]);
    assert_eq!(ppu.get_ptr(), 0x2109);
}

#[test]
fn vram_data_writes_advance_the_pointer() {
    let mut ppu = Ppu::new();
    ppu.update(&io_addr(0x20));
    ppu.update(&io_addr(0x01));
    ppu.update(&io_data(0x0A));
    ppu.update(&io_data(0x0B));
    assert_eq!(ppu.get_memory(0x2001, 0x2003), &[0x0A, 0x0B]);
    assert_eq!(ppu.get_ptr(), 0x2003);
}

#[test]
fn zero_on_either_port_means_no_write() {
    let mut ppu = Ppu::new();
    ppu.update(&vec![0; 8]);
    assert_eq!(ppu.get_ptr(), 0x0000);
    assert_eq!(ppu.get_memory(0x0000, 0x0001), &[0x00]);
}

#[test]
fn tile_decode_all_ff_yields_max_intensity_everywhere() {
    let img = NesImage::new(&[0xFF; 16]);
    for x in 0..8 {
        for y in 0..8 {
            assert_eq!(img.get_dot(x, y), 3);
        }
    }
}

#[test]
fn tile_decode_combines_bitplanes_with_reversed_columns() {
    let mut rec = [0u8; 16];
    rec[0] = 0x80; // low plane, row 0: bit 7 set -> column 0
    rec[8] = 0x01; // high plane, row 0: bit 0 set -> column 7
    let img = NesImage::new(&rec);
    assert_eq!(img.get_dot(0, 0), 1);
    assert_eq!(img.get_dot(7, 0), 2);
    for x in 1..7 {
        assert_eq!(img.get_dot(x, 0), 0);
    }
    for x in 0..8 {
        for y in 1..8 {
            assert_eq!(img.get_dot(x, y), 0);
        }
    }
}

#[test]
fn empty_tile_is_blank() {
    let img = NesImage::empty();
    for x in 0..8 {
        for y in 0..8 {
            assert_eq!(img.get_dot(x, y), 0);
        }
    }
}

#[test]
fn chr_rom_larger_than_tile_store_is_rejected() {
    let mut ppu = Ppu::new();
    let data = vec![0u8; 0x2001];
    assert_eq!(ppu.read_chr_rom(&data), Err(LoadError::TileDataTooLarge));
    let data = vec![0u8; 0x2000];
    assert_eq!(ppu.read_chr_rom(&data), Ok(()));
}

#[test]
fn draw_composites_name_table_through_palette() {
    let mut ppu = Ppu::new();
    // Tile 0 is solid max intensity; tile 1 stays blank.
    ppu.read_chr_rom(&[0xFF; 16]).unwrap();
    // Point name table cell (1, 0) at tile 1.  (A zero byte cannot be
    // latched on the address port, so cell (0, 0) at 0x2000 is out of the
    // protocol's reach.)
    ppu.update(&io_addr(0x20));
    ppu.update(&io_addr(0x01));
    ppu.update(&io_data(0x01));
    let frame = ppu.draw();
    assert_eq!(frame.len(), 245760);
    // Cell (0, 0) renders tile 0: white, opaque.
    assert_eq!(&frame[0..4], &[0xFF, 0xFF, 0xFF, 0xFF]);
    // Cell (1, 0) renders tile 1: black, opaque.
    let p = 4 * 8;
    assert_eq!(&frame[p..p + 4], &[0x00, 0x00, 0x00, 0xFF]);
    // A row inside the second cell row still renders tile 0.
    let q = 4 * (8 * 256 + 0);
    assert_eq!(&frame[q..q + 4], &[0xFF, 0xFF, 0xFF, 0xFF]);
}

#[test]
fn draw_maps_each_intensity_to_its_gray_level() {
    let mut ppu = Ppu::new();
    let mut rec = [0u8; 16];
    // Row 0 of tile 0: columns 7..0 get values 0,1,2,3 repeating.
    // low plane bits:  0,1,0,1,... from bit 0 upward -> 0b01010101
    // high plane bits: 0,0,1,1,... from bit 0 upward -> 0b00110011
    rec[0] = 0x55;
    rec[8] = 0x33;
    let img = NesImage::new(&rec);
    assert_eq!(img.get_dot(7, 0), 1 + 2);
    assert_eq!(img.get_dot(6, 0), 2);
    assert_eq!(img.get_dot(5, 0), 1);
    assert_eq!(img.get_dot(4, 0), 0);
    ppu.read_chr_rom(&rec).unwrap();
    let frame = ppu.draw();
    // Pixel (7, 0) has value 3, (6, 0) value 2, (5, 0) value 1, (4, 0) 0.
    assert_eq!(frame[4 * 7], 0xFF);
    assert_eq!(frame[4 * 6], 0xAA);
    assert_eq!(frame[4 * 5], 0x55);
    assert_eq!(frame[4 * 4], 0x00);
}
