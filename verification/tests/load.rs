use nes_core::errors::LoadError;
use nes_core::nes::Nes;
use nes_core::ram::Memory;

fn cart(units_prg: u8, units_chr: u8) -> Vec<u8> {
    let mut buf = vec![0x4e, 0x45, 0x53, 0x1a, units_prg, units_chr];
    buf.resize(16 + units_prg as usize * 0x4000 + units_chr as usize * 0x2000, 0);
    buf
}

#[test]
fn bad_magic_fails_and_leaves_state_untouched() {
    let mut nes = Nes::new();
    let mut buf = cart(1, 0);
    buf[0] = 0x00;
    buf[1] = 0x00;
    buf[2] = 0x00;
    buf[3] = 0x00;
    buf[16] = 0xA9;
    assert_eq!(nes.fetch(&buf), Err(LoadError::BadMagic));
    assert_eq!(nes.ram().getU8Data(0x8000), 0x00);
    assert_eq!(nes.ppu().get_ptr(), 0x0000);
    assert_eq!(nes.register().get_pc(), 0x8000);
}

#[test]
fn short_buffer_is_truncated() {
    let mut nes = Nes::new();
    assert_eq!(nes.fetch(&[0x4e, 0x45, 0x53, 0x1a, 1, 0]), Err(LoadError::Truncated));
}

#[test]
fn buffer_shorter_than_declared_regions_is_truncated() {
    let mut nes = Nes::new();
    let mut buf = cart(1, 0);
    buf.truncate(16 + 0x4000 - 1);
    assert_eq!(nes.fetch(&buf), Err(LoadError::Truncated));
}

#[test]
fn three_program_units_exceed_the_window() {
    let mut nes = Nes::new();
    assert_eq!(nes.fetch(&cart(3, 0)), Err(LoadError::ProgramTooLarge));
    assert_eq!(nes.fetch(&cart(2, 0)), Ok(()));
}

#[test]
fn two_tile_units_exceed_the_tile_store() {
    let mut nes = Nes::new();
    assert_eq!(nes.fetch(&cart(1, 2)), Err(LoadError::TileDataTooLarge));
    assert_eq!(nes.fetch(&cart(1, 1)), Ok(()));
}

#[test]
fn fetch_places_program_at_the_load_base() {
    let mut nes = Nes::new();
    let mut buf = cart(1, 0);
    buf[16] = 0xA9;
    buf[17] = 0x07;
    assert_eq!(nes.fetch(&buf), Ok(()));
    assert_eq!(nes.ram().getU8Data(0x8000), 0xA9);
    assert_eq!(nes.ram().getU8Data(0x8001), 0x07);
    assert_eq!(nes.ram().getU8Data(0x7FFF), 0x00);
}

#[test]
fn load_program_boundary_is_exactly_32k() {
    let mut mem = Memory::new();
    let exact = vec![0xABu8; 0x8000];
    assert_eq!(mem.readPRGROM(&exact), Ok(()));
    assert_eq!(mem.getU8Data(0x8000), 0xAB);
    assert_eq!(mem.getU8Data(0xFFFF), 0xAB);

    let mut mem = Memory::new();
    let over = vec![0xABu8; 0x8001];
    assert_eq!(mem.readPRGROM(&over), Err(LoadError::ProgramTooLarge));
    assert_eq!(mem.getU8Data(0x8000), 0x00);
}

#[test]
fn load_program_copies_bytes_verbatim() {
    let mut mem = Memory::new();
    mem.readPRGROM(&[1, 2, 3]).unwrap();
    assert_eq!(mem.getU8Data(0x8000), 1);
    assert_eq!(mem.getU8Data(0x8001), 2);
    assert_eq!(mem.getU8Data(0x8002), 3);
    assert_eq!(mem.getU8Data(0x8003), 0);
}

#[test]
fn memory_io_window_snapshot_and_reset() {
    let mut mem = Memory::new();
    mem.setU8Data(0x2006, 0x21);
    mem.setU8Data(0x2007, 0x42);
    let io = mem.get_ppu_io();
    assert_eq!(io, vec![0, 0, 0, 0, 0, 0, 0x21, 0x42]);
    mem.reset_ppu_io();
    assert_eq!(mem.get_ppu_io(), vec![0u8; 8]);
    assert_eq!(mem.getU8Data(0x2006), 0);
}

#[test]
fn memory_reads_back_writes() {
    let mut mem = Memory::new();
    mem.setU8Data(0x1234, 0x99);
    assert_eq!(mem.getU8Data(0x1234), 0x99);
    assert_eq!(mem.getU8Data(0x1235), 0x00);
}
