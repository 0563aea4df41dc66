use nes_core::errors::StepError;
use nes_core::nes::Nes;

/// A minimal cartridge buffer: magic header, one 16KiB program unit holding
/// `prog` at its start, no tile data.
fn cart(prog: &[u8]) -> Vec<u8> {
    let mut buf = vec![0x4e, 0x45, 0x53, 0x1a, 1, 0];
    buf.resize(16, 0);
    let mut prg = prog.to_vec();
    prg.resize(0x4000, 0);
    buf.extend_from_slice(&prg);
    buf
}

fn boot(prog: &[u8]) -> Nes {
    let mut nes = Nes::new();
    nes.fetch(&cart(prog)).unwrap();
    nes
}

#[test]
fn lda_immediate_zero_sets_zero_clears_negative() {
    let mut nes = boot(&[0xA9, 0x00]);
    nes.exec().unwrap();
    assert_eq!(nes.register().get_a(), 0x00);
    assert!(nes.register().get_z());
    assert!(!nes.register().get_n());
    assert_eq!(nes.register().get_pc(), 0x8002);
}

#[test]
fn lda_immediate_ff_clears_zero() {
    let mut nes = boot(&[0xA9, 0xFF]);
    nes.exec().unwrap();
    assert_eq!(nes.register().get_a(), 0xFF);
    assert!(!nes.register().get_z());
    assert!(nes.register().get_n());
}

#[test]
fn bne_taken_moves_pc_backward_by_operand() {
    // LDA #$01 clears the zero flag; BNE -2 then lands back on itself.
    let mut nes = boot(&[0xA9, 0x01, 0xD0, 0xFE]);
    nes.exec().unwrap();
    assert_eq!(nes.register().get_pc(), 0x8002);
    nes.exec().unwrap();
    assert_eq!(nes.register().get_pc(), 0x8002);
}

#[test]
fn bne_not_taken_advances_by_mode_length() {
    // LDA #$00 sets the zero flag; BNE falls through.
    let mut nes = boot(&[0xA9, 0x00, 0xD0, 0xFE]);
    nes.exec().unwrap();
    nes.exec().unwrap();
    assert_eq!(nes.register().get_pc(), 0x8004);
}

#[test]
fn sta_then_lda_absolute_indexed_round_trips() {
    // LDA #$42; LDX #$05; STA $0300; LDA $02FB,X reads the stored byte.
    let mut nes = boot(&[0xA9, 0x42, 0xA2, 0x05, 0x8D, 0x00, 0x03, 0xBD, 0xFB, 0x02]);
    nes.exec().unwrap();
    nes.exec().unwrap();
    nes.exec().unwrap();
    assert_eq!(nes.ram().getU8Data(0x0300), 0x42);
    nes.exec().unwrap();
    assert_eq!(nes.register().get_a(), 0x42);
    assert_eq!(nes.register().get_pc(), 0x800A);
}

#[test]
fn jmp_absolute_sets_pc_directly() {
    let mut nes = boot(&[0x4C, 0x34, 0x12]);
    nes.exec().unwrap();
    assert_eq!(nes.register().get_pc(), 0x1234);
}

#[test]
fn sei_sets_interrupt_disable() {
    let mut nes = boot(&[0x78]);
    assert!(!nes.register().get_i());
    nes.exec().unwrap();
    assert!(nes.register().get_i());
    assert_eq!(nes.register().get_pc(), 0x8001);
}

#[test]
fn dey_wraps_and_recomputes_flags() {
    let mut nes = boot(&[0x88]);
    nes.exec().unwrap();
    assert_eq!(nes.register().get_y(), 0xFF);
    assert!(nes.register().get_n());
    assert!(!nes.register().get_z());
}

#[test]
fn inx_wraps_to_zero_and_sets_zero_flag() {
    let mut nes = boot(&[0xA2, 0xFF, 0xE8]);
    nes.exec().unwrap();
    nes.exec().unwrap();
    assert_eq!(nes.register().get_x(), 0x00);
    assert!(nes.register().get_z());
    assert!(!nes.register().get_n());
}

#[test]
fn ldy_immediate_loads_and_sets_flags() {
    let mut nes = boot(&[0xA0, 0x80]);
    nes.exec().unwrap();
    assert_eq!(nes.register().get_y(), 0x80);
    assert!(nes.register().get_n());
    assert!(!nes.register().get_z());
}

#[test]
fn tsx_copies_stack_pointer_into_x() {
    let mut nes = boot(&[0x9A]);
    nes.exec().unwrap();
    assert_eq!(nes.register().get_x(), nes.register().get_sp());
    assert!(nes.register().get_z());
}

#[test]
fn unknown_opcode_reports_byte_and_pc() {
    let mut nes = Nes::new();
    assert_eq!(nes.exec(), Err(StepError::Decode { opcode: 0x00, pc: 0x8000 }));
    assert_eq!(nes.register().get_pc(), 0x8000);
}

#[test]
fn step_runs_instruction_then_forwards_and_clears_io_window() {
    // LDA #$21; STA $2006: after the STA cycle the PPU has latched the
    // byte into its pointer's low-byte slot and the window is cleared.
    let mut nes = boot(&[0xA9, 0x21, 0x8D, 0x06, 0x20]);
    let frame = nes.step().unwrap();
    assert_eq!(frame.len(), 256 * 240 * 4);
    nes.step().unwrap();
    assert_eq!(nes.ram().getU8Data(0x2006), 0x00);
    assert_eq!(nes.ppu().get_ptr(), 0x0021);
}

#[test]
fn step_renders_blank_frame_without_tile_data() {
    let mut nes = boot(&[0xA9, 0x01]);
    let frame = nes.step().unwrap();
    assert_eq!(frame.len(), 245760);
    assert_eq!(frame[0], 0x00);
    assert_eq!(frame[1], 0x00);
    assert_eq!(frame[2], 0x00);
    assert_eq!(frame[3], 0xFF);
}
