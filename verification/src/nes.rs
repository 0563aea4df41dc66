use vstd::prelude::*;

use crate::errors::{LoadError, StepError};
use crate::opecode_dict::{opcode_spec, AddressingMode, Opecode, OpecodeDict, OpecodeName};
use crate::ppu::{frame_ok, tile_ok, tile_zero, update_spec, Ppu, PpuModel};
use crate::ram::Memory;
use crate::register::{add16, dec8, inc8, initial_registers, offset16, FlagsModel, RegisterModel, Register};
use crate::utility;

verus! {

/// Mathematical model of the whole console: the flat memory, the register
/// file, and the PPU.
pub ghost struct NesView {
    pub mem: Seq<u8>,
    pub reg: RegisterModel,
    pub ppu: PpuModel,
}

/// The byte at address `a`, taken modulo the space size.
pub open spec fn mem_byte(mem: Seq<u8>, a: int) -> u8 {
    mem[a % 0x10000]
}

/// The little-endian 16-bit absolute operand of the instruction at `pc`:
/// low byte first, high byte second.
pub open spec fn abs_operand(mem: Seq<u8>, pc: u16) -> int {
    mem_byte(mem, pc + 1) + 256 * mem_byte(mem, pc + 2)
}

/// Flags after recomputing negative and zero from an 8-bit result: the
/// negative flag takes the sign bit (bit 7), the zero flag the test for
/// zero; all other flags keep their values.
pub open spec fn set_nz(f: FlagsModel, v: u8) -> FlagsModel {
    FlagsModel { n: v >= 0x80, z: v == 0, ..f }
}

/// The two's-complement reading of an 8-bit value.
pub open spec fn to_signed8(v: u8) -> int {
    if v < 128 {
        v as int
    } else {
        v - 256
    }
}

proof fn lemma_u8_as_i8(v: u8)
    ensures
        (v as i8) as int == to_signed8(v),
{
    assert((v < 128 ==> (v as i8) as int == v as int) && (v >= 128 ==> (v as i8) as int == v
        - 256)) by (bit_vector);
}

/// The (mnemonic, mode) pairs the execution step implements.  Every pair
/// the instruction table registers is in this set; a pair outside it is a
/// distinct, explicit error rather than a silent fallthrough.
pub open spec fn supported(op: Opecode) -> bool {
    match (op.name, op.mode) {
        (OpecodeName::JMP, AddressingMode::ABS) => true,
        (OpecodeName::SEI, AddressingMode::IMP) => true,
        (OpecodeName::DEY, AddressingMode::IMP) => true,
        (OpecodeName::TSX, AddressingMode::IMP) => true,
        (OpecodeName::LDY, AddressingMode::IMD) => true,
        (OpecodeName::LDX, AddressingMode::IMD) => true,
        (OpecodeName::LDA, AddressingMode::IMD) => true,
        (OpecodeName::LDA, AddressingMode::ABX) => true,
        (OpecodeName::STA, AddressingMode::ABS) => true,
        (OpecodeName::INX, AddressingMode::IMP) => true,
        (OpecodeName::BNE, AddressingMode::REL) => true,
        _ => false,
    }
}

/// Memory after Store-A-Absolute writes the accumulator at `addr`.
pub open spec fn sta_mem(mem: Seq<u8>, addr: int, a: u8) -> Seq<u8> {
    mem.update(addr % 0x10000, a)
}

/// The byte Load-A-Absolute-Indexed-X reads: the absolute base plus the
/// widened 8-bit index, with no carry into a separate bank.
pub open spec fn lda_abx_val(mem: Seq<u8>, base: int, x: u8) -> u8 {
    mem_byte(mem, base + x)
}

/// The state after executing one decoded instruction.  The addressing mode
/// constrains operand fetch only; the PPU is never touched by execution.
pub open spec fn step_state(s: NesView, op: Opecode) -> NesView {
    let pc = s.reg.pc;
    match (op.name, op.mode) {
        (OpecodeName::JMP, AddressingMode::ABS) => NesView {
            reg: RegisterModel { pc: abs_operand(s.mem, pc) as u16, ..s.reg },
            ..s
        },
        (OpecodeName::SEI, AddressingMode::IMP) => NesView {
            reg: RegisterModel {
                pc: add16(pc, 1),
                flags: FlagsModel { i: true, ..s.reg.flags },
                ..s.reg
            },
            ..s
        },
        (OpecodeName::DEY, AddressingMode::IMP) => {
            let y2 = dec8(s.reg.y);
            NesView {
                reg: RegisterModel {
                    y: y2,
                    pc: add16(pc, 1),
                    flags: set_nz(s.reg.flags, y2),
                    ..s.reg
                },
                ..s
            }
        },
        (OpecodeName::TSX, AddressingMode::IMP) => NesView {
            reg: RegisterModel {
                x: s.reg.sp,
                pc: add16(pc, 1),
                flags: set_nz(s.reg.flags, s.reg.sp),
                ..s.reg
            },
            ..s
        },
        (OpecodeName::LDY, AddressingMode::IMD) => {
            let v = mem_byte(s.mem, pc + 1);
            NesView {
                reg: RegisterModel {
                    y: v,
                    pc: add16(pc, 2),
                    flags: set_nz(s.reg.flags, v),
                    ..s.reg
                },
                ..s
            }
        },
        (OpecodeName::LDX, AddressingMode::IMD) => {
            let v = mem_byte(s.mem, pc + 1);
            NesView {
                reg: RegisterModel {
                    x: v,
                    pc: add16(pc, 2),
                    flags: set_nz(s.reg.flags, v),
                    ..s.reg
                },
                ..s
            }
        },
        (OpecodeName::LDA, AddressingMode::IMD) => {
            let v = mem_byte(s.mem, pc + 1);
            NesView {
                reg: RegisterModel {
                    a: v,
                    pc: add16(pc, 2),
                    flags: set_nz(s.reg.flags, v),
                    ..s.reg
                },
                ..s
            }
        },
        (OpecodeName::LDA, AddressingMode::ABX) => {
            let v = lda_abx_val(s.mem, abs_operand(s.mem, pc), s.reg.x);
            NesView {
                reg: RegisterModel {
                    a: v,
                    pc: add16(pc, 3),
                    flags: set_nz(s.reg.flags, v),
                    ..s.reg
                },
                ..s
            }
        },
        (OpecodeName::STA, AddressingMode::ABS) => NesView {
            mem: sta_mem(s.mem, abs_operand(s.mem, pc), s.reg.a),
            reg: RegisterModel { pc: add16(pc, 3), ..s.reg },
            ..s
        },
        (OpecodeName::INX, AddressingMode::IMP) => {
            let x2 = inc8(s.reg.x);
            NesView {
                reg: RegisterModel {
                    x: x2,
                    pc: add16(pc, 1),
                    flags: set_nz(s.reg.flags, x2),
                    ..s.reg
                },
                ..s
            }
        },
        (OpecodeName::BNE, AddressingMode::REL) => {
            if s.reg.flags.z {
                NesView { reg: RegisterModel { pc: add16(pc, 2), ..s.reg }, ..s }
            } else {
                NesView {
                    reg: RegisterModel {
                        pc: offset16(add16(pc, 2), to_signed8(mem_byte(s.mem, pc + 1))),
                        ..s.reg
                    },
                    ..s
                }
            }
        },
        _ => s,
    }
}

/// The 8-byte PPU I/O window as the PPU sees it each cycle.
pub open spec fn io_window(mem: Seq<u8>) -> Seq<u8> {
    Seq::new(8, |i: int| mem[0x2000 + i])
}

/// Memory after the orchestrator clears the PPU I/O window.
pub open spec fn clear_io(mem: Seq<u8>) -> Seq<u8> {
    Seq::new(
        mem.len(),
        |a: int|
            if 0x2000 <= a < 0x2008 {
                0u8
            } else {
                mem[a]
            },
    )
}

/// True when the buffer begins with the 4-byte cartridge magic sequence.
pub open spec fn magic_ok(buf: Seq<u8>) -> bool {
    buf[0] == 0x4e && buf[1] == 0x45 && buf[2] == 0x53 && buf[3] == 0x1a
}

/// The emulator core: exclusive owner of memory, registers, PPU, and the
/// instruction table.
pub struct Nes {
    ram: Memory,
    register: Register,
    ppu: Ppu,
    opecode_dict: OpecodeDict,
}

impl View for Nes {
    type V = NesView;

    closed spec fn view(&self) -> NesView {
        NesView { mem: self.ram@, reg: self.register@, ppu: self.ppu@ }
    }
}

impl Nes {
    pub closed spec fn wf(&self) -> bool {
        &&& self.ram.wf()
        &&& self.ppu.wf()
        &&& self.opecode_dict.wf()
    }

    /// A console at power-on: memory clear, registers at their initial
    /// values, PPU empty, instruction table built.
    pub fn new() -> (r: Nes)
        ensures
            r.wf(),
            r@.reg == initial_registers(),
            forall|a: int| 0 <= a < 0x10000 ==> r@.mem[a] == 0,
            r@.ppu.ptr == 0,
            forall|a: int| 0 <= a < 0x4000 ==> r@.ppu.vram[a] == 0,
            forall|t: int| 0 <= t < 512 ==> tile_zero(#[trigger] r@.ppu.tiles[t]),
    {
        Nes {
            ram: Memory::new(),
            register: Register::new(),
            ppu: Ppu::new(),
            opecode_dict: OpecodeDict::new(),
        }
    }

    /// Read-only view of the register file.
    pub fn register(&self) -> (r: &Register)
        ensures
            r@ == self@.reg,
    {
        &self.register
    }

    /// Read-only view of addressable memory.
    pub fn ram(&self) -> (r: &Memory)
        ensures
            r@ == self@.mem,
            self.wf() ==> r.wf(),
    {
        &self.ram
    }

    /// Read-only view of the PPU.
    pub fn ppu(&self) -> (r: &Ppu)
        ensures
            r@ == self@.ppu,
            self.wf() ==> r.wf(),
    {
        &self.ppu
    }

    /// Ingest a cartridge buffer that a collaborator has already read:
    /// validate the magic sequence and the declared region sizes, then hand
    /// the program bytes to memory and the tile bytes to the PPU.  Every
    /// failure leaves the whole console untouched.
    pub fn fetch(&mut self, buf: &[u8]) -> (r: Result<(), LoadError>)
        requires
            old(self).wf(),
        ensures
            final(self).wf(),
            ({
                let s = old(self)@;
                let bl = buf@.len();
                if bl < 16 {
                    r == Err::<(), LoadError>(LoadError::Truncated) && final(self)@ == s
                } else if !magic_ok(buf@) {
                    r == Err::<(), LoadError>(LoadError::BadMagic) && final(self)@ == s
                } else {
                    let np = buf@[4] * 0x4000;
                    let nc = buf@[5] * 0x2000;
                    if bl < 16 + np + nc {
                        r == Err::<(), LoadError>(LoadError::Truncated) && final(self)@ == s
                    } else if np > 0x8000 {
                        r == Err::<(), LoadError>(LoadError::ProgramTooLarge) && final(self)@ == s
                    } else if nc > 0x2000 {
                        r == Err::<(), LoadError>(LoadError::TileDataTooLarge) && final(self)@ == s
                    } else {
                        &&& r == Ok::<(), LoadError>(())
                        &&& final(self)@.reg == s.reg
                        &&& final(self)@.ppu.vram == s.ppu.vram
                        &&& final(self)@.ppu.ptr == s.ppu.ptr
                        &&& forall|a: int|
                            0 <= a < 0x10000 ==> final(self)@.mem[a] == (if 0x8000 <= a < 0x8000
                                + np {
                                buf@[16 + (a - 0x8000)]
                            } else {
                                s.mem[a]
                            })
                        &&& forall|t: int|
                            0 <= t < nc / 16 ==> tile_ok(
                                #[trigger] final(self)@.ppu.tiles[t],
                                buf@.subrange(16 + np + 16 * t, 16 + np + 16 * t + 16),
                            )
                        &&& forall|t: int|
                            nc / 16 <= t < 512 ==> tile_zero(#[trigger] final(self)@.ppu.tiles[t])
                    }
                }
            }),
    {
        if buf.len() < 16 {
            return Err(LoadError::Truncated);
        }
        if !(buf[0] == 0x4e && buf[1] == 0x45 && buf[2] == 0x53 && buf[3] == 0x1a) {
            return Err(LoadError::BadMagic);
        }
        let units_prg = buf[4] as usize;
        let units_chr = buf[5] as usize;
        let prg_len = units_prg * 0x4000;
        let chr_len = units_chr * 0x2000;
        let prg_start: usize = 16;
        let prg_end = prg_start + prg_len;
        let chr_end = prg_end + chr_len;
        if buf.len() < chr_end {
            return Err(LoadError::Truncated);
        }
        if prg_len > 0x8000 {
            return Err(LoadError::ProgramTooLarge);
        }
        if chr_len > 0x2000 {
            return Err(LoadError::TileDataTooLarge);
        }
        match self.ram.readPRGROM(&buf[prg_start..prg_end]) {
            Ok(()) => {},
            Err(e) => {
                return Err(e);
            },
        }
        let chr = &buf[prg_end..chr_end];
        match self.ppu.read_chr_rom(chr) {
            Ok(()) => {},
            Err(e) => {
                return Err(e);
            },
        }
        proof {
            let np = buf@[4] * 0x4000;
            let nc = buf@[5] * 0x2000;
            assert(chr@.len() == nc);
            assert forall|t: int| 0 <= t < nc / 16 implies tile_ok(
                #[trigger] self@.ppu.tiles[t],
                buf@.subrange(16 + np + 16 * t, 16 + np + 16 * t + 16),
            ) by {
                assert(tile_ok(self@.ppu.tiles[t], chr@.subrange(16 * t, 16 * t + 16)));
                assert(chr@.subrange(16 * t, 16 * t + 16) =~= buf@.subrange(
                    16 + np + 16 * t,
                    16 + np + 16 * t + 16,
                ));
            }
        }
        Ok(())
    }

    /// The byte at `offset` past the current program counter, the address
    /// taken modulo the space size.
    pub fn read_pc_data(&self, offset: usize) -> (r: u8)
        requires
            self.wf(),
            offset < 0x10000,
        ensures
            r == mem_byte(self@.mem, self@.reg.pc + offset),
    {
        let pc = self.register.get_pc();
        self.ram.getU8Data(pc + offset)
    }

    /// Fetch the byte at the program counter, decode it through the
    /// instruction table, and execute it.  An absent byte or an
    /// unsupported (mnemonic, mode) pair is a hard stop that names the
    /// byte and the program counter and leaves the console untouched.
    pub fn exec(&mut self) -> (r: Result<(), StepError>)
        requires
            old(self).wf(),
        ensures
            final(self).wf(),
            ({
                let s = old(self)@;
                let b = mem_byte(s.mem, s.reg.pc as int);
                match opcode_spec(b) {
                    Option::None => r == Err::<(), StepError>(
                        StepError::Decode { opcode: b, pc: s.reg.pc },
                    ) && final(self)@ == s,
                    Option::Some(op) => if supported(op) {
                        r == Ok::<(), StepError>(()) && final(self)@ == step_state(s, op)
                    } else {
                        r == Err::<(), StepError>(
                            StepError::Unimplemented { opcode: b, pc: s.reg.pc },
                        ) && final(self)@ == s
                    },
                }
            }),
    {
        let pcu = self.register.get_pc();
        let opecode = self.read_pc_data(0);
        let operand = match self.opecode_dict.searchOpecode(&opecode) {
            Ok(op) => op,
            Err(_) => {
                return Err(StepError::Decode { opcode: opecode, pc: pcu as u16 });
            },
        };
        match (operand.name, operand.mode) {
            (OpecodeName::JMP, AddressingMode::ABS) => {
                let lo = self.read_pc_data(1);
                let hi = self.read_pc_data(2);
                let addr = (hi as usize) * 256 + (lo as usize);
                self.register.set_pc(addr);
            },
            (OpecodeName::SEI, AddressingMode::IMP) => {
                self.register.set_i(true);
                let n = operand.mode.getOperandNum();
                self.register.increment_pc(n);
            },
            (OpecodeName::DEY, AddressingMode::IMP) => {
                self.register.decriment_y();
                let n = operand.mode.getOperandNum();
                self.register.increment_pc(n);
                let value = self.register.get_y();
                let nf = utility::is_up_7bit(value);
                self.register.set_n(nf);
                let zf = utility::is_zero(value);
                self.register.set_z(zf);
            },
            (OpecodeName::TSX, AddressingMode::IMP) => {
                let value = self.register.get_sp();
                self.register.set_x(value);
                let n = operand.mode.getOperandNum();
                self.register.increment_pc(n);
                let value = self.register.get_x();
                let nf = utility::is_up_7bit(value);
                self.register.set_n(nf);
                let zf = utility::is_zero(value);
                self.register.set_z(zf);
            },
            (OpecodeName::LDY, AddressingMode::IMD) => {
                let v = self.read_pc_data(1);
                self.register.set_y(v);
                let n = operand.mode.getOperandNum();
                self.register.increment_pc(n);
                let value = self.register.get_y();
                let nf = utility::is_up_7bit(value);
                self.register.set_n(nf);
                let zf = utility::is_zero(value);
                self.register.set_z(zf);
            },
            (OpecodeName::LDX, AddressingMode::IMD) => {
                let v = self.read_pc_data(1);
                self.register.set_x(v);
                let n = operand.mode.getOperandNum();
                self.register.increment_pc(n);
                let value = self.register.get_x();
                let nf = utility::is_up_7bit(value);
                self.register.set_n(nf);
                let zf = utility::is_zero(value);
                self.register.set_z(zf);
            },
            (OpecodeName::LDA, AddressingMode::IMD) => {
                let v = self.read_pc_data(1);
                self.register.set_a(v);
                let n = operand.mode.getOperandNum();
                self.register.increment_pc(n);
                let value = self.register.get_a();
                let nf = utility::is_up_7bit(value);
                self.register.set_n(nf);
                let zf = utility::is_zero(value);
                self.register.set_z(zf);
            },
            (OpecodeName::LDA, AddressingMode::ABX) => {
                let lo = self.read_pc_data(1);
                let hi = self.read_pc_data(2);
                let x = self.register.get_x();
                let addr = (hi as usize) * 256 + (lo as usize) + (x as usize);
                let m = self.ram.getU8Data(addr);
                self.register.set_a(m);
                let n = operand.mode.getOperandNum();
                self.register.increment_pc(n);
                let value = self.register.get_a();
                let nf = utility::is_up_7bit(value);
                self.register.set_n(nf);
                let zf = utility::is_zero(value);
                self.register.set_z(zf);
            },
            (OpecodeName::STA, AddressingMode::ABS) => {
                let lo = self.read_pc_data(1);
                let hi = self.read_pc_data(2);
                let addr = (hi as usize) * 256 + (lo as usize);
                let a = self.register.get_a();
                self.ram.setU8Data(addr, a);
                let n = operand.mode.getOperandNum();
                self.register.increment_pc(n);
            },
            (OpecodeName::INX, AddressingMode::IMP) => {
                self.register.incriment_x();
                let n = operand.mode.getOperandNum();
                self.register.increment_pc(n);
                let value = self.register.get_x();
                let nf = utility::is_up_7bit(value);
                self.register.set_n(nf);
                let zf = utility::is_zero(value);
                self.register.set_z(zf);
            },
            (OpecodeName::BNE, AddressingMode::REL) => {
                if !self.register.get_z() {
                    let offbyte = self.read_pc_data(1);
                    let n = operand.mode.getOperandNum();
                    self.register.increment_pc(n);
                    let off = offbyte as i8;
                    proof {
                        lemma_u8_as_i8(offbyte);
                    }
                    self.register.add_pc_signed(off);
                } else {
                    let n = operand.mode.getOperandNum();
                    self.register.increment_pc(n);
                }
            },
            _ => {
                return Err(StepError::Unimplemented { opcode: opecode, pc: pcu as u16 });
            },
        }
        Ok(())
    }

    /// Snapshot of the 8-byte PPU I/O window.
    fn get_ppu_io(&self) -> (r: Vec<u8>)
        requires
            self.wf(),
        ensures
            r@ =~= io_window(self@.mem),
    {
        let r = self.ram.get_ppu_io();
        proof {
            assert(r@ =~= io_window(self@.mem));
        }
        r
    }

    /// Clear the 8-byte PPU I/O window.
    fn ppu_io_reset(&mut self)
        requires
            old(self).wf(),
        ensures
            final(self).wf(),
            final(self)@ == (NesView { mem: clear_io(old(self)@.mem), ..old(self)@ }),
    {
        self.ram.reset_ppu_io();
        proof {
            assert(self.ram@ =~= clear_io(old(self)@.mem));
        }
    }

    /// One full cycle: execute the instruction at the program counter, hand
    /// the 8-byte I/O window to the PPU, clear the window, and render the
    /// frame.  Decode and execution always precede the PPU update; the PPU
    /// never observes mid-instruction memory state.
    pub fn step(&mut self) -> (r: Result<Vec<u8>, StepError>)
        requires
            old(self).wf(),
        ensures
            final(self).wf(),
            ({
                let s = old(self)@;
                let b = mem_byte(s.mem, s.reg.pc as int);
                match opcode_spec(b) {
                    Option::None => r == Err::<Vec<u8>, StepError>(
                        StepError::Decode { opcode: b, pc: s.reg.pc },
                    ) && final(self)@ == s,
                    Option::Some(op) => if supported(op) {
                        let s1 = step_state(s, op);
                        let p2 = update_spec(s1.ppu, io_window(s1.mem));
                        &&& r matches Ok(frame) && frame_ok(frame@, p2)
                        &&& final(self)@ == (NesView { mem: clear_io(s1.mem), reg: s1.reg, ppu: p2 })
                    } else {
                        r == Err::<Vec<u8>, StepError>(
                            StepError::Unimplemented { opcode: b, pc: s.reg.pc },
                        ) && final(self)@ == s
                    },
                }
            }),
    {
        match self.exec() {
            Ok(()) => {},
            Err(e) => {
                return Err(e);
            },
        }
        let io = self.get_ppu_io();
        self.ppu.update(&io);
        self.ppu_io_reset();
        let frame = self.ppu.draw();
        Ok(frame)
    }
}

/// Law: a byte stored by Store-A-Absolute at `addr` is read back exactly by
/// Load-A-Absolute-Indexed-X with base `addr - x` and index `x`, for every
/// 8-bit index that keeps the base within the memory bound.
pub proof fn lemma_store_load_round_trip(mem: Seq<u8>, addr: u16, x: u8, a: u8)
    requires
        mem.len() == 0x10000,
        x <= addr,
    ensures
        lda_abx_val(sta_mem(mem, addr as int, a), addr - x, x) == a,
{
    assert(addr as int % 0x10000 == addr);
    assert((addr - x + x) % 0x10000 == addr);
}

} // verus!
