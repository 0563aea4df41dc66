use vstd::prelude::*;

verus! {

/// Mathematical model of the processor status bits.
pub ghost struct FlagsModel {
    pub n: bool,
    pub v: bool,
    pub b: bool,
    pub d: bool,
    pub i: bool,
    pub z: bool,
    pub c: bool,
}

/// Mathematical model of the register file.
pub ghost struct RegisterModel {
    pub a: u8,
    pub x: u8,
    pub y: u8,
    pub pc: u16,
    pub sp: u8,
    pub flags: FlagsModel,
}

/// The register file at power-on: all registers clear, the program counter
/// at the base of program memory.
pub open spec fn initial_registers() -> RegisterModel {
    RegisterModel {
        a: 0,
        x: 0,
        y: 0,
        pc: 0x8000,
        sp: 0,
        flags: FlagsModel { n: false, v: false, b: false, d: false, i: false, z: false, c: false },
    }
}

/// Increment an 8-bit value, wrapping at 8 bits.
pub open spec fn inc8(v: u8) -> u8 {
    if v == 255 {
        0
    } else {
        (v + 1) as u8
    }
}

/// Decrement an 8-bit value, wrapping at 8 bits.
pub open spec fn dec8(v: u8) -> u8 {
    if v == 0 {
        255
    } else {
        (v - 1) as u8
    }
}

/// Add an unsigned step to a 16-bit program counter, wrapping at 16 bits.
pub open spec fn add16(pc: u16, n: u16) -> u16 {
    if pc + n > 0xFFFF {
        (pc + n - 0x10000) as u16
    } else {
        (pc + n) as u16
    }
}

/// Add a signed displacement to a 16-bit program counter, wrapping at 16
/// bits.
pub open spec fn offset16(pc: u16, off: int) -> u16 {
    if pc + off < 0 {
        (pc + off + 0x10000) as u16
    } else if pc + off > 0xFFFF {
        (pc + off - 0x10000) as u16
    } else {
        (pc + off) as u16
    }
}

struct ProcessorStatusRegister {
    n: bool,
    v: bool,
    b: bool,
    d: bool,
    i: bool,
    z: bool,
    c: bool,
}

impl View for ProcessorStatusRegister {
    type V = FlagsModel;

    closed spec fn view(&self) -> FlagsModel {
        FlagsModel {
            n: self.n,
            v: self.v,
            b: self.b,
            d: self.d,
            i: self.i,
            z: self.z,
            c: self.c,
        }
    }
}

impl ProcessorStatusRegister {
    fn new() -> (r: ProcessorStatusRegister)
        ensures
            r@ == (FlagsModel {
                n: false,
                v: false,
                b: false,
                d: false,
                i: false,
                z: false,
                c: false,
            }),
    {
        ProcessorStatusRegister {
            n: false,
            v: false,
            b: false,
            d: false,
            i: false,
            z: false,
            c: false,
        }
    }

    fn set_i(&mut self, value: bool)
        ensures
            final(self)@ == (FlagsModel { i: value, ..old(self)@ }),
    {
        self.i = value;
    }

    fn set_n(&mut self, value: bool)
        ensures
            final(self)@ == (FlagsModel { n: value, ..old(self)@ }),
    {
        self.n = value;
    }

    fn set_z(&mut self, value: bool)
        ensures
            final(self)@ == (FlagsModel { z: value, ..old(self)@ }),
    {
        self.z = value;
    }

    fn get_z(&self) -> (r: bool)
        ensures
            r == self@.z,
    {
        self.z
    }

    fn get_n(&self) -> (r: bool)
        ensures
            r == self@.n,
    {
        self.n
    }

    fn get_i(&self) -> (r: bool)
        ensures
            r == self@.i,
    {
        self.i
    }
}

pub struct Register {
    a: u8,
    x: u8,
    y: u8,
    pc: u16,
    sp: u8,
    ps: ProcessorStatusRegister,
}

impl View for Register {
    type V = RegisterModel;

    closed spec fn view(&self) -> RegisterModel {
        RegisterModel { a: self.a, x: self.x, y: self.y, pc: self.pc, sp: self.sp, flags: self.ps@ }
    }
}

impl Register {
    pub fn new() -> (r: Register)
        ensures
            r@ == initial_registers(),
    {
        Register { a: 0, x: 0, y: 0, pc: 0x8000, sp: 0, ps: ProcessorStatusRegister::new() }
    }

    pub fn get_a(&self) -> (r: u8)
        ensures
            r == self@.a,
    {
        self.a
    }

    pub fn set_a(&mut self, value: u8)
        ensures
            final(self)@ == (RegisterModel { a: value, ..old(self)@ }),
    {
        self.a = value;
    }

    pub fn get_x(&self) -> (r: u8)
        ensures
            r == self@.x,
    {
        self.x
    }

    pub fn set_x(&mut self, value: u8)
        ensures
            final(self)@ == (RegisterModel { x: value, ..old(self)@ }),
    {
        self.x = value;
    }

    /// Increment X, wrapping at 8 bits.
    pub fn incriment_x(&mut self)
        ensures
            final(self)@ == (RegisterModel { x: inc8(old(self)@.x), ..old(self)@ }),
    {
        if self.x == 255 {
            self.x = 0;
        } else {
            self.x = self.x + 1;
        }
    }

    pub fn get_y(&self) -> (r: u8)
        ensures
            r == self@.y,
    {
        self.y
    }

    pub fn set_y(&mut self, value: u8)
        ensures
            final(self)@ == (RegisterModel { y: value, ..old(self)@ }),
    {
        self.y = value;
    }

    /// Decrement Y, wrapping at 8 bits.
    pub fn decriment_y(&mut self)
        ensures
            final(self)@ == (RegisterModel { y: dec8(old(self)@.y), ..old(self)@ }),
    {
        if self.y == 0 {
            self.y = 255;
        } else {
            self.y = self.y - 1;
        }
    }

    pub fn get_pc(&self) -> (r: usize)
        ensures
            r == self@.pc,
    {
        self.pc as usize
    }

    pub fn set_pc(&mut self, addr: usize)
        requires
            addr < 0x10000,
        ensures
            final(self)@ == (RegisterModel { pc: addr as u16, ..old(self)@ }),
    {
        self.pc = addr as u16;
    }

    /// Advance the program counter by an instruction length, wrapping at 16
    /// bits.
    pub fn increment_pc(&mut self, value: usize)
        requires
            value < 0x10000,
        ensures
            final(self)@ == (RegisterModel {
                pc: add16(old(self)@.pc, value as u16),
                ..old(self)@
            }),
    {
        let t: usize = self.pc as usize + value;
        if t > 0xFFFF {
            self.pc = (t - 0x10000) as u16;
        } else {
            self.pc = t as u16;
        }
    }

    /// Add a signed branch displacement to the program counter, wrapping at
    /// 16 bits.
    pub fn add_pc_signed(&mut self, value: i8)
        ensures
            final(self)@ == (RegisterModel {
                pc: offset16(old(self)@.pc, value as int),
                ..old(self)@
            }),
    {
        let t: i32 = self.pc as i32 + value as i32;
        if t < 0 {
            self.pc = (t + 0x10000) as u16;
        } else if t > 0xFFFF {
            self.pc = (t - 0x10000) as u16;
        } else {
            self.pc = t as u16;
        }
    }

    pub fn get_sp(&self) -> (r: u8)
        ensures
            r == self@.sp,
    {
        self.sp
    }

    pub fn set_n(&mut self, value: bool)
        ensures
            final(self)@ == (RegisterModel {
                flags: FlagsModel { n: value, ..old(self)@.flags },
                ..old(self)@
            }),
    {
        self.ps.set_n(value);
    }

    pub fn set_i(&mut self, value: bool)
        ensures
            final(self)@ == (RegisterModel {
                flags: FlagsModel { i: value, ..old(self)@.flags },
                ..old(self)@
            }),
    {
        self.ps.set_i(value);
    }

    pub fn set_z(&mut self, value: bool)
        ensures
            final(self)@ == (RegisterModel {
                flags: FlagsModel { z: value, ..old(self)@.flags },
                ..old(self)@
            }),
    {
        self.ps.set_z(value);
    }

    pub fn get_z(&self) -> (r: bool)
        ensures
            r == self@.flags.z,
    {
        self.ps.get_z()
    }

    pub fn get_n(&self) -> (r: bool)
        ensures
            r == self@.flags.n,
    {
        self.ps.get_n()
    }

    pub fn get_i(&self) -> (r: bool)
        ensures
            r == self@.flags.i,
    {
        self.ps.get_i()
    }
}

} // verus!
