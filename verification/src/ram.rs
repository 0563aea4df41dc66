use vstd::prelude::*;

use crate::errors::LoadError;

verus! {

/// Base address of the program window in the flat address space.
pub open spec fn prg_base() -> int {
    0x8000
}

/// Flat 64KiB addressable memory.  The view is the sequence of all 65536
/// bytes; every address an instruction computes is taken modulo the space
/// size, so no access can fail.
pub struct Memory {
    ram: Vec<u8>,
}

impl View for Memory {
    type V = Seq<u8>;

    closed spec fn view(&self) -> Seq<u8> {
        self.ram@
    }
}

impl Memory {
    pub open spec fn wf(&self) -> bool {
        self@.len() == 0x10000
    }

    /// 64KiB of zero-initialized memory.
    pub fn new() -> (r: Memory)
        ensures
            r.wf(),
            forall|a: int| 0 <= a < 0x10000 ==> r@[a] == 0,
    {
        let mut ram: Vec<u8> = Vec::new();
        let mut i: usize = 0;
        while i < 0x10000
            invariant
                i <= 0x10000,
                ram@.len() == i,
                forall|a: int| 0 <= a < i ==> ram@[a] == 0,
            decreases 0x10000 - i,
        {
            ram.push(0);
            i = i + 1;
        }
        Memory { ram }
    }

    /// Read the byte at `index`, taken modulo the space size.
    pub fn getU8Data(&self, index: usize) -> (r: u8)
        requires
            self.wf(),
        ensures
            r == self@[(index as int) % 0x10000],
    {
        self.ram[index % 0x10000]
    }

    /// Write the byte at `index`, taken modulo the space size.
    pub fn setU8Data(&mut self, index: usize, value: u8)
        requires
            old(self).wf(),
        ensures
            final(self).wf(),
            final(self)@ == old(self)@.update((index as int) % 0x10000, value),
    {
        self.ram[index % 0x10000] = value;
    }

    /// Snapshot of the 8-byte window reserved for the PPU-facing I/O ports.
    pub fn get_ppu_io(&self) -> (r: Vec<u8>)
        requires
            self.wf(),
        ensures
            r@.len() == 8,
            forall|i: int| 0 <= i < 8 ==> r@[i] == self@[0x2000 + i],
    {
        let mut res: Vec<u8> = Vec::new();
        let mut i: usize = 0;
        while i < 8
            invariant
                self.wf(),
                i <= 8,
                res@.len() == i,
                forall|j: int| 0 <= j < i ==> res@[j] == self@[0x2000 + j],
            decreases 8 - i,
        {
            res.push(self.getU8Data(0x2000 + i));
            i = i + 1;
        }
        res
    }

    /// Clear the 8-byte PPU I/O window; every other byte is untouched.
    pub fn reset_ppu_io(&mut self)
        requires
            old(self).wf(),
        ensures
            final(self).wf(),
            forall|a: int|
                0 <= a < 0x10000 ==> final(self)@[a] == (if 0x2000 <= a < 0x2008 {
                    0u8
                } else {
                    old(self)@[a]
                }),
    {
        let mut i: usize = 0;
        while i < 8
            invariant
                self.wf(),
                i <= 8,
                forall|a: int|
                    0 <= a < 0x10000 ==> self@[a] == (if 0x2000 <= a < 0x2000 + i {
                        0u8
                    } else {
                        old(self)@[a]
                    }),
            decreases 8 - i,
        {
            self.setU8Data(0x2000 + i, 0);
            i = i + 1;
        }
    }

    /// Copy program data into the window starting at the program base.
    /// Fails, leaving memory untouched, when the data would overrun the
    /// 32KiB window above the base.
    pub fn readPRGROM(&mut self, prg: &[u8]) -> (r: Result<(), LoadError>)
        requires
            old(self).wf(),
        ensures
            final(self).wf(),
            prg@.len() <= 0x8000 ==> r == Ok::<(), LoadError>(()) && forall|a: int|
                0 <= a < 0x10000 ==> final(self)@[a] == (if prg_base() <= a < prg_base()
                    + prg@.len() {
                    prg@[a - prg_base()]
                } else {
                    old(self)@[a]
                }),
            prg@.len() > 0x8000 ==> r == Err::<(), LoadError>(LoadError::ProgramTooLarge)
                && final(self)@ == old(self)@,
    {
        if prg.len() > 0x8000 {
            return Err(LoadError::ProgramTooLarge);
        }
        let mut ptr: usize = 0;
        while ptr < prg.len()
            invariant
                self.wf(),
                prg@.len() <= 0x8000,
                ptr <= prg@.len(),
                forall|a: int|
                    0 <= a < 0x10000 ==> self@[a] == (if prg_base() <= a < prg_base() + ptr {
                        prg@[a - prg_base()]
                    } else {
                        old(self)@[a]
                    }),
            decreases prg@.len() - ptr,
        {
            self.setU8Data(0x8000 + ptr, prg[ptr]);
            ptr = ptr + 1;
        }
        Ok(())
    }
}

} // verus!
