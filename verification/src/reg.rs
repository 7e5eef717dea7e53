//! The register file: 32 words with positional and ABI-named access.

use vstd::prelude::*;

verus! {

/// The 32 general-purpose registers of the CPU.
#[derive(Debug, Clone, Copy, PartialEq, Eq)]
pub struct Registers([u32; 32]);

impl Registers {
    /// The registers in index order, `x0` first.
    pub closed spec fn view(&self) -> Seq<u32> {
        self.0@
    }

    /// The register file right after construction: every register zero but
    /// the stack pointer, which holds `rom_size`.
    pub open spec fn initial(rom_size: u32) -> Seq<u32> {
        Seq::new(32, |i: int| if i == 2 { rom_size } else { 0u32 })
    }

    /// A register file always holds 32 registers.
    pub proof fn lemma_len(&self)
        ensures
            self@.len() == 32,
    {
    }

    /// Creates the register file for a memory window of `rom_size` bytes:
    /// the stack pointer starts at the top of the window, and every other
    /// register at zero.
    pub fn new(rom_size: u32) -> (this: Self)
        ensures
            this@ == Self::initial(rom_size),
    {
        let mut this = Self([0u32; 32]);
        // Make sure the x0 register is set to zero.
        this.set_zero(0);
        // The stack grows down from the end of the memory window.
        this.set_sp(rom_size);
        assert(this@ =~= Self::initial(rom_size));
        this
    }

    /// Reads register `index`.
    #[inline]
    pub fn get(&self, index: usize) -> (value: u32)
        requires
            index < 32,
        ensures
            value == self@[index as int],
    {
        self.0[index]
    }

    /// Writes `value` to register `index` and leaves the others as they were.
    #[inline]
    pub fn set(&mut self, index: usize, value: u32)
        requires
            index < 32,
        ensures
            final(self)@ == old(self)@.update(index as int, value),
    {
        self.0[index] = value;
    }

    /// Hard-wired zero: reads `zero` (`x0`).
    #[inline]
    pub fn zero(&self) -> (value: u32)
        ensures
            value == self@[0],
    {
        self.0[0]
    }

    /// Hard-wired zero: writes `zero` (`x0`).
    #[inline]
    pub fn set_zero(&mut self, zero: u32)
        ensures
            final(self)@ == old(self)@.update(0, zero),
    {
        self.0[0] = zero;
    }

    /// Return address: reads `ra` (`x1`).
    #[inline]
    pub fn ra(&self) -> (value: u32)
        ensures
            value == self@[1],
    {
        self.0[1]
    }

    /// Return address: writes `ra` (`x1`).
    #[inline]
    pub fn set_ra(&mut self, ra: u32)
        ensures
            final(self)@ == old(self)@.update(1, ra),
    {
        self.0[1] = ra;
    }

    /// Stack pointer: reads `sp` (`x2`).
    #[inline]
    pub fn sp(&self) -> (value: u32)
        ensures
            value == self@[2],
    {
        self.0[2]
    }

    /// Stack pointer: writes `sp` (`x2`).
    #[inline]
    pub fn set_sp(&mut self, sp: u32)
        ensures
            final(self)@ == old(self)@.update(2, sp),
    {
        self.0[2] = sp;
    }

    /// Global pointer: reads `gp` (`x3`).
    #[inline]
    pub fn gp(&self) -> (value: u32)
        ensures
            value == self@[3],
    {
        self.0[3]
    }

    /// Global pointer: writes `gp` (`x3`).
    #[inline]
    pub fn set_gp(&mut self, gp: u32)
        ensures
            final(self)@ == old(self)@.update(3, gp),
    {
        self.0[3] = gp;
    }

    /// Thread pointer: reads `tp` (`x4`).
    #[inline]
    pub fn tp(&self) -> (value: u32)
        ensures
            value == self@[4],
    {
        self.0[4]
    }

    /// Thread pointer: writes `tp` (`x4`).
    #[inline]
    pub fn set_tp(&mut self, tp: u32)
        ensures
            final(self)@ == old(self)@.update(4, tp),
    {
        self.0[4] = tp;
    }

    /// Temporary 0: reads `t0` (`x5`).
    #[inline]
    pub fn t0(&self) -> (value: u32)
        ensures
            value == self@[5],
    {
        self.0[5]
    }

    /// Temporary 0: writes `t0` (`x5`).
    #[inline]
    pub fn set_t0(&mut self, t0: u32)
        ensures
            final(self)@ == old(self)@.update(5, t0),
    {
        self.0[5] = t0;
    }

    /// Temporary 1: reads `t1` (`x6`).
    #[inline]
    pub fn t1(&self) -> (value: u32)
        ensures
            value == self@[6],
    {
        self.0[6]
    }

    /// Temporary 1: writes `t1` (`x6`).
    #[inline]
    pub fn set_t1(&mut self, t1: u32)
        ensures
            final(self)@ == old(self)@.update(6, t1),
    {
        self.0[6] = t1;
    }

    /// Temporary 2: reads `t2` (`x7`).
    #[inline]
    pub fn t2(&self) -> (value: u32)
        ensures
            value == self@[7],
    {
        self.0[7]
    }

    /// Temporary 2: writes `t2` (`x7`).
    #[inline]
    pub fn set_t2(&mut self, t2: u32)
        ensures
            final(self)@ == old(self)@.update(7, t2),
    {
        self.0[7] = t2;
    }

    /// Saved register 0 / Frame pointer: reads `s0` (`x8`).
    #[inline]
    pub fn s0(&self) -> (value: u32)
        ensures
            value == self@[8],
    {
        self.0[8]
    }

    /// Saved register 0 / Frame pointer: writes `s0` (`x8`).
    #[inline]
    pub fn set_s0(&mut self, s0: u32)
        ensures
            final(self)@ == old(self)@.update(8, s0),
    {
        self.0[8] = s0;
    }

    /// Saved register 1: reads `s1` (`x9`).
    #[inline]
    pub fn s1(&self) -> (value: u32)
        ensures
            value == self@[9],
    {
        self.0[9]
    }

    /// Saved register 1: writes `s1` (`x9`).
    #[inline]
    pub fn set_s1(&mut self, s1: u32)
        ensures
            final(self)@ == old(self)@.update(9, s1),
    {
        self.0[9] = s1;
    }

    /// Function argument 0 / Return value 0: reads `a0` (`x10`).
    #[inline]
    pub fn a0(&self) -> (value: u32)
        ensures
            value == self@[10],
    {
        self.0[10]
    }

    /// Function argument 0 / Return value 0: writes `a0` (`x10`).
    #[inline]
    pub fn set_a0(&mut self, a0: u32)
        ensures
            final(self)@ == old(self)@.update(10, a0),
    {
        self.0[10] = a0;
    }

    /// Function argument 1 / Return value 1: reads `a1` (`x11`).
    #[inline]
    pub fn a1(&self) -> (value: u32)
        ensures
            value == self@[11],
    {
        self.0[11]
    }

    /// Function argument 1 / Return value 1: writes `a1` (`x11`).
    #[inline]
    pub fn set_a1(&mut self, a1: u32)
        ensures
            final(self)@ == old(self)@.update(11, a1),
    {
        self.0[11] = a1;
    }

    /// Function argument 2: reads `a2` (`x12`).
    #[inline]
    pub fn a2(&self) -> (value: u32)
        ensures
            value == self@[12],
    {
        self.0[12]
    }

    /// Function argument 2: writes `a2` (`x12`).
    #[inline]
    pub fn set_a2(&mut self, a2: u32)
        ensures
            final(self)@ == old(self)@.update(12, a2),
    {
        self.0[12] = a2;
    }

    /// Function argument 3: reads `a3` (`x13`).
    #[inline]
    pub fn a3(&self) -> (value: u32)
        ensures
            value == self@[13],
    {
        self.0[13]
    }

    /// Function argument 3: writes `a3` (`x13`).
    #[inline]
    pub fn set_a3(&mut self, a3: u32)
        ensures
            final(self)@ == old(self)@.update(13, a3),
    {
        self.0[13] = a3;
    }

    /// Function argument 4: reads `a4` (`x14`).
    #[inline]
    pub fn a4(&self) -> (value: u32)
        ensures
            value == self@[14],
    {
        self.0[14]
    }

    /// Function argument 4: writes `a4` (`x14`).
    #[inline]
    pub fn set_a4(&mut self, a4: u32)
        ensures
            final(self)@ == old(self)@.update(14, a4),
    {
        self.0[14] = a4;
    }

    /// Function argument 5: reads `a5` (`x15`).
    #[inline]
    pub fn a5(&self) -> (value: u32)
        ensures
            value == self@[15],
    {
        self.0[15]
    }

    /// Function argument 5: writes `a5` (`x15`).
    #[inline]
    pub fn set_a5(&mut self, a5: u32)
        ensures
            final(self)@ == old(self)@.update(15, a5),
    {
        self.0[15] = a5;
    }

    /// Function argument 6: reads `a6` (`x16`).
    #[inline]
    pub fn a6(&self) -> (value: u32)
        ensures
            value == self@[16],
    {
        self.0[16]
    }

    /// Function argument 6: writes `a6` (`x16`).
    #[inline]
    pub fn set_a6(&mut self, a6: u32)
        ensures
            final(self)@ == old(self)@.update(16, a6),
    {
        self.0[16] = a6;
    }

    /// Function argument 7: reads `a7` (`x17`).
    #[inline]
    pub fn a7(&self) -> (value: u32)
        ensures
            value == self@[17],
    {
        self.0[17]
    }

    /// Function argument 7: writes `a7` (`x17`).
    #[inline]
    pub fn set_a7(&mut self, a7: u32)
        ensures
            final(self)@ == old(self)@.update(17, a7),
    {
        self.0[17] = a7;
    }

    /// Saved register 2: reads `s2` (`x18`).
    #[inline]
    pub fn s2(&self) -> (value: u32)
        ensures
            value == self@[18],
    {
        self.0[18]
    }

    /// Saved register 2: writes `s2` (`x18`).
    #[inline]
    pub fn set_s2(&mut self, s2: u32)
        ensures
            final(self)@ == old(self)@.update(18, s2),
    {
        self.0[18] = s2;
    }

    /// Saved register 3: reads `s3` (`x19`).
    #[inline]
    pub fn s3(&self) -> (value: u32)
        ensures
            value == self@[19],
    {
        self.0[19]
    }

    /// Saved register 3: writes `s3` (`x19`).
    #[inline]
    pub fn set_s3(&mut self, s3: u32)
        ensures
            final(self)@ == old(self)@.update(19, s3),
    {
        self.0[19] = s3;
    }

    /// Saved register 4: reads `s4` (`x20`).
    #[inline]
    pub fn s4(&self) -> (value: u32)
        ensures
            value == self@[20],
    {
        self.0[20]
    }

    /// Saved register 4: writes `s4` (`x20`).
    #[inline]
    pub fn set_s4(&mut self, s4: u32)
        ensures
            final(self)@ == old(self)@.update(20, s4),
    {
        self.0[20] = s4;
    }

    /// Saved register 5: reads `s5` (`x21`).
    #[inline]
    pub fn s5(&self) -> (value: u32)
        ensures
            value == self@[21],
    {
        self.0[21]
    }

    /// Saved register 5: writes `s5` (`x21`).
    #[inline]
    pub fn set_s5(&mut self, s5: u32)
        ensures
            final(self)@ == old(self)@.update(21, s5),
    {
        self.0[21] = s5;
    }

    /// Saved register 6: reads `s6` (`x22`).
    #[inline]
    pub fn s6(&self) -> (value: u32)
        ensures
            value == self@[22],
    {
        self.0[22]
    }

    /// Saved register 6: writes `s6` (`x22`).
    #[inline]
    pub fn set_s6(&mut self, s6: u32)
        ensures
            final(self)@ == old(self)@.update(22, s6),
    {
        self.0[22] = s6;
    }

    /// Saved register 7: reads `s7` (`x23`).
    #[inline]
    pub fn s7(&self) -> (value: u32)
        ensures
            value == self@[23],
    {
        self.0[23]
    }

    /// Saved register 7: writes `s7` (`x23`).
    #[inline]
    pub fn set_s7(&mut self, s7: u32)
        ensures
            final(self)@ == old(self)@.update(23, s7),
    {
        self.0[23] = s7;
    }

    /// Saved register 8: reads `s8` (`x24`).
    #[inline]
    pub fn s8(&self) -> (value: u32)
        ensures
            value == self@[24],
    {
        self.0[24]
    }

    /// Saved register 8: writes `s8` (`x24`).
    #[inline]
    pub fn set_s8(&mut self, s8: u32)
        ensures
            final(self)@ == old(self)@.update(24, s8),
    {
        self.0[24] = s8;
    }

    /// Saved register 9: reads `s9` (`x25`).
    #[inline]
    pub fn s9(&self) -> (value: u32)
        ensures
            value == self@[25],
    {
        self.0[25]
    }

    /// Saved register 9: writes `s9` (`x25`).
    #[inline]
    pub fn set_s9(&mut self, s9: u32)
        ensures
            final(self)@ == old(self)@.update(25, s9),
    {
        self.0[25] = s9;
    }

    /// Saved register 10: reads `s10` (`x26`).
    #[inline]
    pub fn s10(&self) -> (value: u32)
        ensures
            value == self@[26],
    {
        self.0[26]
    }

    /// Saved register 10: writes `s10` (`x26`).
    #[inline]
    pub fn set_s10(&mut self, s10: u32)
        ensures
            final(self)@ == old(self)@.update(26, s10),
    {
        self.0[26] = s10;
    }

    /// Saved register 11: reads `s11` (`x27`).
    #[inline]
    pub fn s11(&self) -> (value: u32)
        ensures
            value == self@[27],
    {
        self.0[27]
    }

    /// Saved register 11: writes `s11` (`x27`).
    #[inline]
    pub fn set_s11(&mut self, s11: u32)
        ensures
            final(self)@ == old(self)@.update(27, s11),
    {
        self.0[27] = s11;
    }

    /// Temporary 3: reads `t3` (`x28`).
    #[inline]
    pub fn t3(&self) -> (value: u32)
        ensures
            value == self@[28],
    {
        self.0[28]
    }

    /// Temporary 3: writes `t3` (`x28`).
    #[inline]
    pub fn set_t3(&mut self, t3: u32)
        ensures
            final(self)@ == old(self)@.update(28, t3),
    {
        self.0[28] = t3;
    }

    /// Temporary 4: reads `t4` (`x29`).
    #[inline]
    pub fn t4(&self) -> (value: u32)
        ensures
            value == self@[29],
    {
        self.0[29]
    }

    /// Temporary 4: writes `t4` (`x29`).
    #[inline]
    pub fn set_t4(&mut self, t4: u32)
        ensures
            final(self)@ == old(self)@.update(29, t4),
    {
        self.0[29] = t4;
    }

    /// Temporary 5: reads `t5` (`x30`).
    #[inline]
    pub fn t5(&self) -> (value: u32)
        ensures
            value == self@[30],
    {
        self.0[30]
    }

    /// Temporary 5: writes `t5` (`x30`).
    #[inline]
    pub fn set_t5(&mut self, t5: u32)
        ensures
            final(self)@ == old(self)@.update(30, t5),
    {
        self.0[30] = t5;
    }

    /// Temporary 6: reads `t6` (`x31`).
    #[inline]
    pub fn t6(&self) -> (value: u32)
        ensures
            value == self@[31],
    {
        self.0[31]
    }

    /// Temporary 6: writes `t6` (`x31`).
    #[inline]
    pub fn set_t6(&mut self, t6: u32)
        ensures
            final(self)@ == old(self)@.update(31, t6),
    {
        self.0[31] = t6;
    }
}

} // verus!
