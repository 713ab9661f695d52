use vstd::prelude::*;

use crate::emulator::lifecycle::Lifecycle;

verus! {

/// The sixteen general-purpose registers; r0 always reads as zero.
#[derive(Debug, PartialEq, Eq)]
pub struct GprFile {
    registers: [u32; 16],
}

impl View for GprFile {
    type V = Seq<u32>;

    /// The values the sixteen registers read as.
    closed spec fn view(&self) -> Seq<u32> {
        self.registers@
    }
}

/// Sixteen zero registers.
pub open spec fn zero_registers() -> Seq<u32> {
    Seq::new(16, |i: int| 0u32)
}

impl GprFile {
    pub const COUNT: usize = 16;

    /// The stored r0 slot is zero.
    #[verifier::type_invariant]
    spec fn r0_is_zero(self) -> bool {
        self.registers@[0] == 0
    }

    pub fn new() -> (g: Self)
        ensures
            g@ == zero_registers(),
    {
        let g = Self { registers: [0u32; 16] };
        assert(g@ =~= zero_registers());
        g
    }

    /// The value of register `index`.
    pub fn read(&self, index: usize) -> (r: u32)
        requires
            index < 16,
        ensures
            self@.len() == 16,
            r == self@[index as int],
            index == 0 ==> r == 0,
    {
        proof {
            use_type_invariant(self);
        }
        if index == 0 {
            0
        } else {
            self.registers[index]
        }
    }

    /// Writes register `index`; writes to r0 are discarded.
    pub fn write(&mut self, index: usize, value: u32)
        requires
            index < 16,
        ensures
            final(self)@ == (if index == 0 { old(self)@ } else { old(self)@.update(index as int, value) }),
            final(self)@.len() == 16,
            final(self)@[0] == 0,
    {
        proof {
            use_type_invariant(&*self);
        }
        if index != 0 {
            let mut regs = self.registers;
            regs.set(index, value);
            self.registers = regs;
            assert(self@ =~= old(self)@.update(index as int, value));
        }
    }

    /// The stored register words; the r0 slot is always zero.
    pub fn as_raw_slice(&self) -> (r: &[u32; 16])
        ensures
            r@ == self@,
            r@[0] == 0,
    {
        proof {
            use_type_invariant(self);
        }
        &self.registers
    }
}

impl Lifecycle for GprFile {
    fn init(&mut self)
        ensures
            final(self)@ == zero_registers(),
    {
        self.reset();
    }

    fn reset(&mut self)
        ensures
            final(self)@ == zero_registers(),
    {
        self.registers = [0u32; 16];
        assert(self@ =~= zero_registers());
    }
}

impl Clone for GprFile {
    fn clone(&self) -> (g: Self)
        ensures
            g@ == self@,
    {
        proof {
            use_type_invariant(self);
        }
        Self { registers: self.registers }
    }
}

impl Default for GprFile {
    fn default() -> (g: Self)
        ensures
            g@ == zero_registers(),
    {
        Self::new()
    }
}

} // verus!
