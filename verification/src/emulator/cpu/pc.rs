use vstd::prelude::*;

use crate::emulator::lifecycle::Lifecycle;
use crate::word::{add_wrapping, wrap32};

verus! {

/// The program counter.
#[derive(Debug, Clone, Copy, PartialEq, Eq, Structural)]
pub struct ProgramCounter {
    value: u32,
}

impl View for ProgramCounter {
    type V = u32;

    open spec fn view(&self) -> u32 {
        self.spec_value()
    }
}

impl ProgramCounter {
    pub const RESET_VALUE: u32 = 0x0000_0000;

    pub closed spec fn spec_value(&self) -> u32 {
        self.value
    }

    pub fn new() -> (pc: Self)
        ensures
            pc@ == Self::RESET_VALUE,
    {
        Self { value: Self::RESET_VALUE }
    }

    pub fn get(&self) -> (r: u32)
        ensures
            r == self@,
    {
        self.value
    }

    pub fn set(&mut self, value: u32)
        ensures
            final(self)@ == value,
    {
        self.value = value;
    }

    /// Steps to the next instruction word, wrapping at the top of the address space.
    pub fn advance_word(&mut self)
        ensures
            final(self)@ == wrap32(old(self)@ + 4),
    {
        self.value = add_wrapping(self.value, 4);
    }
}

impl Lifecycle for ProgramCounter {
    fn init(&mut self)
        ensures
            final(self)@ == Self::RESET_VALUE,
    {
        self.reset();
    }

    fn reset(&mut self)
        ensures
            final(self)@ == Self::RESET_VALUE,
    {
        self.value = Self::RESET_VALUE;
    }
}

impl Default for ProgramCounter {
    fn default() -> (pc: Self)
        ensures
            pc@ == Self::RESET_VALUE,
    {
        Self::new()
    }
}

} // verus!
