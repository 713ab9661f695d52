//! Instruction decoding as the processor sees it.
use vstd::prelude::*;

use crate::isa::fields::sign_extend;
use crate::isa::{decode as decode_word, spec_decode, Creg, Instruction};

pub use crate::isa::DecodeError;

verus! {

/// A decoded instruction as the processor executes it.
///
/// It differs from the toolchain's instruction in one operand: the software
/// trap's payload is a signed word offset, scaled to bytes.
#[allow(inconsistent_fields)]
#[derive(Debug, Clone, Copy, PartialEq, Eq, Structural)]
pub enum DecodedInstruction {
    // Control/X-type
    Nop,
    Halt,
    SoftwareTrap { imm: i32 },
    SystemCall,
    IRet,
    EI,
    DI,
    RdPc { rd: u8 },
    Mrs { creg4: Creg, rd: u8 },
    Msr { creg4: Creg, rs: u8 },
    // Register ALU/R-type
    Add { rd: u8, ra: u8, rb: u8 },
    Sub { rd: u8, ra: u8, rb: u8 },
    And { rd: u8, ra: u8, rb: u8 },
    Or { rd: u8, ra: u8, rb: u8 },
    Xor { rd: u8, ra: u8, rb: u8 },
    Not { rd: u8, ra: u8 },
    Neg { rd: u8, ra: u8 },
    Cmp { ra: u8, rb: u8 },
    // Immediate arithmetic and compare/I-type
    Addi { rd: u8, ra: u8, imm: u32 },
    Subi { rd: u8, ra: u8, imm: u32 },
    Cmpi { ra: u8, imm: u32 },
    // Immediate logical/I-type
    Andi { rd: u8, ra: u8, imm: u32 },
    Ori { rd: u8, ra: u8, imm: u32 },
    Xori { rd: u8, ra: u8, imm: u32 },
    // Register shifts/R-type
    Shl { rd: u8, ra: u8, rb: u8 },
    Shr { rd: u8, ra: u8, rb: u8 },
    Sar { rd: u8, ra: u8, rb: u8 },
    // Immediate shifts/I-type
    Shli { rd: u8, ra: u8, imm: u8 },
    Shri { rd: u8, ra: u8, imm: u8 },
    Sari { rd: u8, ra: u8, imm: u8 },
    // Bit immediate/I-type
    Btst { ra: u8, imm: u8 },
    Bset { rd: u8, ra: u8, imm: u8 },
    Bclr { rd: u8, ra: u8, imm: u8 },
    Btgl { rd: u8, ra: u8, imm: u8 },
    // Multiply/divide/R2-type
    Mul { rd0: u8, rd1: u8, ra: u8, rb: u8 },
    Mulu { rd0: u8, rd1: u8, ra: u8, rb: u8 },
    Div { rd0: u8, rd1: u8, ra: u8, rb: u8 },
    Divu { rd0: u8, rd1: u8, ra: u8, rb: u8 },
    // Constant construction/U-type
    Lui { rd: u8, imm16: u16 },
    Lli { rd: u8, imm16: u16 },
    Lhi { rd: u8, imm16: u16 },
    // Load/store/M-type
    Lb { rd: u8, base: u8, offset: i32 },
    Lbu { rd: u8, base: u8, offset: i32 },
    Lh { rd: u8, base: u8, offset: i32 },
    Lhu { rd: u8, base: u8, offset: i32 },
    Lw { rd: u8, base: u8, offset: i32 },
    Sb { rs: u8, base: u8, offset: i32 },
    Sh { rs: u8, base: u8, offset: i32 },
    Sw { rs: u8, base: u8, offset: i32 },
    // Flag branch/BF-type
    BfEq { offset: i32 },
    BfNe { offset: i32 },
    BfLt { offset: i32 },
    BfLe { offset: i32 },
    BfGt { offset: i32 },
    BfGe { offset: i32 },
    BfLtu { offset: i32 },
    BfLeu { offset: i32 },
    BfGtu { offset: i32 },
    BfGeu { offset: i32 },
    BfCs { offset: i32 },
    BfCc { offset: i32 },
    BfVs { offset: i32 },
    BfVc { offset: i32 },
    BfEs { offset: i32 },
    BfEc { offset: i32 },
    // Register branch/BC-type
    BEq { ra: u8, rb: u8, offset: i32 },
    BNe { ra: u8, rb: u8, offset: i32 },
    BLt { ra: u8, rb: u8, offset: i32 },
    BLe { ra: u8, rb: u8, offset: i32 },
    BGt { ra: u8, rb: u8, offset: i32 },
    BGe { ra: u8, rb: u8, offset: i32 },
    BLtu { ra: u8, rb: u8, offset: i32 },
    BLeu { ra: u8, rb: u8, offset: i32 },
    BGtu { ra: u8, rb: u8, offset: i32 },
    BGeu { ra: u8, rb: u8, offset: i32 },
    // PC-relative jump/call/J-type
    Jmp { offset: i32 },
    Call { offset: i32 },
    // Register jump/call/JR-type
    Jr { target: u8 },
    Jalr { rd: u8, target: u8 },
}

/// The processor's view of a toolchain instruction.
pub open spec fn spec_from_instruction(i: Instruction) -> DecodedInstruction {
    match i {
        Instruction::Nop => DecodedInstruction::Nop,
        Instruction::Halt => DecodedInstruction::Halt,
        Instruction::SoftwareTrap { imm } => DecodedInstruction::SoftwareTrap { imm: (sign_extend(imm, 0x800) * 4) as i32 },
        Instruction::SystemCall => DecodedInstruction::SystemCall,
        Instruction::IRet => DecodedInstruction::IRet,
        Instruction::EI => DecodedInstruction::EI,
        Instruction::DI => DecodedInstruction::DI,
        Instruction::RdPc { rd } => DecodedInstruction::RdPc { rd },
        Instruction::Mrs { creg4, rd } => DecodedInstruction::Mrs { creg4, rd },
        Instruction::Msr { creg4, rs } => DecodedInstruction::Msr { creg4, rs },
        Instruction::Add { rd, ra, rb } => DecodedInstruction::Add { rd, ra, rb },
        Instruction::Sub { rd, ra, rb } => DecodedInstruction::Sub { rd, ra, rb },
        Instruction::And { rd, ra, rb } => DecodedInstruction::And { rd, ra, rb },
        Instruction::Or { rd, ra, rb } => DecodedInstruction::Or { rd, ra, rb },
        Instruction::Xor { rd, ra, rb } => DecodedInstruction::Xor { rd, ra, rb },
        Instruction::Not { rd, ra } => DecodedInstruction::Not { rd, ra },
        Instruction::Neg { rd, ra } => DecodedInstruction::Neg { rd, ra },
        Instruction::Cmp { ra, rb } => DecodedInstruction::Cmp { ra, rb },
        Instruction::Addi { rd, ra, imm } => DecodedInstruction::Addi { rd, ra, imm },
        Instruction::Subi { rd, ra, imm } => DecodedInstruction::Subi { rd, ra, imm },
        Instruction::Cmpi { ra, imm } => DecodedInstruction::Cmpi { ra, imm },
        Instruction::Andi { rd, ra, imm } => DecodedInstruction::Andi { rd, ra, imm },
        Instruction::Ori { rd, ra, imm } => DecodedInstruction::Ori { rd, ra, imm },
        Instruction::Xori { rd, ra, imm } => DecodedInstruction::Xori { rd, ra, imm },
        Instruction::Shl { rd, ra, rb } => DecodedInstruction::Shl { rd, ra, rb },
        Instruction::Shr { rd, ra, rb } => DecodedInstruction::Shr { rd, ra, rb },
        Instruction::Sar { rd, ra, rb } => DecodedInstruction::Sar { rd, ra, rb },
        Instruction::Shli { rd, ra, imm } => DecodedInstruction::Shli { rd, ra, imm },
        Instruction::Shri { rd, ra, imm } => DecodedInstruction::Shri { rd, ra, imm },
        Instruction::Sari { rd, ra, imm } => DecodedInstruction::Sari { rd, ra, imm },
        Instruction::Btst { ra, imm } => DecodedInstruction::Btst { ra, imm },
        Instruction::Bset { rd, ra, imm } => DecodedInstruction::Bset { rd, ra, imm },
        Instruction::Bclr { rd, ra, imm } => DecodedInstruction::Bclr { rd, ra, imm },
        Instruction::Btgl { rd, ra, imm } => DecodedInstruction::Btgl { rd, ra, imm },
        Instruction::Mul { rd0, rd1, ra, rb } => DecodedInstruction::Mul { rd0, rd1, ra, rb },
        Instruction::Mulu { rd0, rd1, ra, rb } => DecodedInstruction::Mulu { rd0, rd1, ra, rb },
        Instruction::Div { rd0, rd1, ra, rb } => DecodedInstruction::Div { rd0, rd1, ra, rb },
        Instruction::Divu { rd0, rd1, ra, rb } => DecodedInstruction::Divu { rd0, rd1, ra, rb },
        Instruction::Lui { rd, imm16 } => DecodedInstruction::Lui { rd, imm16 },
        Instruction::Lli { rd, imm16 } => DecodedInstruction::Lli { rd, imm16 },
        Instruction::Lhi { rd, imm16 } => DecodedInstruction::Lhi { rd, imm16 },
        Instruction::Lb { rd, base, offset } => DecodedInstruction::Lb { rd, base, offset },
        Instruction::Lbu { rd, base, offset } => DecodedInstruction::Lbu { rd, base, offset },
        Instruction::Lh { rd, base, offset } => DecodedInstruction::Lh { rd, base, offset },
        Instruction::Lhu { rd, base, offset } => DecodedInstruction::Lhu { rd, base, offset },
        Instruction::Lw { rd, base, offset } => DecodedInstruction::Lw { rd, base, offset },
        Instruction::Sb { rs, base, offset } => DecodedInstruction::Sb { rs, base, offset },
        Instruction::Sh { rs, base, offset } => DecodedInstruction::Sh { rs, base, offset },
        Instruction::Sw { rs, base, offset } => DecodedInstruction::Sw { rs, base, offset },
        Instruction::BfEq { offset } => DecodedInstruction::BfEq { offset },
        Instruction::BfNe { offset } => DecodedInstruction::BfNe { offset },
        Instruction::BfLt { offset } => DecodedInstruction::BfLt { offset },
        Instruction::BfLe { offset } => DecodedInstruction::BfLe { offset },
        Instruction::BfGt { offset } => DecodedInstruction::BfGt { offset },
        Instruction::BfGe { offset } => DecodedInstruction::BfGe { offset },
        Instruction::BfLtu { offset } => DecodedInstruction::BfLtu { offset },
        Instruction::BfLeu { offset } => DecodedInstruction::BfLeu { offset },
        Instruction::BfGtu { offset } => DecodedInstruction::BfGtu { offset },
        Instruction::BfGeu { offset } => DecodedInstruction::BfGeu { offset },
        Instruction::BfCs { offset } => DecodedInstruction::BfCs { offset },
        Instruction::BfCc { offset } => DecodedInstruction::BfCc { offset },
        Instruction::BfVs { offset } => DecodedInstruction::BfVs { offset },
        Instruction::BfVc { offset } => DecodedInstruction::BfVc { offset },
        Instruction::BfEs { offset } => DecodedInstruction::BfEs { offset },
        Instruction::BfEc { offset } => DecodedInstruction::BfEc { offset },
        Instruction::BEq { ra, rb, offset } => DecodedInstruction::BEq { ra, rb, offset },
        Instruction::BNe { ra, rb, offset } => DecodedInstruction::BNe { ra, rb, offset },
        Instruction::BLt { ra, rb, offset } => DecodedInstruction::BLt { ra, rb, offset },
        Instruction::BLe { ra, rb, offset } => DecodedInstruction::BLe { ra, rb, offset },
        Instruction::BGt { ra, rb, offset } => DecodedInstruction::BGt { ra, rb, offset },
        Instruction::BGe { ra, rb, offset } => DecodedInstruction::BGe { ra, rb, offset },
        Instruction::BLtu { ra, rb, offset } => DecodedInstruction::BLtu { ra, rb, offset },
        Instruction::BLeu { ra, rb, offset } => DecodedInstruction::BLeu { ra, rb, offset },
        Instruction::BGtu { ra, rb, offset } => DecodedInstruction::BGtu { ra, rb, offset },
        Instruction::BGeu { ra, rb, offset } => DecodedInstruction::BGeu { ra, rb, offset },
        Instruction::Jmp { offset } => DecodedInstruction::Jmp { offset },
        Instruction::Call { offset } => DecodedInstruction::Call { offset },
        Instruction::Jr { target } => DecodedInstruction::Jr { target },
        Instruction::Jalr { rd, target } => DecodedInstruction::Jalr { rd, target },
    }
}

/// The instruction the processor decodes from a raw word.
pub open spec fn spec_cpu_decode(raw: u32) -> Result<DecodedInstruction, DecodeError> {
    match spec_decode(raw) {
        Ok(i) => Ok(spec_from_instruction(i)),
        Err(e) => Err(e),
    }
}

/// The byte offset held in a trap payload: a 12-bit signed word count.
fn trap_offset(payload: u32) -> (r: i32)
    requires
        payload < 0x1000,
    ensures
        r == sign_extend(payload, 0x800) * 4,
{
    let words: i32 = if payload < 0x800 {
        payload as i32
    } else {
        payload as i32 - 0x1000
    };
    words * 4
}

fn from_instruction(i: Instruction) -> (r: DecodedInstruction)
    requires
        i matches Instruction::SoftwareTrap { imm } ==> imm < 0x1000,
    ensures
        r == spec_from_instruction(i),
{
    match i {
        Instruction::Nop => DecodedInstruction::Nop,
        Instruction::Halt => DecodedInstruction::Halt,
        Instruction::SoftwareTrap { imm } => DecodedInstruction::SoftwareTrap { imm: trap_offset(imm) },
        Instruction::SystemCall => DecodedInstruction::SystemCall,
        Instruction::IRet => DecodedInstruction::IRet,
        Instruction::EI => DecodedInstruction::EI,
        Instruction::DI => DecodedInstruction::DI,
        Instruction::RdPc { rd } => DecodedInstruction::RdPc { rd },
        Instruction::Mrs { creg4, rd } => DecodedInstruction::Mrs { creg4, rd },
        Instruction::Msr { creg4, rs } => DecodedInstruction::Msr { creg4, rs },
        Instruction::Add { rd, ra, rb } => DecodedInstruction::Add { rd, ra, rb },
        Instruction::Sub { rd, ra, rb } => DecodedInstruction::Sub { rd, ra, rb },
        Instruction::And { rd, ra, rb } => DecodedInstruction::And { rd, ra, rb },
        Instruction::Or { rd, ra, rb } => DecodedInstruction::Or { rd, ra, rb },
        Instruction::Xor { rd, ra, rb } => DecodedInstruction::Xor { rd, ra, rb },
        Instruction::Not { rd, ra } => DecodedInstruction::Not { rd, ra },
        Instruction::Neg { rd, ra } => DecodedInstruction::Neg { rd, ra },
        Instruction::Cmp { ra, rb } => DecodedInstruction::Cmp { ra, rb },
        Instruction::Addi { rd, ra, imm } => DecodedInstruction::Addi { rd, ra, imm },
        Instruction::Subi { rd, ra, imm } => DecodedInstruction::Subi { rd, ra, imm },
        Instruction::Cmpi { ra, imm } => DecodedInstruction::Cmpi { ra, imm },
        Instruction::Andi { rd, ra, imm } => DecodedInstruction::Andi { rd, ra, imm },
        Instruction::Ori { rd, ra, imm } => DecodedInstruction::Ori { rd, ra, imm },
        Instruction::Xori { rd, ra, imm } => DecodedInstruction::Xori { rd, ra, imm },
        Instruction::Shl { rd, ra, rb } => DecodedInstruction::Shl { rd, ra, rb },
        Instruction::Shr { rd, ra, rb } => DecodedInstruction::Shr { rd, ra, rb },
        Instruction::Sar { rd, ra, rb } => DecodedInstruction::Sar { rd, ra, rb },
        Instruction::Shli { rd, ra, imm } => DecodedInstruction::Shli { rd, ra, imm },
        Instruction::Shri { rd, ra, imm } => DecodedInstruction::Shri { rd, ra, imm },
        Instruction::Sari { rd, ra, imm } => DecodedInstruction::Sari { rd, ra, imm },
        Instruction::Btst { ra, imm } => DecodedInstruction::Btst { ra, imm },
        Instruction::Bset { rd, ra, imm } => DecodedInstruction::Bset { rd, ra, imm },
        Instruction::Bclr { rd, ra, imm } => DecodedInstruction::Bclr { rd, ra, imm },
        Instruction::Btgl { rd, ra, imm } => DecodedInstruction::Btgl { rd, ra, imm },
        Instruction::Mul { rd0, rd1, ra, rb } => DecodedInstruction::Mul { rd0, rd1, ra, rb },
        Instruction::Mulu { rd0, rd1, ra, rb } => DecodedInstruction::Mulu { rd0, rd1, ra, rb },
        Instruction::Div { rd0, rd1, ra, rb } => DecodedInstruction::Div { rd0, rd1, ra, rb },
        Instruction::Divu { rd0, rd1, ra, rb } => DecodedInstruction::Divu { rd0, rd1, ra, rb },
        Instruction::Lui { rd, imm16 } => DecodedInstruction::Lui { rd, imm16 },
        Instruction::Lli { rd, imm16 } => DecodedInstruction::Lli { rd, imm16 },
        Instruction::Lhi { rd, imm16 } => DecodedInstruction::Lhi { rd, imm16 },
        Instruction::Lb { rd, base, offset } => DecodedInstruction::Lb { rd, base, offset },
        Instruction::Lbu { rd, base, offset } => DecodedInstruction::Lbu { rd, base, offset },
        Instruction::Lh { rd, base, offset } => DecodedInstruction::Lh { rd, base, offset },
        Instruction::Lhu { rd, base, offset } => DecodedInstruction::Lhu { rd, base, offset },
        Instruction::Lw { rd, base, offset } => DecodedInstruction::Lw { rd, base, offset },
        Instruction::Sb { rs, base, offset } => DecodedInstruction::Sb { rs, base, offset },
        Instruction::Sh { rs, base, offset } => DecodedInstruction::Sh { rs, base, offset },
        Instruction::Sw { rs, base, offset } => DecodedInstruction::Sw { rs, base, offset },
        Instruction::BfEq { offset } => DecodedInstruction::BfEq { offset },
        Instruction::BfNe { offset } => DecodedInstruction::BfNe { offset },
        Instruction::BfLt { offset } => DecodedInstruction::BfLt { offset },
        Instruction::BfLe { offset } => DecodedInstruction::BfLe { offset },
        Instruction::BfGt { offset } => DecodedInstruction::BfGt { offset },
        Instruction::BfGe { offset } => DecodedInstruction::BfGe { offset },
        Instruction::BfLtu { offset } => DecodedInstruction::BfLtu { offset },
        Instruction::BfLeu { offset } => DecodedInstruction::BfLeu { offset },
        Instruction::BfGtu { offset } => DecodedInstruction::BfGtu { offset },
        Instruction::BfGeu { offset } => DecodedInstruction::BfGeu { offset },
        Instruction::BfCs { offset } => DecodedInstruction::BfCs { offset },
        Instruction::BfCc { offset } => DecodedInstruction::BfCc { offset },
        Instruction::BfVs { offset } => DecodedInstruction::BfVs { offset },
        Instruction::BfVc { offset } => DecodedInstruction::BfVc { offset },
        Instruction::BfEs { offset } => DecodedInstruction::BfEs { offset },
        Instruction::BfEc { offset } => DecodedInstruction::BfEc { offset },
        Instruction::BEq { ra, rb, offset } => DecodedInstruction::BEq { ra, rb, offset },
        Instruction::BNe { ra, rb, offset } => DecodedInstruction::BNe { ra, rb, offset },
        Instruction::BLt { ra, rb, offset } => DecodedInstruction::BLt { ra, rb, offset },
        Instruction::BLe { ra, rb, offset } => DecodedInstruction::BLe { ra, rb, offset },
        Instruction::BGt { ra, rb, offset } => DecodedInstruction::BGt { ra, rb, offset },
        Instruction::BGe { ra, rb, offset } => DecodedInstruction::BGe { ra, rb, offset },
        Instruction::BLtu { ra, rb, offset } => DecodedInstruction::BLtu { ra, rb, offset },
        Instruction::BLeu { ra, rb, offset } => DecodedInstruction::BLeu { ra, rb, offset },
        Instruction::BGtu { ra, rb, offset } => DecodedInstruction::BGtu { ra, rb, offset },
        Instruction::BGeu { ra, rb, offset } => DecodedInstruction::BGeu { ra, rb, offset },
        Instruction::Jmp { offset } => DecodedInstruction::Jmp { offset },
        Instruction::Call { offset } => DecodedInstruction::Call { offset },
        Instruction::Jr { target } => DecodedInstruction::Jr { target },
        Instruction::Jalr { rd, target } => DecodedInstruction::Jalr { rd, target },
    }
}

/// Decodes a raw instruction word.
pub fn decode(raw: u32) -> (r: Result<DecodedInstruction, DecodeError>)
    ensures
        r == spec_cpu_decode(raw),
{
    proof {
        crate::isa::fields::lemma_field_bounds(raw);
    }
    match decode_word(raw) {
        Ok(i) => Ok(from_instruction(i)),
        Err(e) => Err(e),
    }
}

} // verus!
