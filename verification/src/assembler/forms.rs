//! The instruction forms whose operands are registers and numbers: each is
//! read from its tokens alone, without the assembler's state.
use vstd::prelude::*;

use crate::isa::{Creg, Instruction};
use crate::text::chars_equal_str;

use super::error::ParseError;
use super::lexer::{creg, creg_value, immi, immi_message, immi_value, immu, immu_message, immu_value, reg, reg_value};
use super::state::{reported, PFault};

verus! {

/// The lowest and highest offsets of a load or store.
pub const MIN_I14: i64 = -0x4000;
pub const MAX_I14: i64 = 0x3FFF;

/// The range of a signed 16-bit immediate or branch offset.
pub const MIN_I16: i64 = -0x8000;
pub const MAX_I16: i64 = 0x7FFF;

/// The largest constant that `lui`, `lli` and `lhi` accept.
pub const MAX_IMM16: i64 = 0x7FFF;

/// The largest software trap number.
pub const MAX_U12: i64 = 0xFFF;

/// The range of a flag-branch offset.
pub const MIN_I24: i64 = -0x100_0000;
pub const MAX_I24: i64 = 0xFF_FFFF;

/// The range of a jump or call offset.
pub const MIN_I28: i64 = -0x1000_0000;
pub const MAX_I28: i64 = 0xFFF_FFFF;

/// The largest value `li` loads.
pub const MAX_U32: i64 = 0xFFFF_FFFF;

/// A register operand.
pub open spec fn op_reg(x: Seq<char>) -> Result<u8, PFault> {
    match reg_value(x) {
        Some(v) => Ok(v),
        None => Err(PFault::Number(immu_message(x))),
    }
}

/// A signed immediate operand in `min..=max`.
pub open spec fn op_immi(x: Seq<char>, min: int, max: int) -> Result<i32, PFault> {
    match immi_value(x, min, max) {
        Some(v) => Ok(v),
        None => Err(PFault::Number(immi_message(x))),
    }
}

/// An unsigned immediate operand in `min..=max`.
pub open spec fn op_immu(x: Seq<char>, min: int, max: int) -> Result<u32, PFault> {
    match immu_value(x, min, max) {
        Some(v) => Ok(v),
        None => Err(PFault::Number(immu_message(x))),
    }
}

/// A control register operand.
pub open spec fn op_creg(x: Seq<char>) -> Result<Creg, PFault> {
    match creg_value(x) {
        Some(c) => Ok(c),
        None => Err(PFault::Name("Invalid creg: "@ + x)),
    }
}

/// Whether a text starts with a prefix.
pub fn starts_with_str(a: &[char], p: &str) -> (r: bool)
    ensures
        r == p@.is_prefix_of(a@),
{
    let pc = crate::text::chars_of(p);
    if pc.len() > a.len() {
        return false;
    }
    let mut i: usize = 0;
    while i < pc.len()
        invariant
            pc@ == p@,
            pc@.len() <= a@.len(),
            i <= pc@.len(),
            forall|k: int| 0 <= k < i ==> pc@[k] == a@[k],
        decreases pc@.len() - i,
    {
        if pc[i] != a[i] {
            assert(!p@.is_prefix_of(a@)) by {
                assert(a@.subrange(0, p@.len() as int)[i as int] == a@[i as int]);
            }
            return false;
        }
        i += 1;
    }
    assert(p@ =~= a@.subrange(0, p@.len() as int));
    true
}

/// The forms without operands.
pub open spec fn nullary_op(op: Seq<char>) -> Option<Instruction> {
    if op == "nop"@ {
        Some(Instruction::Nop)
    } else if op == "halt"@ {
        Some(Instruction::Halt)
    } else if op == "syscall"@ {
        Some(Instruction::SystemCall)
    } else if op == "iret"@ {
        Some(Instruction::IRet)
    } else if op == "ei"@ {
        Some(Instruction::EI)
    } else if op == "di"@ {
        Some(Instruction::DI)
    } else if op == "ret"@ {
        Some(Instruction::Jr { target: 15 })
    } else {
        None
    }
}

fn nullary_of(op: &[char]) -> (r: Option<Instruction>)
    ensures
        r == nullary_op(op@),
{
    if chars_equal_str(op, "nop") {
        Some(Instruction::Nop)
    } else if chars_equal_str(op, "halt") {
        Some(Instruction::Halt)
    } else if chars_equal_str(op, "syscall") {
        Some(Instruction::SystemCall)
    } else if chars_equal_str(op, "iret") {
        Some(Instruction::IRet)
    } else if chars_equal_str(op, "ei") {
        Some(Instruction::EI)
    } else if chars_equal_str(op, "di") {
        Some(Instruction::DI)
    } else if chars_equal_str(op, "ret") {
        Some(Instruction::Jr { target: 15 })
    } else {
        None
    }
}

/// The forms with one register.
pub open spec fn r_op(op: Seq<char>, r: u8) -> Option<Instruction> {
    if op == "rdpc"@ {
        Some(Instruction::RdPc { rd: r })
    } else if op == "jr"@ {
        Some(Instruction::Jr { target: r })
    } else if op == "clr"@ {
        Some(Instruction::And { rd: r, ra: 0, rb: 0 })
    } else if op == "inc"@ {
        Some(Instruction::Addi { rd: r, ra: r, imm: 1 })
    } else if op == "dec"@ {
        Some(Instruction::Subi { rd: r, ra: r, imm: 1 })
    } else {
        None
    }
}

fn r_of(op: &[char], r: u8) -> (i: Option<Instruction>)
    ensures
        i == r_op(op@, r),
{
    if chars_equal_str(op, "rdpc") {
        Some(Instruction::RdPc { rd: r })
    } else if chars_equal_str(op, "jr") {
        Some(Instruction::Jr { target: r })
    } else if chars_equal_str(op, "clr") {
        Some(Instruction::And { rd: r, ra: 0, rb: 0 })
    } else if chars_equal_str(op, "inc") {
        Some(Instruction::Addi { rd: r, ra: r, imm: 1 })
    } else if chars_equal_str(op, "dec") {
        Some(Instruction::Subi { rd: r, ra: r, imm: 1 })
    } else {
        None
    }
}

/// The forms with two registers.
pub open spec fn rr_op(op: Seq<char>, a: u8, b: u8) -> Option<Instruction> {
    if op == "neg"@ {
        Some(Instruction::Neg { rd: a, ra: b })
    } else if op == "not"@ {
        Some(Instruction::Not { rd: a, ra: b })
    } else if op == "cmp"@ {
        Some(Instruction::Cmp { ra: a, rb: b })
    } else if op == "jalr"@ {
        Some(Instruction::Jalr { rd: a, target: b })
    } else if op == "mov"@ {
        Some(Instruction::Or { rd: a, ra: b, rb: 0 })
    } else {
        None
    }
}

fn rr_of(op: &[char], a: u8, b: u8) -> (i: Option<Instruction>)
    ensures
        i == rr_op(op@, a, b),
{
    if chars_equal_str(op, "neg") {
        Some(Instruction::Neg { rd: a, ra: b })
    } else if chars_equal_str(op, "not") {
        Some(Instruction::Not { rd: a, ra: b })
    } else if chars_equal_str(op, "cmp") {
        Some(Instruction::Cmp { ra: a, rb: b })
    } else if chars_equal_str(op, "jalr") {
        Some(Instruction::Jalr { rd: a, target: b })
    } else if chars_equal_str(op, "mov") {
        Some(Instruction::Or { rd: a, ra: b, rb: 0 })
    } else {
        None
    }
}

/// The register ALU operations.
pub open spec fn rrr_op(op: Seq<char>, rd: u8, ra: u8, rb: u8) -> Option<Instruction> {
    if op == "add"@ {
        Some(Instruction::Add { rd, ra, rb })
    } else if op == "sub"@ {
        Some(Instruction::Sub { rd, ra, rb })
    } else if op == "and"@ {
        Some(Instruction::And { rd, ra, rb })
    } else if op == "or"@ {
        Some(Instruction::Or { rd, ra, rb })
    } else if op == "xor"@ {
        Some(Instruction::Xor { rd, ra, rb })
    } else if op == "shl"@ {
        Some(Instruction::Shl { rd, ra, rb })
    } else if op == "shr"@ {
        Some(Instruction::Shr { rd, ra, rb })
    } else if op == "sar"@ {
        Some(Instruction::Sar { rd, ra, rb })
    } else {
        None
    }
}

fn rrr_of(op: &[char], rd: u8, ra: u8, rb: u8) -> (i: Option<Instruction>)
    ensures
        i == rrr_op(op@, rd, ra, rb),
{
    if chars_equal_str(op, "add") {
        Some(Instruction::Add { rd, ra, rb })
    } else if chars_equal_str(op, "sub") {
        Some(Instruction::Sub { rd, ra, rb })
    } else if chars_equal_str(op, "and") {
        Some(Instruction::And { rd, ra, rb })
    } else if chars_equal_str(op, "or") {
        Some(Instruction::Or { rd, ra, rb })
    } else if chars_equal_str(op, "xor") {
        Some(Instruction::Xor { rd, ra, rb })
    } else if chars_equal_str(op, "shl") {
        Some(Instruction::Shl { rd, ra, rb })
    } else if chars_equal_str(op, "shr") {
        Some(Instruction::Shr { rd, ra, rb })
    } else if chars_equal_str(op, "sar") {
        Some(Instruction::Sar { rd, ra, rb })
    } else {
        None
    }
}

/// The multiply and divide operations.
pub open spec fn rrrr_op(op: Seq<char>, rd0: u8, rd1: u8, ra: u8, rb: u8) -> Option<Instruction> {
    if op == "mul"@ {
        Some(Instruction::Mul { rd0, rd1, ra, rb })
    } else if op == "mulu"@ {
        Some(Instruction::Mulu { rd0, rd1, ra, rb })
    } else if op == "div"@ {
        Some(Instruction::Div { rd0, rd1, ra, rb })
    } else if op == "divu"@ {
        Some(Instruction::Divu { rd0, rd1, ra, rb })
    } else {
        None
    }
}

fn rrrr_of(op: &[char], rd0: u8, rd1: u8, ra: u8, rb: u8) -> (i: Option<Instruction>)
    ensures
        i == rrrr_op(op@, rd0, rd1, ra, rb),
{
    if chars_equal_str(op, "mul") {
        Some(Instruction::Mul { rd0, rd1, ra, rb })
    } else if chars_equal_str(op, "mulu") {
        Some(Instruction::Mulu { rd0, rd1, ra, rb })
    } else if chars_equal_str(op, "div") {
        Some(Instruction::Div { rd0, rd1, ra, rb })
    } else if chars_equal_str(op, "divu") {
        Some(Instruction::Divu { rd0, rd1, ra, rb })
    } else {
        None
    }
}

/// The ALU operations with a signed 16-bit immediate.
pub open spec fn rri_op(op: Seq<char>, rd: u8, ra: u8, imm: u32) -> Option<Instruction> {
    if op == "addi"@ {
        Some(Instruction::Addi { rd, ra, imm })
    } else if op == "subi"@ {
        Some(Instruction::Subi { rd, ra, imm })
    } else if op == "andi"@ {
        Some(Instruction::Andi { rd, ra, imm })
    } else if op == "ori"@ {
        Some(Instruction::Ori { rd, ra, imm })
    } else if op == "xori"@ {
        Some(Instruction::Xori { rd, ra, imm })
    } else {
        None
    }
}

fn rri_of(op: &[char], rd: u8, ra: u8, imm: u32) -> (i: Option<Instruction>)
    ensures
        i == rri_op(op@, rd, ra, imm),
{
    if chars_equal_str(op, "addi") {
        Some(Instruction::Addi { rd, ra, imm })
    } else if chars_equal_str(op, "subi") {
        Some(Instruction::Subi { rd, ra, imm })
    } else if chars_equal_str(op, "andi") {
        Some(Instruction::Andi { rd, ra, imm })
    } else if chars_equal_str(op, "ori") {
        Some(Instruction::Ori { rd, ra, imm })
    } else if chars_equal_str(op, "xori") {
        Some(Instruction::Xori { rd, ra, imm })
    } else {
        None
    }
}

/// The shifts by an immediate, 0 to 32.
pub open spec fn shift_op(op: Seq<char>, rd: u8, ra: u8, imm: u8) -> Option<Instruction> {
    if op == "shli"@ {
        Some(Instruction::Shli { rd, ra, imm })
    } else if op == "shri"@ {
        Some(Instruction::Shri { rd, ra, imm })
    } else if op == "sari"@ {
        Some(Instruction::Sari { rd, ra, imm })
    } else {
        None
    }
}

fn shift_of(op: &[char], rd: u8, ra: u8, imm: u8) -> (i: Option<Instruction>)
    ensures
        i == shift_op(op@, rd, ra, imm),
{
    if chars_equal_str(op, "shli") {
        Some(Instruction::Shli { rd, ra, imm })
    } else if chars_equal_str(op, "shri") {
        Some(Instruction::Shri { rd, ra, imm })
    } else if chars_equal_str(op, "sari") {
        Some(Instruction::Sari { rd, ra, imm })
    } else {
        None
    }
}

/// The bit operations that write a register.
pub open spec fn bit_op(op: Seq<char>, rd: u8, ra: u8, imm: u8) -> Option<Instruction> {
    if op == "bset"@ {
        Some(Instruction::Bset { rd, ra, imm })
    } else if op == "bclr"@ {
        Some(Instruction::Bclr { rd, ra, imm })
    } else if op == "btgl"@ {
        Some(Instruction::Btgl { rd, ra, imm })
    } else {
        None
    }
}

fn bit_of(op: &[char], rd: u8, ra: u8, imm: u8) -> (i: Option<Instruction>)
    ensures
        i == bit_op(op@, rd, ra, imm),
{
    if chars_equal_str(op, "bset") {
        Some(Instruction::Bset { rd, ra, imm })
    } else if chars_equal_str(op, "bclr") {
        Some(Instruction::Bclr { rd, ra, imm })
    } else if chars_equal_str(op, "btgl") {
        Some(Instruction::Btgl { rd, ra, imm })
    } else {
        None
    }
}

/// The loads and stores.
pub open spec fn mem_op(op: Seq<char>, r: u8, base: u8, offset: i32) -> Option<Instruction> {
    if op == "lb"@ {
        Some(Instruction::Lb { rd: r, base, offset })
    } else if op == "lbu"@ {
        Some(Instruction::Lbu { rd: r, base, offset })
    } else if op == "lh"@ {
        Some(Instruction::Lh { rd: r, base, offset })
    } else if op == "lhu"@ {
        Some(Instruction::Lhu { rd: r, base, offset })
    } else if op == "lw"@ {
        Some(Instruction::Lw { rd: r, base, offset })
    } else if op == "sb"@ {
        Some(Instruction::Sb { rs: r, base, offset })
    } else if op == "sh"@ {
        Some(Instruction::Sh { rs: r, base, offset })
    } else if op == "sw"@ {
        Some(Instruction::Sw { rs: r, base, offset })
    } else {
        None
    }
}

fn mem_of(op: &[char], r: u8, base: u8, offset: i32) -> (i: Option<Instruction>)
    ensures
        i == mem_op(op@, r, base, offset),
{
    if chars_equal_str(op, "lb") {
        Some(Instruction::Lb { rd: r, base, offset })
    } else if chars_equal_str(op, "lbu") {
        Some(Instruction::Lbu { rd: r, base, offset })
    } else if chars_equal_str(op, "lh") {
        Some(Instruction::Lh { rd: r, base, offset })
    } else if chars_equal_str(op, "lhu") {
        Some(Instruction::Lhu { rd: r, base, offset })
    } else if chars_equal_str(op, "lw") {
        Some(Instruction::Lw { rd: r, base, offset })
    } else if chars_equal_str(op, "sb") {
        Some(Instruction::Sb { rs: r, base, offset })
    } else if chars_equal_str(op, "sh") {
        Some(Instruction::Sh { rs: r, base, offset })
    } else if chars_equal_str(op, "sw") {
        Some(Instruction::Sw { rs: r, base, offset })
    } else {
        None
    }
}

/// The constant loads.
pub open spec fn const_op(op: Seq<char>, rd: u8, imm16: u16) -> Option<Instruction> {
    if op == "lui"@ {
        Some(Instruction::Lui { rd, imm16 })
    } else if op == "lli"@ {
        Some(Instruction::Lli { rd, imm16 })
    } else if op == "lhi"@ {
        Some(Instruction::Lhi { rd, imm16 })
    } else {
        None
    }
}

fn const_of(op: &[char], rd: u8, imm16: u16) -> (i: Option<Instruction>)
    ensures
        i == const_op(op@, rd, imm16),
{
    if chars_equal_str(op, "lui") {
        Some(Instruction::Lui { rd, imm16 })
    } else if chars_equal_str(op, "lli") {
        Some(Instruction::Lli { rd, imm16 })
    } else if chars_equal_str(op, "lhi") {
        Some(Instruction::Lhi { rd, imm16 })
    } else {
        None
    }
}

/// The instruction a line of these forms stands for, or the fault in its
/// operands; `None` for a line of another form.
#[verifier::opaque]
pub open spec fn form_instruction(t: Seq<Seq<char>>) -> Option<Result<Instruction, PFault>> {
    let n = t.len();
    if n == 0 {
        None
    } else if n == 1 && nullary_op(t[0]) is Some {
        Some(Ok(nullary_op(t[0])->Some_0))
    } else if n == 2 && r_op(t[0], 0) is Some {
        match op_reg(t[1]) {
            Ok(r) => Some(Ok(r_op(t[0], r)->Some_0)),
            Err(f) => Some(Err(f)),
        }
    } else if n == 3 && rr_op(t[0], 0, 0) is Some {
        match (op_reg(t[1]), op_reg(t[2])) {
            (Ok(a), Ok(b)) => Some(Ok(rr_op(t[0], a, b)->Some_0)),
            (Err(f), _) => Some(Err(f)),
            (_, Err(f)) => Some(Err(f)),
        }
    } else if n == 4 && rrr_op(t[0], 0, 0, 0) is Some {
        match (op_reg(t[1]), op_reg(t[2]), op_reg(t[3])) {
            (Ok(a), Ok(b), Ok(c)) => Some(Ok(rrr_op(t[0], a, b, c)->Some_0)),
            (Err(f), _, _) => Some(Err(f)),
            (_, Err(f), _) => Some(Err(f)),
            (_, _, Err(f)) => Some(Err(f)),
        }
    } else if n == 5 && rrrr_op(t[0], 0, 0, 0, 0) is Some {
        match (op_reg(t[1]), op_reg(t[2]), op_reg(t[3]), op_reg(t[4])) {
            (Ok(a), Ok(b), Ok(c), Ok(d)) => Some(Ok(rrrr_op(t[0], a, b, c, d)->Some_0)),
            (Err(f), _, _, _) => Some(Err(f)),
            (_, Err(f), _, _) => Some(Err(f)),
            (_, _, Err(f), _) => Some(Err(f)),
            (_, _, _, Err(f)) => Some(Err(f)),
        }
    } else if n == 4 && rri_op(t[0], 0, 0, 0) is Some {
        match (op_reg(t[1]), op_reg(t[2]), op_immi(t[3], MIN_I16 as int, MAX_I16 as int)) {
            (Ok(a), Ok(b), Ok(v)) => Some(Ok(rri_op(t[0], a, b, v as u32)->Some_0)),
            (Err(f), _, _) => Some(Err(f)),
            (_, Err(f), _) => Some(Err(f)),
            (_, _, Err(f)) => Some(Err(f)),
        }
    } else if n == 4 && shift_op(t[0], 0, 0, 0) is Some {
        match (op_reg(t[1]), op_reg(t[2]), op_immi(t[3], 0, 32)) {
            (Ok(a), Ok(b), Ok(v)) => Some(Ok(shift_op(t[0], a, b, v as u8)->Some_0)),
            (Err(f), _, _) => Some(Err(f)),
            (_, Err(f), _) => Some(Err(f)),
            (_, _, Err(f)) => Some(Err(f)),
        }
    } else if n == 4 && bit_op(t[0], 0, 0, 0) is Some {
        match (op_reg(t[1]), op_reg(t[2]), op_immu(t[3], 0, 32)) {
            (Ok(a), Ok(b), Ok(v)) => Some(Ok(bit_op(t[0], a, b, v as u8)->Some_0)),
            (Err(f), _, _) => Some(Err(f)),
            (_, Err(f), _) => Some(Err(f)),
            (_, _, Err(f)) => Some(Err(f)),
        }
    } else if n == 4 && mem_op(t[0], 0, 0, 0) is Some {
        match (op_reg(t[1]), op_reg(t[2]), op_immi(t[3], MIN_I14 as int, MAX_I14 as int)) {
            (Ok(a), Ok(b), Ok(v)) => Some(Ok(mem_op(t[0], a, b, v)->Some_0)),
            (Err(f), _, _) => Some(Err(f)),
            (_, Err(f), _) => Some(Err(f)),
            (_, _, Err(f)) => Some(Err(f)),
        }
    } else if n == 3 && const_op(t[0], 0, 0) is Some {
        match (op_reg(t[1]), op_immu(t[2], 0, MAX_IMM16 as int)) {
            (Ok(a), Ok(v)) => Some(Ok(const_op(t[0], a, v as u16)->Some_0)),
            (Err(f), _) => Some(Err(f)),
            (_, Err(f)) => Some(Err(f)),
        }
    } else if n == 3 && t[0] == "cmpi"@ {
        match (op_reg(t[1]), op_immi(t[2], MIN_I16 as int, MAX_I16 as int)) {
            (Ok(a), Ok(v)) => Some(Ok(Instruction::Cmpi { ra: a, imm: v as u32 })),
            (Err(f), _) => Some(Err(f)),
            (_, Err(f)) => Some(Err(f)),
        }
    } else if n == 3 && t[0] == "btst"@ {
        match (op_reg(t[1]), op_immu(t[2], 0, 32)) {
            (Ok(a), Ok(v)) => Some(Ok(Instruction::Btst { ra: a, imm: v as u8 })),
            (Err(f), _) => Some(Err(f)),
            (_, Err(f)) => Some(Err(f)),
        }
    } else if n == 3 && t[0] == "mrs"@ {
        match op_reg(t[1]) {
            Err(f) => Some(Err(f)),
            Ok(rd) => match op_creg(t[2]) {
                Err(f) => Some(Err(f)),
                Ok(c) => Some(Ok(Instruction::Mrs { rd, creg4: c })),
            },
        }
    } else if n == 3 && t[0] == "msr"@ {
        match op_creg(t[1]) {
            Err(f) => Some(Err(f)),
            Ok(c) => match op_reg(t[2]) {
                Err(f) => Some(Err(f)),
                Ok(rs) => Some(Ok(Instruction::Msr { creg4: c, rs })),
            },
        }
    } else {
        None
    }
}

/// Reads a line of the register-and-number forms.
pub fn form_of(t: &Vec<Vec<char>>) -> (r: Option<Result<Instruction, ParseError>>)
    ensures
        match form_instruction(t@.map_values(|v: Vec<char>| v@)) {
            None => r is None,
            Some(Ok(i)) => r == Some(Ok::<Instruction, ParseError>(i)),
            Some(Err(f)) => r matches Some(Err(e)) && reported(f, e),
        },
{
    reveal(form_instruction);
    let ghost tv = t@.map_values(|v: Vec<char>| v@);
    let n = t.len();
    if n == 0 {
        return None;
    }
    let op = t[0].as_slice();
    assert(op@ == tv[0]);
    if n == 1 && nullary_of(op).is_some() {
        return Some(Ok(nullary_of(op).unwrap()));
    }
    if n == 2 && r_of(op, 0).is_some() {
        assert(t[1]@ == tv[1]);
        return match reg(t[1].as_slice()) {
            Ok(r) => Some(Ok(r_of(op, r).unwrap())),
            Err(e) => Some(Err(e)),
        };
    }
    if n == 3 && rr_of(op, 0, 0).is_some() {
        assert(t[1]@ == tv[1] && t[2]@ == tv[2]);
        let a = match reg(t[1].as_slice()) {
            Ok(v) => v,
            Err(e) => return Some(Err(e)),
        };
        let b = match reg(t[2].as_slice()) {
            Ok(v) => v,
            Err(e) => return Some(Err(e)),
        };
        return Some(Ok(rr_of(op, a, b).unwrap()));
    }
    if n == 4 && rrr_of(op, 0, 0, 0).is_some() {
        assert(t[1]@ == tv[1] && t[2]@ == tv[2] && t[3]@ == tv[3]);
        let a = match reg(t[1].as_slice()) {
            Ok(v) => v,
            Err(e) => return Some(Err(e)),
        };
        let b = match reg(t[2].as_slice()) {
            Ok(v) => v,
            Err(e) => return Some(Err(e)),
        };
        let c = match reg(t[3].as_slice()) {
            Ok(v) => v,
            Err(e) => return Some(Err(e)),
        };
        return Some(Ok(rrr_of(op, a, b, c).unwrap()));
    }
    if n == 5 && rrrr_of(op, 0, 0, 0, 0).is_some() {
        assert(t[1]@ == tv[1] && t[2]@ == tv[2] && t[3]@ == tv[3] && t[4]@ == tv[4]);
        let a = match reg(t[1].as_slice()) {
            Ok(v) => v,
            Err(e) => return Some(Err(e)),
        };
        let b = match reg(t[2].as_slice()) {
            Ok(v) => v,
            Err(e) => return Some(Err(e)),
        };
        let c = match reg(t[3].as_slice()) {
            Ok(v) => v,
            Err(e) => return Some(Err(e)),
        };
        let d = match reg(t[4].as_slice()) {
            Ok(v) => v,
            Err(e) => return Some(Err(e)),
        };
        return Some(Ok(rrrr_of(op, a, b, c, d).unwrap()));
    }
    if n == 4 && (rri_of(op, 0, 0, 0).is_some() || shift_of(op, 0, 0, 0).is_some() || bit_of(op, 0, 0, 0).is_some()
        || mem_of(op, 0, 0, 0).is_some()) {
        assert(t[1]@ == tv[1] && t[2]@ == tv[2] && t[3]@ == tv[3]);
        let a = match reg(t[1].as_slice()) {
            Ok(v) => v,
            Err(e) => return Some(Err(e)),
        };
        let b = match reg(t[2].as_slice()) {
            Ok(v) => v,
            Err(e) => return Some(Err(e)),
        };
        let x = t[3].as_slice();
        if rri_of(op, 0, 0, 0).is_some() {
            return match immi(x, MIN_I16, MAX_I16) {
                Ok(v) => Some(Ok(rri_of(op, a, b, v as u32).unwrap())),
                Err(e) => Some(Err(e)),
            };
        }
        if shift_of(op, 0, 0, 0).is_some() {
            return match immi(x, 0, 32) {
                Ok(v) => Some(Ok(shift_of(op, a, b, v as u8).unwrap())),
                Err(e) => Some(Err(e)),
            };
        }
        if bit_of(op, 0, 0, 0).is_some() {
            return match immu(x, 0, 32) {
                Ok(v) => Some(Ok(bit_of(op, a, b, v as u8).unwrap())),
                Err(e) => Some(Err(e)),
            };
        }
        return match immi(x, MIN_I14, MAX_I14) {
            Ok(v) => Some(Ok(mem_of(op, a, b, v).unwrap())),
            Err(e) => Some(Err(e)),
        };
    }
    if n == 3 {
        assert(t[1]@ == tv[1] && t[2]@ == tv[2]);
        let x = t[1].as_slice();
        let y = t[2].as_slice();
        if const_of(op, 0, 0).is_some() {
            let a = match reg(x) {
                Ok(v) => v,
                Err(e) => return Some(Err(e)),
            };
            return match immu(y, 0, MAX_IMM16) {
                Ok(v) => Some(Ok(const_of(op, a, v as u16).unwrap())),
                Err(e) => Some(Err(e)),
            };
        }
        if chars_equal_str(op, "cmpi") {
            let a = match reg(x) {
                Ok(v) => v,
                Err(e) => return Some(Err(e)),
            };
            return match immi(y, MIN_I16, MAX_I16) {
                Ok(v) => Some(Ok(Instruction::Cmpi { ra: a, imm: v as u32 })),
                Err(e) => Some(Err(e)),
            };
        }
        if chars_equal_str(op, "btst") {
            let a = match reg(x) {
                Ok(v) => v,
                Err(e) => return Some(Err(e)),
            };
            return match immu(y, 0, 32) {
                Ok(v) => Some(Ok(Instruction::Btst { ra: a, imm: v as u8 })),
                Err(e) => Some(Err(e)),
            };
        }
        if chars_equal_str(op, "mrs") {
            let rd = match reg(x) {
                Ok(v) => v,
                Err(e) => return Some(Err(e)),
            };
            return match creg(y) {
                Ok(c) => Some(Ok(Instruction::Mrs { rd, creg4: c })),
                Err(e) => Some(Err(e)),
            };
        }
        if chars_equal_str(op, "msr") {
            let c = match creg(x) {
                Ok(v) => v,
                Err(e) => return Some(Err(e)),
            };
            return match reg(y) {
                Ok(rs) => Some(Ok(Instruction::Msr { creg4: c, rs })),
                Err(e) => Some(Err(e)),
            };
        }
    }
    None
}

/// The register-compare branches.
pub open spec fn branch_op(op: Seq<char>, ra: u8, rb: u8, offset: i32) -> Option<Instruction> {
    if op == "b.eq"@ {
        Some(Instruction::BEq { ra, rb, offset })
    } else if op == "b.ne"@ {
        Some(Instruction::BNe { ra, rb, offset })
    } else if op == "b.lt"@ {
        Some(Instruction::BLt { ra, rb, offset })
    } else if op == "b.le"@ {
        Some(Instruction::BLe { ra, rb, offset })
    } else if op == "b.gt"@ {
        Some(Instruction::BGt { ra, rb, offset })
    } else if op == "b.ge"@ {
        Some(Instruction::BGe { ra, rb, offset })
    } else if op == "b.ltu"@ {
        Some(Instruction::BLtu { ra, rb, offset })
    } else if op == "b.leu"@ {
        Some(Instruction::BLeu { ra, rb, offset })
    } else if op == "b.gtu"@ {
        Some(Instruction::BGtu { ra, rb, offset })
    } else if op == "b.geu"@ {
        Some(Instruction::BGeu { ra, rb, offset })
    } else {
        None
    }
}

pub fn branch_of(op: &[char], ra: u8, rb: u8, offset: i32) -> (i: Option<Instruction>)
    ensures
        i == branch_op(op@, ra, rb, offset),
{
    if chars_equal_str(op, "b.eq") {
        Some(Instruction::BEq { ra, rb, offset })
    } else if chars_equal_str(op, "b.ne") {
        Some(Instruction::BNe { ra, rb, offset })
    } else if chars_equal_str(op, "b.lt") {
        Some(Instruction::BLt { ra, rb, offset })
    } else if chars_equal_str(op, "b.le") {
        Some(Instruction::BLe { ra, rb, offset })
    } else if chars_equal_str(op, "b.gt") {
        Some(Instruction::BGt { ra, rb, offset })
    } else if chars_equal_str(op, "b.ge") {
        Some(Instruction::BGe { ra, rb, offset })
    } else if chars_equal_str(op, "b.ltu") {
        Some(Instruction::BLtu { ra, rb, offset })
    } else if chars_equal_str(op, "b.leu") {
        Some(Instruction::BLeu { ra, rb, offset })
    } else if chars_equal_str(op, "b.gtu") {
        Some(Instruction::BGtu { ra, rb, offset })
    } else if chars_equal_str(op, "b.geu") {
        Some(Instruction::BGeu { ra, rb, offset })
    } else {
        None
    }
}

/// The flag branches.
pub open spec fn flag_branch_op(op: Seq<char>, offset: i32) -> Option<Instruction> {
    if op == "bf.eq"@ {
        Some(Instruction::BfEq { offset })
    } else if op == "bf.ne"@ {
        Some(Instruction::BfNe { offset })
    } else if op == "bf.lt"@ {
        Some(Instruction::BfLt { offset })
    } else if op == "bf.le"@ {
        Some(Instruction::BfLe { offset })
    } else if op == "bf.gt"@ {
        Some(Instruction::BfGt { offset })
    } else if op == "bf.ge"@ {
        Some(Instruction::BfGe { offset })
    } else if op == "bf.ltu"@ {
        Some(Instruction::BfLtu { offset })
    } else if op == "bf.leu"@ {
        Some(Instruction::BfLeu { offset })
    } else if op == "bf.gtu"@ {
        Some(Instruction::BfGtu { offset })
    } else if op == "bf.geu"@ {
        Some(Instruction::BfGeu { offset })
    } else if op == "bf.cs"@ {
        Some(Instruction::BfCs { offset })
    } else if op == "bf.cc"@ {
        Some(Instruction::BfCc { offset })
    } else if op == "bf.vs"@ {
        Some(Instruction::BfVs { offset })
    } else if op == "bf.vc"@ {
        Some(Instruction::BfVc { offset })
    } else if op == "bf.es"@ {
        Some(Instruction::BfEs { offset })
    } else if op == "bf.ec"@ {
        Some(Instruction::BfEc { offset })
    } else {
        None
    }
}

pub fn flag_branch_of(op: &[char], offset: i32) -> (i: Option<Instruction>)
    ensures
        i == flag_branch_op(op@, offset),
{
    if chars_equal_str(op, "bf.eq") {
        Some(Instruction::BfEq { offset })
    } else if chars_equal_str(op, "bf.ne") {
        Some(Instruction::BfNe { offset })
    } else if chars_equal_str(op, "bf.lt") {
        Some(Instruction::BfLt { offset })
    } else if chars_equal_str(op, "bf.le") {
        Some(Instruction::BfLe { offset })
    } else if chars_equal_str(op, "bf.gt") {
        Some(Instruction::BfGt { offset })
    } else if chars_equal_str(op, "bf.ge") {
        Some(Instruction::BfGe { offset })
    } else if chars_equal_str(op, "bf.ltu") {
        Some(Instruction::BfLtu { offset })
    } else if chars_equal_str(op, "bf.leu") {
        Some(Instruction::BfLeu { offset })
    } else if chars_equal_str(op, "bf.gtu") {
        Some(Instruction::BfGtu { offset })
    } else if chars_equal_str(op, "bf.geu") {
        Some(Instruction::BfGeu { offset })
    } else if chars_equal_str(op, "bf.cs") {
        Some(Instruction::BfCs { offset })
    } else if chars_equal_str(op, "bf.cc") {
        Some(Instruction::BfCc { offset })
    } else if chars_equal_str(op, "bf.vs") {
        Some(Instruction::BfVs { offset })
    } else if chars_equal_str(op, "bf.vc") {
        Some(Instruction::BfVc { offset })
    } else if chars_equal_str(op, "bf.es") {
        Some(Instruction::BfEs { offset })
    } else if chars_equal_str(op, "bf.ec") {
        Some(Instruction::BfEc { offset })
    } else {
        None
    }
}

} // verus!
