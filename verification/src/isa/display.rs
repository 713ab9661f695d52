//! The assembly text of instructions and control registers, as the
//! disassembler prints them.
use vstd::prelude::*;

use crate::text::{
    dec_digits, dec_signed, hex_upper, push_decimal, push_hex_padded, push_padded_str, push_signed_decimal, push_str,
    space_padded, string_from_chars, zero_padded,
};

use super::creg::Creg;
use super::instruction::Instruction;

verus! {

pub open spec fn creg_text(c: Creg) -> Seq<char> {
    match c {
        Creg::PC => "%pc"@,
        Creg::SR => "%sr"@,
        Creg::EPC => "%epc"@,
        Creg::ESR => "%esr"@,
        Creg::ECause => "%ecause"@,
        Creg::EData => "%edata"@,
        Creg::EvBase => "%evbase"@,
    }
}

fn push_creg(out: &mut Vec<char>, c: Creg)
    ensures
        final(out)@ == old(out)@ + creg_text(c),
{
    match c {
        Creg::PC => push_str(out, "%pc"),
        Creg::SR => push_str(out, "%sr"),
        Creg::EPC => push_str(out, "%epc"),
        Creg::ESR => push_str(out, "%esr"),
        Creg::ECause => push_str(out, "%ecause"),
        Creg::EData => push_str(out, "%edata"),
        Creg::EvBase => push_str(out, "%evbase"),
    }
}

impl Creg {
    /// The register's assembly name.
    pub fn to_string(&self) -> (r: String)
        ensures
            r@ == creg_text(*self),
    {
        let mut out: Vec<char> = Vec::new();
        push_creg(&mut out, *self);
        assert(out@ =~= creg_text(*self));
        string_from_chars(out.as_slice())
    }
}

/// How an instruction's operands are written.
pub enum Operands {
    Nothing,
    Trap(u32),
    Reg(u8),
    CregReg(Creg, u8),
    Reg2(u8, u8),
    Reg3(u8, u8, u8),
    Reg4(u8, u8, u8, u8),
    RegHex(u8, u32),
    Reg2Hex(u8, u8, u32),
    RegDec(u8, u8),
    Reg2Dec(u8, u8, u8),
    Memory(u8, u8, i32),
    Offset(i32),
    Reg2Offset(u8, u8, i32),
}

/// A register operand: `$` and its number.
pub open spec fn reg_text(r: u8) -> Seq<char> {
    "$"@ + dec_digits(r as nat)
}

pub open spec fn operands_text(o: Operands) -> Seq<char> {
    match o {
        Operands::Nothing => Seq::empty(),
        Operands::Trap(imm) => zero_padded(hex_upper(imm as nat), 3),
        Operands::Reg(a) => reg_text(a),
        Operands::CregReg(c, a) => creg_text(c) + ", "@ + reg_text(a),
        Operands::Reg2(a, b) => reg_text(a) + ", "@ + reg_text(b),
        Operands::Reg3(a, b, c) => reg_text(a) + ", "@ + reg_text(b) + ", "@ + reg_text(c),
        Operands::Reg4(a, b, c, d) => reg_text(a) + ", "@ + reg_text(b) + ", "@ + reg_text(c) + ", "@ + reg_text(d),
        Operands::RegHex(a, imm) => reg_text(a) + ", "@ + zero_padded(hex_upper(imm as nat), 4),
        Operands::Reg2Hex(a, b, imm) => reg_text(a) + ", "@ + reg_text(b) + ", "@ + zero_padded(hex_upper(imm as nat), 4),
        Operands::RegDec(a, imm) => reg_text(a) + ", "@ + dec_digits(imm as nat),
        Operands::Reg2Dec(a, b, imm) => reg_text(a) + ", "@ + reg_text(b) + ", "@ + dec_digits(imm as nat),
        Operands::Memory(a, b, off) => reg_text(a) + ", ["@ + reg_text(b) + ", "@ + dec_signed(off as int) + "]"@,
        Operands::Offset(off) => dec_signed(off as int),
        Operands::Reg2Offset(a, b, off) => reg_text(a) + ", "@ + reg_text(b) + ", "@ + dec_signed(off as int),
    }
}

fn push_reg(out: &mut Vec<char>, r: u8)
    ensures
        final(out)@ == old(out)@ + reg_text(r),
{
    push_str(out, "$");
    push_decimal(out, r as u128);
    assert(out@ =~= old(out)@ + reg_text(r));
}

fn push_operands(out: &mut Vec<char>, o: Operands)
    ensures
        final(out)@ == old(out)@ + operands_text(o),
{
    let ghost start = out@;
    match o {
        Operands::Nothing => {},
        Operands::Trap(imm) => push_hex_padded(out, imm as u64, 3),
        Operands::Reg(a) => push_reg(out, a),
        Operands::CregReg(c, a) => {
            push_creg(out, c);
            push_str(out, ", ");
            push_reg(out, a);
        },
        Operands::Reg2(a, b) => {
            push_reg(out, a);
            push_str(out, ", ");
            push_reg(out, b);
        },
        Operands::Reg3(a, b, c) => {
            push_reg(out, a);
            push_str(out, ", ");
            push_reg(out, b);
            push_str(out, ", ");
            push_reg(out, c);
        },
        Operands::Reg4(a, b, c, d) => {
            push_reg(out, a);
            push_str(out, ", ");
            push_reg(out, b);
            push_str(out, ", ");
            push_reg(out, c);
            push_str(out, ", ");
            push_reg(out, d);
        },
        Operands::RegHex(a, imm) => {
            push_reg(out, a);
            push_str(out, ", ");
            push_hex_padded(out, imm as u64, 4);
        },
        Operands::Reg2Hex(a, b, imm) => {
            push_reg(out, a);
            push_str(out, ", ");
            push_reg(out, b);
            push_str(out, ", ");
            push_hex_padded(out, imm as u64, 4);
        },
        Operands::RegDec(a, imm) => {
            push_reg(out, a);
            push_str(out, ", ");
            push_decimal(out, imm as u128);
        },
        Operands::Reg2Dec(a, b, imm) => {
            push_reg(out, a);
            push_str(out, ", ");
            push_reg(out, b);
            push_str(out, ", ");
            push_decimal(out, imm as u128);
        },
        Operands::Memory(a, b, off) => {
            push_reg(out, a);
            push_str(out, ", [");
            push_reg(out, b);
            push_str(out, ", ");
            push_signed_decimal(out, off as i64);
            push_str(out, "]");
        },
        Operands::Offset(off) => push_signed_decimal(out, off as i64),
        Operands::Reg2Offset(a, b, off) => {
            push_reg(out, a);
            push_str(out, ", ");
            push_reg(out, b);
            push_str(out, ", ");
            push_signed_decimal(out, off as i64);
        },
    }
    assert(out@ =~= start + operands_text(o));
}

/// An instruction's mnemonic, the one the assembler reads, and its operands.
pub open spec fn form(i: Instruction) -> (Seq<char>, Operands) {
    match i {
        Instruction::Nop => ("nop"@, Operands::Nothing),
        Instruction::Halt => ("halt"@, Operands::Nothing),
        Instruction::SoftwareTrap { imm } => ("trap"@, Operands::Trap(imm)),
        Instruction::SystemCall => ("syscall"@, Operands::Nothing),
        Instruction::IRet => ("iret"@, Operands::Nothing),
        Instruction::EI => ("ei"@, Operands::Nothing),
        Instruction::DI => ("di"@, Operands::Nothing),
        Instruction::RdPc { rd } => ("rdpc"@, Operands::Reg(rd)),
        Instruction::Mrs { creg4, rd } => ("mrs"@, Operands::CregReg(creg4, rd)),
        Instruction::Msr { creg4, rs } => ("msr"@, Operands::CregReg(creg4, rs)),
        Instruction::Add { rd, ra, rb } => ("add"@, Operands::Reg3(rd, ra, rb)),
        Instruction::Sub { rd, ra, rb } => ("sub"@, Operands::Reg3(rd, ra, rb)),
        Instruction::And { rd, ra, rb } => ("and"@, Operands::Reg3(rd, ra, rb)),
        Instruction::Or { rd, ra, rb } => ("or"@, Operands::Reg3(rd, ra, rb)),
        Instruction::Xor { rd, ra, rb } => ("xor"@, Operands::Reg3(rd, ra, rb)),
        Instruction::Not { rd, ra } => ("not"@, Operands::Reg2(rd, ra)),
        Instruction::Neg { rd, ra } => ("neg"@, Operands::Reg2(rd, ra)),
        Instruction::Cmp { ra, rb } => ("cmp"@, Operands::Reg2(ra, rb)),
        Instruction::Addi { rd, ra, imm } => ("addi"@, Operands::Reg2Hex(rd, ra, imm)),
        Instruction::Subi { rd, ra, imm } => ("subi"@, Operands::Reg2Hex(rd, ra, imm)),
        Instruction::Cmpi { ra, imm } => ("cmpi"@, Operands::RegHex(ra, imm)),
        Instruction::Andi { rd, ra, imm } => ("andi"@, Operands::Reg2Hex(rd, ra, imm)),
        Instruction::Ori { rd, ra, imm } => ("ori"@, Operands::Reg2Hex(rd, ra, imm)),
        Instruction::Xori { rd, ra, imm } => ("xori"@, Operands::Reg2Hex(rd, ra, imm)),
        Instruction::Shl { rd, ra, rb } => ("shl"@, Operands::Reg3(rd, ra, rb)),
        Instruction::Shr { rd, ra, rb } => ("shr"@, Operands::Reg3(rd, ra, rb)),
        Instruction::Sar { rd, ra, rb } => ("sar"@, Operands::Reg3(rd, ra, rb)),
        Instruction::Shli { rd, ra, imm } => ("shli"@, Operands::Reg2Dec(rd, ra, imm)),
        Instruction::Shri { rd, ra, imm } => ("shri"@, Operands::Reg2Dec(rd, ra, imm)),
        Instruction::Sari { rd, ra, imm } => ("sari"@, Operands::Reg2Dec(rd, ra, imm)),
        Instruction::Btst { ra, imm } => ("btst"@, Operands::RegDec(ra, imm)),
        Instruction::Bset { rd, ra, imm } => ("bset"@, Operands::Reg2Dec(rd, ra, imm)),
        Instruction::Bclr { rd, ra, imm } => ("bclr"@, Operands::Reg2Dec(rd, ra, imm)),
        Instruction::Btgl { rd, ra, imm } => ("btgl"@, Operands::Reg2Dec(rd, ra, imm)),
        Instruction::Mul { rd0, rd1, ra, rb } => ("mul"@, Operands::Reg4(rd0, rd1, ra, rb)),
        Instruction::Mulu { rd0, rd1, ra, rb } => ("mulu"@, Operands::Reg4(rd0, rd1, ra, rb)),
        Instruction::Div { rd0, rd1, ra, rb } => ("div"@, Operands::Reg4(rd0, rd1, ra, rb)),
        Instruction::Divu { rd0, rd1, ra, rb } => ("divu"@, Operands::Reg4(rd0, rd1, ra, rb)),
        Instruction::Lui { rd, imm16 } => ("lui"@, Operands::RegHex(rd, imm16 as u32)),
        Instruction::Lli { rd, imm16 } => ("lli"@, Operands::RegHex(rd, imm16 as u32)),
        Instruction::Lhi { rd, imm16 } => ("lhi"@, Operands::RegHex(rd, imm16 as u32)),
        Instruction::Lb { rd, base, offset } => ("lb"@, Operands::Memory(rd, base, offset)),
        Instruction::Lbu { rd, base, offset } => ("lbu"@, Operands::Memory(rd, base, offset)),
        Instruction::Lh { rd, base, offset } => ("lh"@, Operands::Memory(rd, base, offset)),
        Instruction::Lhu { rd, base, offset } => ("lhu"@, Operands::Memory(rd, base, offset)),
        Instruction::Lw { rd, base, offset } => ("lw"@, Operands::Memory(rd, base, offset)),
        Instruction::Sb { rs, base, offset } => ("sb"@, Operands::Memory(rs, base, offset)),
        Instruction::Sh { rs, base, offset } => ("sh"@, Operands::Memory(rs, base, offset)),
        Instruction::Sw { rs, base, offset } => ("sw"@, Operands::Memory(rs, base, offset)),
        Instruction::BfEq { offset } => ("bf.eq"@, Operands::Offset(offset)),
        Instruction::BfNe { offset } => ("bf.ne"@, Operands::Offset(offset)),
        Instruction::BfLt { offset } => ("bf.lt"@, Operands::Offset(offset)),
        Instruction::BfLe { offset } => ("bf.le"@, Operands::Offset(offset)),
        Instruction::BfGt { offset } => ("bf.gt"@, Operands::Offset(offset)),
        Instruction::BfGe { offset } => ("bf.ge"@, Operands::Offset(offset)),
        Instruction::BfLtu { offset } => ("bf.ltu"@, Operands::Offset(offset)),
        Instruction::BfLeu { offset } => ("bf.leu"@, Operands::Offset(offset)),
        Instruction::BfGtu { offset } => ("bf.gtu"@, Operands::Offset(offset)),
        Instruction::BfGeu { offset } => ("bf.geu"@, Operands::Offset(offset)),
        Instruction::BfCs { offset } => ("bf.cs"@, Operands::Offset(offset)),
        Instruction::BfCc { offset } => ("bf.cc"@, Operands::Offset(offset)),
        Instruction::BfVs { offset } => ("bf.vs"@, Operands::Offset(offset)),
        Instruction::BfVc { offset } => ("bf.vc"@, Operands::Offset(offset)),
        Instruction::BfEs { offset } => ("bf.es"@, Operands::Offset(offset)),
        Instruction::BfEc { offset } => ("bf.ec"@, Operands::Offset(offset)),
        Instruction::BEq { ra, rb, offset } => ("b.eq"@, Operands::Reg2Offset(ra, rb, offset)),
        Instruction::BNe { ra, rb, offset } => ("b.ne"@, Operands::Reg2Offset(ra, rb, offset)),
        Instruction::BLt { ra, rb, offset } => ("b.lt"@, Operands::Reg2Offset(ra, rb, offset)),
        Instruction::BLe { ra, rb, offset } => ("b.le"@, Operands::Reg2Offset(ra, rb, offset)),
        Instruction::BGt { ra, rb, offset } => ("b.gt"@, Operands::Reg2Offset(ra, rb, offset)),
        Instruction::BGe { ra, rb, offset } => ("b.ge"@, Operands::Reg2Offset(ra, rb, offset)),
        Instruction::BLtu { ra, rb, offset } => ("b.ltu"@, Operands::Reg2Offset(ra, rb, offset)),
        Instruction::BLeu { ra, rb, offset } => ("b.leu"@, Operands::Reg2Offset(ra, rb, offset)),
        Instruction::BGtu { ra, rb, offset } => ("b.gtu"@, Operands::Reg2Offset(ra, rb, offset)),
        Instruction::BGeu { ra, rb, offset } => ("b.geu"@, Operands::Reg2Offset(ra, rb, offset)),
        Instruction::Jmp { offset } => ("jmp"@, Operands::Offset(offset)),
        Instruction::Call { offset } => ("call"@, Operands::Offset(offset)),
        Instruction::Jr { target } => ("jr"@, Operands::Reg(target)),
        Instruction::Jalr { rd, target } => ("jalr"@, Operands::Reg2(rd, target)),
    }
}

/// An instruction's assembly text: the mnemonic padded to eight columns, then the operands.
pub open spec fn instruction_text(i: Instruction) -> Seq<char> {
    space_padded(form(i).0, 8) + operands_text(form(i).1)
}

fn form_of(i: Instruction) -> (r: (&'static str, Operands))
    ensures
        r.0@ == form(i).0,
        r.1 == form(i).1,
{
    match i {
        Instruction::Nop => ("nop", Operands::Nothing),
        Instruction::Halt => ("halt", Operands::Nothing),
        Instruction::SoftwareTrap { imm } => ("trap", Operands::Trap(imm)),
        Instruction::SystemCall => ("syscall", Operands::Nothing),
        Instruction::IRet => ("iret", Operands::Nothing),
        Instruction::EI => ("ei", Operands::Nothing),
        Instruction::DI => ("di", Operands::Nothing),
        Instruction::RdPc { rd } => ("rdpc", Operands::Reg(rd)),
        Instruction::Mrs { creg4, rd } => ("mrs", Operands::CregReg(creg4, rd)),
        Instruction::Msr { creg4, rs } => ("msr", Operands::CregReg(creg4, rs)),
        Instruction::Add { rd, ra, rb } => ("add", Operands::Reg3(rd, ra, rb)),
        Instruction::Sub { rd, ra, rb } => ("sub", Operands::Reg3(rd, ra, rb)),
        Instruction::And { rd, ra, rb } => ("and", Operands::Reg3(rd, ra, rb)),
        Instruction::Or { rd, ra, rb } => ("or", Operands::Reg3(rd, ra, rb)),
        Instruction::Xor { rd, ra, rb } => ("xor", Operands::Reg3(rd, ra, rb)),
        Instruction::Not { rd, ra } => ("not", Operands::Reg2(rd, ra)),
        Instruction::Neg { rd, ra } => ("neg", Operands::Reg2(rd, ra)),
        Instruction::Cmp { ra, rb } => ("cmp", Operands::Reg2(ra, rb)),
        Instruction::Addi { rd, ra, imm } => ("addi", Operands::Reg2Hex(rd, ra, imm)),
        Instruction::Subi { rd, ra, imm } => ("subi", Operands::Reg2Hex(rd, ra, imm)),
        Instruction::Cmpi { ra, imm } => ("cmpi", Operands::RegHex(ra, imm)),
        Instruction::Andi { rd, ra, imm } => ("andi", Operands::Reg2Hex(rd, ra, imm)),
        Instruction::Ori { rd, ra, imm } => ("ori", Operands::Reg2Hex(rd, ra, imm)),
        Instruction::Xori { rd, ra, imm } => ("xori", Operands::Reg2Hex(rd, ra, imm)),
        Instruction::Shl { rd, ra, rb } => ("shl", Operands::Reg3(rd, ra, rb)),
        Instruction::Shr { rd, ra, rb } => ("shr", Operands::Reg3(rd, ra, rb)),
        Instruction::Sar { rd, ra, rb } => ("sar", Operands::Reg3(rd, ra, rb)),
        Instruction::Shli { rd, ra, imm } => ("shli", Operands::Reg2Dec(rd, ra, imm)),
        Instruction::Shri { rd, ra, imm } => ("shri", Operands::Reg2Dec(rd, ra, imm)),
        Instruction::Sari { rd, ra, imm } => ("sari", Operands::Reg2Dec(rd, ra, imm)),
        Instruction::Btst { ra, imm } => ("btst", Operands::RegDec(ra, imm)),
        Instruction::Bset { rd, ra, imm } => ("bset", Operands::Reg2Dec(rd, ra, imm)),
        Instruction::Bclr { rd, ra, imm } => ("bclr", Operands::Reg2Dec(rd, ra, imm)),
        Instruction::Btgl { rd, ra, imm } => ("btgl", Operands::Reg2Dec(rd, ra, imm)),
        Instruction::Mul { rd0, rd1, ra, rb } => ("mul", Operands::Reg4(rd0, rd1, ra, rb)),
        Instruction::Mulu { rd0, rd1, ra, rb } => ("mulu", Operands::Reg4(rd0, rd1, ra, rb)),
        Instruction::Div { rd0, rd1, ra, rb } => ("div", Operands::Reg4(rd0, rd1, ra, rb)),
        Instruction::Divu { rd0, rd1, ra, rb } => ("divu", Operands::Reg4(rd0, rd1, ra, rb)),
        Instruction::Lui { rd, imm16 } => ("lui", Operands::RegHex(rd, imm16 as u32)),
        Instruction::Lli { rd, imm16 } => ("lli", Operands::RegHex(rd, imm16 as u32)),
        Instruction::Lhi { rd, imm16 } => ("lhi", Operands::RegHex(rd, imm16 as u32)),
        Instruction::Lb { rd, base, offset } => ("lb", Operands::Memory(rd, base, offset)),
        Instruction::Lbu { rd, base, offset } => ("lbu", Operands::Memory(rd, base, offset)),
        Instruction::Lh { rd, base, offset } => ("lh", Operands::Memory(rd, base, offset)),
        Instruction::Lhu { rd, base, offset } => ("lhu", Operands::Memory(rd, base, offset)),
        Instruction::Lw { rd, base, offset } => ("lw", Operands::Memory(rd, base, offset)),
        Instruction::Sb { rs, base, offset } => ("sb", Operands::Memory(rs, base, offset)),
        Instruction::Sh { rs, base, offset } => ("sh", Operands::Memory(rs, base, offset)),
        Instruction::Sw { rs, base, offset } => ("sw", Operands::Memory(rs, base, offset)),
        Instruction::BfEq { offset } => ("bf.eq", Operands::Offset(offset)),
        Instruction::BfNe { offset } => ("bf.ne", Operands::Offset(offset)),
        Instruction::BfLt { offset } => ("bf.lt", Operands::Offset(offset)),
        Instruction::BfLe { offset } => ("bf.le", Operands::Offset(offset)),
        Instruction::BfGt { offset } => ("bf.gt", Operands::Offset(offset)),
        Instruction::BfGe { offset } => ("bf.ge", Operands::Offset(offset)),
        Instruction::BfLtu { offset } => ("bf.ltu", Operands::Offset(offset)),
        Instruction::BfLeu { offset } => ("bf.leu", Operands::Offset(offset)),
        Instruction::BfGtu { offset } => ("bf.gtu", Operands::Offset(offset)),
        Instruction::BfGeu { offset } => ("bf.geu", Operands::Offset(offset)),
        Instruction::BfCs { offset } => ("bf.cs", Operands::Offset(offset)),
        Instruction::BfCc { offset } => ("bf.cc", Operands::Offset(offset)),
        Instruction::BfVs { offset } => ("bf.vs", Operands::Offset(offset)),
        Instruction::BfVc { offset } => ("bf.vc", Operands::Offset(offset)),
        Instruction::BfEs { offset } => ("bf.es", Operands::Offset(offset)),
        Instruction::BfEc { offset } => ("bf.ec", Operands::Offset(offset)),
        Instruction::BEq { ra, rb, offset } => ("b.eq", Operands::Reg2Offset(ra, rb, offset)),
        Instruction::BNe { ra, rb, offset } => ("b.ne", Operands::Reg2Offset(ra, rb, offset)),
        Instruction::BLt { ra, rb, offset } => ("b.lt", Operands::Reg2Offset(ra, rb, offset)),
        Instruction::BLe { ra, rb, offset } => ("b.le", Operands::Reg2Offset(ra, rb, offset)),
        Instruction::BGt { ra, rb, offset } => ("b.gt", Operands::Reg2Offset(ra, rb, offset)),
        Instruction::BGe { ra, rb, offset } => ("b.ge", Operands::Reg2Offset(ra, rb, offset)),
        Instruction::BLtu { ra, rb, offset } => ("b.ltu", Operands::Reg2Offset(ra, rb, offset)),
        Instruction::BLeu { ra, rb, offset } => ("b.leu", Operands::Reg2Offset(ra, rb, offset)),
        Instruction::BGtu { ra, rb, offset } => ("b.gtu", Operands::Reg2Offset(ra, rb, offset)),
        Instruction::BGeu { ra, rb, offset } => ("b.geu", Operands::Reg2Offset(ra, rb, offset)),
        Instruction::Jmp { offset } => ("jmp", Operands::Offset(offset)),
        Instruction::Call { offset } => ("call", Operands::Offset(offset)),
        Instruction::Jr { target } => ("jr", Operands::Reg(target)),
        Instruction::Jalr { rd, target } => ("jalr", Operands::Reg2(rd, target)),
    }
}

impl Instruction {
    /// The characters of the instruction's assembly text.
    pub fn to_chars(&self) -> (r: Vec<char>)
        ensures
            r@ == instruction_text(*self),
    {
        let (mnemonic, operands) = form_of(*self);
        let mut out: Vec<char> = Vec::new();
        push_padded_str(&mut out, mnemonic, 8);
        push_operands(&mut out, operands);
        assert(out@ =~= instruction_text(*self));
        out
    }

    /// The instruction's assembly text.
    pub fn to_string(&self) -> (r: String)
        ensures
            r@ == instruction_text(*self),
    {
        let chars = self.to_chars();
        string_from_chars(chars.as_slice())
    }
}

} // verus!
