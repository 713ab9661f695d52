//! What the assembler lays down can be read back: data by the bus, and the
//! disassembler's text by the assembler.
use vstd::prelude::*;

use crate::emulator::bus::{be_half, be_word32};
use crate::isa::display::form;
use crate::isa::Instruction;

use super::forms::{
    bit_op, branch_op, const_op, flag_branch_op, mem_op, nullary_op, r_op, rr_op, rri_op, rrr_op, rrrr_op, shift_op,
};
use super::state::sized_bytes;

verus! {

/// A datum of 8, 16 or 32 bits is laid down as the bytes the bus reads back
/// as that value: one byte, or the big-endian halfword or word, most
/// significant byte first, as instruction words are.
pub proof fn lemma_data_reads_back(v: u32)
    ensures
        sized_bytes(v, 8).len() == 1,
        sized_bytes(v, 8)[0] == v % 0x100,
        sized_bytes(v, 16).len() == 2,
        be_half(sized_bytes(v, 16)[0], sized_bytes(v, 16)[1]) == v % 0x1_0000,
        sized_bytes(v, 32).len() == 4,
        be_word32(sized_bytes(v, 32)[0], sized_bytes(v, 32)[1], sized_bytes(v, 32)[2], sized_bytes(v, 32)[3]) == v,
{
    let hi = v / 0x100 % 0x100;
    let lo = v % 0x100;
    assert(hi * 256 + lo == v % 0x1_0000) by (nonlinear_arith)
        requires
            hi == v / 0x100 % 0x100,
            lo == v % 0x100,
    ;
    let b0 = v / 0x100_0000;
    let b1 = v / 0x1_0000 % 0x100;
    let b2 = v / 0x100 % 0x100;
    let b3 = v % 0x100;
    assert(b0 * 0x100_0000 + b1 * 0x1_0000 + b2 * 0x100 + b3 == v) by (nonlinear_arith)
        requires
            b0 == v / 0x100_0000,
            b1 == v / 0x1_0000 % 0x100,
            b2 == v / 0x100 % 0x100,
            b3 == v % 0x100,
            v <= 0xFFFF_FFFF,
    ;
}


/// Whether the mnemonic the disassembler prints for `i` is the one the
/// assembler reads, with `i`'s operands, as `i` itself.
pub open spec fn mnemonic_reads_back(i: Instruction) -> bool {
    let m = form(i).0;
    match i {
        Instruction::Nop | Instruction::Halt | Instruction::SystemCall | Instruction::IRet | Instruction::EI
        | Instruction::DI => nullary_op(m) == Some(i),
        Instruction::RdPc { rd } => r_op(m, rd) == Some(i),
        Instruction::Jr { target } => r_op(m, target) == Some(i),
        Instruction::Not { rd, ra } => rr_op(m, rd, ra) == Some(i),
        Instruction::Neg { rd, ra } => rr_op(m, rd, ra) == Some(i),
        Instruction::Cmp { ra, rb } => rr_op(m, ra, rb) == Some(i),
        Instruction::Jalr { rd, target } => rr_op(m, rd, target) == Some(i),
        Instruction::Add { rd, ra, rb } => rrr_op(m, rd, ra, rb) == Some(i),
        Instruction::Sub { rd, ra, rb } => rrr_op(m, rd, ra, rb) == Some(i),
        Instruction::And { rd, ra, rb } => rrr_op(m, rd, ra, rb) == Some(i),
        Instruction::Or { rd, ra, rb } => rrr_op(m, rd, ra, rb) == Some(i),
        Instruction::Xor { rd, ra, rb } => rrr_op(m, rd, ra, rb) == Some(i),
        Instruction::Shl { rd, ra, rb } => rrr_op(m, rd, ra, rb) == Some(i),
        Instruction::Shr { rd, ra, rb } => rrr_op(m, rd, ra, rb) == Some(i),
        Instruction::Sar { rd, ra, rb } => rrr_op(m, rd, ra, rb) == Some(i),
        Instruction::Mul { rd0, rd1, ra, rb } => rrrr_op(m, rd0, rd1, ra, rb) == Some(i),
        Instruction::Mulu { rd0, rd1, ra, rb } => rrrr_op(m, rd0, rd1, ra, rb) == Some(i),
        Instruction::Div { rd0, rd1, ra, rb } => rrrr_op(m, rd0, rd1, ra, rb) == Some(i),
        Instruction::Divu { rd0, rd1, ra, rb } => rrrr_op(m, rd0, rd1, ra, rb) == Some(i),
        Instruction::Addi { rd, ra, imm } => rri_op(m, rd, ra, imm) == Some(i),
        Instruction::Subi { rd, ra, imm } => rri_op(m, rd, ra, imm) == Some(i),
        Instruction::Andi { rd, ra, imm } => rri_op(m, rd, ra, imm) == Some(i),
        Instruction::Ori { rd, ra, imm } => rri_op(m, rd, ra, imm) == Some(i),
        Instruction::Xori { rd, ra, imm } => rri_op(m, rd, ra, imm) == Some(i),
        Instruction::Shli { rd, ra, imm } => shift_op(m, rd, ra, imm) == Some(i),
        Instruction::Shri { rd, ra, imm } => shift_op(m, rd, ra, imm) == Some(i),
        Instruction::Sari { rd, ra, imm } => shift_op(m, rd, ra, imm) == Some(i),
        Instruction::Bset { rd, ra, imm } => bit_op(m, rd, ra, imm) == Some(i),
        Instruction::Bclr { rd, ra, imm } => bit_op(m, rd, ra, imm) == Some(i),
        Instruction::Btgl { rd, ra, imm } => bit_op(m, rd, ra, imm) == Some(i),
        Instruction::Lui { rd, imm16 } => const_op(m, rd, imm16) == Some(i),
        Instruction::Lli { rd, imm16 } => const_op(m, rd, imm16) == Some(i),
        Instruction::Lhi { rd, imm16 } => const_op(m, rd, imm16) == Some(i),
        Instruction::Lb { rd, base, offset } => mem_op(m, rd, base, offset) == Some(i),
        Instruction::Lbu { rd, base, offset } => mem_op(m, rd, base, offset) == Some(i),
        Instruction::Lh { rd, base, offset } => mem_op(m, rd, base, offset) == Some(i),
        Instruction::Lhu { rd, base, offset } => mem_op(m, rd, base, offset) == Some(i),
        Instruction::Lw { rd, base, offset } => mem_op(m, rd, base, offset) == Some(i),
        Instruction::Sb { rs, base, offset } => mem_op(m, rs, base, offset) == Some(i),
        Instruction::Sh { rs, base, offset } => mem_op(m, rs, base, offset) == Some(i),
        Instruction::Sw { rs, base, offset } => mem_op(m, rs, base, offset) == Some(i),
        Instruction::BEq { ra, rb, offset } => branch_op(m, ra, rb, offset) == Some(i),
        Instruction::BNe { ra, rb, offset } => branch_op(m, ra, rb, offset) == Some(i),
        Instruction::BLt { ra, rb, offset } => branch_op(m, ra, rb, offset) == Some(i),
        Instruction::BLe { ra, rb, offset } => branch_op(m, ra, rb, offset) == Some(i),
        Instruction::BGt { ra, rb, offset } => branch_op(m, ra, rb, offset) == Some(i),
        Instruction::BGe { ra, rb, offset } => branch_op(m, ra, rb, offset) == Some(i),
        Instruction::BLtu { ra, rb, offset } => branch_op(m, ra, rb, offset) == Some(i),
        Instruction::BLeu { ra, rb, offset } => branch_op(m, ra, rb, offset) == Some(i),
        Instruction::BGtu { ra, rb, offset } => branch_op(m, ra, rb, offset) == Some(i),
        Instruction::BGeu { ra, rb, offset } => branch_op(m, ra, rb, offset) == Some(i),
        Instruction::BfEq { offset } => flag_branch_op(m, offset) == Some(i),
        Instruction::BfNe { offset } => flag_branch_op(m, offset) == Some(i),
        Instruction::BfLt { offset } => flag_branch_op(m, offset) == Some(i),
        Instruction::BfLe { offset } => flag_branch_op(m, offset) == Some(i),
        Instruction::BfGt { offset } => flag_branch_op(m, offset) == Some(i),
        Instruction::BfGe { offset } => flag_branch_op(m, offset) == Some(i),
        Instruction::BfLtu { offset } => flag_branch_op(m, offset) == Some(i),
        Instruction::BfLeu { offset } => flag_branch_op(m, offset) == Some(i),
        Instruction::BfGtu { offset } => flag_branch_op(m, offset) == Some(i),
        Instruction::BfGeu { offset } => flag_branch_op(m, offset) == Some(i),
        Instruction::BfCs { offset } => flag_branch_op(m, offset) == Some(i),
        Instruction::BfCc { offset } => flag_branch_op(m, offset) == Some(i),
        Instruction::BfVs { offset } => flag_branch_op(m, offset) == Some(i),
        Instruction::BfVc { offset } => flag_branch_op(m, offset) == Some(i),
        Instruction::BfEs { offset } => flag_branch_op(m, offset) == Some(i),
        Instruction::BfEc { offset } => flag_branch_op(m, offset) == Some(i),
        Instruction::Cmpi { .. } => m == "cmpi"@,
        Instruction::Btst { .. } => m == "btst"@,
        Instruction::Mrs { .. } => m == "mrs"@,
        Instruction::Msr { .. } => m == "msr"@,
        Instruction::SoftwareTrap { .. } => m == "trap"@,
        Instruction::Jmp { .. } => m == "jmp"@,
        Instruction::Call { .. } => m == "call"@,
    }
}

proof fn lemma_nop_text(i: Instruction)
    requires
        i is Nop,
    ensures
        mnemonic_reads_back(i),
{
    reveal_strlit("nop");
    assert("nop"@.len() == 3);
}

proof fn lemma_halt_text(i: Instruction)
    requires
        i is Halt,
    ensures
        mnemonic_reads_back(i),
{
    reveal_strlit("halt");
    reveal_strlit("nop");
    assert("halt"@.len() == 4);
    assert("nop"@.len() == 3);
}

proof fn lemma_system_call_text(i: Instruction)
    requires
        i is SystemCall,
    ensures
        mnemonic_reads_back(i),
{
    reveal_strlit("syscall");
    reveal_strlit("nop");
    reveal_strlit("halt");
    assert("syscall"@.len() == 7);
    assert("nop"@.len() == 3);
    assert("halt"@.len() == 4);
}

proof fn lemma_i_ret_text(i: Instruction)
    requires
        i is IRet,
    ensures
        mnemonic_reads_back(i),
{
    reveal_strlit("iret");
    reveal_strlit("nop");
    reveal_strlit("halt");
    reveal_strlit("syscall");
    assert("iret"@.len() == 4);
    assert("nop"@.len() == 3);
    assert("iret"@[0] == 'i' && "halt"@[0] == 'h');
    assert("syscall"@.len() == 7);
}

proof fn lemma_e_i_text(i: Instruction)
    requires
        i is EI,
    ensures
        mnemonic_reads_back(i),
{
    reveal_strlit("ei");
    reveal_strlit("nop");
    reveal_strlit("halt");
    reveal_strlit("syscall");
    reveal_strlit("iret");
    assert("ei"@.len() == 2);
    assert("nop"@.len() == 3);
    assert("halt"@.len() == 4);
    assert("syscall"@.len() == 7);
    assert("iret"@.len() == 4);
}

proof fn lemma_d_i_text(i: Instruction)
    requires
        i is DI,
    ensures
        mnemonic_reads_back(i),
{
    reveal_strlit("di");
    reveal_strlit("nop");
    reveal_strlit("halt");
    reveal_strlit("syscall");
    reveal_strlit("iret");
    reveal_strlit("ei");
    assert("di"@.len() == 2);
    assert("nop"@.len() == 3);
    assert("halt"@.len() == 4);
    assert("syscall"@.len() == 7);
    assert("iret"@.len() == 4);
    assert("di"@[0] == 'd' && "ei"@[0] == 'e');
}

proof fn lemma_rd_pc_text(i: Instruction)
    requires
        i is RdPc,
    ensures
        mnemonic_reads_back(i),
{
    reveal_strlit("rdpc");
    assert("rdpc"@.len() == 4);
}

proof fn lemma_jr_text(i: Instruction)
    requires
        i is Jr,
    ensures
        mnemonic_reads_back(i),
{
    reveal_strlit("jr");
    reveal_strlit("rdpc");
    assert("jr"@.len() == 2);
    assert("rdpc"@.len() == 4);
}

proof fn lemma_not_text(i: Instruction)
    requires
        i is Not,
    ensures
        mnemonic_reads_back(i),
{
    reveal_strlit("not");
    reveal_strlit("neg");
    assert("not"@.len() == 3);
    assert("not"@[1] == 'o' && "neg"@[1] == 'e');
}

proof fn lemma_neg_text(i: Instruction)
    requires
        i is Neg,
    ensures
        mnemonic_reads_back(i),
{
    reveal_strlit("neg");
    assert("neg"@.len() == 3);
}

proof fn lemma_cmp_text(i: Instruction)
    requires
        i is Cmp,
    ensures
        mnemonic_reads_back(i),
{
    reveal_strlit("cmp");
    reveal_strlit("neg");
    reveal_strlit("not");
    assert("cmp"@.len() == 3);
    assert("cmp"@[0] == 'c' && "neg"@[0] == 'n');
    assert("cmp"@[0] == 'c' && "not"@[0] == 'n');
}

proof fn lemma_jalr_text(i: Instruction)
    requires
        i is Jalr,
    ensures
        mnemonic_reads_back(i),
{
    reveal_strlit("jalr");
    reveal_strlit("neg");
    reveal_strlit("not");
    reveal_strlit("cmp");
    assert("jalr"@.len() == 4);
    assert("neg"@.len() == 3);
    assert("not"@.len() == 3);
    assert("cmp"@.len() == 3);
}

proof fn lemma_add_text(i: Instruction)
    requires
        i is Add,
    ensures
        mnemonic_reads_back(i),
{
    reveal_strlit("add");
    assert("add"@.len() == 3);
}

proof fn lemma_sub_text(i: Instruction)
    requires
        i is Sub,
    ensures
        mnemonic_reads_back(i),
{
    reveal_strlit("sub");
    reveal_strlit("add");
    assert("sub"@.len() == 3);
    assert("sub"@[0] == 's' && "add"@[0] == 'a');
}

proof fn lemma_and_text(i: Instruction)
    requires
        i is And,
    ensures
        mnemonic_reads_back(i),
{
    reveal_strlit("and");
    reveal_strlit("add");
    reveal_strlit("sub");
    assert("and"@.len() == 3);
    assert("and"@[1] == 'n' && "add"@[1] == 'd');
    assert("and"@[0] == 'a' && "sub"@[0] == 's');
}

proof fn lemma_or_text(i: Instruction)
    requires
        i is Or,
    ensures
        mnemonic_reads_back(i),
{
    reveal_strlit("or");
    reveal_strlit("add");
    reveal_strlit("sub");
    reveal_strlit("and");
    assert("or"@.len() == 2);
    assert("add"@.len() == 3);
    assert("sub"@.len() == 3);
    assert("and"@.len() == 3);
}

proof fn lemma_xor_text(i: Instruction)
    requires
        i is Xor,
    ensures
        mnemonic_reads_back(i),
{
    reveal_strlit("xor");
    reveal_strlit("add");
    reveal_strlit("sub");
    reveal_strlit("and");
    reveal_strlit("or");
    assert("xor"@.len() == 3);
    assert("xor"@[0] == 'x' && "add"@[0] == 'a');
    assert("xor"@[0] == 'x' && "sub"@[0] == 's');
    assert("xor"@[0] == 'x' && "and"@[0] == 'a');
    assert("or"@.len() == 2);
}

proof fn lemma_shl_text(i: Instruction)
    requires
        i is Shl,
    ensures
        mnemonic_reads_back(i),
{
    reveal_strlit("shl");
    reveal_strlit("add");
    reveal_strlit("sub");
    reveal_strlit("and");
    reveal_strlit("or");
    reveal_strlit("xor");
    assert("shl"@.len() == 3);
    assert("shl"@[0] == 's' && "add"@[0] == 'a');
    assert("shl"@[1] == 'h' && "sub"@[1] == 'u');
    assert("shl"@[0] == 's' && "and"@[0] == 'a');
    assert("or"@.len() == 2);
    assert("shl"@[0] == 's' && "xor"@[0] == 'x');
}

proof fn lemma_shr_text(i: Instruction)
    requires
        i is Shr,
    ensures
        mnemonic_reads_back(i),
{
    reveal_strlit("shr");
    reveal_strlit("add");
    reveal_strlit("sub");
    reveal_strlit("and");
    reveal_strlit("or");
    reveal_strlit("xor");
    reveal_strlit("shl");
    assert("shr"@.len() == 3);
    assert("shr"@[0] == 's' && "add"@[0] == 'a');
    assert("shr"@[1] == 'h' && "sub"@[1] == 'u');
    assert("shr"@[0] == 's' && "and"@[0] == 'a');
    assert("or"@.len() == 2);
    assert("shr"@[0] == 's' && "xor"@[0] == 'x');
    assert("shr"@[2] == 'r' && "shl"@[2] == 'l');
}

proof fn lemma_sar_text(i: Instruction)
    requires
        i is Sar,
    ensures
        mnemonic_reads_back(i),
{
    reveal_strlit("sar");
    reveal_strlit("add");
    reveal_strlit("sub");
    reveal_strlit("and");
    reveal_strlit("or");
    reveal_strlit("xor");
    reveal_strlit("shl");
    reveal_strlit("shr");
    assert("sar"@.len() == 3);
    assert("sar"@[0] == 's' && "add"@[0] == 'a');
    assert("sar"@[1] == 'a' && "sub"@[1] == 'u');
    assert("sar"@[0] == 's' && "and"@[0] == 'a');
    assert("or"@.len() == 2);
    assert("sar"@[0] == 's' && "xor"@[0] == 'x');
    assert("sar"@[1] == 'a' && "shl"@[1] == 'h');
    assert("sar"@[1] == 'a' && "shr"@[1] == 'h');
}

proof fn lemma_mul_text(i: Instruction)
    requires
        i is Mul,
    ensures
        mnemonic_reads_back(i),
{
    reveal_strlit("mul");
    assert("mul"@.len() == 3);
}

proof fn lemma_mulu_text(i: Instruction)
    requires
        i is Mulu,
    ensures
        mnemonic_reads_back(i),
{
    reveal_strlit("mulu");
    reveal_strlit("mul");
    assert("mulu"@.len() == 4);
    assert("mul"@.len() == 3);
}

proof fn lemma_div_text(i: Instruction)
    requires
        i is Div,
    ensures
        mnemonic_reads_back(i),
{
    reveal_strlit("div");
    reveal_strlit("mul");
    reveal_strlit("mulu");
    assert("div"@.len() == 3);
    assert("div"@[0] == 'd' && "mul"@[0] == 'm');
    assert("mulu"@.len() == 4);
}

proof fn lemma_divu_text(i: Instruction)
    requires
        i is Divu,
    ensures
        mnemonic_reads_back(i),
{
    reveal_strlit("divu");
    reveal_strlit("mul");
    reveal_strlit("mulu");
    reveal_strlit("div");
    assert("divu"@.len() == 4);
    assert("mul"@.len() == 3);
    assert("divu"@[0] == 'd' && "mulu"@[0] == 'm');
    assert("div"@.len() == 3);
}

proof fn lemma_addi_text(i: Instruction)
    requires
        i is Addi,
    ensures
        mnemonic_reads_back(i),
{
    reveal_strlit("addi");
    assert("addi"@.len() == 4);
}

proof fn lemma_subi_text(i: Instruction)
    requires
        i is Subi,
    ensures
        mnemonic_reads_back(i),
{
    reveal_strlit("subi");
    reveal_strlit("addi");
    assert("subi"@.len() == 4);
    assert("subi"@[0] == 's' && "addi"@[0] == 'a');
}

proof fn lemma_andi_text(i: Instruction)
    requires
        i is Andi,
    ensures
        mnemonic_reads_back(i),
{
    reveal_strlit("andi");
    reveal_strlit("addi");
    reveal_strlit("subi");
    assert("andi"@.len() == 4);
    assert("andi"@[1] == 'n' && "addi"@[1] == 'd');
    assert("andi"@[0] == 'a' && "subi"@[0] == 's');
}

proof fn lemma_ori_text(i: Instruction)
    requires
        i is Ori,
    ensures
        mnemonic_reads_back(i),
{
    reveal_strlit("ori");
    reveal_strlit("addi");
    reveal_strlit("subi");
    reveal_strlit("andi");
    assert("ori"@.len() == 3);
    assert("addi"@.len() == 4);
    assert("subi"@.len() == 4);
    assert("andi"@.len() == 4);
}

proof fn lemma_xori_text(i: Instruction)
    requires
        i is Xori,
    ensures
        mnemonic_reads_back(i),
{
    reveal_strlit("xori");
    reveal_strlit("addi");
    reveal_strlit("subi");
    reveal_strlit("andi");
    reveal_strlit("ori");
    assert("xori"@.len() == 4);
    assert("xori"@[0] == 'x' && "addi"@[0] == 'a');
    assert("xori"@[0] == 'x' && "subi"@[0] == 's');
    assert("xori"@[0] == 'x' && "andi"@[0] == 'a');
    assert("ori"@.len() == 3);
}

proof fn lemma_shli_text(i: Instruction)
    requires
        i is Shli,
    ensures
        mnemonic_reads_back(i),
{
    reveal_strlit("shli");
    assert("shli"@.len() == 4);
}

proof fn lemma_shri_text(i: Instruction)
    requires
        i is Shri,
    ensures
        mnemonic_reads_back(i),
{
    reveal_strlit("shri");
    reveal_strlit("shli");
    assert("shri"@.len() == 4);
    assert("shri"@[2] == 'r' && "shli"@[2] == 'l');
}

proof fn lemma_sari_text(i: Instruction)
    requires
        i is Sari,
    ensures
        mnemonic_reads_back(i),
{
    reveal_strlit("sari");
    reveal_strlit("shli");
    reveal_strlit("shri");
    assert("sari"@.len() == 4);
    assert("sari"@[1] == 'a' && "shli"@[1] == 'h');
    assert("sari"@[1] == 'a' && "shri"@[1] == 'h');
}

proof fn lemma_bset_text(i: Instruction)
    requires
        i is Bset,
    ensures
        mnemonic_reads_back(i),
{
    reveal_strlit("bset");
    assert("bset"@.len() == 4);
}

proof fn lemma_bclr_text(i: Instruction)
    requires
        i is Bclr,
    ensures
        mnemonic_reads_back(i),
{
    reveal_strlit("bclr");
    reveal_strlit("bset");
    assert("bclr"@.len() == 4);
    assert("bclr"@[1] == 'c' && "bset"@[1] == 's');
}

proof fn lemma_btgl_text(i: Instruction)
    requires
        i is Btgl,
    ensures
        mnemonic_reads_back(i),
{
    reveal_strlit("btgl");
    reveal_strlit("bset");
    reveal_strlit("bclr");
    assert("btgl"@.len() == 4);
    assert("btgl"@[1] == 't' && "bset"@[1] == 's');
    assert("btgl"@[1] == 't' && "bclr"@[1] == 'c');
}

proof fn lemma_lui_text(i: Instruction)
    requires
        i is Lui,
    ensures
        mnemonic_reads_back(i),
{
    reveal_strlit("lui");
    assert("lui"@.len() == 3);
}

proof fn lemma_lli_text(i: Instruction)
    requires
        i is Lli,
    ensures
        mnemonic_reads_back(i),
{
    reveal_strlit("lli");
    reveal_strlit("lui");
    assert("lli"@.len() == 3);
    assert("lli"@[1] == 'l' && "lui"@[1] == 'u');
}

proof fn lemma_lhi_text(i: Instruction)
    requires
        i is Lhi,
    ensures
        mnemonic_reads_back(i),
{
    reveal_strlit("lhi");
    reveal_strlit("lui");
    reveal_strlit("lli");
    assert("lhi"@.len() == 3);
    assert("lhi"@[1] == 'h' && "lui"@[1] == 'u');
    assert("lhi"@[1] == 'h' && "lli"@[1] == 'l');
}

proof fn lemma_lb_text(i: Instruction)
    requires
        i is Lb,
    ensures
        mnemonic_reads_back(i),
{
    reveal_strlit("lb");
    assert("lb"@.len() == 2);
}

proof fn lemma_lbu_text(i: Instruction)
    requires
        i is Lbu,
    ensures
        mnemonic_reads_back(i),
{
    reveal_strlit("lbu");
    reveal_strlit("lb");
    assert("lbu"@.len() == 3);
    assert("lb"@.len() == 2);
}

proof fn lemma_lh_text(i: Instruction)
    requires
        i is Lh,
    ensures
        mnemonic_reads_back(i),
{
    reveal_strlit("lh");
    reveal_strlit("lb");
    reveal_strlit("lbu");
    assert("lh"@.len() == 2);
    assert("lh"@[1] == 'h' && "lb"@[1] == 'b');
    assert("lbu"@.len() == 3);
}

proof fn lemma_lhu_text(i: Instruction)
    requires
        i is Lhu,
    ensures
        mnemonic_reads_back(i),
{
    reveal_strlit("lhu");
    reveal_strlit("lb");
    reveal_strlit("lbu");
    reveal_strlit("lh");
    assert("lhu"@.len() == 3);
    assert("lb"@.len() == 2);
    assert("lhu"@[1] == 'h' && "lbu"@[1] == 'b');
    assert("lh"@.len() == 2);
}

proof fn lemma_lw_text(i: Instruction)
    requires
        i is Lw,
    ensures
        mnemonic_reads_back(i),
{
    reveal_strlit("lw");
    reveal_strlit("lb");
    reveal_strlit("lbu");
    reveal_strlit("lh");
    reveal_strlit("lhu");
    assert("lw"@.len() == 2);
    assert("lw"@[1] == 'w' && "lb"@[1] == 'b');
    assert("lbu"@.len() == 3);
    assert("lw"@[1] == 'w' && "lh"@[1] == 'h');
    assert("lhu"@.len() == 3);
}

proof fn lemma_sb_text(i: Instruction)
    requires
        i is Sb,
    ensures
        mnemonic_reads_back(i),
{
    reveal_strlit("sb");
    reveal_strlit("lb");
    reveal_strlit("lbu");
    reveal_strlit("lh");
    reveal_strlit("lhu");
    reveal_strlit("lw");
    assert("sb"@.len() == 2);
    assert("sb"@[0] == 's' && "lb"@[0] == 'l');
    assert("lbu"@.len() == 3);
    assert("sb"@[0] == 's' && "lh"@[0] == 'l');
    assert("lhu"@.len() == 3);
    assert("sb"@[0] == 's' && "lw"@[0] == 'l');
}

proof fn lemma_sh_text(i: Instruction)
    requires
        i is Sh,
    ensures
        mnemonic_reads_back(i),
{
    reveal_strlit("sh");
    reveal_strlit("lb");
    reveal_strlit("lbu");
    reveal_strlit("lh");
    reveal_strlit("lhu");
    reveal_strlit("lw");
    reveal_strlit("sb");
    assert("sh"@.len() == 2);
    assert("sh"@[0] == 's' && "lb"@[0] == 'l');
    assert("lbu"@.len() == 3);
    assert("sh"@[0] == 's' && "lh"@[0] == 'l');
    assert("lhu"@.len() == 3);
    assert("sh"@[0] == 's' && "lw"@[0] == 'l');
    assert("sh"@[1] == 'h' && "sb"@[1] == 'b');
}

proof fn lemma_sw_text(i: Instruction)
    requires
        i is Sw,
    ensures
        mnemonic_reads_back(i),
{
    reveal_strlit("sw");
    reveal_strlit("lb");
    reveal_strlit("lbu");
    reveal_strlit("lh");
    reveal_strlit("lhu");
    reveal_strlit("lw");
    reveal_strlit("sb");
    reveal_strlit("sh");
    assert("sw"@.len() == 2);
    assert("sw"@[0] == 's' && "lb"@[0] == 'l');
    assert("lbu"@.len() == 3);
    assert("sw"@[0] == 's' && "lh"@[0] == 'l');
    assert("lhu"@.len() == 3);
    assert("sw"@[0] == 's' && "lw"@[0] == 'l');
    assert("sw"@[1] == 'w' && "sb"@[1] == 'b');
    assert("sw"@[1] == 'w' && "sh"@[1] == 'h');
}

proof fn lemma_b_eq_text(i: Instruction)
    requires
        i is BEq,
    ensures
        mnemonic_reads_back(i),
{
    reveal_strlit("b.eq");
    assert("b.eq"@.len() == 4);
}

proof fn lemma_b_ne_text(i: Instruction)
    requires
        i is BNe,
    ensures
        mnemonic_reads_back(i),
{
    reveal_strlit("b.ne");
    reveal_strlit("b.eq");
    assert("b.ne"@.len() == 4);
    assert("b.ne"@[2] == 'n' && "b.eq"@[2] == 'e');
}

proof fn lemma_b_lt_text(i: Instruction)
    requires
        i is BLt,
    ensures
        mnemonic_reads_back(i),
{
    reveal_strlit("b.lt");
    reveal_strlit("b.eq");
    reveal_strlit("b.ne");
    assert("b.lt"@.len() == 4);
    assert("b.lt"@[2] == 'l' && "b.eq"@[2] == 'e');
    assert("b.lt"@[2] == 'l' && "b.ne"@[2] == 'n');
}

proof fn lemma_b_le_text(i: Instruction)
    requires
        i is BLe,
    ensures
        mnemonic_reads_back(i),
{
    reveal_strlit("b.le");
    reveal_strlit("b.eq");
    reveal_strlit("b.ne");
    reveal_strlit("b.lt");
    assert("b.le"@.len() == 4);
    assert("b.le"@[2] == 'l' && "b.eq"@[2] == 'e');
    assert("b.le"@[2] == 'l' && "b.ne"@[2] == 'n');
    assert("b.le"@[3] == 'e' && "b.lt"@[3] == 't');
}

proof fn lemma_b_gt_text(i: Instruction)
    requires
        i is BGt,
    ensures
        mnemonic_reads_back(i),
{
    reveal_strlit("b.gt");
    reveal_strlit("b.eq");
    reveal_strlit("b.ne");
    reveal_strlit("b.lt");
    reveal_strlit("b.le");
    assert("b.gt"@.len() == 4);
    assert("b.gt"@[2] == 'g' && "b.eq"@[2] == 'e');
    assert("b.gt"@[2] == 'g' && "b.ne"@[2] == 'n');
    assert("b.gt"@[2] == 'g' && "b.lt"@[2] == 'l');
    assert("b.gt"@[2] == 'g' && "b.le"@[2] == 'l');
}

proof fn lemma_b_ge_text(i: Instruction)
    requires
        i is BGe,
    ensures
        mnemonic_reads_back(i),
{
    reveal_strlit("b.ge");
    reveal_strlit("b.eq");
    reveal_strlit("b.ne");
    reveal_strlit("b.lt");
    reveal_strlit("b.le");
    reveal_strlit("b.gt");
    assert("b.ge"@.len() == 4);
    assert("b.ge"@[2] == 'g' && "b.eq"@[2] == 'e');
    assert("b.ge"@[2] == 'g' && "b.ne"@[2] == 'n');
    assert("b.ge"@[2] == 'g' && "b.lt"@[2] == 'l');
    assert("b.ge"@[2] == 'g' && "b.le"@[2] == 'l');
    assert("b.ge"@[3] == 'e' && "b.gt"@[3] == 't');
}

proof fn lemma_b_ltu_text(i: Instruction)
    requires
        i is BLtu,
    ensures
        mnemonic_reads_back(i),
{
    reveal_strlit("b.ltu");
    reveal_strlit("b.eq");
    reveal_strlit("b.ne");
    reveal_strlit("b.lt");
    reveal_strlit("b.le");
    reveal_strlit("b.gt");
    reveal_strlit("b.ge");
    assert("b.ltu"@.len() == 5);
    assert("b.eq"@.len() == 4);
    assert("b.ne"@.len() == 4);
    assert("b.lt"@.len() == 4);
    assert("b.le"@.len() == 4);
    assert("b.gt"@.len() == 4);
    assert("b.ge"@.len() == 4);
}

proof fn lemma_b_leu_text(i: Instruction)
    requires
        i is BLeu,
    ensures
        mnemonic_reads_back(i),
{
    reveal_strlit("b.leu");
    reveal_strlit("b.eq");
    reveal_strlit("b.ne");
    reveal_strlit("b.lt");
    reveal_strlit("b.le");
    reveal_strlit("b.gt");
    reveal_strlit("b.ge");
    reveal_strlit("b.ltu");
    assert("b.leu"@.len() == 5);
    assert("b.eq"@.len() == 4);
    assert("b.ne"@.len() == 4);
    assert("b.lt"@.len() == 4);
    assert("b.le"@.len() == 4);
    assert("b.gt"@.len() == 4);
    assert("b.ge"@.len() == 4);
    assert("b.leu"@[3] == 'e' && "b.ltu"@[3] == 't');
}

proof fn lemma_b_gtu_text(i: Instruction)
    requires
        i is BGtu,
    ensures
        mnemonic_reads_back(i),
{
    reveal_strlit("b.gtu");
    reveal_strlit("b.eq");
    reveal_strlit("b.ne");
    reveal_strlit("b.lt");
    reveal_strlit("b.le");
    reveal_strlit("b.gt");
    reveal_strlit("b.ge");
    reveal_strlit("b.ltu");
    reveal_strlit("b.leu");
    assert("b.gtu"@.len() == 5);
    assert("b.eq"@.len() == 4);
    assert("b.ne"@.len() == 4);
    assert("b.lt"@.len() == 4);
    assert("b.le"@.len() == 4);
    assert("b.gt"@.len() == 4);
    assert("b.ge"@.len() == 4);
    assert("b.gtu"@[2] == 'g' && "b.ltu"@[2] == 'l');
    assert("b.gtu"@[2] == 'g' && "b.leu"@[2] == 'l');
}

proof fn lemma_b_geu_text(i: Instruction)
    requires
        i is BGeu,
    ensures
        mnemonic_reads_back(i),
{
    reveal_strlit("b.geu");
    reveal_strlit("b.eq");
    reveal_strlit("b.ne");
    reveal_strlit("b.lt");
    reveal_strlit("b.le");
    reveal_strlit("b.gt");
    reveal_strlit("b.ge");
    reveal_strlit("b.ltu");
    reveal_strlit("b.leu");
    reveal_strlit("b.gtu");
    assert("b.geu"@.len() == 5);
    assert("b.eq"@.len() == 4);
    assert("b.ne"@.len() == 4);
    assert("b.lt"@.len() == 4);
    assert("b.le"@.len() == 4);
    assert("b.gt"@.len() == 4);
    assert("b.ge"@.len() == 4);
    assert("b.geu"@[2] == 'g' && "b.ltu"@[2] == 'l');
    assert("b.geu"@[2] == 'g' && "b.leu"@[2] == 'l');
    assert("b.geu"@[3] == 'e' && "b.gtu"@[3] == 't');
}

proof fn lemma_bf_eq_text(i: Instruction)
    requires
        i is BfEq,
    ensures
        mnemonic_reads_back(i),
{
    reveal_strlit("bf.eq");
    assert("bf.eq"@.len() == 5);
}

proof fn lemma_bf_ne_text(i: Instruction)
    requires
        i is BfNe,
    ensures
        mnemonic_reads_back(i),
{
    reveal_strlit("bf.ne");
    reveal_strlit("bf.eq");
    assert("bf.ne"@.len() == 5);
    assert("bf.ne"@[3] == 'n' && "bf.eq"@[3] == 'e');
}

proof fn lemma_bf_lt_text(i: Instruction)
    requires
        i is BfLt,
    ensures
        mnemonic_reads_back(i),
{
    reveal_strlit("bf.lt");
    reveal_strlit("bf.eq");
    reveal_strlit("bf.ne");
    assert("bf.lt"@.len() == 5);
    assert("bf.lt"@[3] == 'l' && "bf.eq"@[3] == 'e');
    assert("bf.lt"@[3] == 'l' && "bf.ne"@[3] == 'n');
}

proof fn lemma_bf_le_text(i: Instruction)
    requires
        i is BfLe,
    ensures
        mnemonic_reads_back(i),
{
    reveal_strlit("bf.le");
    reveal_strlit("bf.eq");
    reveal_strlit("bf.ne");
    reveal_strlit("bf.lt");
    assert("bf.le"@.len() == 5);
    assert("bf.le"@[3] == 'l' && "bf.eq"@[3] == 'e');
    assert("bf.le"@[3] == 'l' && "bf.ne"@[3] == 'n');
    assert("bf.le"@[4] == 'e' && "bf.lt"@[4] == 't');
}

proof fn lemma_bf_gt_text(i: Instruction)
    requires
        i is BfGt,
    ensures
        mnemonic_reads_back(i),
{
    reveal_strlit("bf.gt");
    reveal_strlit("bf.eq");
    reveal_strlit("bf.ne");
    reveal_strlit("bf.lt");
    reveal_strlit("bf.le");
    assert("bf.gt"@.len() == 5);
    assert("bf.gt"@[3] == 'g' && "bf.eq"@[3] == 'e');
    assert("bf.gt"@[3] == 'g' && "bf.ne"@[3] == 'n');
    assert("bf.gt"@[3] == 'g' && "bf.lt"@[3] == 'l');
    assert("bf.gt"@[3] == 'g' && "bf.le"@[3] == 'l');
}

proof fn lemma_bf_ge_text(i: Instruction)
    requires
        i is BfGe,
    ensures
        mnemonic_reads_back(i),
{
    reveal_strlit("bf.ge");
    reveal_strlit("bf.eq");
    reveal_strlit("bf.ne");
    reveal_strlit("bf.lt");
    reveal_strlit("bf.le");
    reveal_strlit("bf.gt");
    assert("bf.ge"@.len() == 5);
    assert("bf.ge"@[3] == 'g' && "bf.eq"@[3] == 'e');
    assert("bf.ge"@[3] == 'g' && "bf.ne"@[3] == 'n');
    assert("bf.ge"@[3] == 'g' && "bf.lt"@[3] == 'l');
    assert("bf.ge"@[3] == 'g' && "bf.le"@[3] == 'l');
    assert("bf.ge"@[4] == 'e' && "bf.gt"@[4] == 't');
}

proof fn lemma_bf_ltu_text(i: Instruction)
    requires
        i is BfLtu,
    ensures
        mnemonic_reads_back(i),
{
    reveal_strlit("bf.ltu");
    reveal_strlit("bf.eq");
    reveal_strlit("bf.ne");
    reveal_strlit("bf.lt");
    reveal_strlit("bf.le");
    reveal_strlit("bf.gt");
    reveal_strlit("bf.ge");
    assert("bf.ltu"@.len() == 6);
    assert("bf.eq"@.len() == 5);
    assert("bf.ne"@.len() == 5);
    assert("bf.lt"@.len() == 5);
    assert("bf.le"@.len() == 5);
    assert("bf.gt"@.len() == 5);
    assert("bf.ge"@.len() == 5);
}

proof fn lemma_bf_leu_text(i: Instruction)
    requires
        i is BfLeu,
    ensures
        mnemonic_reads_back(i),
{
    reveal_strlit("bf.leu");
    reveal_strlit("bf.eq");
    reveal_strlit("bf.ne");
    reveal_strlit("bf.lt");
    reveal_strlit("bf.le");
    reveal_strlit("bf.gt");
    reveal_strlit("bf.ge");
    reveal_strlit("bf.ltu");
    assert("bf.leu"@.len() == 6);
    assert("bf.eq"@.len() == 5);
    assert("bf.ne"@.len() == 5);
    assert("bf.lt"@.len() == 5);
    assert("bf.le"@.len() == 5);
    assert("bf.gt"@.len() == 5);
    assert("bf.ge"@.len() == 5);
    assert("bf.leu"@[4] == 'e' && "bf.ltu"@[4] == 't');
}

proof fn lemma_bf_gtu_text(i: Instruction)
    requires
        i is BfGtu,
    ensures
        mnemonic_reads_back(i),
{
    reveal_strlit("bf.gtu");
    reveal_strlit("bf.eq");
    reveal_strlit("bf.ne");
    reveal_strlit("bf.lt");
    reveal_strlit("bf.le");
    reveal_strlit("bf.gt");
    reveal_strlit("bf.ge");
    reveal_strlit("bf.ltu");
    reveal_strlit("bf.leu");
    assert("bf.gtu"@.len() == 6);
    assert("bf.eq"@.len() == 5);
    assert("bf.ne"@.len() == 5);
    assert("bf.lt"@.len() == 5);
    assert("bf.le"@.len() == 5);
    assert("bf.gt"@.len() == 5);
    assert("bf.ge"@.len() == 5);
    assert("bf.gtu"@[3] == 'g' && "bf.ltu"@[3] == 'l');
    assert("bf.gtu"@[3] == 'g' && "bf.leu"@[3] == 'l');
}

proof fn lemma_bf_geu_text(i: Instruction)
    requires
        i is BfGeu,
    ensures
        mnemonic_reads_back(i),
{
    reveal_strlit("bf.geu");
    reveal_strlit("bf.eq");
    reveal_strlit("bf.ne");
    reveal_strlit("bf.lt");
    reveal_strlit("bf.le");
    reveal_strlit("bf.gt");
    reveal_strlit("bf.ge");
    reveal_strlit("bf.ltu");
    reveal_strlit("bf.leu");
    reveal_strlit("bf.gtu");
    assert("bf.geu"@.len() == 6);
    assert("bf.eq"@.len() == 5);
    assert("bf.ne"@.len() == 5);
    assert("bf.lt"@.len() == 5);
    assert("bf.le"@.len() == 5);
    assert("bf.gt"@.len() == 5);
    assert("bf.ge"@.len() == 5);
    assert("bf.geu"@[3] == 'g' && "bf.ltu"@[3] == 'l');
    assert("bf.geu"@[3] == 'g' && "bf.leu"@[3] == 'l');
    assert("bf.geu"@[4] == 'e' && "bf.gtu"@[4] == 't');
}

proof fn lemma_bf_cs_text(i: Instruction)
    requires
        i is BfCs,
    ensures
        mnemonic_reads_back(i),
{
    reveal_strlit("bf.cs");
    reveal_strlit("bf.eq");
    reveal_strlit("bf.ne");
    reveal_strlit("bf.lt");
    reveal_strlit("bf.le");
    reveal_strlit("bf.gt");
    reveal_strlit("bf.ge");
    reveal_strlit("bf.ltu");
    reveal_strlit("bf.leu");
    reveal_strlit("bf.gtu");
    reveal_strlit("bf.geu");
    assert("bf.cs"@.len() == 5);
    assert("bf.cs"@[3] == 'c' && "bf.eq"@[3] == 'e');
    assert("bf.cs"@[3] == 'c' && "bf.ne"@[3] == 'n');
    assert("bf.cs"@[3] == 'c' && "bf.lt"@[3] == 'l');
    assert("bf.cs"@[3] == 'c' && "bf.le"@[3] == 'l');
    assert("bf.cs"@[3] == 'c' && "bf.gt"@[3] == 'g');
    assert("bf.cs"@[3] == 'c' && "bf.ge"@[3] == 'g');
    assert("bf.ltu"@.len() == 6);
    assert("bf.leu"@.len() == 6);
    assert("bf.gtu"@.len() == 6);
    assert("bf.geu"@.len() == 6);
}

proof fn lemma_bf_cc_text(i: Instruction)
    requires
        i is BfCc,
    ensures
        mnemonic_reads_back(i),
{
    reveal_strlit("bf.cc");
    reveal_strlit("bf.eq");
    reveal_strlit("bf.ne");
    reveal_strlit("bf.lt");
    reveal_strlit("bf.le");
    reveal_strlit("bf.gt");
    reveal_strlit("bf.ge");
    reveal_strlit("bf.ltu");
    reveal_strlit("bf.leu");
    reveal_strlit("bf.gtu");
    reveal_strlit("bf.geu");
    reveal_strlit("bf.cs");
    assert("bf.cc"@.len() == 5);
    assert("bf.cc"@[3] == 'c' && "bf.eq"@[3] == 'e');
    assert("bf.cc"@[3] == 'c' && "bf.ne"@[3] == 'n');
    assert("bf.cc"@[3] == 'c' && "bf.lt"@[3] == 'l');
    assert("bf.cc"@[3] == 'c' && "bf.le"@[3] == 'l');
    assert("bf.cc"@[3] == 'c' && "bf.gt"@[3] == 'g');
    assert("bf.cc"@[3] == 'c' && "bf.ge"@[3] == 'g');
    assert("bf.ltu"@.len() == 6);
    assert("bf.leu"@.len() == 6);
    assert("bf.gtu"@.len() == 6);
    assert("bf.geu"@.len() == 6);
    assert("bf.cc"@[4] == 'c' && "bf.cs"@[4] == 's');
}

proof fn lemma_bf_vs_text(i: Instruction)
    requires
        i is BfVs,
    ensures
        mnemonic_reads_back(i),
{
    reveal_strlit("bf.vs");
    reveal_strlit("bf.eq");
    reveal_strlit("bf.ne");
    reveal_strlit("bf.lt");
    reveal_strlit("bf.le");
    reveal_strlit("bf.gt");
    reveal_strlit("bf.ge");
    reveal_strlit("bf.ltu");
    reveal_strlit("bf.leu");
    reveal_strlit("bf.gtu");
    reveal_strlit("bf.geu");
    reveal_strlit("bf.cs");
    reveal_strlit("bf.cc");
    assert("bf.vs"@.len() == 5);
    assert("bf.vs"@[3] == 'v' && "bf.eq"@[3] == 'e');
    assert("bf.vs"@[3] == 'v' && "bf.ne"@[3] == 'n');
    assert("bf.vs"@[3] == 'v' && "bf.lt"@[3] == 'l');
    assert("bf.vs"@[3] == 'v' && "bf.le"@[3] == 'l');
    assert("bf.vs"@[3] == 'v' && "bf.gt"@[3] == 'g');
    assert("bf.vs"@[3] == 'v' && "bf.ge"@[3] == 'g');
    assert("bf.ltu"@.len() == 6);
    assert("bf.leu"@.len() == 6);
    assert("bf.gtu"@.len() == 6);
    assert("bf.geu"@.len() == 6);
    assert("bf.vs"@[3] == 'v' && "bf.cs"@[3] == 'c');
    assert("bf.vs"@[3] == 'v' && "bf.cc"@[3] == 'c');
}

proof fn lemma_bf_vc_text(i: Instruction)
    requires
        i is BfVc,
    ensures
        mnemonic_reads_back(i),
{
    reveal_strlit("bf.vc");
    reveal_strlit("bf.eq");
    reveal_strlit("bf.ne");
    reveal_strlit("bf.lt");
    reveal_strlit("bf.le");
    reveal_strlit("bf.gt");
    reveal_strlit("bf.ge");
    reveal_strlit("bf.ltu");
    reveal_strlit("bf.leu");
    reveal_strlit("bf.gtu");
    reveal_strlit("bf.geu");
    reveal_strlit("bf.cs");
    reveal_strlit("bf.cc");
    reveal_strlit("bf.vs");
    assert("bf.vc"@.len() == 5);
    assert("bf.vc"@[3] == 'v' && "bf.eq"@[3] == 'e');
    assert("bf.vc"@[3] == 'v' && "bf.ne"@[3] == 'n');
    assert("bf.vc"@[3] == 'v' && "bf.lt"@[3] == 'l');
    assert("bf.vc"@[3] == 'v' && "bf.le"@[3] == 'l');
    assert("bf.vc"@[3] == 'v' && "bf.gt"@[3] == 'g');
    assert("bf.vc"@[3] == 'v' && "bf.ge"@[3] == 'g');
    assert("bf.ltu"@.len() == 6);
    assert("bf.leu"@.len() == 6);
    assert("bf.gtu"@.len() == 6);
    assert("bf.geu"@.len() == 6);
    assert("bf.vc"@[3] == 'v' && "bf.cs"@[3] == 'c');
    assert("bf.vc"@[3] == 'v' && "bf.cc"@[3] == 'c');
    assert("bf.vc"@[4] == 'c' && "bf.vs"@[4] == 's');
}

proof fn lemma_bf_es_text(i: Instruction)
    requires
        i is BfEs,
    ensures
        mnemonic_reads_back(i),
{
    reveal_strlit("bf.es");
    reveal_strlit("bf.eq");
    reveal_strlit("bf.ne");
    reveal_strlit("bf.lt");
    reveal_strlit("bf.le");
    reveal_strlit("bf.gt");
    reveal_strlit("bf.ge");
    reveal_strlit("bf.ltu");
    reveal_strlit("bf.leu");
    reveal_strlit("bf.gtu");
    reveal_strlit("bf.geu");
    reveal_strlit("bf.cs");
    reveal_strlit("bf.cc");
    reveal_strlit("bf.vs");
    reveal_strlit("bf.vc");
    assert("bf.es"@.len() == 5);
    assert("bf.es"@[4] == 's' && "bf.eq"@[4] == 'q');
    assert("bf.es"@[3] == 'e' && "bf.ne"@[3] == 'n');
    assert("bf.es"@[3] == 'e' && "bf.lt"@[3] == 'l');
    assert("bf.es"@[3] == 'e' && "bf.le"@[3] == 'l');
    assert("bf.es"@[3] == 'e' && "bf.gt"@[3] == 'g');
    assert("bf.es"@[3] == 'e' && "bf.ge"@[3] == 'g');
    assert("bf.ltu"@.len() == 6);
    assert("bf.leu"@.len() == 6);
    assert("bf.gtu"@.len() == 6);
    assert("bf.geu"@.len() == 6);
    assert("bf.es"@[3] == 'e' && "bf.cs"@[3] == 'c');
    assert("bf.es"@[3] == 'e' && "bf.cc"@[3] == 'c');
    assert("bf.es"@[3] == 'e' && "bf.vs"@[3] == 'v');
    assert("bf.es"@[3] == 'e' && "bf.vc"@[3] == 'v');
}

proof fn lemma_bf_ec_text(i: Instruction)
    requires
        i is BfEc,
    ensures
        mnemonic_reads_back(i),
{
    reveal_strlit("bf.ec");
    reveal_strlit("bf.eq");
    reveal_strlit("bf.ne");
    reveal_strlit("bf.lt");
    reveal_strlit("bf.le");
    reveal_strlit("bf.gt");
    reveal_strlit("bf.ge");
    reveal_strlit("bf.ltu");
    reveal_strlit("bf.leu");
    reveal_strlit("bf.gtu");
    reveal_strlit("bf.geu");
    reveal_strlit("bf.cs");
    reveal_strlit("bf.cc");
    reveal_strlit("bf.vs");
    reveal_strlit("bf.vc");
    reveal_strlit("bf.es");
    assert("bf.ec"@.len() == 5);
    assert("bf.ec"@[4] == 'c' && "bf.eq"@[4] == 'q');
    assert("bf.ec"@[3] == 'e' && "bf.ne"@[3] == 'n');
    assert("bf.ec"@[3] == 'e' && "bf.lt"@[3] == 'l');
    assert("bf.ec"@[3] == 'e' && "bf.le"@[3] == 'l');
    assert("bf.ec"@[3] == 'e' && "bf.gt"@[3] == 'g');
    assert("bf.ec"@[3] == 'e' && "bf.ge"@[3] == 'g');
    assert("bf.ltu"@.len() == 6);
    assert("bf.leu"@.len() == 6);
    assert("bf.gtu"@.len() == 6);
    assert("bf.geu"@.len() == 6);
    assert("bf.ec"@[3] == 'e' && "bf.cs"@[3] == 'c');
    assert("bf.ec"@[3] == 'e' && "bf.cc"@[3] == 'c');
    assert("bf.ec"@[3] == 'e' && "bf.vs"@[3] == 'v');
    assert("bf.ec"@[3] == 'e' && "bf.vc"@[3] == 'v');
    assert("bf.ec"@[4] == 'c' && "bf.es"@[4] == 's');
}

/// The disassembler's text of any instruction names it so that the assembler
/// reads it back as the same instruction: every mnemonic printed is the one
/// the assembler maps, with those operands, to that instruction.
pub proof fn lemma_text_reads_back(i: Instruction)
    ensures
        mnemonic_reads_back(i),
{
    match i {
        Instruction::Nop { .. } => lemma_nop_text(i),
        Instruction::Halt { .. } => lemma_halt_text(i),
        Instruction::SystemCall { .. } => lemma_system_call_text(i),
        Instruction::IRet { .. } => lemma_i_ret_text(i),
        Instruction::EI { .. } => lemma_e_i_text(i),
        Instruction::DI { .. } => lemma_d_i_text(i),
        Instruction::RdPc { .. } => lemma_rd_pc_text(i),
        Instruction::Jr { .. } => lemma_jr_text(i),
        Instruction::Not { .. } => lemma_not_text(i),
        Instruction::Neg { .. } => lemma_neg_text(i),
        Instruction::Cmp { .. } => lemma_cmp_text(i),
        Instruction::Jalr { .. } => lemma_jalr_text(i),
        Instruction::Add { .. } => lemma_add_text(i),
        Instruction::Sub { .. } => lemma_sub_text(i),
        Instruction::And { .. } => lemma_and_text(i),
        Instruction::Or { .. } => lemma_or_text(i),
        Instruction::Xor { .. } => lemma_xor_text(i),
        Instruction::Shl { .. } => lemma_shl_text(i),
        Instruction::Shr { .. } => lemma_shr_text(i),
        Instruction::Sar { .. } => lemma_sar_text(i),
        Instruction::Mul { .. } => lemma_mul_text(i),
        Instruction::Mulu { .. } => lemma_mulu_text(i),
        Instruction::Div { .. } => lemma_div_text(i),
        Instruction::Divu { .. } => lemma_divu_text(i),
        Instruction::Addi { .. } => lemma_addi_text(i),
        Instruction::Subi { .. } => lemma_subi_text(i),
        Instruction::Andi { .. } => lemma_andi_text(i),
        Instruction::Ori { .. } => lemma_ori_text(i),
        Instruction::Xori { .. } => lemma_xori_text(i),
        Instruction::Shli { .. } => lemma_shli_text(i),
        Instruction::Shri { .. } => lemma_shri_text(i),
        Instruction::Sari { .. } => lemma_sari_text(i),
        Instruction::Bset { .. } => lemma_bset_text(i),
        Instruction::Bclr { .. } => lemma_bclr_text(i),
        Instruction::Btgl { .. } => lemma_btgl_text(i),
        Instruction::Lui { .. } => lemma_lui_text(i),
        Instruction::Lli { .. } => lemma_lli_text(i),
        Instruction::Lhi { .. } => lemma_lhi_text(i),
        Instruction::Lb { .. } => lemma_lb_text(i),
        Instruction::Lbu { .. } => lemma_lbu_text(i),
        Instruction::Lh { .. } => lemma_lh_text(i),
        Instruction::Lhu { .. } => lemma_lhu_text(i),
        Instruction::Lw { .. } => lemma_lw_text(i),
        Instruction::Sb { .. } => lemma_sb_text(i),
        Instruction::Sh { .. } => lemma_sh_text(i),
        Instruction::Sw { .. } => lemma_sw_text(i),
        Instruction::BEq { .. } => lemma_b_eq_text(i),
        Instruction::BNe { .. } => lemma_b_ne_text(i),
        Instruction::BLt { .. } => lemma_b_lt_text(i),
        Instruction::BLe { .. } => lemma_b_le_text(i),
        Instruction::BGt { .. } => lemma_b_gt_text(i),
        Instruction::BGe { .. } => lemma_b_ge_text(i),
        Instruction::BLtu { .. } => lemma_b_ltu_text(i),
        Instruction::BLeu { .. } => lemma_b_leu_text(i),
        Instruction::BGtu { .. } => lemma_b_gtu_text(i),
        Instruction::BGeu { .. } => lemma_b_geu_text(i),
        Instruction::BfEq { .. } => lemma_bf_eq_text(i),
        Instruction::BfNe { .. } => lemma_bf_ne_text(i),
        Instruction::BfLt { .. } => lemma_bf_lt_text(i),
        Instruction::BfLe { .. } => lemma_bf_le_text(i),
        Instruction::BfGt { .. } => lemma_bf_gt_text(i),
        Instruction::BfGe { .. } => lemma_bf_ge_text(i),
        Instruction::BfLtu { .. } => lemma_bf_ltu_text(i),
        Instruction::BfLeu { .. } => lemma_bf_leu_text(i),
        Instruction::BfGtu { .. } => lemma_bf_gtu_text(i),
        Instruction::BfGeu { .. } => lemma_bf_geu_text(i),
        Instruction::BfCs { .. } => lemma_bf_cs_text(i),
        Instruction::BfCc { .. } => lemma_bf_cc_text(i),
        Instruction::BfVs { .. } => lemma_bf_vs_text(i),
        Instruction::BfVc { .. } => lemma_bf_vc_text(i),
        Instruction::BfEs { .. } => lemma_bf_es_text(i),
        Instruction::BfEc { .. } => lemma_bf_ec_text(i),
        _ => {},
    }
}

} // verus!
