use viv32::emulator::cpu::{Cpu, Creg, DecodedInstruction, ExceptionCause};
use viv32::emulator::platform::{BusDevice, Ram, SystemBus};
use viv32::isa::{decode, encode, Creg as IsaCreg, Instruction};
use viv32::vo::{Bss, ObjectFile, Relocation, RelocationBase, RelocationSign, Symbol};

fn cpu() -> Cpu {
    let mut cpu = Cpu::new(SystemBus::standard(4096));
    cpu.reset();
    cpu
}

#[test]
fn every_sample_instruction_decodes_to_itself() {
    let samples = [
        Instruction::Nop,
        Instruction::SoftwareTrap { imm: 0x123 },
        Instruction::Mrs { creg4: IsaCreg::EPC, rd: 2 },
        Instruction::Addi { rd: 1, ra: 2, imm: 0xFFFF_8000 },
        Instruction::Andi { rd: 1, ra: 2, imm: 0xFFFF },
        Instruction::Shri { rd: 1, ra: 2, imm: 31 },
        Instruction::Divu { rd0: 1, rd1: 2, ra: 3, rb: 4 },
        Instruction::Lhi { rd: 7, imm16: 0xBEEF },
        Instruction::Sh { rs: 3, base: 14, offset: -8 },
        Instruction::BfVc { offset: -16 },
        Instruction::BGeu { ra: 1, rb: 2, offset: 36 },
        Instruction::Call { offset: 4096 },
        Instruction::Jalr { rd: 15, target: 1 },
    ];
    for i in samples {
        let w = encode(i).unwrap();
        assert_eq!(decode(w), Ok(i));
        assert_eq!(encode(decode(w).unwrap()), Ok(w));
    }
}

#[test]
fn register_write_then_read_gives_the_value_except_r0() {
    let mut cpu = cpu();
    cpu.write_gpr(5, 0x0BAD_F00D);
    cpu.write_gpr(0, 0x1234);
    assert_eq!(cpu.read_gpr(5), 0x0BAD_F00D);
    assert_eq!(cpu.read_gpr(6), 0);
    assert_eq!(cpu.read_gpr(0), 0);
}

#[test]
fn trap_then_iret_returns_to_the_trapping_pc_and_status() {
    let mut cpu = cpu();
    cpu.creg_mut().write_register(Creg::PC, 0x400);
    cpu.creg_mut().write_register(Creg::SR, 0x25);
    cpu.execute(DecodedInstruction::SoftwareTrap { imm: 9 });
    assert_eq!(cpu.creg().read_register(Creg::ECause), ExceptionCause::SoftwareTrap.code());
    assert_eq!(cpu.creg().read_register(Creg::EData), 9);
    assert!(!cpu.creg().sr().interrupt_enable());
    cpu.execute(DecodedInstruction::IRet);
    assert_eq!(cpu.creg().read_register(Creg::PC), 0x400);
    assert_eq!(cpu.creg().read_register(Creg::SR), 0x25);
}

#[test]
fn ram_write_then_read_gives_the_bytes_back() {
    let mut ram = Ram::new(16);
    assert_eq!(ram.write8(5, 0x5A), Some(()));
    assert_eq!(ram.read8(5), Some(0x5A));
    assert_eq!(ram.read8(4), Some(0));
    let mut bus = SystemBus::standard(64);
    bus.write32(8, 0xA1B2_C3D4).unwrap();
    assert_eq!(bus.read32(8), Ok(0xA1B2_C3D4));
    bus.write16(2, 0xBEEF).unwrap();
    assert_eq!(bus.read16(2), Ok(0xBEEF));
}

#[test]
fn object_write_then_read_gives_the_object_back() {
    let object = ObjectFile {
        bss: vec![Bss { alignment: 8, size: 0x40, name: "stack".to_owned() }],
        symbols: vec![
            Symbol { offset: 0, name: "_start".to_owned() },
            Symbol { offset: 0x10, name: "msg".to_owned() },
        ],
        relocations: vec![Relocation {
            patch_offset: 4,
            symbol: "msg".to_owned(),
            addend: 0,
            base: RelocationBase::Absolute,
            sign: RelocationSign::Unsigned,
            value_shift: 16,
            width: 16,
            field_shift: 4,
        }],
        bytes: b"BYTES 00000004\nVIVO 1\n".to_vec(),
    };
    let mut encoded = Vec::new();
    object.write(&mut encoded).unwrap();
    assert_eq!(ObjectFile::read(&encoded), Ok(object));
}

#[test]
fn metadata_that_is_not_utf8_is_rejected() {
    let mut data = b"VIVO 1\n\nBSS 0\n\nSYMBOLS 1\n00000000 ".to_vec();
    data.push(0xFF);
    data.extend_from_slice(b"\n\nRELOCATIONS 0\n\nBYTES 00000000\n");
    assert!(matches!(ObjectFile::read(&data), Err(viv32::vo::VoError::InvalidObject(_))));
}

#[test]
fn non_ascii_names_survive_a_round_trip() {
    let object = ObjectFile {
        bss: Vec::new(),
        symbols: vec![Symbol { offset: 4, name: "λ_entrée".to_owned() }],
        relocations: Vec::new(),
        bytes: vec![1, 2, 3, 4, 5],
    };
    let mut encoded = Vec::new();
    object.write(&mut encoded).unwrap();
    assert_eq!(ObjectFile::read(&encoded), Ok(object));
}
