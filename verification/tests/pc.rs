use viv32::emulator::cpu::ProgramCounter;
use viv32::emulator::Lifecycle;


#[test]
fn new_pc_starts_at_reset_value() {
    let pc = ProgramCounter::new();

    assert_eq!(pc.get(), ProgramCounter::RESET_VALUE);
}

#[test]
fn set_updates_pc() {
    let mut pc = ProgramCounter::new();

    pc.set(0x1234_5678);

    assert_eq!(pc.get(), 0x1234_5678);
}

#[test]
fn pc_reset_restores_reset_value() {
    let mut pc = ProgramCounter::new();

    pc.set(0x1234_5678);
    pc.reset();

    assert_eq!(pc.get(), ProgramCounter::RESET_VALUE);
}

#[test]
fn pc_init_restores_reset_value() {
    let mut pc = ProgramCounter::new();

    pc.set(0x1234_5678);
    pc.init();

    assert_eq!(pc.get(), ProgramCounter::RESET_VALUE);
}

#[test]
fn advance_word_adds_four() {
    let mut pc = ProgramCounter::new();

    pc.set(0x1000);
    pc.advance_word();

    assert_eq!(pc.get(), 0x1004);
}

#[test]
fn advance_wraps() {
    let mut pc = ProgramCounter::new();

    pc.set(0xFFFF_FFFC);
    pc.advance_word();

    assert_eq!(pc.get(), 0x0000_0000);
}
