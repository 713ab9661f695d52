use viv32::emulator::cpu::StatusRegister;
use viv32::emulator::Lifecycle;


#[test]
fn new_status_register_starts_at_reset_value() {
    let sr = StatusRegister::new();

    assert_eq!(sr.get(), StatusRegister::RESET_VALUE);
    assert!(!sr.negative());
    assert!(!sr.zero());
    assert!(!sr.carry());
    assert!(!sr.overflow());
    assert!(!sr.arithmetic_error());
    assert!(!sr.interrupt_enable());
}

#[test]
fn set_masks_reserved_bits() {
    let mut sr = StatusRegister::new();

    sr.set(u32::MAX);

    assert_eq!(sr.get(), StatusRegister::VALID_MASK);
}

#[test]
fn individual_flags_can_be_set_and_cleared() {
    let mut sr = StatusRegister::new();

    sr.set_negative(true);
    sr.set_zero(true);
    sr.set_carry(true);
    sr.set_overflow(true);
    sr.set_arithmetic_error(true);
    sr.set_interrupt_enable(true);

    assert!(sr.negative());
    assert!(sr.zero());
    assert!(sr.carry());
    assert!(sr.overflow());
    assert!(sr.arithmetic_error());
    assert!(sr.interrupt_enable());

    sr.set_negative(false);
    sr.set_zero(false);
    sr.set_carry(false);
    sr.set_overflow(false);
    sr.set_arithmetic_error(false);
    sr.set_interrupt_enable(false);

    assert_eq!(sr.get(), 0);
}

#[test]
fn clear_condition_flags_preserves_interrupt_enable() {
    let mut sr = StatusRegister::new();

    sr.set(StatusRegister::VALID_MASK);
    sr.clear_condition_flags();

    assert_eq!(sr.get(), StatusRegister::FLAG_IE);
}

#[test]
fn status_reset_restores_reset_value() {
    let mut sr = StatusRegister::new();

    sr.set(StatusRegister::VALID_MASK);
    sr.reset();

    assert_eq!(sr.get(), StatusRegister::RESET_VALUE);
}

#[test]
fn status_init_restores_reset_value() {
    let mut sr = StatusRegister::new();

    sr.set(StatusRegister::VALID_MASK);
    sr.init();

    assert_eq!(sr.get(), StatusRegister::RESET_VALUE);
}
