use viv32::emulator::platform::timer::{
    COUNTER_OFFSET, CONTROL_AUTO_RELOAD, CONTROL_ENABLE, CONTROL_IRQ_ENABLE, CONTROL_IRQ_PENDING, CONTROL_OFFSET,
    CONTROL_PRESCALER_SHIFT,
};
use viv32::emulator::platform::{BusDevice, Timer};
use viv32::emulator::Lifecycle;


#[test]
fn new_timer_starts_clear_and_disabled() {
    let mut timer = Timer::new();

    assert_eq!(timer.read_counter(), 0);
    assert_eq!(timer.read_control(), 0);
    assert!(!timer.enabled());
    assert!(!timer.interrupt_pending());
    assert!(!timer.interrupt_asserted());
}

#[test]
fn disabled_timer_does_not_count() {
    let mut timer = Timer::new();

    timer.tick();

    assert_eq!(timer.read_counter(), 0);
}

#[test]
fn enabled_timer_counts_ticks() {
    let mut timer = Timer::new();

    timer.write_control(CONTROL_ENABLE);
    timer.tick();
    timer.tick();

    assert_eq!(timer.read_counter(), 2);
}

#[test]
fn reset_clears_timer_state() {
    let mut timer = Timer::new();

    timer.write_counter(123);
    timer.write_control(CONTROL_ENABLE | CONTROL_IRQ_ENABLE);
    timer.tick();

    timer.reset();

    assert_eq!(timer.read_counter(), 0);
    assert_eq!(timer.read_control(), 0);
    assert!(!timer.enabled());
}

#[test]
fn init_resets_timer_state() {
    let mut timer = Timer::new();

    timer.write_counter(123);
    timer.write_control(CONTROL_ENABLE | CONTROL_IRQ_ENABLE);
    timer.tick();

    timer.init();

    assert_eq!(timer.read_counter(), 0);
    assert_eq!(timer.read_control(), 0);
    assert!(!timer.enabled());
}

#[test]
fn prescaler_divides_ticks() {
    let mut timer = Timer::new();

    let prescaler_divide_by_4 = 2 << CONTROL_PRESCALER_SHIFT;

    timer.write_control(CONTROL_ENABLE | prescaler_divide_by_4);

    timer.tick();
    timer.tick();
    timer.tick();

    assert_eq!(timer.read_counter(), 0);

    timer.tick();

    assert_eq!(timer.read_counter(), 1);
}

#[test]
fn timer_sets_pending_at_period_limit() {
    let mut timer = Timer::new();

    timer.write_counter(255);
    timer.write_compare(256);
    timer.write_control(CONTROL_ENABLE);

    timer.tick();

    assert_eq!(timer.read_counter(), 256);
    assert!(timer.interrupt_pending());
    assert!(!timer.interrupt_asserted());
}

#[test]
fn irq_enable_asserts_interrupt_when_pending() {
    let mut timer = Timer::new();

    timer.write_counter(255);
    timer.write_compare(256);
    timer.write_control(CONTROL_ENABLE | CONTROL_IRQ_ENABLE);

    timer.tick();

    assert!(timer.interrupt_pending());
    assert!(timer.interrupt_asserted());
}

#[test]
fn one_shot_timer_disables_after_period() {
    let mut timer = Timer::new();

    timer.write_counter(255);
    timer.write_compare(256);
    timer.write_control(CONTROL_ENABLE);

    timer.tick();

    assert_eq!(timer.read_control() & CONTROL_ENABLE, 0);
}

#[test]
fn auto_reload_timer_resets_counter_and_keeps_guest_enable_set() {
    let mut timer = Timer::new();

    timer.write_counter(255);
    timer.write_compare(256);
    timer.write_control(CONTROL_ENABLE | CONTROL_AUTO_RELOAD);

    timer.tick();

    assert_eq!(timer.read_counter(), 0);
    assert_ne!(timer.read_control() & CONTROL_ENABLE, 0);
    assert!(timer.interrupt_pending());
}

#[test]
fn writing_one_to_pending_bit_clears_pending() {
    let mut timer = Timer::new();

    timer.write_counter(255);
    timer.write_compare(256);
    timer.write_control(CONTROL_ENABLE | CONTROL_IRQ_ENABLE);
    timer.tick();

    assert!(timer.interrupt_pending());

    timer.write_control(CONTROL_IRQ_PENDING);

    assert!(!timer.interrupt_pending());
    assert!(!timer.interrupt_asserted());
}

#[test]
fn writing_zero_to_pending_bit_preserves_pending() {
    let mut timer = Timer::new();

    timer.write_counter(255);
    timer.write_compare(256);
    timer.write_control(CONTROL_ENABLE | CONTROL_IRQ_ENABLE);
    timer.tick();

    assert!(timer.interrupt_pending());

    timer.write_control(CONTROL_IRQ_ENABLE);

    assert!(timer.interrupt_pending());
}

#[test]
fn write_counter_resets_prescaler_counter() {
    let mut timer = Timer::new();

    let prescaler_divide_by_4 = 2 << CONTROL_PRESCALER_SHIFT;

    timer.write_control(CONTROL_ENABLE | prescaler_divide_by_4);
    timer.tick();
    timer.tick();
    timer.tick();

    timer.write_counter(10);
    timer.tick();

    assert_eq!(timer.read_counter(), 10);
}

#[test]
fn read8_exposes_counter_as_big_endian_bytes() {
    let mut timer = Timer::new();

    timer.write_counter(0x1234_5678);

    assert_eq!(timer.read8(COUNTER_OFFSET), Some(0x12));
    assert_eq!(timer.read8(COUNTER_OFFSET + 1), Some(0x34));
    assert_eq!(timer.read8(COUNTER_OFFSET + 2), Some(0x56));
    assert_eq!(timer.read8(COUNTER_OFFSET + 3), Some(0x78));
}

#[test]
fn write8_updates_counter_big_endian_byte_lanes() {
    let mut timer = Timer::new();

    assert_eq!(timer.write8(COUNTER_OFFSET, 0x12), Some(()));
    assert_eq!(timer.write8(COUNTER_OFFSET + 1, 0x34), Some(()));
    assert_eq!(timer.write8(COUNTER_OFFSET + 2, 0x56), Some(()));
    assert_eq!(timer.write8(COUNTER_OFFSET + 3, 0x78), Some(()));

    assert_eq!(timer.read_counter(), 0x1234_5678);
}

#[test]
fn read8_exposes_control_as_big_endian_bytes() {
    let mut timer = Timer::new();

    timer.write_control(CONTROL_ENABLE | CONTROL_IRQ_ENABLE | CONTROL_AUTO_RELOAD);

    assert_eq!(timer.read8(CONTROL_OFFSET), Some(0x00));
    assert_eq!(timer.read8(CONTROL_OFFSET + 1), Some(0x00));
    assert_eq!(timer.read8(CONTROL_OFFSET + 2), Some(0x00));
    assert_eq!(
        timer.read8(CONTROL_OFFSET + 3),
        Some((CONTROL_ENABLE | CONTROL_IRQ_ENABLE | CONTROL_AUTO_RELOAD) as u8)
    );
}

#[test]
fn write8_control_uses_control_register_semantics() {
    let mut timer = Timer::new();

    timer.write_counter(255);
    timer.write_compare(256);
    timer.write_control(CONTROL_ENABLE | CONTROL_IRQ_ENABLE);
    timer.tick();

    assert!(timer.interrupt_pending());

    assert_eq!(
        timer.write8(CONTROL_OFFSET + 3, CONTROL_IRQ_PENDING as u8),
        Some(())
    );

    assert!(!timer.interrupt_pending());
}

#[test]
fn timer_unknown_offsets_return_none() {
    let mut timer = Timer::new();

    assert_eq!(timer.read8(0x0C), None);
    assert_eq!(timer.write8(0x0C, 0xFF), None);
}
