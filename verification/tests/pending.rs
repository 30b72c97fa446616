use stm32_peripherals::bits::lowest_set_bit;
use stm32_peripherals::nvic::irq::{PENDSV, SYSTICK};
use stm32_peripherals::nvic::{Nvic, NUM_IRQS};

#[test]
fn lowest_pending_interrupt_is_taken_first() {
    let mut nvic = Nvic::new();
    nvic.set_intr_pending(5);
    nvic.set_intr_pending(2);
    nvic.set_intr_pending(9);
    assert_eq!(nvic.get_and_clear_next_intr_pending(), Some(2));
    assert_eq!(nvic.get_and_clear_next_intr_pending(), Some(5));
    assert_eq!(nvic.get_and_clear_next_intr_pending(), Some(9));
    assert_eq!(nvic.get_and_clear_next_intr_pending(), None);
}

#[test]
fn interrupt_asserted_twice_is_pending_once() {
    let mut nvic = Nvic::new();
    nvic.set_intr_pending(7);
    nvic.set_intr_pending(7);
    assert_eq!(nvic.get_and_clear_next_intr_pending(), Some(7));
    assert_eq!(nvic.get_and_clear_next_intr_pending(), None);
}

#[test]
fn new_controller_has_nothing_pending() {
    let mut nvic = Nvic::new();
    assert_eq!(nvic.systick_period, None);
    assert_eq!(nvic.last_systick_trigger, 0);
    assert_eq!(nvic.get_and_clear_next_intr_pending(), None);
}

#[test]
fn architectural_exceptions_come_before_device_interrupts() {
    let mut nvic = Nvic::new();
    nvic.set_intr_pending(0);
    nvic.set_intr_pending(SYSTICK);
    nvic.set_intr_pending(PENDSV);
    assert_eq!(nvic.get_and_clear_next_intr_pending(), Some(-2));
    assert_eq!(nvic.get_and_clear_next_intr_pending(), Some(-1));
    assert_eq!(nvic.get_and_clear_next_intr_pending(), Some(0));
    assert_eq!(nvic.get_and_clear_next_intr_pending(), None);
}

#[test]
fn both_ends_of_the_supported_range_can_be_pending() {
    let mut nvic = Nvic::new();
    nvic.set_intr_pending(111);
    nvic.set_intr_pending(-16);
    assert_eq!(nvic.get_and_clear_next_intr_pending(), Some(-16));
    assert_eq!(nvic.get_and_clear_next_intr_pending(), Some(111));
    assert_eq!(nvic.get_and_clear_next_intr_pending(), None);
}

#[test]
fn interrupts_on_both_sides_of_bit_64_are_ordered() {
    let mut nvic = Nvic::new();
    nvic.set_intr_pending(48);
    nvic.set_intr_pending(47);
    nvic.set_intr_pending(100);
    assert_eq!(nvic.get_and_clear_next_intr_pending(), Some(47));
    assert_eq!(nvic.get_and_clear_next_intr_pending(), Some(48));
    assert_eq!(nvic.get_and_clear_next_intr_pending(), Some(100));
    assert_eq!(nvic.get_and_clear_next_intr_pending(), None);
}

#[test]
fn every_supported_interrupt_is_taken_in_order() {
    let mut nvic = Nvic::new();
    let mut irq = NUM_IRQS - 16 - 1;
    while irq >= -16 {
        nvic.set_intr_pending(irq);
        irq -= 1;
    }
    for expected in -16..112 {
        assert_eq!(nvic.get_and_clear_next_intr_pending(), Some(expected));
    }
    assert_eq!(nvic.get_and_clear_next_intr_pending(), None);
}

#[test]
fn supported_range_is_sixteen_below_zero_to_111() {
    assert!(Nvic::is_supported(-16));
    assert!(Nvic::is_supported(-1));
    assert!(Nvic::is_supported(0));
    assert!(Nvic::is_supported(111));
    assert!(!Nvic::is_supported(-17));
    assert!(!Nvic::is_supported(112));
    assert!(!Nvic::is_supported(i32::MIN));
    assert!(!Nvic::is_supported(i32::MAX));
}

#[test]
fn lowest_set_bit_of_masks() {
    assert_eq!(lowest_set_bit(1), 0);
    assert_eq!(lowest_set_bit(0b1010_0000), 5);
    assert_eq!(lowest_set_bit(1u128 << 63), 63);
    assert_eq!(lowest_set_bit(1u128 << 64), 64);
    assert_eq!(lowest_set_bit((1u128 << 127) | (1u128 << 70)), 70);
    assert_eq!(lowest_set_bit(1u128 << 127), 127);
    assert_eq!(lowest_set_bit(u128::MAX), 0);
}
