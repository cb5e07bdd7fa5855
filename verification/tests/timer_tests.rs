use trap_dispatch::timer::{schedule_next_context_switch, TimerRegisters};

#[test]
fn compare_is_counter_plus_one_quantum() {
    assert_eq!(schedule_next_context_switch(1_000, 20_000, 1), 21_000);
}

#[test]
fn compare_scales_with_the_multiplier() {
    assert_eq!(schedule_next_context_switch(1_000, 20_000, 3), 61_000);
    assert_eq!(schedule_next_context_switch(5, 7, 65_535), 5 + 7 * 65_535);
}

#[test]
fn zero_quanta_gives_the_counter() {
    assert_eq!(schedule_next_context_switch(123_456, 20_000, 0), 123_456);
}

#[test]
fn compare_wraps_when_the_sum_overflows() {
    assert_eq!(schedule_next_context_switch(u64::MAX, 1, 1), 0);
    assert_eq!(schedule_next_context_switch(u64::MAX - 9, 20, 1), 10);
}

#[test]
fn compare_wraps_when_the_product_overflows() {
    // 2 * 2^63 = 2^64, which is 0 modulo 2^64.
    assert_eq!(schedule_next_context_switch(42, 1u64 << 63, 2), 42);
    // 3 * (2^63 + 1) = 2^64 + 2^63 + 3.
    assert_eq!(schedule_next_context_switch(1, (1u64 << 63) + 1, 3), (1u64 << 63) + 4);
}

#[test]
fn compare_matches_wide_arithmetic() {
    let cases: [(u64, u64, u16); 5] = [
        (0, 0, 0),
        (u64::MAX, u64::MAX, u16::MAX),
        (0xDEAD_BEEF, 10_000_000 / 500, 1),
        (u64::MAX - 1, 3, 7),
        (1 << 40, 1 << 50, 1 << 14),
    ];
    for (t, q, n) in cases {
        let expected = ((t as u128 + (n as u128) * (q as u128)) % (1u128 << 64)) as u64;
        assert_eq!(schedule_next_context_switch(t, q, n), expected);
    }
}

#[test]
fn arm_timer_writes_compare_and_keeps_counter() {
    let mut regs = TimerRegisters { counter: 500, compare: 0 };
    regs.arm_timer(100, 1);
    assert_eq!(regs, TimerRegisters { counter: 500, compare: 600 });
    regs.arm_timer(100, 4);
    assert_eq!(regs, TimerRegisters { counter: 500, compare: 900 });
}

#[test]
fn arm_timer_wraps() {
    let mut regs = TimerRegisters { counter: u64::MAX - 1, compare: 77 };
    regs.arm_timer(2, 2);
    assert_eq!(regs, TimerRegisters { counter: u64::MAX - 1, compare: 2 });
}
