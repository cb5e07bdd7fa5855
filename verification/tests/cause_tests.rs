use trap_dispatch::cause::{classify, AsyncCause, Cause, DecodedCause, SyncCause, ASYNC_BIT, CODE_MASK};

#[test]
fn classify_timer_interrupt_word() {
    let d = classify(0x8000_0000_0000_0007);
    assert_eq!(d, DecodedCause { is_async: true, code: 7 });
    assert_eq!(d.cause(), Cause::Async(AsyncCause::Timer));
}

#[test]
fn classify_external_interrupt_word() {
    let d = classify(0x8000_0000_0000_000B);
    assert_eq!(d, DecodedCause { is_async: true, code: 11 });
    assert_eq!(d.cause(), Cause::Async(AsyncCause::External));
}

#[test]
fn classify_illegal_instruction_word() {
    let d = classify(0x2);
    assert_eq!(d, DecodedCause { is_async: false, code: 2 });
    assert_eq!(d.cause(), Cause::Sync(SyncCause::IllegalInstruction));
}

#[test]
fn classify_zero_and_all_ones() {
    assert_eq!(classify(0), DecodedCause { is_async: false, code: 0 });
    assert_eq!(classify(u64::MAX), DecodedCause { is_async: true, code: 0xFFF });
}

#[test]
fn classify_ignores_middle_bits() {
    let d = classify(0x7FFF_FFFF_FFFF_F008);
    assert_eq!(d, DecodedCause { is_async: false, code: 8 });
    let d = classify(0x8000_0000_0000_1003);
    assert_eq!(d, DecodedCause { is_async: true, code: 3 });
}

#[test]
fn classify_flag_is_bit_63_and_code_is_low_twelve_bits() {
    let samples: [u64; 9] = [
        0,
        1,
        0xFFF,
        0x1000,
        0x7FFF_FFFF_FFFF_FFFF,
        0x8000_0000_0000_0000,
        0x8000_0000_0000_0FFF,
        0xDEAD_BEEF_CAFE_F00D,
        u64::MAX,
    ];
    for c in samples {
        let d = classify(c);
        assert_eq!(d.is_async, c & ASYNC_BIT != 0);
        assert_eq!(d.is_async, (c >> 63) == 1);
        assert_eq!(d.code as u64, c & CODE_MASK);
        assert_eq!(d.code as u64, c % 4096);
    }
}

#[test]
fn encode_then_classify_gives_the_pair_back() {
    for is_async in [false, true] {
        for code in 0u16..0x1000 {
            let d = DecodedCause { is_async, code };
            let raw = d.encode();
            assert_eq!(classify(raw), d);
        }
    }
}

#[test]
fn encode_exact_words() {
    assert_eq!(DecodedCause { is_async: true, code: 7 }.encode(), 0x8000_0000_0000_0007);
    assert_eq!(DecodedCause { is_async: false, code: 8 }.encode(), 8);
    assert_eq!(DecodedCause { is_async: true, code: 0xFFF }.encode(), 0x8000_0000_0000_0FFF);
    assert_eq!(DecodedCause { is_async: false, code: 0 }.encode(), 0);
}

#[test]
fn same_code_differs_by_family() {
    let a = DecodedCause { is_async: true, code: 11 }.cause();
    let s = DecodedCause { is_async: false, code: 11 }.cause();
    assert_eq!(a, Cause::Async(AsyncCause::External));
    assert_eq!(s, Cause::Sync(SyncCause::MachineCall));
    assert_ne!(a, s);
}

#[test]
fn async_codes() {
    let of = |code: u16| DecodedCause { is_async: true, code }.cause();
    assert_eq!(of(3), Cause::Async(AsyncCause::Software));
    assert_eq!(of(7), Cause::Async(AsyncCause::Timer));
    assert_eq!(of(11), Cause::Async(AsyncCause::External));
    for code in 0u16..0x1000 {
        if code != 3 && code != 7 && code != 11 {
            assert_eq!(of(code), Cause::Async(AsyncCause::Unrecognized(code)));
        }
    }
}

#[test]
fn sync_codes() {
    let of = |code: u16| DecodedCause { is_async: false, code }.cause();
    assert_eq!(of(2), Cause::Sync(SyncCause::IllegalInstruction));
    assert_eq!(of(8), Cause::Sync(SyncCause::UserCall));
    assert_eq!(of(9), Cause::Sync(SyncCause::SupervisorCall));
    assert_eq!(of(11), Cause::Sync(SyncCause::MachineCall));
    assert_eq!(of(12), Cause::Sync(SyncCause::InstructionPageFault));
    assert_eq!(of(13), Cause::Sync(SyncCause::LoadPageFault));
    assert_eq!(of(15), Cause::Sync(SyncCause::StorePageFault));
    for code in [0u16, 1, 3, 4, 5, 6, 7, 10, 14, 16, 0xFFF] {
        assert_eq!(of(code), Cause::Sync(SyncCause::Unrecognized(code)));
    }
}
