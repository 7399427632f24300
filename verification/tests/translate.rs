use relibc::errno::{e, Errno, EINVAL, EIO};
use relibc::kernel::{read_flags, update_flags};
use relibc::signal::{
    mask_to_c, mask_to_kernel, KernelSigAction, SigHandler, Sigaction, SIG_BLOCK, SIG_SETMASK,
    SIG_UNBLOCK,
};
use relibc::sys_time::{ITimerSpec, Itimerval, TimeSpec, Timeval};
use relibc::types::{to_word, to_word_negated};

#[test]
fn the_bridge_hands_a_success_value_through() {
    let mut errno = 11;
    assert_eq!(e(Ok(0), &mut errno), 0);
    assert_eq!(e(Ok(60), &mut errno), 60);
    assert_eq!(e(Ok(usize::MAX), &mut errno), usize::MAX);
    assert_eq!(errno, 11);
}

#[test]
fn the_bridge_stores_a_failure_code_and_gives_all_ones() {
    let mut errno = 0;
    assert_eq!(e(Err(Errno { code: EINVAL }), &mut errno), !0);
    assert_eq!(errno, 22);
    assert_eq!(e(Err(Errno { code: EIO }), &mut errno), usize::MAX);
    assert_eq!(errno, 5);
    assert_eq!(e(Err(Errno { code: 9 }), &mut errno) as i32, -1);
    assert_eq!(errno, 9);
}

#[test]
fn words_are_sign_extended() {
    assert_eq!(to_word(0), 0);
    assert_eq!(to_word(1), 1);
    assert_eq!(to_word(i32::MAX), 0x7FFF_FFFF);
    assert_eq!(to_word(-1), usize::MAX);
    assert_eq!(to_word(-2), usize::MAX - 1);
    assert_eq!(to_word(i32::MIN), usize::MAX - 0x7FFF_FFFF);
    for x in [0, 1, -1, 17, -17, i32::MAX, i32::MIN, 0x5401, -0x5401] {
        assert_eq!(to_word(x), x as usize);
        assert_eq!(to_word_negated(x), (-(x as isize)) as usize);
    }
    assert_eq!(to_word_negated(0), 0);
    assert_eq!(to_word_negated(-7), 7);
    assert_eq!(to_word_negated(7), usize::MAX - 6);
    assert_eq!(to_word_negated(i32::MIN), 0x8000_0000);
}

#[test]
fn timers_are_opened_with_the_kernels_flags() {
    assert_eq!(read_flags(), 0x0001_0000 | 0x0100_0000);
    assert_eq!(update_flags(), 0x0003_0000 | 0x0100_0000);
    assert_eq!(read_flags(), syscall::O_RDONLY | syscall::O_CLOEXEC);
    assert_eq!(update_flags(), syscall::O_RDWR | syscall::O_CLOEXEC);
}

#[test]
fn microseconds_become_nanoseconds() {
    let span = Timeval { tv_sec: 1, tv_usec: 500_000 };
    assert_eq!(span.to_kernel(), TimeSpec { tv_sec: 1, tv_nsec: 500_000_000 });
    let span = Timeval { tv_sec: -3, tv_usec: 999_999 };
    assert_eq!(span.to_kernel(), TimeSpec { tv_sec: -3, tv_nsec: 999_999_000 });
    let span = Timeval { tv_sec: i64::MAX, tv_usec: 0 };
    assert_eq!(span.to_kernel(), TimeSpec { tv_sec: i64::MAX, tv_nsec: 0 });
    let span = Timeval { tv_sec: 0, tv_usec: -1 };
    assert_eq!(span.to_kernel(), TimeSpec { tv_sec: 0, tv_nsec: -1000 });
}

#[test]
fn nanoseconds_become_microseconds_and_the_rest_is_dropped() {
    let span = TimeSpec { tv_sec: 1, tv_nsec: 500_000_000 };
    assert_eq!(span.to_c(), Timeval { tv_sec: 1, tv_usec: 500_000 });
    assert_eq!(TimeSpec { tv_sec: 0, tv_nsec: 999 }.to_c(), Timeval { tv_sec: 0, tv_usec: 0 });
    assert_eq!(TimeSpec { tv_sec: 0, tv_nsec: 1_000 }.to_c(), Timeval { tv_sec: 0, tv_usec: 1 });
    assert_eq!(TimeSpec { tv_sec: 0, tv_nsec: 1_999 }.to_c(), Timeval { tv_sec: 0, tv_usec: 1 });
    assert_eq!(TimeSpec { tv_sec: 0, tv_nsec: -1_999 }.to_c(), Timeval { tv_sec: 0, tv_usec: -1 });
    assert_eq!(TimeSpec { tv_sec: 0, tv_nsec: -999 }.to_c(), Timeval { tv_sec: 0, tv_usec: 0 });
    assert_eq!(
        TimeSpec { tv_sec: 7, tv_nsec: i32::MAX }.to_c(),
        Timeval { tv_sec: 7, tv_usec: 2_147_483 }
    );
    assert_eq!(
        TimeSpec { tv_sec: 7, tv_nsec: i32::MIN }.to_c(),
        Timeval { tv_sec: 7, tv_usec: -2_147_483 }
    );
}

#[test]
fn a_span_is_scalable_while_its_nanoseconds_fit() {
    assert!(Timeval { tv_sec: 0, tv_usec: 0 }.is_scalable());
    assert!(Timeval { tv_sec: 0, tv_usec: 999_999 }.is_scalable());
    assert!(Timeval { tv_sec: 0, tv_usec: 2_147_483 }.is_scalable());
    assert!(!Timeval { tv_sec: 0, tv_usec: 2_147_484 }.is_scalable());
    assert!(Timeval { tv_sec: 0, tv_usec: -2_147_483 }.is_scalable());
    assert!(!Timeval { tv_sec: 0, tv_usec: -2_147_484 }.is_scalable());
    assert!(!Timeval { tv_sec: 0, tv_usec: i32::MAX }.is_scalable());
    let good = Timeval { tv_sec: 0, tv_usec: 1 };
    let bad = Timeval { tv_sec: 0, tv_usec: i32::MIN };
    assert!(Itimerval { it_interval: good, it_value: good }.is_scalable());
    assert!(!Itimerval { it_interval: bad, it_value: good }.is_scalable());
    assert!(!Itimerval { it_interval: good, it_value: bad }.is_scalable());
}

#[test]
fn a_timer_survives_the_way_to_the_kernel_and_back() {
    for usec in [0, 1, 999, 500_000, 999_999, 2_147_483, -1, -2_147_483] {
        for sec in [0, 1, -1, i64::MAX, i64::MIN] {
            let timer = Itimerval {
                it_interval: Timeval { tv_sec: sec, tv_usec: usec },
                it_value: Timeval { tv_sec: 1, tv_usec: 999_999 - usec.abs() % 1000 },
            };
            assert_eq!(timer.to_kernel().to_c(), timer);
            assert_eq!(timer.to_kernel().it_interval.tv_nsec as i64, usec as i64 * 1000);
        }
    }
    let kernel = ITimerSpec {
        it_interval: TimeSpec { tv_sec: 4, tv_nsec: 123_456_789 },
        it_value: TimeSpec { tv_sec: 5, tv_nsec: 1_000 },
    };
    let back = kernel.to_c().to_kernel();
    assert_eq!(back.it_interval, TimeSpec { tv_sec: 4, tv_nsec: 123_456_000 });
    assert_eq!(back.it_value, kernel.it_value);
}

#[test]
fn handlers_are_words() {
    assert_eq!(SigHandler::Default.to_bits(), 0);
    assert_eq!(SigHandler::Ignore.to_bits(), 1);
    assert_eq!(SigHandler::Handler(0x7fff_1234).to_bits(), 0x7fff_1234);
    assert_eq!(SigHandler::Default.to_bits(), syscall::SIG_DFL);
    assert_eq!(SigHandler::Ignore.to_bits(), syscall::SIG_IGN);
    assert_eq!(SigHandler::from_bits(0), SigHandler::Default);
    assert_eq!(SigHandler::from_bits(1), SigHandler::Ignore);
    assert_eq!(SigHandler::from_bits(2), SigHandler::Handler(2));
    assert_eq!(SigHandler::from_bits(usize::MAX), SigHandler::Handler(usize::MAX));
    for bits in [0, 1, 2, 3, 4096, usize::MAX] {
        assert_eq!(SigHandler::from_bits(bits).to_bits(), bits);
        assert!(SigHandler::from_bits(bits).is_wf());
    }
    assert!(SigHandler::Default.is_wf());
    assert!(SigHandler::Ignore.is_wf());
    assert!(SigHandler::Handler(2).is_wf());
    assert!(!SigHandler::Handler(0).is_wf());
    assert!(!SigHandler::Handler(1).is_wf());
}

#[test]
fn a_mask_takes_the_first_of_two_words() {
    assert_eq!(mask_to_kernel(0), [0, 0]);
    assert_eq!(mask_to_kernel(0b1001), [0b1001, 0]);
    assert_eq!(mask_to_kernel(usize::MAX), [usize::MAX as u64, 0]);
    assert_eq!(mask_to_c(&[5, 0]), 5);
    assert_eq!(mask_to_c(&[5, 9]), 5);
    assert_eq!(mask_to_c(&[0, u64::MAX]), 0);
    for mask in [0usize, 1, 1 << 63, usize::MAX, 0x0123_4567_89AB_CDEF] {
        assert_eq!(mask_to_c(&mask_to_kernel(mask)), mask);
        assert_eq!(mask_to_kernel(mask)[1], 0);
    }
    assert_eq!((SIG_BLOCK, SIG_UNBLOCK, SIG_SETMASK), (0, 1, 2));
}

#[test]
fn an_action_survives_the_way_to_the_kernel_and_back() {
    let action = Sigaction {
        sa_handler: SigHandler::Handler(0x5555_0000),
        sa_flags: 0x1400_0000,
        sa_mask: 0xFFFF_0000_FFFF_0000,
    };
    let kernel = action.to_kernel();
    assert_eq!(
        kernel,
        KernelSigAction {
            sa_handler: 0x5555_0000,
            sa_mask: [0xFFFF_0000_FFFF_0000, 0],
            sa_flags: 0x1400_0000,
        }
    );
    assert_eq!(kernel.to_c(), action);
    for sa_handler in [SigHandler::Default, SigHandler::Ignore, SigHandler::Handler(2)] {
        let action = Sigaction { sa_handler, sa_flags: 1, sa_mask: 3 };
        assert_eq!(action.to_kernel().to_c(), action);
        assert_eq!(action.to_kernel().sa_mask[1], 0);
    }
    let odd = Sigaction { sa_handler: SigHandler::Handler(1), sa_flags: usize::MAX, sa_mask: 9 };
    let back = odd.to_kernel().to_c();
    assert_eq!(back.sa_handler.to_bits(), 1);
    assert_eq!(back.sa_handler, SigHandler::Ignore);
    assert_eq!((back.sa_flags, back.sa_mask), (usize::MAX, 9));
    let from_kernel = KernelSigAction { sa_handler: 1, sa_mask: [8, 0xFF], sa_flags: 4 };
    assert_eq!(
        from_kernel.to_c(),
        Sigaction { sa_handler: SigHandler::Ignore, sa_flags: 4, sa_mask: 8 }
    );
}
