use procctl::signal::{signal_from_int, DEFAULT_SIGNAL_CODE, FIRST_SIGNAL_CODE, LAST_SIGNAL_CODE};
use sysinfo::Signal;

#[test]
fn code_nine_is_kill() {
    assert_eq!(signal_from_int(9), Signal::Kill);
}

#[test]
fn default_code_is_nine_and_kills() {
    assert_eq!(DEFAULT_SIGNAL_CODE, 9);
    assert_eq!(signal_from_int(DEFAULT_SIGNAL_CODE), Signal::Kill);
}

#[test]
fn named_codes_have_their_signals() {
    assert_eq!(signal_from_int(1), Signal::Hangup);
    assert_eq!(signal_from_int(2), Signal::Interrupt);
    assert_eq!(signal_from_int(15), Signal::Term);
    assert_eq!(signal_from_int(16), Signal::Stklft);
    assert_eq!(signal_from_int(19), Signal::Stop);
    assert_eq!(signal_from_int(30), Signal::Power);
}

#[test]
fn every_signal_code_gives_the_signal_of_that_number() {
    assert_eq!(FIRST_SIGNAL_CODE, 1);
    assert_eq!(LAST_SIGNAL_CODE, 30);
    for code in FIRST_SIGNAL_CODE..=LAST_SIGNAL_CODE {
        assert_eq!(signal_from_int(code) as i64, code);
    }
}

#[test]
fn signal_codes_give_distinct_signals() {
    for a in 1..=30i64 {
        for b in 1..=30i64 {
            assert_eq!(signal_from_int(a) == signal_from_int(b), a == b);
        }
    }
}

#[test]
fn codes_out_of_range_kill() {
    for code in [0i64, -1, -9, 31, 32, 64, 255, 1 << 32, (1 << 32) + 15, i64::MAX, i64::MIN] {
        assert_eq!(signal_from_int(code), Signal::Kill);
    }
}
