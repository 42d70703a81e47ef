//! The signal that a small integer code stands for.
//!
//! Codes 1 to 30 each stand for the signal that carries that number; every
//! other code stands for the forceful kill. Every integer is a code, and
//! finding its signal has no effect besides the result.

use sysinfo::Signal;
use vstd::prelude::*;

verus! {

/// `sysinfo::Signal`, the enumeration of the signals that `sysinfo` can deliver.
/// Only its variants are taken from the crate; nothing is claimed of them here.
#[verifier::external_type_specification]
pub struct ExSignal(sysinfo::Signal);

/// The code that requests a forceful kill, and the default of a termination
/// request that names no code.
pub const DEFAULT_SIGNAL_CODE: i64 = 9;

/// The least code that stands for a signal of its own.
pub const FIRST_SIGNAL_CODE: i64 = 1;

/// The greatest code that stands for a signal of its own.
pub const LAST_SIGNAL_CODE: i64 = 30;

/// Whether `code` stands for a signal of its own.
pub open spec fn is_signal_code(code: int) -> bool {
    FIRST_SIGNAL_CODE <= code <= LAST_SIGNAL_CODE
}

/// The number under which the platform knows `signal`.
pub open spec fn signal_number(signal: Signal) -> int {
    match signal {
        Signal::Hangup => 1,
        Signal::Interrupt => 2,
        Signal::Quit => 3,
        Signal::Illegal => 4,
        Signal::Trap => 5,
        Signal::Abort => 6,
        Signal::Bus => 7,
        Signal::FloatingPointException => 8,
        Signal::Kill => 9,
        Signal::User1 => 10,
        Signal::Segv => 11,
        Signal::User2 => 12,
        Signal::Pipe => 13,
        Signal::Alarm => 14,
        Signal::Term => 15,
        Signal::Stklft => 16,
        Signal::Child => 17,
        Signal::Continue => 18,
        Signal::Stop => 19,
        Signal::TSTP => 20,
        Signal::TTIN => 21,
        Signal::TTOU => 22,
        Signal::Urgent => 23,
        Signal::XCPU => 24,
        Signal::XFSZ => 25,
        Signal::VirtualAlarm => 26,
        Signal::Profiling => 27,
        Signal::Winch => 28,
        Signal::IO => 29,
        Signal::Power => 30,
        Signal::Sys => 31,
    }
}

/// The signal that `code` stands for: the one numbered `code` where `code` is
/// a signal code, the forceful kill otherwise.
pub open spec fn signal_of(code: int) -> Signal {
    if code == 1 {
        Signal::Hangup
    } else if code == 2 {
        Signal::Interrupt
    } else if code == 3 {
        Signal::Quit
    } else if code == 4 {
        Signal::Illegal
    } else if code == 5 {
        Signal::Trap
    } else if code == 6 {
        Signal::Abort
    } else if code == 7 {
        Signal::Bus
    } else if code == 8 {
        Signal::FloatingPointException
    } else if code == 10 {
        Signal::User1
    } else if code == 11 {
        Signal::Segv
    } else if code == 12 {
        Signal::User2
    } else if code == 13 {
        Signal::Pipe
    } else if code == 14 {
        Signal::Alarm
    } else if code == 15 {
        Signal::Term
    } else if code == 16 {
        Signal::Stklft
    } else if code == 17 {
        Signal::Child
    } else if code == 18 {
        Signal::Continue
    } else if code == 19 {
        Signal::Stop
    } else if code == 20 {
        Signal::TSTP
    } else if code == 21 {
        Signal::TTIN
    } else if code == 22 {
        Signal::TTOU
    } else if code == 23 {
        Signal::Urgent
    } else if code == 24 {
        Signal::XCPU
    } else if code == 25 {
        Signal::XFSZ
    } else if code == 26 {
        Signal::VirtualAlarm
    } else if code == 27 {
        Signal::Profiling
    } else if code == 28 {
        Signal::Winch
    } else if code == 29 {
        Signal::IO
    } else if code == 30 {
        Signal::Power
    } else {
        Signal::Kill
    }
}

/// The signal that `code` stands for. Every integer is accepted.
pub fn signal_from_int(code: i64) -> (signal: Signal)
    ensures
        signal == signal_of(code as int),
        is_signal_code(code as int) ==> signal_number(signal) == code,
        !is_signal_code(code as int) ==> signal == Signal::Kill,
{
    match code {
        1 => Signal::Hangup,
        2 => Signal::Interrupt,
        3 => Signal::Quit,
        4 => Signal::Illegal,
        5 => Signal::Trap,
        6 => Signal::Abort,
        7 => Signal::Bus,
        8 => Signal::FloatingPointException,
        9 => Signal::Kill,
        10 => Signal::User1,
        11 => Signal::Segv,
        12 => Signal::User2,
        13 => Signal::Pipe,
        14 => Signal::Alarm,
        15 => Signal::Term,
        16 => Signal::Stklft,
        17 => Signal::Child,
        18 => Signal::Continue,
        19 => Signal::Stop,
        20 => Signal::TSTP,
        21 => Signal::TTIN,
        22 => Signal::TTOU,
        23 => Signal::Urgent,
        24 => Signal::XCPU,
        25 => Signal::XFSZ,
        26 => Signal::VirtualAlarm,
        27 => Signal::Profiling,
        28 => Signal::Winch,
        29 => Signal::IO,
        30 => Signal::Power,
        _ => Signal::Kill,
    }
}

/// A signal code stands for the signal that carries its number, so two signal
/// codes that stand for one signal are one code.
pub proof fn lemma_signal_codes_stay_apart(a: int, b: int)
    requires
        is_signal_code(a),
        is_signal_code(b),
        signal_of(a) == signal_of(b),
    ensures
        signal_number(signal_of(a)) == a,
        a == b,
{
}

/// Every signal whose number is a signal code is what that code stands for:
/// together with `lemma_signal_codes_stay_apart`, the signal codes and the
/// signals numbered 1 to 30 correspond one to one.
pub proof fn lemma_every_numbered_signal_is_reached(signal: Signal)
    requires
        is_signal_code(signal_number(signal)),
    ensures
        signal_of(signal_number(signal)) == signal,
{
}

/// Whatever is no signal code stands for the forceful kill, the signal that
/// the default code stands for.
pub proof fn lemma_other_codes_kill(code: int)
    requires
        !is_signal_code(code),
    ensures
        signal_of(code) == Signal::Kill,
        signal_of(code) == signal_of(DEFAULT_SIGNAL_CODE as int),
{
}

} // verus!
