//! Clock access and the cooperative stop signal.

use vstd::prelude::*;

use std::sync::atomic::{AtomicBool, Ordering};
use std::sync::Arc;

verus! {

/// Relies on std::time::SystemTime for the wall clock: seconds since the
/// Unix epoch, or 0 if the clock reads earlier than the epoch. The result
/// depends on the clock alone, so nothing is promised of it.
#[verifier::external_body]
pub fn cur_ts() -> u64 {
    match std::time::UNIX_EPOCH.elapsed() {
        Ok(d) => d.as_secs(),
        Err(_) => 0,
    }
}

/// The character for one decimal digit.
pub open spec fn digit_char(d: nat) -> char {
    if d == 0 {
        '0'
    } else if d == 1 {
        '1'
    } else if d == 2 {
        '2'
    } else if d == 3 {
        '3'
    } else if d == 4 {
        '4'
    } else if d == 5 {
        '5'
    } else if d == 6 {
        '6'
    } else if d == 7 {
        '7'
    } else if d == 8 {
        '8'
    } else {
        '9'
    }
}

/// Decimal digits of a nonnegative number, most significant first.
pub open spec fn dec_digits(n: nat) -> Seq<char>
    decreases n,
{
    if n < 10 {
        seq![digit_char(n)]
    } else {
        dec_digits(n / 10).push(digit_char(n % 10))
    }
}

/// Decimal rendering of an integer, with a leading minus sign when
/// negative.
pub open spec fn dec_str(n: int) -> Seq<char> {
    if n < 0 {
        seq!['-'] + dec_digits((-n) as nat)
    } else {
        dec_digits(n as nat)
    }
}

/// Append one decimal digit.
fn push_digit(s: &mut String, d: u64)
    requires
        d < 10,
    ensures
        final(s)@ == old(s)@.push(digit_char(d as nat)),
{
    let piece: &'static str = if d == 0 {
        "0"
    } else if d == 1 {
        "1"
    } else if d == 2 {
        "2"
    } else if d == 3 {
        "3"
    } else if d == 4 {
        "4"
    } else if d == 5 {
        "5"
    } else if d == 6 {
        "6"
    } else if d == 7 {
        "7"
    } else if d == 8 {
        "8"
    } else {
        "9"
    };
    proof {
        reveal_strlit("0");
        reveal_strlit("1");
        reveal_strlit("2");
        reveal_strlit("3");
        reveal_strlit("4");
        reveal_strlit("5");
        reveal_strlit("6");
        reveal_strlit("7");
        reveal_strlit("8");
        reveal_strlit("9");
        assert(piece@ =~= seq![digit_char(d as nat)]);
    }
    s.append(piece);
    proof {
        assert(final(s)@ =~= old(s)@.push(digit_char(d as nat)));
    }
}

/// Append the decimal digits of a nonnegative number.
fn push_dec_digits(s: &mut String, m: u64)
    ensures
        final(s)@ == old(s)@ + dec_digits(m as nat),
    decreases m,
{
    if m >= 10 {
        push_dec_digits(s, m / 10);
        push_digit(s, m % 10);
        proof {
            assert(final(s)@ =~= old(s)@ + dec_digits(m as nat));
        }
    } else {
        push_digit(s, m);
        proof {
            assert(final(s)@ =~= old(s)@ + dec_digits(m as nat));
        }
    }
}

/// Decimal rendering of a primary key or foreign key.
pub fn i32_to_string(n: i32) -> (r: String)
    ensures
        r@ == dec_str(n as int),
{
    let mut s = String::new();
    if n < 0 {
        proof {
            reveal_strlit("-");
        }
        s.append("-");
        let m: u64 = (-(n as i64)) as u64;
        push_dec_digits(&mut s, m);
        proof {
            assert("-"@ =~= seq!['-']);
            assert(s@ =~= dec_str(n as int));
        }
    } else {
        push_dec_digits(&mut s, n as u64);
        proof {
            assert(s@ =~= dec_str(n as int));
        }
    }
    s
}

/// Rate-limited reader of the shared stop flag. Loop bodies ask it once per
/// iteration whether it is time to stop.
pub struct StopChecker {
    stop_flag: Arc<AtomicBool>,
    last_check_ts: u64,
}

impl StopChecker {
    /// Timestamp of the iteration at which the flag read was last skipped.
    pub closed spec fn last_check(self) -> u64 {
        self.last_check_ts
    }

    pub fn new(shutdown: Arc<AtomicBool>) -> (c: Self)
        ensures
            c.last_check() == 0,
    {
        StopChecker { stop_flag: shutdown, last_check_ts: 0 }
    }

    /// Consult the flag, unless this second was already checked. The flag is
    /// written by another thread, so nothing is promised of the value read;
    /// a skipped read always reports "keep running".
    pub fn is_time(&mut self) -> (stop: bool)
        ensures
            final(self).last_check() <= old(self).last_check(),
            stop ==> final(self).last_check() == old(self).last_check(),
    {
        self.is_time_impl(false)
    }

    /// Consult the flag unconditionally.
    pub fn is_time_force(&mut self) -> (stop: bool)
        ensures
            final(self).last_check() == old(self).last_check(),
    {
        self.is_time_impl(true)
    }

    fn is_time_impl(&mut self, force: bool) -> (stop: bool)
        ensures
            final(self).last_check() <= old(self).last_check(),
            force ==> final(self).last_check() == old(self).last_check(),
            stop ==> final(self).last_check() == old(self).last_check(),
    {
        let now: u64 = cur_ts();
        if now > self.last_check_ts || force {
            return self.stop_flag.load(Ordering::Relaxed);
        }
        self.last_check_ts = now;
        false
    }
}

} // verus!
