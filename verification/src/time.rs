//! The clock/timer state machine and its text rendering.
//!
//! Timestamps are plain milliseconds read from the system clock through one
//! trusted wrapper; every decision and every character of the rendered text
//! is computed and verified here.

use chrono::Timelike;
use vstd::prelude::*;

verus! {

/// How the time of day or a duration is rendered.
#[derive(Debug, Clone, Copy, PartialEq, Eq, Structural)]
pub enum TimeFormat {
    HourMinSec,
    HourMinSecMSec,
}

impl TimeFormat {
    /// The fixed name of this format.
    pub fn as_str(&self) -> (r: &str)
        ensures
            r@ == match self {
                TimeFormat::HourMinSec => "HourMinSec"@,
                TimeFormat::HourMinSecMSec => "HourMinSecMSec"@,
            },
    {
        match self {
            TimeFormat::HourMinSec => "HourMinSec",
            TimeFormat::HourMinSecMSec => "HourMinSecMSec",
        }
    }
}

/// What the display shows: the wall clock, a count-down timer over the given
/// number of milliseconds, or a count-up timer.
#[derive(Debug, Clone, Copy, PartialEq, Eq, Structural)]
pub enum OpMode {
    Clock,
    CountDownTimer(u64),
    CountUpTimer,
}

/// The decimal digit `d` as a character, for `d < 10`.
pub open spec fn digit_char(d: nat) -> char {
    if d == 0 {
        '0'
    } else if d == 1 {
        '1'
    } else if d == 2 {
        '2'
    } else if d == 3 {
        '3'
    } else if d == 4 {
        '4'
    } else if d == 5 {
        '5'
    } else if d == 6 {
        '6'
    } else if d == 7 {
        '7'
    } else if d == 8 {
        '8'
    } else {
        '9'
    }
}

/// `n` written in decimal, without padding.
pub open spec fn dec_digits(n: nat) -> Seq<char>
    decreases n,
{
    if n < 10 {
        seq![digit_char(n)]
    } else {
        dec_digits(n / 10).push(digit_char(n % 10))
    }
}

/// How many decimal digits `n` has.
pub open spec fn num_digits(n: nat) -> nat
    decreases n,
{
    if n < 10 {
        1
    } else {
        1 + num_digits(n / 10)
    }
}

/// `n` in decimal, left-padded with zeros to at least `width` characters.
pub open spec fn zero_padded(width: nat, n: nat) -> Seq<char> {
    if num_digits(n) >= width {
        dec_digits(n)
    } else {
        Seq::new((width - num_digits(n)) as nat, |_i: int| '0') + dec_digits(n)
    }
}

/// `a - b`, or zero when `b` exceeds `a`.
pub open spec fn sat_sub(a: nat, b: nat) -> nat {
    if a >= b {
        (a - b) as nat
    } else {
        0
    }
}

/// The duration readout: hours, total minutes and leftover seconds, each
/// zero-padded to two digits, with the milliseconds to three digits in the
/// long format.
pub open spec fn duration_str_spec(format: TimeFormat, ms: nat) -> Seq<char> {
    let secs = ms / 1000;
    let base = zero_padded(2, secs / 3600) + seq![':'] + zero_padded(2, secs / 60) + seq![':']
        + zero_padded(2, secs % 60);
    match format {
        TimeFormat::HourMinSec => base,
        TimeFormat::HourMinSecMSec => base + seq!['.'] + zero_padded(3, ms % 1000),
    }
}

/// The wall-clock readout.
pub open spec fn clock_str_spec(
    format: TimeFormat,
    hour: nat,
    minute: nat,
    second: nat,
    nanosecond: nat,
) -> Seq<char> {
    let base = zero_padded(2, hour) + seq![':'] + zero_padded(2, minute) + seq![':'] + zero_padded(
        2,
        second,
    );
    match format {
        TimeFormat::HourMinSec => base,
        TimeFormat::HourMinSecMSec => base + seq!['.'] + zero_padded(3, nanosecond / 1000000),
    }
}

/// One decimal digit as text.
fn digit_str(d: u64) -> (r: &'static str)
    requires
        d < 10,
    ensures
        r@ =~= seq![digit_char(d as nat)],
{
    proof {
        reveal_strlit("0");
        reveal_strlit("1");
        reveal_strlit("2");
        reveal_strlit("3");
        reveal_strlit("4");
        reveal_strlit("5");
        reveal_strlit("6");
        reveal_strlit("7");
        reveal_strlit("8");
        reveal_strlit("9");
    }
    if d == 0 {
        "0"
    } else if d == 1 {
        "1"
    } else if d == 2 {
        "2"
    } else if d == 3 {
        "3"
    } else if d == 4 {
        "4"
    } else if d == 5 {
        "5"
    } else if d == 6 {
        "6"
    } else if d == 7 {
        "7"
    } else if d == 8 {
        "8"
    } else {
        "9"
    }
}

/// `value` written in decimal.
pub fn u64_to_string(value: u64) -> (r: String)
    ensures
        r@ =~= dec_digits(value as nat),
    decreases value,
{
    if value < 10 {
        String::from_str(digit_str(value))
    } else {
        let mut s = u64_to_string(value / 10);
        s.append(digit_str(value % 10));
        proof {
            assert(s@ =~= dec_digits(value as nat));
        }
        s
    }
}

/// Ten to the `e`th.
pub open spec fn pow10(e: nat) -> nat
    decreases e,
{
    if e == 0 {
        1
    } else {
        10 * pow10((e - 1) as nat)
    }
}

/// A number below `pow10(k)` has at most `k` decimal digits.
proof fn lemma_num_digits_below_pow10(n: nat, k: nat)
    requires
        k >= 1,
        n < pow10(k),
    ensures
        num_digits(n) <= k,
    decreases k,
{
    if n < 10 {
    } else {
        assert(pow10(k) == 10 * pow10((k - 1) as nat));
        assert(n / 10 < pow10((k - 1) as nat)) by (nonlinear_arith)
            requires
                n < 10 * pow10((k - 1) as nat),
        ;
        assert(k - 1 >= 1) by {
            if k == 1 {
                assert(pow10(1nat) == 10);
            }
        }
        lemma_num_digits_below_pow10(n / 10, (k - 1) as nat);
    }
}

/// Any 64-bit value has at most 20 decimal digits.
proof fn lemma_num_digits_of_u64(value: u64)
    ensures
        num_digits(value as nat) <= 20,
{
    assert(pow10(20) == 100000000000000000000) by {
        reveal_with_fuel(pow10, 21);
    }
    lemma_num_digits_below_pow10(value as nat, 20);
}

/// `value` in decimal, left-padded with zeros to at least `digit`
/// characters.
pub fn format_to_digit(digit: u32, value: u64) -> (r: String)
    ensures
        r@ =~= zero_padded(digit as nat, value as nat),
{
    let num = u64_to_string(value);
    if digit <= 1 {
        return num;
    }
    // Count the decimal digits of `value`.
    let mut d: u32 = 1;
    let mut rest: u64 = value / 10;
    proof {
        lemma_num_digits_of_u64(value);
    }
    while rest > 0
        invariant
            1 <= d <= 20,
            rest > 0 ==> num_digits(value as nat) == d + num_digits(rest as nat),
            rest == 0 ==> num_digits(value as nat) == d,
            num_digits(value as nat) <= 20,
        decreases rest,
    {
        proof {
            if rest >= 10 {
                assert(num_digits(rest as nat) == 1 + num_digits(rest as nat / 10));
            }
        }
        d = d + 1;
        rest = rest / 10;
    }
    proof {
        reveal_strlit("");
        reveal_strlit("0");
    }
    let mut s = String::from_str("");
    let mut k: u32 = d;
    while k < digit
        invariant
            d <= k,
            k <= digit || k == d,
            s@ =~= Seq::new((k - d) as nat, |_i: int| '0'),
        decreases digit - k,
    {
        proof {
            reveal_strlit("0");
        }
        s.append("0");
        proof {
            assert(s@ =~= Seq::new((k + 1 - d) as nat, |_i: int| '0'));
        }
        k = k + 1;
    }
    s.append(num.as_str());
    proof {
        assert(s@ =~= zero_padded(digit as nat, value as nat));
    }
    s
}

/// Relies on `std::time::SystemTime::now`: the system clock, read as whole
/// milliseconds since the Unix epoch (zero when the clock reads earlier than
/// the epoch). Nothing is assumed of the value: callers state what holds
/// whatever the clock returned.
#[verifier::external_body]
fn now_millis() -> u64 {
    match std::time::SystemTime::now().duration_since(std::time::UNIX_EPOCH) {
        Ok(elapsed) => elapsed.as_millis() as u64,
        Err(_) => 0,
    }
}

/// Relies on `std::time::SystemTime::now`, `chrono::TimeZone`'s
/// `timestamp_millis_opt` (which never panics, unlike reading the local time
/// directly) and the `chrono::Timelike` accessors: the local wall-clock time
/// of day as (hour, minute, second, nanosecond). `Timelike` documents hour
/// in 0..24, minute and second in 0..60, and nanosecond in
/// 0..2_000_000_000 (values above a whole second marking a leap second).
/// A clock reading before the epoch or outside the representable range
/// falls back to a fixed midnight reading.
#[verifier::external_body]
fn local_time_of_day() -> (r: (u32, u32, u32, u32))
    ensures
        r.0 < 24,
        r.1 < 60,
        r.2 < 60,
        r.3 < 2000000000,
{
    let millis = match std::time::SystemTime::now().duration_since(std::time::UNIX_EPOCH) {
        Ok(elapsed) => elapsed.as_millis() as i64,
        Err(_) => 0,
    };
    match chrono::TimeZone::timestamp_millis_opt(&chrono::Local, millis).single() {
        Some(now) => (now.hour(), now.minute(), now.second(), now.nanosecond()),
        None => (0, 0, 0, 0),
    }
}

/// The clock/timer. Timestamps are milliseconds on the system clock.
#[derive(Debug, Clone, Copy, PartialEq, Eq, Structural)]
pub struct Time {
    pub format: TimeFormat,
    pub mode: OpMode,
    /// When the running timer started, or the base the next resume extends.
    pub start_time: u64,
    /// When the timer was stopped, while it stands stopped.
    pub stop_time: Option<u64>,
    pub started: bool,
}

/// How the count-down readout is derived from the timer's state: the
/// elapsed span (frozen at the stop mark while stopped, zero before any
/// stop) counted down from the configured duration, never below zero.
pub open spec fn countdown_remaining(t: Time, duration: nat, now: nat) -> nat {
    let delta = if !t.started {
        match t.stop_time {
            Some(stop) => sat_sub(stop as nat, t.start_time as nat),
            None => 0,
        }
    } else {
        sat_sub(now, t.start_time as nat)
    };
    if delta > duration {
        0
    } else {
        (duration - delta) as nat
    }
}

/// How `toggle_timer` rewrites the timer's state when the clock reads
/// `now`.
pub open spec fn toggle_spec(t: Time, now: u64) -> Time {
    match t.mode {
        OpMode::CountDownTimer(duration) => {
            if !t.started {
                // Starting (or resuming).
                match t.stop_time {
                    Some(stop) => {
                        if sat_sub(stop as nat, t.start_time as nat) > duration {
                            // The stopped span had already consumed the whole
                            // duration: restart from the stop mark.
                            Time { started: true, start_time: stop, stop_time: None, ..t }
                        } else {
                            Time { started: true, ..t }
                        }
                    },
                    None => Time { started: true, start_time: now, ..t },
                }
            } else {
                Time { started: false, stop_time: Some(now), ..t }
            }
        },
        OpMode::CountUpTimer => {
            if !t.started {
                match t.stop_time {
                    Some(stop) => Time { started: true, start_time: stop, stop_time: None, ..t },
                    None => Time { started: true, start_time: now, ..t },
                }
            } else {
                Time { started: false, stop_time: Some(now), ..t }
            }
        },
        OpMode::Clock => t,
    }
}

impl Time {
    /// A fresh display: a two-minute count-down timer, not yet started,
    /// based at the moment of creation.
    pub fn new(format: TimeFormat) -> (r: Self)
        ensures
            r.format == format,
            r.mode == OpMode::CountDownTimer(120000),
            r.stop_time is None,
            !r.started,
    {
        Time {
            format,
            mode: OpMode::CountDownTimer(120000),
            start_time: now_millis(),
            stop_time: None,
            started: false,
        }
    }

    /// Switch the operating mode; a timer mode restarts its base at the
    /// current clock reading.
    pub fn set_mode(&mut self, mode: OpMode)
        ensures
            final(self).mode == mode,
            final(self).format == old(self).format,
            final(self).stop_time == old(self).stop_time,
            final(self).started == old(self).started,
            mode is Clock ==> final(self).start_time == old(self).start_time,
    {
        let now = now_millis();
        self.set_mode_at(mode, now);
    }

    /// `set_mode` with the clock reading passed in.
    pub fn set_mode_at(&mut self, mode: OpMode, now_ms: u64)
        ensures
            final(self).mode == mode,
            final(self).format == old(self).format,
            final(self).stop_time == old(self).stop_time,
            final(self).started == old(self).started,
            final(self).start_time == if mode is Clock {
                old(self).start_time
            } else {
                now_ms
            },
    {
        self.mode = mode;
        match self.mode {
            OpMode::CountDownTimer(_) | OpMode::CountUpTimer => {
                self.start_time = now_ms;
            },
            _ => {},
        }
    }

    /// Start or stop the timer at the current clock reading; the wall-clock
    /// mode ignores the toggle.
    pub fn toggle_timer(&mut self)
        ensures
            exists|now: u64| *final(self) == toggle_spec(*old(self), now),
    {
        let now = now_millis();
        self.toggle_timer_at(now);
    }

    /// `toggle_timer` with the clock reading passed in: stopping records the
    /// stop mark; starting resumes from the recorded mark, or afresh from
    /// `now_ms` when none is recorded.
    pub fn toggle_timer_at(&mut self, now_ms: u64)
        ensures
            *final(self) == toggle_spec(*old(self), now_ms),
    {
        match self.mode {
            OpMode::CountDownTimer(duration) => {
                self.started = !self.started;
                if self.started {
                    match self.stop_time {
                        Some(stop) => {
                            let span = if stop >= self.start_time {
                                stop - self.start_time
                            } else {
                                0
                            };
                            if span > duration {
                                self.stop_time = None;
                                self.start_time = stop;
                            }
                        },
                        None => {
                            self.start_time = now_ms;
                        },
                    }
                } else {
                    self.stop_time = Some(now_ms);
                }
            },
            OpMode::CountUpTimer => {
                self.started = !self.started;
                if self.started {
                    match self.stop_time {
                        Some(stop) => {
                            self.stop_time = None;
                            self.start_time = stop;
                        },
                        None => {
                            self.start_time = now_ms;
                        },
                    }
                } else {
                    self.stop_time = Some(now_ms);
                }
            },
            _ => {},
        }
    }

    /// The current operating mode.
    pub fn mode(&self) -> (r: OpMode)
        ensures
            r == self.mode,
    {
        self.mode
    }

    /// The current readout, against the system clock.
    pub fn current_time(&self) -> (r: String)
        ensures
            match self.mode {
                OpMode::CountDownTimer(duration) => exists|now: u64|
                    r@ =~= duration_str_spec(
                        self.format,
                        countdown_remaining(*self, duration as nat, now as nat),
                    ),
                OpMode::CountUpTimer => exists|now: u64|
                    r@ =~= duration_str_spec(
                        self.format,
                        sat_sub(now as nat, self.start_time as nat),
                    ),
                OpMode::Clock => exists|hour: u32, minute: u32, second: u32, nanosecond: u32|
                    hour < 24 && minute < 60 && second < 60 && nanosecond < 2000000000 && r@
                        =~= clock_str_spec(
                        self.format,
                        hour as nat,
                        minute as nat,
                        second as nat,
                        nanosecond as nat,
                    ),
            },
    {
        match self.mode {
            OpMode::CountDownTimer(_) | OpMode::CountUpTimer => {
                let now = now_millis();
                self.current_time_at(now)
            },
            OpMode::Clock => {
                let (hour, minute, second, nanosecond) = local_time_of_day();
                self.time_to_str(hour, minute, second, nanosecond)
            },
        }
    }

    /// The timer readout against the given clock reading.
    pub fn current_time_at(&self, now_ms: u64) -> (r: String)
        requires
            !(self.mode is Clock),
        ensures
            match self.mode {
                OpMode::CountDownTimer(duration) => r@ =~= duration_str_spec(
                    self.format,
                    countdown_remaining(*self, duration as nat, now_ms as nat),
                ),
                OpMode::CountUpTimer => r@ =~= duration_str_spec(
                    self.format,
                    sat_sub(now_ms as nat, self.start_time as nat),
                ),
                OpMode::Clock => true,
            },
    {
        match self.mode {
            OpMode::CountDownTimer(duration) => {
                let delta = if !self.started {
                    match self.stop_time {
                        Some(stop) => {
                            if stop >= self.start_time {
                                stop - self.start_time
                            } else {
                                0
                            }
                        },
                        None => 0,
                    }
                } else {
                    if now_ms >= self.start_time {
                        now_ms - self.start_time
                    } else {
                        0
                    }
                };
                let shown = if delta > duration {
                    0
                } else {
                    duration - delta
                };
                self.duration_to_str(shown)
            },
            _ => {
                let delta = if now_ms >= self.start_time {
                    now_ms - self.start_time
                } else {
                    0
                };
                self.duration_to_str(delta)
            },
        }
    }

    /// Render a wall-clock time of day in this display's format.
    pub fn time_to_str(&self, hour: u32, minute: u32, second: u32, nanosecond: u32) -> (r: String)
        ensures
            r@ =~= clock_str_spec(
                self.format,
                hour as nat,
                minute as nat,
                second as nat,
                nanosecond as nat,
            ),
    {
        proof {
            reveal_strlit(":");
            reveal_strlit(".");
        }
        let mut s = format_to_digit(2, hour as u64);
        s.append(":");
        s.append(format_to_digit(2, minute as u64).as_str());
        s.append(":");
        s.append(format_to_digit(2, second as u64).as_str());
        match self.format {
            TimeFormat::HourMinSec => {
                proof {
                    assert(s@ =~= clock_str_spec(
                        self.format,
                        hour as nat,
                        minute as nat,
                        second as nat,
                        nanosecond as nat,
                    ));
                }
                s
            },
            TimeFormat::HourMinSecMSec => {
                s.append(".");
                s.append(format_to_digit(3, (nanosecond / 1000000) as u64).as_str());
                proof {
                    assert(s@ =~= clock_str_spec(
                        self.format,
                        hour as nat,
                        minute as nat,
                        second as nat,
                        nanosecond as nat,
                    ));
                }
                s
            },
        }
    }

    /// Render a duration in this display's format: hours, total minutes and
    /// leftover seconds.
    pub fn duration_to_str(&self, delta_ms: u64) -> (r: String)
        ensures
            r@ =~= duration_str_spec(self.format, delta_ms as nat),
    {
        proof {
            reveal_strlit(":");
            reveal_strlit(".");
        }
        let secs = delta_ms / 1000;
        let mut s = format_to_digit(2, secs / 3600);
        s.append(":");
        s.append(format_to_digit(2, secs / 60).as_str());
        s.append(":");
        s.append(format_to_digit(2, secs % 60).as_str());
        match self.format {
            TimeFormat::HourMinSec => {
                proof {
                    assert(s@ =~= duration_str_spec(self.format, delta_ms as nat));
                }
                s
            },
            TimeFormat::HourMinSecMSec => {
                s.append(".");
                s.append(format_to_digit(3, delta_ms % 1000).as_str());
                proof {
                    assert(s@ =~= duration_str_spec(self.format, delta_ms as nat));
                }
                s
            },
        }
    }
}

} // verus!
