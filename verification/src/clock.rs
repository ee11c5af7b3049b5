//! The clock: a days/hours/minutes/seconds counter with base-60/60/24 carry.

use vstd::prelude::*;

verus! {

/// One timer's counter. Each field except `days` stays within its radix;
/// `days` is an unbounded day count that never wraps (it saturates at
/// `u16::MAX` rather than overflowing).
#[derive(Clone, Copy, PartialEq, Eq, Structural, Debug)]
pub struct Time {
    pub second: u16,
    pub minute: u16,
    pub hour: u16,
    pub days: u16,
}

impl Time {
    /// Every bounded field is within its radix.
    pub open spec fn wf(self) -> bool {
        self.second < 60 && self.minute < 60 && self.hour < 24
    }

    /// The all-zero counter that every new timer starts from.
    pub open spec fn zero() -> Time {
        Time { second: 0, minute: 0, hour: 0, days: 0 }
    }

    /// The counter's value as a plain number of seconds.
    pub open spec fn total_seconds(self) -> int {
        self.second + 60 * self.minute + 3600 * self.hour + 86400 * self.days
    }

    /// The value one tick after `self`: increment the seconds and carry
    /// upward through minutes, hours and days.
    pub open spec fn ticked(self) -> Time {
        if self.second < 59 {
            Time { second: (self.second + 1) as u16, ..self }
        } else if self.minute < 59 {
            Time { second: 0, minute: (self.minute + 1) as u16, ..self }
        } else if self.hour < 23 {
            Time { second: 0, minute: 0, hour: (self.hour + 1) as u16, ..self }
        } else if self.days < u16::MAX {
            Time { second: 0, minute: 0, hour: 0, days: (self.days + 1) as u16 }
        } else {
            Time { second: 0, minute: 0, hour: 0, days: u16::MAX }
        }
    }

    /// A fresh, zeroed counter.
    pub fn new() -> (t: Time)
        ensures
            t == Time::zero(),
            t.wf(),
    {
        Time { second: 0, minute: 0, hour: 0, days: 0 }
    }

    /// Advance the counter by one second, carrying into minutes, hours and
    /// days. Keeps every bounded field in range and never decreases `days`.
    pub fn advance(&mut self)
        ensures
            *final(self) == old(self).ticked(),
            final(self).days >= old(self).days,
            old(self).wf() ==> final(self).wf(),
    {
        if self.second < 59 {
            self.second = self.second + 1;
        } else if self.minute < 59 {
            self.second = 0;
            self.minute = self.minute + 1;
        } else if self.hour < 23 {
            self.second = 0;
            self.minute = 0;
            self.hour = self.hour + 1;
        } else if self.days < u16::MAX {
            self.second = 0;
            self.minute = 0;
            self.hour = 0;
            self.days = self.days + 1;
        } else {
            self.second = 0;
            self.minute = 0;
            self.hour = 0;
        }
    }

    /// An immutable copy of the four fields.
    pub fn read(&self) -> (t: Time)
        ensures
            t == *self,
    {
        *self
    }

    /// Whether every bounded field is within its radix, decided at run time.
    pub fn in_range(&self) -> (b: bool)
        ensures
            b == self.wf(),
    {
        self.second < 60 && self.minute < 60 && self.hour < 24
    }
}

/// The counter after `n` ticks from `t`.
pub open spec fn ticked_n(t: Time, n: nat) -> Time
    decreases n,
{
    if n == 0 {
        t
    } else {
        ticked_n(t, (n - 1) as nat).ticked()
    }
}

/// Law: however many ticks are applied to a well-formed counter, every
/// bounded field stays within its radix and the day count never decreases.
pub proof fn lemma_ticks_keep_wf(t: Time, n: nat)
    requires
        t.wf(),
    ensures
        ticked_n(t, n).wf(),
        ticked_n(t, n).days >= t.days,
    decreases n,
{
    if n > 0 {
        lemma_ticks_keep_wf(t, (n - 1) as nat);
    }
}

/// One tick adds exactly one second to the counter's value, as long as the
/// counter has not reached its saturation point.
proof fn lemma_tick_total(t: Time)
    requires
        t.wf(),
        t.total_seconds() < 86400 * 65536 - 1,
    ensures
        t.ticked().wf(),
        t.ticked().total_seconds() == t.total_seconds() + 1,
{
}

/// Law: a counter ticked `n` times from zero is worth exactly `n` seconds,
/// for any `n` short of the day counter's saturation point. So a clock's
/// displayed value accounts for every tick its ticker delivered, no more
/// and no fewer.
pub proof fn lemma_ticks_accumulate_seconds(n: nat)
    requires
        n < 86400 * 65536,
    ensures
        ticked_n(Time::zero(), n).wf(),
        ticked_n(Time::zero(), n).total_seconds() == n,
    decreases n,
{
    if n > 0 {
        lemma_ticks_accumulate_seconds((n - 1) as nat);
        lemma_tick_total(ticked_n(Time::zero(), (n - 1) as nat));
    }
}

/// Law: exactly one day's worth of ticks from the zero counter rolls every
/// bounded field back to zero and counts exactly one day.
pub proof fn lemma_full_day_from_zero()
    ensures
        ticked_n(Time::zero(), 86400) == (Time { second: 0, minute: 0, hour: 0, days: 1 }),
{
    lemma_ticks_accumulate_seconds(86400);
    let t = ticked_n(Time::zero(), 86400);
    assert(t.days == 1);
    assert(t.hour == 0);
    assert(t.minute == 0);
    assert(t.second == 0);
}

} // verus!
