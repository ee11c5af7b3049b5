//! The timer registry: a bounded, ordered collection of timer slots with a
//! selection cursor. It owns every structural change (add, remove, select,
//! label) and the snapshot read path.

use vstd::prelude::*;
use crate::clock::Time;

verus! {

/// The fixed upper bound on how many timers the registry holds at once.
pub const CAPACITY: usize = 8;

/// One managed timer: its clock together with its user-assigned label.
pub struct Timer {
    pub time: Time,
    pub label: Option<String>,
}

impl Timer {
    /// A fresh slot: a zeroed clock and the given label.
    pub fn new(label: Option<String>) -> (t: Timer)
        ensures
            t.time == Time::zero(),
            t.label == label,
    {
        Timer { time: Time::new(), label }
    }
}

/// The selection cursor one step forward of `sel`, wrapping at `len`.
pub open spec fn next_selection(sel: int, len: int) -> int {
    if sel + 1 == len {
        0
    } else {
        sel + 1
    }
}

/// The selection cursor one step back of `sel`, wrapping at `len`.
pub open spec fn previous_selection(sel: int, len: int) -> int {
    if sel == 0 {
        len - 1
    } else {
        sel - 1
    }
}

/// The selection cursor after stepping forward `n` times from `sel`.
pub open spec fn iterated_next(sel: int, len: int, n: nat) -> int
    decreases n,
{
    if n == 0 {
        sel
    } else {
        next_selection(iterated_next(sel, len, (n - 1) as nat), len)
    }
}

/// After `n <= len` forward steps the cursor sits at `sel + n`, wrapped
/// once past the end if it overshot.
proof fn lemma_iterated_next_value(sel: int, len: int, n: nat)
    requires
        0 <= sel < len,
        n <= len,
    ensures
        iterated_next(sel, len, n) == if sel + n < len {
            sel + n
        } else {
            sel + n - len
        },
    decreases n,
{
    if n > 0 {
        lemma_iterated_next_value(sel, len, (n - 1) as nat);
    }
}

/// Law: stepping the selection forward once per live timer brings the
/// cursor back to where it began.
pub proof fn lemma_select_next_cycles(sel: int, len: int)
    requires
        0 <= sel < len,
    ensures
        iterated_next(sel, len, len as nat) == sel,
{
    lemma_iterated_next_value(sel, len, len as nat);
}

/// The bounded, ordered collection of timers plus the selection cursor.
pub struct TimerRegistry {
    pub timers: Vec<Timer>,
    pub selected: usize,
}

impl TimerRegistry {
    /// The registry invariant: never empty, never over capacity, the cursor
    /// in range, and every clock well formed.
    pub open spec fn wf(self) -> bool {
        &&& 1 <= self.timers@.len() <= CAPACITY
        &&& self.selected < self.timers@.len()
        &&& forall|i: int|
            0 <= i < self.timers@.len() ==> (#[trigger] self.timers@[i]).time.wf()
    }

    /// A registry with one zeroed timer carrying the optional startup label.
    pub fn new(initial_label: Option<String>) -> (reg: TimerRegistry)
        ensures
            reg.wf(),
            reg.timers@.len() == 1,
            reg.selected == 0,
            reg.timers@[0].time == Time::zero(),
            reg.timers@[0].label == initial_label,
    {
        let mut timers: Vec<Timer> = Vec::new();
        timers.push(Timer::new(initial_label));
        TimerRegistry { timers, selected: 0 }
    }

    /// Append a fresh timer and select it, unless the registry is at
    /// capacity, in which case nothing changes. Returns whether a timer was
    /// added, so that a caller can start its ticker.
    pub fn add_timer(&mut self, label: Option<String>) -> (added: bool)
        requires
            old(self).wf(),
        ensures
            final(self).wf(),
            added == (old(self).timers@.len() < CAPACITY),
            !added ==> *final(self) == *old(self),
            added ==> final(self).timers@.len() == old(self).timers@.len() + 1,
            added ==> forall|i: int|
                0 <= i < old(self).timers@.len() ==> final(self).timers@[i] == old(self).timers@[i],
            added ==> final(self).timers@.last().time == Time::zero(),
            added ==> final(self).timers@.last().label == label,
            added ==> final(self).selected + 1 == final(self).timers@.len(),
    {
        if self.timers.len() < CAPACITY {
            self.timers.push(Timer::new(label));
            self.selected = self.timers.len() - 1;
            true
        } else {
            false
        }
    }

    /// Destroy the selected timer and compact the sequence, clamping the
    /// cursor to the new last index where needed; removing the last
    /// remaining timer is silently ignored. Returns the removed index, so
    /// that a caller can cancel that timer's ticker.
    pub fn remove_selected(&mut self) -> (removed: Option<usize>)
        requires
            old(self).wf(),
        ensures
            final(self).wf(),
            old(self).timers@.len() == 1 ==> removed is None && *final(self) == *old(self),
            old(self).timers@.len() > 1 ==> {
                &&& removed == Some(old(self).selected)
                &&& final(self).timers@ == old(self).timers@.remove(old(self).selected as int)
                &&& final(self).selected == if old(self).selected + 1 < old(self).timers@.len() {
                    old(self).selected as int
                } else {
                    old(self).timers@.len() - 2
                }
            },
            old(self).timers@.len() > 1 && old(self).selected + 1 < old(self).timers@.len()
                ==> final(self).timers@[old(self).selected as int] == old(self).timers@[old(self).selected as int + 1],
    {
        if self.timers.len() > 1 {
            let idx = self.selected;
            self.timers.remove(idx);
            if self.selected >= self.timers.len() {
                self.selected = self.timers.len() - 1;
            }
            Some(idx)
        } else {
            None
        }
    }

    /// Move the selection cursor forward one timer, wrapping to the first
    /// after the last.
    pub fn select_next(&mut self)
        requires
            old(self).wf(),
        ensures
            final(self).wf(),
            final(self).timers@ == old(self).timers@,
            final(self).selected == next_selection(
                old(self).selected as int,
                old(self).timers@.len() as int,
            ),
    {
        self.selected = (self.selected + 1) % self.timers.len();
        proof {
            if old(self).selected + 1 == old(self).timers@.len() {
                vstd::arithmetic::div_mod::lemma_mod_self_0(old(self).timers@.len() as int);
            } else {
                vstd::arithmetic::div_mod::lemma_small_mod(
                    (old(self).selected + 1) as nat,
                    old(self).timers@.len() as nat,
                );
            }
        }
    }

    /// Move the selection cursor back one timer, wrapping to the last
    /// before the first.
    pub fn select_previous(&mut self)
        requires
            old(self).wf(),
        ensures
            final(self).wf(),
            final(self).timers@ == old(self).timers@,
            final(self).selected == previous_selection(
                old(self).selected as int,
                old(self).timers@.len() as int,
            ),
    {
        if self.selected == 0 {
            self.selected = self.timers.len() - 1;
        } else {
            self.selected = self.selected - 1;
        }
    }

    /// Replace the selected timer's label; its clock and every other timer
    /// are untouched.
    pub fn set_label_on_selected(&mut self, label: Option<String>)
        requires
            old(self).wf(),
        ensures
            final(self).wf(),
            final(self).selected == old(self).selected,
            final(self).timers@.len() == old(self).timers@.len(),
            forall|i: int|
                0 <= i < old(self).timers@.len() && i != old(self).selected ==> final(self).timers@[i] == old(self).timers@[i],
            final(self).timers@[old(self).selected as int].label == label,
            final(self).timers@[old(self).selected as int].time == old(self).timers@[old(self).selected as int].time,
    {
        let idx = self.selected;
        self.timers[idx].label = label;
    }

    /// Advance the clock of the timer at `index` by one second; every other
    /// timer, the labels and the cursor are untouched. This is the tick
    /// applied by that timer's ticker.
    pub fn advance_timer(&mut self, index: usize)
        requires
            old(self).wf(),
            index < old(self).timers@.len(),
        ensures
            final(self).wf(),
            final(self).selected == old(self).selected,
            final(self).timers@.len() == old(self).timers@.len(),
            forall|i: int|
                0 <= i < old(self).timers@.len() && i != index ==> final(self).timers@[i] == old(self).timers@[i],
            final(self).timers@[index as int].time == old(self).timers@[index as int].time.ticked(),
            final(self).timers@[index as int].label == old(self).timers@[index as int].label,
    {
        self.timers[index].time.advance();
    }

    /// A point-in-time copy of every clock, in registry order: one entry
    /// per live timer, index-aligned with the selection indices.
    pub fn snapshot_all(&self) -> (snap: Vec<Time>)
        requires
            self.wf(),
        ensures
            snap@.len() == self.timers@.len(),
            forall|i: int| 0 <= i < snap@.len() ==> #[trigger] snap@[i] == self.timers@[i].time,
    {
        let mut snap: Vec<Time> = Vec::new();
        let mut i: usize = 0;
        while i < self.timers.len()
            invariant
                i <= self.timers@.len(),
                snap@.len() == i,
                forall|j: int| 0 <= j < i ==> #[trigger] snap@[j] == self.timers@[j].time,
            decreases self.timers@.len() - i,
        {
            snap.push(self.timers[i].time.read());
            i = i + 1;
        }
        snap
    }

    /// How many timers are live.
    pub fn timer_count(&self) -> (n: usize)
        ensures
            n == self.timers@.len(),
    {
        self.timers.len()
    }

    /// The selection cursor.
    pub fn selected_index(&self) -> (i: usize)
        ensures
            i == self.selected,
    {
        self.selected
    }

    /// The label of the timer at `index`.
    pub fn label_of(&self, index: usize) -> (label: &Option<String>)
        requires
            index < self.timers@.len(),
        ensures
            *label == self.timers@[index as int].label,
    {
        &self.timers[index].label
    }

    /// Whether the registry invariant holds, decided at run time.
    pub fn well_formed(&self) -> (b: bool)
        ensures
            b == self.wf(),
    {
        if self.timers.len() < 1 || self.timers.len() > CAPACITY || self.selected
            >= self.timers.len() {
            return false;
        }
        let mut i: usize = 0;
        while i < self.timers.len()
            invariant
                i <= self.timers@.len(),
                1 <= self.timers@.len() <= CAPACITY,
                self.selected < self.timers@.len(),
                forall|j: int| 0 <= j < i ==> (#[trigger] self.timers@[j]).time.wf(),
            decreases self.timers@.len() - i,
        {
            if !self.timers[i].time.in_range() {
                return false;
            }
            i = i + 1;
        }
        true
    }
}

/// The label that a committed text input stands for: empty input clears the
/// label, anything else becomes the label.
pub fn normalize_label(input: String) -> (label: Option<String>)
    ensures
        label == (if input@.len() == 0 {
            Option::<String>::None
        } else {
            Option::Some(input)
        }),
{
    if input.as_str().is_empty() {
        None
    } else {
        Some(input)
    }
}

} // verus!
