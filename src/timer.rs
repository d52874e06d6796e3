use vstd::prelude::*;
use crate::memory_map::{ReadByte, WriteByte};

verus! {

/// The input clock that TAC selects for TIMA.
#[derive(PartialEq, Eq, Structural, Clone, Copy, Debug)]
pub enum ClockFrequency {
    Hz4096,
    Hz262144,
    Hz65536,
    Hz16384,
}

/// CPU cycles between two TIMA increments at each input clock.
pub open spec fn period_spec(f: ClockFrequency) -> u16 {
    match f {
        ClockFrequency::Hz4096 => 1024,
        ClockFrequency::Hz262144 => 16,
        ClockFrequency::Hz65536 => 64,
        ClockFrequency::Hz16384 => 256,
    }
}

/// The input clock named by the low two bits of a TAC value.
pub open spec fn frequency_of(value: u8) -> ClockFrequency {
    if value % 4 == 0 {
        ClockFrequency::Hz4096
    } else if value % 4 == 1 {
        ClockFrequency::Hz262144
    } else if value % 4 == 2 {
        ClockFrequency::Hz65536
    } else {
        ClockFrequency::Hz16384
    }
}

/// The two-bit TAC code of an input clock.
pub open spec fn select_bits(f: ClockFrequency) -> u8 {
    match f {
        ClockFrequency::Hz4096 => 0,
        ClockFrequency::Hz262144 => 1,
        ClockFrequency::Hz65536 => 2,
        ClockFrequency::Hz16384 => 3,
    }
}

/// One TIMA increment: past 0xFF it reloads from TMA and reports overflow.
pub open spec fn tima_tick(tima: u8, tma: u8) -> (u8, bool) {
    if tima == 0xff {
        (tma, true)
    } else {
        ((tima + 1) as u8, false)
    }
}

/// TIMA after spending `acc` accumulated cycles, `period` cycles per increment:
/// the new TIMA, whether it overflowed on the way, and the cycles left over.
pub open spec fn tima_run(tima: u8, tma: u8, acc: nat, period: nat) -> (u8, bool, nat)
    decreases acc,
{
    if period == 0 || acc < period {
        (tima, false, acc)
    } else {
        let (t, o) = tima_tick(tima, tma);
        let (t2, o2, rest) = tima_run(t, tma, (acc - period) as nat, period);
        (t2, o || o2, rest)
    }
}

/// Divider and programmable counter. DIV counts at 16384 Hz; TIMA counts at
/// the selected input clock while enabled and reloads from TMA on overflow.
pub struct Timer {
    pub div: u8,
    pub tima: u8,
    pub tma: u8,
    pub enabled: bool,
    pub input_clock: ClockFrequency,
    /// Cycles accumulated towards the next DIV increment.
    pub div_cycles: u16,
    /// Cycles accumulated towards the next TIMA increment.
    pub tima_cycles: u16,
}

impl Timer {
    pub open spec fn wf(&self) -> bool {
        self.div_cycles < 256 && self.tima_cycles < 1024
    }

    /// The value a read of a timer register returns.
    pub open spec fn read_spec(&self, address: u16) -> u8 {
        if address == 0xff04 {
            self.div
        } else if address == 0xff05 {
            self.tima
        } else if address == 0xff06 {
            self.tma
        } else if address == 0xff07 {
            ((if self.enabled { 4u8 } else { 0u8 }) + select_bits(self.input_clock)) as u8
        } else {
            0
        }
    }

    /// `new` is `old` after a write of `value` to a timer register.
    pub open spec fn written(old: Timer, new: Timer, address: u16, value: u8) -> bool {
        if address == 0xff04 {
            new == Timer { div: 0, div_cycles: 0, ..old }
        } else if address == 0xff05 {
            new == Timer { tima: value, ..old }
        } else if address == 0xff06 {
            new == Timer { tma: value, ..old }
        } else if address == 0xff07 {
            new == Timer { enabled: value & 4 == 4, input_clock: frequency_of(value), ..old }
        } else {
            new == old
        }
    }

    /// The timer after `cycles` CPU cycles, and whether TIMA overflowed.
    pub open spec fn stepped(old: Timer, cycles: u8) -> (Timer, bool) {
        let d = old.div_cycles + cycles;
        let div = ((old.div + d / 256) % 256) as u8;
        let div_cycles = (d % 256) as u16;
        if old.enabled {
            let (tima, overflow, rest) = tima_run(
                old.tima,
                old.tma,
                (old.tima_cycles + cycles) as nat,
                period_spec(old.input_clock) as nat,
            );
            (Timer { div, div_cycles, tima, tima_cycles: rest as u16, ..old }, overflow)
        } else {
            (Timer { div, div_cycles, ..old }, false)
        }
    }

    pub fn new() -> (r: Timer)
        ensures
            r.wf(),
            r.div == 0 && r.tima == 0 && r.tma == 0,
            !r.enabled,
            r.input_clock == ClockFrequency::Hz4096,
            r.div_cycles == 0 && r.tima_cycles == 0,
    {
        Timer {
            div: 0,
            tima: 0,
            tma: 0,
            enabled: false,
            input_clock: ClockFrequency::Hz4096,
            div_cycles: 0,
            tima_cycles: 0,
        }
    }

    fn period(f: ClockFrequency) -> (r: u16)
        ensures
            r == period_spec(f),
    {
        match f {
            ClockFrequency::Hz4096 => 1024,
            ClockFrequency::Hz262144 => 16,
            ClockFrequency::Hz65536 => 64,
            ClockFrequency::Hz16384 => 256,
        }
    }

    /// Advances the timer by `cycles` CPU cycles; returns whether TIMA
    /// overflowed, which raises the timer interrupt.
    pub fn step(&mut self, cycles: u8) -> (overflow: bool)
        requires
            old(self).wf(),
        ensures
            final(self).wf(),
            (*final(self), overflow) == Timer::stepped(*old(self), cycles),
    {
        let d: u16 = self.div_cycles + cycles as u16;
        self.div = ((self.div as u16 + d / 256) % 256) as u8;
        self.div_cycles = d % 256;
        if !self.enabled {
            return false;
        }
        let p = Timer::period(self.input_clock);
        let mut acc: u16 = self.tima_cycles + cycles as u16;
        let mut fired = false;
        let ghost goal = tima_run(self.tima, self.tma, acc as nat, p as nat);
        let ghost before = *self;
        while acc >= p
            invariant
                *self == (Timer { tima: self.tima, ..before }),
                p == period_spec(self.input_clock),
                p >= 16,
                acc < 1280,
                ({
                    let r = tima_run(self.tima, self.tma, acc as nat, p as nat);
                    (r.0, fired || r.1, r.2) == goal
                }),
            decreases acc,
        {
            acc = acc - p;
            if self.inc() {
                fired = true;
            }
        }
        self.tima_cycles = acc;
        fired
    }

    fn inc(&mut self) -> (overflow: bool)
        ensures
            (final(self).tima, overflow) == tima_tick(old(self).tima, old(self).tma),
            *final(self) == (Timer { tima: final(self).tima, ..*old(self) }),
    {
        if self.tima == 0xff {
            self.tima = self.tma;
            true
        } else {
            self.tima = self.tima + 1;
            false
        }
    }

    pub fn read_byte(&self, address: u16) -> (r: u8)
        ensures
            r == self.read_spec(address),
    {
        if address == 0xff04 {
            self.div
        } else if address == 0xff05 {
            self.tima
        } else if address == 0xff06 {
            self.tma
        } else if address == 0xff07 {
            let select: u8 = match self.input_clock {
                ClockFrequency::Hz4096 => 0,
                ClockFrequency::Hz262144 => 1,
                ClockFrequency::Hz65536 => 2,
                ClockFrequency::Hz16384 => 3,
            };
            if self.enabled { 4 + select } else { select }
        } else {
            0
        }
    }

    pub fn write_byte(&mut self, address: u16, value: u8)
        requires
            old(self).wf(),
        ensures
            final(self).wf(),
            Timer::written(*old(self), *final(self), address, value),
    {
        if address == 0xff04 {
            self.div = 0;
            self.div_cycles = 0;
        } else if address == 0xff05 {
            self.tima = value;
        } else if address == 0xff06 {
            self.tma = value;
        } else if address == 0xff07 {
            self.enabled = value & 4 == 4;
            self.input_clock = if value % 4 == 0 {
                ClockFrequency::Hz4096
            } else if value % 4 == 1 {
                ClockFrequency::Hz262144
            } else if value % 4 == 2 {
                ClockFrequency::Hz65536
            } else {
                ClockFrequency::Hz16384
            };
        }
    }
}

/// Once TIMA stands at 0xFF and the next increment period elapses, TIMA
/// holds TMA and the step reports the overflow that raises the timer
/// interrupt, whichever input clock is selected.
pub proof fn timer_overflow_reloads(t: Timer, cycles: u8)
    requires
        t.wf(),
        t.enabled,
        t.tima == 0xff,
        t.tima_cycles + cycles >= period_spec(t.input_clock),
        t.tima_cycles + cycles < 2 * period_spec(t.input_clock),
    ensures
        Timer::stepped(t, cycles).0.tima == t.tma,
        Timer::stepped(t, cycles).1,
{
    let p = period_spec(t.input_clock) as nat;
    let acc = (t.tima_cycles + cycles) as nat;
    assert(tima_run(t.tma, t.tma, (acc - p) as nat, p) == (t.tma, false, (acc - p) as nat));
}

impl ReadByte for Timer {
    open spec fn readable(&self) -> bool {
        true
    }

    fn read_byte(&self, address: u16) -> u8 {
        Timer::read_byte(self, address)
    }
}

impl WriteByte for Timer {
    open spec fn writable(&self) -> bool {
        self.wf()
    }

    fn write_byte(&mut self, address: u16, value: u8) {
        Timer::write_byte(self, address, value);
    }
}

} // verus!
