use vstd::prelude::*;

verus! {

/// The run loop's time bookkeeping. Every instant is a count of nanoseconds
/// since an origin the runner picks; the runner reads the clock and hands the
/// readings in.
#[derive(Debug, Clone, Copy, PartialEq, Eq, Structural)]
pub struct RunClock {
    /// Time spent running, pauses left out.
    pub uptime: u64,
    /// When the emulator last started or resumed running.
    pub last_restart: u64,
    /// When the current pause began, if the emulator is paused.
    pub last_pause: Option<u64>,
    /// When the next instruction is due.
    pub next_cycle: u64,
    /// When the next timer tick is due.
    pub next_timer_tick: u64,
}

/// The time from `earlier` to `later`, zero when `later` comes first.
pub open spec fn elapsed_between(earlier: u64, later: u64) -> u64 {
    if later >= earlier {
        (later - earlier) as u64
    } else {
        0
    }
}

/// The clock after a pause that begins at `now`: the time run since the last
/// restart is added to the uptime.
pub open spec fn paused_at(c: RunClock, now: u64) -> RunClock {
    RunClock {
        uptime: (c.uptime + elapsed_between(c.last_restart, now)) as u64,
        last_pause: Some(now),
        ..c
    }
}

/// The clock after the pause in `c` ends at `now`: the next instruction and
/// the next timer tick are put off by the length of the pause, and running
/// restarts at `now`.
pub open spec fn resumed_at(c: RunClock, now: u64) -> RunClock {
    let pause = elapsed_between(c.last_pause->Some_0, now);
    RunClock {
        last_restart: now,
        last_pause: None,
        next_cycle: (c.next_cycle + pause) as u64,
        next_timer_tick: (c.next_timer_tick + pause) as u64,
        ..c
    }
}

/// The time from `earlier` to `later`, zero when `later` comes first.
fn time_between(earlier: u64, later: u64) -> (d: u64)
    ensures
        d == elapsed_between(earlier, later),
{
    if later >= earlier {
        later - earlier
    } else {
        0
    }
}

impl RunClock {
    /// A clock started at `now`: nothing run yet, not paused, the first
    /// instruction and timer tick due at once.
    pub fn new(now: u64) -> (c: RunClock)
        ensures
            c == (RunClock {
                uptime: 0,
                last_restart: now,
                last_pause: None,
                next_cycle: now,
                next_timer_tick: now,
            }),
    {
        RunClock { uptime: 0, last_restart: now, last_pause: None, next_cycle: now, next_timer_tick: now }
    }

    /// Record a pause beginning at `now`.
    pub fn record_pause(&mut self, now: u64)
        requires
            old(self).uptime + elapsed_between(old(self).last_restart, now) <= u64::MAX,
        ensures
            *final(self) == paused_at(*old(self), now),
    {
        let run = time_between(self.last_restart, now);
        self.uptime = self.uptime + run;
        self.last_pause = Some(now);
    }

    /// Record the end, at `now`, of the pause in progress.
    pub fn record_resume(&mut self, now: u64)
        requires
            old(self).last_pause is Some,
            old(self).next_cycle + elapsed_between(old(self).last_pause->Some_0, now) <= u64::MAX,
            old(self).next_timer_tick + elapsed_between(old(self).last_pause->Some_0, now)
                <= u64::MAX,
        ensures
            *final(self) == resumed_at(*old(self), now),
    {
        let began = match self.last_pause {
            Some(t) => t,
            None => 0,
        };
        let pause = time_between(began, now);
        self.next_cycle = self.next_cycle + pause;
        self.next_timer_tick = self.next_timer_tick + pause;
        self.last_restart = now;
        self.last_pause = None;
    }

    /// Whether the timers are due to tick at `now`.
    pub fn tick_due(&self, now: u64) -> (b: bool)
        ensures
            b == (now > self.next_timer_tick),
    {
        now > self.next_timer_tick
    }

    /// Whether the next instruction is due at `now`.
    pub fn cycle_due(&self, now: u64) -> (b: bool)
        ensures
            b == (now >= self.next_cycle),
    {
        now >= self.next_cycle
    }

    /// Put the next timer tick off by `interval`.
    pub fn schedule_next_tick(&mut self, interval: u64)
        requires
            old(self).next_timer_tick + interval <= u64::MAX,
        ensures
            *final(self) == (RunClock {
                next_timer_tick: (old(self).next_timer_tick + interval) as u64,
                ..*old(self)
            }),
    {
        self.next_timer_tick = self.next_timer_tick + interval;
    }

    /// Put the next instruction off by `interval`.
    pub fn schedule_next_cycle(&mut self, interval: u64)
        requires
            old(self).next_cycle + interval <= u64::MAX,
        ensures
            *final(self) == (RunClock { next_cycle: (old(self).next_cycle + interval) as u64, ..*old(self) }),
    {
        self.next_cycle = self.next_cycle + interval;
    }

    /// How long to wait at `now` until the next instruction or timer tick is
    /// due, whichever comes first; zero when one is already due.
    pub fn wait_from(&self, now: u64) -> (d: u64)
        ensures
            d == elapsed_between(
                now,
                if self.next_cycle <= self.next_timer_tick {
                    self.next_cycle
                } else {
                    self.next_timer_tick
                },
            ),
    {
        let due = if self.next_cycle <= self.next_timer_tick {
            self.next_cycle
        } else {
            self.next_timer_tick
        };
        time_between(now, due)
    }
}

} // verus!
