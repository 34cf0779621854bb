use vstd::prelude::*;
use vstd::math::min;
use crate::currentlogs::{CAPACITY, CurrentLog, CurrentRecord};
use crate::transfer::{Transfer, claim};

verus! {

/// Latest time, in milliseconds, that may start a sampling cycle; it keeps
/// every deadline of the cycle within `u64`.
pub const TIME_LIMIT: u64 = 4611686018427387904;

/// Interval, in milliseconds, when the logger starts.
pub const FIRST_INTERVAL: u32 = 4;

/// The interval that follows `i` on the ladder 4, 9, 49, 99, 499, 999, 4, ...;
/// any value off the ladder goes back to its start.
pub open spec fn next_interval_spec(i: u32) -> u32 {
    if i == 4 {
        9
    } else if i == 9 {
        49
    } else if i == 49 {
        99
    } else if i == 99 {
        499
    } else if i == 499 {
        999
    } else {
        4
    }
}

/// The `k`-th interval of the ladder, counting from its start.
pub open spec fn ladder(k: nat) -> u32 {
    let j = k % 6;
    if j == 0 {
        4
    } else if j == 1 {
        9
    } else if j == 2 {
        49
    } else if j == 3 {
        99
    } else if j == 4 {
        499
    } else {
        999
    }
}

pub open spec fn on_ladder(i: u32) -> bool {
    i == 4 || i == 9 || i == 49 || i == 99 || i == 499 || i == 999
}

pub fn next_interval(i: u32) -> (r: u32)
    ensures
        r == next_interval_spec(i),
        on_ladder(r),
{
    if i == 4 {
        9
    } else if i == 9 {
        49
    } else if i == 49 {
        99
    } else if i == 99 {
        499
    } else if i == 499 {
        999
    } else {
        4
    }
}

/// Cycling goes through the ladder in order and wraps: the interval after
/// the `k`-th one is the `k+1`-th, and from any value, ladder or not, the
/// cycle returns to where it was after six steps on the ladder.
pub proof fn lemma_interval_cycle(k: nat, i: u32)
    ensures
        next_interval_spec(ladder(k)) == ladder(k + 1),
        on_ladder(next_interval_spec(i)),
        on_ladder(i) ==> next_interval_spec(next_interval_spec(next_interval_spec(
            next_interval_spec(next_interval_spec(next_interval_spec(i)))))) == i,
        !on_ladder(i) ==> next_interval_spec(i) == ladder(0),
{
    assert((k + 1) % 6 == (k % 6 + 1) % 6);
}

/// Whether logging is running, as shown to the user.
#[derive(Clone, Copy, Debug, PartialEq, Eq, Structural)]
pub enum LoggingStatus {
    Start,
    Stop,
}

/// Whether the network link is up, as shown to the user.
#[derive(Clone, Copy, Debug, PartialEq, Eq, Structural)]
pub enum WifiStatus {
    Connected,
    Disconnected,
}

pub struct SchedulerView {
    pub log: Seq<CurrentLog>,
    pub logging: bool,
    pub interval: u32,
    pub count: u32,
    pub cycle_start: u64,
    pub next_time: u64,
    pub light: bool,
}

/// The view after one read of the two buttons at `now`.
pub open spec fn after_buttons(v: SchedulerView, start_stop: bool, interval_select: bool, now: u64) -> SchedulerView {
    let a = if !start_stop {
        v
    } else if v.logging {
        SchedulerView { logging: false, ..v }
    } else {
        SchedulerView {
            logging: true,
            count: 0,
            log: Seq::empty(),
            cycle_start: now,
            next_time: now,
            ..v
        }
    };
    if !interval_select {
        a
    } else {
        let i = next_interval_spec(a.interval);
        SchedulerView {
            interval: i,
            light: false,
            count: 0,
            cycle_start: now,
            next_time: now,
            ..a
        }
    }
}

/// Elapsed milliseconds from `start` to `now` as a 32-bit timestamp (zero
/// if the clock went back).
pub open spec fn timestamp(start: u64, now: u64) -> u32 {
    if now >= start {
        ((now - start) % 4294967296) as u32
    } else {
        0
    }
}

/// The log stays within its capacity, logging runs only while there is
/// room, the interval is on the ladder, and the next deadline is the cycle
/// start plus one interval per sample taken in the cycle.
pub open spec fn view_wf(v: SchedulerView) -> bool {
    &&& v.log.len() <= CAPACITY
    &&& v.logging ==> v.log.len() < CAPACITY
    &&& on_ladder(v.interval)
    &&& v.cycle_start <= TIME_LIMIT
    &&& v.next_time == v.cycle_start + v.interval * v.count
}

/// The view after one sample: appended while logging, and logging stops
/// once the log is full.
pub open spec fn record_step(v: SchedulerView, sample: CurrentLog) -> SchedulerView {
    let log = if v.logging {
        v.log.push(sample)
    } else {
        v.log
    };
    SchedulerView { log: log, logging: v.logging && log.len() < CAPACITY, ..v }
}

/// The view after a run of samples.
pub open spec fn record_all(v: SchedulerView, samples: Seq<CurrentLog>) -> SchedulerView
    decreases samples.len(),
{
    if samples.len() == 0 {
        v
    } else {
        record_all(record_step(v, samples[0]), samples.drop_first())
    }
}

/// Over any run of samples the log never exceeds its capacity, and logging
/// stops exactly when the log becomes full, never before: started with
/// logging on, the log takes `min(len + k, CAPACITY)` samples of the `k`
/// offered, and logging is still on exactly when that is under `CAPACITY`.
pub proof fn lemma_log_never_overflows(v: SchedulerView, samples: Seq<CurrentLog>)
    requires
        view_wf(v),
    ensures
        view_wf(record_all(v, samples)),
        v.logging ==> record_all(v, samples).log.len() == min(
            (v.log.len() + samples.len()) as int,
            CAPACITY as int,
        ),
        v.logging ==> record_all(v, samples).logging == (v.log.len() + samples.len() < CAPACITY),
        !v.logging ==> record_all(v, samples).log == v.log,
    decreases samples.len(),
{
    if samples.len() > 0 {
        lemma_log_never_overflows(record_step(v, samples[0]), samples.drop_first());
    }
}

/// The sampling scheduler: start/stop state, interval, absolute deadlines
/// and the sample log it fills.
pub struct Scheduler {
    clogs: CurrentRecord,
    logging: bool,
    interval: u32,
    count: u32,
    cycle_start: u64,
    next_time: u64,
    light: bool,
}

impl View for Scheduler {
    type V = SchedulerView;

    closed spec fn view(&self) -> SchedulerView {
        SchedulerView {
            log: self.clogs@,
            logging: self.logging,
            interval: self.interval,
            count: self.count,
            cycle_start: self.cycle_start,
            next_time: self.next_time,
            light: self.light,
        }
    }
}

impl Scheduler {
    pub open spec fn wf(&self) -> bool {
        view_wf(self@)
    }

    pub fn new(now: u64) -> (r: Scheduler)
        requires
            now <= TIME_LIMIT,
        ensures
            r.wf(),
            r@ == (SchedulerView {
                log: Seq::empty(),
                logging: false,
                interval: FIRST_INTERVAL,
                count: 0,
                cycle_start: now,
                next_time: now,
                light: false,
            }),
    {
        Scheduler {
            clogs: CurrentRecord::new(),
            logging: false,
            interval: FIRST_INTERVAL,
            count: 0,
            cycle_start: now,
            next_time: now,
            light: false,
        }
    }

    /// Applies the debounced button events read at `now`: a start/stop
    /// event toggles logging (starting clears the log and restarts the
    /// cycle); an interval event moves to the next interval and restarts the
    /// cycle.
    pub fn apply_buttons(&mut self, start_stop: bool, interval_select: bool, now: u64)
        requires
            old(self).wf(),
            now <= TIME_LIMIT,
        ensures
            final(self).wf(),
            final(self)@ == after_buttons(old(self)@, start_stop, interval_select, now),
    {
        if start_stop {
            if self.logging {
                self.logging = false;
            } else {
                self.logging = true;
                self.count = 0;
                self.clogs.clear();
                self.cycle_start = now;
                self.next_time = now;
                assert(self.interval * 0 == 0);
            }
        }
        if interval_select {
            self.interval = next_interval(self.interval);
            self.light = false;
            self.count = 0;
            self.cycle_start = now;
            self.next_time = now;
            assert(self.interval * 0 == 0);
        }
    }

    /// Whether the next sample is due at `now`.
    pub fn is_due(&self, now: u64) -> (r: bool)
        ensures
            r == (now > self@.next_time),
    {
        now > self.next_time
    }

    /// Starts a tick at `now`: counts it, sets the next deadline from the
    /// cycle start, toggles the tick light, and returns the sample's
    /// timestamp.
    pub fn begin_tick(&mut self, now: u64) -> (ts: u32)
        requires
            old(self).wf(),
            old(self)@.count < u32::MAX,
        ensures
            final(self).wf(),
            ts == timestamp(old(self)@.cycle_start, now),
            final(self)@ == (SchedulerView {
                count: (old(self)@.count + 1) as u32,
                next_time: (old(self)@.cycle_start + old(self)@.interval * (old(self)@.count + 1)) as u64,
                light: !old(self)@.light,
                ..old(self)@
            }),
    {
        self.count = self.count + 1;
        assert((self.interval as int) * (self.count as int) <= 999 * 4294967295) by (nonlinear_arith)
            requires
                self.interval <= 999,
                self.count <= 4294967295,
        ;
        let steps: u64 = self.interval as u64 * self.count as u64;
        self.next_time = self.cycle_start + steps;
        self.light = !self.light;
        if now >= self.cycle_start {
            ((now - self.cycle_start) % 4294967296) as u32
        } else {
            0
        }
    }

    /// Appends `sample` while logging, and stops logging once the log is
    /// full.
    pub fn record_sample(&mut self, sample: CurrentLog)
        requires
            old(self).wf(),
        ensures
            final(self).wf(),
            final(self)@ == record_step(old(self)@, sample),
    {
        if self.logging {
            self.clogs.record(sample);
        }
        if self.clogs.get_size() >= CAPACITY {
            self.logging = false;
        }
    }

    /// Offers the log to the pipeline when the link is up and the log is
    /// not empty, and evicts from the head what the pipeline claimed.
    /// Returns the number of samples claimed.
    pub fn offer_transfer(&mut self, link_up: bool, tx: &mut Transfer) -> (n: usize)
        requires
            old(self).wf(),
        ensures
            final(self).wf(),
            !link_up || old(self)@.log.len() == 0 ==> n == 0 && final(self)@ == old(self)@
                && final(tx)@ == old(tx)@,
            link_up && old(self)@.log.len() > 0 ==> (n as nat, final(tx)@) == claim(old(tx)@, old(self)@.log),
            final(self)@ == (SchedulerView { log: old(self)@.log.skip(n as int), ..old(self)@ }),
    {
        if !link_up || self.clogs.get_size() == 0 {
            assert(self@.log.skip(0) =~= self@.log);
            return 0;
        }
        let n = tx.set_transfer_data(self.clogs.get_all_data());
        if n > 0 {
            self.clogs.remove_data(n);
        } else {
            assert(self@.log.skip(0) =~= self@.log);
        }
        n
    }

    /// How full the log is, in percent (rounded down).
    pub fn buffer_watermark(&self) -> (r: u32)
        requires
            self.wf(),
        ensures
            r == (self@.log.len() as int) * 100 / (CAPACITY as int),
    {
        (self.clogs.get_size() as u32) * 100 / (CAPACITY as u32)
    }

    pub fn logging_active(&self) -> (r: bool)
        ensures
            r == self@.logging,
    {
        self.logging
    }

    pub fn status(&self) -> (r: LoggingStatus)
        ensures
            r == (if self@.logging {
                LoggingStatus::Start
            } else {
                LoggingStatus::Stop
            }),
    {
        if self.logging {
            LoggingStatus::Start
        } else {
            LoggingStatus::Stop
        }
    }

    pub fn interval(&self) -> (r: u32)
        ensures
            r == self@.interval,
    {
        self.interval
    }

    pub fn sample_count(&self) -> (r: u32)
        ensures
            r == self@.count,
    {
        self.count
    }

    /// Whether the tick light is on.
    pub fn tick_light(&self) -> (r: bool)
        ensures
            r == self@.light,
    {
        self.light
    }

    pub fn records(&self) -> (r: &CurrentRecord)
        ensures
            r@ == self@.log,
    {
        &self.clogs
    }
}

} // verus!
