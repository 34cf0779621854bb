use vstd::prelude::*;

verus! {

/// Number of readings the battery average is taken over.
pub const WINDOW: usize = 10;

/// Largest battery reading accepted, in units of 10^-2 V.
pub const MAX_READING: i64 = 1000000;

/// Level shown when the device runs from USB power rather than its battery.
pub const USB_POWER: u32 = 200;

pub open spec fn seq_sum(s: Seq<i64>) -> int
    decreases s.len(),
{
    if s.len() == 0 {
        0
    } else {
        seq_sum(s.drop_last()) + s.last()
    }
}

/// The next battery level (0, 20, 40, 60, 80, 100 percent, or `USB_POWER`)
/// from the current one and the sum of the last `WINDOW` readings in
/// units of 10^-2 V, i.e. the average in mV. A level moves up past one
/// threshold and back down only below a lower one.
pub open spec fn next_level(level: u32, sum: int) -> u32 {
    if level == 0 {
        if sum > 3750 { 20 } else { 0 }
    } else if level == 20 {
        if sum > 3850 { 40 } else if sum < 3700 { 0 } else { 20 }
    } else if level == 40 {
        if sum > 3950 { 60 } else if sum < 3800 { 20 } else { 40 }
    } else if level == 60 {
        if sum > 4050 { 80 } else if sum < 3900 { 40 } else { 60 }
    } else if level == 80 {
        if sum > 4150 { 100 } else if sum < 4000 { 60 } else { 80 }
    } else if level == 100 {
        if sum > 4550 { USB_POWER } else if sum < 4100 { 80 } else { 100 }
    } else if level == USB_POWER {
        if sum < 4500 { 100 } else { USB_POWER }
    } else {
        0
    }
}

pub fn battery_level(level: u32, sum: i64) -> (r: u32)
    ensures
        r == next_level(level, sum as int),
{
    if level == 0 {
        if sum > 3750 { 20 } else { 0 }
    } else if level == 20 {
        if sum > 3850 { 40 } else if sum < 3700 { 0 } else { 20 }
    } else if level == 40 {
        if sum > 3950 { 60 } else if sum < 3800 { 20 } else { 40 }
    } else if level == 60 {
        if sum > 4050 { 80 } else if sum < 3900 { 40 } else { 60 }
    } else if level == 80 {
        if sum > 4150 { 100 } else if sum < 4000 { 60 } else { 80 }
    } else if level == 100 {
        if sum > 4550 { USB_POWER } else if sum < 4100 { 80 } else { 100 }
    } else if level == USB_POWER {
        if sum < 4500 { 100 } else { USB_POWER }
    } else {
        0
    }
}

pub struct BatteryWindowView {
    pub readings: Seq<i64>,
    pub pos: nat,
}

/// The last `WINDOW` battery readings, overwritten in turn.
pub struct BatteryWindow {
    readings: Vec<i64>,
    pos: usize,
}

impl View for BatteryWindow {
    type V = BatteryWindowView;

    closed spec fn view(&self) -> BatteryWindowView {
        BatteryWindowView { readings: self.readings@, pos: self.pos as nat }
    }
}

impl BatteryWindow {
    pub open spec fn wf(&self) -> bool {
        &&& self@.readings.len() == WINDOW
        &&& self@.pos < WINDOW
        &&& forall|i: int| 0 <= i < WINDOW ==> 0 <= #[trigger] self@.readings[i] <= MAX_READING
    }

    /// A window of zero readings.
    pub fn new() -> (r: BatteryWindow)
        ensures
            r.wf(),
            r@.readings == Seq::new(WINDOW as nat, |i: int| 0i64),
            r@.pos == 0,
    {
        let mut readings: Vec<i64> = Vec::new();
        let mut i: usize = 0;
        while i < WINDOW
            invariant
                i <= WINDOW,
                readings@ == Seq::new(i as nat, |j: int| 0i64),
            decreases WINDOW - i,
        {
            readings.push(0);
            i = i + 1;
        }
        BatteryWindow { readings, pos: 0 }
    }

    /// Puts `reading` in the oldest slot.
    pub fn push(&mut self, reading: i64)
        requires
            old(self).wf(),
            0 <= reading <= MAX_READING,
        ensures
            final(self).wf(),
            final(self)@.readings == old(self)@.readings.update(old(self)@.pos as int, reading),
            final(self)@.pos == (old(self)@.pos + 1) % (WINDOW as nat),
    {
        self.readings.set(self.pos, reading);
        self.pos = if self.pos + 1 == WINDOW {
            0
        } else {
            self.pos + 1
        };
    }

    /// Sum of the readings in the window.
    pub fn sum(&self) -> (r: i64)
        requires
            self.wf(),
        ensures
            r == seq_sum(self@.readings),
    {
        let mut total: i64 = 0;
        let mut i: usize = 0;
        while i < WINDOW
            invariant
                self.wf(),
                i <= WINDOW,
                total == seq_sum(self@.readings.take(i as int)),
                0 <= total <= i * MAX_READING,
            decreases WINDOW - i,
        {
            assert(self@.readings.take(i as int + 1).drop_last() =~= self@.readings.take(i as int));
            total = total + self.readings[i];
            i = i + 1;
        }
        assert(self@.readings.take(WINDOW as int) =~= self@.readings);
        total
    }
}

} // verus!
