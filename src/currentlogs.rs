use vstd::prelude::*;
use vstd::math::min;
use crate::text::{dec, fixed, pow10, push_dec, push_fixed};

verus! {

/// Number of samples the log holds at most.
pub const CAPACITY: usize = 4095;

/// One measurement. Voltage, current and power are fixed-point values in
/// units of 10^-5 (V, A, W); the battery voltage is in units of 10^-2 V;
/// `clock` is the number of milliseconds since logging started.
#[derive(Clone, Copy, Debug, PartialEq, Eq, Structural)]
pub struct CurrentLog {
    pub voltage: i64,
    pub current: i64,
    pub power: i64,
    pub clock: u32,
    pub battery: i64,
}

impl CurrentLog {
    /// A sample whose every field is zero.
    pub fn default() -> (r: Self)
        ensures
            r.voltage == 0 && r.current == 0 && r.power == 0 && r.clock == 0 && r.battery == 0,
    {
        CurrentLog { voltage: 0, current: 0, power: 0, clock: 0, battery: 0 }
    }
}

/// Header line of the CSV dump.
pub open spec fn csv_header() -> Seq<char> {
    "time,voltage,current,power,battery"@
}

/// CSV line of one sample: time, voltage, current, power, battery.
pub open spec fn csv_line(x: CurrentLog) -> Seq<char> {
    dec(x.clock as nat) + ","@ + fixed(x.voltage as int, 5) + ","@ + fixed(x.current as int, 5)
        + ","@ + fixed(x.power as int, 5) + ","@ + fixed(x.battery as int, 2)
}

fn csv_line_of(x: &CurrentLog) -> (r: String)
    ensures
        r@ == csv_line(*x),
{
    proof {
        reveal_with_fuel(pow10, 6);
    }
    let mut s = String::new();
    push_dec(&mut s, x.clock as u64);
    s.append(",");
    push_fixed(&mut s, x.voltage, 5, 100000);
    s.append(",");
    push_fixed(&mut s, x.current, 5, 100000);
    s.append(",");
    push_fixed(&mut s, x.power, 5, 100000);
    s.append(",");
    push_fixed(&mut s, x.battery, 2, 100);
    assert(s@ =~= csv_line(*x));
    s
}

/// The bounded, ordered log of samples: appended at the tail, drained
/// from the head, never reordered.
pub struct CurrentRecord {
    rec: Vec<CurrentLog>,
}

impl View for CurrentRecord {
    type V = Seq<CurrentLog>;

    closed spec fn view(&self) -> Seq<CurrentLog> {
        self.rec@
    }
}

impl CurrentRecord {
    /// The log holds no more than `CAPACITY` samples.
    pub open spec fn wf(&self) -> bool {
        self@.len() <= CAPACITY
    }

    pub fn new() -> (r: CurrentRecord)
        ensures
            r@ == Seq::<CurrentLog>::empty(),
            r.wf(),
    {
        CurrentRecord { rec: Vec::new() }
    }

    /// Appends a sample at the tail. The caller stops appending once the
    /// log is full.
    pub fn record(&mut self, data: CurrentLog)
        requires
            old(self)@.len() < CAPACITY,
        ensures
            final(self)@ == old(self)@.push(data),
            final(self).wf(),
    {
        self.rec.push(data);
    }

    /// The log as CSV lines: a header, then one line per sample in order.
    pub fn dump(&self) -> (r: Vec<String>)
        ensures
            r@.len() == self@.len() + 1,
            r@[0]@ == csv_header(),
            forall|i: int| 0 <= i < self@.len() ==> r@[i + 1]@ == csv_line(#[trigger] self@[i]),
    {
        let mut lines: Vec<String> = Vec::new();
        lines.push(String::from_str("time,voltage,current,power,battery"));
        let mut i: usize = 0;
        while i < self.rec.len()
            invariant
                i <= self@.len(),
                lines@.len() == i + 1,
                lines@[0]@ == csv_header(),
                forall|j: int| 0 <= j < i ==> lines@[j + 1]@ == csv_line(#[trigger] self@[j]),
            decreases self@.len() - i,
        {
            lines.push(csv_line_of(&self.rec[i]));
            i = i + 1;
        }
        lines
    }

    pub fn clear(&mut self)
        ensures
            final(self)@ == Seq::<CurrentLog>::empty(),
            final(self).wf(),
    {
        self.rec.clear();
    }

    pub fn get_size(&self) -> (r: usize)
        ensures
            r == self@.len(),
    {
        self.rec.len()
    }

    /// The samples in order, oldest first.
    pub fn get_all_data(&self) -> (r: &Vec<CurrentLog>)
        ensures
            r@ == self@,
    {
        &self.rec
    }

    /// Removes the first `min(size, len)` samples; the rest keep their order.
    pub fn remove_data(&mut self, size: usize)
        requires
            old(self).wf(),
        ensures
            final(self)@ == old(self)@.skip(min(size as int, old(self)@.len() as int)),
            final(self).wf(),
    {
        let mut num = size;
        if self.rec.len() < size {
            num = self.rec.len();
        }
        let mut kept: Vec<CurrentLog> = Vec::new();
        let mut i: usize = num;
        while i < self.rec.len()
            invariant
                num <= i <= self.rec@.len(),
                self.rec@ == old(self)@,
                num == min(size as int, old(self)@.len() as int),
                kept@ == self.rec@.subrange(num as int, i as int),
            decreases self.rec@.len() - i,
        {
            kept.push(self.rec[i]);
            i = i + 1;
        }
        assert(kept@ =~= old(self)@.skip(num as int));
        self.rec = kept;
    }
}

} // verus!
