//! Bring-up of the three ranging sensors on one shared bus. All of them answer
//! at the same factory address, so they are selected one at a time, and all
//! but the last one selected move to an address of their own.

use vstd::prelude::*;

verus! {

/// The address every sensor answers at after power-up.
pub const DEFAULT_BUS_ADDRESS: u8 = 0x29;

/// The address the rear sensor is moved to.
pub const REAR_BUS_ADDRESS: u8 = 0x31;

/// The address the mid sensor is moved to.
pub const MID_BUS_ADDRESS: u8 = 0x30;

/// Where a sensor sits along the travel path.
#[derive(Clone, Copy, Debug, PartialEq, Eq, Structural)]
pub enum SensorPosition {
    Front,
    Mid,
    Rear,
}

/// The ranging sensor's distance mode.
#[derive(Clone, Copy, Debug, PartialEq, Eq, Structural)]
pub enum RangingMode {
    Short,
    Mid,
    Long,
}

/// How one sensor is reached: its select line and the bus address it ends at.
#[derive(Clone, Copy, Debug, PartialEq, Eq, Structural)]
pub struct SensorBinding {
    pub sensor: SensorPosition,
    pub select_line: u32,
    pub bus_address: u8,
}

impl SensorBinding {
    pub fn new(sensor: SensorPosition, select_line: u32, bus_address: u8) -> (r: SensorBinding)
        ensures
            r == (SensorBinding { sensor, select_line, bus_address }),
    {
        SensorBinding { sensor, select_line, bus_address }
    }
}

/// One operation of the bring-up, on the sensor it names.
#[derive(Clone, Copy, Debug, PartialEq, Eq, Structural)]
pub enum BringupStep {
    /// Drive this sensor's select line high and every other one low.
    Select(SensorPosition),
    /// Open the sensor at the factory address.
    Connect(SensorPosition),
    SoftReset(SensorPosition),
    Init(SensorPosition),
    /// Move the sensor to this bus address.
    SetAddress(SensorPosition, u8),
    StartRanging(SensorPosition, RangingMode),
}

/// The steps that bring up one sensor: select it, reset and initialise it,
/// move it to its own address unless it keeps the factory one (and
/// initialise it again there), then start mid-range ranging.
pub open spec fn sensor_steps(b: SensorBinding) -> Seq<BringupStep> {
    let s = b.sensor;
    let head = seq![BringupStep::Select(s), BringupStep::Connect(s), BringupStep::SoftReset(s), BringupStep::Init(s)];
    let readdress = if b.bus_address != DEFAULT_BUS_ADDRESS {
        seq![BringupStep::SetAddress(s, b.bus_address), BringupStep::Init(s)]
    } else {
        seq![]
    };
    head + readdress + seq![BringupStep::StartRanging(s, RangingMode::Mid)]
}

/// The whole bring-up: the sensors' steps, one sensor after the other.
pub open spec fn plan_of(bs: Seq<SensorBinding>) -> Seq<BringupStep>
    decreases bs.len(),
{
    if bs.len() == 0 {
        seq![]
    } else {
        plan_of(bs.drop_last()) + sensor_steps(bs.last())
    }
}

/// The steps that bring up the sensor of `b`.
pub fn steps_for(b: &SensorBinding) -> (r: Vec<BringupStep>)
    ensures
        r@ == sensor_steps(*b),
{
    let s = b.sensor;
    let mut out: Vec<BringupStep> = Vec::new();
    out.push(BringupStep::Select(s));
    out.push(BringupStep::Connect(s));
    out.push(BringupStep::SoftReset(s));
    out.push(BringupStep::Init(s));
    if b.bus_address != DEFAULT_BUS_ADDRESS {
        out.push(BringupStep::SetAddress(s, b.bus_address));
        out.push(BringupStep::Init(s));
    }
    out.push(BringupStep::StartRanging(s, RangingMode::Mid));
    assert(out@ =~= sensor_steps(*b));
    out
}

/// The steps that bring up the sensors of `bs`, in the order given.
pub fn bringup_plan(bs: &Vec<SensorBinding>) -> (r: Vec<BringupStep>)
    ensures
        r@ == plan_of(bs@),
{
    let mut out: Vec<BringupStep> = Vec::new();
    let mut i: usize = 0;
    assert(bs@.take(0) =~= Seq::<SensorBinding>::empty());
    while i < bs.len()
        invariant
            i <= bs@.len(),
            out@ == plan_of(bs@.take(i as int)),
        decreases bs@.len() - i,
    {
        let mut block = steps_for(&bs[i]);
        out.append(&mut block);
        assert(bs@.take(i + 1).drop_last() =~= bs@.take(i as int));
        i = i + 1;
    }
    assert(bs@.take(i as int) =~= bs@);
    out
}

/// The bindings in bring-up order: the rear sensor moves to its own address,
/// then the mid sensor to another, and the front sensor keeps the factory one.
pub open spec fn standard_bindings(front_line: u32, mid_line: u32, rear_line: u32) -> Seq<SensorBinding> {
    seq![
        SensorBinding { sensor: SensorPosition::Rear, select_line: rear_line, bus_address: REAR_BUS_ADDRESS },
        SensorBinding { sensor: SensorPosition::Mid, select_line: mid_line, bus_address: MID_BUS_ADDRESS },
        SensorBinding { sensor: SensorPosition::Front, select_line: front_line, bus_address: DEFAULT_BUS_ADDRESS },
    ]
}

pub fn default_bindings(front_line: u32, mid_line: u32, rear_line: u32) -> (r: Vec<SensorBinding>)
    ensures
        r@ == standard_bindings(front_line, mid_line, rear_line),
{
    let mut out: Vec<SensorBinding> = Vec::new();
    out.push(SensorBinding::new(SensorPosition::Rear, rear_line, REAR_BUS_ADDRESS));
    out.push(SensorBinding::new(SensorPosition::Mid, mid_line, MID_BUS_ADDRESS));
    out.push(SensorBinding::new(SensorPosition::Front, front_line, DEFAULT_BUS_ADDRESS));
    assert(out@ =~= standard_bindings(front_line, mid_line, rear_line));
    out
}

/// Two bindings clash when they name the same sensor, the same select line
/// or the same bus address.
pub open spec fn clash(a: SensorBinding, b: SensorBinding) -> bool {
    a.sensor == b.sensor || a.select_line == b.select_line || a.bus_address == b.bus_address
}

pub open spec fn no_clash(bs: Seq<SensorBinding>) -> bool {
    forall|i: int, j: int| 0 <= i < j < bs.len() ==> !clash(bs[i], bs[j])
}

/// A bring-up that cannot go ahead.
#[derive(Clone, Copy, Debug, PartialEq, Eq, Structural)]
pub enum BringupError {
    /// The bindings at these two indices clash.
    Clash { first: usize, second: usize },
}

pub fn bindings_clash(a: &SensorBinding, b: &SensorBinding) -> (r: bool)
    ensures
        r == clash(*a, *b),
{
    a.sensor == b.sensor || a.select_line == b.select_line || a.bus_address == b.bus_address
}

/// Accepts the bindings when no two of them clash, else names a clashing pair.
pub fn check_bindings(bs: &Vec<SensorBinding>) -> (r: Result<(), BringupError>)
    ensures
        r is Ok <==> no_clash(bs@),
        r matches Err(BringupError::Clash { first, second }) ==> first < second < bs@.len()
            && clash(bs@[first as int], bs@[second as int]),
{
    let n = bs.len();
    let mut j: usize = 0;
    while j < n
        invariant
            n == bs@.len(),
            j <= n,
            forall|a: int, b: int| 0 <= a < b < j ==> !clash(bs@[a], bs@[b]),
        decreases n - j,
    {
        let mut i: usize = 0;
        while i < j
            invariant
                n == bs@.len(),
                i <= j < n,
                forall|a: int, b: int| 0 <= a < b < j ==> !clash(bs@[a], bs@[b]),
                forall|a: int| 0 <= a < i ==> !clash(bs@[a], bs@[j as int]),
            decreases j - i,
        {
            if bindings_clash(&bs[i], &bs[j]) {
                return Err(BringupError::Clash { first: i, second: j });
            }
            i = i + 1;
        }
        j = j + 1;
    }
    Ok(())
}

/// The level of each sensor's select line.
#[derive(Clone, Copy, Debug, PartialEq, Eq, Structural)]
pub struct LineLevels {
    pub front: bool,
    pub mid: bool,
    pub rear: bool,
}

/// Driving one sensor's select line to a level.
#[derive(Clone, Copy, Debug, PartialEq, Eq, Structural)]
pub struct LineWrite {
    pub sensor: SensorPosition,
    pub high: bool,
}

pub open spec fn high_count(l: LineLevels) -> nat {
    (if l.front { 1nat } else { 0nat }) + (if l.mid { 1nat } else { 0nat }) + (if l.rear { 1nat } else { 0nat })
}

/// The levels with only the line of `s` high.
pub open spec fn only_selected(s: SensorPosition) -> LineLevels {
    LineLevels {
        front: s == SensorPosition::Front,
        mid: s == SensorPosition::Mid,
        rear: s == SensorPosition::Rear,
    }
}

pub open spec fn apply_write(l: LineLevels, w: LineWrite) -> LineLevels {
    match w.sensor {
        SensorPosition::Front => LineLevels { front: w.high, ..l },
        SensorPosition::Mid => LineLevels { mid: w.high, ..l },
        SensorPosition::Rear => LineLevels { rear: w.high, ..l },
    }
}

/// The levels after the writes `ws`, made in order from `l`.
pub open spec fn apply_writes(l: LineLevels, ws: Seq<LineWrite>) -> LineLevels
    decreases ws.len(),
{
    if ws.len() == 0 {
        l
    } else {
        apply_write(apply_writes(l, ws.drop_last()), ws.last())
    }
}

/// The other two sensors, in a fixed order.
pub open spec fn others(s: SensorPosition) -> (SensorPosition, SensorPosition) {
    match s {
        SensorPosition::Front => (SensorPosition::Mid, SensorPosition::Rear),
        SensorPosition::Mid => (SensorPosition::Front, SensorPosition::Rear),
        SensorPosition::Rear => (SensorPosition::Front, SensorPosition::Mid),
    }
}

/// Selecting `s`: first the other two lines go low, then the line of `s` high.
pub open spec fn select_sequence(s: SensorPosition) -> Seq<LineWrite> {
    seq![
        LineWrite { sensor: others(s).0, high: false },
        LineWrite { sensor: others(s).1, high: false },
        LineWrite { sensor: s, high: true },
    ]
}

/// The line writes that carry out a `Select` step for `s`.
pub fn select_writes(s: SensorPosition) -> (r: Vec<LineWrite>)
    ensures
        r@ == select_sequence(s),
{
    let (a, b) = match s {
        SensorPosition::Front => (SensorPosition::Mid, SensorPosition::Rear),
        SensorPosition::Mid => (SensorPosition::Front, SensorPosition::Rear),
        SensorPosition::Rear => (SensorPosition::Front, SensorPosition::Mid),
    };
    let mut out: Vec<LineWrite> = Vec::new();
    out.push(LineWrite { sensor: a, high: false });
    out.push(LineWrite { sensor: b, high: false });
    out.push(LineWrite { sensor: s, high: true });
    assert(out@ =~= select_sequence(s));
    out
}

impl LineLevels {
    pub fn all_low() -> (r: LineLevels)
        ensures
            high_count(r) == 0,
            !r.front && !r.mid && !r.rear,
    {
        LineLevels { front: false, mid: false, rear: false }
    }

    /// Drives one line to the level that `w` names.
    pub fn apply(&mut self, w: &LineWrite)
        ensures
            *final(self) == apply_write(*old(self), *w),
    {
        match w.sensor {
            SensorPosition::Front => self.front = w.high,
            SensorPosition::Mid => self.mid = w.high,
            SensorPosition::Rear => self.rear = w.high,
        }
    }
}

/// Selecting a sensor, from levels where at most one line is high, never has
/// two lines high at once, and ends with only the selected sensor's line high.
pub proof fn lemma_select_exclusive(l: LineLevels, s: SensorPosition)
    requires
        high_count(l) <= 1,
    ensures
        forall|k: int| 0 <= k <= 3 ==> high_count(#[trigger] apply_writes(l, select_sequence(s).take(k))) <= 1,
        apply_writes(l, select_sequence(s)) == only_selected(s),
{
    let ws = select_sequence(s);
    assert(ws.take(0).len() == 0);
    assert(ws.take(1).drop_last() =~= ws.take(0));
    assert(ws.take(2).drop_last() =~= ws.take(1));
    assert(ws.take(3).drop_last() =~= ws.take(2));
    assert(ws.take(3) =~= ws);
    assert(apply_writes(l, ws.take(0)) == l);
    assert(ws.take(1).last() == ws[0]);
    assert(ws.take(2).last() == ws[1]);
    assert(ws.take(3).last() == ws[2]);
    let l1 = apply_writes(l, ws.take(1));
    let l2 = apply_writes(l, ws.take(2));
    let l3 = apply_writes(l, ws.take(3));
    assert(l1 == apply_write(l, ws[0]));
    assert(l2 == apply_write(l1, ws[1]));
    assert(l3 == apply_write(l2, ws[2]));
}

/// The standard bring-up selects the rear, mid and front sensors in turn;
/// it moves the rear and mid sensors to two distinct addresses of their own,
/// neither the factory one, and leaves the front sensor at the factory
/// address. With distinct select lines, no two bindings clash.
pub proof fn lemma_standard_bringup(front_line: u32, mid_line: u32, rear_line: u32)
    ensures
        ({
            let bs = standard_bindings(front_line, mid_line, rear_line);
            let rear = SensorPosition::Rear;
            let mid = SensorPosition::Mid;
            let front = SensorPosition::Front;
            &&& REAR_BUS_ADDRESS != MID_BUS_ADDRESS
            &&& REAR_BUS_ADDRESS != DEFAULT_BUS_ADDRESS
            &&& MID_BUS_ADDRESS != DEFAULT_BUS_ADDRESS
            &&& plan_of(bs) == seq![
                BringupStep::Select(rear),
                BringupStep::Connect(rear),
                BringupStep::SoftReset(rear),
                BringupStep::Init(rear),
                BringupStep::SetAddress(rear, REAR_BUS_ADDRESS),
                BringupStep::Init(rear),
                BringupStep::StartRanging(rear, RangingMode::Mid),
                BringupStep::Select(mid),
                BringupStep::Connect(mid),
                BringupStep::SoftReset(mid),
                BringupStep::Init(mid),
                BringupStep::SetAddress(mid, MID_BUS_ADDRESS),
                BringupStep::Init(mid),
                BringupStep::StartRanging(mid, RangingMode::Mid),
                BringupStep::Select(front),
                BringupStep::Connect(front),
                BringupStep::SoftReset(front),
                BringupStep::Init(front),
                BringupStep::StartRanging(front, RangingMode::Mid),
            ]
            &&& (front_line != mid_line && front_line != rear_line && mid_line != rear_line ==> no_clash(bs))
        }),
{
    let bs = standard_bindings(front_line, mid_line, rear_line);
    assert(bs.drop_last() =~= seq![bs[0], bs[1]]);
    assert(bs.drop_last().drop_last() =~= seq![bs[0]]);
    assert(bs.drop_last().drop_last().drop_last() =~= Seq::<SensorBinding>::empty());
    reveal_with_fuel(plan_of, 4);
    let rear = SensorPosition::Rear;
    let mid = SensorPosition::Mid;
    let front = SensorPosition::Front;
    assert(plan_of(bs) =~= seq![
        BringupStep::Select(rear),
        BringupStep::Connect(rear),
        BringupStep::SoftReset(rear),
        BringupStep::Init(rear),
        BringupStep::SetAddress(rear, REAR_BUS_ADDRESS),
        BringupStep::Init(rear),
        BringupStep::StartRanging(rear, RangingMode::Mid),
        BringupStep::Select(mid),
        BringupStep::Connect(mid),
        BringupStep::SoftReset(mid),
        BringupStep::Init(mid),
        BringupStep::SetAddress(mid, MID_BUS_ADDRESS),
        BringupStep::Init(mid),
        BringupStep::StartRanging(mid, RangingMode::Mid),
        BringupStep::Select(front),
        BringupStep::Connect(front),
        BringupStep::SoftReset(front),
        BringupStep::Init(front),
        BringupStep::StartRanging(front, RangingMode::Mid),
    ]);
}

/// The select-line writes that carrying out `steps` makes, in order.
pub open spec fn line_writes_of(steps: Seq<BringupStep>) -> Seq<LineWrite>
    decreases steps.len(),
{
    if steps.len() == 0 {
        seq![]
    } else {
        line_writes_of(steps.drop_last()) + match steps.last() {
            BringupStep::Select(s) => select_sequence(s),
            _ => seq![],
        }
    }
}

proof fn lemma_apply_writes_concat(l: LineLevels, a: Seq<LineWrite>, b: Seq<LineWrite>)
    ensures
        apply_writes(l, a + b) == apply_writes(apply_writes(l, a), b),
    decreases b.len(),
{
    if b.len() == 0 {
        assert(a + b =~= a);
    } else {
        assert((a + b).drop_last() =~= a + b.drop_last());
        assert((a + b).last() == b.last());
        lemma_apply_writes_concat(l, a, b.drop_last());
    }
}

/// Carrying out any bring-up plan from all lines low, with each `Select`
/// made of the writes of `select_writes`, never has two select lines high at
/// the same time.
pub proof fn lemma_plan_lines_exclusive(steps: Seq<BringupStep>, k: int)
    requires
        0 <= k <= line_writes_of(steps).len(),
    ensures
        high_count(apply_writes(LineLevels { front: false, mid: false, rear: false }, line_writes_of(steps).take(k))) <= 1,
    decreases steps.len(),
{
    let l0 = LineLevels { front: false, mid: false, rear: false };
    let ws = line_writes_of(steps);
    if steps.len() == 0 {
        assert(ws.take(k).len() == 0);
    } else {
        let w = line_writes_of(steps.drop_last());
        let tail = match steps.last() {
            BringupStep::Select(s) => select_sequence(s),
            _ => seq![],
        };
        assert(ws == w + tail);
        if k <= w.len() {
            assert(ws.take(k) =~= w.take(k));
            lemma_plan_lines_exclusive(steps.drop_last(), k);
        } else {
            let j = k - w.len();
            assert(ws.take(k) =~= w + tail.take(j));
            assert(w.take(w.len() as int) =~= w);
            lemma_plan_lines_exclusive(steps.drop_last(), w.len() as int);
            lemma_apply_writes_concat(l0, w, tail.take(j));
            match steps.last() {
                BringupStep::Select(s) => {
                    lemma_select_exclusive(apply_writes(l0, w), s);
                },
                _ => {},
            }
        }
    }
}

} // verus!
