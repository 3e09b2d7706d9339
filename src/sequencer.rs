//! Trigger evaluation: from one sample per sensor to the ordered list of axle
//! commands of that cycle.

use vstd::prelude::*;

verus! {

/// A sensor whose distance is strictly below this value is triggered.
pub const TRIGGER_THRESHOLD: u16 = 1100;

/// Pause between two polling cycles, in milliseconds.
pub const CYCLE_INTERVAL_MS: u64 = 10;

/// A physical axle slot, front to rear.
#[derive(Clone, Copy, Debug, PartialEq, Eq, Structural)]
pub enum AxlePosition {
    Front,
    Middle,
    Rear,
}

impl AxlePosition {
    /// The slot's number on the wire: 0, 1, 2 from front to rear.
    pub open spec fn spec_index(self) -> nat {
        match self {
            AxlePosition::Front => 0,
            AxlePosition::Middle => 1,
            AxlePosition::Rear => 2,
        }
    }

    pub fn index(&self) -> (r: u8)
        ensures
            r as nat == self.spec_index(),
    {
        match self {
            AxlePosition::Front => 0,
            AxlePosition::Middle => 1,
            AxlePosition::Rear => 2,
        }
    }

    pub fn from_index(i: u8) -> (r: Option<AxlePosition>)
        ensures
            r is Some <==> i < 3,
            r matches Some(a) ==> a.spec_index() == i as nat,
    {
        match i {
            0 => Some(AxlePosition::Front),
            1 => Some(AxlePosition::Middle),
            2 => Some(AxlePosition::Rear),
            _ => None,
        }
    }
}

/// The state an axle's solenoid is driven to.
#[derive(Clone, Copy, Debug, PartialEq, Eq, Structural)]
pub enum SolenoidState {
    Retracted,
    Deployed,
}

impl SolenoidState {
    /// The state's number on the wire: 0 retracted, 1 deployed.
    pub open spec fn spec_wire_value(self) -> nat {
        match self {
            SolenoidState::Retracted => 0,
            SolenoidState::Deployed => 1,
        }
    }

    pub fn wire_value(&self) -> (r: u8)
        ensures
            r as nat == self.spec_wire_value(),
    {
        match self {
            SolenoidState::Retracted => 0,
            SolenoidState::Deployed => 1,
        }
    }

    pub fn from_wire_value(v: u8) -> (r: Option<SolenoidState>)
        ensures
            r is Some <==> v < 2,
            r matches Some(s) ==> s.spec_wire_value() == v as nat,
    {
        match v {
            0 => Some(SolenoidState::Retracted),
            1 => Some(SolenoidState::Deployed),
            _ => None,
        }
    }
}

/// One instruction to the actuation service: drive `axle` to `state`.
#[derive(Clone, Copy, Debug, PartialEq, Eq, Structural)]
pub struct AxleCommand {
    pub axle: AxlePosition,
    pub state: SolenoidState,
}

impl AxleCommand {
    pub fn new(axle: AxlePosition, state: SolenoidState) -> (r: AxleCommand)
        ensures
            r == (AxleCommand { axle, state }),
    {
        AxleCommand { axle, state }
    }
}

/// One sample of each sensor, taken in the same cycle.
#[derive(Clone, Copy, Debug, PartialEq, Eq, Structural)]
pub struct Distances {
    pub front: u16,
    pub mid: u16,
    pub rear: u16,
}

impl Distances {
    pub fn new(front: u16, mid: u16, rear: u16) -> (r: Distances)
        ensures
            r == (Distances { front, mid, rear }),
    {
        Distances { front, mid, rear }
    }
}

pub open spec fn is_triggered(d: u16) -> bool {
    d < TRIGGER_THRESHOLD
}

pub open spec fn command(axle: AxlePosition, state: SolenoidState) -> AxleCommand {
    AxleCommand { axle, state }
}

/// A triggered front sensor deploys the front axle.
pub open spec fn front_commands(d: Distances) -> Seq<AxleCommand> {
    if is_triggered(d.front) {
        seq![command(AxlePosition::Front, SolenoidState::Deployed)]
    } else {
        seq![]
    }
}

/// A triggered mid sensor hands over from the front axle to the middle one.
pub open spec fn mid_commands(d: Distances) -> Seq<AxleCommand> {
    if is_triggered(d.mid) {
        seq![
            command(AxlePosition::Front, SolenoidState::Retracted),
            command(AxlePosition::Middle, SolenoidState::Deployed),
        ]
    } else {
        seq![]
    }
}

/// A triggered rear sensor hands over from the middle axle to the rear one.
pub open spec fn rear_commands(d: Distances) -> Seq<AxleCommand> {
    if is_triggered(d.rear) {
        seq![
            command(AxlePosition::Middle, SolenoidState::Retracted),
            command(AxlePosition::Rear, SolenoidState::Deployed),
        ]
    } else {
        seq![]
    }
}

/// The commands of one cycle, in the order they are sent: front, mid, rear.
pub open spec fn cycle_commands(d: Distances) -> Seq<AxleCommand> {
    front_commands(d) + mid_commands(d) + rear_commands(d)
}

/// When no sensor reads below the threshold, a cycle emits no command.
pub proof fn lemma_quiet_cycle(d: Distances)
    requires
        !is_triggered(d.front),
        !is_triggered(d.mid),
        !is_triggered(d.rear),
    ensures
        cycle_commands(d).len() == 0,
{
}

/// When only the front sensor is triggered, the cycle emits exactly one
/// command: the front axle is deployed.
pub proof fn lemma_front_only(d: Distances)
    requires
        is_triggered(d.front),
        !is_triggered(d.mid),
        !is_triggered(d.rear),
    ensures
        cycle_commands(d) == seq![command(AxlePosition::Front, SolenoidState::Deployed)],
{
    assert(cycle_commands(d) =~= seq![command(AxlePosition::Front, SolenoidState::Deployed)]);
}

/// A triggered mid sensor emits, whatever the front reads, the front axle's
/// retraction followed directly by the middle axle's deployment; only the
/// front-triggered command comes before the pair, only the rear-triggered
/// ones after it.
pub proof fn lemma_mid_pair(d: Distances)
    requires
        is_triggered(d.mid),
    ensures
        ({
            let cs = cycle_commands(d);
            let k = front_commands(d).len() as int;
            &&& cs.len() == k + 2 + rear_commands(d).len()
            &&& cs[k] == command(AxlePosition::Front, SolenoidState::Retracted)
            &&& cs[k + 1] == command(AxlePosition::Middle, SolenoidState::Deployed)
            &&& cs.take(k) == front_commands(d)
            &&& cs.skip(k + 2) == rear_commands(d)
        }),
{
    let cs = cycle_commands(d);
    let k = front_commands(d).len() as int;
    assert(cs.take(k) =~= front_commands(d));
    assert(cs.skip(k + 2) =~= rear_commands(d));
}

/// A triggered rear sensor emits the middle axle's retraction followed by the
/// rear axle's deployment, as the last two commands of the cycle.
pub proof fn lemma_rear_pair_last(d: Distances)
    requires
        is_triggered(d.rear),
    ensures
        ({
            let cs = cycle_commands(d);
            &&& cs.len() >= 2
            &&& cs[cs.len() - 2] == command(AxlePosition::Middle, SolenoidState::Retracted)
            &&& cs[cs.len() - 1] == command(AxlePosition::Rear, SolenoidState::Deployed)
        }),
{
}

pub fn is_below_threshold(distance: u16) -> (r: bool)
    ensures
        r == is_triggered(distance),
{
    distance < TRIGGER_THRESHOLD
}

/// Evaluates the three triggers of one cycle and lists the commands they emit.
pub fn commands_for(d: &Distances) -> (r: Vec<AxleCommand>)
    ensures
        r@ == cycle_commands(*d),
{
    let mut out: Vec<AxleCommand> = Vec::new();
    if is_below_threshold(d.front) {
        out.push(AxleCommand::new(AxlePosition::Front, SolenoidState::Deployed));
    }
    assert(out@ =~= front_commands(*d));
    if is_below_threshold(d.mid) {
        out.push(AxleCommand::new(AxlePosition::Front, SolenoidState::Retracted));
        out.push(AxleCommand::new(AxlePosition::Middle, SolenoidState::Deployed));
    }
    assert(out@ =~= front_commands(*d) + mid_commands(*d));
    if is_below_threshold(d.rear) {
        out.push(AxleCommand::new(AxlePosition::Middle, SolenoidState::Retracted));
        out.push(AxleCommand::new(AxlePosition::Rear, SolenoidState::Deployed));
    }
    assert(out@ =~= cycle_commands(*d));
    out
}

} // verus!
