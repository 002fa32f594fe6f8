//! The levels of the actuator outputs, as the commands received set them.

use vstd::prelude::*;
use crate::events::{Actuators, Command};

verus! {

/// The level of each actuator output (`true`: high, the actuator on).
#[derive(Clone, Copy, Debug, PartialEq, Eq, Structural)]
pub struct Outputs {
    pub water_pump: bool,
    pub lights: bool,
    pub humidifier: bool,
}

impl Outputs {
    pub open spec fn spec_level(self, a: Actuators) -> bool {
        match a {
            Actuators::WaterPump => self.water_pump,
            Actuators::Lights => self.lights,
            Actuators::Humidifier => self.humidifier,
        }
    }

    pub open spec fn with_level(self, a: Actuators, high: bool) -> Outputs {
        match a {
            Actuators::WaterPump => Outputs { water_pump: high, ..self },
            Actuators::Lights => Outputs { lights: high, ..self },
            Actuators::Humidifier => Outputs { humidifier: high, ..self },
        }
    }

    /// The levels after `c`: the actuator it names is driven to its level,
    /// every other output keeps its own.
    pub open spec fn spec_apply(self, c: Command) -> Outputs {
        match c.spec_actuation() {
            Some((a, high)) => self.with_level(a, high),
            None => self,
        }
    }

    pub fn new(water_pump: bool, lights: bool, humidifier: bool) -> (o: Self)
        ensures
            o == (Outputs { water_pump, lights, humidifier }),
    {
        Outputs { water_pump, lights, humidifier }
    }

    /// The level of the output of `a`.
    pub fn level(&self, a: Actuators) -> (high: bool)
        ensures
            high == self.spec_level(a),
    {
        match a {
            Actuators::WaterPump => self.water_pump,
            Actuators::Lights => self.lights,
            Actuators::Humidifier => self.humidifier,
        }
    }

    /// Takes command `c` into account, and gives the output to drive and
    /// the level to drive it to, if any.
    pub fn apply(&mut self, c: Command) -> (r: Option<(Actuators, bool)>)
        ensures
            *final(self) == old(self).spec_apply(c),
            r == c.spec_actuation(),
    {
        let r = c.actuation();
        match r {
            Some((Actuators::WaterPump, high)) => self.water_pump = high,
            Some((Actuators::Lights, high)) => self.lights = high,
            Some((Actuators::Humidifier, high)) => self.humidifier = high,
            None => {},
        }
        r
    }
}

/// The levels after the commands `cs`, taken in order.
pub open spec fn apply_all(o: Outputs, cs: Seq<Command>) -> Outputs
    decreases cs.len(),
{
    if cs.len() == 0 {
        o
    } else {
        apply_all(o, cs.drop_last()).spec_apply(cs.last())
    }
}

/// The level the last of `cs` that names `a` sets it to, if any names it.
pub open spec fn last_setting(cs: Seq<Command>, a: Actuators) -> Option<bool>
    decreases cs.len(),
{
    if cs.len() == 0 {
        None
    } else {
        match cs.last().spec_actuation() {
            Some((b, high)) if b == a => Some(high),
            _ => last_setting(cs.drop_last(), a),
        }
    }
}

/// After a sequence of commands, each output is at the level set by the
/// last command that names its actuator, and at its initial level where no
/// command names it.
pub proof fn lemma_levels_follow_last_command(o: Outputs, cs: Seq<Command>, a: Actuators)
    ensures
        apply_all(o, cs).spec_level(a) == match last_setting(cs, a) {
            Some(high) => high,
            None => o.spec_level(a),
        },
    decreases cs.len(),
{
    if cs.len() > 0 {
        lemma_levels_follow_last_command(o, cs.drop_last(), a);
    }
}

/// Taking the same command twice in a row does what taking it once does.
pub proof fn lemma_apply_idempotent(o: Outputs, c: Command)
    ensures
        o.spec_apply(c).spec_apply(c) == o.spec_apply(c),
{
}

/// Activating an actuator drives its output high, disabling it drives it
/// low, and a threshold drives nothing; the command names the output it
/// drives.
pub proof fn lemma_activate_high_disable_low(a: Actuators, n: u32)
    ensures
        Command::Activate(a).spec_actuation() == Some((a, true)),
        Command::Disable(a).spec_actuation() == Some((a, false)),
        Command::Threshold(n).spec_actuation() is None,
{
}

/// After `Activate(a)` the output of `a` is high, after `Disable(a)` it is
/// low; every other output keeps its level, and a threshold changes no
/// output.
pub proof fn lemma_apply_sets_only_named_output(o: Outputs, a: Actuators, b: Actuators, n: u32)
    ensures
        o.spec_apply(Command::Activate(a)).spec_level(a),
        !o.spec_apply(Command::Disable(a)).spec_level(a),
        b != a ==> o.spec_apply(Command::Activate(a)).spec_level(b) == o.spec_level(b),
        b != a ==> o.spec_apply(Command::Disable(a)).spec_level(b) == o.spec_level(b),
        o.spec_apply(Command::Threshold(n)) == o,
{
}

} // verus!
