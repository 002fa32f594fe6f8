//! Messages exchanged between the tasks: sensor readings, and commands for
//! the actuators.

use vstd::prelude::*;
use vstd::string::StringExecFns;

verus! {

/// Capacity of the sensor channel.
pub const SENSOR_CH_CAP: usize = 8;
/// Publishers of the sensor channel.
pub const SENSOR_CH_PUB: usize = 4;
/// Subscribers of the sensor channel.
pub const SENSOR_CH_SUB: usize = 1;

/// A reading of one sensor, with values of type `V`.
#[derive(Clone, Copy, Debug)]
pub enum Measurements<V> {
    /// Temperature, humidity, pressure.
    BME280(V, V, V),
    /// Illuminance in lux.
    BH1750(V),
    PH(V),
    TDS(V),
}

/// The JSON object that carries a reading whose values are already written
/// out as JSON numbers.
pub open spec fn json_of(m: Measurements<String>) -> Seq<char> {
    match m {
        Measurements::BME280(t, h, p) => "{\"temperature\":"@ + t@ + ",\"humidity\":"@ + h@
            + ",\"pressure\":"@ + p@ + "}"@,
        Measurements::BH1750(l) => "{\"lux\":"@ + l@ + "}"@,
        Measurements::PH(p) => "{\"ph\":"@ + p@ + "}"@,
        Measurements::TDS(t) => "{\"tds\":"@ + t@ + "}"@,
    }
}

impl Measurements<String> {
    /// Appends the reading to `buf` as a JSON object.
    pub fn to_json(&self, buf: &mut String)
        ensures
            final(buf)@ == old(buf)@ + json_of(*self),
    {
        match self {
            Measurements::BME280(t, h, p) => {
                buf.append("{\"temperature\":");
                buf.append(t.as_str());
                buf.append(",\"humidity\":");
                buf.append(h.as_str());
                buf.append(",\"pressure\":");
                buf.append(p.as_str());
                buf.append("}");
            },
            Measurements::BH1750(l) => {
                buf.append("{\"lux\":");
                buf.append(l.as_str());
                buf.append("}");
            },
            Measurements::PH(p) => {
                buf.append("{\"ph\":");
                buf.append(p.as_str());
                buf.append("}");
            },
            Measurements::TDS(t) => {
                buf.append("{\"tds\":");
                buf.append(t.as_str());
                buf.append("}");
            },
        }
    }
}

/// The name of the topic a reading is published under: the sensor's name.
pub open spec fn topic_of<V>(m: Measurements<V>) -> Seq<char> {
    match m {
        Measurements::BME280(..) => "bme280"@,
        Measurements::BH1750(_) => "bh1750"@,
        Measurements::PH(_) => "ph"@,
        Measurements::TDS(_) => "tds"@,
    }
}

impl<V> Measurements<V> {
    /// The sub-topic the reading is published under.
    pub fn get_topic(&self) -> (t: &'static str)
        ensures
            t@ == topic_of(*self),
    {
        match self {
            Measurements::BME280(..) => "bme280",
            Measurements::BH1750(_) => "bh1750",
            Measurements::PH(_) => "ph",
            Measurements::TDS(_) => "tds",
        }
    }
}

/// The actuators the pot drives.
#[derive(Clone, Copy, Debug, PartialEq, Eq, Structural)]
pub enum Actuators {
    WaterPump,
    Lights,
    Humidifier,
}

/// A command received for the pot.
#[derive(Clone, Copy, Debug, PartialEq, Eq, Structural)]
pub enum Command {
    /// Switch the actuator on.
    Activate(Actuators),
    /// Switch the actuator off.
    Disable(Actuators),
    /// A threshold setting, which is not acted upon.
    Threshold(u32),
}

impl Command {
    pub open spec fn spec_actuation(self) -> Option<(Actuators, bool)> {
        match self {
            Command::Activate(a) => Some((a, true)),
            Command::Disable(a) => Some((a, false)),
            Command::Threshold(_) => None,
        }
    }

    /// The output to drive and the level to drive it to (`true`: high),
    /// or `None` where the command drives nothing.
    pub fn actuation(&self) -> (r: Option<(Actuators, bool)>)
        ensures
            r == self.spec_actuation(),
    {
        match *self {
            Command::Activate(a) => Some((a, true)),
            Command::Disable(a) => Some((a, false)),
            Command::Threshold(_) => None,
        }
    }
}

} // verus!
