//! MQTT link to the broker: addressing, topic names, and the command
//! messages received on the commands topic.

use vstd::prelude::*;
use vstd::string::{StrSliceExecFns, StringExecFns};

verus! {

/// Address of the broker (no name resolution is done).
pub const BROKER_IP: &'static str = "192.168.58.176";
/// TLS port of the broker.
pub const BROKER_PORT: u16 = 8883;
/// Prefix of every topic of the device.
pub const TOPIC_PREFIX: &'static str = "smartpot/v1/";
/// Client identifier sent on connect.
pub const CLIENT_ID: &'static str = "esp32-smartpot-v1";
/// User name sent on connect.
pub const USER_NAME: &'static str = "esp32-smartpot";
/// Keep-alive interval, in seconds.
pub const KEEP_ALIVE_SECS: u16 = 60;
/// Pause before a new connection attempt after a failure, in seconds.
pub const RECONNECT_DELAY_SECS: u64 = 5;
/// Longest wait for an incoming event before the pending readings are
/// published, in seconds.
pub const POLL_TIMEOUT_SECS: u64 = 5;

/// `prefix` + hardware address + `/`: the root of the device's topics.
pub fn topic_base(hardware_address: &str) -> (r: String)
    ensures
        r@ == TOPIC_PREFIX@ + hardware_address@ + "/"@,
{
    let mut r = String::from_str(TOPIC_PREFIX);
    r.append(hardware_address);
    r.append("/");
    r
}

/// The topic the device takes commands from.
pub fn commands_topic(base: &str) -> (r: String)
    ensures
        r@ == base@ + "commands"@,
{
    let mut r = String::from_str(base);
    r.append("commands");
    r
}

/// The root of the topics the device publishes readings under.
pub fn sensors_topic(base: &str) -> (r: String)
    ensures
        r@ == base@ + "sensors"@,
{
    let mut r = String::from_str(base);
    r.append("sensors");
    r
}

/// The topic for the readings of the sensor called `sensor`.
pub fn sensor_topic(sensors_base: &str, sensor: &str) -> (r: String)
    ensures
        r@ == sensors_base@ + "/"@ + sensor@,
{
    let mut r = String::from_str(sensors_base);
    r.append("/");
    r.append(sensor);
    r
}

/// Splits a command message `name:argument` at its first `:`; `None` where
/// the message holds no `:`.
pub fn split_command(msg: &str) -> (r: Option<(&str, &str)>)
    ensures
        r is None <==> !msg@.contains(':'),
        r matches Some((name, arg)) ==> {
            &&& msg@ == name@ + seq![':'] + arg@
            &&& !name@.contains(':')
        },
{
    let n = msg.unicode_len();
    let mut i: usize = 0;
    while i < n
        invariant
            i <= n,
            n == msg@.len(),
            forall|j: int| 0 <= j < i ==> msg@[j] != ':',
        decreases n - i,
    {
        if msg.get_char(i) == ':' {
            let name = msg.substring_char(0, i);
            let arg = msg.substring_char(i + 1, n);
            proof {
                assert(msg@ =~= name@ + seq![':'] + arg@);
                assert(msg@.contains(':')) by {
                    assert(msg@[i as int] == ':');
                }
                assert forall|j: int| 0 <= j < name@.len() implies name@[j] != ':' by {
                    assert(name@[j] == msg@[j]);
                }
            }
            return Some((name, arg));
        }
        i = i + 1;
    }
    None
}

/// A message splits in one way only: whatever two messages `name:arg`
/// with a `name` free of `:` are equal, their names and arguments are
/// equal. So the pair that [`split_command`] returns is the name before
/// the first `:` and the rest after it.
pub proof fn lemma_split_is_unique(n1: Seq<char>, a1: Seq<char>, n2: Seq<char>, a2: Seq<char>)
    requires
        !n1.contains(':'),
        !n2.contains(':'),
        n1 + seq![':'] + a1 == n2 + seq![':'] + a2,
    ensures
        n1 == n2,
        a1 == a2,
{
    let m = n1 + seq![':'] + a1;
    if n1.len() < n2.len() {
        assert(m[n1.len() as int] == ':');
        assert(n2[n1.len() as int] == (n2 + seq![':'] + a2)[n1.len() as int]);
        assert(n2.contains(':'));
    } else if n2.len() < n1.len() {
        assert((n2 + seq![':'] + a2)[n2.len() as int] == ':');
        assert(n1[n2.len() as int] == m[n2.len() as int]);
        assert(n1.contains(':'));
    }
    assert(n1 =~= m.subrange(0, n1.len() as int));
    assert(n2 =~= (n2 + seq![':'] + a2).subrange(0, n2.len() as int));
    assert(a1 =~= m.subrange(n1.len() + 1int, m.len() as int));
    assert(a2 =~= (n2 + seq![':'] + a2).subrange(n2.len() + 1int, m.len() as int));
}

} // verus!
