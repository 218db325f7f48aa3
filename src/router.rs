use vstd::prelude::*;

use crate::command::{build_command, command_for, DpCommand, DpValueModel};
use crate::config::DeviceConfig;
use crate::publish::MqttMessage;
use crate::text::str_eq;
use crate::topic::{command_topic_parts, parse_command_topic};

verus! {

/// Index of the first device whose topic name is `name`.
pub open spec fn first_device(devices: Seq<DeviceConfig>, name: Seq<char>) -> Option<int>
    decreases devices.len(),
{
    if devices.len() == 0 {
        None
    } else if devices[0].topic_name@ == name {
        Some(0)
    } else {
        match first_device(devices.drop_first(), name) {
            Some(i) => Some(i + 1),
            None => None,
        }
    }
}

/// Where a broker message goes: the index of the device that its topic names
/// and the values to write to it; nothing for a malformed topic, an unknown
/// device or a value that no command can carry.
pub open spec fn route(
    devices: Seq<DeviceConfig>,
    prefix: Seq<char>,
    topic: Seq<char>,
    payload: Seq<char>,
    truncated: Option<i64>,
) -> Option<(int, Seq<(Seq<char>, DpValueModel)>)> {
    match command_topic_parts(topic, prefix) {
        None => None,
        Some((name, code)) => match first_device(devices, name) {
            None => None,
            Some(i) => match command_for(devices[i], code, payload, truncated) {
                None => None,
                Some(c) => Some((i, c)),
            },
        },
    }
}

proof fn lemma_first_device(devices: Seq<DeviceConfig>, name: Seq<char>, k: int)
    requires
        0 <= k <= devices.len(),
        forall|j: int| 0 <= j < k ==> devices[j].topic_name@ != name,
        k == devices.len() || devices[k].topic_name@ == name,
    ensures
        first_device(devices, name) == if k == devices.len() {
            None
        } else {
            Some(k)
        },
    decreases k,
{
    if k > 0 {
        lemma_first_device(devices.drop_first(), name, k - 1);
    }
}

/// Finds the device whose topic name is `name`.
pub fn find_device(devices: &Vec<DeviceConfig>, name: &str) -> (r: Option<usize>)
    ensures
        match r {
            Some(i) => i < devices@.len() && first_device(devices@, name@) == Some(i as int),
            None => first_device(devices@, name@) is None,
        },
{
    let mut i: usize = 0;
    while i < devices.len()
        invariant
            i <= devices@.len(),
            forall|j: int| 0 <= j < i ==> devices@[j].topic_name@ != name@,
        decreases devices.len() - i,
    {
        if str_eq(devices[i].topic_name.as_str(), name) {
            proof {
                lemma_first_device(devices@, name@, i as int);
            }
            return Some(i);
        }
        i = i + 1;
    }
    proof {
        lemma_first_device(devices@, name@, i as int);
    }
    None
}

/// Turns a broker message into a command for one device. `truncated` is the
/// payload read as a floating-point number and truncated toward zero.
pub fn route_command(
    devices: &Vec<DeviceConfig>,
    prefix: &str,
    msg: &MqttMessage,
    truncated: Option<i64>,
) -> (r: Option<(usize, DpCommand)>)
    ensures
        match r {
            Some((i, cmd)) => route(devices@, prefix@, msg.topic@, msg.payload@, truncated) == Some(
                (i as int, cmd@),
            ),
            None => route(devices@, prefix@, msg.topic@, msg.payload@, truncated) is None,
        },
{
    let (name, code) = match parse_command_topic(msg.topic.as_str(), prefix) {
        Some(p) => p,
        None => return None,
    };
    let i = match find_device(devices, name.as_str()) {
        Some(i) => i,
        None => return None,
    };
    match build_command(&devices[i], code.as_str(), msg.payload.as_str(), truncated) {
        Some(cmd) => Some((i, cmd)),
        None => None,
    }
}

} // verus!
