use vstd::prelude::*;
use vstd::string::*;

use crate::config::{find_entry, lookup, DeviceConfig};
use crate::publish::DpUpdate;
use crate::translate::{bridge_value, tuya_to_ha};

verus! {

/// A datapoint value as a device reports it.
#[derive(Debug, Clone)]
pub enum RawDpValue {
    Bool(bool),
    /// A number, in its decimal text.
    Number(String),
    Text(String),
    /// Any other value, as JSON text.
    Other(String),
}

/// A reported value as the contracts see it.
pub enum RawDpModel {
    Bool(bool),
    Number(Seq<char>),
    Text(Seq<char>),
    Other(Seq<char>),
}

impl View for RawDpValue {
    type V = RawDpModel;

    open spec fn view(&self) -> RawDpModel {
        match self {
            RawDpValue::Bool(b) => RawDpModel::Bool(*b),
            RawDpValue::Number(s) => RawDpModel::Number(s@),
            RawDpValue::Text(s) => RawDpModel::Text(s@),
            RawDpValue::Other(s) => RawDpModel::Other(s@),
        }
    }
}

/// Readings `(dp_id, value)` as the contracts see them.
pub open spec fn readings_model(v: Seq<(String, RawDpValue)>) -> Seq<(Seq<char>, RawDpModel)> {
    v.map_values(|e: (String, RawDpValue)| (e.0@, e.1@))
}

/// The shapes in which a device message carries its datapoints.
#[derive(Debug, Clone)]
pub enum DevicePayload {
    /// A structured payload; `None` where it holds no datapoint map.
    Struct(Option<Vec<(String, RawDpValue)>>),
    /// Text holding JSON whose `dps` field is the datapoint map.
    Text(String),
    /// Raw bytes, which carry no usable datapoints.
    Raw,
}

/// One message received from a device.
#[derive(Debug, Clone)]
pub struct DeviceMessage {
    /// Whether the message acknowledges a heartbeat.
    pub heartbeat: bool,
    pub payload: DevicePayload,
}

/// The readings in the `dps` map of the JSON text `text`, in the order in which
/// the JSON library walks that map; `None` where the text is not JSON or has no
/// `dps` object.
pub uninterp spec fn json_dps(text: Seq<char>) -> Option<Seq<(Seq<char>, RawDpModel)>>;

/// Relies on `serde_json::from_str` and `Value::get("dps")`/`as_object` to read the
/// datapoint map of a JSON text; each value is taken by its JSON kind.
#[verifier::external_body]
fn dps_in_json_text(text: &str) -> (r: Option<Vec<(String, RawDpValue)>>)
    ensures
        match r {
            Some(v) => json_dps(text@) == Some(readings_model(v@)),
            None => json_dps(text@) is None,
        },
{
    let v: serde_json::Value = serde_json::from_str(text).ok()?;
    let map = v.get("dps")?.as_object()?;
    Some(map.iter().map(|(k, x)| (k.clone(), match x {
        serde_json::Value::Bool(b) => RawDpValue::Bool(*b),
        serde_json::Value::Number(n) => RawDpValue::Number(n.to_string()),
        serde_json::Value::String(s) => RawDpValue::Text(s.clone()),
        other => RawDpValue::Other(other.to_string()),
    })).collect())
}

/// The readings that a payload carries; none for a raw payload, a structured one
/// without a datapoint map, or a text that holds no `dps` object.
pub open spec fn payload_readings(p: DevicePayload) -> Seq<(Seq<char>, RawDpModel)> {
    match p {
        DevicePayload::Struct(Some(v)) => readings_model(v@),
        DevicePayload::Struct(None) => Seq::empty(),
        DevicePayload::Text(t) => match json_dps(t@) {
            Some(r) => r,
            None => Seq::empty(),
        },
        DevicePayload::Raw => Seq::empty(),
    }
}

/// The readings of a sequence of messages, in order, heartbeat acknowledgements left out.
pub open spec fn message_readings(msgs: Seq<DeviceMessage>) -> Seq<(Seq<char>, RawDpModel)>
    decreases msgs.len(),
{
    if msgs.len() == 0 {
        Seq::empty()
    } else {
        message_readings(msgs.drop_last()) + if msgs.last().heartbeat {
            Seq::empty()
        } else {
            payload_readings(msgs.last().payload)
        }
    }
}

fn copy_readings(v: &Vec<(String, RawDpValue)>) -> (r: Vec<(String, RawDpValue)>)
    ensures
        readings_model(r@) == readings_model(v@),
{
    let mut r: Vec<(String, RawDpValue)> = Vec::new();
    let mut i: usize = 0;
    while i < v.len()
        invariant
            i <= v@.len(),
            readings_model(r@) =~= readings_model(v@.subrange(0, i as int)),
        decreases v.len() - i,
    {
        let value = match &v[i].1 {
            RawDpValue::Bool(b) => RawDpValue::Bool(*b),
            RawDpValue::Number(s) => RawDpValue::Number(s.clone()),
            RawDpValue::Text(s) => RawDpValue::Text(s.clone()),
            RawDpValue::Other(s) => RawDpValue::Other(s.clone()),
        };
        r.push((v[i].0.clone(), value));
        proof {
            assert(readings_model(v@.subrange(0, i + 1)) =~= readings_model(v@.subrange(0, i as int)).push(
                (v@[i as int].0@, v@[i as int].1@),
            ));
        }
        i = i + 1;
    }
    assert(v@.subrange(0, v@.len() as int) =~= v@);
    r
}

/// Takes the readings out of a payload, whichever shape carries them.
pub fn readings_of(p: &DevicePayload) -> (r: Vec<(String, RawDpValue)>)
    ensures
        readings_model(r@) == payload_readings(*p),
{
    let none: Vec<(String, RawDpValue)> = Vec::new();
    assert(readings_model(none@) =~= Seq::empty());
    match p {
        DevicePayload::Struct(Some(v)) => copy_readings(v),
        DevicePayload::Struct(None) => none,
        DevicePayload::Text(t) => match dps_in_json_text(t.as_str()) {
            Some(v) => v,
            None => none,
        },
        DevicePayload::Raw => none,
    }
}

/// The code under which a reading of `dp_id` is published: the code of the
/// device's table, or the id itself where the table has no entry for it.
pub open spec fn reading_code(config: DeviceConfig, dp_id: Seq<char>) -> Seq<char> {
    match lookup(config.dp_mapping@, dp_id) {
        Some(info) => info.code@,
        None => dp_id,
    }
}

/// The text published for a reported value: booleans and numbers verbatim,
/// strings through the enum table of the code.
pub open spec fn reading_text(dp_code: Seq<char>, v: RawDpModel) -> Seq<char> {
    match v {
        RawDpModel::Bool(b) => if b {
            "true"@
        } else {
            "false"@
        },
        RawDpModel::Number(s) => s,
        RawDpModel::Text(s) => bridge_value(dp_code, s),
        RawDpModel::Other(s) => s,
    }
}

/// `u` is the state update that a reading `(dp_id, v)` of a device becomes.
pub open spec fn update_for(config: DeviceConfig, reading: (Seq<char>, RawDpModel), u: DpUpdate) -> bool {
    let code = reading_code(config, reading.0);
    &&& u.topic_name@ == config.topic_name@
    &&& u.dp_code@ == code
    &&& u.value@ == reading_text(code, reading.1)
}

/// The session of one device.
#[derive(Debug, Clone)]
pub struct TuyaClient {
    pub config: DeviceConfig,
}

impl TuyaClient {
    pub fn new(config: DeviceConfig) -> (r: TuyaClient)
        ensures
            r.config == config,
    {
        TuyaClient { config }
    }

    /// Translates readings into state updates, one per reading and in the same
    /// order. Ids without a table entry keep their id as code.
    pub fn process_message(&self, dps: &Vec<(String, RawDpValue)>) -> (r: Vec<DpUpdate>)
        ensures
            r@.len() == dps@.len(),
            forall|i: int|
                0 <= i < dps@.len() ==> update_for(
                    self.config,
                    readings_model(dps@)[i],
                    #[trigger] r@[i],
                ),
    {
        let mut out: Vec<DpUpdate> = Vec::new();
        let mut i: usize = 0;
        while i < dps.len()
            invariant
                i <= dps@.len(),
                out@.len() == i,
                forall|j: int|
                    0 <= j < i ==> update_for(
                        self.config,
                        readings_model(dps@)[j],
                        #[trigger] out@[j],
                    ),
            decreases dps.len() - i,
        {
            let dp_id = &dps[i].0;
            let code = match find_entry(&self.config.dp_mapping, dp_id.as_str()) {
                Some(k) => self.config.dp_mapping[k].1.code.clone(),
                None => dp_id.clone(),
            };
            let value = match &dps[i].1 {
                RawDpValue::Bool(b) => if *b {
                    String::from_str("true")
                } else {
                    String::from_str("false")
                },
                RawDpValue::Number(s) => s.clone(),
                RawDpValue::Text(s) => tuya_to_ha(code.as_str(), s.as_str()),
                RawDpValue::Other(s) => s.clone(),
            };
            proof {
                reveal_strlit("true");
                reveal_strlit("false");
            }
            out.push(DpUpdate { topic_name: self.config.topic_name.clone(), dp_code: code, value });
            i = i + 1;
        }
        out
    }

    /// Translates the readings of a batch of device messages into state updates,
    /// in order; heartbeat acknowledgements carry none.
    pub fn process_messages(&self, msgs: &Vec<DeviceMessage>) -> (r: Vec<DpUpdate>)
        ensures
            r@.len() == message_readings(msgs@).len(),
            forall|i: int|
                0 <= i < r@.len() ==> update_for(
                    self.config,
                    message_readings(msgs@)[i],
                    #[trigger] r@[i],
                ),
    {
        let mut all: Vec<(String, RawDpValue)> = Vec::new();
        let mut i: usize = 0;
        while i < msgs.len()
            invariant
                i <= msgs@.len(),
                readings_model(all@) == message_readings(msgs@.subrange(0, i as int)),
            decreases msgs.len() - i,
        {
            proof {
                assert(msgs@.subrange(0, i + 1).drop_last() =~= msgs@.subrange(0, i as int));
            }
            if !msgs[i].heartbeat {
                let mut more = readings_of(&msgs[i].payload);
                let ghost before = all@;
                all.append(&mut more);
                proof {
                    assert(readings_model(all@) =~= readings_model(before) + payload_readings(
                        msgs@[i as int].payload,
                    ));
                }
            } else {
                assert(readings_model(all@) =~= message_readings(msgs@.subrange(0, i + 1)));
            }
            i = i + 1;
        }
        assert(msgs@.subrange(0, msgs@.len() as int) =~= msgs@);
        self.process_message(&all)
    }
}

} // verus!
