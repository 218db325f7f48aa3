use vstd::prelude::*;
use vstd::string::*;

use crate::text::{push_char, str_eq};

verus! {

/// Connection settings of the message broker.
#[derive(Debug, Clone)]
pub struct MqttConfig {
    pub broker_host: String,
    pub broker_port: u16,
    pub username: Option<String>,
    pub password: Option<String>,
    pub topic_prefix: String,
    pub client_id: String,
}

/// Settings shared by all device sessions.
#[derive(Debug, Clone)]
pub struct TuyaConfig {
    pub poll_interval_secs: u64,
}

/// Declared type of a datapoint.
#[derive(Debug, Clone)]
pub enum DpType {
    Boolean,
    Integer,
    /// Allowed values, in the order the device listing gives them.
    Enum(Vec<String>),
    Bitmap,
}

/// What a datapoint id stands for on a device.
#[derive(Debug, Clone)]
pub struct DpInfo {
    pub code: String,
    pub dp_type: DpType,
}

/// One configured device, with its datapoint table and the inverse of it.
#[derive(Debug, Clone)]
pub struct DeviceConfig {
    pub id: String,
    pub key: String,
    /// Network address, as text.
    pub ip: String,
    pub name: String,
    /// Sanitized name for use in topics (lowercase, other characters to underscores).
    pub topic_name: String,
    /// `dp_id` to code and type; the first entry with a given id counts.
    pub dp_mapping: Vec<(String, DpInfo)>,
    /// Code to `dp_id`; the first entry with a given code counts.
    pub reverse_mapping: Vec<(String, String)>,
}

/// The whole bridge configuration.
#[derive(Debug, Clone)]
pub struct Config {
    pub mqtt: MqttConfig,
    pub tuya: TuyaConfig,
    pub devices: Vec<DeviceConfig>,
}

/// Why a configuration is refused at startup.
#[derive(Debug, Clone, Copy, PartialEq, Eq, Structural)]
pub enum ConfigError {
    EmptyBrokerHost,
    NoDevices,
    ZeroPollInterval,
}

/// First entry of `m` whose key is `key`.
pub open spec fn lookup<V>(m: Seq<(String, V)>, key: Seq<char>) -> Option<V>
    decreases m.len(),
{
    if m.len() == 0 {
        None
    } else if m[0].0@ == key {
        Some(m[0].1)
    } else {
        lookup(m.drop_first(), key)
    }
}

/// Finds the first entry of `m` whose key is `key`.
pub fn find_entry<V>(m: &Vec<(String, V)>, key: &str) -> (r: Option<usize>)
    ensures
        match r {
            Some(i) => i < m@.len() && lookup(m@, key@) == Some(m@[i as int].1),
            None => lookup(m@, key@) is None,
        },
{
    let mut i: usize = 0;
    assert(m@.subrange(0, m@.len() as int) =~= m@);
    while i < m.len()
        invariant
            i <= m@.len(),
            lookup(m@, key@) == lookup(m@.subrange(i as int, m@.len() as int), key@),
        decreases m.len() - i,
    {
        let ghost rest = m@.subrange(i as int, m@.len() as int);
        assert(rest.drop_first() =~= m@.subrange(i + 1, m@.len() as int));
        if str_eq(m[i].0.as_str(), key) {
            return Some(i);
        }
        i = i + 1;
    }
    None
}

pub open spec fn is_ascii_alnum(c: char) -> bool {
    ('0' <= c && c <= '9') || ('a' <= c && c <= 'z') || ('A' <= c && c <= 'Z')
}

/// ASCII lowercase of a character; other characters stay as they are.
pub open spec fn ascii_lower(c: char) -> char {
    if 'A' <= c && c <= 'Z' {
        ((c as u32) + 32) as char
    } else {
        c
    }
}

/// The character that stands for `c` in a topic segment.
pub open spec fn topic_char(c: char) -> char {
    if is_ascii_alnum(c) {
        ascii_lower(c)
    } else {
        '_'
    }
}

pub open spec fn trim_start(s: Seq<char>) -> Seq<char>
    decreases s.len(),
{
    if s.len() > 0 && s[0] == '_' {
        trim_start(s.drop_first())
    } else {
        s
    }
}

pub open spec fn trim_end(s: Seq<char>) -> Seq<char>
    decreases s.len(),
{
    if s.len() > 0 && s.last() == '_' {
        trim_end(s.drop_last())
    } else {
        s
    }
}

/// A device name as a topic segment: each character mapped by `topic_char`,
/// then underscores stripped from both ends.
pub open spec fn topic_segment(name: Seq<char>) -> Seq<char> {
    trim_end(trim_start(name.map_values(|c: char| topic_char(c))))
}

proof fn lemma_trim_start(s: Seq<char>, lo: int)
    requires
        0 <= lo <= s.len(),
        forall|j: int| 0 <= j < lo ==> s[j] == '_',
        lo == s.len() || s[lo] != '_',
    ensures
        trim_start(s) == s.subrange(lo, s.len() as int),
    decreases lo,
{
    if lo == 0 {
        assert(s.subrange(0, s.len() as int) =~= s);
    } else {
        lemma_trim_start(s.drop_first(), lo - 1);
        assert(s.drop_first().subrange(lo - 1, s.len() - 1) =~= s.subrange(lo, s.len() as int));
    }
}

proof fn lemma_trim_end(s: Seq<char>, hi: int)
    requires
        0 <= hi <= s.len(),
        forall|j: int| hi <= j < s.len() ==> s[j] == '_',
        hi == 0 || s[hi - 1] != '_',
    ensures
        trim_end(s) == s.subrange(0, hi),
    decreases s.len() - hi,
{
    if hi == s.len() {
        assert(s.subrange(0, hi) =~= s);
    } else {
        lemma_trim_end(s.drop_last(), hi);
        assert(s.drop_last().subrange(0, hi) =~= s.subrange(0, hi));
    }
}

fn lower_char(c: char) -> (r: char)
    ensures
        r == ascii_lower(c),
{
    if 'A' <= c && c <= 'Z' {
        ((c as u8) + 32) as char
    } else {
        c
    }
}

fn is_alnum(c: char) -> (r: bool)
    ensures
        r == is_ascii_alnum(c),
{
    ('0' <= c && c <= '9') || ('a' <= c && c <= 'z') || ('A' <= c && c <= 'Z')
}

/// Converts a device name into a topic segment: "Solar Heat Pump" becomes "solar_heat_pump".
pub fn sanitize_topic_name(name: &str) -> (r: String)
    ensures
        r@ == topic_segment(name@),
{
    let ghost m = name@.map_values(|c: char| topic_char(c));
    let n = name.unicode_len();
    let mut lo: usize = 0;
    while lo < n && !is_alnum(name.get_char(lo))
        invariant
            n == name@.len(),
            m == name@.map_values(|c: char| topic_char(c)),
            lo <= n,
            forall|j: int| 0 <= j < lo ==> m[j] == '_',
        decreases n - lo,
    {
        lo = lo + 1;
    }
    let mut hi: usize = n;
    while hi > lo && !is_alnum(name.get_char(hi - 1))
        invariant
            n == name@.len(),
            m == name@.map_values(|c: char| topic_char(c)),
            lo <= hi <= n,
            forall|j: int| hi <= j < n ==> m[j] == '_',
        decreases hi,
    {
        hi = hi - 1;
    }
    proof {
        lemma_trim_start(m, lo as int);
        lemma_trim_end(m.subrange(lo as int, n as int), hi - lo);
    }
    let mut r = String::new();
    let mut i: usize = lo;
    while i < hi
        invariant
            n == name@.len(),
            m == name@.map_values(|c: char| topic_char(c)),
            lo <= i <= hi <= n,
            r@ =~= m.subrange(lo as int, i as int),
        decreases hi - i,
    {
        let c = name.get_char(i);
        let t = if is_alnum(c) {
            lower_char(c)
        } else {
            '_'
        };
        push_char(&mut r, t);
        i = i + 1;
    }
    assert(m.subrange(lo as int, n as int).subrange(0, hi - lo) =~= m.subrange(lo as int, hi as int));
    r
}

/// The type that a device listing's type name declares; an unknown name reads as Integer.
pub open spec fn dp_type_of(kind: Seq<char>, range: Vec<String>) -> DpType {
    if kind == "Boolean"@ {
        DpType::Boolean
    } else if kind == "Enum"@ {
        DpType::Enum(range)
    } else if kind == "Bitmap"@ {
        DpType::Bitmap
    } else {
        DpType::Integer
    }
}

/// Reads a datapoint type from its name in a device listing; `range` holds the
/// allowed values listed for an Enum.
pub fn parse_dp_type(kind: &str, range: Vec<String>) -> (r: DpType)
    ensures
        r == dp_type_of(kind@, range),
{
    proof {
        reveal_strlit("Boolean");
        reveal_strlit("Enum");
        reveal_strlit("Bitmap");
    }
    if str_eq(kind, "Boolean") {
        DpType::Boolean
    } else if str_eq(kind, "Enum") {
        DpType::Enum(range)
    } else if str_eq(kind, "Bitmap") {
        DpType::Bitmap
    } else {
        DpType::Integer
    }
}

/// No two entries of a datapoint table have the same id.
pub open spec fn distinct_ids(m: Seq<(String, DpInfo)>) -> bool {
    forall|i: int, j: int|
        #![trigger m[i], m[j]]
        0 <= i < j < m.len() ==> m[i].0@ != m[j].0@
}

impl DeviceConfig {
    /// Well-formed device: its datapoint ids are distinct, and the inverse table
    /// holds, entry by entry, the code and the id of each datapoint.
    pub open spec fn wf(&self) -> bool {
        &&& distinct_ids(self.dp_mapping@)
        &&& self.reverse_mapping@.len() == self.dp_mapping@.len()
        &&& forall|i: int|
            0 <= i < self.dp_mapping@.len() ==> #[trigger] self.reverse_mapping@[i] == (
                self.dp_mapping@[i].1.code,
                self.dp_mapping@[i].0,
            )
    }

    /// A device from its listing: the name defaults to the id, the topic name is
    /// the sanitized name, and the inverse table maps each code back to its id.
    pub fn from_listing(
        id: String,
        key: String,
        ip: String,
        name: Option<String>,
        dp_mapping: Vec<(String, DpInfo)>,
    ) -> (r: DeviceConfig)
        ensures
            r.id == id,
            r.key == key,
            r.ip == ip,
            r.name@ == (match name {
                Some(n) => n@,
                None => id@,
            }),
            r.topic_name@ == topic_segment(r.name@),
            r.dp_mapping == dp_mapping,
            distinct_ids(dp_mapping@) ==> r.wf(),
            r.reverse_mapping@.len() == dp_mapping@.len(),
            forall|i: int|
                0 <= i < dp_mapping@.len() ==> #[trigger] r.reverse_mapping@[i] == (
                    dp_mapping@[i].1.code,
                    dp_mapping@[i].0,
                ),
    {
        let name = match name {
            Some(n) => n,
            None => id.clone(),
        };
        let topic_name = sanitize_topic_name(name.as_str());
        let mut reverse_mapping: Vec<(String, String)> = Vec::new();
        let mut i: usize = 0;
        while i < dp_mapping.len()
            invariant
                i <= dp_mapping@.len(),
                reverse_mapping@.len() == i,
                forall|j: int|
                    0 <= j < i ==> #[trigger] reverse_mapping@[j] == (
                        dp_mapping@[j].1.code,
                        dp_mapping@[j].0,
                    ),
            decreases dp_mapping.len() - i,
        {
            reverse_mapping.push((dp_mapping[i].1.code.clone(), dp_mapping[i].0.clone()));
            i = i + 1;
        }
        DeviceConfig { id, key, ip, name, topic_name, dp_mapping, reverse_mapping }
    }
}

impl Config {
    /// Topic of the availability marker of one device.
    pub fn device_status_topic(&self, topic_name: &str) -> (r: String)
        ensures
            r@ == self.mqtt.topic_prefix@ + "/"@ + topic_name@ + "/bridge_status"@,
    {
        String::from_str(self.mqtt.topic_prefix.as_str()).concat("/").concat(topic_name).concat(
            "/bridge_status",
        )
    }

    /// Filter that matches every command topic of one device.
    pub fn device_command_topic(&self, topic_name: &str) -> (r: String)
        ensures
            r@ == self.mqtt.topic_prefix@ + "/"@ + topic_name@ + "/command/#"@,
    {
        String::from_str(self.mqtt.topic_prefix.as_str()).concat("/").concat(topic_name).concat(
            "/command/#",
        )
    }

    /// Topic of the marker shared by all devices, and of the single device's
    /// marker when exactly one device is configured.
    pub open spec fn bridge_status_topic(&self) -> Seq<char> {
        self.mqtt.topic_prefix@ + "/bridge_status"@
    }

    /// Topic on which the broker publishes "offline" when the bridge drops.
    pub fn last_will_topic(&self) -> (r: String)
        ensures
            r@ == self.bridge_status_topic(),
    {
        String::from_str(self.mqtt.topic_prefix.as_str()).concat("/bridge_status")
    }

    /// Topics of the availability markers published as "online" on connecting:
    /// the shared topic alone when exactly one device is configured, else one
    /// topic per device, in the order of the devices.
    pub fn status_topics(&self) -> (r: Vec<String>)
        ensures
            self.devices@.len() == 1 ==> r@.len() == 1 && r@[0]@ == self.bridge_status_topic(),
            self.devices@.len() != 1 ==> r@.len() == self.devices@.len() && forall|i: int|
                0 <= i < r@.len() ==> #[trigger] r@[i]@ == self.mqtt.topic_prefix@ + "/"@
                    + self.devices@[i].topic_name@ + "/bridge_status"@,
    {
        let mut r: Vec<String> = Vec::new();
        if self.devices.len() == 1 {
            r.push(self.last_will_topic());
            return r;
        }
        let mut i: usize = 0;
        while i < self.devices.len()
            invariant
                self.devices@.len() != 1,
                i <= self.devices@.len(),
                r@.len() == i,
                forall|j: int|
                    0 <= j < i ==> #[trigger] r@[j]@ == self.mqtt.topic_prefix@ + "/"@
                        + self.devices@[j].topic_name@ + "/bridge_status"@,
            decreases self.devices.len() - i,
        {
            r.push(self.device_status_topic(self.devices[i].topic_name.as_str()));
            i = i + 1;
        }
        r
    }

    /// The checks made on a configuration before the bridge starts.
    pub open spec fn check(&self) -> Result<(), ConfigError> {
        if self.mqtt.broker_host@.len() == 0 {
            Err(ConfigError::EmptyBrokerHost)
        } else if self.devices@.len() == 0 {
            Err(ConfigError::NoDevices)
        } else if self.tuya.poll_interval_secs == 0 {
            Err(ConfigError::ZeroPollInterval)
        } else {
            Ok(())
        }
    }

    /// Refuses an empty broker host, an empty device list and a zero poll interval.
    pub fn validate(&self) -> (r: Result<(), ConfigError>)
        ensures
            r == self.check(),
    {
        if self.mqtt.broker_host.unicode_len() == 0 {
            return Err(ConfigError::EmptyBrokerHost);
        }
        if self.devices.len() == 0 {
            return Err(ConfigError::NoDevices);
        }
        if self.tuya.poll_interval_secs == 0 {
            return Err(ConfigError::ZeroPollInterval);
        }
        Ok(())
    }
}

} // verus!
