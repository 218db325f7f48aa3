use vstd::prelude::*;
use vstd::string::*;

use crate::config::{find_entry, lookup, DeviceConfig, DpType};
use crate::text::str_eq;
use crate::translate::{device_value, ha_to_tuya};

verus! {

/// A value written to one datapoint.
#[derive(Debug, Clone, PartialEq)]
pub enum DpValue {
    Bool(bool),
    Int(i64),
    Text(String),
}

/// A written value as the contracts see it.
pub enum DpValueModel {
    Bool(bool),
    Int(i64),
    Text(Seq<char>),
}

impl View for DpValue {
    type V = DpValueModel;

    open spec fn view(&self) -> DpValueModel {
        match self {
            DpValue::Bool(b) => DpValueModel::Bool(*b),
            DpValue::Int(n) => DpValueModel::Int(*n),
            DpValue::Text(s) => DpValueModel::Text(s@),
        }
    }
}

/// A command for one device: the values to write, keyed by `dp_id`.
#[derive(Debug, Clone)]
pub struct DpCommand {
    pub dps: Vec<(String, DpValue)>,
}

impl View for DpCommand {
    type V = Seq<(Seq<char>, DpValueModel)>;

    open spec fn view(&self) -> Seq<(Seq<char>, DpValueModel)> {
        self.dps@.map_values(|e: (String, DpValue)| (e.0@, e.1@))
    }
}

/// Boolean literals accepted in a command: `true`, `1`, `on` and `false`, `0`, `off`.
pub open spec fn bool_of(s: Seq<char>) -> Option<bool> {
    if s == "true"@ || s == "1"@ || s == "on"@ {
        Some(true)
    } else if s == "false"@ || s == "0"@ || s == "off"@ {
        Some(false)
    } else {
        None
    }
}

/// Reads a boolean command value; the literals are case-sensitive.
pub fn parse_bool(s: &str) -> (r: Option<bool>)
    ensures
        r == bool_of(s@),
{
    proof {
        reveal_strlit("true");
        reveal_strlit("1");
        reveal_strlit("on");
        reveal_strlit("false");
        reveal_strlit("0");
        reveal_strlit("off");
    }
    if str_eq(s, "true") || str_eq(s, "1") || str_eq(s, "on") {
        Some(true)
    } else if str_eq(s, "false") || str_eq(s, "0") || str_eq(s, "off") {
        Some(false)
    } else {
        None
    }
}

pub open spec fn is_digit(c: char) -> bool {
    '0' <= c && c <= '9'
}

/// Value of a string of decimal digits.
pub open spec fn digits_value(s: Seq<char>) -> int
    decreases s.len(),
{
    if s.len() == 0 {
        0
    } else {
        digits_value(s.drop_last()) * 10 + ((s.last() as u32) - ('0' as u32))
    }
}

/// A decimal integer with an optional sign, as `i64`'s `FromStr` reads it:
/// at least one digit, nothing else, and a value in range.
pub open spec fn decimal_i64(s: Seq<char>) -> Option<i64> {
    let neg = s.len() > 0 && s[0] == '-';
    let digits = if s.len() > 0 && (s[0] == '-' || s[0] == '+') {
        s.drop_first()
    } else {
        s
    };
    let v = if neg {
        -digits_value(digits)
    } else {
        digits_value(digits)
    };
    if digits.len() > 0 && (forall|i: int| 0 <= i < digits.len() ==> is_digit(digits[i])) && i64::MIN
        <= v <= i64::MAX {
        Some(v as i64)
    } else {
        None
    }
}

/// Relies on `str::parse::<i64>`: an optional sign and decimal digits, in range.
#[verifier::external_body]
fn parse_i64(s: &str) -> (r: Option<i64>)
    ensures
        r == decimal_i64(s@),
{
    s.parse::<i64>().ok()
}

/// The integer written for an Integer datapoint: the text read as a decimal
/// integer, else `truncated`, the text read as a floating-point number and
/// truncated toward zero.
pub open spec fn integer_of(raw: Seq<char>, truncated: Option<i64>) -> Option<i64> {
    match decimal_i64(raw) {
        Some(n) => Some(n),
        None => truncated,
    }
}

/// The values that a command for `dp_code` with payload `raw` writes to the device.
pub open spec fn command_for(
    config: DeviceConfig,
    dp_code: Seq<char>,
    raw: Seq<char>,
    truncated: Option<i64>,
) -> Option<Seq<(Seq<char>, DpValueModel)>> {
    match lookup(config.reverse_mapping@, dp_code) {
        None => None,
        Some(dp_id) => match lookup(config.dp_mapping@, dp_id@) {
            None => None,
            Some(info) => {
                let converted = device_value(dp_code, raw);
                let switch = lookup(config.reverse_mapping@, "switch"@);
                if dp_code == "mode"@ && switch is Some {
                    if raw == "off"@ {
                        Some(seq![(switch->0@, DpValueModel::Bool(false))])
                    } else {
                        Some(
                            seq![
                                (switch->0@, DpValueModel::Bool(true)),
                                (dp_id@, DpValueModel::Text(converted)),
                            ],
                        )
                    }
                } else {
                    match info.dp_type {
                        DpType::Boolean => match bool_of(raw) {
                            Some(b) => Some(seq![(dp_id@, DpValueModel::Bool(b))]),
                            None => None,
                        },
                        DpType::Integer => match integer_of(raw, truncated) {
                            Some(n) => Some(seq![(dp_id@, DpValueModel::Int(n))]),
                            None => None,
                        },
                        DpType::Enum(_) => Some(seq![(dp_id@, DpValueModel::Text(converted))]),
                        DpType::Bitmap => None,
                    }
                }
            },
        },
    }
}

/// Builds the command for a datapoint code and a payload, using the device's tables.
/// `truncated` is the payload read as a floating-point number and truncated toward
/// zero, used for Integer datapoints whose payload is not a decimal integer.
pub fn build_command(config: &DeviceConfig, dp_code: &str, raw_value: &str, truncated: Option<i64>) -> (r:
    Option<DpCommand>)
    ensures
        match r {
            Some(cmd) => command_for(*config, dp_code@, raw_value@, truncated) == Some(cmd@),
            None => command_for(*config, dp_code@, raw_value@, truncated) is None,
        },
{
    proof {
        reveal_strlit("mode");
        reveal_strlit("switch");
        reveal_strlit("off");
    }
    let ri = match find_entry(&config.reverse_mapping, dp_code) {
        Some(i) => i,
        None => return None,
    };
    let dp_id = &config.reverse_mapping[ri].1;
    let di = match find_entry(&config.dp_mapping, dp_id.as_str()) {
        Some(i) => i,
        None => return None,
    };
    let info = &config.dp_mapping[di].1;
    let converted = ha_to_tuya(dp_code, raw_value);
    if str_eq(dp_code, "mode") {
        if let Some(si) = find_entry(&config.reverse_mapping, "switch") {
            let switch_id = config.reverse_mapping[si].1.clone();
            let mut dps: Vec<(String, DpValue)> = Vec::new();
            if str_eq(raw_value, "off") {
                dps.push((switch_id, DpValue::Bool(false)));
            } else {
                dps.push((switch_id, DpValue::Bool(true)));
                dps.push((dp_id.clone(), DpValue::Text(converted)));
            }
            let cmd = DpCommand { dps };
            assert(cmd@ =~= command_for(*config, dp_code@, raw_value@, truncated)->0);
            return Some(cmd);
        }
    }
    let value = match &info.dp_type {
        DpType::Boolean => match parse_bool(raw_value) {
            Some(b) => DpValue::Bool(b),
            None => return None,
        },
        DpType::Integer => match parse_i64(raw_value) {
            Some(n) => DpValue::Int(n),
            None => match truncated {
                Some(n) => DpValue::Int(n),
                None => return None,
            },
        },
        DpType::Enum(_) => DpValue::Text(converted),
        DpType::Bitmap => return None,
    };
    let mut dps: Vec<(String, DpValue)> = Vec::new();
    dps.push((dp_id.clone(), value));
    let cmd = DpCommand { dps };
    assert(cmd@ =~= command_for(*config, dp_code@, raw_value@, truncated)->0);
    Some(cmd)
}

} // verus!
