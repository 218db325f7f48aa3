use vstd::prelude::*;
use vstd::string::*;

use crate::text::str_eq;

verus! {

/// Value of an enum datapoint as the bridge publishes it, given the device's value.
pub open spec fn bridge_value(dp_code: Seq<char>, value: Seq<char>) -> Seq<char> {
    if dp_code == "mode"@ {
        if value == "cold"@ {
            "cool"@
        } else if value == "hot"@ {
            "heat"@
        } else if value == "wind"@ {
            "fan_only"@
        } else {
            value
        }
    } else if dp_code == "fan_speed_enum"@ {
        if value == "mid"@ {
            "medium"@
        } else {
            value
        }
    } else {
        value
    }
}

/// Value of an enum datapoint as the device expects it, given the bridge's value.
pub open spec fn device_value(dp_code: Seq<char>, value: Seq<char>) -> Seq<char> {
    if dp_code == "mode"@ {
        if value == "cool"@ {
            "cold"@
        } else if value == "heat"@ {
            "hot"@
        } else if value == "fan_only"@ {
            "wind"@
        } else {
            value
        }
    } else if dp_code == "fan_speed_enum"@ {
        if value == "medium"@ {
            "mid"@
        } else {
            value
        }
    } else {
        value
    }
}

/// Converts a bridge-side enum value to the value the device understands.
pub fn ha_to_tuya(dp_code: &str, value: &str) -> (r: String)
    ensures
        r@ == device_value(dp_code@, value@),
{
    proof {
        reveal_strlit("mode");
        reveal_strlit("fan_speed_enum");
        reveal_strlit("cool");
        reveal_strlit("heat");
        reveal_strlit("fan_only");
        reveal_strlit("medium");
    }
    if str_eq(dp_code, "mode") {
        if str_eq(value, "cool") {
            String::from_str("cold")
        } else if str_eq(value, "heat") {
            String::from_str("hot")
        } else if str_eq(value, "fan_only") {
            String::from_str("wind")
        } else {
            String::from_str(value)
        }
    } else if str_eq(dp_code, "fan_speed_enum") {
        if str_eq(value, "medium") {
            String::from_str("mid")
        } else {
            String::from_str(value)
        }
    } else {
        String::from_str(value)
    }
}

/// Converts a device-side enum value to the value the bridge publishes.
pub fn tuya_to_ha(dp_code: &str, value: &str) -> (r: String)
    ensures
        r@ == bridge_value(dp_code@, value@),
{
    proof {
        reveal_strlit("mode");
        reveal_strlit("fan_speed_enum");
        reveal_strlit("cold");
        reveal_strlit("hot");
        reveal_strlit("wind");
        reveal_strlit("mid");
    }
    if str_eq(dp_code, "mode") {
        if str_eq(value, "cold") {
            String::from_str("cool")
        } else if str_eq(value, "hot") {
            String::from_str("heat")
        } else if str_eq(value, "wind") {
            String::from_str("fan_only")
        } else {
            String::from_str(value)
        }
    } else if str_eq(dp_code, "fan_speed_enum") {
        if str_eq(value, "mid") {
            String::from_str("medium")
        } else {
            String::from_str(value)
        }
    } else {
        String::from_str(value)
    }
}

/// Round trip of enum values: a device value, translated for the bridge and back,
/// is the value itself. This holds for every value that the device-bound table
/// leaves as it is, which are all the values a device can report but the
/// bridge-side names `cool`, `heat`, `fan_only` of `mode` and `medium` of
/// `fan_speed_enum`.
pub proof fn lemma_enum_round_trip(dp_code: Seq<char>, v: Seq<char>)
    requires
        device_value(dp_code, v) == v,
    ensures
        device_value(dp_code, bridge_value(dp_code, v)) == v,
{
    reveal_strlit("mode");
    reveal_strlit("fan_speed_enum");
    reveal_strlit("cool");
    reveal_strlit("heat");
    reveal_strlit("fan_only");
    reveal_strlit("medium");
    reveal_strlit("cold");
    reveal_strlit("hot");
    reveal_strlit("wind");
    reveal_strlit("mid");
    assert("heat"@[0] != "cool"@[0]);
    assert("heat"@ != "cool"@);
}

/// Codes without an enum table leave values unchanged in both directions.
pub proof fn lemma_unmapped_identity(dp_code: Seq<char>, v: Seq<char>)
    requires
        dp_code != "mode"@,
        dp_code != "fan_speed_enum"@,
    ensures
        bridge_value(dp_code, v) == v,
        device_value(dp_code, v) == v,
{
}

} // verus!
