use vstd::prelude::*;
use vstd::string::*;

use crate::text::str_eq;

verus! {

/// Index of the first `/` in `s`, or its length where there is none.
pub open spec fn first_slash(s: Seq<char>) -> int
    decreases s.len(),
{
    if s.len() == 0 {
        0
    } else if s[0] == '/' {
        0
    } else {
        1 + first_slash(s.drop_first())
    }
}

/// The device topic name and the datapoint code of a command topic
/// `{prefix}/{topic_name}/command/{dp_code}`, both non-empty.
pub open spec fn command_topic_parts(topic: Seq<char>, prefix: Seq<char>) -> Option<
    (Seq<char>, Seq<char>),
> {
    let p = prefix.len() as int;
    if topic.len() > p && topic.subrange(0, p) == prefix && topic[p] == '/' {
        let rest = topic.subrange(p + 1, topic.len() as int);
        let k = first_slash(rest);
        if k < rest.len() {
            let name = rest.subrange(0, k);
            let after = rest.subrange(k + 1, rest.len() as int);
            if after.len() >= 8 && after.subrange(0, 8) == "command/"@ && name.len() > 0
                && after.len() > 8 {
                Some((name, after.subrange(8, after.len() as int)))
            } else {
                None
            }
        } else {
            None
        }
    } else {
        None
    }
}

proof fn lemma_first_slash(s: Seq<char>, k: int)
    requires
        0 <= k <= s.len(),
        forall|j: int| 0 <= j < k ==> s[j] != '/',
        k == s.len() || s[k] == '/',
    ensures
        first_slash(s) == k,
    decreases k,
{
    if k > 0 {
        lemma_first_slash(s.drop_first(), k - 1);
    }
}

/// Splits a command topic into its device topic name and datapoint code.
pub fn parse_command_topic(topic: &str, prefix: &str) -> (r: Option<(String, String)>)
    ensures
        match r {
            Some((name, code)) => command_topic_parts(topic@, prefix@) == Some((name@, code@)),
            None => command_topic_parts(topic@, prefix@) is None,
        },
{
    proof {
        reveal_strlit("command/");
    }
    let n = topic.unicode_len();
    let p = prefix.unicode_len();
    if n <= p {
        return None;
    }
    if !str_eq(topic.substring_char(0, p), prefix) {
        return None;
    }
    if topic.get_char(p) != '/' {
        return None;
    }
    let rest = topic.substring_char(p + 1, n);
    let rn = rest.unicode_len();
    let mut k: usize = 0;
    while k < rn && rest.get_char(k) != '/'
        invariant
            rn == rest@.len(),
            k <= rn,
            forall|j: int| 0 <= j < k ==> rest@[j] != '/',
        decreases rn - k,
    {
        k = k + 1;
    }
    proof {
        lemma_first_slash(rest@, k as int);
    }
    if k == rn {
        return None;
    }
    let name = rest.substring_char(0, k);
    let after = rest.substring_char(k + 1, rn);
    let an = after.unicode_len();
    if an < 8 {
        return None;
    }
    if !str_eq(after.substring_char(0, 8), "command/") {
        return None;
    }
    if k == 0 || an == 8 {
        return None;
    }
    let code = after.substring_char(8, an);
    Some((String::from_str(name), String::from_str(code)))
}

/// Topic on which the state of one datapoint is published.
pub fn state_topic(prefix: &str, topic_name: &str, dp_code: &str) -> (r: String)
    ensures
        r@ == prefix@ + "/"@ + topic_name@ + "/state/"@ + dp_code@,
{
    String::from_str(prefix).concat("/").concat(topic_name).concat("/state/").concat(dp_code)
}

/// Codes of high-frequency telemetry, published without the retain flag.
pub open spec fn is_telemetry_code(dp_code: Seq<char>) -> bool {
    dp_code == "solar_power"@ || dp_code == "grid_power"@ || dp_code == "grid_percent"@
}

/// Whether the state of a datapoint is published as a retained message.
pub fn is_retained(dp_code: &str) -> (r: bool)
    ensures
        r == !is_telemetry_code(dp_code@),
{
    proof {
        reveal_strlit("solar_power");
        reveal_strlit("grid_power");
        reveal_strlit("grid_percent");
    }
    !(str_eq(dp_code, "solar_power") || str_eq(dp_code, "grid_power") || str_eq(
        dp_code,
        "grid_percent",
    ))
}

} // verus!
