//! Decoding of the audio server's property values into object data.

use vstd::prelude::*;

use crate::object::{direction_from_string, direction_of, opt_view, LinkData, PortData, PortView};

verus! {

/// Whether every character of `s` is an ASCII digit.
pub open spec fn all_digits(s: Seq<char>) -> bool {
    forall|i: int| 0 <= i < s.len() ==> '0' <= #[trigger] s[i] && s[i] <= '9'
}

/// The value of a string of decimal digits.
pub open spec fn decimal_value(s: Seq<char>) -> int
    decreases s.len(),
{
    if s.len() == 0 {
        0
    } else {
        decimal_value(s.drop_last()) * 10 + (s.last() as int - '0' as int)
    }
}

/// What `u32::from_str` accepts: an optional `+` followed by at least one digit, with a value
/// that fits.
pub open spec fn u32_of(s: Seq<char>) -> Option<u32> {
    let body = if s.len() > 0 && s[0] == '+' {
        s.drop_first()
    } else {
        s
    };
    if body.len() > 0 && all_digits(body) && decimal_value(body) <= u32::MAX {
        Some(decimal_value(body) as u32)
    } else {
        None
    }
}

/// Relies on `str::parse::<u32>` (`u32::from_str`): an optional `+` sign followed by decimal
/// digits whose value fits; anything else, whitespace included, is an error.
#[verifier::external_body]
fn parse_u32(s: &str) -> (r: Option<u32>)
    ensures
        r == u32_of(s@),
{
    s.parse::<u32>().ok()
}

/// The boolean that a property spells: `"true"` or `"false"`.
pub open spec fn bool_of(s: Seq<char>) -> Option<bool> {
    if s == "true"@ {
        Some(true)
    } else if s == "false"@ {
        Some(false)
    } else {
        None
    }
}

/// Decodes a boolean property value.
pub fn parse_bool(s: &str) -> (r: Option<bool>)
    ensures
        r == bool_of(s@),
{
    let v = s.to_owned();
    if String::eq(&v, &"true".to_owned()) {
        Some(true)
    } else if String::eq(&v, &"false".to_owned()) {
        Some(false)
    } else {
        None
    }
}

/// Decodes an id property value; values that do not parse are dropped.
pub fn parse_id(s: Option<&str>) -> (r: Option<u32>)
    ensures
        r == match s {
            Some(v) => u32_of(v@),
            None => None,
        },
{
    match s {
        Some(v) => parse_u32(v),
        None => None,
    }
}

fn opt_owned(s: Option<&str>) -> (r: Option<String>)
    ensures
        opt_view(r) == match s {
            Some(v) => Some(v@),
            None => None,
        },
{
    match s {
        Some(v) => Some(v.to_owned()),
        None => None,
    }
}

/// Port data from the `port.name`, `node.id`, `port.direction` and `port.terminal` properties.
/// A value that does not decode counts as absent.
pub fn port_data_from_props(
    name: Option<&str>,
    node_id: Option<&str>,
    direction: Option<&str>,
    terminal: Option<&str>,
) -> (r: PortData)
    ensures
        r@ == (PortView {
            name: match name {
                Some(v) => Some(v@),
                None => None,
            },
            node_id: match node_id {
                Some(v) => u32_of(v@),
                None => None,
            },
            direction: match direction {
                Some(v) => direction_of(v@),
                None => None,
            },
            is_terminal: match terminal {
                Some(v) => bool_of(v@),
                None => None,
            },
        }),
{
    PortData {
        name: opt_owned(name),
        node_id: parse_id(node_id),
        direction: match direction {
            Some(d) => direction_from_string(d),
            None => None,
        },
        is_terminal: match terminal {
            Some(t) => parse_bool(t),
            None => None,
        },
    }
}

/// Link data from the `link.input.port` and `link.output.port` properties and the link state:
/// `state` is `None` when the state is not reported, else whether it is the active state.
pub fn link_data_from_props(input_port: Option<&str>, output_port: Option<&str>, state: Option<bool>) -> (r: LinkData)
    ensures
        r == (LinkData {
            input_port: match input_port {
                Some(v) => u32_of(v@),
                None => None,
            },
            output_port: match output_port {
                Some(v) => u32_of(v@),
                None => None,
            },
            active: state,
        }),
{
    LinkData { input_port: parse_id(input_port), output_port: parse_id(output_port), active: state }
}

} // verus!
