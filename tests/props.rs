use audio_idle_inhibit::object::Direction;
use audio_idle_inhibit::props::{link_data_from_props, parse_bool, parse_id, port_data_from_props};

#[test]
fn ids_parse_as_decimal_u32() {
    assert_eq!(parse_id(Some("42")), Some(42));
    assert_eq!(parse_id(Some("+7")), Some(7));
    assert_eq!(parse_id(Some("4294967295")), Some(u32::MAX));
    assert_eq!(parse_id(Some("4294967296")), None);
    assert_eq!(parse_id(Some("-1")), None);
    assert_eq!(parse_id(Some(" 1")), None);
    assert_eq!(parse_id(Some("")), None);
    assert_eq!(parse_id(None), None);
}

#[test]
fn booleans_parse() {
    assert_eq!(parse_bool("true"), Some(true));
    assert_eq!(parse_bool("false"), Some(false));
    assert_eq!(parse_bool("True"), None);
}

#[test]
fn port_and_link_data() {
    let p = port_data_from_props(Some("in_FL"), Some("12"), Some("in"), Some("false"));
    assert_eq!(p.name.as_deref(), Some("in_FL"));
    assert_eq!(p.node_id, Some(12));
    assert_eq!(p.direction, Some(Direction::Input));
    assert_eq!(p.is_terminal, Some(false));
    let q = port_data_from_props(None, Some("x"), Some("sideways"), None);
    assert!(q.is_empty());
    let l = link_data_from_props(Some("3"), Some("4"), Some(true));
    assert_eq!((l.input_port, l.output_port, l.active), (Some(3), Some(4), Some(true)));
}
