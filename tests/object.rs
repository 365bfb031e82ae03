use audio_idle_inhibit::object::{direction_from_string, opt_string_eq, Direction, LinkData, NodeData, PortData};

fn s(v: &str) -> Option<String> {
    Some(v.to_string())
}

#[test]
fn display_name_prefers_description_then_nick_then_name() {
    let mut n = NodeData::empty();
    assert_eq!(n.get_name(), None);
    n.name = s("alsa_output");
    assert_eq!(n.get_name(), Some("alsa_output"));
    n.nick = s("HDA");
    assert_eq!(n.get_name(), Some("HDA"));
    n.description = s("Built-in Audio");
    assert_eq!(n.get_name(), Some("Built-in Audio"));
    n.app_name = s("firefox");
    assert_eq!(n.get_name(), Some("Built-in Audio"));
}

#[test]
fn node_update_merges_present_fields() {
    let mut n = NodeData::empty();
    n.name = s("a");
    n.media_class = s("Audio/Sink");
    let mut delta = NodeData::empty();
    delta.media_role = s("Music");
    assert!(n.update(delta));
    assert_eq!(n.name, s("a"));
    assert_eq!(n.media_class, s("Audio/Sink"));
    assert_eq!(n.media_role, s("Music"));
    let mut same = NodeData::empty();
    same.name = s("a");
    assert!(!n.update(same));
    assert!(!n.update(NodeData::empty()));
}

#[test]
fn node_join_and_is_empty() {
    let mut old = NodeData::empty();
    old.name = s("old");
    old.nick = s("nick");
    let mut new = NodeData::empty();
    new.name = s("new");
    let j = NodeData::join(old, new);
    assert_eq!(j.name, s("new"));
    assert_eq!(j.nick, s("nick"));
    assert!(NodeData::empty().is_empty());
    assert!(!j.is_empty());
}

#[test]
fn port_update_and_join() {
    let mut p = PortData::empty();
    assert!(p.is_empty());
    let delta = PortData { name: None, node_id: Some(7), direction: Some(Direction::Output), is_terminal: None };
    assert!(p.update(delta.clone()));
    assert_eq!(p.node_id, Some(7));
    assert_eq!(p.direction, Some(Direction::Output));
    assert!(!p.update(delta));
    let j = PortData::join(p, PortData { name: s("out_FL"), node_id: None, direction: None, is_terminal: Some(true) });
    assert_eq!(j.node_id, Some(7));
    assert_eq!(j.name, s("out_FL"));
    assert_eq!(j.is_terminal, Some(true));
}

#[test]
fn link_update_join_and_is_empty() {
    let mut l = LinkData { input_port: Some(1), output_port: Some(2), active: Some(false) };
    assert!(l.update(LinkData { input_port: None, output_port: None, active: Some(true) }));
    assert_eq!(l, LinkData { input_port: Some(1), output_port: Some(2), active: Some(true) });
    assert!(!l.update(LinkData { input_port: Some(1), output_port: None, active: None }));
    let j = LinkData::join(l, LinkData { input_port: Some(9), output_port: None, active: None });
    assert_eq!(j, LinkData { input_port: Some(9), output_port: Some(2), active: Some(true) });
    assert!(LinkData { input_port: None, output_port: None, active: None }.is_empty());
    assert!(!j.is_empty());
}

#[test]
fn direction_names() {
    assert_eq!(direction_from_string("in"), Some(Direction::Input));
    assert_eq!(direction_from_string("out"), Some(Direction::Output));
    assert_eq!(direction_from_string("In"), None);
    assert_eq!(direction_from_string(""), None);
}

#[test]
fn optional_strings_compare_by_value() {
    assert!(opt_string_eq(&s("x"), &s("x")));
    assert!(!opt_string_eq(&s("x"), &s("y")));
    assert!(!opt_string_eq(&s("x"), &None));
    assert!(opt_string_eq(&None, &None));
}
