use audio_idle_inhibit::filter::{NodeFilter, Pattern, SinkFilter};
use audio_idle_inhibit::graph::PWGraph;
use audio_idle_inhibit::object::{Direction, LinkData, NodeData, PWObject, PWObjectData, PortData};
use std::collections::HashSet;

fn node(media_class: Option<&str>) -> PWObject {
    let mut data = NodeData::empty();
    data.media_class = media_class.map(|s| s.to_string());
    PWObject::Node { data }
}

fn named_node(app_name: &str) -> PWObject {
    let mut data = NodeData::empty();
    data.app_name = Some(app_name.to_string());
    PWObject::Node { data }
}

fn port(node_id: u32, direction: Direction) -> PWObject {
    PWObject::Port {
        data: PortData { name: None, node_id: Some(node_id), direction: Some(direction), is_terminal: None },
    }
}

fn link(input: u32, output: u32, active: bool) -> PWObject {
    PWObject::Link {
        data: LinkData { input_port: Some(input), output_port: Some(output), active: Some(active) },
    }
}

fn set(ids: &[u32]) -> HashSet<u32> {
    ids.iter().copied().collect()
}

fn producer_graph(active: bool, producer: PWObject, blacklist: Vec<NodeFilter>) -> PWGraph {
    let mut g = PWGraph::new(vec![], blacklist);
    g.insert(1, node(Some("Audio/Sink")));
    g.insert(2, port(1, Direction::Input));
    g.insert(3, producer);
    g.insert(4, link(2, 20, active));
    g.insert(20, port(3, Direction::Output));
    g
}

#[test]
fn active_sink_with_producer() {
    let g = producer_graph(true, node(None), vec![]);
    assert_eq!(g.get_active_sinks(), set(&[1]));
}

#[test]
fn inactive_link() {
    let g = producer_graph(false, node(None), vec![]);
    assert_eq!(g.get_active_sinks(), set(&[]));
}

#[test]
fn blacklist_filter() {
    let f = NodeFilter::new(None, Some(Pattern::new("^browser$").unwrap()), None, None, None);
    let g = producer_graph(true, named_node("browser"), vec![f]);
    assert_eq!(g.get_active_sinks(), set(&[]));
}

#[test]
fn blacklist_not_matching_keeps_sink_active() {
    let f = NodeFilter::new(None, Some(Pattern::new("^browser$").unwrap()), None, None, None);
    let g = producer_graph(true, named_node("music-player"), vec![f]);
    assert_eq!(g.get_active_sinks(), set(&[1]));
}

#[test]
fn adding_blacklist_filter_never_enlarges_active_sinks() {
    let without = producer_graph(true, named_node("browser"), vec![]);
    let f = NodeFilter::new(None, Some(Pattern::new("brow").unwrap()), None, None, None);
    let with = producer_graph(true, named_node("browser"), vec![f]);
    assert!(with.get_active_sinks().is_subset(&without.get_active_sinks()));
    assert_eq!(with.get_active_sinks(), set(&[]));
}

#[test]
fn sink_without_input_ports_counts_as_active() {
    let mut g = PWGraph::new(vec![], vec![]);
    g.insert(1, node(Some("Audio/Sink")));
    assert_eq!(g.get_active_sinks(), set(&[1]));
}

#[test]
fn empty_graph_has_no_active_sinks() {
    let g = PWGraph::new(vec![], vec![]);
    assert!(g.get_active_sinks().is_empty());
    assert!(g.get_sinks().is_empty());
}

#[test]
fn cycle_without_producer_terminates_inactive() {
    // Sink 1 <- node 3 <- node 1: a loop with no producer.
    let mut g = PWGraph::new(vec![], vec![]);
    g.insert(1, node(Some("Audio/Sink")));
    g.insert(2, port(1, Direction::Input));
    g.insert(5, port(1, Direction::Output));
    g.insert(3, node(None));
    g.insert(6, port(3, Direction::Input));
    g.insert(20, port(3, Direction::Output));
    g.insert(4, link(2, 20, true));
    g.insert(7, link(6, 5, true));
    assert_eq!(g.get_active_sinks(), set(&[]));
}

#[test]
fn chain_through_filter_node_reaches_producer() {
    // Sink 1 <- node 3 (has inputs) <- node 8 (producer).
    let mut g = PWGraph::new(vec![], vec![]);
    g.insert(1, node(Some("Audio/Sink")));
    g.insert(2, port(1, Direction::Input));
    g.insert(3, node(None));
    g.insert(20, port(3, Direction::Output));
    g.insert(6, port(3, Direction::Input));
    g.insert(8, node(None));
    g.insert(9, port(8, Direction::Output));
    g.insert(4, link(2, 20, true));
    g.insert(7, link(6, 9, true));
    assert_eq!(g.get_active_sinks(), set(&[1]));
    // Deactivating the upstream link leaves the sink without a producer.
    let delta = LinkData { input_port: None, output_port: None, active: Some(false) };
    assert!(g.update(7, PWObjectData::Link(delta)));
    assert_eq!(g.get_active_sinks(), set(&[]));
}

#[test]
fn link_without_active_state_is_not_counted() {
    let mut g = PWGraph::new(vec![], vec![]);
    g.insert(1, node(Some("Audio/Sink")));
    g.insert(2, port(1, Direction::Input));
    g.insert(3, node(None));
    g.insert(20, port(3, Direction::Output));
    g.insert(4, PWObject::Link { data: LinkData { input_port: Some(2), output_port: Some(20), active: None } });
    assert_eq!(g.get_active_sinks(), set(&[]));
}

#[test]
fn sinks_follow_media_class() {
    let mut g = PWGraph::new(vec![], vec![]);
    g.insert(1, node(Some("Audio/Sink")));
    g.insert(2, node(Some("Audio/Source")));
    g.insert(3, node(None));
    assert_eq!(*g.get_sinks(), set(&[1]));
    let mut delta = NodeData::empty();
    delta.media_class = Some("Audio/Sink".to_string());
    assert!(g.update(3, PWObjectData::Node(delta)));
    assert_eq!(*g.get_sinks(), set(&[1, 3]));
    let mut delta = NodeData::empty();
    delta.media_class = Some("Video/Source".to_string());
    assert!(g.update(1, PWObjectData::Node(delta)));
    assert_eq!(*g.get_sinks(), set(&[3]));
}

#[test]
fn sink_whitelist_restricts_sinks() {
    let wl = vec![SinkFilter::new(Some(Pattern::new("^Speakers$").unwrap()))];
    let mut g = PWGraph::new(wl, vec![]);
    let mut a = NodeData::empty();
    a.media_class = Some("Audio/Sink".to_string());
    a.description = Some("Speakers".to_string());
    let mut b = NodeData::empty();
    b.media_class = Some("Audio/Sink".to_string());
    b.description = Some("Headphones".to_string());
    g.insert(1, PWObject::Node { data: a });
    g.insert(2, PWObject::Node { data: b });
    assert_eq!(*g.get_sinks(), set(&[1]));
    // Renaming the second node brings it under the whitelist.
    let mut delta = NodeData::empty();
    delta.description = Some("Speakers".to_string());
    assert!(g.update(2, PWObjectData::Node(delta)));
    assert_eq!(*g.get_sinks(), set(&[1, 2]));
}

#[test]
fn indexes_follow_inserts_updates_and_removes() {
    let mut g = producer_graph(true, node(None), vec![]);
    assert_eq!(g.get_links_to_port(&2), Some(&set(&[4])));
    assert_eq!(g.get_links_from_port(&20), Some(&set(&[4])));
    assert_eq!(g.get_node_input_ports(&1), Some(&set(&[2])));
    assert_eq!(g.get_node_output_ports(&3), Some(&set(&[20])));
    // Move the link to another input port.
    let delta = LinkData { input_port: Some(30), output_port: None, active: None };
    assert!(g.update(4, PWObjectData::Link(delta)));
    assert!(g.get_links_to_port(&2).map_or(true, |s| s.is_empty()));
    assert_eq!(g.get_links_to_port(&30), Some(&set(&[4])));
    // Move the port to another node and direction.
    let delta = PortData { name: None, node_id: Some(3), direction: Some(Direction::Input), is_terminal: None };
    assert!(g.update(2, PWObjectData::Port(delta)));
    assert!(g.get_node_input_ports(&1).map_or(true, |s| s.is_empty()));
    assert_eq!(g.get_node_input_ports(&3), Some(&set(&[2])));
    // Removing cleans every index entry.
    assert!(g.remove(4).is_some());
    assert!(g.get_links_to_port(&30).map_or(true, |s| s.is_empty()));
    assert!(g.get_links_from_port(&20).map_or(true, |s| s.is_empty()));
    assert!(g.remove(20).is_some());
    assert!(g.get_node_output_ports(&3).map_or(true, |s| s.is_empty()));
    assert!(g.remove(1).is_some());
    assert!(g.get_sinks().is_empty());
}

#[test]
fn update_rejects_missing_wrong_kind_and_empty_deltas() {
    let mut g = producer_graph(true, node(None), vec![]);
    let delta = LinkData { input_port: None, output_port: None, active: Some(false) };
    assert!(!g.update(99, PWObjectData::Link(delta)));
    assert!(!g.update(1, PWObjectData::Link(delta)));
    assert!(!g.update(4, PWObjectData::Link(LinkData { input_port: None, output_port: None, active: None })));
    // Same value again: no change.
    assert!(!g.update(4, PWObjectData::Link(LinkData { input_port: None, output_port: None, active: Some(true) })));
    assert_eq!(g.get_active_sinks(), set(&[1]));
}

#[test]
fn insert_does_not_replace_live_id() {
    let mut g = producer_graph(true, node(None), vec![]);
    g.insert(1, node(Some("Video/Source")));
    match g.get(&1) {
        Some(PWObject::Node { data }) => assert_eq!(data.media_class.as_deref(), Some("Audio/Sink")),
        _ => panic!("node 1 is gone"),
    }
    assert_eq!(*g.get_sinks(), set(&[1]));
}

#[test]
fn remove_of_missing_id_is_silent() {
    let mut g = producer_graph(true, node(None), vec![]);
    assert!(g.remove(77).is_none());
    assert_eq!(g.get_active_sinks(), set(&[1]));
    assert!(g.get(&77).is_none());
}
