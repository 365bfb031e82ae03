use audio_idle_inhibit::filter::{matches_property, Filter, NodeFilter, Pattern, SinkFilter};
use audio_idle_inhibit::object::NodeData;

fn p(src: &str) -> Pattern {
    Pattern::new(src).unwrap()
}

fn node() -> NodeData {
    let mut n = NodeData::empty();
    n.description = Some("Speakers".to_string());
    n.app_name = Some("browser".to_string());
    n.media_class = Some("Stream/Output/Audio".to_string());
    n
}

#[test]
fn invalid_pattern_is_rejected() {
    let e = Pattern::new("(unclosed").unwrap_err();
    assert_eq!(e.pattern, "(unclosed");
    assert_eq!(p("^a+$").as_str(), "^a+$");
}

#[test]
fn pattern_matches_anywhere_in_haystack() {
    assert!(p("row").is_match("browser"));
    assert!(!p("^row").is_match("browser"));
}

#[test]
fn property_semantics() {
    assert!(matches_property(&None, None));
    assert!(matches_property(&None, Some("x")));
    assert!(!matches_property(&Some(p("x")), None));
    assert!(matches_property(&Some(p("^x$")), Some("x")));
    assert!(!matches_property(&Some(p("^x$")), Some("y")));
}

#[test]
fn sink_filter_uses_display_name() {
    let n = node();
    assert!(SinkFilter::new(Some(p("^Speakers$"))).matches(&n));
    assert!(!SinkFilter::new(Some(p("^browser$"))).matches(&n));
    assert!(SinkFilter::new(None).matches(&n));
    assert!(!SinkFilter::new(Some(p("."))).matches(&NodeData::empty()));
}

#[test]
fn node_filter_is_a_conjunction() {
    let n = node();
    assert!(NodeFilter::new(None, Some(p("^browser$")), Some(p("Audio")), None, None).matches(&n));
    assert!(!NodeFilter::new(None, Some(p("^browser$")), Some(p("Video")), None, None).matches(&n));
    assert!(!NodeFilter::new(None, None, None, Some(p("Music")), None).matches(&n));
    assert!(NodeFilter::new(None, None, None, None, None).matches(&n));
}

#[test]
fn all_and_any_over_lists() {
    let n = node();
    let empty: Vec<SinkFilter> = vec![];
    assert!(SinkFilter::matches_all(&empty, &n));
    assert!(!SinkFilter::matches_any(&empty, &n));
    let fs = vec![SinkFilter::new(Some(p("^Speakers$"))), SinkFilter::new(Some(p("^Other$")))];
    assert!(SinkFilter::matches_any(&fs, &n));
    assert!(!SinkFilter::matches_all(&fs, &n));
}
