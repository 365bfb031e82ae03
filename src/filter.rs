//! Filters over node properties, each a conjunction of optional regular expressions.

use vstd::prelude::*;

use crate::object::{display_name, opt_as_str, NodeData, NodeView};

verus! {

/// The compiled regular expression type of the `regex` crate, carried opaquely.
#[verifier::external_type_specification]
#[verifier::external_body]
pub struct ExRegex(regex::Regex);

/// The compilation error type of the `regex` crate, carried opaquely.
#[verifier::external_type_specification]
#[verifier::external_body]
pub struct ExRegexError(regex::Error);

/// Whether a pattern is accepted by the regex compiler.
pub uninterp spec fn regex_compiles(pattern: Seq<char>) -> bool;

/// Whether the regular expression `pattern` matches somewhere in `haystack`.
pub uninterp spec fn regex_accepts(pattern: Seq<char>, haystack: Seq<char>) -> bool;

/// Relies on `regex::Regex::new`: it compiles `pattern` or reports why it cannot; which of the
/// two depends on the pattern alone.
#[verifier::external_body]
fn compile_regex(pattern: &str) -> (r: Result<regex::Regex, regex::Error>)
    ensures
        r is Ok <==> regex_compiles(pattern@),
{
    regex::Regex::new(pattern)
}

/// A compiled regular expression together with its source text.
///
/// The only constructor is [Pattern::new], so `compiled` is always the compilation of `source`.
#[derive(Debug)]
pub struct Pattern {
    source: String,
    compiled: regex::Regex,
}

/// Error returned for a pattern that does not compile; holds the pattern.
#[derive(Clone, Debug, PartialEq, Eq)]
pub struct InvalidPattern {
    pub pattern: String,
}

impl View for Pattern {
    type V = Seq<char>;

    closed spec fn view(&self) -> Seq<char> {
        self.source@
    }
}

/// Relies on `regex::Regex::is_match`: whether the pattern matches anywhere in `haystack`.
/// `p.compiled` was built by `Regex::new` from `p.source`.
#[verifier::external_body]
fn pattern_is_match(p: &Pattern, haystack: &str) -> (r: bool)
    ensures
        r == regex_accepts(p@, haystack@),
{
    p.compiled.is_match(haystack)
}

impl Pattern {
    /// Compiles `source`.
    pub fn new(source: &str) -> (r: Result<Pattern, InvalidPattern>)
        ensures
            r is Ok <==> regex_compiles(source@),
            match r {
                Ok(p) => p@ == source@,
                Err(e) => e.pattern@ == source@,
            },
    {
        match compile_regex(source) {
            Ok(compiled) => Ok(Pattern { source: source.to_owned(), compiled }),
            Err(_) => Err(InvalidPattern { pattern: source.to_owned() }),
        }
    }

    /// The source text of the pattern.
    pub fn as_str(&self) -> (r: &str)
        ensures
            r@ == self@,
    {
        self.source.as_str()
    }

    /// Whether the pattern matches somewhere in `haystack`.
    pub fn is_match(&self, haystack: &str) -> (r: bool)
        ensures
            r == regex_accepts(self@, haystack@),
    {
        pattern_is_match(self, haystack)
    }
}

/// The view of an optional pattern.
pub open spec fn opt_pattern_view(p: Option<Pattern>) -> Option<Seq<char>> {
    match p {
        Some(p) => Some(p@),
        None => None,
    }
}

/// One field of a filter against one property: an absent filter accepts, an absent property
/// fails a present filter, otherwise the pattern decides.
pub open spec fn property_matches(filter: Option<Seq<char>>, property: Option<Seq<char>>) -> bool {
    match filter {
        None => true,
        Some(p) => match property {
            None => false,
            Some(v) => regex_accepts(p, v),
        },
    }
}

/// Checks one filter field against one node property.
pub fn matches_property(filter: &Option<Pattern>, property: Option<&str>) -> (r: bool)
    ensures
        r == property_matches(
            opt_pattern_view(*filter),
            match property {
                Some(s) => Some(s@),
                None => None,
            },
        ),
{
    match filter {
        None => true,
        Some(p) => match property {
            None => false,
            Some(v) => p.is_match(v),
        },
    }
}

/// A predicate over values of `T`, with the checks of a list of them.
pub trait Filter<T>: Sized {
    /// Whether the filter accepts `data`.
    spec fn accepts(&self, data: &T) -> bool;

    /// Checks the filter against `data`.
    fn matches(&self, data: &T) -> (r: bool)
        ensures
            r == self.accepts(data),
    ;

    /// Whether every filter accepts `data`; true for an empty list.
    fn matches_all(filters: &Vec<Self>, data: &T) -> (r: bool)
        ensures
            r == (forall|i: int| 0 <= i < filters@.len() ==> #[trigger] filters@[i].accepts(data)),
    {
        let mut i: usize = 0;
        while i < filters.len()
            invariant
                i <= filters@.len(),
                forall|j: int| 0 <= j < i ==> #[trigger] filters@[j].accepts(data),
            decreases filters@.len() - i,
        {
            if !filters[i].matches(data) {
                return false;
            }
            i = i + 1;
        }
        true
    }

    /// Whether some filter accepts `data`; false for an empty list.
    fn matches_any(filters: &Vec<Self>, data: &T) -> (r: bool)
        ensures
            r == (exists|i: int| 0 <= i < filters@.len() && #[trigger] filters@[i].accepts(data)),
    {
        let mut i: usize = 0;
        while i < filters.len()
            invariant
                i <= filters@.len(),
                forall|j: int| 0 <= j < i ==> !#[trigger] filters@[j].accepts(data),
            decreases filters@.len() - i,
        {
            if filters[i].matches(data) {
                return true;
            }
            i = i + 1;
        }
        false
    }
}

/// A filter over sinks, by display name.
#[derive(Debug)]
pub struct SinkFilter {
    name: Option<Pattern>,
}

/// Whether a sink filter with the given name pattern accepts a node.
pub open spec fn sink_filter_accepts(name: Option<Seq<char>>, node: NodeView) -> bool {
    property_matches(name, display_name(node))
}

impl View for SinkFilter {
    type V = Option<Seq<char>>;

    closed spec fn view(&self) -> Option<Seq<char>> {
        opt_pattern_view(self.name)
    }
}

impl SinkFilter {
    /// A sink filter on the display name.
    pub fn new(name: Option<Pattern>) -> (r: Self)
        ensures
            r@ == opt_pattern_view(name),
    {
        SinkFilter { name }
    }
}

impl Filter<NodeData> for SinkFilter {
    open spec fn accepts(&self, data: &NodeData) -> bool {
        sink_filter_accepts(self@, data@)
    }

    fn matches(&self, data: &NodeData) -> (r: bool) {
        matches_property(&self.name, data.get_name())
    }
}

/// Model of a [NodeFilter]: one optional pattern per node property.
pub struct NodeFilterView {
    pub name: Option<Seq<char>>,
    pub app_name: Option<Seq<char>>,
    pub media_class: Option<Seq<char>>,
    pub media_role: Option<Seq<char>>,
    pub media_software: Option<Seq<char>>,
}

/// Whether a node filter accepts a node: every present pattern matches its property.
pub open spec fn node_filter_accepts(f: NodeFilterView, node: NodeView) -> bool {
    &&& property_matches(f.name, display_name(node))
    &&& property_matches(f.app_name, node.app_name)
    &&& property_matches(f.media_class, node.media_class)
    &&& property_matches(f.media_role, node.media_role)
    &&& property_matches(f.media_software, node.media_software)
}

/// A filter over nodes, by display name, application name and media properties.
#[derive(Debug)]
pub struct NodeFilter {
    name: Option<Pattern>,
    app_name: Option<Pattern>,
    media_class: Option<Pattern>,
    media_role: Option<Pattern>,
    media_software: Option<Pattern>,
}

impl View for NodeFilter {
    type V = NodeFilterView;

    closed spec fn view(&self) -> NodeFilterView {
        NodeFilterView {
            name: opt_pattern_view(self.name),
            app_name: opt_pattern_view(self.app_name),
            media_class: opt_pattern_view(self.media_class),
            media_role: opt_pattern_view(self.media_role),
            media_software: opt_pattern_view(self.media_software),
        }
    }
}

impl NodeFilter {
    /// A node filter from one optional pattern per property.
    pub fn new(
        name: Option<Pattern>,
        app_name: Option<Pattern>,
        media_class: Option<Pattern>,
        media_role: Option<Pattern>,
        media_software: Option<Pattern>,
    ) -> (r: Self)
        ensures
            r@ == (NodeFilterView {
                name: opt_pattern_view(name),
                app_name: opt_pattern_view(app_name),
                media_class: opt_pattern_view(media_class),
                media_role: opt_pattern_view(media_role),
                media_software: opt_pattern_view(media_software),
            }),
    {
        NodeFilter { name, app_name, media_class, media_role, media_software }
    }
}

impl Filter<NodeData> for NodeFilter {
    open spec fn accepts(&self, data: &NodeData) -> bool {
        node_filter_accepts(self@, data@)
    }

    fn matches(&self, data: &NodeData) -> (r: bool) {
        matches_property(&self.name, data.get_name()) && matches_property(
            &self.app_name,
            opt_as_str(&data.app_name),
        ) && matches_property(&self.media_class, opt_as_str(&data.media_class))
            && matches_property(&self.media_role, opt_as_str(&data.media_role)) && matches_property(
            &self.media_software,
            opt_as_str(&data.media_software),
        )
    }
}

} // verus!
