//! Incremental model of the audio graph: nodes, ports and links keyed by id, with the secondary
//! indexes that the active-sink query walks.

use std::collections::{HashMap, HashSet};

use vstd::prelude::*;

use crate::filter::{Filter, NodeFilter, NodeFilterView, SinkFilter, node_filter_accepts, sink_filter_accepts};
use crate::object::{object_merge, Direction, Id, NodeData, NodeView, ObjectView, PWObject, PWObjectData};

verus! {

broadcast use vstd::std_specs::hash::group_hash_axioms;

/// Whether `t` occurs in `s` as a contiguous piece.
pub open spec fn has_substring(s: Seq<char>, t: Seq<char>) -> bool {
    exists|i: int| 0 <= i && i + t.len() <= s.len() && #[trigger] s.subrange(i, i + t.len()) == t
}

/// Relies on `str::contains`: whether `pattern` occurs in `s` as a sub-slice.
#[verifier::external_body]
fn str_contains(s: &str, pattern: &str) -> (r: bool)
    ensures
        r == has_substring(s@, pattern@),
{
    s.contains(pattern)
}

/// The secondary indexes of the graph.
pub enum IndexKind {
    LinksToPort,
    LinksFromPort,
    NodeInputPorts,
    NodeOutputPorts,
}

/// Whether object `o` belongs under `key` in the index `kind`.
pub open spec fn keyed(o: ObjectView, kind: IndexKind, key: Id) -> bool {
    match kind {
        IndexKind::LinksToPort => o is Link && o->Link_0.input_port == Some(key),
        IndexKind::LinksFromPort => o is Link && o->Link_0.output_port == Some(key),
        IndexKind::NodeInputPorts => o is Port && o->Port_0.node_id == Some(key)
            && o->Port_0.direction == Some(Direction::Input),
        IndexKind::NodeOutputPorts => o is Port && o->Port_0.node_id == Some(key)
            && o->Port_0.direction == Some(Direction::Output),
    }
}

/// The ids that the index `kind` must hold under `key`, derived from the objects.
pub open spec fn derived(objs: Map<Id, ObjectView>, kind: IndexKind, key: Id) -> Set<Id> {
    Set::new(|x: Id| objs.contains_key(x) && keyed(objs[x], kind, key))
}

/// Links whose input port is `p`.
pub open spec fn links_into(objs: Map<Id, ObjectView>, p: Id) -> Set<Id> {
    derived(objs, IndexKind::LinksToPort, p)
}

/// Input ports of node `n`.
pub open spec fn input_ports(objs: Map<Id, ObjectView>, n: Id) -> Set<Id> {
    derived(objs, IndexKind::NodeInputPorts, n)
}

/// Whether a node is a sink: its media class contains `Sink` and, when a whitelist is set,
/// some whitelist filter accepts it.
pub open spec fn is_sink(node: NodeView, whitelist: Seq<Option<Seq<char>>>) -> bool {
    &&& node.media_class is Some
    &&& has_substring(node.media_class->0, "Sink"@)
    &&& (whitelist.len() == 0 || exists|i: int|
        0 <= i < whitelist.len() && sink_filter_accepts(#[trigger] whitelist[i], node))
}

/// The sinks among the objects.
pub open spec fn sink_set(objs: Map<Id, ObjectView>, whitelist: Seq<Option<Seq<char>>>) -> Set<Id> {
    Set::new(|n: Id| objs.contains_key(n) && objs[n] is Node && is_sink(objs[n]->Node_0, whitelist))
}

/// Whether node `n` takes part in the traversal: it is a node and no blacklist filter accepts it.
pub open spec fn passes(objs: Map<Id, ObjectView>, blacklist: Seq<NodeFilterView>, n: Id) -> bool {
    &&& objs.contains_key(n)
    &&& objs[n] is Node
    &&& !exists|i: int|
        0 <= i < blacklist.len() && node_filter_accepts(#[trigger] blacklist[i], objs[n]->Node_0)
}

/// The node behind the output port of link `l`, when `l` is a link in the active state whose
/// output port is a port with a node.
pub open spec fn link_source(objs: Map<Id, ObjectView>, l: Id) -> Option<Id> {
    if objs.contains_key(l) && objs[l] is Link {
        let d = objs[l]->Link_0;
        if d.active == Some(true) && d.output_port is Some && objs.contains_key(d.output_port->0)
            && objs[d.output_port->0] is Port {
            objs[d.output_port->0]->Port_0.node_id
        } else {
            None
        }
    } else {
        None
    }
}

/// Whether an active link carries audio from node `u` into an input port of node `n`.
pub open spec fn feeds(objs: Map<Id, ObjectView>, u: Id, n: Id) -> bool {
    exists|l: Id|
        #[trigger] link_source(objs, l) == Some(u) && objs[l]->Link_0.input_port is Some
            && input_ports(objs, n).contains(objs[l]->Link_0.input_port->0)
}

/// Whether `path` is a chain of passing nodes, each fed by the next over an active link, that
/// ends at a producer: a node with no input ports.
pub open spec fn is_feed_path(objs: Map<Id, ObjectView>, blacklist: Seq<NodeFilterView>, path: Seq<Id>) -> bool {
    &&& path.len() > 0
    &&& forall|i: int| 0 <= i < path.len() ==> passes(objs, blacklist, #[trigger] path[i])
    &&& forall|i: int| 0 <= i < path.len() - 1 ==> feeds(objs, #[trigger] path[i + 1], path[i])
    &&& input_ports(objs, path.last()).is_empty()
}

/// Whether some producer reaches node `n`.
pub open spec fn fed_by_producer(objs: Map<Id, ObjectView>, blacklist: Seq<NodeFilterView>, n: Id) -> bool {
    exists|path: Seq<Id>| #[trigger] is_feed_path(objs, blacklist, path) && path[0] == n
}

/// Whether some producer reaches node `n` over a feed path whose nodes after `n` all lie
/// outside `avoid`.
pub open spec fn fed_avoiding(
    objs: Map<Id, ObjectView>,
    blacklist: Seq<NodeFilterView>,
    n: Id,
    avoid: Set<Id>,
) -> bool {
    exists|path: Seq<Id>|
        #[trigger] is_feed_path(objs, blacklist, path) && path[0] == n && forall|i: int|
            1 <= i < path.len() ==> !avoid.contains(#[trigger] path[i])
}

/// The sinks that a producer reaches: the sinks that are playing audio.
pub open spec fn active_set(
    objs: Map<Id, ObjectView>,
    whitelist: Seq<Option<Seq<char>>>,
    blacklist: Seq<NodeFilterView>,
) -> Set<Id> {
    Set::new(|s: Id| sink_set(objs, whitelist).contains(s) && fed_by_producer(objs, blacklist, s))
}

/// Node `x` is settled by the visited set `w`: if it passes, it is no producer and every passing
/// node that feeds it has been visited.
pub open spec fn settled(objs: Map<Id, ObjectView>, blacklist: Seq<NodeFilterView>, x: Id, w: Set<Id>) -> bool {
    passes(objs, blacklist, x) ==> {
        &&& !input_ports(objs, x).is_empty()
        &&& forall|u: Id| #[trigger] feeds(objs, u, x) && passes(objs, blacklist, u) ==> w.contains(u)
    }
}

/// Every link into port `p` whose source passes has its source visited.
pub open spec fn port_settled(objs: Map<Id, ObjectView>, blacklist: Seq<NodeFilterView>, p: Id, w: Set<Id>) -> bool {
    forall|l: Id| #[trigger] links_into(objs, p).contains(l) ==> link_settled(objs, blacklist, l, w)
}

/// The source of link `l`, if it passes, has been visited.
pub open spec fn link_settled(objs: Map<Id, ObjectView>, blacklist: Seq<NodeFilterView>, l: Id, w: Set<Id>) -> bool {
    link_source(objs, l) is Some && passes(objs, blacklist, link_source(objs, l)->0) ==> w.contains(
        link_source(objs, l)->0,
    )
}

/// Along a path that starts at a settled node of `w` and then keeps out of `avoid`, where every
/// node of `w` outside `avoid` is settled, no producer is reached.
proof fn lemma_settled_unreached(
    objs: Map<Id, ObjectView>,
    blacklist: Seq<NodeFilterView>,
    w: Set<Id>,
    avoid: Set<Id>,
    path: Seq<Id>,
)
    requires
        forall|y: Id| #[trigger] w.contains(y) && !avoid.contains(y) ==> settled(objs, blacklist, y, w),
        path.len() > 0,
        w.contains(path[0]),
        settled(objs, blacklist, path[0], w),
        forall|i: int| 1 <= i < path.len() ==> !avoid.contains(#[trigger] path[i]),
    ensures
        !is_feed_path(objs, blacklist, path),
    decreases path.len(),
{
    if is_feed_path(objs, blacklist, path) {
        assert(passes(objs, blacklist, path[0]));
        if path.len() == 1 {
            assert(path.last() == path[0]);
        } else {
            assert(feeds(objs, path[0int + 1], path[0int]));
            assert(passes(objs, blacklist, path[1]));
            assert(!avoid.contains(path[1]));
            let rest = path.drop_first();
            assert(rest[0] == path[1]);
            assert forall|i: int| 0 <= i < rest.len() implies passes(objs, blacklist, #[trigger] rest[i]) by {
                assert(rest[i] == path[i + 1]);
            }
            assert forall|i: int| 0 <= i < rest.len() - 1 implies feeds(objs, #[trigger] rest[i + 1], rest[i]) by {
                assert(rest[i] == path[i + 1]);
                assert(rest[i + 1] == path[(i + 1) + 1]);
            }
            assert forall|i: int| 1 <= i < rest.len() implies !avoid.contains(#[trigger] rest[i]) by {
                assert(rest[i] == path[i + 1]);
            }
            assert(rest.last() == path.last());
            lemma_settled_unreached(objs, blacklist, w, avoid, rest);
        }
    }
}

/// Avoiding no node is no restriction.
proof fn lemma_avoiding_nothing(objs: Map<Id, ObjectView>, blacklist: Seq<NodeFilterView>, n: Id, none: Set<Id>)
    requires
        none == Set::<Id>::empty(),
    ensures
        fed_avoiding(objs, blacklist, n, none) == fed_by_producer(objs, blacklist, n),
{
    if fed_by_producer(objs, blacklist, n) {
        let path = choose|path: Seq<Id>| #[trigger] is_feed_path(objs, blacklist, path) && path[0] == n;
        assert(forall|i: int| 1 <= i < path.len() ==> !none.contains(#[trigger] path[i]));
    }
}

/// A node that passes and is fed by the head of a feed path extends that path.
proof fn lemma_feed_path_prepend(
    objs: Map<Id, ObjectView>,
    blacklist: Seq<NodeFilterView>,
    n: Id,
    path: Seq<Id>,
)
    requires
        is_feed_path(objs, blacklist, path),
        passes(objs, blacklist, n),
        feeds(objs, path[0], n),
    ensures
        is_feed_path(objs, blacklist, seq![n] + path),
        (seq![n] + path)[0] == n,
{
    let q = seq![n] + path;
    assert forall|i: int| 0 <= i < q.len() implies passes(objs, blacklist, #[trigger] q[i]) by {
        if i > 0 {
            assert(q[i] == path[i - 1]);
        }
    }
    assert forall|i: int| 0 <= i < q.len() - 1 implies feeds(objs, #[trigger] q[i + 1], q[i]) by {
        if i > 0 {
            assert(q[i] == path[i - 1]);
            assert(q[i + 1] == path[(i - 1) + 1]);
        }
    }
    assert(q.last() == path.last());
}

/// Growing the visited set keeps what was settled settled.
proof fn lemma_settled_grow(objs: Map<Id, ObjectView>, blacklist: Seq<NodeFilterView>, w: Set<Id>, w2: Set<Id>)
    requires
        w.subset_of(w2),
    ensures
        forall|x: Id| #[trigger] settled(objs, blacklist, x, w) ==> settled(objs, blacklist, x, w2),
        forall|p: Id| #[trigger] port_settled(objs, blacklist, p, w) ==> port_settled(objs, blacklist, p, w2),
        forall|l: Id| #[trigger] link_settled(objs, blacklist, l, w) ==> link_settled(objs, blacklist, l, w2),
{
    assert forall|p: Id| #[trigger] port_settled(objs, blacklist, p, w) implies port_settled(objs, blacklist, p, w2) by {
        assert forall|l: Id| #[trigger] links_into(objs, p).contains(l) implies link_settled(objs, blacklist, l, w2) by {
            assert(link_settled(objs, blacklist, l, w));
        }
    }
}

/// The set held under `k` by an index map; absent keys hold the empty set.
pub open spec fn index_set(m: Map<Id, HashSet<Id>>, k: Id) -> Set<Id> {
    if m.contains_key(k) {
        m[k]@
    } else {
        Set::empty()
    }
}

proof fn lemma_derived_insert(objs: Map<Id, ObjectView>, id: Id, o: ObjectView)
    requires
        !objs.contains_key(id),
    ensures
        forall|kind: IndexKind, key: Id| #[trigger]
            derived(objs.insert(id, o), kind, key) == if keyed(o, kind, key) {
                derived(objs, kind, key).insert(id)
            } else {
                derived(objs, kind, key)
            },
        forall|wl: Seq<Option<Seq<char>>>| #[trigger]
            sink_set(objs.insert(id, o), wl) == if o is Node && is_sink(o->Node_0, wl) {
                sink_set(objs, wl).insert(id)
            } else {
                sink_set(objs, wl)
            },
{
    assert forall|kind: IndexKind, key: Id| #[trigger]
        derived(objs.insert(id, o), kind, key) == if keyed(o, kind, key) {
            derived(objs, kind, key).insert(id)
        } else {
            derived(objs, kind, key)
        } by {
        let a = derived(objs.insert(id, o), kind, key);
        if keyed(o, kind, key) {
            assert(a =~= derived(objs, kind, key).insert(id));
        } else {
            assert(a =~= derived(objs, kind, key));
        }
    }
    assert forall|wl: Seq<Option<Seq<char>>>| #[trigger]
        sink_set(objs.insert(id, o), wl) == if o is Node && is_sink(o->Node_0, wl) {
            sink_set(objs, wl).insert(id)
        } else {
            sink_set(objs, wl)
        } by {
        let a = sink_set(objs.insert(id, o), wl);
        if o is Node && is_sink(o->Node_0, wl) {
            assert(a =~= sink_set(objs, wl).insert(id));
        } else {
            assert(a =~= sink_set(objs, wl));
        }
    }
}

proof fn lemma_derived_remove(objs: Map<Id, ObjectView>, id: Id)
    requires
        objs.contains_key(id),
    ensures
        forall|kind: IndexKind, key: Id| #[trigger]
            derived(objs.remove(id), kind, key) == if keyed(objs[id], kind, key) {
                derived(objs, kind, key).remove(id)
            } else {
                derived(objs, kind, key)
            },
        forall|wl: Seq<Option<Seq<char>>>| #[trigger]
            sink_set(objs.remove(id), wl) == if objs[id] is Node && is_sink(
                objs[id]->Node_0,
                wl,
            ) {
                sink_set(objs, wl).remove(id)
            } else {
                sink_set(objs, wl)
            },
{
    assert forall|kind: IndexKind, key: Id| #[trigger]
        derived(objs.remove(id), kind, key) == if keyed(objs[id], kind, key) {
            derived(objs, kind, key).remove(id)
        } else {
            derived(objs, kind, key)
        } by {
        let a = derived(objs.remove(id), kind, key);
        if keyed(objs[id], kind, key) {
            assert(a =~= derived(objs, kind, key).remove(id));
        } else {
            assert(a =~= derived(objs, kind, key));
        }
    }
    assert forall|wl: Seq<Option<Seq<char>>>| #[trigger]
        sink_set(objs.remove(id), wl) == if objs[id] is Node && is_sink(objs[id]->Node_0, wl) {
            sink_set(objs, wl).remove(id)
        } else {
            sink_set(objs, wl)
        } by {
        let a = sink_set(objs.remove(id), wl);
        if objs[id] is Node && is_sink(objs[id]->Node_0, wl) {
            assert(a =~= sink_set(objs, wl).remove(id));
        } else {
            assert(a =~= sink_set(objs, wl));
        }
    }
}

/// Adds `v` to the set under `k`.
fn index_add(m: &mut HashMap<Id, HashSet<Id>>, k: Id, v: Id)
    ensures
        forall|j: Id| #[trigger]
            index_set(final(m)@, j) == if j == k {
                index_set(old(m)@, j).insert(v)
            } else {
                index_set(old(m)@, j)
            },
{
    let mut s = match m.remove(&k) {
        Some(s) => s,
        None => HashSet::new(),
    };
    s.insert(v);
    m.insert(k, s);
    assert forall|j: Id| #[trigger]
        index_set(m@, j) == if j == k {
            index_set(old(m)@, j).insert(v)
        } else {
            index_set(old(m)@, j)
        } by {
        if j == k {
            assert(index_set(m@, j) =~= index_set(old(m)@, j).insert(v));
        }
    }
}

/// Removes `v` from the set under `k`.
fn index_remove(m: &mut HashMap<Id, HashSet<Id>>, k: Id, v: Id)
    ensures
        forall|j: Id| #[trigger]
            index_set(final(m)@, j) == if j == k {
                index_set(old(m)@, j).remove(v)
            } else {
                index_set(old(m)@, j)
            },
{
    match m.remove(&k) {
        Some(s) => {
            let mut s = s;
            s.remove(&v);
            m.insert(k, s);
        },
        None => {
            assert(index_set(old(m)@, k) =~= index_set(old(m)@, k).remove(v));
        },
    }
    assert forall|j: Id| #[trigger]
        index_set(m@, j) == if j == k {
            index_set(old(m)@, j).remove(v)
        } else {
            index_set(old(m)@, j)
        } by {
        if j == k {
            assert(index_set(m@, j) =~= index_set(old(m)@, j).remove(v));
        }
    }
}

/// The audio graph: objects by id, the sink set and the secondary indexes, with the filters
/// set at construction.
pub struct PWGraph {
    objects: HashMap<Id, PWObject>,
    sinks: HashSet<Id>,
    links_to_port: HashMap<Id, HashSet<Id>>,
    links_from_port: HashMap<Id, HashSet<Id>>,
    node_input_ports: HashMap<Id, HashSet<Id>>,
    node_output_ports: HashMap<Id, HashSet<Id>>,
    sink_whitelist: Vec<SinkFilter>,
    node_blacklist: Vec<NodeFilter>,
}

impl PWGraph {
    /// The objects of the graph, by id.
    pub closed spec fn objects(&self) -> Map<Id, ObjectView> {
        Map::new(|k: Id| self.objects@.contains_key(k), |k: Id| self.objects@[k]@)
    }

    /// The sink whitelist, one optional name pattern per filter.
    pub closed spec fn whitelist(&self) -> Seq<Option<Seq<char>>> {
        self.sink_whitelist@.map_values(|f: SinkFilter| f@)
    }

    /// The node blacklist.
    pub closed spec fn blacklist(&self) -> Seq<NodeFilterView> {
        self.node_blacklist@.map_values(|f: NodeFilter| f@)
    }

    /// The stored sink set.
    pub closed spec fn sinks(&self) -> Set<Id> {
        self.sinks@
    }

    /// The stored secondary index `kind` under `key`.
    pub closed spec fn index(&self, kind: IndexKind, key: Id) -> Set<Id> {
        match kind {
            IndexKind::LinksToPort => index_set(self.links_to_port@, key),
            IndexKind::LinksFromPort => index_set(self.links_from_port@, key),
            IndexKind::NodeInputPorts => index_set(self.node_input_ports@, key),
            IndexKind::NodeOutputPorts => index_set(self.node_output_ports@, key),
        }
    }

    /// The stored sink set and indexes are those that `objs` implies.
    closed spec fn indexes_match(&self, objs: Map<Id, ObjectView>) -> bool {
        &&& self.sinks@ == sink_set(objs, self.whitelist())
        &&& forall|kind: IndexKind, key: Id| #[trigger]
            self.index(kind, key) == derived(objs, kind, key)
    }

    /// Only the index fields and the whitelist decide [PWGraph::indexes_match].
    proof fn lemma_match_transfer(&self, other: &PWGraph, objs: Map<Id, ObjectView>)
        requires
            self.indexes_match(objs),
            self.sinks == other.sinks,
            self.links_to_port == other.links_to_port,
            self.links_from_port == other.links_from_port,
            self.node_input_ports == other.node_input_ports,
            self.node_output_ports == other.node_output_ports,
            self.sink_whitelist == other.sink_whitelist,
        ensures
            other.indexes_match(objs),
    {
        assert forall|kind: IndexKind, key: Id| #[trigger]
            other.index(kind, key) == derived(objs, kind, key) by {
            assert(other.index(kind, key) == self.index(kind, key));
        }
    }

    /// Well-formedness: every index and the sink set are derived from the objects.
    pub closed spec fn wf(&self) -> bool {
        self.indexes_match(self.objects())
    }

    /// An empty graph with the given filters.
    pub fn new(sink_whitelist: Vec<SinkFilter>, node_blacklist: Vec<NodeFilter>) -> (r: Self)
        ensures
            r.wf(),
            r.objects() == Map::<Id, ObjectView>::empty(),
            r.whitelist() == sink_whitelist@.map_values(|f: SinkFilter| f@),
            r.blacklist() == node_blacklist@.map_values(|f: NodeFilter| f@),
    {
        let r = PWGraph {
            objects: HashMap::new(),
            sinks: HashSet::new(),
            links_to_port: HashMap::new(),
            links_from_port: HashMap::new(),
            node_input_ports: HashMap::new(),
            node_output_ports: HashMap::new(),
            sink_whitelist,
            node_blacklist,
        };
        assert(r.objects() =~= Map::<Id, ObjectView>::empty());
        assert(r.sinks@ =~= sink_set(r.objects(), r.whitelist()));
        assert forall|kind: IndexKind, key: Id| #[trigger]
            r.index(kind, key) == derived(r.objects(), kind, key) by {
            assert(derived(r.objects(), kind, key) =~= Set::empty());
        }
        r
    }

    /// Whether a node is a sink under this graph's whitelist.
    fn node_is_sink(&self, data: &NodeData) -> (r: bool)
        ensures
            r == is_sink(data@, self.whitelist()),
    {
        match &data.media_class {
            None => false,
            Some(mc) => {
                let sink = "Sink";
                proof {
                    reveal_strlit("Sink");
                }
                if !str_contains(mc.as_str(), sink) {
                    return false;
                }
                if self.sink_whitelist.len() == 0 {
                    return true;
                }
                let r = SinkFilter::matches_any(&self.sink_whitelist, data);
                proof {
                    if r {
                        let i = choose|i: int|
                            0 <= i < self.sink_whitelist@.len()
                                && #[trigger] self.sink_whitelist@[i].accepts(data);
                        assert(sink_filter_accepts(self.whitelist()[i], data@));
                    } else {
                        assert forall|i: int| 0 <= i < self.whitelist().len() implies !sink_filter_accepts(
                            #[trigger] self.whitelist()[i],
                            data@,
                        ) by {
                            assert(!self.sink_whitelist@[i].accepts(data));
                        }
                    }
                }
                r
            },
        }
    }

    /// Files `id` under the indexes that object `o` belongs to.
    fn index_object(&mut self, id: Id, o: &PWObject, Ghost(objs): Ghost<Map<Id, ObjectView>>)
        requires
            old(self).indexes_match(objs),
            !objs.contains_key(id),
        ensures
            final(self).indexes_match(objs.insert(id, o@)),
            final(self).objects == old(self).objects,
            final(self).sink_whitelist == old(self).sink_whitelist,
            final(self).node_blacklist == old(self).node_blacklist,
    {
        proof {
            lemma_derived_insert(objs, id, o@);
        }
        match o {
            PWObject::Node { data } => {
                if self.node_is_sink(data) {
                    self.sinks.insert(id);
                }
            },
            PWObject::Port { data } => {
                match (data.node_id, data.direction) {
                    (Some(n), Some(Direction::Input)) => index_add(&mut self.node_input_ports, n, id),
                    (Some(n), Some(Direction::Output)) => index_add(
                        &mut self.node_output_ports,
                        n,
                        id,
                    ),
                    _ => {},
                }
            },
            PWObject::Link { data } => {
                if let Some(p) = data.output_port {
                    index_add(&mut self.links_from_port, p, id);
                }
                if let Some(p) = data.input_port {
                    index_add(&mut self.links_to_port, p, id);
                }
            },
        }
        let ghost new_objs = objs.insert(id, o@);
        assert(self.sinks@ =~= sink_set(new_objs, self.whitelist()));
        assert forall|kind: IndexKind, key: Id| #[trigger]
            self.index(kind, key) == derived(new_objs, kind, key) by {
            if keyed(o@, kind, key) {
                assert(self.index(kind, key) =~= old(self).index(kind, key).insert(id));
            } else {
                assert(self.index(kind, key) =~= old(self).index(kind, key));
            }
        }
    }

    /// Takes `id`, holding object `o`, out of the indexes it belongs to.
    fn unindex_object(&mut self, id: Id, o: &PWObject, Ghost(objs): Ghost<Map<Id, ObjectView>>)
        requires
            old(self).indexes_match(objs),
            objs.contains_key(id),
            objs[id] == o@,
        ensures
            final(self).indexes_match(objs.remove(id)),
            final(self).objects == old(self).objects,
            final(self).sink_whitelist == old(self).sink_whitelist,
            final(self).node_blacklist == old(self).node_blacklist,
    {
        proof {
            lemma_derived_remove(objs, id);
        }
        match o {
            PWObject::Node { .. } => {
                self.sinks.remove(&id);
            },
            PWObject::Port { data } => {
                match (data.node_id, data.direction) {
                    (Some(n), Some(Direction::Input)) => index_remove(
                        &mut self.node_input_ports,
                        n,
                        id,
                    ),
                    (Some(n), Some(Direction::Output)) => index_remove(
                        &mut self.node_output_ports,
                        n,
                        id,
                    ),
                    _ => {},
                }
            },
            PWObject::Link { data } => {
                if let Some(p) = data.output_port {
                    index_remove(&mut self.links_from_port, p, id);
                }
                if let Some(p) = data.input_port {
                    index_remove(&mut self.links_to_port, p, id);
                }
            },
        }
        let ghost new_objs = objs.remove(id);
        assert(self.sinks@ =~= sink_set(new_objs, self.whitelist()));
        assert forall|kind: IndexKind, key: Id| #[trigger]
            self.index(kind, key) == derived(new_objs, kind, key) by {
            if keyed(o@, kind, key) {
                assert(self.index(kind, key) =~= old(self).index(kind, key).remove(id));
            } else {
                assert(self.index(kind, key) =~= old(self).index(kind, key));
            }
        }
    }

    /// Adds an object under a fresh id. An id that is already live is left as it is: the audio
    /// server never reuses live ids, and a stored object is never replaced silently.
    pub fn insert(&mut self, id: Id, obj: PWObject)
        requires
            old(self).wf(),
        ensures
            final(self).wf(),
            final(self).whitelist() == old(self).whitelist(),
            final(self).blacklist() == old(self).blacklist(),
            final(self).objects() == if old(self).objects().contains_key(id) {
                old(self).objects()
            } else {
                old(self).objects().insert(id, obj@)
            },
    {
        if self.objects.contains_key(&id) {
            return ;
        }
        let ghost objs = self.objects();
        self.index_object(id, &obj, Ghost(objs));
        let ghost mid = *self;
        self.objects.insert(id, obj);
        assert(self.objects() =~= objs.insert(id, obj@));
        proof {
            mid.lemma_match_transfer(self, objs.insert(id, obj@));
        }
    }

    /// Removes an object and every index entry it has; returns it. Missing ids are ignored.
    pub fn remove(&mut self, id: Id) -> (r: Option<PWObject>)
        requires
            old(self).wf(),
        ensures
            final(self).wf(),
            final(self).whitelist() == old(self).whitelist(),
            final(self).blacklist() == old(self).blacklist(),
            final(self).objects() == old(self).objects().remove(id),
            match r {
                Some(o) => old(self).objects().contains_key(id) && old(self).objects()[id] == o@,
                None => !old(self).objects().contains_key(id),
            },
    {
        let ghost objs = self.objects();
        let ghost before = *self;
        match self.objects.remove(&id) {
            None => {
                assert(self.objects() =~= objs.remove(id));
                assert(objs.remove(id) =~= objs);
                proof {
                    before.lemma_match_transfer(self, objs);
                }
                None
            },
            Some(o) => {
                proof {
                    before.lemma_match_transfer(self, objs);
                }
                self.unindex_object(id, &o, Ghost(objs));
                assert(self.objects() =~= objs.remove(id));
                Some(o)
            },
        }
    }

    /// The object stored under `id`.
    pub fn get(&self, id: &Id) -> (r: Option<&PWObject>)
        ensures
            match r {
                Some(o) => self.objects().contains_key(*id) && self.objects()[*id] == o@,
                None => !self.objects().contains_key(*id),
            },
    {
        self.objects.get(id)
    }

    /// Applies the delta `new_data` to the object under `id`: its present fields replace the
    /// stored ones and the indexes follow. Nothing changes when `id` is absent or holds an
    /// object of another kind. Returns whether a stored field changed.
    pub fn update(&mut self, id: Id, new_data: PWObjectData) -> (r: bool)
        requires
            old(self).wf(),
        ensures
            final(self).wf(),
            final(self).whitelist() == old(self).whitelist(),
            final(self).blacklist() == old(self).blacklist(),
            ({
                let objs = old(self).objects();
                if objs.contains_key(id) && object_merge(objs[id], new_data@) is Some {
                    let m = object_merge(objs[id], new_data@)->0;
                    &&& final(self).objects() == objs.insert(id, m)
                    &&& r == (m != objs[id])
                } else {
                    &&& final(self).objects() == objs
                    &&& !r
                }
            }),
    {
        let ghost objs = self.objects();
        let ghost before = *self;
        let old_obj = match self.objects.remove(&id) {
            None => {
                assert(objs.remove(id) =~= objs);
                assert(self.objects() =~= objs);
                proof {
                    before.lemma_match_transfer(self, objs);
                }
                return false;
            },
            Some(o) => o,
        };
        let same_kind = match (&old_obj, &new_data) {
            (PWObject::Node { .. }, PWObjectData::Node(_)) => true,
            (PWObject::Port { .. }, PWObjectData::Port(_)) => true,
            (PWObject::Link { .. }, PWObjectData::Link(_)) => true,
            _ => false,
        };
        if !same_kind {
            self.objects.insert(id, old_obj);
            assert(self.objects() =~= objs);
            proof {
                before.lemma_match_transfer(self, objs);
            }
            return false;
        }
        proof {
            before.lemma_match_transfer(self, objs);
        }
        self.unindex_object(id, &old_obj, Ghost(objs));
        let (new_obj, changed) = merge_object(old_obj, new_data);
        self.index_object(id, &new_obj, Ghost(objs.remove(id)));
        let ghost mid = *self;
        self.objects.insert(id, new_obj);
        assert(objs.remove(id).insert(id, new_obj@) =~= objs.insert(id, new_obj@));
        assert(self.objects() =~= objs.insert(id, new_obj@));
        proof {
            mid.lemma_match_transfer(self, objs.insert(id, new_obj@));
        }
        changed
    }

    /// The node behind the output port of link `l`, as [link_source] states it.
    fn source_of_link(&self, l: Id) -> (r: Option<Id>)
        ensures
            r == link_source(self.objects(), l),
    {
        let data = match self.objects.get(&l) {
            Some(PWObject::Link { data }) => data,
            _ => return None,
        };
        match data.active {
            Some(true) => {},
            _ => return None,
        }
        let out = match data.output_port {
            Some(p) => p,
            None => return None,
        };
        match self.objects.get(&out) {
            Some(PWObject::Port { data }) => data.node_id,
            _ => None,
        }
    }

    proof fn lemma_objects_finite(&self)
        ensures
            self.objects().dom().finite(),
    {
        assert(self.objects().dom() =~= self.objects@.dom());
    }

    /// Whether a node passes the blacklist, as [passes] states it.
    fn node_passes(&self, id: Id) -> (r: bool)
        ensures
            r == passes(self.objects(), self.blacklist(), id),
    {
        let node = match self.objects.get(&id) {
            Some(PWObject::Node { data }) => data,
            _ => return false,
        };
        let hit = NodeFilter::matches_any(&self.node_blacklist, node);
        proof {
            if hit {
                let i = choose|i: int|
                    0 <= i < self.node_blacklist@.len() && #[trigger] self.node_blacklist@[i].accepts(node);
                assert(node_filter_accepts(self.blacklist()[i], self.objects()[id]->Node_0));
            } else {
                assert forall|i: int| 0 <= i < self.blacklist().len() implies !node_filter_accepts(
                    #[trigger] self.blacklist()[i],
                    self.objects()[id]->Node_0,
                ) by {
                    assert(!self.node_blacklist@[i].accepts(node));
                }
            }
        }
        !hit
    }

    /// Depth-first search from `id` towards producers, against the direction of the audio. Nodes
    /// in `visited` are not entered again; an id that is no live node gives `false`. The result
    /// tells whether a producer reaches `id` over a path that keeps out of the visited set.
    fn check_node_active(&self, id: Id, visited: &mut HashSet<Id>) -> (r: bool)
        requires
            self.wf(),
        ensures
            old(visited)@.insert(id).subset_of(final(visited)@),
            r == fed_avoiding(self.objects(), self.blacklist(), id, old(visited)@),
            !r ==> forall|x: Id|
                #[trigger] final(visited)@.contains(x) && (!old(visited)@.contains(x) || x == id)
                    ==> settled(self.objects(), self.blacklist(), x, final(visited)@),
        decreases
            self.objects().dom().difference(old(visited)@).len(),
            if self.objects().contains_key(id) && !old(visited)@.contains(id) {
                0nat
            } else {
                1nat
            },
    {
        let ghost objs = self.objects();
        let ghost bl = self.blacklist();
        let ghost v0 = visited@;
        proof {
            self.lemma_objects_finite();
        }
        visited.insert(id);
        if !self.node_passes(id) {
            proof {
                assert forall|path: Seq<Id>| #[trigger] is_feed_path(objs, bl, path) implies path[0] != id by {
                    assert(passes(objs, bl, path[0]));
                }
            }
            return false;
        }
        let ports = match self.node_input_ports.get(&id) {
            None => {
                assert(self.index(IndexKind::NodeInputPorts, id) == derived(objs, IndexKind::NodeInputPorts, id));
                assert(input_ports(objs, id).is_empty());
                assert(is_feed_path(objs, bl, seq![id]) && seq![id][0] == id);
                return true;
            },
            Some(p) => p,
        };
        assert(self.index(IndexKind::NodeInputPorts, id) == derived(objs, IndexKind::NodeInputPorts, id));
        if ports.is_empty() {
            assert(is_feed_path(objs, bl, seq![id]) && seq![id][0] == id);
            return true;
        }
        for port in pit: ports.iter()
            invariant
                self.wf(),
                objs == self.objects(),
                bl == self.blacklist(),
                objs.contains_key(id),
                objs.dom().finite(),
                v0 == old(visited)@,
                passes(objs, bl, id),
                ports@ == input_ports(objs, id),
                !ports@.is_empty(),
                v0.insert(id).subset_of(visited@),
                forall|x: Id|
                    #[trigger] visited@.contains(x) && !v0.contains(x) && x != id ==> settled(
                        objs,
                        bl,
                        x,
                        visited@,
                    ),
                forall|j: int| 0 <= j < pit.index() ==> #[trigger] port_settled(objs, bl, *pit.seq()[j], visited@),
            ensures
                forall|p: Id| #[trigger] ports@.contains(p) ==> port_settled(objs, bl, p, visited@),
                v0.insert(id).subset_of(visited@),
                forall|x: Id|
                    #[trigger] visited@.contains(x) && !v0.contains(x) && x != id ==> settled(
                        objs,
                        bl,
                        x,
                        visited@,
                    ),
        {
            assert(self.index(IndexKind::LinksToPort, *port) == derived(objs, IndexKind::LinksToPort, *port));
            assert(ports@.contains(*port));
            match self.links_to_port.get(port) {
                None => {
                    assert(links_into(objs, *port).is_empty());
                },
                Some(links) => {
                    for link in lit: links.iter()
                        invariant
                            self.wf(),
                            objs == self.objects(),
                            bl == self.blacklist(),
                            objs.contains_key(id),
                            objs.dom().finite(),
                            v0 == old(visited)@,
                            passes(objs, bl, id),
                            ports@ == input_ports(objs, id),
                            ports@.contains(*port),
                            links@ == links_into(objs, *port),
                            v0.insert(id).subset_of(visited@),
                            forall|x: Id|
                                #[trigger] visited@.contains(x) && !v0.contains(x) && x != id ==> settled(
                                    objs,
                                    bl,
                                    x,
                                    visited@,
                                ),
                            forall|j: int| 0 <= j < pit.index() ==> #[trigger] port_settled(objs, bl, *pit.seq()[j], visited@),
                            forall|j: int| 0 <= j < lit.index() ==> #[trigger] link_settled(objs, bl, *lit.seq()[j], visited@),
                        ensures
                            forall|l: Id| #[trigger] links_into(objs, *port).contains(l) ==> link_settled(objs, bl, l, visited@),
                    {
                        let ghost start = visited@;
                        match self.source_of_link(*link) {
                            None => {},
                            Some(u) => {
                                if !visited.contains(&u) && self.objects.contains_key(&u) {
                                    let ghost before = visited@;
                                    proof {
                                        let big = objs.dom().difference(v0);
                                        assert(objs.dom().difference(before).subset_of(big));
                                        vstd::set_lib::lemma_len_subset(objs.dom().difference(before), big);
                                        if !v0.contains(id) {
                                            assert(big.contains(id));
                                            assert(big.remove(id).len() == big.len() - 1);
                                            assert(objs.dom().difference(before).subset_of(big.remove(id)));
                                            vstd::set_lib::lemma_len_subset(objs.dom().difference(before), big.remove(id));
                                        }
                                    }
                                    if self.check_node_active(u, visited) {
                                        proof {
                                            assert forall|x: Id| v0.insert(id).contains(x) implies visited@.contains(x) by {
                                                assert(before.contains(x));
                                                assert(before.insert(u).contains(x));
                                            }
                                            let p = choose|p: Seq<Id>|
                                                #[trigger] is_feed_path(objs, bl, p) && p[0] == u && forall|i: int|
                                                    1 <= i < p.len() ==> !before.contains(#[trigger] p[i]);
                                            assert(links_into(objs, *port).contains(*link));
                                            assert(feeds(objs, u, id));
                                            lemma_feed_path_prepend(objs, bl, id, p);
                                            let q = seq![id] + p;
                                            assert forall|i: int| 1 <= i < q.len() implies !v0.contains(#[trigger] q[i]) by {
                                                assert(q[i] == p[i - 1]);
                                                if i > 1 {
                                                    assert(!before.contains(p[i - 1]));
                                                }
                                            }
                                        }
                                        return true;
                                    }
                                    proof {
                                        assert forall|x: Id| before.contains(x) implies visited@.contains(x) by {
                                            assert(before.insert(u).contains(x));
                                        }
                                        lemma_settled_grow(objs, bl, before, visited@);
                                        assert forall|x: Id|
                                            #[trigger] visited@.contains(x) && !v0.contains(x) && x != id implies settled(
                                                objs,
                                                bl,
                                                x,
                                                visited@,
                                            ) by {
                                            if before.contains(x) {
                                                assert(settled(objs, bl, x, before));
                                            }
                                        }
                                    }
                                }
                            },
                        }
                        proof {
                            assert(start.subset_of(visited@));
                            lemma_settled_grow(objs, bl, start, visited@);
                            assert(link_settled(objs, bl, *link, visited@));
                            assert(*link == *lit.seq()[lit.index()]);
                            assert forall|j: int| 0 <= j < pit.index() implies #[trigger] port_settled(objs, bl, *pit.seq()[j], visited@) by {
                                assert(port_settled(objs, bl, *pit.seq()[j], start));
                            }
                            assert forall|j: int| 0 <= j <= lit.index() implies #[trigger] link_settled(objs, bl, *lit.seq()[j], visited@) by {
                                if j < lit.index() {
                                    assert(link_settled(objs, bl, *lit.seq()[j], start));
                                }
                            }
                        }
                    }
                },
            }
            assert(port_settled(objs, bl, *port, visited@));
            assert(*port == *pit.seq()[pit.index()]);
        }
        proof {
            assert forall|u: Id| #[trigger] feeds(objs, u, id) && passes(objs, bl, u) implies visited@.contains(u) by {
                let l = choose|l: Id|
                    #[trigger] link_source(objs, l) == Some(u) && objs[l]->Link_0.input_port is Some
                        && input_ports(objs, id).contains(objs[l]->Link_0.input_port->0);
                let p = objs[l]->Link_0.input_port->0;
                assert(ports@.contains(p));
                assert(port_settled(objs, bl, p, visited@));
                assert(links_into(objs, p).contains(l));
            }
            assert(settled(objs, bl, id, visited@));
            assert forall|path: Seq<Id>|
                #[trigger] is_feed_path(objs, bl, path) && path[0] == id implies !(forall|i: int|
                    1 <= i < path.len() ==> !v0.contains(#[trigger] path[i])) by {
                if forall|i: int| 1 <= i < path.len() ==> !v0.contains(#[trigger] path[i]) {
                    lemma_settled_unreached(objs, bl, visited@, v0, path);
                }
            }
        }
        false
    }

    /// The sinks that some producer feeds through active links and passing nodes.
    pub fn get_active_sinks(&self) -> (r: HashSet<Id>)
        requires
            self.wf(),
        ensures
            r@ == active_set(self.objects(), self.whitelist(), self.blacklist()),
    {
        let ghost objs = self.objects();
        let ghost bl = self.blacklist();
        let mut active: HashSet<Id> = HashSet::new();
        for sink in it: self.sinks.iter()
            invariant
                self.wf(),
                objs == self.objects(),
                bl == self.blacklist(),
                forall|x: Id| #[trigger] active@.contains(x) ==> self.sinks@.contains(x)
                    && fed_by_producer(objs, bl, x),
                forall|j: int| 0 <= j < it.index() && #[trigger] fed_by_producer(objs, bl, *it.seq()[j])
                    ==> active@.contains(*it.seq()[j]),
            ensures
                forall|x: Id| #[trigger] active@.contains(x) <==> self.sinks@.contains(x)
                    && fed_by_producer(objs, bl, x),
        {
            assert(self.sinks@.contains(*sink));
            let mut visited: HashSet<Id> = HashSet::new();
            let ghost none = visited@;
            let found = self.check_node_active(*sink, &mut visited);
            proof {
                lemma_avoiding_nothing(objs, bl, *sink, none);
            }
            if found {
                active.insert(*sink);
            }
            assert(*sink == *it.seq()[it.index()]);
        }
        proof {
            assert(active@ =~= active_set(objs, self.whitelist(), bl));
        }
        active
    }

    /// The sink set.
    pub fn get_sinks(&self) -> (r: &HashSet<Id>)
        requires
            self.wf(),
        ensures
            r@ == sink_set(self.objects(), self.whitelist()),
    {
        &self.sinks
    }

    /// The links whose input port is `port`; `None` stands for none.
    pub fn get_links_to_port(&self, port: &Id) -> (r: Option<&HashSet<Id>>)
        requires
            self.wf(),
        ensures
            match r {
                Some(s) => s@ == derived(self.objects(), IndexKind::LinksToPort, *port),
                None => derived(self.objects(), IndexKind::LinksToPort, *port).is_empty(),
            },
    {
        assert(self.index(IndexKind::LinksToPort, *port) == derived(self.objects(), IndexKind::LinksToPort, *port));
        self.links_to_port.get(port)
    }

    /// The links whose output port is `port`; `None` stands for none.
    pub fn get_links_from_port(&self, port: &Id) -> (r: Option<&HashSet<Id>>)
        requires
            self.wf(),
        ensures
            match r {
                Some(s) => s@ == derived(self.objects(), IndexKind::LinksFromPort, *port),
                None => derived(self.objects(), IndexKind::LinksFromPort, *port).is_empty(),
            },
    {
        assert(self.index(IndexKind::LinksFromPort, *port) == derived(self.objects(), IndexKind::LinksFromPort, *port));
        self.links_from_port.get(port)
    }

    /// The input ports of node `node_id`; `None` stands for none.
    pub fn get_node_input_ports(&self, node_id: &Id) -> (r: Option<&HashSet<Id>>)
        requires
            self.wf(),
        ensures
            match r {
                Some(s) => s@ == derived(self.objects(), IndexKind::NodeInputPorts, *node_id),
                None => derived(self.objects(), IndexKind::NodeInputPorts, *node_id).is_empty(),
            },
    {
        assert(self.index(IndexKind::NodeInputPorts, *node_id) == derived(self.objects(), IndexKind::NodeInputPorts, *node_id));
        self.node_input_ports.get(node_id)
    }

    /// The output ports of node `node_id`; `None` stands for none.
    pub fn get_node_output_ports(&self, node_id: &Id) -> (r: Option<&HashSet<Id>>)
        requires
            self.wf(),
        ensures
            match r {
                Some(s) => s@ == derived(self.objects(), IndexKind::NodeOutputPorts, *node_id),
                None => derived(self.objects(), IndexKind::NodeOutputPorts, *node_id).is_empty(),
            },
    {
        assert(self.index(IndexKind::NodeOutputPorts, *node_id) == derived(self.objects(), IndexKind::NodeOutputPorts, *node_id));
        self.node_output_ports.get(node_id)
    }
}

/// Applies a delta to an object of the same kind; tells whether a stored field changed.
fn merge_object(o: PWObject, d: PWObjectData) -> (r: (PWObject, bool))
    requires
        object_merge(o@, d@) is Some,
    ensures
        r.0@ == object_merge(o@, d@)->0,
        r.1 == (r.0@ != o@),
{
    match (o, d) {
        (PWObject::Node { data }, PWObjectData::Node(nd)) => {
            let mut data = data;
            let changed = data.update(nd);
            (PWObject::Node { data }, changed)
        },
        (PWObject::Port { data }, PWObjectData::Port(nd)) => {
            let mut data = data;
            let changed = data.update(nd);
            (PWObject::Port { data }, changed)
        },
        (PWObject::Link { data }, PWObjectData::Link(nd)) => {
            let mut data = data;
            let changed = data.update(nd);
            (PWObject::Link { data }, changed)
        },
        (o, _) => (o, false),
    }
}

} // verus!

verus! {

/// The secondary indexes and the sink set of a well-formed graph hold exactly what its objects
/// imply. [PWGraph::new] makes a well-formed graph and [PWGraph::insert], [PWGraph::update] and
/// [PWGraph::remove] keep it so, hence this holds after any sequence of them.
pub proof fn lemma_indexes_derived(g: &PWGraph)
    requires
        g.wf(),
    ensures
        forall|kind: IndexKind, key: Id| #[trigger] g.index(kind, key) == derived(g.objects(), kind, key),
        g.sinks() == sink_set(g.objects(), g.whitelist()),
{
}

/// In a well-formed graph a node is in the sink set exactly when its current media class
/// contains `Sink` and it passes the whitelist.
pub proof fn lemma_sinks_exact(g: &PWGraph)
    requires
        g.wf(),
    ensures
        forall|n: Id| #[trigger] g.sinks().contains(n) <==> {
            &&& g.objects().contains_key(n)
            &&& g.objects()[n] is Node
            &&& g.objects()[n]->Node_0.media_class is Some
            &&& has_substring(g.objects()[n]->Node_0.media_class->0, "Sink"@)
            &&& (g.whitelist().len() == 0 || exists|i: int|
                0 <= i < g.whitelist().len() && sink_filter_accepts(
                    #[trigger] g.whitelist()[i],
                    g.objects()[n]->Node_0,
                ))
        },
{
}

/// Adding a filter to an empty sink whitelist never enlarges the sink set. (With a non-empty
/// whitelist, one more filter lets more nodes through.)
pub proof fn lemma_whitelist_restricts(
    objs: Map<Id, ObjectView>,
    whitelist: Seq<Option<Seq<char>>>,
    filter: Option<Seq<char>>,
)
    requires
        whitelist.len() == 0,
    ensures
        sink_set(objs, whitelist.push(filter)).subset_of(sink_set(objs, whitelist)),
{
}

/// Adding a filter to the node blacklist never enlarges the set of active sinks.
pub proof fn lemma_blacklist_shrinks_active(
    objs: Map<Id, ObjectView>,
    whitelist: Seq<Option<Seq<char>>>,
    blacklist: Seq<NodeFilterView>,
    filter: NodeFilterView,
)
    ensures
        active_set(objs, whitelist, blacklist.push(filter)).subset_of(
            active_set(objs, whitelist, blacklist),
        ),
{
    let bigger = blacklist.push(filter);
    assert forall|n: Id| passes(objs, bigger, n) implies passes(objs, blacklist, n) by {
        if exists|i: int| 0 <= i < blacklist.len() && node_filter_accepts(#[trigger] blacklist[i], objs[n]->Node_0) {
            let i = choose|i: int| 0 <= i < blacklist.len() && node_filter_accepts(#[trigger] blacklist[i], objs[n]->Node_0);
            assert(bigger[i] == blacklist[i]);
        }
    }
    assert forall|s: Id| #[trigger] active_set(objs, whitelist, bigger).contains(s) implies active_set(objs, whitelist, blacklist).contains(s) by {
        let path = choose|path: Seq<Id>| #[trigger] is_feed_path(objs, bigger, path) && path[0] == s;
        assert forall|i: int| 0 <= i < path.len() implies passes(objs, blacklist, #[trigger] path[i]) by {
            assert(passes(objs, bigger, path[i]));
        }
        assert(is_feed_path(objs, blacklist, path));
    }
}

} // verus!
