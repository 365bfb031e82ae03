//! Data kept for each tracked object of the audio graph: nodes, ports and links.
//!
//! Every field is optional: an object is announced with a first set of properties and later
//! info events only carry the properties that changed.

use vstd::prelude::*;

verus! {

/// Identifier that the audio server gives to a live object.
pub type Id = u32;

/// Direction of a port.
#[derive(PartialEq, Eq, Structural, Clone, Copy, Debug)]
pub enum Direction {
    Input,
    Output,
}

/// The view of an optional string.
pub open spec fn opt_view(o: Option<String>) -> Option<Seq<char>> {
    match o {
        Some(s) => Some(s@),
        None => None,
    }
}

/// A delta field replaces the stored one when it is present.
pub open spec fn merge_field<T>(old: Option<T>, new: Option<T>) -> Option<T> {
    if new is Some {
        new
    } else {
        old
    }
}

/// Compares two optional strings by value.
pub fn opt_string_eq(a: &Option<String>, b: &Option<String>) -> (r: bool)
    ensures
        r == (opt_view(*a) == opt_view(*b)),
{
    match (a, b) {
        (Some(x), Some(y)) => String::eq(x, y),
        (None, None) => true,
        _ => false,
    }
}

/// Mathematical model of [NodeData].
pub struct NodeView {
    pub name: Option<Seq<char>>,
    pub app_name: Option<Seq<char>>,
    pub description: Option<Seq<char>>,
    pub nick: Option<Seq<char>>,
    pub media_class: Option<Seq<char>>,
    pub media_role: Option<Seq<char>>,
    pub media_software: Option<Seq<char>>,
}

/// Properties of a node that the application uses.
#[derive(Debug, Clone)]
pub struct NodeData {
    pub name: Option<String>,
    pub app_name: Option<String>,
    pub description: Option<String>,
    pub nick: Option<String>,
    pub media_class: Option<String>,
    pub media_role: Option<String>,
    pub media_software: Option<String>,
}

impl View for NodeData {
    type V = NodeView;

    open spec fn view(&self) -> NodeView {
        NodeView {
            name: opt_view(self.name),
            app_name: opt_view(self.app_name),
            description: opt_view(self.description),
            nick: opt_view(self.nick),
            media_class: opt_view(self.media_class),
            media_role: opt_view(self.media_role),
            media_software: opt_view(self.media_software),
        }
    }
}

/// The display name of a node: the first defined of description, nick and name.
pub open spec fn display_name(n: NodeView) -> Option<Seq<char>> {
    if n.description is Some {
        n.description
    } else if n.nick is Some {
        n.nick
    } else {
        n.name
    }
}

/// A node delta that carries no property.
pub open spec fn node_view_empty(n: NodeView) -> bool {
    &&& n.name is None
    &&& n.app_name is None
    &&& n.description is None
    &&& n.nick is None
    &&& n.media_class is None
    &&& n.media_role is None
    &&& n.media_software is None
}

/// The node that results from applying a delta to a stored node.
pub open spec fn node_merge(old: NodeView, new: NodeView) -> NodeView {
    NodeView {
        name: merge_field(old.name, new.name),
        app_name: merge_field(old.app_name, new.app_name),
        description: merge_field(old.description, new.description),
        nick: merge_field(old.nick, new.nick),
        media_class: merge_field(old.media_class, new.media_class),
        media_role: merge_field(old.media_role, new.media_role),
        media_software: merge_field(old.media_software, new.media_software),
    }
}

/// Borrows the string of an optional string.
pub(crate) fn opt_as_str(o: &Option<String>) -> (r: Option<&str>)
    ensures
        match r {
            Some(s) => opt_view(*o) == Some(s@),
            None => o is None,
        },
{
    match o {
        Some(s) => Some(s.as_str()),
        None => None,
    }
}

/// Keeps `new` when it is present, else `old`.
fn merge_string(old: Option<String>, new: Option<String>) -> (r: Option<String>)
    ensures
        opt_view(r) == merge_field(opt_view(old), opt_view(new)),
{
    match new {
        Some(s) => Some(s),
        None => old,
    }
}

impl NodeData {
    /// A node with no property set.
    pub fn empty() -> (r: Self)
        ensures
            node_view_empty(r@),
    {
        NodeData {
            name: None,
            app_name: None,
            description: None,
            nick: None,
            media_class: None,
            media_role: None,
            media_software: None,
        }
    }

    /// The display name: description, else nick, else name.
    pub fn get_name(&self) -> (r: Option<&str>)
        ensures
            match r {
                Some(s) => display_name(self@) == Some(s@),
                None => display_name(self@) is None,
            },
    {
        if self.description.is_some() {
            opt_as_str(&self.description)
        } else if self.nick.is_some() {
            opt_as_str(&self.nick)
        } else {
            opt_as_str(&self.name)
        }
    }

    /// Whether no property is set.
    pub fn is_empty(&self) -> (r: bool)
        ensures
            r == node_view_empty(self@),
    {
        self.name.is_none() && self.app_name.is_none() && self.description.is_none()
            && self.nick.is_none() && self.media_class.is_none() && self.media_role.is_none()
            && self.media_software.is_none()
    }

    /// The stored node `old` with the present fields of `new` written over it.
    pub fn join(old: Self, new: Self) -> (r: Self)
        ensures
            r@ == node_merge(old@, new@),
    {
        NodeData {
            name: merge_string(old.name, new.name),
            app_name: merge_string(old.app_name, new.app_name),
            description: merge_string(old.description, new.description),
            nick: merge_string(old.nick, new.nick),
            media_class: merge_string(old.media_class, new.media_class),
            media_role: merge_string(old.media_role, new.media_role),
            media_software: merge_string(old.media_software, new.media_software),
        }
    }

    /// Writes the present fields of `new` over this node; tells whether a stored field changed.
    pub fn update(&mut self, new: Self) -> (r: bool)
        ensures
            final(self)@ == node_merge(old(self)@, new@),
            r == (final(self)@ != old(self)@),
    {
        let changed = (new.name.is_some() && !opt_string_eq(&self.name, &new.name))
            || (new.app_name.is_some() && !opt_string_eq(&self.app_name, &new.app_name))
            || (new.description.is_some() && !opt_string_eq(&self.description, &new.description))
            || (new.nick.is_some() && !opt_string_eq(&self.nick, &new.nick))
            || (new.media_class.is_some() && !opt_string_eq(&self.media_class, &new.media_class))
            || (new.media_role.is_some() && !opt_string_eq(&self.media_role, &new.media_role))
            || (new.media_software.is_some() && !opt_string_eq(
                &self.media_software,
                &new.media_software,
            ));
        let cur = self.clone_data();
        *self = NodeData::join(cur, new);
        changed
    }

    /// A copy with the same properties.
    pub fn clone_data(&self) -> (r: Self)
        ensures
            r@ == self@,
    {
        NodeData {
            name: clone_opt_string(&self.name),
            app_name: clone_opt_string(&self.app_name),
            description: clone_opt_string(&self.description),
            nick: clone_opt_string(&self.nick),
            media_class: clone_opt_string(&self.media_class),
            media_role: clone_opt_string(&self.media_role),
            media_software: clone_opt_string(&self.media_software),
        }
    }
}

/// Copies an optional string.
pub fn clone_opt_string(o: &Option<String>) -> (r: Option<String>)
    ensures
        opt_view(r) == opt_view(*o),
{
    match o {
        Some(s) => Some(s.clone()),
        None => None,
    }
}

/// Mathematical model of [PortData].
pub struct PortView {
    pub name: Option<Seq<char>>,
    pub node_id: Option<Id>,
    pub direction: Option<Direction>,
    pub is_terminal: Option<bool>,
}

/// Properties of a port that the application uses.
#[derive(Debug, Clone)]
pub struct PortData {
    pub name: Option<String>,
    pub node_id: Option<Id>,
    pub direction: Option<Direction>,
    pub is_terminal: Option<bool>,
}

impl View for PortData {
    type V = PortView;

    open spec fn view(&self) -> PortView {
        PortView {
            name: opt_view(self.name),
            node_id: self.node_id,
            direction: self.direction,
            is_terminal: self.is_terminal,
        }
    }
}

/// A port delta that carries no property.
pub open spec fn port_view_empty(p: PortView) -> bool {
    &&& p.name is None
    &&& p.node_id is None
    &&& p.direction is None
    &&& p.is_terminal is None
}

/// The port that results from applying a delta to a stored port.
pub open spec fn port_merge(old: PortView, new: PortView) -> PortView {
    PortView {
        name: merge_field(old.name, new.name),
        node_id: merge_field(old.node_id, new.node_id),
        direction: merge_field(old.direction, new.direction),
        is_terminal: merge_field(old.is_terminal, new.is_terminal),
    }
}

fn merge_copy<T: Copy>(old: Option<T>, new: Option<T>) -> (r: Option<T>)
    ensures
        r == merge_field(old, new),
{
    match new {
        Some(v) => Some(v),
        None => old,
    }
}

fn opt_u32_eq(a: Option<u32>, b: Option<u32>) -> (r: bool)
    ensures
        r == (a == b),
{
    match (a, b) {
        (Some(x), Some(y)) => x == y,
        (None, None) => true,
        _ => false,
    }
}

fn opt_bool_eq(a: Option<bool>, b: Option<bool>) -> (r: bool)
    ensures
        r == (a == b),
{
    match (a, b) {
        (Some(x), Some(y)) => x == y,
        (None, None) => true,
        _ => false,
    }
}

fn opt_direction_eq(a: Option<Direction>, b: Option<Direction>) -> (r: bool)
    ensures
        r == (a == b),
{
    match (a, b) {
        (Some(x), Some(y)) => x == y,
        (None, None) => true,
        _ => false,
    }
}

impl PortData {
    /// A port with no property set.
    pub fn empty() -> (r: Self)
        ensures
            port_view_empty(r@),
    {
        PortData { name: None, node_id: None, direction: None, is_terminal: None }
    }

    /// Whether no property is set.
    pub fn is_empty(&self) -> (r: bool)
        ensures
            r == port_view_empty(self@),
    {
        self.name.is_none() && self.node_id.is_none() && self.direction.is_none()
            && self.is_terminal.is_none()
    }

    /// The stored port `old` with the present fields of `new` written over it.
    pub fn join(old: Self, new: Self) -> (r: Self)
        ensures
            r@ == port_merge(old@, new@),
    {
        PortData {
            name: merge_string(old.name, new.name),
            node_id: merge_copy(old.node_id, new.node_id),
            direction: merge_copy(old.direction, new.direction),
            is_terminal: merge_copy(old.is_terminal, new.is_terminal),
        }
    }

    /// Writes the present fields of `new` over this port; tells whether a stored field changed.
    pub fn update(&mut self, new: Self) -> (r: bool)
        ensures
            final(self)@ == port_merge(old(self)@, new@),
            r == (final(self)@ != old(self)@),
    {
        let changed = (new.name.is_some() && !opt_string_eq(&self.name, &new.name))
            || (new.node_id.is_some() && !opt_u32_eq(self.node_id, new.node_id))
            || (new.direction.is_some() && !opt_direction_eq(self.direction, new.direction))
            || (new.is_terminal.is_some() && !opt_bool_eq(self.is_terminal, new.is_terminal));
        let cur = self.clone_data();
        *self = PortData::join(cur, new);
        changed
    }

    /// A copy with the same properties.
    pub fn clone_data(&self) -> (r: Self)
        ensures
            r@ == self@,
    {
        PortData {
            name: clone_opt_string(&self.name),
            node_id: self.node_id,
            direction: self.direction,
            is_terminal: self.is_terminal,
        }
    }
}

/// Properties of a link that the application uses.
#[derive(PartialEq, Eq, Structural, Debug, Clone, Copy)]
pub struct LinkData {
    pub input_port: Option<Id>,
    pub output_port: Option<Id>,
    pub active: Option<bool>,
}

/// A link delta that carries no property.
pub open spec fn link_empty(l: LinkData) -> bool {
    &&& l.input_port is None
    &&& l.output_port is None
    &&& l.active is None
}

/// The link that results from applying a delta to a stored link.
pub open spec fn link_merge(old: LinkData, new: LinkData) -> LinkData {
    LinkData {
        input_port: merge_field(old.input_port, new.input_port),
        output_port: merge_field(old.output_port, new.output_port),
        active: merge_field(old.active, new.active),
    }
}

impl LinkData {
    /// Whether no property is set.
    pub fn is_empty(&self) -> (r: bool)
        ensures
            r == link_empty(*self),
    {
        self.input_port.is_none() && self.output_port.is_none() && self.active.is_none()
    }

    /// The stored link `old` with the present fields of `new` written over it.
    pub fn join(old: Self, new: Self) -> (r: Self)
        ensures
            r == link_merge(old, new),
    {
        LinkData {
            input_port: merge_copy(old.input_port, new.input_port),
            output_port: merge_copy(old.output_port, new.output_port),
            active: merge_copy(old.active, new.active),
        }
    }

    /// Writes the present fields of `new` over this link; tells whether a stored field changed.
    pub fn update(&mut self, new: Self) -> (r: bool)
        ensures
            *final(self) == link_merge(*old(self), new),
            r == (*final(self) != *old(self)),
    {
        let changed = (new.input_port.is_some() && !opt_u32_eq(self.input_port, new.input_port))
            || (new.output_port.is_some() && !opt_u32_eq(self.output_port, new.output_port))
            || (new.active.is_some() && !opt_bool_eq(self.active, new.active));
        *self = LinkData::join(*self, new);
        changed
    }
}

/// A delta for one object of the graph.
#[derive(Debug, Clone)]
pub enum PWObjectData {
    Node(NodeData),
    Port(PortData),
    Link(LinkData),
}

impl PWObjectData {
    /// Whether the delta carries no property.
    pub fn is_empty(&self) -> (r: bool)
        ensures
            r == match self {
                PWObjectData::Node(d) => node_view_empty(d@),
                PWObjectData::Port(d) => port_view_empty(d@),
                PWObjectData::Link(d) => link_empty(*d),
            },
    {
        match self {
            PWObjectData::Node(d) => d.is_empty(),
            PWObjectData::Port(d) => d.is_empty(),
            PWObjectData::Link(d) => d.is_empty(),
        }
    }
}

/// Mathematical model of an object of the graph.
pub enum ObjectView {
    Node(NodeView),
    Port(PortView),
    Link(LinkData),
}

impl View for PWObjectData {
    type V = ObjectView;

    open spec fn view(&self) -> ObjectView {
        match self {
            PWObjectData::Node(d) => ObjectView::Node(d@),
            PWObjectData::Port(d) => ObjectView::Port(d@),
            PWObjectData::Link(d) => ObjectView::Link(*d),
        }
    }
}

/// The object that results from applying delta `d` to object `o`, when both are of one kind.
pub open spec fn object_merge(o: ObjectView, d: ObjectView) -> Option<ObjectView> {
    match (o, d) {
        (ObjectView::Node(a), ObjectView::Node(b)) => Some(ObjectView::Node(node_merge(a, b))),
        (ObjectView::Port(a), ObjectView::Port(b)) => Some(ObjectView::Port(port_merge(a, b))),
        (ObjectView::Link(a), ObjectView::Link(b)) => Some(ObjectView::Link(link_merge(a, b))),
        _ => None,
    }
}

/// An object of the graph, by kind.
#[derive(Debug, Clone)]
pub enum PWObject {
    Node { data: NodeData },
    Port { data: PortData },
    Link { data: LinkData },
}

impl View for PWObject {
    type V = ObjectView;

    open spec fn view(&self) -> ObjectView {
        match self {
            PWObject::Node { data } => ObjectView::Node(data@),
            PWObject::Port { data } => ObjectView::Port(data@),
            PWObject::Link { data } => ObjectView::Link(*data),
        }
    }
}

/// The port direction that a `port.direction` property names.
pub open spec fn direction_of(s: Seq<char>) -> Option<Direction> {
    if s == "out"@ {
        Some(Direction::Output)
    } else if s == "in"@ {
        Some(Direction::Input)
    } else {
        None
    }
}

/// Decodes a `port.direction` property: `"in"` or `"out"`.
pub fn direction_from_string(direction: &str) -> (r: Option<Direction>)
    ensures
        r == direction_of(direction@),
{
    let d = direction.to_owned();
    if String::eq(&d, &"out".to_owned()) {
        Some(Direction::Output)
    } else if String::eq(&d, &"in".to_owned()) {
        Some(Direction::Input)
    } else {
        None
    }
}

} // verus!
