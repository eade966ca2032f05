//! Identifiers and the data model of the graph.
use vstd::prelude::*;

use crate::dense_map::EntityId;

verus! {

/// The key under which values are grouped and looked up.
///
/// Contracts compare keys with `==`; an implementation owes a `same_key` that
/// decides exactly that.
pub trait KeyNode: Sized {
    /// Whether two keys are the same key.
    fn same_key(&self, other: &Self) -> (same: bool)
        ensures
            same == (*self == *other),
    ;
}

/// A caller-supplied value that exposes the key it belongs to.
///
/// Contracts compare values with `==`, and speak of the key of a value as
/// `key_of`; an implementation owes a `same_value` and a `get_key` that
/// compute exactly these.
pub trait ValueNode: Sized {
    type Key: KeyNode;

    /// The key of this value, as contracts speak of it.
    spec fn key_of(&self) -> Self::Key;

    /// The key of this value.
    fn get_key(&self) -> (key: Self::Key)
        ensures
            key == self.key_of(),
    ;

    /// Whether two values are the same value.
    fn same_value(&self, other: &Self) -> (same: bool)
        ensures
            same == (*self == *other),
    ;
}

/// A payload attached to a node for the benefit of whoever explains a verdict.
/// The engine stores it and never looks inside.
pub trait Metadata {
    /// A human-readable account of the payload.
    fn describe(&self) -> String;
}

/// Identifies a node of the graph.
#[derive(Debug, Clone, Copy, PartialEq, Eq, Hash, Structural)]
pub struct NodeId(pub usize);

/// Identifies an edge of the graph.
#[derive(Debug, Clone, Copy, PartialEq, Eq, Hash, Structural)]
pub struct EdgeId(pub usize);

/// Identifies a registered domain.
#[derive(Debug, Clone, Copy, PartialEq, Eq, Hash, Structural)]
pub struct DomainId(pub usize);

impl EntityId for NodeId {
    open spec fn id_spec(&self) -> usize {
        self.0
    }

    fn get_id(&self) -> usize {
        self.0
    }

    fn with_id(id: usize) -> Self {
        NodeId(id)
    }
}

impl EntityId for EdgeId {
    open spec fn id_spec(&self) -> usize {
        self.0
    }

    fn get_id(&self) -> usize {
        self.0
    }

    fn with_id(id: usize) -> Self {
        EdgeId(id)
    }
}

impl EntityId for DomainId {
    open spec fn id_spec(&self) -> usize {
        self.0
    }

    fn get_id(&self) -> usize {
        self.0
    }

    fn with_id(id: usize) -> Self {
        DomainId(id)
    }
}

/// Whether an edge must hold for its successor to be satisfied.
#[derive(Debug, Clone, Copy, PartialEq, Eq, Hash, Structural)]
pub enum Strength {
    /// Advisory: read, but never blocks the successor.
    Weak,
    /// Mandatory for the successor.
    Strong,
}

/// Whether the truth of the predecessor supports or opposes the successor.
#[derive(Debug, Clone, Copy, PartialEq, Eq, Hash, Structural)]
pub enum Relation {
    Positive,
    Negative,
}

/// A directed, labelled connection from `pred` to `succ`.
#[derive(Debug, Clone, Copy, PartialEq, Eq, Structural)]
pub struct Edge {
    pub strength: Strength,
    pub relation: Relation,
    pub pred: NodeId,
    pub succ: NodeId,
}

/// The name under which a domain is registered.
#[derive(Debug, Clone, Copy)]
pub struct DomainIdentifier<'a>(&'a str);

impl<'a> DomainIdentifier<'a> {
    /// The characters of the name.
    pub closed spec fn name(&self) -> Seq<char> {
        self.0@
    }

    pub fn new(domain_identifier: &'a str) -> (identifier: Self)
        ensures
            identifier.name() == domain_identifier@,
    {
        DomainIdentifier(domain_identifier)
    }

    pub fn into_inner(&self) -> (inner: &'a str)
        ensures
            inner@ == self.name(),
    {
        self.0
    }
}

/// A registered domain: its name and the description given when it was first
/// registered.
pub struct DomainInfo<'a> {
    pub domain_identifier: DomainIdentifier<'a>,
    pub domain_description: String,
}

/// What a value node asserts: that a key is present, or that it has one value.
pub enum NodeValue<V: ValueNode> {
    Key(<V as ValueNode>::Key),
    Value(V),
}

impl<V: ValueNode> NodeValue<V> {
    /// The key that this assertion is about.
    pub open spec fn key_of(&self) -> V::Key {
        match self {
            NodeValue::Key(key) => *key,
            NodeValue::Value(value) => value.key_of(),
        }
    }

    /// Whether two assertions are the same assertion.
    pub fn same_as(&self, other: &Self) -> (same: bool)
        ensures
            same == (*self == *other),
    {
        match (self, other) {
            (NodeValue::Key(a), NodeValue::Key(b)) => a.same_key(b),
            (NodeValue::Value(a), NodeValue::Value(b)) => a.same_value(b),
            _ => false,
        }
    }
}

/// What a node is.
pub enum NodeType<V: ValueNode> {
    /// Satisfied when every mandatory predecessor reading is.
    AllAggregator,
    /// Satisfied when at least one predecessor reading is.
    AnyAggregator,
    /// Satisfied when the context's value for the members' key is a member.
    InAggregator(Vec<V>),
    /// An asserted fact.
    Value(NodeValue<V>),
}

/// A node with its incoming and outgoing edges, each list in creation order.
pub struct Node<V: ValueNode> {
    pub node_type: NodeType<V>,
    pub preds: Vec<EdgeId>,
    pub succs: Vec<EdgeId>,
    pub domain_ids: Vec<DomainId>,
}

impl<V: ValueNode> Node<V> {
    /// A node of the given kind in the given domains, with no edges yet.
    pub fn new(node_type: NodeType<V>, domain_ids: Vec<DomainId>) -> (node: Self)
        ensures
            node.node_type == node_type,
            node.domain_ids == domain_ids,
            node.preds@ == Seq::<EdgeId>::empty(),
            node.succs@ == Seq::<EdgeId>::empty(),
    {
        Node { node_type, preds: Vec::new(), succs: Vec::new(), domain_ids }
    }
}

/// Whether `members` holds `value`.
pub fn holds_value<V: ValueNode>(members: &Vec<V>, value: &V) -> (held: bool)
    ensures
        held == members@.contains(*value),
{
    let mut i: usize = 0;
    while i < members.len()
        invariant
            i <= members@.len(),
            forall|j: int| 0 <= j < i ==> members@[j] != *value,
        decreases members@.len() - i,
    {
        if members[i].same_value(value) {
            return true;
        }
        i = i + 1;
    }
    false
}

} // verus!
