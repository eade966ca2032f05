//! The graph as contracts speak of it: sequences of domains, nodes and edges,
//! the rules that a well-formed graph obeys, and what each construction step
//! does to it.
use std::sync::Arc;

use vstd::prelude::*;

use crate::error::{mixed_keys_reason, GraphFault};
use crate::types::{
    DomainId, DomainIdentifier, DomainInfo, Edge, EdgeId, Metadata, Node, NodeId, NodeType, NodeValue, Relation,
    Strength, ValueNode,
};

verus! {

/// A registered domain.
pub struct DomainModel {
    pub identifier: Seq<char>,
    pub description: Seq<char>,
}

/// The kind of a node, the members of an `In` aggregator as a sequence.
pub enum NodeKind<V: ValueNode> {
    AllAggregator,
    AnyAggregator,
    InAggregator(Seq<V>),
    Value(NodeValue<V>),
}

/// A node.
pub struct NodeModel<V: ValueNode> {
    pub kind: NodeKind<V>,
    pub preds: Seq<EdgeId>,
    pub succs: Seq<EdgeId>,
    pub domain_ids: Seq<DomainId>,
}

impl<'a> View for DomainInfo<'a> {
    type V = DomainModel;

    open spec fn view(&self) -> DomainModel {
        DomainModel {
            identifier: self.domain_identifier.name(),
            description: self.domain_description@,
        }
    }
}

impl<V: ValueNode> View for NodeType<V> {
    type V = NodeKind<V>;

    open spec fn view(&self) -> NodeKind<V> {
        match self {
            NodeType::AllAggregator => NodeKind::AllAggregator,
            NodeType::AnyAggregator => NodeKind::AnyAggregator,
            NodeType::InAggregator(members) => NodeKind::InAggregator(members@),
            NodeType::Value(value) => NodeKind::Value(*value),
        }
    }
}

impl<V: ValueNode> View for Node<V> {
    type V = NodeModel<V>;

    open spec fn view(&self) -> NodeModel<V> {
        NodeModel {
            kind: self.node_type@,
            preds: self.preds@,
            succs: self.succs@,
            domain_ids: self.domain_ids@,
        }
    }
}

/// The label of a node as its characters.
pub open spec fn info_view(info: Option<&'static str>) -> Option<Seq<char>> {
    match info {
        Some(text) => Some(text@),
        None => None,
    }
}

/// The names of the given identifiers.
pub open spec fn domain_names(identifiers: Seq<DomainIdentifier<'_>>) -> Seq<Seq<char>> {
    identifiers.map_values(|identifier: DomainIdentifier<'_>| identifier.name())
}

/// The members of `values` without repetition, each where it first occurs.
pub open spec fn distinct<T>(values: Seq<T>) -> Seq<T>
    decreases values.len(),
{
    if values.len() == 0 {
        values
    } else {
        let before = distinct(values.drop_last());
        if before.contains(values.last()) {
            before
        } else {
            before.push(values.last())
        }
    }
}

/// A member of an aggregator: the node, and the labels of the edge from it.
pub struct Member {
    pub node: NodeId,
    pub relation: Relation,
    pub strength: Strength,
}

/// The members of an `All` aggregator as given to the builder.
pub open spec fn all_members(nodes: Seq<(NodeId, Relation, Strength)>) -> Seq<Member> {
    Seq::new(
        nodes.len(),
        |i: int| Member { node: nodes[i].0, relation: nodes[i].1, strength: nodes[i].2 },
    )
}

/// The members of an `Any` aggregator as given to the builder: every edge of
/// such a node is strong.
pub open spec fn any_members(nodes: Seq<(NodeId, Relation)>) -> Seq<Member> {
    Seq::new(
        nodes.len(),
        |i: int| Member { node: nodes[i].0, relation: nodes[i].1, strength: Strength::Strong },
    )
}

/// Whether no two members name one node with different labels.
pub open spec fn members_agree(members: Seq<Member>) -> bool {
    forall|i: int, j: int|
        0 <= i < members.len() && 0 <= j < members.len() && (#[trigger] members[i]).node == (
        #[trigger] members[j]).node ==> members[i] == members[j]
}

/// A graph, under construction or frozen.
pub struct GraphModel<V: ValueNode> {
    pub domains: Seq<DomainModel>,
    pub nodes: Seq<NodeModel<V>>,
    pub edges: Seq<Edge>,
    pub node_info: Seq<Option<Seq<char>>>,
    pub node_metadata: Seq<Option<Arc<dyn Metadata>>>,
}

impl<V: ValueNode> GraphModel<V> {
    /// The graph without domains, nodes or edges.
    pub open spec fn empty() -> Self {
        GraphModel {
            domains: Seq::empty(),
            nodes: Seq::empty(),
            edges: Seq::empty(),
            node_info: Seq::empty(),
            node_metadata: Seq::empty(),
        }
    }

    /// Whether `node` addresses a node.
    pub open spec fn has_node(&self, node: NodeId) -> bool {
        (node.0 as int) < self.nodes.len()
    }

    /// Whether edge `e` leads from `pred` to `succ`.
    pub open spec fn joins(&self, e: int, pred: NodeId, succ: NodeId) -> bool {
        0 <= e < self.edges.len() && self.edges[e].pred == pred && self.edges[e].succ == succ
    }

    /// Whether domain `d` is registered under `name`.
    pub open spec fn names(&self, d: int, name: Seq<char>) -> bool {
        0 <= d < self.domains.len() && self.domains[d].identifier == name
    }

    /// Whether node `n` is the value node of `value`.
    pub open spec fn asserts(&self, n: int, value: NodeValue<V>) -> bool {
        0 <= n < self.nodes.len() && self.nodes[n].kind == NodeKind::Value(value)
    }

    /// The edge from `pred` to `succ`, if there is one.
    pub open spec fn edge_between(&self, pred: NodeId, succ: NodeId) -> Option<EdgeId> {
        if exists|e: int| self.joins(e, pred, succ) {
            Some(EdgeId((choose|e: int| self.joins(e, pred, succ)) as usize))
        } else {
            None
        }
    }

    /// The domain registered under `name`, if there is one.
    pub open spec fn domain_named(&self, name: Seq<char>) -> Option<DomainId> {
        if exists|d: int| self.names(d, name) {
            Some(DomainId((choose|d: int| self.names(d, name)) as usize))
        } else {
            None
        }
    }

    /// The node that asserts `value`, if there is one.
    pub open spec fn value_node(&self, value: NodeValue<V>) -> Option<NodeId> {
        if exists|n: int| self.asserts(n, value) {
            Some(NodeId((choose|n: int| self.asserts(n, value)) as usize))
        } else {
            None
        }
    }

    /// Whether both ends of edge `e` are nodes.
    pub open spec fn edge_ok(&self, e: int) -> bool {
        self.has_node(self.edges[e].pred) && self.has_node(self.edges[e].succ)
    }

    /// Whether the `i`-th incoming edge of node `n` is an edge that ends in `n`.
    pub open spec fn pred_ok(&self, n: int, i: int) -> bool {
        let e = self.nodes[n].preds[i];
        (e.0 as int) < self.edges.len() && self.edges[e.0 as int].succ.0 == n
    }

    /// Whether the `i`-th outgoing edge of node `n` is an edge that starts in `n`.
    pub open spec fn succ_ok(&self, n: int, i: int) -> bool {
        let e = self.nodes[n].succs[i];
        (e.0 as int) < self.edges.len() && self.edges[e.0 as int].pred.0 == n
    }

    /// Whether edge `e` is listed among the incoming edges of its successor
    /// and among the outgoing edges of its predecessor.
    pub open spec fn edge_listed(&self, e: int) -> bool {
        let id = EdgeId(e as usize);
        self.nodes[self.edges[e].succ.0 as int].preds.contains(id) && self.nodes[self.edges[e].pred.0 as int].succs.contains(
            id,
        )
    }

    /// Whether node `n` lists no edge twice.
    pub open spec fn lists_once(&self, n: int) -> bool {
        self.nodes[n].preds.no_duplicates() && self.nodes[n].succs.no_duplicates()
    }

    /// Whether the `i`-th domain of node `n` is registered.
    pub open spec fn domain_ok(&self, n: int, i: int) -> bool {
        (self.nodes[n].domain_ids[i].0 as int) < self.domains.len()
    }

    /// Whether node `n`, if it is an `In` aggregator, has at least one member,
    /// members of one key, and no member twice.
    pub open spec fn members_ok(&self, n: int) -> bool {
        self.nodes[n].kind matches NodeKind::InAggregator(members) ==> {
            &&& members.len() > 0
            &&& members.no_duplicates()
            &&& forall|i: int|
                0 <= i < members.len() ==> (#[trigger] members[i]).key_of() == members[0].key_of()
        }
    }

    /// The rules of a graph: every reference addresses something; the edge lists
    /// of the nodes hold exactly the edges that end or start there, each once;
    /// no ordered pair of nodes has two edges, no name two domains, no value
    /// two nodes.
    pub open spec fn wf(&self) -> bool {
        &&& self.nodes.len() <= usize::MAX
        &&& self.edges.len() <= usize::MAX
        &&& self.domains.len() <= usize::MAX
        &&& self.node_info.len() == self.nodes.len()
        &&& self.node_metadata.len() == self.nodes.len()
        &&& forall|e: int| 0 <= e < self.edges.len() ==> #[trigger] self.edge_ok(e)
        &&& forall|e: int| 0 <= e < self.edges.len() ==> #[trigger] self.edge_listed(e)
        &&& forall|n: int| 0 <= n < self.nodes.len() ==> #[trigger] self.lists_once(n)
        &&& forall|n: int, i: int|
            0 <= n < self.nodes.len() && 0 <= i < self.nodes[n].preds.len() ==> #[trigger] self.pred_ok(
                n,
                i,
            )
        &&& forall|n: int, i: int|
            0 <= n < self.nodes.len() && 0 <= i < self.nodes[n].succs.len() ==> #[trigger] self.succ_ok(
                n,
                i,
            )
        &&& forall|n: int, i: int|
            0 <= n < self.nodes.len() && 0 <= i < self.nodes[n].domain_ids.len()
                ==> #[trigger] self.domain_ok(n, i)
        &&& forall|n: int| 0 <= n < self.nodes.len() ==> #[trigger] self.members_ok(n)
        &&& forall|e1: int, e2: int, pred: NodeId, succ: NodeId|
            #[trigger] self.joins(e1, pred, succ) && #[trigger] self.joins(e2, pred, succ) ==> e1
                == e2
        &&& forall|d1: int, d2: int, name: Seq<char>|
            #[trigger] self.names(d1, name) && #[trigger] self.names(d2, name) ==> d1 == d2
        &&& forall|n1: int, n2: int, value: NodeValue<V>|
            #[trigger] self.asserts(n1, value) && #[trigger] self.asserts(n2, value) ==> n1 == n2
    }

    /// The graph with one more node, which has no edges.
    pub open spec fn add_node(
        self,
        kind: NodeKind<V>,
        domain_ids: Seq<DomainId>,
        info: Option<Seq<char>>,
        metadata: Option<Arc<dyn Metadata>>,
    ) -> Self {
        GraphModel {
            nodes: self.nodes.push(
                NodeModel { kind, preds: Seq::empty(), succs: Seq::empty(), domain_ids },
            ),
            node_info: self.node_info.push(info),
            node_metadata: self.node_metadata.push(metadata),
            ..self
        }
    }

    /// The graph with one more edge, listed last among the outgoing edges of
    /// its predecessor and among the incoming edges of its successor.
    pub open spec fn add_edge(self, edge: Edge) -> Self {
        let id = EdgeId(self.edges.len() as usize);
        let p = edge.pred.0 as int;
        let s = edge.succ.0 as int;
        let left = self.nodes.update(
            p,
            NodeModel { succs: self.nodes[p].succs.push(id), ..self.nodes[p] },
        );
        let both = left.update(s, NodeModel { preds: left[s].preds.push(id), ..left[s] });
        GraphModel { edges: self.edges.push(edge), nodes: both, ..self }
    }

    /// Registering a domain: a name that is registered keeps its id and its
    /// description; a new name gets the next id.
    pub open spec fn make_domain(self, name: Seq<char>, description: Seq<char>) -> (Self, DomainId) {
        match self.domain_named(name) {
            Some(id) => (self, id),
            None => (
                GraphModel {
                    domains: self.domains.push(DomainModel { identifier: name, description }),
                    ..self
                },
                DomainId(self.domains.len() as usize),
            ),
        }
    }

    /// The ids of the named domains, `None` where a name is not registered.
    pub open spec fn resolve(&self, names: Seq<Seq<char>>) -> Option<Seq<DomainId>> {
        if forall|i: int| 0 <= i < names.len() ==> self.domain_named(#[trigger] names[i]) is Some {
            Some(Seq::new(names.len(), |i: int| self.domain_named(names[i])->0))
        } else {
            None
        }
    }

    /// Creating a value node: the node that asserts the value if there is one,
    /// with the graph unchanged, else a new node.
    pub open spec fn make_value_node(
        self,
        value: NodeValue<V>,
        info: Option<Seq<char>>,
        domains: Seq<Seq<char>>,
        metadata: Option<Arc<dyn Metadata>>,
    ) -> (Self, Result<NodeId, GraphFault>) {
        match self.resolve(domains) {
            None => (self, Err(GraphFault::DomainNotFound)),
            Some(domain_ids) => match self.value_node(value) {
                Some(id) => (self, Ok(id)),
                None => (
                    self.add_node(NodeKind::Value(value), domain_ids, info, metadata),
                    Ok(NodeId(self.nodes.len() as usize)),
                ),
            },
        }
    }

    /// Creating an edge: the edge between the two nodes if there is one with the
    /// same labels, a conflict if there is one with others, else a new edge.
    pub open spec fn make_edge(
        self,
        pred: NodeId,
        succ: NodeId,
        strength: Strength,
        relation: Relation,
    ) -> (Self, Result<EdgeId, GraphFault>) {
        if !self.has_node(pred) || !self.has_node(succ) {
            (self, Err(GraphFault::NodeNotFound))
        } else {
            match self.edge_between(pred, succ) {
                Some(id) => if self.edges[id.0 as int].strength == strength && self.edges[id.0 as int].relation
                    == relation {
                    (self, Ok(id))
                } else {
                    (self, Err(GraphFault::ConflictingEdgeCreated))
                },
                None => (
                    self.add_edge(Edge { strength, relation, pred, succ }),
                    Ok(EdgeId(self.edges.len() as usize)),
                ),
            }
        }
    }

    /// The graph after an edge into `target` was made from each of the first
    /// `count` members, in order.
    pub open spec fn link(self, members: Seq<Member>, target: NodeId, count: int) -> Self
        decreases count,
    {
        if count <= 0 {
            self
        } else {
            let member = members[count - 1];
            self.link(members, target, count - 1).make_edge(
                member.node,
                target,
                member.strength,
                member.relation,
            ).0
        }
    }

    /// Creating an `All` or `Any` aggregator over `members`.
    pub open spec fn make_aggregator(
        self,
        kind: NodeKind<V>,
        members: Seq<Member>,
        info: Option<Seq<char>>,
        metadata: Option<Arc<dyn Metadata>>,
        domains: Seq<Seq<char>>,
    ) -> (Self, Result<NodeId, GraphFault>) {
        if exists|i: int| 0 <= i < members.len() && !self.has_node(#[trigger] members[i].node) {
            (self, Err(GraphFault::NodeNotFound))
        } else {
            match self.resolve(domains) {
                None => (self, Err(GraphFault::DomainNotFound)),
                Some(domain_ids) => if !members_agree(members) {
                    (self, Err(GraphFault::ConflictingEdgeCreated))
                } else {
                    let target = NodeId(self.nodes.len() as usize);
                    (
                        self.add_node(kind, domain_ids, info, metadata).link(
                            members,
                            target,
                            members.len() as int,
                        ),
                        Ok(target),
                    )
                },
            }
        }
    }

    /// Creating an `In` aggregator over `values`.
    pub open spec fn make_in_aggregator(
        self,
        values: Seq<V>,
        info: Option<Seq<char>>,
        metadata: Option<Arc<dyn Metadata>>,
        domains: Seq<Seq<char>>,
    ) -> (Self, Result<NodeId, GraphFault>) {
        if values.len() == 0 {
            (self, Err(GraphFault::NoInAggregatorValues))
        } else if exists|i: int|
            0 <= i < values.len() && (#[trigger] values[i]).key_of() != values[0].key_of() {
            (self, Err(GraphFault::MalformedGraph { reason: mixed_keys_reason() }))
        } else {
            match self.resolve(domains) {
                None => (self, Err(GraphFault::DomainNotFound)),
                Some(domain_ids) => (
                    self.add_node(
                        NodeKind::InAggregator(distinct(values)),
                        domain_ids,
                        info,
                        metadata,
                    ),
                    Ok(NodeId(self.nodes.len() as usize)),
                ),
            }
        }
    }
}

/// The graph that the stored domains, nodes and edges stand for.
pub open spec fn graph_model<'a, V: ValueNode>(
    domains: Seq<DomainInfo<'a>>,
    nodes: Seq<Node<V>>,
    edges: Seq<Edge>,
    node_info: Seq<Option<&'static str>>,
    node_metadata: Seq<Option<Arc<dyn Metadata>>>,
) -> GraphModel<V> {
    GraphModel {
        domains: domains.map_values(|domain: DomainInfo<'a>| domain@),
        nodes: nodes.map_values(|node: Node<V>| node@),
        edges,
        node_info: node_info.map_values(|info: Option<&'static str>| info_view(info)),
        node_metadata,
    }
}

/// The edge that a member contributes to the aggregator `target`.
pub open spec fn member_edge(member: Member, target: NodeId) -> Edge {
    Edge {
        strength: member.strength,
        relation: member.relation,
        pred: member.node,
        succ: target,
    }
}

impl<V: ValueNode> GraphModel<V> {
    /// Whether every edge into `target` is the edge of one of the first `count`
    /// members.
    pub open spec fn linked_from(&self, members: Seq<Member>, target: NodeId, count: int) -> bool {
        forall|e: int|
            0 <= e < self.edges.len() && (#[trigger] self.edges[e]).succ == target ==> exists|
                j: int,
            |
                0 <= j < count && self.edges[e] == member_edge(#[trigger] members[j], target)
    }

    /// Whether `index` lists the value nodes of the graph: every entry is a
    /// value node, and every value node is an entry.
    pub open spec fn lists_values(&self, index: Seq<NodeId>) -> bool {
        &&& forall|i: int|
            0 <= i < index.len() ==> ((#[trigger] index[i]).0 as int) < self.nodes.len()
                && self.nodes[index[i].0 as int].kind is Value
        &&& forall|n: int|
            0 <= n < self.nodes.len() && (#[trigger] self.nodes[n]).kind is Value
                ==> index.contains(NodeId(n as usize))
    }
}

} // verus!
