//! The builder: the only way to make a graph.
use std::sync::Arc;

use vstd::prelude::*;

use crate::dense_map::DenseMap;
use crate::error::{outcome, GraphError};
use crate::graph::{find_value_node, ConstraintGraph};
use crate::invariants::lemma_distinct;
use crate::index::{
    domain_index_contents, domain_index_get, domain_index_insert, domain_index_new,
    edge_index_contents, edge_index_get, edge_index_insert, edge_index_new, DomainIndex, EdgeIndex,
};
use crate::model::{
    all_members, any_members, distinct, domain_names, graph_model, info_view, members_agree,
    GraphModel, NodeKind,
};
use crate::types::{
    holds_value, DomainId, DomainIdentifier, DomainInfo, Edge, EdgeId, KeyNode, Metadata, Node, NodeId,
    NodeType, NodeValue, Relation, Strength, ValueNode,
};

verus! {

/// A graph under construction. Every operation either commits its whole effect
/// or fails and leaves the builder as it was.
pub struct ConstraintGraphBuilder<'a, V: ValueNode> {
    domain: DenseMap<DomainId, DomainInfo<'a>>,
    nodes: DenseMap<NodeId, Node<V>>,
    edges: DenseMap<EdgeId, Edge>,
    domain_identifier_map: DomainIndex,
    value_map: Vec<NodeId>,
    edges_map: EdgeIndex,
    node_info: DenseMap<NodeId, Option<&'static str>>,
    node_metadata: DenseMap<NodeId, Option<Arc<dyn Metadata>>>,
}

impl<'a, V: ValueNode> View for ConstraintGraphBuilder<'a, V> {
    type V = GraphModel<V>;

    closed spec fn view(&self) -> GraphModel<V> {
        graph_model(
            self.domain@,
            self.nodes@,
            self.edges@,
            self.node_info@,
            self.node_metadata@,
        )
    }
}

impl<'a, V: ValueNode> ConstraintGraphBuilder<'a, V> {
    /// Whether the edge index has for this pair what the graph has.
    closed spec fn edge_entry_ok(&self, pred: usize, succ: usize) -> bool {
        let held = edge_index_contents(self.edges_map);
        match self@.edge_between(NodeId(pred), NodeId(succ)) {
            Some(id) => held.dom().contains((pred, succ)) && held[(pred, succ)] == id.0,
            None => !held.dom().contains((pred, succ)),
        }
    }

    /// Whether the domain index has for this name what the graph has.
    closed spec fn domain_entry_ok(&self, name: Seq<char>) -> bool {
        let held = domain_index_contents(self.domain_identifier_map);
        match self@.domain_named(name) {
            Some(id) => held.dom().contains(name) && held[name] == id.0,
            None => !held.dom().contains(name),
        }
    }

    /// The builder's invariant: the graph is well-formed and the indexes agree
    /// with it.
    pub closed spec fn wf(&self) -> bool {
        &&& self@.wf()
        &&& forall|pred: usize, succ: usize| #[trigger] self.edge_entry_ok(pred, succ)
        &&& forall|name: Seq<char>| #[trigger] self.domain_entry_ok(name)
        &&& self@.lists_values(self.value_map@)
    }

    /// The graph of a well-formed builder is well-formed.
    pub proof fn lemma_wf(&self)
        requires
            self.wf(),
        ensures
            self@.wf(),
    {
    }

    /// A builder whose graph is empty.
    pub fn new() -> (builder: Self)
        ensures
            builder.wf(),
            builder@ == GraphModel::<V>::empty(),
    {
        let builder = ConstraintGraphBuilder {
            domain: DenseMap::new(),
            nodes: DenseMap::new(),
            edges: DenseMap::new(),
            domain_identifier_map: domain_index_new(),
            value_map: Vec::new(),
            edges_map: edge_index_new(),
            node_info: DenseMap::new(),
            node_metadata: DenseMap::new(),
        };
        proof {
            assert(builder@.domains =~= Seq::empty());
            assert(builder@.nodes =~= Seq::empty());
            assert(builder@.edges =~= Seq::empty());
            assert(builder@.node_info =~= Seq::empty());
            assert(builder@.node_metadata =~= Seq::empty());
            assert forall|pred: usize, succ: usize| #[trigger]
                builder.edge_entry_ok(pred, succ) by {
                assert(forall|e: int| !builder@.joins(e, NodeId(pred), NodeId(succ)));
            }
            assert forall|name: Seq<char>| #[trigger] builder.domain_entry_ok(name) by {
                assert(forall|d: int| !builder@.names(d, name));
            }
        }
        builder
    }

    /// Freezes the builder into a graph that holds what the builder held.
    pub fn build(self) -> (graph: ConstraintGraph<'a, V>)
        requires
            self.wf(),
        ensures
            graph.wf(),
            graph@ == self@,
    {
        ConstraintGraph::from_parts(
            self.domain,
            self.nodes,
            self.edges,
            self.value_map,
            self.node_info,
            self.node_metadata,
        )
    }

    /// Registers a domain. A name that is registered already keeps its id and
    /// its first description; a new name gets the next id. Never fails.
    pub fn make_domain(
        &mut self,
        domain_identifier: DomainIdentifier<'a>,
        domain_description: String,
    ) -> (result: Result<DomainId, GraphError>)
        requires
            old(self).wf(),
        ensures
            final(self).wf(),
            result is Ok,
            final(self)@ == old(self)@.make_domain(
                domain_identifier.name(),
                domain_description@,
            ).0,
            result->Ok_0 == old(self)@.make_domain(
                domain_identifier.name(),
                domain_description@,
            ).1,
    {
        let name = domain_identifier.into_inner();
        let ghost before = self@;
        let ghost description = domain_description@;
        proof {
            assert(self.domain_entry_ok(name@));
            before.lemma_found();
        }
        match domain_index_get(&self.domain_identifier_map, name) {
            Some(id) => Ok(DomainId(id)),
            None => {
                let domain_id = self.domain.push(
                    DomainInfo { domain_identifier, domain_description },
                );
                domain_index_insert(&mut self.domain_identifier_map, name, domain_id.0);
                proof {
                    let after = before.make_domain(name@, description).0;
                    assert(self@.domains =~= after.domains);
                    assert(self@ == after);
                    before.lemma_make_domain_wf(name@, description);
                    assert forall|other: Seq<char>| #[trigger] self.domain_entry_ok(other) by {
                        if other != name@ {
                            before.lemma_make_domain_others(name@, description, other);
                            assert(old(self).domain_entry_ok(other));
                        }
                    }
                    assert forall|pred: usize, succ: usize| #[trigger]
                        self.edge_entry_ok(pred, succ) by {
                        assert(old(self).edge_entry_ok(pred, succ));
                        assert(forall|e: int|
                            after.joins(e, NodeId(pred), NodeId(succ)) == before.joins(
                                e,
                                NodeId(pred),
                                NodeId(succ),
                            ));
                    }
                    assert(self@.nodes == before.nodes);
                }
                Ok(domain_id)
            },
        }
    }

    /// Whether `id` addresses a node.
    fn ensure_node_exists(&self, id: NodeId) -> (result: Result<(), GraphError>)
        ensures
            self@.has_node(id) ==> result is Ok,
            !self@.has_node(id) ==> result matches Err(GraphError::NodeNotFound),
    {
        if self.nodes.contains_key(id) {
            Ok(())
        } else {
            Err(GraphError::NodeNotFound)
        }
    }

    /// Makes the edge from `pred_id` to `succ_id`. Where the two nodes have an
    /// edge already, the call returns it if its strength and relation are the
    /// ones asked for, and fails with `ConflictingEdgeCreated` if they are not;
    /// either way the builder stays as it was. An id that addresses no node
    /// fails with `NodeNotFound`.
    pub fn make_edge(
        &mut self,
        pred_id: NodeId,
        succ_id: NodeId,
        strength: Strength,
        relation: Relation,
    ) -> (result: Result<EdgeId, GraphError>)
        requires
            old(self).wf(),
        ensures
            final(self).wf(),
            final(self)@ == old(self)@.make_edge(pred_id, succ_id, strength, relation).0,
            outcome(result) == old(self)@.make_edge(pred_id, succ_id, strength, relation).1,
            result is Err ==> *final(self) == *old(self),
    {
        let ghost before = self@;
        if self.ensure_node_exists(pred_id).is_err() {
            return Err(GraphError::NodeNotFound);
        }
        if self.ensure_node_exists(succ_id).is_err() {
            return Err(GraphError::NodeNotFound);
        }
        proof {
            assert(self.edge_entry_ok(pred_id.0, succ_id.0));
            before.lemma_found();
        }
        let existing = match edge_index_get(&self.edges_map, pred_id.0, succ_id.0) {
            Some(found) => match self.edges.get(EdgeId(found)) {
                Some(edge) => Some((EdgeId(found), *edge)),
                None => None,
            },
            None => None,
        };
        match existing {
            Some((edge_id, edge)) => {
                if edge.strength == strength && edge.relation == relation {
                    Ok(edge_id)
                } else {
                    Err(GraphError::ConflictingEdgeCreated)
                }
            },
            None => {
                let edge = Edge { strength, relation, pred: pred_id, succ: succ_id };
                let edge_id = self.edges.push(edge);
                edge_index_insert(&mut self.edges_map, pred_id.0, succ_id.0, edge_id.0);
                if let Some(pred) = self.nodes.get_mut(pred_id) {
                    pred.succs.push(edge_id);
                }
                if let Some(succ) = self.nodes.get_mut(succ_id) {
                    succ.preds.push(edge_id);
                }
                proof {
                    let after = before.add_edge(edge);
                    assert(self@.nodes =~= after.nodes);
                    assert(self@.edges =~= after.edges);
                    assert(self@ == after);
                    before.lemma_add_edge_wf(edge);
                    assert forall|pred: usize, succ: usize| #[trigger]
                        self.edge_entry_ok(pred, succ) by {
                        assert(old(self).edge_entry_ok(pred, succ));
                        if pred != pred_id.0 || succ != succ_id.0 {
                            before.lemma_add_edge_others(edge, NodeId(pred), NodeId(succ));
                        }
                    }
                    assert forall|name: Seq<char>| #[trigger] self.domain_entry_ok(name) by {
                        assert(old(self).domain_entry_ok(name));
                        assert(forall|d: int| after.names(d, name) == before.names(d, name));
                    }
                    assert forall|n: int|
                        0 <= n < self@.nodes.len() && (#[trigger] self@.nodes[n]).kind is Value
                            implies self.value_map@.contains(NodeId(n as usize)) by {
                        assert(before.nodes[n].kind is Value);
                    }
                    assert forall|i: int| 0 <= i < self.value_map@.len() implies ((
                    #[trigger] self.value_map@[i]).0 as int) < self@.nodes.len()
                        && self@.nodes[self.value_map@[i].0 as int].kind is Value by {
                        assert(before.nodes[self.value_map@[i].0 as int].kind is Value);
                    }
                }
                Ok(edge_id)
            },
        }
    }

    /// The ids of the named domains, `DomainNotFound` where a name is not
    /// registered.
    fn resolve_domains(&self, identifiers: &Vec<DomainIdentifier<'_>>) -> (result: Result<
        Vec<DomainId>,
        GraphError,
    >)
        requires
            self.wf(),
        ensures
            match result {
                Ok(ids) => self@.resolve(domain_names(identifiers@)) == Some(ids@),
                Err(error) => self@.resolve(domain_names(identifiers@)) is None
                    && error is DomainNotFound,
            },
    {
        let ghost names = domain_names(identifiers@);
        let mut domain_ids: Vec<DomainId> = Vec::new();
        let mut i: usize = 0;
        while i < identifiers.len()
            invariant
                self.wf(),
                names == domain_names(identifiers@),
                i <= identifiers@.len(),
                domain_ids@.len() == i,
                forall|j: int|
                    0 <= j < i ==> self@.domain_named(names[j]) == Some(#[trigger] domain_ids@[j]),
            decreases identifiers@.len() - i,
        {
            let name = identifiers[i].into_inner();
            proof {
                assert(self.domain_entry_ok(name@));
                assert(names[i as int] == name@);
            }
            match domain_index_get(&self.domain_identifier_map, name) {
                Some(id) => domain_ids.push(DomainId(id)),
                None => {
                    return Err(GraphError::DomainNotFound);
                },
            }
            i = i + 1;
        }
        proof {
            assert forall|j: int| 0 <= j < names.len() implies self@.domain_named(
                #[trigger] names[j],
            ) is Some by {
                assert(self@.domain_named(names[j]) == Some(domain_ids@[j]));
            }
            assert(self@.resolve(names)->0 =~= domain_ids@);
        }
        Ok(domain_ids)
    }

    /// Stores a node with its label and its attachment, and returns its id.
    fn push_node(
        &mut self,
        node_type: NodeType<V>,
        domain_ids: Vec<DomainId>,
        info: Option<&'static str>,
        metadata: Option<Arc<dyn Metadata>>,
    ) -> (id: NodeId)
        requires
            old(self).wf(),
            forall|i: int|
                0 <= i < domain_ids@.len() ==> ((#[trigger] domain_ids@[i]).0 as int)
                    < old(self)@.domains.len(),
            node_type@ matches NodeKind::Value(value) ==> old(self)@.value_node(value) is None,
            node_type@ matches NodeKind::InAggregator(members) ==> {
                &&& members.len() > 0
                &&& members.no_duplicates()
                &&& forall|i: int|
                    0 <= i < members.len() ==> (#[trigger] members[i]).key_of()
                        == members[0].key_of()
            },
        ensures
            final(self).wf(),
            final(self)@ == old(self)@.add_node(
                node_type@,
                domain_ids@,
                info_view(info),
                metadata,
            ),
            id == NodeId(old(self)@.nodes.len() as usize),
    {
        let ghost before = self@;
        let ghost kind = node_type@;
        let ghost domains = domain_ids@;
        let is_value = match &node_type {
            NodeType::Value(_) => true,
            _ => false,
        };
        let node_id = self.nodes.push(Node::new(node_type, domain_ids));
        let _node_info_id = self.node_info.push(info);
        let _node_metadata_id = self.node_metadata.push(metadata);
        if is_value {
            self.value_map.push(node_id);
        }
        proof {
            let after = before.add_node(kind, domains, info_view(info), metadata);
            assert(self@.nodes =~= after.nodes);
            assert(self@.node_info =~= after.node_info);
            assert(self@.node_metadata =~= after.node_metadata);
            assert(self@ == after);
            before.lemma_add_node_wf(kind, domains, info_view(info), metadata);
            before.lemma_add_node_others(kind, domains, info_view(info), metadata);
            assert forall|pred: usize, succ: usize| #[trigger]
                self.edge_entry_ok(pred, succ) by {
                assert(old(self).edge_entry_ok(pred, succ));
            }
            assert forall|name: Seq<char>| #[trigger] self.domain_entry_ok(name) by {
                assert(old(self).domain_entry_ok(name));
            }
            assert forall|n: int|
                0 <= n < self@.nodes.len() && (#[trigger] self@.nodes[n]).kind is Value
                    implies self.value_map@.contains(NodeId(n as usize)) by {
                if n < before.nodes.len() {
                    assert(before.nodes[n].kind is Value);
                    let j = choose|j: int|
                        0 <= j < old(self).value_map@.len() && old(self).value_map@[j] == NodeId(
                            n as usize,
                        );
                    assert(self.value_map@[j] == NodeId(n as usize));
                } else {
                    assert(self.value_map@[self.value_map@.len() - 1] == node_id);
                }
            }
        }
        node_id
    }

    /// Makes the node that asserts `value`, in the named domains. Fails with
    /// `DomainNotFound` where a name is not registered. Where a node asserts
    /// the value already, the call returns that node and changes nothing: the
    /// label, the attachment and the domains of the first call stay.
    pub fn make_value_node(
        &mut self,
        value: NodeValue<V>,
        info: Option<&'static str>,
        domain_identifiers: Vec<DomainIdentifier<'_>>,
        metadata: Option<Arc<dyn Metadata>>,
    ) -> (result: Result<NodeId, GraphError>)
        requires
            old(self).wf(),
        ensures
            final(self).wf(),
            final(self)@ == old(self)@.make_value_node(
                value,
                info_view(info),
                domain_names(domain_identifiers@),
                metadata,
            ).0,
            outcome(result) == old(self)@.make_value_node(
                value,
                info_view(info),
                domain_names(domain_identifiers@),
                metadata,
            ).1,
            result is Err ==> *final(self) == *old(self),
    {
        let domain_ids = match self.resolve_domains(&domain_identifiers) {
            Ok(ids) => ids,
            Err(error) => {
                return Err(error);
            },
        };
        match find_value_node(&self.nodes, &self.value_map, &value, Ghost(self@)) {
            Some(node_id) => Ok(node_id),
            None => {
                proof {
                    self@.lemma_found();
                    assert forall|i: int| 0 <= i < domain_ids@.len() implies ((
                    #[trigger] domain_ids@[i]).0 as int) < self@.domains.len() by {
                        let name = domain_names(domain_identifiers@)[i];
                        assert(self@.domain_named(name) == Some(domain_ids@[i]));
                    }
                }
                let node_id = self.push_node(NodeType::Value(value), domain_ids, info, metadata);
                Ok(node_id)
            },
        }
    }

    /// Whether every member names a node.
    fn members_exist(&self, members: &[(NodeId, Relation, Strength)]) -> (all: bool)
        ensures
            all == (forall|i: int|
                0 <= i < members@.len() ==> self@.has_node((#[trigger] members@[i]).0)),
    {
        let mut i: usize = 0;
        while i < members.len()
            invariant
                i <= members@.len(),
                forall|j: int| 0 <= j < i ==> self@.has_node((#[trigger] members@[j]).0),
            decreases members@.len() - i,
        {
            if self.ensure_node_exists(members[i].0).is_err() {
                return false;
            }
            i = i + 1;
        }
        true
    }

    /// Makes an aggregator of the given kind with an edge from each member.
    fn make_aggregator(
        &mut self,
        node_type: NodeType<V>,
        members: &[(NodeId, Relation, Strength)],
        info: Option<&'static str>,
        metadata: Option<Arc<dyn Metadata>>,
        domain: &Vec<DomainIdentifier<'_>>,
    ) -> (result: Result<NodeId, GraphError>)
        requires
            old(self).wf(),
            node_type is AllAggregator || node_type is AnyAggregator,
        ensures
            final(self).wf(),
            final(self)@ == old(self)@.make_aggregator(
                node_type@,
                all_members(members@),
                info_view(info),
                metadata,
                domain_names(domain@),
            ).0,
            outcome(result) == old(self)@.make_aggregator(
                node_type@,
                all_members(members@),
                info_view(info),
                metadata,
                domain_names(domain@),
            ).1,
            result is Err ==> *final(self) == *old(self),
    {
        let ghost before = self@;
        let ghost list = all_members(members@);
        if !self.members_exist(members) {
            proof {
                let i = choose|i: int|
                    0 <= i < members@.len() && !self@.has_node((#[trigger] members@[i]).0);
                assert(!self@.has_node(list[i].node));
            }
            return Err(GraphError::NodeNotFound);
        }
        proof {
            assert forall|i: int| 0 <= i < list.len() implies before.has_node(
                #[trigger] list[i].node,
            ) by {
                assert(before.has_node(members@[i].0));
            }
        }
        let domain_ids = match self.resolve_domains(domain) {
            Ok(ids) => ids,
            Err(error) => {
                return Err(error);
            },
        };
        if !labels_agree(members) {
            return Err(GraphError::ConflictingEdgeCreated);
        }
        proof {
            before.lemma_found();
            assert forall|i: int| 0 <= i < domain_ids@.len() implies ((
            #[trigger] domain_ids@[i]).0 as int) < before.domains.len() by {
                let name = domain_names(domain@)[i];
                assert(before.domain_named(name) == Some(domain_ids@[i]));
            }
        }
        let ghost kind = node_type@;
        let ghost domains = domain_ids@;
        let aggregator_id = self.push_node(node_type, domain_ids, info, metadata);
        let ghost start = self@;
        proof {
            assert forall|e: int|
                0 <= e < start.edges.len() && (#[trigger] start.edges[e]).succ
                    == aggregator_id implies false by {
                assert(before.edge_ok(e));
            }
        }
        let mut i: usize = 0;
        while i < members.len()
            invariant
                self.wf(),
                i <= members@.len(),
                list == all_members(members@),
                members_agree(list),
                start.nodes.len() == before.nodes.len() + 1,
                aggregator_id == NodeId(before.nodes.len() as usize),
                before.nodes.len() < usize::MAX,
                self@.nodes.len() == start.nodes.len(),
                forall|j: int| 0 <= j < list.len() ==> before.has_node(#[trigger] list[j].node),
                self@ == start.link(list, aggregator_id, i as int),
                self@.linked_from(list, aggregator_id, i as int),
            decreases members@.len() - i,
        {
            proof {
                assert(before.has_node(list[i as int].node));
                self@.lemma_link_step(list, aggregator_id, i as int);
            }
            let linked = self.make_edge(members[i].0, aggregator_id, members[i].2, members[i].1);
            if let Err(error) = linked {
                return Err(error);
            }
            i = i + 1;
        }
        Ok(aggregator_id)
    }

    /// Makes an `All` aggregator with an edge from each member, of the
    /// member's relation and strength. Fails with `NodeNotFound` where a member
    /// names no node, with `DomainNotFound` where a domain is not registered,
    /// and with `ConflictingEdgeCreated` where two members name one node with
    /// different labels; a failed call changes nothing.
    pub fn make_all_aggregator(
        &mut self,
        nodes: &[(NodeId, Relation, Strength)],
        info: Option<&'static str>,
        metadata: Option<Arc<dyn Metadata>>,
        domain: Vec<DomainIdentifier<'_>>,
    ) -> (result: Result<NodeId, GraphError>)
        requires
            old(self).wf(),
        ensures
            final(self).wf(),
            final(self)@ == old(self)@.make_aggregator(
                NodeKind::AllAggregator,
                all_members(nodes@),
                info_view(info),
                metadata,
                domain_names(domain@),
            ).0,
            outcome(result) == old(self)@.make_aggregator(
                NodeKind::AllAggregator,
                all_members(nodes@),
                info_view(info),
                metadata,
                domain_names(domain@),
            ).1,
            result is Err ==> *final(self) == *old(self),
    {
        self.make_aggregator(NodeType::AllAggregator, nodes, info, metadata, &domain)
    }

    /// Makes an `Any` aggregator with a strong edge from each member, of the
    /// member's relation. It fails as an `All` aggregator does.
    pub fn make_any_aggregator(
        &mut self,
        nodes: &[(NodeId, Relation)],
        info: Option<&'static str>,
        metadata: Option<Arc<dyn Metadata>>,
        domain: Vec<DomainIdentifier<'_>>,
    ) -> (result: Result<NodeId, GraphError>)
        requires
            old(self).wf(),
        ensures
            final(self).wf(),
            final(self)@ == old(self)@.make_aggregator(
                NodeKind::AnyAggregator,
                any_members(nodes@),
                info_view(info),
                metadata,
                domain_names(domain@),
            ).0,
            outcome(result) == old(self)@.make_aggregator(
                NodeKind::AnyAggregator,
                any_members(nodes@),
                info_view(info),
                metadata,
                domain_names(domain@),
            ).1,
            result is Err ==> *final(self) == *old(self),
    {
        let mut strong: Vec<(NodeId, Relation, Strength)> = Vec::new();
        let mut i: usize = 0;
        while i < nodes.len()
            invariant
                i <= nodes@.len(),
                strong@.len() == i,
                forall|j: int|
                    0 <= j < i ==> #[trigger] strong@[j] == (
                        nodes@[j].0,
                        nodes@[j].1,
                        Strength::Strong,
                    ),
            decreases nodes@.len() - i,
        {
            strong.push((nodes[i].0, nodes[i].1, Strength::Strong));
            i = i + 1;
        }
        proof {
            assert(all_members(strong@) =~= any_members(nodes@));
        }
        self.make_aggregator(NodeType::AnyAggregator, strong.as_slice(), info, metadata, &domain)
    }

    /// Makes an `In` aggregator over `values`, which it stores without
    /// repetition. Fails with `NoInAggregatorValues` where there is no value,
    /// with `MalformedGraph` where two values differ in key, and with
    /// `DomainNotFound` where a domain is not registered; a failed call changes
    /// nothing.
    pub fn make_in_aggregator(
        &mut self,
        values: Vec<V>,
        info: Option<&'static str>,
        metadata: Option<Arc<dyn Metadata>>,
        domain: Vec<DomainIdentifier<'_>>,
    ) -> (result: Result<NodeId, GraphError>)
        requires
            old(self).wf(),
        ensures
            final(self).wf(),
            final(self)@ == old(self)@.make_in_aggregator(
                values@,
                info_view(info),
                metadata,
                domain_names(domain@),
            ).0,
            outcome(result) == old(self)@.make_in_aggregator(
                values@,
                info_view(info),
                metadata,
                domain_names(domain@),
            ).1,
            result is Err ==> *final(self) == *old(self),
    {
        if values.len() == 0 {
            return Err(GraphError::NoInAggregatorValues);
        }
        if !same_key_throughout(&values) {
            return Err(
                GraphError::MalformedGraph {
                    reason: "Values for 'In' aggregator not of same key".to_owned(),
                },
            );
        }
        let domain_ids = match self.resolve_domains(&domain) {
            Ok(ids) => ids,
            Err(error) => {
                return Err(error);
            },
        };
        let ghost given = values@;
        let members = without_repetition(values);
        proof {
            lemma_distinct(given);
            self@.lemma_found();
            assert forall|i: int| 0 <= i < domain_ids@.len() implies ((
            #[trigger] domain_ids@[i]).0 as int) < self@.domains.len() by {
                let name = domain_names(domain@)[i];
                assert(self@.domain_named(name) == Some(domain_ids@[i]));
            }
            assert forall|i: int| 0 <= i < members@.len() implies (
            #[trigger] members@[i]).key_of() == members@[0].key_of() by {
                assert(members@.contains(members@[i]));
                assert(given.contains(members@[i]));
            }
        }
        let node_id = self.push_node(NodeType::InAggregator(members), domain_ids, info, metadata);
        Ok(node_id)
    }
}

/// Whether every value has the key of the first.
fn same_key_throughout<V: ValueNode>(values: &Vec<V>) -> (same: bool)
    requires
        values@.len() > 0,
    ensures
        same == (forall|i: int|
            0 <= i < values@.len() ==> (#[trigger] values@[i]).key_of() == values@[0].key_of()),
{
    let key = values[0].get_key();
    let mut i: usize = 0;
    while i < values.len()
        invariant
            values@.len() > 0,
            key == values@[0].key_of(),
            i <= values@.len(),
            forall|j: int| 0 <= j < i ==> (#[trigger] values@[j]).key_of() == key,
        decreases values@.len() - i,
    {
        let own = values[i].get_key();
        if !own.same_key(&key) {
            return false;
        }
        i = i + 1;
    }
    true
}

/// The given values without repetition, each where it first occurs.
fn without_repetition<V: ValueNode>(values: Vec<V>) -> (members: Vec<V>)
    ensures
        members@ == distinct(values@),
{
    let ghost given = values@;
    let mut values = values;
    let mut reversed: Vec<V> = Vec::new();
    while values.len() > 0
        invariant
            values@.len() + reversed@.len() == given.len(),
            values@ == given.take(values@.len() as int),
            forall|j: int|
                0 <= j < reversed@.len() ==> #[trigger] reversed@[j] == given[given.len() - 1 - j],
        decreases values@.len(),
    {
        if let Some(value) = values.pop() {
            reversed.push(value);
        }
    }
    let mut members: Vec<V> = Vec::new();
    proof {
        assert(given.take(0) =~= Seq::<V>::empty());
    }
    while reversed.len() > 0
        invariant
            reversed@.len() <= given.len(),
            forall|j: int|
                0 <= j < reversed@.len() ==> #[trigger] reversed@[j] == given[given.len() - 1 - j],
            members@ == distinct(given.take(given.len() - reversed@.len())),
        decreases reversed@.len(),
    {
        let ghost done = given.len() - reversed@.len();
        if let Some(value) = reversed.pop() {
            proof {
                assert(value == given[done]);
                assert(given.take(done + 1).drop_last() =~= given.take(done));
                assert(given.take(done + 1).last() == value);
            }
            if !holds_value(&members, &value) {
                members.push(value);
            }
        }
    }
    proof {
        assert(given.take(given.len() as int) =~= given);
    }
    members
}

/// Whether no two members name one node with different labels.
fn labels_agree(members: &[(NodeId, Relation, Strength)]) -> (agree: bool)
    ensures
        agree == members_agree(all_members(members@)),
{
    let ghost list = all_members(members@);
    let mut i: usize = 0;
    while i < members.len()
        invariant
            i <= members@.len(),
            list == all_members(members@),
            forall|a: int, b: int|
                0 <= a < i && 0 <= b < list.len() && (#[trigger] list[a]).node == (
                #[trigger] list[b]).node ==> list[a] == list[b],
        decreases members@.len() - i,
    {
        let mut j: usize = 0;
        while j < members.len()
            invariant
                i < members@.len(),
                j <= members@.len(),
                list == all_members(members@),
                forall|b: int|
                    0 <= b < j && list[i as int].node == (#[trigger] list[b]).node ==> list[i as int]
                        == list[b],
            decreases members@.len() - j,
        {
            if members[i].0 == members[j].0 && (members[i].1 != members[j].1 || members[i].2
                != members[j].2) {
                proof {
                    assert(list[i as int].node == list[j as int].node);
                    assert(list[i as int] != list[j as int]);
                }
                return false;
            }
            j = j + 1;
        }
        i = i + 1;
    }
    proof {
        assert forall|a: int, b: int|
            0 <= a < list.len() && 0 <= b < list.len() && (#[trigger] list[a]).node == (
            #[trigger] list[b]).node implies list[a] == list[b] by {}
    }
    true
}

} // verus!
