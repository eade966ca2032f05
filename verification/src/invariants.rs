//! Why construction keeps a graph well-formed, and what a lookup finds.
use std::sync::Arc;

use vstd::prelude::*;

use crate::model::{distinct, member_edge, members_agree, GraphModel, Member, NodeKind};
use crate::types::{DomainId, Edge, EdgeId, Metadata, NodeId, NodeValue, ValueNode};

verus! {

impl<V: ValueNode> GraphModel<V> {
    /// In a well-formed graph the edge that joins two nodes is the edge between
    /// them.
    pub proof fn lemma_edge_between(self, e: int, pred: NodeId, succ: NodeId)
        requires
            self.wf(),
            self.joins(e, pred, succ),
        ensures
            self.edge_between(pred, succ) == Some(EdgeId(e as usize)),
    {
        let chosen = choose|c: int| self.joins(c, pred, succ);
        assert(self.joins(chosen, pred, succ));
    }

    /// In a well-formed graph the domain that bears a name is the domain of
    /// that name.
    pub proof fn lemma_domain_named(self, d: int, name: Seq<char>)
        requires
            self.wf(),
            self.names(d, name),
        ensures
            self.domain_named(name) == Some(DomainId(d as usize)),
    {
        let chosen = choose|c: int| self.names(c, name);
        assert(self.names(chosen, name));
    }

    /// In a well-formed graph the node that asserts a value is the value node
    /// of that value.
    pub proof fn lemma_value_node(self, n: int, value: NodeValue<V>)
        requires
            self.wf(),
            self.asserts(n, value),
        ensures
            self.value_node(value) == Some(NodeId(n as usize)),
    {
        let chosen = choose|c: int| self.asserts(c, value);
        assert(self.asserts(chosen, value));
    }

    /// What is found is there: an edge between two nodes joins them, a domain
    /// of a name bears it, the value node of a value asserts it.
    pub proof fn lemma_found(self)
        requires
            self.wf(),
        ensures
            forall|pred: NodeId, succ: NodeId| #[trigger]
                self.edge_between(pred, succ) matches Some(id) ==> self.joins(
                    id.0 as int,
                    pred,
                    succ,
                ),
            forall|name: Seq<char>| #[trigger]
                self.domain_named(name) matches Some(id) ==> self.names(id.0 as int, name),
            forall|value: NodeValue<V>| #[trigger]
                self.value_node(value) matches Some(id) ==> self.asserts(id.0 as int, value),
    {
    }

    /// Registering a domain keeps a well-formed graph well-formed.
    pub proof fn lemma_make_domain_wf(self, name: Seq<char>, description: Seq<char>)
        requires
            self.wf(),
            self.domains.len() < usize::MAX,
        ensures
            self.make_domain(name, description).0.wf(),
            self.make_domain(name, description).0.domain_named(name) == Some(
                self.make_domain(name, description).1,
            ),
    {
        let after = self.make_domain(name, description).0;
        self.lemma_found();
        if self.domain_named(name) is None {
            assert forall|d1: int, d2: int, other: Seq<char>|
                #[trigger] after.names(d1, other) && #[trigger] after.names(d2, other) implies d1
                == d2 by {
                if d1 < self.domains.len() {
                    assert(self.names(d1, other));
                }
                if d2 < self.domains.len() {
                    assert(self.names(d2, other));
                }
            }
            assert forall|n: int, i: int|
                0 <= n < after.nodes.len() && 0 <= i < after.nodes[n].domain_ids.len()
                    implies #[trigger] after.domain_ok(n, i) by {
                assert(self.domain_ok(n, i));
            }
            assert forall|e: int| 0 <= e < after.edges.len() implies #[trigger] after.edge_ok(
                e,
            ) by {
                assert(self.edge_ok(e));
            }
            assert forall|e: int| 0 <= e < after.edges.len() implies #[trigger] after.edge_listed(
                e,
            ) by {
                assert(self.edge_listed(e));
            }
            assert forall|n: int| 0 <= n < after.nodes.len() implies #[trigger] after.lists_once(
                n,
            ) by {
                assert(self.lists_once(n));
            }
            assert forall|n: int, i: int|
                0 <= n < after.nodes.len() && 0 <= i < after.nodes[n].preds.len()
                    implies #[trigger] after.pred_ok(n, i) by {
                assert(self.pred_ok(n, i));
            }
            assert forall|n: int, i: int|
                0 <= n < after.nodes.len() && 0 <= i < after.nodes[n].succs.len()
                    implies #[trigger] after.succ_ok(n, i) by {
                assert(self.succ_ok(n, i));
            }
            assert forall|n: int| 0 <= n < after.nodes.len() implies #[trigger] after.members_ok(
                n,
            ) by {
                assert(self.members_ok(n));
            }
            assert forall|e1: int, e2: int, pred: NodeId, succ: NodeId|
                #[trigger] after.joins(e1, pred, succ) && #[trigger] after.joins(
                    e2,
                    pred,
                    succ,
                ) implies e1 == e2 by {
                assert(self.joins(e1, pred, succ) && self.joins(e2, pred, succ));
            }
            assert forall|n1: int, n2: int, value: NodeValue<V>|
                #[trigger] after.asserts(n1, value) && #[trigger] after.asserts(
                    n2,
                    value,
                ) implies n1 == n2 by {
                assert(self.asserts(n1, value) && self.asserts(n2, value));
            }
            assert(after.names(self.domains.len() as int, name));
            after.lemma_domain_named(self.domains.len() as int, name);
        }
    }

    /// A new node keeps a well-formed graph well-formed, if its domains are
    /// registered, no node asserts its value yet, and its members, if it has
    /// any, are of one key and all different.
    pub proof fn lemma_add_node_wf(
        self,
        kind: NodeKind<V>,
        domain_ids: Seq<DomainId>,
        info: Option<Seq<char>>,
        metadata: Option<Arc<dyn Metadata>>,
    )
        requires
            self.wf(),
            self.nodes.len() < usize::MAX,
            forall|i: int|
                0 <= i < domain_ids.len() ==> ((#[trigger] domain_ids[i]).0 as int)
                    < self.domains.len(),
            kind matches NodeKind::Value(value) ==> self.value_node(value) is None,
            kind matches NodeKind::InAggregator(members) ==> {
                &&& members.len() > 0
                &&& members.no_duplicates()
                &&& forall|i: int|
                    0 <= i < members.len() ==> (#[trigger] members[i]).key_of()
                        == members[0].key_of()
            },
        ensures
            self.add_node(kind, domain_ids, info, metadata).wf(),
    {
        let after = self.add_node(kind, domain_ids, info, metadata);
        let fresh = self.nodes.len() as int;
        assert forall|e: int| 0 <= e < after.edges.len() implies #[trigger] after.edge_ok(e) by {
            assert(self.edge_ok(e));
        }
        assert forall|e: int| 0 <= e < after.edges.len() implies #[trigger] after.edge_listed(
            e,
        ) by {
            assert(self.edge_ok(e));
            assert(self.edge_listed(e));
        }
        assert forall|n: int| 0 <= n < after.nodes.len() implies #[trigger] after.lists_once(
            n,
        ) by {
            if n < fresh {
                assert(self.lists_once(n));
            }
        }
        assert forall|n: int, i: int|
            0 <= n < after.nodes.len() && 0 <= i < after.nodes[n].preds.len()
                implies #[trigger] after.pred_ok(n, i) by {
            if n < fresh {
                assert(self.pred_ok(n, i));
            }
        }
        assert forall|n: int, i: int|
            0 <= n < after.nodes.len() && 0 <= i < after.nodes[n].succs.len()
                implies #[trigger] after.succ_ok(n, i) by {
            if n < fresh {
                assert(self.succ_ok(n, i));
            }
        }
        assert forall|n: int, i: int|
            0 <= n < after.nodes.len() && 0 <= i < after.nodes[n].domain_ids.len()
                implies #[trigger] after.domain_ok(n, i) by {
            if n < fresh {
                assert(self.domain_ok(n, i));
            }
        }
        assert forall|n: int| 0 <= n < after.nodes.len() implies #[trigger] after.members_ok(
            n,
        ) by {
            if n < fresh {
                assert(self.members_ok(n));
            }
        }
        assert forall|e1: int, e2: int, pred: NodeId, succ: NodeId|
            #[trigger] after.joins(e1, pred, succ) && #[trigger] after.joins(
                e2,
                pred,
                succ,
            ) implies e1 == e2 by {
            assert(self.joins(e1, pred, succ) && self.joins(e2, pred, succ));
        }
        assert forall|d1: int, d2: int, name: Seq<char>|
            #[trigger] after.names(d1, name) && #[trigger] after.names(d2, name) implies d1
            == d2 by {
            assert(self.names(d1, name) && self.names(d2, name));
        }
        assert forall|n1: int, n2: int, value: NodeValue<V>|
            #[trigger] after.asserts(n1, value) && #[trigger] after.asserts(
                n2,
                value,
            ) implies n1 == n2 by {
            if n1 < fresh {
                assert(self.asserts(n1, value));
            }
            if n2 < fresh {
                assert(self.asserts(n2, value));
            }
        }
    }

    /// A new edge between two nodes that have none yet keeps a well-formed
    /// graph well-formed.
    pub proof fn lemma_add_edge_wf(self, edge: Edge)
        requires
            self.wf(),
            self.edges.len() < usize::MAX,
            self.has_node(edge.pred),
            self.has_node(edge.succ),
            self.edge_between(edge.pred, edge.succ) is None,
        ensures
            self.add_edge(edge).wf(),
            self.add_edge(edge).edge_between(edge.pred, edge.succ) == Some(
                EdgeId(self.edges.len() as usize),
            ),
    {
        let after = self.add_edge(edge);
        let fresh = self.edges.len() as int;
        let p = edge.pred.0 as int;
        let s = edge.succ.0 as int;
        assert(after.nodes.len() == self.nodes.len());
        assert forall|e: int| 0 <= e < after.edges.len() implies #[trigger] after.edge_ok(e) by {
            if e < fresh {
                assert(self.edge_ok(e));
            }
        }
        assert forall|e: int| 0 <= e < after.edges.len() implies #[trigger] after.edge_listed(
            e,
        ) by {
            let id = EdgeId(e as usize);
            if e < fresh {
                assert(self.edge_ok(e));
                assert(self.edge_listed(e));
                let to = self.edges[e].succ.0 as int;
                let from = self.edges[e].pred.0 as int;
                let i = choose|i: int| 0 <= i < self.nodes[to].preds.len() && self.nodes[to].preds[i] == id;
                assert(after.nodes[to].preds[i] == id);
                let j = choose|j: int| 0 <= j < self.nodes[from].succs.len() && self.nodes[from].succs[j] == id;
                assert(after.nodes[from].succs[j] == id);
            } else {
                assert(after.nodes[s].preds[self.nodes[s].preds.len() as int] == id);
                assert(after.nodes[p].succs[self.nodes[p].succs.len() as int] == id);
            }
        }
        assert forall|n: int| 0 <= n < after.nodes.len() implies #[trigger] after.lists_once(
            n,
        ) by {
            assert(self.lists_once(n));
            assert forall|i: int, j: int|
                0 <= i < after.nodes[n].preds.len() && 0 <= j < after.nodes[n].preds.len() && i
                    != j implies after.nodes[n].preds[i] != after.nodes[n].preds[j] by {
                if i < self.nodes[n].preds.len() {
                    assert(self.pred_ok(n, i));
                }
                if j < self.nodes[n].preds.len() {
                    assert(self.pred_ok(n, j));
                }
            }
            assert forall|i: int, j: int|
                0 <= i < after.nodes[n].succs.len() && 0 <= j < after.nodes[n].succs.len() && i
                    != j implies after.nodes[n].succs[i] != after.nodes[n].succs[j] by {
                if i < self.nodes[n].succs.len() {
                    assert(self.succ_ok(n, i));
                }
                if j < self.nodes[n].succs.len() {
                    assert(self.succ_ok(n, j));
                }
            }
        }
        assert forall|n: int, i: int|
            0 <= n < after.nodes.len() && 0 <= i < after.nodes[n].preds.len()
                implies #[trigger] after.pred_ok(n, i) by {
            if i < self.nodes[n].preds.len() {
                assert(self.pred_ok(n, i));
            }
        }
        assert forall|n: int, i: int|
            0 <= n < after.nodes.len() && 0 <= i < after.nodes[n].succs.len()
                implies #[trigger] after.succ_ok(n, i) by {
            if i < self.nodes[n].succs.len() {
                assert(self.succ_ok(n, i));
            }
        }
        assert forall|n: int, i: int|
            0 <= n < after.nodes.len() && 0 <= i < after.nodes[n].domain_ids.len()
                implies #[trigger] after.domain_ok(n, i) by {
            assert(self.domain_ok(n, i));
        }
        assert forall|n: int| 0 <= n < after.nodes.len() implies #[trigger] after.members_ok(
            n,
        ) by {
            assert(self.members_ok(n));
        }
        assert forall|e1: int, e2: int, pred: NodeId, succ: NodeId|
            #[trigger] after.joins(e1, pred, succ) && #[trigger] after.joins(
                e2,
                pred,
                succ,
            ) implies e1 == e2 by {
            if e1 < fresh {
                assert(self.joins(e1, pred, succ));
            }
            if e2 < fresh {
                assert(self.joins(e2, pred, succ));
            }
        }
        assert forall|d1: int, d2: int, name: Seq<char>|
            #[trigger] after.names(d1, name) && #[trigger] after.names(d2, name) implies d1
            == d2 by {
            assert(self.names(d1, name) && self.names(d2, name));
        }
        assert forall|n1: int, n2: int, value: NodeValue<V>|
            #[trigger] after.asserts(n1, value) && #[trigger] after.asserts(
                n2,
                value,
            ) implies n1 == n2 by {
            assert(self.asserts(n1, value) && self.asserts(n2, value));
        }
        assert(after.joins(fresh, edge.pred, edge.succ));
        after.lemma_edge_between(fresh, edge.pred, edge.succ);
    }

    /// Registering a domain changes nothing for the other names.
    pub proof fn lemma_make_domain_others(
        self,
        name: Seq<char>,
        description: Seq<char>,
        other: Seq<char>,
    )
        requires
            self.wf(),
            self.domains.len() < usize::MAX,
            other != name,
        ensures
            self.make_domain(name, description).0.domain_named(other) == self.domain_named(other),
    {
        let after = self.make_domain(name, description).0;
        self.lemma_make_domain_wf(name, description);
        self.lemma_found();
        after.lemma_found();
        match self.domain_named(other) {
            Some(id) => {
                assert(after.names(id.0 as int, other));
                after.lemma_domain_named(id.0 as int, other);
            },
            None => {
                if after.domain_named(other) is Some {
                    let d = (after.domain_named(other)->0).0 as int;
                    assert(after.names(d, other));
                    assert(self.names(d, other));
                }
            },
        }
    }

    /// A new edge changes nothing for the other pairs of nodes.
    pub proof fn lemma_add_edge_others(self, edge: Edge, pred: NodeId, succ: NodeId)
        requires
            self.wf(),
            self.edges.len() < usize::MAX,
            self.has_node(edge.pred),
            self.has_node(edge.succ),
            self.edge_between(edge.pred, edge.succ) is None,
            pred != edge.pred || succ != edge.succ,
        ensures
            self.add_edge(edge).edge_between(pred, succ) == self.edge_between(pred, succ),
    {
        let after = self.add_edge(edge);
        self.lemma_add_edge_wf(edge);
        self.lemma_found();
        after.lemma_found();
        match self.edge_between(pred, succ) {
            Some(id) => {
                assert(after.joins(id.0 as int, pred, succ));
                after.lemma_edge_between(id.0 as int, pred, succ);
            },
            None => {
                if after.edge_between(pred, succ) is Some {
                    let e = (after.edge_between(pred, succ)->0).0 as int;
                    assert(after.joins(e, pred, succ));
                    assert(self.joins(e, pred, succ));
                }
            },
        }
    }

    /// A new node changes nothing for the values that it does not assert, and
    /// nothing for edges and domains.
    pub proof fn lemma_add_node_others(
        self,
        kind: NodeKind<V>,
        domain_ids: Seq<DomainId>,
        info: Option<Seq<char>>,
        metadata: Option<Arc<dyn Metadata>>,
    )
        requires
            self.wf(),
            self.add_node(kind, domain_ids, info, metadata).wf(),
        ensures
            forall|value: NodeValue<V>|
                kind != NodeKind::Value(value) ==> #[trigger] self.add_node(
                    kind,
                    domain_ids,
                    info,
                    metadata,
                ).value_node(value) == self.value_node(value),
            kind matches NodeKind::Value(value) ==> self.add_node(
                kind,
                domain_ids,
                info,
                metadata,
            ).value_node(value) == Some(NodeId(self.nodes.len() as usize)),
            forall|pred: NodeId, succ: NodeId| #[trigger]
                self.add_node(kind, domain_ids, info, metadata).edge_between(pred, succ)
                    == self.edge_between(pred, succ),
            forall|name: Seq<char>| #[trigger]
                self.add_node(kind, domain_ids, info, metadata).domain_named(name)
                    == self.domain_named(name),
    {
        let after = self.add_node(kind, domain_ids, info, metadata);
        self.lemma_found();
        after.lemma_found();
        assert forall|value: NodeValue<V>| kind != NodeKind::Value(value) implies #[trigger]
            after.value_node(value) == self.value_node(value) by {
            match self.value_node(value) {
                Some(id) => {
                    assert(after.asserts(id.0 as int, value));
                    after.lemma_value_node(id.0 as int, value);
                },
                None => {
                    if after.value_node(value) is Some {
                        let n = (after.value_node(value)->0).0 as int;
                        assert(after.asserts(n, value));
                        assert(self.asserts(n, value));
                    }
                },
            }
        }
        if let NodeKind::Value(value) = kind {
            assert(after.asserts(self.nodes.len() as int, value));
            after.lemma_value_node(self.nodes.len() as int, value);
        }
        assert forall|pred: NodeId, succ: NodeId| #[trigger]
            after.edge_between(pred, succ) == self.edge_between(pred, succ) by {
            match self.edge_between(pred, succ) {
                Some(id) => {
                    assert(after.joins(id.0 as int, pred, succ));
                    after.lemma_edge_between(id.0 as int, pred, succ);
                },
                None => {
                    if after.edge_between(pred, succ) is Some {
                        let e = (after.edge_between(pred, succ)->0).0 as int;
                        assert(after.joins(e, pred, succ));
                        assert(self.joins(e, pred, succ));
                    }
                },
            }
        }
        assert forall|name: Seq<char>| #[trigger]
            after.domain_named(name) == self.domain_named(name) by {
            match self.domain_named(name) {
                Some(id) => {
                    assert(after.names(id.0 as int, name));
                    after.lemma_domain_named(id.0 as int, name);
                },
                None => {
                    if after.domain_named(name) is Some {
                        let d = (after.domain_named(name)->0).0 as int;
                        assert(after.names(d, name));
                        assert(self.names(d, name));
                    }
                },
            }
        }
    }

    /// Linking the next member of an aggregator succeeds: members that agree
    /// cannot ask for two different edges from one node.
    pub proof fn lemma_link_step(self, members: Seq<Member>, target: NodeId, i: int)
        requires
            self.wf(),
            0 <= i < members.len(),
            self.has_node(target),
            self.has_node(members[i].node),
            members_agree(members),
            self.linked_from(members, target, i),
        ensures
            self.make_edge(
                members[i].node,
                target,
                members[i].strength,
                members[i].relation,
            ).1 is Ok,
            self.make_edge(
                members[i].node,
                target,
                members[i].strength,
                members[i].relation,
            ).0.linked_from(members, target, i + 1),
            self.make_edge(
                members[i].node,
                target,
                members[i].strength,
                members[i].relation,
            ).0.nodes.len() == self.nodes.len(),
    {
        let member = members[i];
        let after = self.make_edge(member.node, target, member.strength, member.relation).0;
        self.lemma_found();
        match self.edge_between(member.node, target) {
            Some(id) => {
                assert(self.joins(id.0 as int, member.node, target));
                let j = choose|j: int|
                    0 <= j < i && self.edges[id.0 as int] == member_edge(
                        #[trigger] members[j],
                        target,
                    );
                assert(members[j] == members[i]);
                assert forall|e: int|
                    0 <= e < after.edges.len() && (#[trigger] after.edges[e]).succ
                        == target implies exists|k: int|
                    0 <= k < i + 1 && after.edges[e] == member_edge(
                        #[trigger] members[k],
                        target,
                    ) by {
                    let k = choose|k: int|
                        0 <= k < i && self.edges[e] == member_edge(#[trigger] members[k], target);
                    assert(after.edges[e] == member_edge(members[k], target));
                }
            },
            None => {
                assert forall|e: int|
                    0 <= e < after.edges.len() && (#[trigger] after.edges[e]).succ
                        == target implies exists|k: int|
                    0 <= k < i + 1 && after.edges[e] == member_edge(
                        #[trigger] members[k],
                        target,
                    ) by {
                    if e < self.edges.len() {
                        let k = choose|k: int|
                            0 <= k < i && self.edges[e] == member_edge(
                                #[trigger] members[k],
                                target,
                            );
                        assert(after.edges[e] == member_edge(members[k], target));
                    } else {
                        assert(after.edges[e] == member_edge(members[i], target));
                    }
                }
            },
        }
    }
}

/// `distinct` keeps every member once: the result has no member twice, holds
/// what `values` holds, and starts with the first of `values`.
pub proof fn lemma_distinct<T>(values: Seq<T>)
    ensures
        distinct(values).no_duplicates(),
        forall|value: T| distinct(values).contains(value) <==> values.contains(value),
        values.len() > 0 ==> distinct(values).len() > 0 && distinct(values)[0] == values[0],
        distinct(values).len() <= values.len(),
    decreases values.len(),
{
    if values.len() > 0 {
        let front = values.drop_last();
        let before = distinct(front);
        lemma_distinct(front);
        assert forall|value: T| distinct(values).contains(value) <==> values.contains(
            value,
        ) by {
            if values.contains(value) {
                let i = choose|i: int| 0 <= i < values.len() && values[i] == value;
                if i < front.len() {
                    assert(front[i] == value);
                    assert(front.contains(value));
                    assert(before.contains(value));
                    let j = choose|j: int| 0 <= j < before.len() && before[j] == value;
                    assert(distinct(values)[j] == value);
                } else {
                    if !before.contains(value) {
                        assert(distinct(values)[before.len() as int] == value);
                    }
                }
            }
            if distinct(values).contains(value) {
                let j = choose|j: int| 0 <= j < distinct(values).len() && distinct(values)[j]
                    == value;
                if j < before.len() {
                    assert(before[j] == value);
                    assert(before.contains(value));
                    assert(front.contains(value));
                    let i = choose|i: int| 0 <= i < front.len() && front[i] == value;
                    assert(values[i] == value);
                } else {
                    assert(values[values.len() - 1] == value);
                }
            }
        }
        if front.len() == 0 {
            assert(before.len() == 0);
        }
    }
}

} // verus!
