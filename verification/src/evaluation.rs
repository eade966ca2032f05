//! What evaluation computes, stated over the graph and the assertions alone.
use vstd::prelude::*;

use crate::context::{latest_of_key, latest_of_value, Fact};
use crate::model::{GraphModel, NodeKind};
use crate::types::{DomainId, EdgeId, NodeId, NodeValue, Relation, Strength, ValueNode};

verus! {

/// How advisory edges are treated.
#[derive(Debug, Clone, Copy, PartialEq, Eq, Structural)]
pub enum EvaluationMode {
    /// Advisory edges are not followed at all.
    Strict,
    /// Advisory edges are followed: one that reads satisfied supports the
    /// verdict, one that reads unsatisfied is passed over and never blocks.
    BestEffort,
}

/// Where a node stands during one evaluation.
#[derive(Debug, Clone, Copy, PartialEq, Eq, Structural)]
pub enum NodeState {
    Unvisited,
    InProgress,
    Satisfied,
    Unsatisfied,
}

/// The state that records a verdict.
pub open spec fn settled(satisfied: bool) -> NodeState {
    if satisfied {
        NodeState::Satisfied
    } else {
        NodeState::Unsatisfied
    }
}

/// What an edge reads from the state of its predecessor: a positive edge reads
/// a satisfied predecessor as satisfied, a negative edge an unsatisfied one. A
/// predecessor that is still in progress closes a cycle and reads as
/// unsatisfied whatever the relation.
pub open spec fn reading(relation: Relation, state: NodeState) -> bool {
    match state {
        NodeState::Satisfied => relation is Positive,
        NodeState::Unsatisfied => relation is Negative,
        _ => false,
    }
}

/// Whether the edge is followed: every edge into an `Any` aggregator, and into
/// an `All` aggregator the strong ones and, in best-effort mode, the weak ones.
pub open spec fn follows(all: bool, strength: Strength, mode: EvaluationMode) -> bool {
    !all || strength is Strong || mode is BestEffort
}

/// Whether the edge can oppose its successor: every edge into an `Any`
/// aggregator can, and the strong edges into an `All` aggregator. An edge that
/// is followed and cannot oppose can only support.
pub open spec fn counts(all: bool, strength: Strength) -> bool {
    !all || strength is Strong
}

/// Whether the assertion of a value node holds within `domains`.
pub open spec fn value_holds<V: ValueNode>(
    facts: Seq<Fact<V>>,
    value: NodeValue<V>,
    domains: Seq<DomainId>,
) -> bool {
    match value {
        NodeValue::Value(held) => latest_of_value(facts, held, domains) matches Some(fact)
            && fact.truth,
        NodeValue::Key(key) => latest_of_key(facts, key, domains) matches Some(fact) && fact.truth,
    }
}

/// Whether the value that the context holds for the key of `members`, within
/// `domains`, is one of them.
pub open spec fn member_holds<V: ValueNode>(
    facts: Seq<Fact<V>>,
    members: Seq<V>,
    domains: Seq<DomainId>,
) -> bool {
    members.len() > 0 && (latest_of_key(facts, members[0].key_of(), domains) matches Some(fact)
        && members.contains(fact.value))
}

/// The number of nodes not yet visited.
pub open spec fn unvisited(memo: Seq<NodeState>) -> nat
    decreases memo.len(),
{
    if memo.len() == 0 {
        0
    } else {
        unvisited(memo.drop_last()) + if memo.last() is Unvisited {
            1nat
        } else {
            0nat
        }
    }
}

/// The table in which no node of `count` has been visited.
pub open spec fn fresh(count: nat) -> Seq<NodeState> {
    Seq::new(count, |i: int| NodeState::Unvisited)
}

/// What the incoming edges of an aggregator have read so far.
pub struct Tally {
    pub memo: Seq<NodeState>,
    /// The followed edges that read satisfied, in order.
    pub supporting: Seq<EdgeId>,
    /// The edges that can oppose and read unsatisfied, in order.
    pub opposing: Seq<EdgeId>,
}

/// The evaluation of one node.
pub struct Evaluation {
    /// `Satisfied` or `Unsatisfied`; `InProgress` where the node was met again
    /// while it was being evaluated.
    pub state: NodeState,
    pub memo: Seq<NodeState>,
    /// The edges that decided the state: the supporting edges of a satisfied
    /// aggregator, the opposing edges of an unsatisfied one.
    pub decisive: Seq<EdgeId>,
}

/// A verdict on a target with the edges that decided it.
pub struct VerdictModel {
    pub satisfied: bool,
    pub decisive: Seq<EdgeId>,
}

impl<V: ValueNode> GraphModel<V> {
    /// The tally of the first `count` incoming edges of aggregator `n`, each
    /// predecessor evaluated in turn on the table the one before left.
    pub open spec fn eval_edges(
        &self,
        facts: Seq<Fact<V>>,
        mode: EvaluationMode,
        fuel: nat,
        n: int,
        count: int,
        memo: Seq<NodeState>,
    ) -> Tally
        decreases fuel, count + 1,
    {
        if count <= 0 {
            Tally { memo, supporting: Seq::empty(), opposing: Seq::empty() }
        } else {
            let before = self.eval_edges(facts, mode, fuel, n, count - 1, memo);
            let id = self.nodes[n].preds[count - 1];
            let edge = self.edges[id.0 as int];
            let all = self.nodes[n].kind is AllAggregator;
            if !follows(all, edge.strength, mode) {
                before
            } else {
                let pred = self.eval_node(facts, mode, fuel, edge.pred, before.memo);
                if reading(edge.relation, pred.state) {
                    Tally {
                        memo: pred.memo,
                        supporting: before.supporting.push(id),
                        opposing: before.opposing,
                    }
                } else if counts(all, edge.strength) {
                    Tally {
                        memo: pred.memo,
                        supporting: before.supporting,
                        opposing: before.opposing.push(id),
                    }
                } else {
                    Tally { memo: pred.memo, ..before }
                }
            }
        }
    }

    /// The evaluation of `node` on the table `memo`. A node that was visited
    /// keeps its state. A value node and an `In` aggregator are settled by the
    /// context. An aggregator is in progress while its incoming edges are
    /// tallied: an `All` aggregator is then satisfied when no edge opposes,
    /// an `Any` aggregator when an edge supports. `fuel` bounds the depth of
    /// nesting; the number of unvisited nodes is always enough.
    pub open spec fn eval_node(
        &self,
        facts: Seq<Fact<V>>,
        mode: EvaluationMode,
        fuel: nat,
        node: NodeId,
        memo: Seq<NodeState>,
    ) -> Evaluation
        decreases fuel, 0int,
    {
        let n = node.0 as int;
        if !(memo[n] is Unvisited) {
            Evaluation { state: memo[n], memo, decisive: Seq::empty() }
        } else {
            match self.nodes[n].kind {
                NodeKind::Value(value) => {
                    let state = settled(value_holds(facts, value, self.nodes[n].domain_ids));
                    Evaluation { state, memo: memo.update(n, state), decisive: Seq::empty() }
                },
                NodeKind::InAggregator(members) => {
                    let state = settled(member_holds(facts, members, self.nodes[n].domain_ids));
                    Evaluation { state, memo: memo.update(n, state), decisive: Seq::empty() }
                },
                kind => {
                    if fuel == 0 {
                        Evaluation {
                            state: NodeState::InProgress,
                            memo,
                            decisive: Seq::empty(),
                        }
                    } else {
                        let tally = self.eval_edges(
                            facts,
                            mode,
                            (fuel - 1) as nat,
                            n,
                            self.nodes[n].preds.len() as int,
                            memo.update(n, NodeState::InProgress),
                        );
                        let satisfied = if kind is AllAggregator {
                            tally.opposing.len() == 0
                        } else {
                            tally.supporting.len() > 0
                        };
                        Evaluation {
                            state: settled(satisfied),
                            memo: tally.memo.update(n, settled(satisfied)),
                            decisive: if satisfied {
                                tally.supporting
                            } else {
                                tally.opposing
                            },
                        }
                    }
                },
            }
        }
    }

    /// The verdict on `target`: its evaluation on a table in which no node has
    /// been visited.
    pub open spec fn verdict(
        &self,
        facts: Seq<Fact<V>>,
        target: NodeId,
        mode: EvaluationMode,
    ) -> VerdictModel {
        let evaluation = self.eval_node(
            facts,
            mode,
            self.nodes.len(),
            target,
            fresh(self.nodes.len()),
        );
        VerdictModel {
            satisfied: evaluation.state is Satisfied,
            decisive: evaluation.decisive,
        }
    }
}

/// Settling or marking one node changes the number of unvisited nodes by that
/// node alone.
pub proof fn lemma_unvisited_update(memo: Seq<NodeState>, i: int, state: NodeState)
    requires
        0 <= i < memo.len(),
    ensures
        unvisited(memo.update(i, state)) + (if memo[i] is Unvisited {
            1nat
        } else {
            0nat
        }) == unvisited(memo) + (if state is Unvisited {
            1nat
        } else {
            0nat
        }),
    decreases memo.len(),
{
    let after = memo.update(i, state);
    if i == memo.len() - 1 {
        assert(after.drop_last() =~= memo.drop_last());
    } else {
        assert(after.drop_last() =~= memo.drop_last().update(i, state));
        lemma_unvisited_update(memo.drop_last(), i, state);
    }
}

/// A fresh table of `count` nodes has `count` unvisited nodes.
pub proof fn lemma_unvisited_fresh(count: nat)
    ensures
        unvisited(fresh(count)) == count,
    decreases count,
{
    if count > 0 {
        assert(fresh(count).drop_last() =~= fresh((count - 1) as nat));
        lemma_unvisited_fresh((count - 1) as nat);
    }
}

/// A table with an unvisited node has at least one.
pub proof fn lemma_unvisited_positive(memo: Seq<NodeState>, i: int)
    requires
        0 <= i < memo.len(),
        memo[i] is Unvisited,
    ensures
        unvisited(memo) > 0,
    decreases memo.len(),
{
    if i < memo.len() - 1 {
        lemma_unvisited_positive(memo.drop_last(), i);
    }
}

} // verus!
