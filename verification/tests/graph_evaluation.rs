use router_core::builder::ConstraintGraphBuilder;
use router_core::context::FactContext;
use router_core::error::GraphError;
use router_core::evaluation::EvaluationMode;
use router_core::facts::{CardNetwork, Currency, FactKey, FactValue, PaymentMethod};
use router_core::types::{
    DomainId, DomainIdentifier, EdgeId, NodeId, NodeValue, Relation, Strength,
};

const M1: DomainId = DomainId(0);

fn new_builder<'a>() -> ConstraintGraphBuilder<'a, FactValue> {
    let mut builder = ConstraintGraphBuilder::new();
    builder
        .make_domain(DomainIdentifier::new("m1"), "merchant one".to_string())
        .unwrap();
    builder
        .make_domain(DomainIdentifier::new("m2"), "merchant two".to_string())
        .unwrap();
    builder
}

fn in_m1<'a>() -> Vec<DomainIdentifier<'a>> {
    vec![DomainIdentifier::new("m1")]
}

fn network(builder: &mut ConstraintGraphBuilder<'_, FactValue>, network: CardNetwork) -> NodeId {
    builder
        .make_value_node(
            NodeValue::Value(FactValue::CardNetwork(network)),
            None,
            in_m1(),
            None,
        )
        .unwrap()
}

/// Visa is asserted true, Amex false.
fn visa_not_amex() -> FactContext<FactValue> {
    let mut context = FactContext::new();
    context.assert_fact(FactValue::CardNetwork(CardNetwork::Visa), M1, true);
    context.assert_fact(FactValue::CardNetwork(CardNetwork::Amex), M1, false);
    context
}

#[test]
fn value_node_is_satisfied_when_asserted_true() {
    let mut builder = new_builder();
    let visa = network(&mut builder, CardNetwork::Visa);
    let amex = network(&mut builder, CardNetwork::Amex);
    let discover = network(&mut builder, CardNetwork::Discover);
    let graph = builder.build();
    let context = visa_not_amex();
    assert_eq!(context.len(), 2);
    let verdict = graph.evaluate(&context, visa, EvaluationMode::Strict).unwrap();
    assert!(verdict.satisfied);
    assert!(verdict.decisive.is_empty());
    assert!(!graph.evaluate(&context, amex, EvaluationMode::Strict).unwrap().satisfied);
    assert!(!graph.evaluate(&context, discover, EvaluationMode::Strict).unwrap().satisfied);
}

#[test]
fn all_needs_every_predecessor_and_any_needs_one() {
    let mut builder = new_builder();
    let visa = network(&mut builder, CardNetwork::Visa);
    let amex = network(&mut builder, CardNetwork::Amex);
    let all = builder
        .make_all_aggregator(
            &[
                (visa, Relation::Positive, Strength::Strong),
                (amex, Relation::Positive, Strength::Strong),
            ],
            None,
            None,
            in_m1(),
        )
        .unwrap();
    let any = builder
        .make_any_aggregator(
            &[(visa, Relation::Positive), (amex, Relation::Positive)],
            None,
            None,
            in_m1(),
        )
        .unwrap();
    let graph = builder.build();
    let context = visa_not_amex();
    let all_verdict = graph.evaluate(&context, all, EvaluationMode::Strict).unwrap();
    assert!(!all_verdict.satisfied);
    assert_eq!(all_verdict.decisive, vec![EdgeId(1)]);
    let any_verdict = graph.evaluate(&context, any, EvaluationMode::Strict).unwrap();
    assert!(any_verdict.satisfied);
    assert_eq!(any_verdict.decisive, vec![EdgeId(2)]);
}

#[test]
fn all_over_satisfied_predecessors_is_satisfied() {
    let mut builder = new_builder();
    let visa = network(&mut builder, CardNetwork::Visa);
    let amex = network(&mut builder, CardNetwork::Amex);
    let all = builder
        .make_all_aggregator(
            &[
                (visa, Relation::Positive, Strength::Strong),
                (amex, Relation::Negative, Strength::Strong),
            ],
            None,
            None,
            in_m1(),
        )
        .unwrap();
    let none = builder
        .make_any_aggregator(
            &[(visa, Relation::Negative), (amex, Relation::Positive)],
            None,
            None,
            in_m1(),
        )
        .unwrap();
    let graph = builder.build();
    let context = visa_not_amex();
    let verdict = graph.evaluate(&context, all, EvaluationMode::Strict).unwrap();
    assert!(verdict.satisfied);
    assert_eq!(verdict.decisive, vec![EdgeId(0), EdgeId(1)]);
    let any = graph.evaluate(&context, none, EvaluationMode::Strict).unwrap();
    assert!(!any.satisfied);
    assert_eq!(any.decisive, vec![EdgeId(2), EdgeId(3)]);
}

#[test]
fn empty_aggregators() {
    let mut builder = new_builder();
    let all = builder.make_all_aggregator(&[], None, None, in_m1()).unwrap();
    let any = builder.make_any_aggregator(&[], None, None, in_m1()).unwrap();
    let graph = builder.build();
    let context = FactContext::new();
    assert!(graph.evaluate(&context, all, EvaluationMode::Strict).unwrap().satisfied);
    assert!(!graph.evaluate(&context, any, EvaluationMode::Strict).unwrap().satisfied);
}

#[test]
fn weak_edges_never_block() {
    let mut builder = new_builder();
    let visa = network(&mut builder, CardNetwork::Visa);
    let amex = network(&mut builder, CardNetwork::Amex);
    let all = builder
        .make_all_aggregator(
            &[
                (visa, Relation::Positive, Strength::Strong),
                (amex, Relation::Positive, Strength::Weak),
            ],
            None,
            None,
            in_m1(),
        )
        .unwrap();
    let graph = builder.build();
    let context = visa_not_amex();
    let strict = graph.evaluate(&context, all, EvaluationMode::Strict).unwrap();
    assert!(strict.satisfied);
    assert_eq!(strict.decisive, vec![EdgeId(0)]);
    let best_effort = graph.evaluate(&context, all, EvaluationMode::BestEffort).unwrap();
    assert!(best_effort.satisfied);
    assert_eq!(best_effort.decisive, vec![EdgeId(0)]);
}

#[test]
fn weak_edges_support_in_best_effort_mode() {
    let mut builder = new_builder();
    let visa = network(&mut builder, CardNetwork::Visa);
    let amex = network(&mut builder, CardNetwork::Amex);
    let all = builder
        .make_all_aggregator(
            &[
                (visa, Relation::Positive, Strength::Weak),
                (amex, Relation::Negative, Strength::Strong),
            ],
            None,
            None,
            in_m1(),
        )
        .unwrap();
    let blocked = builder
        .make_all_aggregator(
            &[
                (visa, Relation::Positive, Strength::Weak),
                (amex, Relation::Positive, Strength::Strong),
            ],
            None,
            None,
            in_m1(),
        )
        .unwrap();
    let graph = builder.build();
    let context = visa_not_amex();
    let strict = graph.evaluate(&context, all, EvaluationMode::Strict).unwrap();
    assert!(strict.satisfied);
    assert_eq!(strict.decisive, vec![EdgeId(1)]);
    let best_effort = graph.evaluate(&context, all, EvaluationMode::BestEffort).unwrap();
    assert!(best_effort.satisfied);
    assert_eq!(best_effort.decisive, vec![EdgeId(0), EdgeId(1)]);
    for mode in [EvaluationMode::Strict, EvaluationMode::BestEffort] {
        let verdict = graph.evaluate(&context, blocked, mode).unwrap();
        assert!(!verdict.satisfied);
        assert_eq!(verdict.decisive, vec![EdgeId(3)]);
    }
}

#[test]
fn in_aggregator_tests_membership() {
    let mut builder = new_builder();
    let node = builder
        .make_in_aggregator(
            vec![
                FactValue::CardNetwork(CardNetwork::Visa),
                FactValue::CardNetwork(CardNetwork::Mastercard),
            ],
            None,
            None,
            in_m1(),
        )
        .unwrap();
    let graph = builder.build();
    let mut visa = FactContext::new();
    visa.assert_fact(FactValue::Currency(Currency::Usd), M1, true);
    visa.assert_fact(FactValue::CardNetwork(CardNetwork::Visa), M1, true);
    assert!(graph.evaluate(&visa, node, EvaluationMode::Strict).unwrap().satisfied);
    let mut amex = FactContext::new();
    amex.assert_fact(FactValue::CardNetwork(CardNetwork::Amex), M1, true);
    assert!(!graph.evaluate(&amex, node, EvaluationMode::Strict).unwrap().satisfied);
    let empty = FactContext::new();
    assert!(!graph.evaluate(&empty, node, EvaluationMode::Strict).unwrap().satisfied);
}

#[test]
fn later_assertion_overrides_earlier() {
    let mut builder = new_builder();
    let visa = network(&mut builder, CardNetwork::Visa);
    let members = builder
        .make_in_aggregator(
            vec![FactValue::CardNetwork(CardNetwork::Visa)],
            None,
            None,
            in_m1(),
        )
        .unwrap();
    let graph = builder.build();
    let mut context = FactContext::new();
    context.assert_fact(FactValue::CardNetwork(CardNetwork::Visa), M1, true);
    assert!(graph.evaluate(&context, visa, EvaluationMode::Strict).unwrap().satisfied);
    assert!(graph.evaluate(&context, members, EvaluationMode::Strict).unwrap().satisfied);
    context.assert_fact(FactValue::CardNetwork(CardNetwork::Amex), M1, true);
    assert!(graph.evaluate(&context, visa, EvaluationMode::Strict).unwrap().satisfied);
    assert!(!graph.evaluate(&context, members, EvaluationMode::Strict).unwrap().satisfied);
    context.assert_fact(FactValue::CardNetwork(CardNetwork::Visa), M1, false);
    assert!(!graph.evaluate(&context, visa, EvaluationMode::Strict).unwrap().satisfied);
    assert_eq!(
        context.truth_of(&FactValue::CardNetwork(CardNetwork::Visa), &vec![M1]),
        Some(false)
    );
    assert_eq!(
        context.truth_of(&FactValue::CardNetwork(CardNetwork::Discover), &vec![M1]),
        None
    );
}

#[test]
fn facts_of_other_domains_are_not_seen() {
    let mut builder = new_builder();
    let visa = network(&mut builder, CardNetwork::Visa);
    let everywhere = builder
        .make_value_node(
            NodeValue::Value(FactValue::PaymentMethod(PaymentMethod::Card)),
            None,
            vec![DomainIdentifier::new("m1"), DomainIdentifier::new("m2")],
            None,
        )
        .unwrap();
    let nowhere = builder
        .make_value_node(
            NodeValue::Value(FactValue::Currency(Currency::Eur)),
            None,
            vec![],
            None,
        )
        .unwrap();
    let graph = builder.build();
    let m2 = DomainId(1);
    let mut context = FactContext::new();
    context.assert_fact(FactValue::CardNetwork(CardNetwork::Visa), m2, true);
    context.assert_fact(FactValue::PaymentMethod(PaymentMethod::Card), m2, true);
    context.assert_fact(FactValue::Currency(Currency::Eur), M1, true);
    assert!(!graph.evaluate(&context, visa, EvaluationMode::Strict).unwrap().satisfied);
    assert!(graph.evaluate(&context, everywhere, EvaluationMode::Strict).unwrap().satisfied);
    assert!(!graph.evaluate(&context, nowhere, EvaluationMode::Strict).unwrap().satisfied);
    assert!(context
        .fact_of_key(&FactKey::CardNetwork, &vec![M1])
        .is_none());
    assert_eq!(
        context
            .fact_of_key(&FactKey::CardNetwork, &vec![M1, m2])
            .map(|fact| fact.value),
        Some(FactValue::CardNetwork(CardNetwork::Visa))
    );
}

#[test]
fn key_node_is_satisfied_by_any_value_of_the_key() {
    let mut builder = new_builder();
    let key = builder
        .make_value_node(NodeValue::Key(FactKey::CardNetwork), None, in_m1(), None)
        .unwrap();
    let graph = builder.build();
    let mut context = FactContext::new();
    assert!(!graph.evaluate(&context, key, EvaluationMode::Strict).unwrap().satisfied);
    context.assert_fact(FactValue::CardNetwork(CardNetwork::Discover), M1, true);
    assert!(graph.evaluate(&context, key, EvaluationMode::Strict).unwrap().satisfied);
    context.assert_fact(FactValue::CardNetwork(CardNetwork::Visa), M1, false);
    assert!(!graph.evaluate(&context, key, EvaluationMode::Strict).unwrap().satisfied);
}

#[test]
fn cycle_ends_and_reads_unsatisfied() {
    let mut builder = new_builder();
    let a = builder.make_all_aggregator(&[], None, None, in_m1()).unwrap();
    let b = builder
        .make_all_aggregator(&[(a, Relation::Positive, Strength::Strong)], None, None, in_m1())
        .unwrap();
    let back = builder
        .make_edge(b, a, Strength::Strong, Relation::Positive)
        .unwrap();
    let graph = builder.build();
    let context = FactContext::new();
    let on_a = graph.evaluate(&context, a, EvaluationMode::Strict).unwrap();
    assert!(!on_a.satisfied);
    assert_eq!(on_a.decisive, vec![back]);
    let on_b = graph.evaluate(&context, b, EvaluationMode::Strict).unwrap();
    assert!(!on_b.satisfied);
    assert_eq!(on_b.decisive, vec![EdgeId(0)]);
}

#[test]
fn cycle_reads_unsatisfied_whatever_the_relation() {
    let mut builder = new_builder();
    let a = builder.make_all_aggregator(&[], None, None, in_m1()).unwrap();
    let own = builder
        .make_edge(a, a, Strength::Strong, Relation::Negative)
        .unwrap();
    let visa = network(&mut builder, CardNetwork::Visa);
    let any = builder
        .make_any_aggregator(&[(visa, Relation::Positive)], None, None, in_m1())
        .unwrap();
    let looped = builder
        .make_edge(any, any, Strength::Strong, Relation::Negative)
        .unwrap();
    let graph = builder.build();
    let on_a = graph.evaluate(&FactContext::new(), a, EvaluationMode::BestEffort).unwrap();
    assert!(!on_a.satisfied);
    assert_eq!(on_a.decisive, vec![own]);
    let context = visa_not_amex();
    let on_any = graph.evaluate(&context, any, EvaluationMode::Strict).unwrap();
    assert!(on_any.satisfied);
    assert_eq!(on_any.decisive, vec![EdgeId(1)]);
    let without = graph.evaluate(&FactContext::new(), any, EvaluationMode::Strict).unwrap();
    assert!(!without.satisfied);
    assert_eq!(without.decisive, vec![EdgeId(1), looped]);
}

#[test]
fn evaluation_is_repeatable() {
    let mut builder = new_builder();
    let visa = network(&mut builder, CardNetwork::Visa);
    let amex = network(&mut builder, CardNetwork::Amex);
    let inner = builder
        .make_any_aggregator(
            &[(visa, Relation::Positive), (amex, Relation::Positive)],
            None,
            None,
            in_m1(),
        )
        .unwrap();
    let outer = builder
        .make_all_aggregator(
            &[
                (inner, Relation::Positive, Strength::Strong),
                (amex, Relation::Negative, Strength::Strong),
                (visa, Relation::Negative, Strength::Weak),
            ],
            None,
            None,
            in_m1(),
        )
        .unwrap();
    let graph = builder.build();
    let context = visa_not_amex();
    for mode in [EvaluationMode::Strict, EvaluationMode::BestEffort] {
        let first = graph.evaluate(&context, outer, mode).unwrap();
        let second = graph.evaluate(&context, outer, mode).unwrap();
        assert_eq!(first.satisfied, second.satisfied);
        assert_eq!(first.decisive, second.decisive);
        assert!(first.satisfied);
        assert_eq!(first.decisive, vec![EdgeId(2), EdgeId(3)]);
    }
}

#[test]
fn unknown_target_is_an_error() {
    let mut builder = new_builder();
    let visa = network(&mut builder, CardNetwork::Visa);
    let graph = builder.build();
    let context = visa_not_amex();
    assert!(matches!(
        graph.evaluate(&context, NodeId(1), EvaluationMode::Strict),
        Err(GraphError::NodeNotFound)
    ));
    assert!(graph.evaluate(&context, visa, EvaluationMode::Strict).is_ok());
}

#[test]
fn best_effort_follows_weak_edges_into_cycles() {
    let mut builder = new_builder();
    let visa = network(&mut builder, CardNetwork::Visa);
    let a = builder
        .make_all_aggregator(&[(visa, Relation::Positive, Strength::Strong)], None, None, in_m1())
        .unwrap();
    let b = builder
        .make_all_aggregator(&[(a, Relation::Positive, Strength::Strong)], None, None, in_m1())
        .unwrap();
    builder
        .make_edge(b, a, Strength::Weak, Relation::Positive)
        .unwrap();
    let graph = builder.build();
    let context = visa_not_amex();
    for mode in [EvaluationMode::Strict, EvaluationMode::BestEffort] {
        let on_a = graph.evaluate(&context, a, mode).unwrap();
        assert!(on_a.satisfied);
        assert_eq!(on_a.decisive, vec![EdgeId(0)]);
    }
    assert!(graph.evaluate(&context, b, EvaluationMode::Strict).unwrap().satisfied);
    assert!(graph.evaluate(&context, b, EvaluationMode::BestEffort).unwrap().satisfied);
}
