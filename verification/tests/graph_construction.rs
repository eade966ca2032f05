use std::sync::Arc;

use router_core::builder::ConstraintGraphBuilder;
use router_core::dense_map::{DenseMap, EntityId};
use router_core::error::GraphError;
use router_core::facts::{CardNetwork, Currency, FactValue, PaymentMethod};
use router_core::types::{
    DomainId, DomainIdentifier, EdgeId, Metadata, NodeId, NodeType, NodeValue, Relation, Strength,
};

struct Note(&'static str);

impl Metadata for Note {
    fn describe(&self) -> String {
        self.0.to_string()
    }
}

fn value(network: CardNetwork) -> NodeValue<FactValue> {
    NodeValue::Value(FactValue::CardNetwork(network))
}

fn builder_with_domain<'a>() -> ConstraintGraphBuilder<'a, FactValue> {
    let mut builder = ConstraintGraphBuilder::new();
    builder
        .make_domain(DomainIdentifier::new("m1"), "merchant one".to_string())
        .unwrap();
    builder
}

fn in_m1<'a>() -> Vec<DomainIdentifier<'a>> {
    vec![DomainIdentifier::new("m1")]
}

#[test]
fn dense_map_push_returns_increasing_ids() {
    let mut map: DenseMap<NodeId, u32> = DenseMap::new();
    assert!(map.is_empty());
    let first = map.push(10);
    let second = map.push(20);
    let third = map.push(30);
    assert_eq!(first, NodeId(0));
    assert_eq!(second, NodeId(1));
    assert_eq!(third, NodeId(2));
    assert_eq!(map.len(), 3);
    assert!(!map.is_empty());
}

#[test]
fn dense_map_get_is_none_past_the_end() {
    let mut map: DenseMap<EdgeId, &'static str> = DenseMap::new();
    let id = map.push("a");
    assert_eq!(map.get(id), Some(&"a"));
    assert_eq!(map.get(EdgeId(1)), None);
    assert_eq!(map.get(EdgeId(usize::MAX)), None);
    assert!(map.contains_key(EdgeId(0)));
    assert!(!map.contains_key(EdgeId(1)));
    assert_eq!(*map.index(id), "a");
}

#[test]
fn dense_map_get_mut_writes_in_place() {
    let mut map: DenseMap<DomainId, u32> = DenseMap::new();
    map.push(1);
    map.push(2);
    if let Some(slot) = map.get_mut(DomainId(1)) {
        *slot = 7;
    }
    assert_eq!(map.get(DomainId(0)), Some(&1));
    assert_eq!(map.get(DomainId(1)), Some(&7));
    assert!(map.get_mut(DomainId(2)).is_none());
    assert_eq!(map.len(), 2);
}

#[test]
fn dense_map_keys_are_the_positions() {
    let mut map: DenseMap<NodeId, u8> = DenseMap::new();
    map.push(5);
    map.push(6);
    assert_eq!(map.keys(), vec![NodeId(0), NodeId(1)]);
    assert_eq!(NodeId::with_id(4).get_id(), 4);
    assert_eq!(EdgeId::with_id(9).get_id(), 9);
    assert_eq!(DomainId::with_id(0).get_id(), 0);
}

#[test]
fn value_node_is_made_once() {
    let mut builder = builder_with_domain();
    let first = builder
        .make_value_node(value(CardNetwork::Visa), Some("first"), in_m1(), None)
        .unwrap();
    let second = builder
        .make_value_node(value(CardNetwork::Visa), Some("second"), vec![], None)
        .unwrap();
    assert_eq!(first, second);
    assert_eq!(first, NodeId(0));
    let graph = builder.build();
    assert_eq!(graph.node_count(), 1);
    assert_eq!(graph.node_info(first), Some("first"));
    assert_eq!(graph.node(first).unwrap().domain_ids, vec![DomainId(0)]);
    assert_eq!(graph.value_node(&value(CardNetwork::Visa)), Some(first));
    assert_eq!(graph.value_node(&value(CardNetwork::Amex)), None);
}

#[test]
fn different_values_get_different_nodes() {
    let mut builder = builder_with_domain();
    let visa = builder
        .make_value_node(value(CardNetwork::Visa), None, in_m1(), None)
        .unwrap();
    let amex = builder
        .make_value_node(value(CardNetwork::Amex), None, in_m1(), None)
        .unwrap();
    let key = builder
        .make_value_node(
            NodeValue::Key(router_core::facts::FactKey::CardNetwork),
            None,
            in_m1(),
            None,
        )
        .unwrap();
    assert_eq!((visa, amex, key), (NodeId(0), NodeId(1), NodeId(2)));
}

#[test]
fn value_node_in_an_unknown_domain_is_refused() {
    let mut builder = builder_with_domain();
    let result = builder.make_value_node(
        value(CardNetwork::Visa),
        None,
        vec![DomainIdentifier::new("m1"), DomainIdentifier::new("nowhere")],
        None,
    );
    assert!(matches!(result, Err(GraphError::DomainNotFound)));
    let graph = builder.build();
    assert_eq!(graph.node_count(), 0);
}

#[test]
fn value_node_keeps_its_metadata() {
    let mut builder = builder_with_domain();
    let note: Arc<dyn Metadata> = Arc::new(Note("why"));
    let with = builder
        .make_value_node(value(CardNetwork::Visa), None, in_m1(), Some(note))
        .unwrap();
    let without = builder
        .make_value_node(value(CardNetwork::Amex), None, in_m1(), None)
        .unwrap();
    let graph = builder.build();
    assert_eq!(graph.node_metadata(with).unwrap().describe(), "why");
    assert!(graph.node_metadata(without).is_none());
    assert!(graph.node_metadata(NodeId(9)).is_none());
    assert_eq!(graph.node_info(without), None);
}

#[test]
fn edge_is_made_once_and_never_changed() {
    let mut builder = builder_with_domain();
    let p = builder
        .make_value_node(value(CardNetwork::Visa), None, in_m1(), None)
        .unwrap();
    let s = builder
        .make_value_node(value(CardNetwork::Amex), None, in_m1(), None)
        .unwrap();
    let first = builder
        .make_edge(p, s, Strength::Strong, Relation::Positive)
        .unwrap();
    let second = builder
        .make_edge(p, s, Strength::Strong, Relation::Positive)
        .unwrap();
    assert_eq!(first, second);
    assert_eq!(first, EdgeId(0));
    let weaker = builder.make_edge(p, s, Strength::Weak, Relation::Positive);
    assert!(matches!(weaker, Err(GraphError::ConflictingEdgeCreated)));
    let flipped = builder.make_edge(p, s, Strength::Strong, Relation::Negative);
    assert!(matches!(flipped, Err(GraphError::ConflictingEdgeCreated)));
    let back = builder
        .make_edge(s, p, Strength::Weak, Relation::Negative)
        .unwrap();
    assert_eq!(back, EdgeId(1));
    let graph = builder.build();
    assert_eq!(graph.edge_count(), 2);
    let edge = graph.edge(first).unwrap();
    assert_eq!(edge.pred, p);
    assert_eq!(edge.succ, s);
    assert_eq!(edge.strength, Strength::Strong);
    assert_eq!(edge.relation, Relation::Positive);
    assert_eq!(graph.node(p).unwrap().succs, vec![EdgeId(0)]);
    assert_eq!(graph.node(p).unwrap().preds, vec![EdgeId(1)]);
    assert_eq!(graph.node(s).unwrap().preds, vec![EdgeId(0)]);
    assert_eq!(graph.node(s).unwrap().succs, vec![EdgeId(1)]);
    assert!(graph.edge(EdgeId(2)).is_none());
}

#[test]
fn edge_from_a_node_to_itself_is_listed_on_both_sides() {
    let mut builder = builder_with_domain();
    let n = builder
        .make_all_aggregator(&[], None, None, in_m1())
        .unwrap();
    let e = builder
        .make_edge(n, n, Strength::Strong, Relation::Positive)
        .unwrap();
    let graph = builder.build();
    assert_eq!(graph.node(n).unwrap().preds, vec![e]);
    assert_eq!(graph.node(n).unwrap().succs, vec![e]);
}

#[test]
fn domain_registered_twice_keeps_id_and_description() {
    let mut builder: ConstraintGraphBuilder<'_, FactValue> = ConstraintGraphBuilder::new();
    let first = builder
        .make_domain(DomainIdentifier::new("m1"), "desc A".to_string())
        .unwrap();
    let second = builder
        .make_domain(DomainIdentifier::new("m1"), "desc B".to_string())
        .unwrap();
    let other = builder
        .make_domain(DomainIdentifier::new("m2"), "desc C".to_string())
        .unwrap();
    assert_eq!(first, second);
    assert_eq!(first, DomainId(0));
    assert_eq!(other, DomainId(1));
    let graph = builder.build();
    assert_eq!(graph.domain_count(), 2);
    let stored = graph.domain(first).unwrap();
    assert_eq!(stored.domain_description, "desc A");
    assert_eq!(stored.domain_identifier.into_inner(), "m1");
    assert_eq!(graph.domain(other).unwrap().domain_description, "desc C");
    assert!(graph.domain(DomainId(2)).is_none());
}

#[test]
fn edge_to_a_missing_node_changes_nothing() {
    let mut builder = builder_with_domain();
    let p = builder
        .make_value_node(value(CardNetwork::Visa), None, in_m1(), None)
        .unwrap();
    let missing = NodeId(17);
    let from = builder.make_edge(missing, p, Strength::Strong, Relation::Positive);
    assert!(matches!(from, Err(GraphError::NodeNotFound)));
    let to = builder.make_edge(p, missing, Strength::Strong, Relation::Positive);
    assert!(matches!(to, Err(GraphError::NodeNotFound)));
    let s = builder
        .make_value_node(value(CardNetwork::Amex), None, in_m1(), None)
        .unwrap();
    let edge = builder
        .make_edge(p, s, Strength::Strong, Relation::Positive)
        .unwrap();
    assert_eq!(s, NodeId(1));
    assert_eq!(edge, EdgeId(0));
    let graph = builder.build();
    assert_eq!(graph.node_count(), 2);
    assert_eq!(graph.edge_count(), 1);
    assert!(graph.node(p).unwrap().preds.is_empty());
}

#[test]
fn all_aggregator_links_its_members() {
    let mut builder = builder_with_domain();
    let a = builder
        .make_value_node(value(CardNetwork::Visa), None, in_m1(), None)
        .unwrap();
    let b = builder
        .make_value_node(value(CardNetwork::Amex), None, in_m1(), None)
        .unwrap();
    let all = builder
        .make_all_aggregator(
            &[
                (a, Relation::Positive, Strength::Strong),
                (b, Relation::Negative, Strength::Weak),
                (a, Relation::Positive, Strength::Strong),
            ],
            Some("both"),
            None,
            in_m1(),
        )
        .unwrap();
    assert_eq!(all, NodeId(2));
    let graph = builder.build();
    assert_eq!(graph.edge_count(), 2);
    let node = graph.node(all).unwrap();
    assert!(matches!(node.node_type, NodeType::AllAggregator));
    assert_eq!(node.preds, vec![EdgeId(0), EdgeId(1)]);
    let second = graph.edge(EdgeId(1)).unwrap();
    assert_eq!(second.pred, b);
    assert_eq!(second.succ, all);
    assert_eq!(second.relation, Relation::Negative);
    assert_eq!(second.strength, Strength::Weak);
    assert_eq!(graph.node_info(all), Some("both"));
}

#[test]
fn any_aggregator_edges_are_strong() {
    let mut builder = builder_with_domain();
    let a = builder
        .make_value_node(value(CardNetwork::Visa), None, in_m1(), None)
        .unwrap();
    let any = builder
        .make_any_aggregator(&[(a, Relation::Negative)], None, None, in_m1())
        .unwrap();
    let graph = builder.build();
    assert!(matches!(graph.node(any).unwrap().node_type, NodeType::AnyAggregator));
    let edge = graph.edge(EdgeId(0)).unwrap();
    assert_eq!(edge.strength, Strength::Strong);
    assert_eq!(edge.relation, Relation::Negative);
    assert_eq!(edge.pred, a);
    assert_eq!(edge.succ, any);
}

#[test]
fn aggregator_failures_change_nothing() {
    let mut builder = builder_with_domain();
    let a = builder
        .make_value_node(value(CardNetwork::Visa), None, in_m1(), None)
        .unwrap();
    let missing = builder.make_all_aggregator(
        &[(a, Relation::Positive, Strength::Strong), (NodeId(5), Relation::Positive, Strength::Strong)],
        None,
        None,
        in_m1(),
    );
    assert!(matches!(missing, Err(GraphError::NodeNotFound)));
    let nowhere = builder.make_any_aggregator(
        &[(a, Relation::Positive)],
        None,
        None,
        vec![DomainIdentifier::new("nowhere")],
    );
    assert!(matches!(nowhere, Err(GraphError::DomainNotFound)));
    let both = builder.make_all_aggregator(
        &[(NodeId(5), Relation::Positive, Strength::Strong)],
        None,
        None,
        vec![DomainIdentifier::new("nowhere")],
    );
    assert!(matches!(both, Err(GraphError::NodeNotFound)));
    let conflict = builder.make_all_aggregator(
        &[(a, Relation::Positive, Strength::Strong), (a, Relation::Negative, Strength::Strong)],
        None,
        None,
        in_m1(),
    );
    assert!(matches!(conflict, Err(GraphError::ConflictingEdgeCreated)));
    let next = builder
        .make_all_aggregator(&[(a, Relation::Positive, Strength::Strong)], None, None, in_m1())
        .unwrap();
    assert_eq!(next, NodeId(1));
    let graph = builder.build();
    assert_eq!(graph.node_count(), 2);
    assert_eq!(graph.edge_count(), 1);
}

#[test]
fn in_aggregator_stores_each_value_once() {
    let mut builder = builder_with_domain();
    let node = builder
        .make_in_aggregator(
            vec![
                FactValue::CardNetwork(CardNetwork::Visa),
                FactValue::CardNetwork(CardNetwork::Mastercard),
                FactValue::CardNetwork(CardNetwork::Visa),
            ],
            Some("networks"),
            None,
            in_m1(),
        )
        .unwrap();
    let graph = builder.build();
    let stored = graph.node(node).unwrap();
    match &stored.node_type {
        NodeType::InAggregator(members) => assert_eq!(
            members,
            &vec![
                FactValue::CardNetwork(CardNetwork::Visa),
                FactValue::CardNetwork(CardNetwork::Mastercard)
            ]
        ),
        _ => panic!("not an In aggregator"),
    }
    assert!(stored.preds.is_empty());
    assert_eq!(graph.edge_count(), 0);
}

#[test]
fn in_aggregator_without_values_is_refused() {
    let mut builder = builder_with_domain();
    let result = builder.make_in_aggregator(vec![], None, None, in_m1());
    assert!(matches!(result, Err(GraphError::NoInAggregatorValues)));
    let unknown_domain_too =
        builder.make_in_aggregator(vec![], None, None, vec![DomainIdentifier::new("nowhere")]);
    assert!(matches!(unknown_domain_too, Err(GraphError::NoInAggregatorValues)));
    assert_eq!(builder.build().node_count(), 0);
}

#[test]
fn in_aggregator_with_mixed_keys_is_refused() {
    let mut builder = builder_with_domain();
    let result = builder.make_in_aggregator(
        vec![
            FactValue::CardNetwork(CardNetwork::Visa),
            FactValue::Currency(Currency::Usd),
        ],
        None,
        None,
        in_m1(),
    );
    match result {
        Err(GraphError::MalformedGraph { reason }) => {
            assert_eq!(reason, "Values for 'In' aggregator not of same key")
        }
        _ => panic!("mixed keys were accepted"),
    }
    let nowhere = builder.make_in_aggregator(
        vec![FactValue::PaymentMethod(PaymentMethod::Card)],
        None,
        None,
        vec![DomainIdentifier::new("nowhere")],
    );
    assert!(matches!(nowhere, Err(GraphError::DomainNotFound)));
    assert_eq!(builder.build().node_count(), 0);
}

#[test]
fn errors_have_messages() {
    assert_eq!(GraphError::DomainNotFound.message(), "domain not found");
    assert_eq!(GraphError::NodeNotFound.message(), "node not found");
    assert_eq!(
        GraphError::ConflictingEdgeCreated.message(),
        "conflicting edge created"
    );
    assert_eq!(
        GraphError::NoInAggregatorValues.message(),
        "no values for an 'In' aggregator"
    );
    assert_eq!(
        GraphError::MalformedGraph { reason: "broken".to_string() }.message(),
        "broken"
    );
}
