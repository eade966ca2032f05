//! The errors of graph construction and evaluation.
use vstd::prelude::*;

verus! {

/// Why a construction or evaluation call was refused.
#[derive(Debug)]
pub enum GraphError {
    /// A domain identifier was never registered.
    DomainNotFound,
    /// A node id addresses no node.
    NodeNotFound,
    /// The pair of nodes already has an edge with another strength or relation.
    ConflictingEdgeCreated,
    /// An `In` aggregator was asked for without values.
    NoInAggregatorValues,
    /// A structural rule was broken; `reason` says which.
    MalformedGraph { reason: String },
}

/// A [`GraphError`] as contracts speak of it: the reason as its characters.
pub enum GraphFault {
    DomainNotFound,
    NodeNotFound,
    ConflictingEdgeCreated,
    NoInAggregatorValues,
    MalformedGraph { reason: Seq<char> },
}

impl View for GraphError {
    type V = GraphFault;

    open spec fn view(&self) -> GraphFault {
        match self {
            GraphError::DomainNotFound => GraphFault::DomainNotFound,
            GraphError::NodeNotFound => GraphFault::NodeNotFound,
            GraphError::ConflictingEdgeCreated => GraphFault::ConflictingEdgeCreated,
            GraphError::NoInAggregatorValues => GraphFault::NoInAggregatorValues,
            GraphError::MalformedGraph { reason } => GraphFault::MalformedGraph {
                reason: reason@,
            },
        }
    }
}

/// A result as contracts speak of it: the error, if any, by its view.
pub open spec fn outcome<T>(result: Result<T, GraphError>) -> Result<T, GraphFault> {
    match result {
        Ok(value) => Ok(value),
        Err(error) => Err(error@),
    }
}

/// The reason given when the values of an `In` aggregator differ in key.
pub open spec fn mixed_keys_reason() -> Seq<char> {
    "Values for 'In' aggregator not of same key"@
}

impl GraphError {
    /// The error in words.
    pub fn message(&self) -> (text: String)
        ensures
            self matches GraphError::MalformedGraph { reason } ==> text@ == reason@,
            self is DomainNotFound ==> text@ == "domain not found"@,
            self is NodeNotFound ==> text@ == "node not found"@,
            self is ConflictingEdgeCreated ==> text@ == "conflicting edge created"@,
            self is NoInAggregatorValues ==> text@ == "no values for an 'In' aggregator"@,
    {
        match self {
            GraphError::DomainNotFound => "domain not found".to_owned(),
            GraphError::NodeNotFound => "node not found".to_owned(),
            GraphError::ConflictingEdgeCreated => "conflicting edge created".to_owned(),
            GraphError::NoInAggregatorValues => "no values for an 'In' aggregator".to_owned(),
            GraphError::MalformedGraph { reason } => reason.clone(),
        }
    }
}

} // verus!
