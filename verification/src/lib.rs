//! The core of a payment router, verified.
//!
//! The heart of the crate is a constraint graph: rules of the form "if these
//! facts hold, this proposition holds", built once through
//! [`builder::ConstraintGraphBuilder`], frozen into a
//! [`graph::ConstraintGraph`], and evaluated against a
//! [`context::FactContext`] as often as needed. What construction and
//! evaluation do is stated over [`model::GraphModel`]; [`laws`] proves what
//! holds of every graph.
//!
//! Around it stand the parts of the router that decide or compute without
//! reading or sending anything: how a Fiserv request is signed, how payment
//! and payout methods are framed for the locker, how encrypted data are
//! written as text, what a background workflow does next, and the tables of
//! the in-memory database.
pub mod builder;
pub mod cache;
pub mod codec;
pub mod consts;
pub mod context;
pub mod cryptography;
pub mod dense_map;
pub mod error;
pub mod evaluation;
pub mod facts;
pub mod fiserv;
pub mod graph;
pub mod index;
pub mod invariants;
pub mod laws;
pub mod mock_db;
pub mod model;
pub mod payout_link;
pub mod text;
pub mod two_factor_auth;
pub mod types;
pub mod vault;
pub mod workflows;
