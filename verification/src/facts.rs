//! The facts that routing decisions are made of, as values of the graph.
use vstd::prelude::*;

use crate::types::{KeyNode, ValueNode};

verus! {

/// How a payment is made.
#[derive(Debug, Clone, Copy, PartialEq, Eq, Hash, Structural)]
pub enum PaymentMethod {
    Card,
    Wallet,
    BankTransfer,
    BankRedirect,
}

/// The network of a card.
#[derive(Debug, Clone, Copy, PartialEq, Eq, Hash, Structural)]
pub enum CardNetwork {
    Visa,
    Mastercard,
    Amex,
    Discover,
}

/// The currency of a payment.
#[derive(Debug, Clone, Copy, PartialEq, Eq, Hash, Structural)]
pub enum Currency {
    Usd,
    Eur,
    Gbp,
    Inr,
}

/// What a fact is about.
#[derive(Debug, Clone, Copy, PartialEq, Eq, Hash, Structural)]
pub enum FactKey {
    PaymentMethod,
    CardNetwork,
    Currency,
}

/// A fact about a payment.
#[derive(Debug, Clone, Copy, PartialEq, Eq, Hash, Structural)]
pub enum FactValue {
    PaymentMethod(PaymentMethod),
    CardNetwork(CardNetwork),
    Currency(Currency),
}

impl KeyNode for FactKey {
    fn same_key(&self, other: &Self) -> bool {
        *self == *other
    }
}

impl ValueNode for FactValue {
    type Key = FactKey;

    open spec fn key_of(&self) -> FactKey {
        match self {
            FactValue::PaymentMethod(_) => FactKey::PaymentMethod,
            FactValue::CardNetwork(_) => FactKey::CardNetwork,
            FactValue::Currency(_) => FactKey::Currency,
        }
    }

    fn get_key(&self) -> FactKey {
        match self {
            FactValue::PaymentMethod(_) => FactKey::PaymentMethod,
            FactValue::CardNetwork(_) => FactKey::CardNetwork,
            FactValue::Currency(_) => FactKey::Currency,
        }
    }

    fn same_value(&self, other: &Self) -> bool {
        *self == *other
    }
}

} // verus!
