//! The fact context: what is asserted when a graph is evaluated.
use vstd::prelude::*;

use crate::types::{DomainId, KeyNode, ValueNode};

verus! {

/// One assertion: in `domain`, `value` holds or does not hold.
pub struct Fact<V: ValueNode> {
    pub value: V,
    pub domain: DomainId,
    pub truth: bool,
}

/// The latest of `facts` that lies in one of `domains` and is about `value`.
pub open spec fn latest_of_value<V: ValueNode>(
    facts: Seq<Fact<V>>,
    value: V,
    domains: Seq<DomainId>,
) -> Option<Fact<V>>
    decreases facts.len(),
{
    if facts.len() == 0 {
        None
    } else if facts.last().value == value && domains.contains(facts.last().domain) {
        Some(facts.last())
    } else {
        latest_of_value(facts.drop_last(), value, domains)
    }
}

/// The latest of `facts` that lies in one of `domains` and is about a value of
/// `key`.
pub open spec fn latest_of_key<V: ValueNode>(
    facts: Seq<Fact<V>>,
    key: V::Key,
    domains: Seq<DomainId>,
) -> Option<Fact<V>>
    decreases facts.len(),
{
    if facts.len() == 0 {
        None
    } else if facts.last().value.key_of() == key && domains.contains(facts.last().domain) {
        Some(facts.last())
    } else {
        latest_of_key(facts.drop_last(), key, domains)
    }
}

/// Whether `domains` holds `domain`.
pub fn in_domains(domains: &Vec<DomainId>, domain: DomainId) -> (held: bool)
    ensures
        held == domains@.contains(domain),
{
    let mut i: usize = 0;
    while i < domains.len()
        invariant
            i <= domains@.len(),
            forall|j: int| 0 <= j < i ==> domains@[j] != domain,
        decreases domains@.len() - i,
    {
        if domains[i] == domain {
            return true;
        }
        i = i + 1;
    }
    false
}

/// The assertions an evaluation runs against, in the order in which they were
/// made. A later assertion about a value, or about a key, overrides an earlier
/// one in the same scope.
pub struct FactContext<V: ValueNode> {
    facts: Vec<Fact<V>>,
}

impl<V: ValueNode> View for FactContext<V> {
    type V = Seq<Fact<V>>;

    closed spec fn view(&self) -> Seq<Fact<V>> {
        self.facts@
    }
}

impl<V: ValueNode> FactContext<V> {
    /// A context without assertions.
    pub fn new() -> (context: Self)
        ensures
            context@ == Seq::<Fact<V>>::empty(),
    {
        FactContext { facts: Vec::new() }
    }

    /// The number of assertions made.
    pub fn len(&self) -> (len: usize)
        ensures
            len == self@.len(),
    {
        self.facts.len()
    }

    /// Asserts in `domain` that `value` holds (`truth`) or does not.
    pub fn assert_fact(&mut self, value: V, domain: DomainId, truth: bool)
        ensures
            final(self)@ == old(self)@.push(Fact { value, domain, truth }),
    {
        self.facts.push(Fact { value, domain, truth });
    }

    /// What the context says of `value` within `domains`: the truth of the
    /// latest assertion about it there, `None` where there is none.
    pub fn truth_of(&self, value: &V, domains: &Vec<DomainId>) -> (truth: Option<bool>)
        ensures
            truth == match latest_of_value(self@, *value, domains@) {
                Some(fact) => Some(fact.truth),
                None => None,
            },
    {
        let mut i: usize = self.facts.len();
        proof {
            assert(self@.take(i as int) =~= self@);
        }
        while i > 0
            invariant
                i <= self@.len(),
                latest_of_value(self@, *value, domains@) == latest_of_value(
                    self@.take(i as int),
                    *value,
                    domains@,
                ),
            decreases i,
        {
            i = i - 1;
            let fact = &self.facts[i];
            proof {
                assert(self@.take(i + 1).drop_last() =~= self@.take(i as int));
                assert(self@.take(i + 1).last() == self@[i as int]);
            }
            if fact.value.same_value(value) && in_domains(domains, fact.domain) {
                return Some(fact.truth);
            }
        }
        None
    }

    /// What the context holds for `key` within `domains`: the latest assertion
    /// there about a value of that key, `None` where there is none.
    pub fn fact_of_key(&self, key: &V::Key, domains: &Vec<DomainId>) -> (found: Option<&Fact<V>>)
        ensures
            found == match latest_of_key(self@, *key, domains@) {
                Some(fact) => Some(&fact),
                None => None,
            },
    {
        let mut i: usize = self.facts.len();
        proof {
            assert(self@.take(i as int) =~= self@);
        }
        while i > 0
            invariant
                i <= self@.len(),
                latest_of_key(self@, *key, domains@) == latest_of_key(
                    self@.take(i as int),
                    *key,
                    domains@,
                ),
            decreases i,
        {
            i = i - 1;
            let fact = &self.facts[i];
            proof {
                assert(self@.take(i + 1).drop_last() =~= self@.take(i as int));
                assert(self@.take(i + 1).last() == self@[i as int]);
            }
            let own = fact.value.get_key();
            if own.same_key(key) && in_domains(domains, fact.domain) {
                return Some(fact);
            }
        }
        None
    }
}

} // verus!
