//! The decisions of the two-level cache: what to do with what the stores
//! answered.
use vstd::prelude::*;
use vstd::string::StringExecFns;

verus! {

/// What the remote store answered to a read.
#[derive(Debug, Clone, Copy, PartialEq, Eq, Structural)]
pub enum RedisRead {
    /// The key holds a value that could be read.
    Found,
    /// The key holds nothing.
    NotFound,
    /// The key holds something that is no value of the kind asked for.
    JsonDeserializationFailed,
    /// The store failed in any other way.
    Failed,
}

/// What the cache does next.
#[derive(Debug, Clone, Copy, PartialEq, Eq, Structural)]
pub enum CacheStep {
    /// Hand out the value that was read.
    Return,
    /// Compute the value, store it, and hand it out.
    Populate,
    /// Give up with a key-value error.
    Fail,
}

/// What to do after a read of the remote store: a value that was read is
/// handed out; a key that holds nothing, or nothing readable, is filled; any
/// other failure is passed on.
pub fn on_redis_read(read: RedisRead) -> (step: CacheStep)
    ensures
        step == match read {
            RedisRead::Found => CacheStep::Return,
            RedisRead::NotFound => CacheStep::Populate,
            RedisRead::JsonDeserializationFailed => CacheStep::Populate,
            RedisRead::Failed => CacheStep::Fail,
        },
{
    match read {
        RedisRead::Found => CacheStep::Return,
        RedisRead::NotFound | RedisRead::JsonDeserializationFailed => CacheStep::Populate,
        RedisRead::Failed => CacheStep::Fail,
    }
}

/// What to do after a read of the cache in memory: a value that is there is
/// handed out, else the remote store is asked and the cache filled.
pub fn on_memory_read(found: bool) -> (step: CacheStep)
    ensures
        step == if found {
            CacheStep::Return
        } else {
            CacheStep::Populate
        },
{
    if found {
        CacheStep::Return
    } else {
        CacheStep::Populate
    }
}

/// The sum of the given counts.
pub open spec fn total(counts: Seq<usize>) -> int
    decreases counts.len(),
{
    if counts.len() == 0 {
        0
    } else {
        total(counts.drop_last()) + counts.last()
    }
}

/// The sum of the first counts is at most the sum of all.
pub proof fn lemma_total_grows(counts: Seq<usize>, upto: int)
    requires
        0 <= upto <= counts.len(),
    ensures
        0 <= total(counts.take(upto)) <= total(counts),
    decreases counts.len() - upto,
{
    if upto == counts.len() {
        assert(counts.take(upto) =~= counts);
        lemma_total_nonnegative(counts);
    } else {
        lemma_total_grows(counts, upto + 1);
        assert(counts.take(upto + 1).drop_last() =~= counts.take(upto));
        lemma_total_nonnegative(counts.take(upto));
    }
}

/// A sum of counts is not negative.
pub proof fn lemma_total_nonnegative(counts: Seq<usize>)
    ensures
        0 <= total(counts),
    decreases counts.len(),
{
    if counts.len() > 0 {
        lemma_total_nonnegative(counts.drop_last());
    }
}

/// How many subscribers the publications reached in all: the sum of what
/// each reached, `None` where the sum is more than a count can hold.
pub fn total_published(counts: &Vec<usize>) -> (sum: Option<usize>)
    ensures
        total(counts@) <= usize::MAX ==> sum == Some(total(counts@) as usize),
        total(counts@) > usize::MAX ==> sum is None,
{
    let mut sum: usize = 0;
    let mut i: usize = 0;
    proof {
        assert(counts@.take(0) =~= Seq::empty());
    }
    while i < counts.len()
        invariant
            i <= counts@.len(),
            sum == total(counts@.take(i as int)),
        decreases counts@.len() - i,
    {
        proof {
            assert(counts@.take(i + 1).drop_last() =~= counts@.take(i as int));
            lemma_total_grows(counts@, i + 1);
        }
        match sum.checked_add(counts[i]) {
            Some(next) => {
                sum = next;
            },
            None => {
                return None;
            },
        }
        i = i + 1;
    }
    proof {
        assert(counts@.take(counts@.len() as int) =~= counts@);
    }
    Some(sum)
}

/// The key under which the key store of a merchant is cached.
pub fn merchant_key_store_cache_key(merchant_id: &str) -> (key: String)
    ensures
        key@ == "merchant_key_store_"@ + merchant_id@,
{
    let mut key = String::from_str("merchant_key_store_");
    key.append(merchant_id);
    key
}

} // verus!
