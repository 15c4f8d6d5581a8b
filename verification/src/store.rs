//! The bounded table of the consensus instances in flight.
//!
//! The table keeps at most `capacity` contexts. When a new one arrives at a
//! full table, the context that was used least recently leaves.

use crate::context::ConsensusContext;
use crate::recency::{
    after_put, after_put_all, after_put_distinct, keys_distinct, position_of, position_of_found,
    value_of, without, without_distinct,
};
use lru::LruCache;
use std::num::NonZeroUsize;
use vstd::prelude::*;

verus! {

/// `lru::LruCache`. Nothing is known of what is inside a cache but what the
/// functions below say.
#[verifier::external_type_specification]
#[verifier::external_body]
#[verifier::reject_recursive_types(K)]
#[verifier::reject_recursive_types(V)]
#[verifier::reject_recursive_types(S)]
pub struct ExLruCache<K, V, S>(LruCache<K, V, S>);

/// `lru::DefaultHasher`, the hasher of a cache that is made with
/// `LruCache::new`.
#[verifier::external_type_specification]
#[verifier::external_body]
pub struct ExDefaultHasher(lru::DefaultHasher);

/// The largest capacity a table can be made with. The cache behind the
/// table sets memory aside for its whole capacity when it is made; this
/// bound keeps that within what every target can address.
pub const MAX_CAPACITY: usize = 16_777_216;

/// The capacity of the table of a node unless it is configured otherwise.
pub const DEFAULT_CAPACITY: usize = 1000;

/// The entries of a cache of contexts, from the most recently used to the
/// least recently used, each with the text of its key.
pub uninterp spec fn cached_contexts(cache: LruCache<String, ConsensusContext>) -> Seq<
    (Seq<char>, ConsensusContext),
>;

/// The number of entries a cache of contexts was made to hold.
pub uninterp spec fn cached_contexts_limit(cache: LruCache<String, ConsensusContext>) -> nat;

/// `LruCache::new`: an empty cache that holds at most `limit` entries.
#[verifier::external_body]
fn cache_new(limit: usize) -> (cache: LruCache<String, ConsensusContext>)
    requires
        0 < limit <= MAX_CAPACITY,
    ensures
        cached_contexts(cache) == Seq::<(Seq<char>, ConsensusContext)>::empty(),
        cached_contexts_limit(cache) == limit,
{
    LruCache::new(NonZeroUsize::new(limit).unwrap())
}

/// `LruCache::pop`: removes the entry of `key` and hands out its value; the
/// other entries keep their order. Without such an entry nothing changes.
#[verifier::external_body]
fn cache_pop(cache: &mut LruCache<String, ConsensusContext>, key: &String) -> (value: Option<
    ConsensusContext,
>)
    ensures
        cached_contexts_limit(*final(cache)) == cached_contexts_limit(*old(cache)),
        match position_of(cached_contexts(*old(cache)), key@) {
            Some(i) => value == Some(cached_contexts(*old(cache))[i].1) && cached_contexts(
                *final(cache),
            ) == cached_contexts(*old(cache)).remove(i),
            None => value.is_none() && cached_contexts(*final(cache)) == cached_contexts(
                *old(cache),
            ),
        },
{
    cache.pop(key)
}

/// `LruCache::put`: the entry of `key` becomes the most recently used one and
/// holds `value`. The value it held before is handed out. Where the key was
/// not in a full cache, the least recently used entry is dropped.
#[verifier::external_body]
fn cache_put(cache: &mut LruCache<String, ConsensusContext>, key: String, value: ConsensusContext) -> (before:
    Option<ConsensusContext>)
    ensures
        cached_contexts_limit(*final(cache)) == cached_contexts_limit(*old(cache)),
        cached_contexts(*final(cache)) == after_put(
            cached_contexts(*old(cache)),
            cached_contexts_limit(*old(cache)),
            key@,
            value,
        ),
        match position_of(cached_contexts(*old(cache)), key@) {
            Some(i) => before == Some(cached_contexts(*old(cache))[i].1),
            None => before.is_none(),
        },
{
    cache.put(key, value)
}

/// `LruCache::peek`: the value of the entry of `key`, if there is one. The
/// order of use stays as it is.
#[verifier::external_body]
fn cache_peek<'a>(cache: &'a LruCache<String, ConsensusContext>, key: &String) -> (value: Option<
    &'a ConsensusContext,
>)
    ensures
        match position_of(cached_contexts(*cache), key@) {
            Some(i) => value == Some(&cached_contexts(*cache)[i].1),
            None => value.is_none(),
        },
{
    cache.peek(key)
}

/// `LruCache::len`: the number of entries.
#[verifier::external_body]
fn cache_len(cache: &LruCache<String, ConsensusContext>) -> (n: usize)
    ensures
        n == cached_contexts(*cache).len(),
{
    cache.len()
}

/// The bounded table of contexts, each under its own message id.
pub struct ContextStore {
    cache: LruCache<String, ConsensusContext>,
}

impl ContextStore {
    /// The contexts from the most recently used to the least recently used,
    /// each with its key.
    pub closed spec fn entries(&self) -> Seq<(Seq<char>, ConsensusContext)> {
        cached_contexts(self.cache)
    }

    /// The number of contexts the table holds at most.
    pub closed spec fn capacity(&self) -> nat {
        cached_contexts_limit(self.cache)
    }

    /// The table holds at most `capacity` contexts, one per message id, each
    /// well formed and under its own id.
    pub open spec fn wf(&self) -> bool {
        &&& 0 < self.capacity() <= MAX_CAPACITY
        &&& self.entries().len() <= self.capacity()
        &&& keys_distinct(self.entries())
        &&& forall|i: int|
            0 <= i < self.entries().len() ==> (#[trigger] self.entries()[i]).1.wf()
                && self.entries()[i].0 == self.entries()[i].1.id@
    }

    /// An empty table for at most `capacity` contexts.
    pub fn new(capacity: usize) -> (store: ContextStore)
        requires
            0 < capacity <= MAX_CAPACITY,
        ensures
            store.wf(),
            store.capacity() == capacity,
            store.entries().len() == 0,
    {
        ContextStore { cache: cache_new(capacity) }
    }

    /// The number of contexts in the table.
    pub fn len(&self) -> (n: usize)
        ensures
            n == self.entries().len(),
    {
        cache_len(&self.cache)
    }

    /// The context of message `id`, if the table holds one. Looking does not
    /// count as a use.
    pub fn peek(&self, id: &String) -> (found: Option<&ConsensusContext>)
        ensures
            match found {
                Some(ctx) => value_of(self.entries(), id@) == Some(*ctx),
                None => value_of(self.entries(), id@).is_none(),
            },
            self.wf() ==> match found {
                Some(ctx) => ctx.wf() && ctx.id@ == id@,
                None => true,
            },
    {
        proof {
            position_of_found(self.entries(), id@);
        }
        cache_peek(&self.cache, id)
    }

    /// Takes the context of message `id` out of the table, if there is one.
    /// The others keep their order.
    pub fn take(&mut self, id: &String) -> (found: Option<ConsensusContext>)
        requires
            old(self).wf(),
        ensures
            final(self).wf(),
            final(self).capacity() == old(self).capacity(),
            found == value_of(old(self).entries(), id@),
            final(self).entries() == without(old(self).entries(), id@),
            match found {
                Some(ctx) => ctx.wf() && ctx.id@ == id@,
                None => true,
            },
    {
        proof {
            position_of_found(self.entries(), id@);
            without_distinct(self.entries(), id@);
        }
        let found = cache_pop(&mut self.cache, id);
        proof {
            let before = old(self).entries();
            let after = self.entries();
            assert forall|i: int| 0 <= i < after.len() implies (#[trigger] after[i]).1.wf()
                && after[i].0 == after[i].1.id@ by {
                match position_of(before, id@) {
                    Some(p) => {
                        let j = if i < p {
                            i
                        } else {
                            i + 1
                        };
                        assert(after[i] == before[j]);
                    },
                    None => {},
                }
            }
        }
        found
    }

    /// Puts a context into the table under its id, as the most recently used
    /// one. It takes the place of an older context of that id; without one,
    /// a full table drops the context that was used least recently.
    pub fn put(&mut self, ctx: ConsensusContext)
        requires
            old(self).wf(),
            ctx.wf(),
        ensures
            final(self).wf(),
            final(self).capacity() == old(self).capacity(),
            final(self).entries() == after_put(
                old(self).entries(),
                old(self).capacity(),
                ctx.id@,
                ctx,
            ),
    {
        let key = ctx.id.clone();
        proof {
            position_of_found(self.entries(), key@);
            after_put_distinct(self.entries(), self.capacity(), key@, ctx);
        }
        proof {
            after_put_all(
                self.entries(),
                self.capacity(),
                key@,
                ctx,
                |entry: (Seq<char>, ConsensusContext)| entry.1.wf() && entry.0 == entry.1.id@,
            );
        }
        let _ = cache_put(&mut self.cache, key, ctx);
    }
}

} // verus!
