//! Keyed entries in order of use, as a least-recently-used cache keeps them:
//! the most recently used entry first.

use vstd::prelude::*;

verus! {

/// The position of the first entry with key `key`, if there is one.
pub open spec fn position_of<K, V>(entries: Seq<(K, V)>, key: K) -> Option<int>
    decreases entries.len(),
{
    if entries.len() == 0 {
        None
    } else if entries[0].0 == key {
        Some(0int)
    } else {
        match position_of(entries.drop_first(), key) {
            Some(i) => Some(i + 1),
            None => None,
        }
    }
}

/// The entries after `key` was put with `value` into a cache of `limit`
/// entries: the entry comes first; an older entry of that key is replaced;
/// without one, a full cache loses its last entry.
pub open spec fn after_put<K, V>(entries: Seq<(K, V)>, limit: nat, key: K, value: V) -> Seq<(K, V)> {
    match position_of(entries, key) {
        Some(i) => seq![(key, value)] + entries.remove(i),
        None => if entries.len() == limit {
            seq![(key, value)] + entries.drop_last()
        } else {
            seq![(key, value)] + entries
        },
    }
}

/// No two entries have the same key.
pub open spec fn keys_distinct<K, V>(entries: Seq<(K, V)>) -> bool {
    forall|i: int, j: int|
        0 <= i < entries.len() && 0 <= j < entries.len() && i != j ==> entries[i].0
            != entries[j].0
}

/// The value of the first entry with key `key`, if there is one.
pub open spec fn value_of<K, V>(entries: Seq<(K, V)>, key: K) -> Option<V> {
    match position_of(entries, key) {
        Some(i) => Some(entries[i].1),
        None => None,
    }
}

/// The entries without the first one of key `key`.
pub open spec fn without<K, V>(entries: Seq<(K, V)>, key: K) -> Seq<(K, V)> {
    match position_of(entries, key) {
        Some(i) => entries.remove(i),
        None => entries,
    }
}

/// `position_of` finds the first entry of the key, and finds one where there
/// is one.
pub proof fn position_of_found<K, V>(entries: Seq<(K, V)>, key: K)
    ensures
        match position_of(entries, key) {
            Some(i) => 0 <= i < entries.len() && entries[i].0 == key && forall|j: int|
                0 <= j < i ==> entries[j].0 != key,
            None => forall|j: int| 0 <= j < entries.len() ==> entries[j].0 != key,
        },
    decreases entries.len(),
{
    if entries.len() > 0 && entries[0].0 != key {
        let rest = entries.drop_first();
        position_of_found(rest, key);
        match position_of(rest, key) {
            Some(i) => {
                assert(rest[i] == entries[i + 1]);
                assert forall|j: int| 0 <= j < i + 1 implies entries[j].0 != key by {
                    if j > 0 {
                        assert(rest[j - 1] == entries[j]);
                    }
                }
            },
            None => {
                assert forall|j: int| 0 <= j < entries.len() implies entries[j].0 != key by {
                    if j > 0 {
                        assert(rest[j - 1] == entries[j]);
                    }
                }
            },
        }
    }
}

/// Among distinct keys, the entry at `i` is the one `position_of` finds for
/// its key.
pub proof fn position_of_at<K, V>(entries: Seq<(K, V)>, i: int)
    requires
        keys_distinct(entries),
        0 <= i < entries.len(),
    ensures
        position_of(entries, entries[i].0) == Some(i),
{
    position_of_found(entries, entries[i].0);
}

/// Taking an entry out of distinct keys leaves distinct keys, without the key
/// that was taken out.
pub proof fn without_distinct<K, V>(entries: Seq<(K, V)>, key: K)
    requires
        keys_distinct(entries),
    ensures
        keys_distinct(without(entries, key)),
        position_of(without(entries, key), key).is_none(),
        without(entries, key).len() <= entries.len(),
        position_of(entries, key).is_some() ==> without(entries, key).len() + 1 == entries.len(),
        forall|other: K|
            other != key ==> value_of(without(entries, key), other) == value_of(entries, other),
{
    position_of_found(entries, key);
    let rest = without(entries, key);
    position_of_found(rest, key);
    assert forall|other: K| other != key implies value_of(rest, other) == value_of(
        entries,
        other,
    ) by {
        position_of_found(entries, other);
        position_of_found(rest, other);
        match position_of(entries, key) {
            Some(i) => {
                match position_of(entries, other) {
                    Some(j) => {
                        let k = if j < i {
                            j
                        } else {
                            j - 1
                        };
                        assert(rest[k] == entries[j]);
                    },
                    None => {
                        if let Some(k) = position_of(rest, other) {
                            let j = if k < i {
                                k
                            } else {
                                k + 1
                            };
                            assert(rest[k] == entries[j]);
                        }
                    },
                }
            },
            None => {},
        }
    }
}

/// Putting a key into distinct keys leaves distinct keys, within the limit,
/// with the new value first.
pub proof fn after_put_distinct<K, V>(entries: Seq<(K, V)>, limit: nat, key: K, value: V)
    requires
        keys_distinct(entries),
        entries.len() <= limit,
        limit > 0,
    ensures
        keys_distinct(after_put(entries, limit, key, value)),
        after_put(entries, limit, key, value).len() <= limit,
        after_put(entries, limit, key, value).len() > 0,
        after_put(entries, limit, key, value)[0] == (key, value),
        position_of(after_put(entries, limit, key, value), key) == Some(0int),
        value_of(after_put(entries, limit, key, value), key) == Some(value),
        after_put(without(entries, key), limit, key, value) == after_put(entries, limit, key, value),
{
    position_of_found(entries, key);
    without_distinct(entries, key);
    let next = after_put(entries, limit, key, value);
    let tail = match position_of(entries, key) {
        Some(i) => entries.remove(i),
        None => if entries.len() == limit {
            entries.drop_last()
        } else {
            entries
        },
    };
    assert(next == seq![(key, value)] + tail);
    assert forall|i: int, j: int| 0 <= i < next.len() && 0 <= j < next.len() && i != j implies next[i].0
        != next[j].0 by {
        if i > 0 {
            assert(next[i] == tail[i - 1]);
        }
        if j > 0 {
            assert(next[j] == tail[j - 1]);
        }
    }
}

/// What a put keeps: every other key of a cache that is not full, and every
/// other key but the last of a full one.
pub proof fn after_put_keeps<K, V>(
    entries: Seq<(K, V)>,
    limit: nat,
    key: K,
    value: V,
    other: K,
)
    requires
        keys_distinct(entries),
        entries.len() <= limit,
        limit > 0,
        other != key,
    ensures
        value_of(after_put(entries, limit, key, value), other) == if position_of(entries, key).is_none()
            && entries.len() == limit && entries.last().0 == other {
            None
        } else {
            value_of(entries, other)
        },
{
    position_of_found(entries, key);
    position_of_found(entries, other);
    let next = after_put(entries, limit, key, value);
    position_of_found(next, other);
    after_put_distinct(entries, limit, key, value);
    match position_of(entries, other) {
        Some(j) => {
            match position_of(entries, key) {
                Some(i) => {
                    let k = if j < i {
                        j + 1
                    } else {
                        j
                    };
                    assert(next[k] == entries[j]);
                },
                None => {
                    if entries.len() == limit {
                        if j < entries.len() - 1 {
                            assert(next[j + 1] == entries[j]);
                        } else {
                            if let Some(k) = position_of(next, other) {
                                assert(k > 0);
                                assert(next[k] == entries[k - 1]);
                            }
                        }
                    } else {
                        assert(next[j + 1] == entries[j]);
                    }
                },
            }
        },
        None => {
            if let Some(k) = position_of(next, other) {
                assert(k > 0);
                match position_of(entries, key) {
                    Some(i) => {
                        let j = if k - 1 < i {
                            k - 1
                        } else {
                            k
                        };
                        assert(next[k] == entries[j]);
                    },
                    None => {
                        assert(next[k] == entries[k - 1]);
                    },
                }
            }
        },
    }
}

/// The entries after the entry of `key` was used: it comes first, the others
/// keep their order. Without such an entry nothing changes.
pub open spec fn after_use<K, V>(entries: Seq<(K, V)>, key: K) -> Seq<(K, V)> {
    match position_of(entries, key) {
        Some(i) => seq![entries[i]] + entries.remove(i),
        None => entries,
    }
}

/// Using a key among distinct keys leaves distinct keys and every value
/// where it was.
pub proof fn after_use_distinct<K, V>(entries: Seq<(K, V)>, key: K)
    requires
        keys_distinct(entries),
    ensures
        keys_distinct(after_use(entries, key)),
        after_use(entries, key).len() == entries.len(),
        forall|other: K| value_of(after_use(entries, key), other) == value_of(entries, other),
        after_use(after_use(entries, key), key) == after_use(entries, key),
{
    position_of_found(entries, key);
    let next = after_use(entries, key);
    match position_of(entries, key) {
        Some(i) => {
            let tail = entries.remove(i);
            assert forall|a: int, b: int| 0 <= a < next.len() && 0 <= b < next.len() && a
                != b implies next[a].0 != next[b].0 by {
                let ja = if a == 0 {
                    i
                } else if a - 1 < i {
                    a - 1
                } else {
                    a
                };
                let jb = if b == 0 {
                    i
                } else if b - 1 < i {
                    b - 1
                } else {
                    b
                };
                assert(next[a] == entries[ja]);
                assert(next[b] == entries[jb]);
            }
            assert forall|other: K| value_of(next, other) == value_of(entries, other) by {
                position_of_found(entries, other);
                position_of_found(next, other);
                match position_of(next, other) {
                    Some(k) => {
                        let j = if k == 0 {
                            i
                        } else if k - 1 < i {
                            k - 1
                        } else {
                            k
                        };
                        assert(next[k] == entries[j]);
                        position_of_at(entries, j);
                    },
                    None => {
                        if let Some(j) = position_of(entries, other) {
                            let k = if j == i {
                                0
                            } else if j < i {
                                j + 1
                            } else {
                                j
                            };
                            assert(next[k] == entries[j]);
                        }
                    },
                }
            }
            position_of_found(next, key);
            assert(next[0] == entries[i]);
            assert(position_of(next, key) == Some(0int));
            assert(next.remove(0) =~= tail);
            assert(after_use(next, key) =~= next);
        },
        None => {},
    }
}

/// What holds of every entry and of the entry that is put holds of every
/// entry after the put.
pub proof fn after_put_all<K, V>(
    entries: Seq<(K, V)>,
    limit: nat,
    key: K,
    value: V,
    holds: spec_fn((K, V)) -> bool,
)
    requires
        limit > 0,
        forall|i: int| 0 <= i < entries.len() ==> holds(#[trigger] entries[i]),
        holds((key, value)),
    ensures
        forall|i: int|
            0 <= i < after_put(entries, limit, key, value).len() ==> holds(
                #[trigger] after_put(entries, limit, key, value)[i],
            ),
{
    position_of_found(entries, key);
    let next = after_put(entries, limit, key, value);
    assert forall|i: int| 0 <= i < next.len() implies holds(#[trigger] next[i]) by {
        if i > 0 {
            match position_of(entries, key) {
                Some(p) => {
                    let j = if i - 1 < p {
                        i - 1
                    } else {
                        i
                    };
                    assert(next[i] == entries.remove(p)[i - 1]);
                    assert(next[i] == entries[j]);
                },
                None => {
                    if entries.len() == limit {
                        assert(next[i] == entries.drop_last()[i - 1]);
                    }
                    assert(next[i] == entries[i - 1]);
                },
            }
        } else {
            assert(next[0] == (key, value));
        }
    }
}

/// A second put of the same key only sets the value: the order stays.
pub proof fn after_put_twice<K, V>(entries: Seq<(K, V)>, limit: nat, key: K, first: V, second: V)
    requires
        keys_distinct(entries),
        entries.len() <= limit,
        limit > 0,
    ensures
        after_put(after_put(entries, limit, key, first), limit, key, second) == after_put(
            entries,
            limit,
            key,
            second,
        ),
{
    position_of_found(entries, key);
    after_put_distinct(entries, limit, key, first);
    let once = after_put(entries, limit, key, first);
    assert(position_of(once, key) == Some(0int));
    assert(after_put(once, limit, key, second) =~= after_put(entries, limit, key, second));
}

} // verus!
