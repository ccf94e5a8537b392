//! Searching a sequence of keys: the position of a key, and what holds of it.

use vstd::prelude::*;

verus! {

/// The least index at which `key` stands in `keys`, or the length of `keys`
/// where it stands nowhere.
pub open spec fn position<K>(keys: Seq<K>, key: K) -> int
    decreases keys.len(),
{
    if keys.len() == 0 {
        0
    } else if keys[0] == key {
        0
    } else {
        1 + position(keys.drop_first(), key)
    }
}

/// True when no key occurs twice.
pub open spec fn distinct<K>(keys: Seq<K>) -> bool {
    forall|i: int, j: int| 0 <= i < j < keys.len() ==> keys[i] != keys[j]
}

/// `position` lies within the sequence or just behind it; no earlier
/// element is the key; and where it lies within, the key stands there.
pub proof fn lemma_position<K>(keys: Seq<K>, key: K)
    ensures
        0 <= position(keys, key) <= keys.len(),
        forall|j: int| 0 <= j < position(keys, key) ==> keys[j] != key,
        position(keys, key) < keys.len() ==> keys[position(keys, key)] == key,
    decreases keys.len(),
{
    if keys.len() > 0 && keys[0] != key {
        let rest = keys.drop_first();
        lemma_position(rest, key);
        assert forall|j: int| 0 <= j < position(keys, key) implies keys[j] != key by {
            if j > 0 {
                assert(rest[j - 1] == keys[j]);
            }
        }
    }
}

/// An index with no key before it, and with the key at it unless it is the
/// length, is the position.
pub proof fn lemma_position_is<K>(keys: Seq<K>, key: K, i: int)
    requires
        0 <= i <= keys.len(),
        forall|j: int| 0 <= j < i ==> keys[j] != key,
        i < keys.len() ==> keys[i] == key,
    ensures
        position(keys, key) == i,
{
    lemma_position(keys, key);
    let p = position(keys, key);
    if p < i {
        assert(keys[p] == key);
    } else if i < p {
        assert(keys[i] == key);
    }
}

/// The position of a key after another key was added at the end.
pub proof fn lemma_position_push<K>(keys: Seq<K>, added: K, key: K)
    ensures
        position(keys.push(added), key) == if position(keys, key) < keys.len() {
            position(keys, key)
        } else if added == key {
            keys.len() as int
        } else {
            keys.len() as int + 1
        },
{
    lemma_position(keys, key);
    let p = position(keys, key);
    let after = keys.push(added);
    if p < keys.len() {
        lemma_position_is(after, key, p);
    } else if added == key {
        lemma_position_is(after, key, keys.len() as int);
    } else {
        lemma_position_is(after, key, keys.len() as int + 1);
    }
}

/// Among distinct keys, the key that is removed is found no more, and
/// every other key is found one place earlier if it stood behind it.
pub proof fn lemma_position_remove<K>(keys: Seq<K>, i: int, key: K)
    requires
        distinct(keys),
        0 <= i < keys.len(),
    ensures
        distinct(keys.remove(i)),
        position(keys.remove(i), key) == if position(keys, key) < i {
            position(keys, key)
        } else if position(keys, key) == i {
            keys.len() - 1
        } else {
            position(keys, key) - 1
        },
{
    lemma_position(keys, key);
    let p = position(keys, key);
    let after = keys.remove(i);
    assert forall|a: int, b: int| 0 <= a < b < after.len() implies after[a] != after[b] by {
        let x = if a < i {
            a
        } else {
            a + 1
        };
        let y = if b < i {
            b
        } else {
            b + 1
        };
        assert(keys[x] != keys[y]);
    }
    if p < i {
        lemma_position_is(after, key, p);
    } else if p == i {
        assert forall|j: int| 0 <= j < after.len() implies after[j] != key by {
            let x = if j < i {
                j
            } else {
                j + 1
            };
            assert(keys[x] != keys[i]);
        }
        lemma_position_is(after, key, keys.len() - 1);
    } else {
        assert forall|j: int| 0 <= j < p - 1 implies after[j] != key by {
            let x = if j < i {
                j
            } else {
                j + 1
            };
            assert(keys[x] != key);
        }
        lemma_position_is(after, key, p - 1);
    }
}

} // verus!
