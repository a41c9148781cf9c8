//! Lists of pairs that stand for maps from text to values.
//!
//! A list stands for the map that gives each key the value of its first
//! pair. The operations keep at most one pair per key where they found at
//! most one.

use vstd::prelude::*;

verus! {

/// The value that `pairs` gives to `key`: that of the first pair with this
/// key.
pub open spec fn value_of<V>(pairs: Seq<(String, V)>, key: Seq<char>) -> Option<V>
    decreases pairs.len(),
{
    if pairs.len() == 0 {
        None
    } else if pairs[0].0@ == key {
        Some(pairs[0].1)
    } else {
        value_of(pairs.drop_first(), key)
    }
}

/// The map that `pairs` stands for.
pub open spec fn map_of<V>(pairs: Seq<(String, V)>) -> Map<Seq<char>, V> {
    Map::new(
        |key: Seq<char>| value_of(pairs, key) is Some,
        |key: Seq<char>| value_of(pairs, key)->Some_0,
    )
}

/// The position of the first pair with the key `key`.
pub fn position_of<V>(pairs: &Vec<(String, V)>, key: &str) -> (found: Option<usize>)
    ensures
        match found {
            Some(at) => at < pairs@.len() && pairs@[at as int].0@ == key@ && value_of(pairs@, key@)
                == Some(pairs@[at as int].1) && forall|k: int|
                0 <= k < at ==> pairs@[k].0@ != key@,
            None => value_of(pairs@, key@) is None && forall|k: int|
                0 <= k < pairs@.len() ==> pairs@[k].0@ != key@,
        },
{
    let probe = key.to_owned();
    let mut i: usize = 0;
    assert(pairs@.skip(0) =~= pairs@);
    while i < pairs.len()
        invariant
            i <= pairs@.len(),
            probe@ == key@,
            value_of(pairs@.skip(i as int), key@) == value_of(pairs@, key@),
            forall|k: int| 0 <= k < i ==> pairs@[k].0@ != key@,
        decreases pairs@.len() - i,
    {
        let ghost rest = pairs@.skip(i as int);
        assert(rest[0] == pairs@[i as int]);
        assert(rest.drop_first() =~= pairs@.skip(i + 1));
        if pairs[i].0 == probe {
            return Some(i);
        }
        i += 1;
    }
    assert(pairs@.skip(i as int).len() == 0);
    None
}

proof fn lemma_value_of_update<V>(pairs: Seq<(String, V)>, at: int, pair: (String, V), key: Seq<char>)
    requires
        0 <= at < pairs.len(),
        pair.0@ == pairs[at].0@,
        forall|k: int| 0 <= k < at ==> pairs[k].0@ != pair.0@,
    ensures
        value_of(pairs.update(at, pair), key) == (if key == pair.0@ {
            Some(pair.1)
        } else {
            value_of(pairs, key)
        }),
    decreases pairs.len(),
{
    let after = pairs.update(at, pair);
    if at == 0 {
        assert(after[0] == pair);
        assert(after.drop_first() =~= pairs.drop_first());
    } else {
        assert(after[0] == pairs[0]);
        assert(after.drop_first() =~= pairs.drop_first().update(at - 1, pair));
        assert forall|k: int| 0 <= k < at - 1 implies pairs.drop_first()[k].0@ != pair.0@ by {
            assert(pairs.drop_first()[k] == pairs[k + 1]);
        }
        lemma_value_of_update(pairs.drop_first(), at - 1, pair, key);
    }
}

proof fn lemma_value_of_push<V>(pairs: Seq<(String, V)>, pair: (String, V), key: Seq<char>)
    requires
        forall|k: int| 0 <= k < pairs.len() ==> pairs[k].0@ != pair.0@,
    ensures
        value_of(pairs.push(pair), key) == (if key == pair.0@ {
            Some(pair.1)
        } else {
            value_of(pairs, key)
        }),
    decreases pairs.len(),
{
    let after = pairs.push(pair);
    reveal_with_fuel(value_of, 2);
    if pairs.len() == 0 {
        assert(after[0] == pair);
        assert(after.drop_first() =~= Seq::<(String, V)>::empty());
    } else {
        assert(after[0] == pairs[0]);
        assert(after.drop_first() =~= pairs.drop_first().push(pair));
        assert forall|k: int| 0 <= k < pairs.drop_first().len() implies pairs.drop_first()[k].0@
            != pair.0@ by {
            assert(pairs.drop_first()[k] == pairs[k + 1]);
        }
        lemma_value_of_push(pairs.drop_first(), pair, key);
    }
}

/// Gives `key` the value `value` in `pairs`: in the place of the first pair
/// with this key, or at the end where there is none.
pub fn set_value<V>(pairs: &mut Vec<(String, V)>, key: &str, value: V)
    ensures
        map_of(final(pairs)@) == map_of(old(pairs)@).insert(key@, value),
        final(pairs)@.len() == old(pairs)@.len() + (if map_of(old(pairs)@).contains_key(key@) {
            0int
        } else {
            1int
        }),
{
    let ghost before = pairs@;
    let pair = (key.to_owned(), value);
    match position_of(pairs, key) {
        Some(at) => {
            proof {
                assert forall|k: Seq<char>|
                    value_of(before.update(at as int, pair), k) == (if k == key@ {
                        Some(value)
                    } else {
                        value_of(before, k)
                    }) by {
                    lemma_value_of_update(before, at as int, pair, k);
                }
            }
            pairs.set(at, pair);
        },
        None => {
            proof {
                assert forall|k: Seq<char>|
                    value_of(before.push(pair), k) == (if k == key@ {
                        Some(value)
                    } else {
                        value_of(before, k)
                    }) by {
                    lemma_value_of_push(before, pair, k);
                }
            }
            pairs.push(pair);
        },
    }
    assert(map_of(pairs@) =~= map_of(before).insert(key@, value));
}

/// The texts that a list of pairs gives to its keys.
pub open spec fn text_map(pairs: Seq<(String, String)>) -> Map<Seq<char>, Seq<char>> {
    map_of(pairs).map_values(|s: String| s@)
}

/// `base` with the first `upto` of `pairs` laid over it, in order.
pub open spec fn overlaid(
    base: Map<Seq<char>, Seq<char>>,
    pairs: Seq<(String, String)>,
    upto: int,
) -> Map<Seq<char>, Seq<char>>
    decreases upto,
{
    if upto <= 0 {
        base
    } else {
        overlaid(base, pairs, upto - 1).insert(pairs[upto - 1].0@, pairs[upto - 1].1@)
    }
}

proof fn lemma_text_map_insert(pairs: Seq<(String, String)>, after: Seq<(String, String)>, key: Seq<char>, value: String)
    requires
        map_of(after) == map_of(pairs).insert(key, value),
    ensures
        text_map(after) == text_map(pairs).insert(key, value@),
{
    assert(text_map(after) =~= text_map(pairs).insert(key, value@));
}

/// Gives `key` the text `value` in `pairs`.
pub fn put_text(pairs: &mut Vec<(String, String)>, key: &str, value: String)
    ensures
        text_map(final(pairs)@) == text_map(old(pairs)@).insert(key@, value@),
{
    let ghost before = pairs@;
    set_value(pairs, key, value);
    proof {
        lemma_text_map_insert(before, pairs@, key@, value);
    }
}

} // verus!
