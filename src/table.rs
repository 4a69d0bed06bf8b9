//! Small keyed tables kept as vectors of pairs, where the latest entry for
//! a key is the one that counts and an update replaces it in place.
use vstd::prelude::*;

verus! {

/// The value that the last entry for `key` holds, if any.
pub open spec fn table_lookup<V>(t: Seq<(u64, V)>, key: u64) -> Option<V>
    decreases t.len(),
{
    if t.len() == 0 {
        None
    } else if t.last().0 == key {
        Some(t.last().1)
    } else {
        table_lookup(t.drop_last(), key)
    }
}

/// The value under `key`, found by searching from the latest entry back.
pub fn table_get<V: Copy>(t: &Vec<(u64, V)>, key: u64) -> (r: Option<V>)
    ensures
        r == table_lookup(t@, key),
{
    let mut n: usize = t.len();
    assert(t@.take(n as int) =~= t@);
    while n > 0
        invariant
            n <= t@.len(),
            table_lookup(t@, key) == table_lookup(t@.take(n as int), key),
        decreases n,
    {
        assert(t@.take(n as int).drop_last() =~= t@.take(n - 1));
        assert(t@.take(n as int).last() == t@[n - 1]);
        if t[n - 1].0 == key {
            return Some(t[n - 1].1);
        }
        n -= 1;
    }
    None
}

/// Sets the value under `key`: an earlier entry for it is dropped, and the
/// new one goes last. Other keys keep their values.
pub fn table_upsert<V: Copy>(t: &mut Vec<(u64, V)>, key: u64, value: V)
    ensures
        table_lookup(final(t)@, key) == Some(value),
        forall|k: u64| k != key ==> #[trigger] table_lookup(final(t)@, k) == table_lookup(old(t)@, k),
        final(t)@.len() <= old(t)@.len() + 1,
{
    let mut kept: Vec<(u64, V)> = Vec::new();
    let mut i: usize = 0;
    while i < t.len()
        invariant
            i <= t@.len(),
            t@ == old(t)@,
            kept@.len() <= i,
            forall|k: u64|
                k != key ==> #[trigger] table_lookup(kept@, k) == table_lookup(t@.take(i as int), k),
        decreases t@.len() - i,
    {
        let entry = t[i];
        let ghost before = kept@;
        let ghost longer = t@.take(i + 1);
        assert(longer.drop_last() =~= t@.take(i as int));
        assert(longer.last() == entry);
        if entry.0 != key {
            kept.push(entry);
            assert(kept@.drop_last() =~= before);
        }
        assert forall|k: u64| k != key implies #[trigger] table_lookup(kept@, k) == table_lookup(
            longer,
            k,
        ) by {
            assert(table_lookup(before, k) == table_lookup(t@.take(i as int), k));
            if entry.0 != key {
                assert(kept@.last() == entry);
            }
        }
        i += 1;
    }
    assert(t@.take(t@.len() as int) =~= t@);
    let ghost before = kept@;
    kept.push((key, value));
    assert(kept@.drop_last() =~= before);
    assert(kept@.last() == (key, value));
    assert forall|k: u64| k != key implies #[trigger] table_lookup(kept@, k) == table_lookup(
        old(t)@,
        k,
    ) by {
        assert(table_lookup(before, k) == table_lookup(t@.take(t@.len() as int), k));
    }
    *t = kept;
}

} // verus!
