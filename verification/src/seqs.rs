//! Small helpers for lists and for maps kept as association lists.
use vstd::prelude::*;

verus! {

/// Copies a list of plain values.
pub fn copy_vec<T: Copy>(src: &Vec<T>) -> (r: Vec<T>)
    ensures
        r@ == src@,
{
    let mut out: Vec<T> = Vec::new();
    let mut i: usize = 0;
    while i < src.len()
        invariant
            i <= src.len(),
            out@ == src@.take(i as int),
        decreases src.len() - i,
    {
        out.push(src[i]);
        i += 1;
    }
    out
}

/// The map that an association list stands for: where a key occurs more
/// than once, its last entry counts.
pub open spec fn table<V>(keys: Seq<Seq<char>>, values: Seq<V>) -> Map<Seq<char>, V>
    recommends
        keys.len() == values.len(),
    decreases keys.len(),
{
    if keys.len() == 0 || values.len() == 0 {
        Map::empty()
    } else {
        table(keys.drop_last(), values.drop_last()).insert(keys.last(), values.last())
    }
}

/// A key is in the table exactly when some entry carries it.
pub proof fn lemma_table_domain<V>(keys: Seq<Seq<char>>, values: Seq<V>, key: Seq<char>)
    requires
        keys.len() == values.len(),
    ensures
        table(keys, values).dom().contains(key) <==> keys.contains(key),
    decreases keys.len(),
{
    if keys.len() > 0 {
        lemma_table_domain(keys.drop_last(), values.drop_last(), key);
        if keys.contains(key) {
            let i = choose|i: int| 0 <= i < keys.len() && keys[i] == key;
            if i < keys.len() - 1 {
                assert(keys.drop_last()[i] == key);
            }
        }
    }
}

/// The entry that counts for a key is its last one.
pub proof fn lemma_table_last_wins<V>(keys: Seq<Seq<char>>, values: Seq<V>, at: int)
    requires
        keys.len() == values.len(),
        0 <= at < keys.len(),
        forall|j: int| at < j < keys.len() ==> keys[j] != keys[at],
    ensures
        table(keys, values).dom().contains(keys[at]),
        table(keys, values)[keys[at]] == values[at],
    decreases keys.len(),
{
    if at < keys.len() - 1 {
        assert forall|j: int| at < j < keys.drop_last().len() implies keys.drop_last()[j]
            != keys.drop_last()[at] by {}
        lemma_table_last_wins(keys.drop_last(), values.drop_last(), at);
    }
}

/// Rewriting the value of a key's last entry rewrites the key in the table
/// and nothing else.
pub proof fn lemma_table_update<V>(keys: Seq<Seq<char>>, values: Seq<V>, at: int, value: V)
    requires
        keys.len() == values.len(),
        0 <= at < keys.len(),
        forall|j: int| at < j < keys.len() ==> keys[j] != keys[at],
    ensures
        table(keys, values.update(at, value)) == table(keys, values).insert(keys[at], value),
    decreases keys.len(),
{
    let updated = values.update(at, value);
    if at == keys.len() - 1 {
        assert(updated.drop_last() == values.drop_last());
    } else {
        assert forall|j: int| at < j < keys.drop_last().len() implies keys.drop_last()[j]
            != keys.drop_last()[at] by {}
        lemma_table_update(keys.drop_last(), values.drop_last(), at, value);
        assert(updated.drop_last() == values.drop_last().update(at, value));
    }
}

/// Appending an entry inserts it into the table.
pub proof fn lemma_table_push<V>(keys: Seq<Seq<char>>, values: Seq<V>, key: Seq<char>, value: V)
    requires
        keys.len() == values.len(),
    ensures
        table(keys.push(key), values.push(value)) == table(keys, values).insert(key, value),
{
    assert(keys.push(key).drop_last() == keys);
    assert(values.push(value).drop_last() == values);
}

/// Filtering one element more of a list either appends that element or
/// changes nothing.
pub proof fn lemma_filter_next<A>(s: Seq<A>, i: int, keep: spec_fn(A) -> bool)
    requires
        0 <= i < s.len(),
    ensures
        s.take(i + 1).filter(keep) == if keep(s[i]) {
            s.take(i).filter(keep).push(s[i])
        } else {
            s.take(i).filter(keep)
        },
{
    reveal(Seq::filter);
    assert(s.take(i + 1).drop_last() == s.take(i));
}

/// The first element of a list that a predicate keeps, if any.
pub open spec fn first_match<A>(s: Seq<A>, keep: spec_fn(A) -> bool) -> Option<A> {
    let kept = s.filter(keep);
    if kept.len() > 0 {
        Some(kept[0])
    } else {
        None
    }
}

/// A list none of whose elements is kept filters to nothing.
pub proof fn lemma_filter_none<A>(s: Seq<A>, keep: spec_fn(A) -> bool)
    requires
        forall|j: int| 0 <= j < s.len() ==> !keep(#[trigger] s[j]),
    ensures
        s.filter(keep) == Seq::<A>::empty(),
        first_match(s, keep) is None,
    decreases s.len(),
{
    reveal(Seq::filter);
    if s.len() > 0 {
        assert forall|j: int| 0 <= j < s.drop_last().len() implies !keep(
            #[trigger] s.drop_last()[j],
        ) by {}
        lemma_filter_none(s.drop_last(), keep);
    }
}

/// The first kept element is the one at the smallest kept index.
pub proof fn lemma_first_match_at<A>(s: Seq<A>, keep: spec_fn(A) -> bool, i: int)
    requires
        0 <= i < s.len(),
        keep(s[i]),
        forall|j: int| 0 <= j < i ==> !keep(#[trigger] s[j]),
    ensures
        first_match(s, keep) == Some(s[i]),
{
    let head = s.take(i);
    let one = seq![s[i]];
    let tail = s.skip(i + 1);
    assert(s =~= head + one + tail);
    assert forall|j: int| 0 <= j < head.len() implies !keep(#[trigger] head[j]) by {}
    lemma_filter_none(head, keep);
    assert(one.filter(keep) =~= one) by {
        reveal_with_fuel(Seq::filter, 2);
    }
    Seq::filter_distributes_over_add(head, one, keep);
    Seq::filter_distributes_over_add(head + one, tail, keep);
}

} // verus!
