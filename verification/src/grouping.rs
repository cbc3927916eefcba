//! Grouping the rows of a join by the entity they belong to, and dropping
//! repeated values, each in the order of first appearance.

use vstd::prelude::*;

verus! {

/// A row of a join that belongs to the entity identified by its key.
pub trait GroupedRow: Sized {
    /// The identifier of the entity that the row belongs to.
    spec fn group_key(&self) -> i32;

    fn key(&self) -> (k: i32)
        ensures
            k == self.group_key(),
    ;

    /// A copy of the row.
    fn duplicate(&self) -> (copy: Self)
        ensures
            copy == *self,
    ;
}

/// The keys of `rows`, each once, in the order of their first row.
pub open spec fn group_keys<R: GroupedRow>(rows: Seq<R>) -> Seq<i32>
    decreases rows.len(),
{
    if rows.len() == 0 {
        Seq::empty()
    } else {
        let earlier = group_keys(rows.drop_last());
        let key = rows.last().group_key();
        if earlier.contains(key) {
            earlier
        } else {
            earlier.push(key)
        }
    }
}

/// The rows of `rows` whose key is `key`, in order.
pub open spec fn rows_with_key<R: GroupedRow>(rows: Seq<R>, key: i32) -> Seq<R>
    decreases rows.len(),
{
    if rows.len() == 0 {
        Seq::empty()
    } else {
        let earlier = rows_with_key(rows.drop_last(), key);
        if rows.last().group_key() == key {
            earlier.push(rows.last())
        } else {
            earlier
        }
    }
}

/// The values of `s`, each once, in the order of their first occurrence.
pub open spec fn distinct_values<T>(s: Seq<T>) -> Seq<T>
    decreases s.len(),
{
    if s.len() == 0 {
        Seq::empty()
    } else {
        let earlier = distinct_values(s.drop_last());
        if earlier.contains(s.last()) {
            earlier
        } else {
            earlier.push(s.last())
        }
    }
}

proof fn lemma_rows_with_key_match<R: GroupedRow>(rows: Seq<R>, key: i32)
    ensures
        forall|i: int| 0 <= i < rows_with_key(rows, key).len()
            ==> (#[trigger] rows_with_key(rows, key)[i]).group_key() == key,
    decreases rows.len(),
{
    if rows.len() > 0 {
        let earlier = rows_with_key(rows.drop_last(), key);
        lemma_rows_with_key_match(rows.drop_last(), key);
        if rows.last().group_key() == key {
            assert forall|i: int| 0 <= i < rows_with_key(rows, key).len()
                implies (#[trigger] rows_with_key(rows, key)[i]).group_key() == key by {
                if i < earlier.len() {
                    assert(rows_with_key(rows, key)[i] == earlier[i]);
                }
            }
        }
    }
}

proof fn lemma_listed_key_has_rows<R: GroupedRow>(rows: Seq<R>, key: i32)
    requires
        group_keys(rows).contains(key),
    ensures
        rows_with_key(rows, key).len() > 0,
    decreases rows.len(),
{
    broadcast use vstd::seq_lib::group_seq_properties;
    let earlier = rows.drop_last();
    if group_keys(earlier).contains(key) {
        lemma_listed_key_has_rows(earlier, key);
    } else {
        assert(rows.last().group_key() == key);
    }
}

/// `group_keys` holds the key of every row, no other, and none twice.
pub proof fn law_group_keys<R: GroupedRow>(rows: Seq<R>)
    ensures
        forall|i: int, j: int| 0 <= i < j < group_keys(rows).len() ==> group_keys(rows)[i] != group_keys(rows)[j],
        forall|key: i32| group_keys(rows).contains(key)
            <==> exists|k: int| 0 <= k < rows.len() && (#[trigger] rows[k]).group_key() == key,
    decreases rows.len(),
{
    broadcast use vstd::seq_lib::group_seq_properties;
    if rows.len() > 0 {
        let earlier = rows.drop_last();
        law_group_keys(earlier);
        assert forall|key: i32| group_keys(rows).contains(key)
            <==> exists|k: int| 0 <= k < rows.len() && (#[trigger] rows[k]).group_key() == key by {
            if group_keys(rows).contains(key) {
                if group_keys(earlier).contains(key) {
                    let k = choose|k: int| 0 <= k < earlier.len() && (#[trigger] earlier[k]).group_key() == key;
                    assert(rows[k] == earlier[k]);
                } else {
                    assert(rows[rows.len() - 1].group_key() == key);
                }
            }
            if exists|k: int| 0 <= k < rows.len() && (#[trigger] rows[k]).group_key() == key {
                let k = choose|k: int| 0 <= k < rows.len() && (#[trigger] rows[k]).group_key() == key;
                if k < rows.len() - 1 {
                    assert(earlier[k] == rows[k]);
                    assert(group_keys(earlier).contains(key));
                }
            }
        }
    }
}

/// Every row lies in the group of its own key and in no other.
pub proof fn law_rows_with_key<R: GroupedRow>(rows: Seq<R>, key: i32)
    ensures
        forall|r: R| #[trigger] rows_with_key(rows, key).contains(r) <==> rows.contains(r) && r.group_key() == key,
    decreases rows.len(),
{
    broadcast use vstd::seq_lib::group_seq_properties;
    if rows.len() > 0 {
        let earlier = rows.drop_last();
        let last = rows.last();
        law_rows_with_key(earlier, key);
        assert(rows =~= earlier.push(last));
        let group = rows_with_key(earlier, key);
        assert forall|r: R| rows_with_key(rows, key).contains(r) <==> rows.contains(r) && r.group_key() == key by {
            assert(rows.contains(r) <==> earlier.contains(r) || r == last);
            assert(group.contains(r) <==> earlier.contains(r) && r.group_key() == key);
            if last.group_key() == key {
                assert(rows_with_key(rows, key) == group.push(last));
                assert(group.push(last).contains(r) <==> group.contains(r) || r == last);
            } else {
                assert(rows_with_key(rows, key) == group);
            }
        }
    }
}

/// `distinct_values` holds every value of `s`, no other, and none twice.
pub proof fn law_distinct_values<T>(s: Seq<T>)
    ensures
        forall|i: int, j: int|
            0 <= i < j < distinct_values(s).len() ==> distinct_values(s)[i] != distinct_values(s)[j],
        forall|v: T| distinct_values(s).contains(v) <==> s.contains(v),
    decreases s.len(),
{
    broadcast use vstd::seq_lib::group_seq_properties;
    if s.len() > 0 {
        let earlier = s.drop_last();
        law_distinct_values(earlier);
        let d = distinct_values(earlier);
        assert(s =~= earlier.push(s.last()));
        assert forall|v: T| distinct_values(s).contains(v) <==> s.contains(v) by {
            assert(s.contains(v) <==> earlier.contains(v) || v == s.last());
            if !d.contains(s.last()) {
                assert(d.push(s.last()).contains(v) <==> d.contains(v) || v == s.last());
            }
        }
        if !d.contains(s.last()) {
            let e = d.push(s.last());
            assert forall|i: int, j: int| 0 <= i < j < e.len() implies e[i] != e[j] by {
                if j == d.len() {
                    assert(e[i] == d[i]);
                    assert(d.contains(d[i]));
                } else {
                    assert(e[i] == d[i] && e[j] == d[j]);
                }
            }
        }
    }
}

fn holds_key(keys: &Vec<i32>, key: i32) -> (found: bool)
    ensures
        found == keys@.contains(key),
{
    let mut i: usize = 0;
    while i < keys.len()
        invariant
            i <= keys@.len(),
            forall|j: int| 0 <= j < i ==> keys@[j] != key,
        decreases keys@.len() - i,
    {
        if keys[i] == key {
            assert(keys@[i as int] == key);
            return true;
        }
        i = i + 1;
    }
    false
}

/// The rows of `rows` grouped by key: one group per key, in the order of each
/// key's first row, holding that key's rows in order.
pub fn group_rows<R: GroupedRow>(rows: &Vec<R>) -> (groups: Vec<Vec<R>>)
    ensures
        groups@.len() == group_keys(rows@).len(),
        forall|k: int| 0 <= k < groups@.len() ==> (#[trigger] groups@[k])@ == rows_with_key(rows@, group_keys(rows@)[k]),
        forall|k: int| 0 <= k < groups@.len() ==> (#[trigger] groups@[k])@.len() > 0,
{
    let mut keys: Vec<i32> = Vec::new();
    let mut i: usize = 0;
    while i < rows.len()
        invariant
            i <= rows@.len(),
            keys@ == group_keys(rows@.take(i as int)),
        decreases rows@.len() - i,
    {
        let key = rows[i].key();
        assert(rows@.take(i + 1).drop_last() =~= rows@.take(i as int));
        if !holds_key(&keys, key) {
            keys.push(key);
        }
        i = i + 1;
    }
    assert(rows@.take(rows@.len() as int) =~= rows@);
    let mut groups: Vec<Vec<R>> = Vec::new();
    let mut k: usize = 0;
    while k < keys.len()
        invariant
            k <= keys@.len(),
            keys@ == group_keys(rows@),
            groups@.len() == k,
            forall|m: int| 0 <= m < k ==> (#[trigger] groups@[m])@ == rows_with_key(rows@, group_keys(rows@)[m]),
            forall|m: int| 0 <= m < k ==> (#[trigger] groups@[m])@.len() > 0,
        decreases keys@.len() - k,
    {
        let key = keys[k];
        let mut group: Vec<R> = Vec::new();
        let mut j: usize = 0;
        while j < rows.len()
            invariant
                j <= rows@.len(),
                group@ == rows_with_key(rows@.take(j as int), key),
            decreases rows@.len() - j,
        {
            assert(rows@.take(j + 1).drop_last() =~= rows@.take(j as int));
            if rows[j].key() == key {
                group.push(rows[j].duplicate());
            }
            j = j + 1;
        }
        assert(rows@.take(rows@.len() as int) =~= rows@);
        proof {
            assert(keys@.contains(key));
            lemma_listed_key_has_rows(rows@, key);
        }
        groups.push(group);
        k = k + 1;
    }
    groups
}

/// The integers of `values`, each once, in the order of their first occurrence.
pub fn distinct_ints(values: &Vec<i32>) -> (distinct: Vec<i32>)
    ensures
        distinct@ == distinct_values(values@),
{
    let mut distinct: Vec<i32> = Vec::new();
    let mut i: usize = 0;
    while i < values.len()
        invariant
            i <= values@.len(),
            distinct@ == distinct_values(values@.take(i as int)),
        decreases values@.len() - i,
    {
        assert(values@.take(i + 1).drop_last() =~= values@.take(i as int));
        if !holds_key(&distinct, values[i]) {
            distinct.push(values[i]);
        }
        i = i + 1;
    }
    assert(values@.take(values@.len() as int) =~= values@);
    distinct
}

fn holds_pair(pairs: &Vec<(i32, i32)>, pair: (i32, i32)) -> (found: bool)
    ensures
        found == pairs@.contains(pair),
{
    let mut i: usize = 0;
    while i < pairs.len()
        invariant
            i <= pairs@.len(),
            forall|j: int| 0 <= j < i ==> pairs@[j] != pair,
        decreases pairs@.len() - i,
    {
        if pairs[i].0 == pair.0 && pairs[i].1 == pair.1 {
            assert(pairs@[i as int] == pair);
            return true;
        }
        i = i + 1;
    }
    false
}

/// The pairs of `values`, each once, in the order of their first occurrence.
pub fn distinct_pairs(values: &Vec<(i32, i32)>) -> (distinct: Vec<(i32, i32)>)
    ensures
        distinct@ == distinct_values(values@),
{
    let mut distinct: Vec<(i32, i32)> = Vec::new();
    let mut i: usize = 0;
    while i < values.len()
        invariant
            i <= values@.len(),
            distinct@ == distinct_values(values@.take(i as int)),
        decreases values@.len() - i,
    {
        assert(values@.take(i + 1).drop_last() =~= values@.take(i as int));
        if !holds_pair(&distinct, values[i]) {
            distinct.push(values[i]);
        }
        i = i + 1;
    }
    assert(values@.take(values@.len() as int) =~= values@);
    distinct
}

} // verus!
