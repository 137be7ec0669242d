use std::collections::HashMap;
use vstd::prelude::*;
use vstd::std_specs::iter::IteratorSpec;

verus! {

broadcast use vstd::std_specs::hash::group_hash_axioms, vstd::seq_lib::group_to_multiset_ensures;

/// The sum of the elements of `s`, as a mathematical integer.
pub open spec fn seq_sum(s: Seq<i32>) -> int
    decreases s.len(),
{
    if s.len() == 0 {
        0
    } else {
        seq_sum(s.drop_last()) + s.last()
    }
}

/// What `seq_sum` adds up: nothing for the empty sequence, and one more
/// element adds exactly that element, so every element counts, repeated
/// values included; the sum of two sequences joined is the sum of their sums.
pub proof fn lemma_seq_sum_adds_every_element(s: Seq<i32>, x: i32, t: Seq<i32>)
    ensures
        seq_sum(Seq::<i32>::empty()) == 0,
        seq_sum(s.push(x)) == seq_sum(s) + x,
        seq_sum(seq![x]) == x,
        seq_sum(s + t) == seq_sum(s) + seq_sum(t),
    decreases t.len(),
{
    assert(s.push(x).drop_last() =~= s);
    assert(seq![x].drop_last() =~= Seq::<i32>::empty());
    if t.len() == 0 {
        assert(s + t =~= s);
    } else {
        lemma_seq_sum_adds_every_element(s, x, t.drop_last());
        assert((s + t).drop_last() =~= s + t.drop_last());
    }
}

/// Every running total of `s`, from the left, fits in an `i32`.
pub open spec fn running_sums_fit(s: Seq<i32>) -> bool {
    forall|k: int| 0 <= k <= s.len() ==> i32::MIN <= #[trigger] seq_sum(s.take(k)) <= i32::MAX
}

/// How often `x` occurs in `s`.
pub open spec fn occurrences(s: Seq<i32>, x: i32) -> nat {
    s.to_multiset().count(x)
}

/// How occurrences are counted: none in the empty sequence, and one more
/// element adds one occurrence of itself and none of anything else.
pub proof fn lemma_occurrences_count(s: Seq<i32>, x: i32, y: i32)
    ensures
        occurrences(Seq::<i32>::empty(), y) == 0,
        occurrences(s.push(x), y) == occurrences(s, y) + if x == y {
            1nat
        } else {
            0nat
        },
        occurrences(s, y) > 0 <==> s.contains(y),
{
    broadcast use vstd::multiset::group_multiset_axioms;

    assert(Seq::<i32>::empty().to_multiset() =~= vstd::multiset::Multiset::empty());
}

/// The mean of `list` as a fraction: the sum of its elements over its length.
/// The elements are added up from the left in an `i32`.
pub fn mean(list: &Vec<i32>) -> (fraction: (i32, usize))
    requires
        running_sums_fit(list@),
    ensures
        fraction.0 == seq_sum(list@),
        fraction.1 == list.len(),
{
    let len = list.len();
    let mut sum: i32 = 0;
    for i in 0..len
        invariant
            len == list.len(),
            running_sums_fit(list@),
            sum == seq_sum(list@.take(i as int)),
    {
        assert(list@.take(i + 1).drop_last() =~= list@.take(i as int));
        assert(i32::MIN <= seq_sum(list@.take(i + 1)) <= i32::MAX);
        sum = sum + list[i];
    }
    assert(list@.take(len as int) =~= list@);
    (sum, len)
}

/// The median of `list` as a fraction: for an odd length the middle element
/// over one, for an even length the sum of the two middle elements over two.
/// The list is taken as given (the median of a sorted list is meant).
pub fn median(list: &Vec<i32>) -> (fraction: (i32, i32))
    requires
        list.len() > 0,
        list.len() % 2 == 0 ==> i32::MIN <= list@[list.len() as int / 2 - 1] + list@[list.len() as int / 2] <= i32::MAX,
    ensures
        list.len() % 2 == 0 ==> fraction.0 == list@[list.len() as int / 2 - 1] + list@[list.len() as int / 2] && fraction.1 == 2,
        list.len() % 2 == 1 ==> fraction.0 == list@[list.len() as int / 2] && fraction.1 == 1,
{
    let len = list.len();
    if len % 2 == 0 {
        (list[len / 2 - 1] + list[len / 2], 2)
    } else {
        (list[len / 2], 1)
    }
}

/// The most frequent value of `list` (0 for an empty list). Occurrences are
/// counted in a hash map; among values that occur equally often, the one met
/// last while walking the map wins, so which of them is returned depends on
/// the map's order.
pub fn mode(list: &Vec<i32>) -> (m: i32)
    requires
        forall|x: i32| occurrences(list@, x) <= u8::MAX,
    ensures
        list.len() == 0 ==> m == 0,
        list.len() > 0 ==> list@.contains(m),
        forall|x: i32| occurrences(list@, x) <= occurrences(list@, m),
{
    let mut map: HashMap<i32, u8> = HashMap::new();
    let len = list.len();
    for i in 0..len
        invariant
            len == list.len(),
            forall|x: i32| occurrences(list@, x) <= u8::MAX,
            forall|x: i32| #[trigger] map@.contains_key(x) <==> occurrences(list@.take(i as int), x) > 0,
            forall|x: i32| #[trigger] map@.contains_key(x) ==> map@[x] == occurrences(list@.take(i as int), x),
    {
        let num = list[i];
        let ghost prefix = list@.take(i as int);
        assert(list@.take(i + 1) =~= prefix.push(num));
        proof {
            // the prefix occurs inside the whole list, so its counts stay bounded
            assert(list@ =~= list@.take(i + 1) + list@.skip(i + 1));
            vstd::seq_lib::lemma_multiset_commutative(list@.take(i + 1), list@.skip(i + 1));
            assert(occurrences(list@.take(i + 1), num) <= occurrences(list@, num));
        }
        match map.get(&num) {
            Some(count) => {
                let c = *count;
                map.insert(num, c + 1);
            },
            None => {
                map.insert(num, 1);
            },
        }
    }
    assert(list@.take(len as int) =~= list@);
    let mut mode: i32 = 0;
    let mut max_count: u8 = 0;
    for entry in it: map.iter()
        invariant
            forall|x: i32| #[trigger] map@.contains_key(x) <==> occurrences(list@, x) > 0,
            forall|x: i32| #[trigger] map@.contains_key(x) ==> map@[x] == occurrences(list@, x),
            it.seq() == vstd::std_specs::hash::spec_hash_map_iter(&map).remaining(),
            it.index() == 0 ==> mode == 0 && max_count == 0,
            it.index() > 0 ==> map@.contains_key(mode) && map@[mode] == max_count,
            forall|k: int| 0 <= k < it.index() ==> *(#[trigger] it.seq()[k]).1 <= max_count,
    {
        let (num, count) = entry;
        if *count >= max_count {
            mode = *num;
            max_count = *count;
        }
    }
    proof {
        let v = vstd::std_specs::hash::spec_hash_map_iter(&map).remaining();
        assert forall|x: i32| occurrences(list@, x) <= occurrences(list@, mode) by {
            if map@.contains_key(x) {
                assert(v.contains((&x, &map@[x])));
                let k = choose|k: int| 0 <= k < v.len() && v[k] == (&x, &map@[x]);
                assert(*v[k].1 <= max_count);
            }
        }
        if len > 0 {
            assert(occurrences(list@, list@[0]) > 0);
            assert(map@.contains_key(list@[0]));
            assert(v.len() > 0);
            assert(occurrences(list@, mode) > 0);
        }
    }
    mode
}

} // verus!
