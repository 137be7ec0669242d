use vstd::prelude::*;
use vstd::multiset::Multiset;

verus! {

broadcast use vstd::seq_lib::group_to_multiset_ensures, vstd::seq_lib::lemma_multiset_commutative;

/// `s` is in non-decreasing order.
pub open spec fn sorted(s: Seq<i32>) -> bool {
    forall|i: int, j: int| 0 <= i <= j < s.len() ==> s[i] <= s[j]
}

/// A sequence is sorted exactly when each element is at most the next one,
/// and then every element is at most every later one.
pub proof fn lemma_sorted_iff_neighbours_ordered(s: Seq<i32>)
    ensures
        sorted(s) <==> forall|k: int| 0 <= k < s.len() - 1 ==> s[k] <= #[trigger] s[k + 1],
        sorted(s) ==> forall|i: int, j: int| 0 <= i <= j < s.len() ==> s[i] <= s[j],
{
    if forall|k: int| 0 <= k < s.len() - 1 ==> s[k] <= #[trigger] s[k + 1] {
        assert forall|i: int, j: int| 0 <= i <= j < s.len() implies s[i] <= s[j] by {
            lemma_neighbours_ordered_span(s, i, j);
        }
    }
}

proof fn lemma_neighbours_ordered_span(s: Seq<i32>, i: int, j: int)
    requires
        0 <= i <= j < s.len(),
        forall|k: int| 0 <= k < s.len() - 1 ==> s[k] <= #[trigger] s[k + 1],
    ensures
        s[i] <= s[j],
    decreases j - i,
{
    if i < j {
        lemma_neighbours_ordered_span(s, i, j - 1);
        assert(s[j - 1] <= s[(j - 1) + 1]);
    }
}

/// Every element of `s` is at least `lo`.
pub open spec fn all_at_least(s: Seq<i32>, lo: i32) -> bool {
    forall|i: int| 0 <= i < s.len() ==> lo <= s[i]
}

/// The result of merging `a` and `b` by repeatedly taking the smaller
/// front element; on a tie the front of `b` is taken first.
pub open spec fn merged(a: Seq<i32>, b: Seq<i32>) -> Seq<i32>
    decreases a.len() + b.len(),
{
    if a.len() == 0 {
        b
    } else if b.len() == 0 {
        a
    } else if a[0] < b[0] {
        seq![a[0]] + merged(a.drop_first(), b)
    } else {
        seq![b[0]] + merged(a, b.drop_first())
    }
}

/// How a merge proceeds from the fronts of its inputs: with one input empty
/// the result is the other; otherwise it starts with the smaller front, the
/// front of the second input when the two are equal, followed by the merge of
/// what is left. The result is as long as both inputs together.
pub proof fn lemma_merge_steps(a: Seq<i32>, b: Seq<i32>)
    ensures
        a.len() == 0 ==> merged(a, b) == b,
        b.len() == 0 ==> merged(a, b) == a,
        a.len() > 0 && b.len() > 0 && a[0] < b[0] ==> merged(a, b)[0] == a[0] && merged(a, b).drop_first()
            == merged(a.drop_first(), b),
        a.len() > 0 && b.len() > 0 && b[0] <= a[0] ==> merged(a, b)[0] == b[0] && merged(a, b).drop_first()
            == merged(a, b.drop_first()),
        merged(a, b).len() == a.len() + b.len(),
    decreases a.len() + b.len(),
{
    if a.len() > 0 && b.len() > 0 {
        if a[0] < b[0] {
            lemma_merge_steps(a.drop_first(), b);
            assert((seq![a[0]] + merged(a.drop_first(), b)).drop_first() =~= merged(a.drop_first(), b));
        } else {
            lemma_merge_steps(a, b.drop_first());
            assert((seq![b[0]] + merged(a, b.drop_first())).drop_first() =~= merged(a, b.drop_first()));
        }
    }
}

/// Merging keeps every element of both inputs, each as often as it occurs.
pub proof fn lemma_merged_multiset(a: Seq<i32>, b: Seq<i32>)
    ensures
        merged(a, b).to_multiset() == a.to_multiset().add(b.to_multiset()),
    decreases a.len() + b.len(),
{
    if a.len() == 0 {
        assert(a.to_multiset() =~= Multiset::empty());
        assert(a.to_multiset().add(b.to_multiset()) =~= b.to_multiset());
    } else if b.len() == 0 {
        assert(b.to_multiset() =~= Multiset::empty());
        assert(a.to_multiset().add(b.to_multiset()) =~= a.to_multiset());
    } else if a[0] < b[0] {
        lemma_merged_multiset(a.drop_first(), b);
        assert(a =~= seq![a[0]] + a.drop_first());
        assert(merged(a, b).to_multiset() =~= seq![a[0]].to_multiset().add(
            merged(a.drop_first(), b).to_multiset(),
        ));
        assert(a.to_multiset() =~= seq![a[0]].to_multiset().add(a.drop_first().to_multiset()));
    } else {
        lemma_merged_multiset(a, b.drop_first());
        assert(b =~= seq![b[0]] + b.drop_first());
        assert(merged(a, b).to_multiset() =~= seq![b[0]].to_multiset().add(
            merged(a, b.drop_first()).to_multiset(),
        ));
        assert(b.to_multiset() =~= seq![b[0]].to_multiset().add(b.drop_first().to_multiset()));
    }
}

/// A lower bound of both inputs is a lower bound of their merge.
pub proof fn lemma_merged_bounded(a: Seq<i32>, b: Seq<i32>, lo: i32)
    requires
        all_at_least(a, lo),
        all_at_least(b, lo),
    ensures
        all_at_least(merged(a, b), lo),
        merged(a, b).len() == a.len() + b.len(),
    decreases a.len() + b.len(),
{
    if a.len() == 0 || b.len() == 0 {
    } else if a[0] < b[0] {
        lemma_merged_bounded(a.drop_first(), b, lo);
    } else {
        lemma_merged_bounded(a, b.drop_first(), lo);
    }
}

/// Merging two sorted sequences gives a sorted sequence.
pub proof fn lemma_merged_sorted(a: Seq<i32>, b: Seq<i32>)
    requires
        sorted(a),
        sorted(b),
    ensures
        sorted(merged(a, b)),
    decreases a.len() + b.len(),
{
    if a.len() == 0 || b.len() == 0 {
    } else if a[0] < b[0] {
        lemma_merged_sorted(a.drop_first(), b);
        lemma_merged_bounded(a.drop_first(), b, a[0]);
        let rest = merged(a.drop_first(), b);
        assert forall|i: int, j: int| 0 <= i <= j < merged(a, b).len() implies merged(a, b)[i]
            <= merged(a, b)[j] by {
            if i > 0 {
                assert(merged(a, b)[i] == rest[i - 1]);
            }
            if j > 0 {
                assert(merged(a, b)[j] == rest[j - 1]);
            }
        }
    } else {
        lemma_merged_sorted(a, b.drop_first());
        lemma_merged_bounded(a, b.drop_first(), b[0]);
        let rest = merged(a, b.drop_first());
        assert forall|i: int, j: int| 0 <= i <= j < merged(a, b).len() implies merged(a, b)[i]
            <= merged(a, b)[j] by {
            if i > 0 {
                assert(merged(a, b)[i] == rest[i - 1]);
            }
            if j > 0 {
                assert(merged(a, b)[j] == rest[j - 1]);
            }
        }
    }
}

/// Merges two lists: the front elements are compared and the smaller one is
/// taken (on a tie, the one from `list_b`); once either list runs out the rest
/// of the other follows unchanged. When both inputs are sorted, so is the output.
pub fn merge(list_a: Vec<i32>, list_b: Vec<i32>) -> (list_out: Vec<i32>)
    ensures
        list_out@ == merged(list_a@, list_b@),
        list_out@.to_multiset() == list_a@.to_multiset().add(list_b@.to_multiset()),
        sorted(list_a@) && sorted(list_b@) ==> sorted(list_out@),
{
    let mut list_out: Vec<i32> = Vec::new();
    let mut i: usize = 0;
    let mut j: usize = 0;
    assert(list_a@.skip(0) =~= list_a@);
    assert(list_b@.skip(0) =~= list_b@);
    while i < list_a.len() || j < list_b.len()
        invariant
            i <= list_a.len(),
            j <= list_b.len(),
            list_out@ + merged(list_a@.skip(i as int), list_b@.skip(j as int)) == merged(
                list_a@,
                list_b@,
            ),
        decreases list_a.len() + list_b.len() - i - j,
    {
        let ghost sa = list_a@.skip(i as int);
        let ghost sb = list_b@.skip(j as int);
        if i == list_a.len() {
            assert(sb =~= seq![list_b[j as int]] + list_b@.skip(j + 1));
            assert(sa.len() == 0);
            assert(merged(sa, list_b@.skip(j + 1)) == list_b@.skip(j + 1));
            list_out.push(list_b[j]);
            j = j + 1;
            assert(list_out@ + merged(list_a@.skip(i as int), list_b@.skip(j as int)) =~= merged(
                list_a@,
                list_b@,
            ));
        } else if j == list_b.len() {
            assert(sa =~= seq![list_a[i as int]] + list_a@.skip(i + 1));
            assert(sb.len() == 0);
            assert(merged(list_a@.skip(i + 1), sb) == list_a@.skip(i + 1));
            list_out.push(list_a[i]);
            i = i + 1;
            assert(list_out@ + merged(list_a@.skip(i as int), list_b@.skip(j as int)) =~= merged(
                list_a@,
                list_b@,
            ));
        } else if list_a[i] < list_b[j] {
            assert(sa.drop_first() =~= list_a@.skip(i + 1));
            list_out.push(list_a[i]);
            i = i + 1;
            assert(list_out@ + merged(list_a@.skip(i as int), list_b@.skip(j as int)) =~= merged(
                list_a@,
                list_b@,
            ));
        } else {
            assert(sb.drop_first() =~= list_b@.skip(j + 1));
            list_out.push(list_b[j]);
            j = j + 1;
            assert(list_out@ + merged(list_a@.skip(i as int), list_b@.skip(j as int)) =~= merged(
                list_a@,
                list_b@,
            ));
        }
    }
    assert(list_a@.skip(i as int).len() == 0);
    assert(list_out@ =~= merged(list_a@, list_b@));
    proof {
        lemma_merged_multiset(list_a@, list_b@);
        if sorted(list_a@) && sorted(list_b@) {
            lemma_merged_sorted(list_a@, list_b@);
        }
    }
    list_out
}


/// Splits `v` into its front part and its back part; the back part holds the
/// last `len / 2` elements, the front part the others, both in their order.
pub fn slpit_vector(v: Vec<i32>) -> (parts: (Vec<i32>, Vec<i32>))
    ensures
        parts.0@ == v@.take(v.len() - v.len() / 2),
        parts.1@ == v@.skip(v.len() - v.len() / 2),
{
    let mut v = v;
    let len = v.len() / 2;
    let at = v.len() - len;
    let v_latter = v.split_off(at);
    let v_first = v;
    (v_first, v_latter)
}

/// Sorts `list` in non-decreasing order by merge sort. Lists of one and of two
/// elements are handled directly; longer ones are split with `slpit_vector`,
/// both parts sorted, and the results merged.
pub fn merge_sort(list: Vec<i32>) -> (sorted_list: Vec<i32>)
    requires
        list.len() > 0,
    ensures
        sorted(sorted_list@),
        sorted_list@.to_multiset() == list@.to_multiset(),
    decreases list.len(),
{
    let len = list.len();
    if len == 2 {
        if list[0] <= list[1] {
            return list;
        } else {
            let mut reversed: Vec<i32> = Vec::new();
            reversed.push(list[1]);
            reversed.push(list[0]);
            proof {
                assert(list@ =~= seq![list@[0]].push(list@[1]));
                assert(reversed@ =~= seq![list@[1]].push(list@[0]));
                assert(seq![list@[0]] =~= Seq::<i32>::empty().push(list@[0]));
                assert(seq![list@[1]] =~= Seq::<i32>::empty().push(list@[1]));
                assert(reversed@.to_multiset() =~= list@.to_multiset());
            }
            return reversed;
        }
    } else if len == 1 {
        return list;
    }
    let ghost whole = list@;
    let (list_a, list_b) = slpit_vector(list);
    proof {
        assert(whole =~= list_a@ + list_b@);
    }
    let sorted_a = merge_sort(list_a);
    let sorted_b = merge_sort(list_b);
    merge(sorted_a, sorted_b)
}


/// A list has exactly one sorted arrangement: two sorted sequences with the
/// same elements, counted with multiplicity, are equal. So `merge_sort`
/// returns the same list for all inputs that hold the same elements.
pub proof fn lemma_sorted_arrangement_unique(x: Seq<i32>, y: Seq<i32>)
    requires
        sorted(x),
        sorted(y),
        x.to_multiset() == y.to_multiset(),
    ensures
        x == y,
{
    let leq = |a: i32, b: i32| a <= b;
    assert(vstd::relations::sorted_by(x, leq));
    assert(vstd::relations::sorted_by(y, leq));
    assert(vstd::relations::total_ordering(leq));
    vstd::seq_lib::lemma_sorted_unique(x, y, leq);
}

} // verus!
