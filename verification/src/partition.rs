//! Splitting the members of a channel into random groups.

use rand::Rng;
use vstd::prelude::*;
use vstd::multiset::Multiset;

verus! {

broadcast use vstd::seq_lib::group_to_multiset_ensures;

/// Whether `picks` can drive a draw from a pool of `n` items: the `i`-th pick
/// chooses among the `n - i` items left.
pub open spec fn valid_picks(picks: Seq<usize>, n: nat) -> bool {
    &&& picks.len() == n
    &&& forall|i: int| 0 <= i < picks.len() ==> #[trigger] picks[i] < n - i
}

/// The order in which items come out of `pool` when each pick takes the item
/// at that position among those left.
pub open spec fn drawn(pool: Seq<String>, picks: Seq<usize>) -> Seq<String>
    decreases picks.len(),
{
    if picks.len() == 0 || pool.len() <= picks[0] {
        Seq::empty()
    } else {
        seq![pool[picks[0] as int]] + drawn(pool.remove(picks[0] as int), picks.drop_first())
    }
}

/// Consecutive groups of `size`; the items left over join the last group, and
/// fewer than `size` items form one group.
pub open spec fn grouped(items: Seq<String>, size: nat) -> Seq<Seq<String>>
    decreases items.len(),
{
    if size == 0 || items.len() == 0 {
        Seq::empty()
    } else if items.len() < 2 * size {
        seq![items]
    } else {
        seq![items.take(size as int)] + grouped(items.skip(size as int), size)
    }
}

/// The contents of each group.
pub open spec fn group_views(groups: Seq<Vec<String>>) -> Seq<Seq<String>> {
    groups.map_values(|g: Vec<String>| g@)
}

/// Draws a position below `bound` from the thread-local generator of `rand`
/// (`Rng::gen_range`, which panics on an empty range). The contract claims
/// only the range of the result.
#[verifier::external_body]
fn random_below(bound: usize) -> (r: usize)
    requires
        bound > 0,
    ensures
        r < bound,
{
    rand::thread_rng().gen_range(0..bound)
}

/// Puts the items in the order that `picks` draws them.
pub fn shuffle_with(items: Vec<String>, picks: &Vec<usize>) -> (r: Vec<String>)
    requires
        valid_picks(picks@, items@.len()),
    ensures
        r@ == drawn(items@, picks@),
        r@.to_multiset() == items@.to_multiset(),
{
    let n = items.len();
    let mut pool = items;
    let mut out: Vec<String> = Vec::new();
    let mut i: usize = 0;
    assert(picks@.skip(0) =~= picks@);
    assert(out@ + pool@ =~= pool@);
    while i < n
        invariant
            n == picks@.len(),
            valid_picks(picks@, n as nat),
            i <= n,
            pool@.len() == n - i,
            out@ + drawn(pool@, picks@.skip(i as int)) == drawn(items@, picks@),
            out@.to_multiset().add(pool@.to_multiset()) == items@.to_multiset(),
        decreases n - i,
    {
        let k = picks[i];
        assert(k < n - i);
        let ghost before_pool = pool@;
        let ghost before_out = out@;
        let ghost rest = picks@.skip(i as int);
        assert(rest[0] == k);
        assert(rest.drop_first() =~= picks@.skip(i + 1));
        let item = pool.remove(k);
        out.push(item);
        proof {
            assert(out@ + drawn(pool@, picks@.skip(i + 1)) =~= before_out + drawn(before_pool, rest));
            assert(before_pool.to_multiset().count(item) > 0);
            assert(out@.to_multiset().add(pool@.to_multiset()) =~= before_out.to_multiset().add(
                before_pool.to_multiset(),
            ));
        }
        i = i + 1;
    }
    proof {
        assert(picks@.skip(n as int).len() == 0);
        assert(out@ + Seq::<String>::empty() =~= out@);
        assert(pool@.len() == 0);
        assert(pool@.to_multiset() =~= Multiset::empty());
        assert(out@.to_multiset().add(Multiset::empty()) =~= out@.to_multiset());
    }
    out
}

/// Splits the items into consecutive groups of `size`, the leftovers joining
/// the last group.
pub fn group_by_size(items: Vec<String>, size: usize) -> (r: Vec<Vec<String>>)
    requires
        size > 0,
    ensures
        group_views(r@) == grouped(items@, size as nat),
{
    let mut rest = items;
    let mut groups: Vec<Vec<String>> = Vec::new();
    assert(group_views(groups@) + grouped(rest@, size as nat) =~= grouped(items@, size as nat));
    while rest.len() >= size && rest.len() - size >= size
        invariant
            size > 0,
            group_views(groups@) + grouped(rest@, size as nat) == grouped(items@, size as nat),
        decreases rest.len(),
    {
        let ghost before_rest = rest@;
        let ghost before_groups = group_views(groups@);
        let tail = rest.split_off(size);
        assert(rest@ =~= before_rest.take(size as int));
        assert(tail@ =~= before_rest.skip(size as int));
        groups.push(rest);
        rest = tail;
        assert(group_views(groups@) =~= before_groups.push(before_rest.take(size as int)));
        assert(group_views(groups@) + grouped(rest@, size as nat) =~= before_groups + grouped(
            before_rest,
            size as nat,
        ));
    }
    if rest.len() > 0 {
        let ghost before_rest = rest@;
        let ghost before_groups = group_views(groups@);
        groups.push(rest);
        assert(group_views(groups@) =~= before_groups.push(before_rest));
        assert(group_views(groups@) =~= before_groups + grouped(before_rest, size as nat));
    } else {
        assert(group_views(groups@) =~= group_views(groups@) + grouped(rest@, size as nat));
    }
    groups
}

/// The groups hold every item exactly once, in the original order.
pub proof fn lemma_groups_cover(items: Seq<String>, size: nat)
    requires
        size > 0,
    ensures
        grouped(items, size).flatten() == items,
    decreases items.len(),
{
    let g = grouped(items, size);
    if items.len() == 0 {
    } else if items.len() < 2 * size {
        assert(g.drop_first() =~= Seq::<Seq<String>>::empty());
        assert(g.drop_first().flatten() =~= Seq::<String>::empty());
        assert(g.first() == items);
        assert(g.flatten() =~= items + Seq::<String>::empty());
    } else {
        lemma_groups_cover(items.skip(size as int), size);
        assert(g.drop_first() =~= grouped(items.skip(size as int), size));
        assert(items.take(size as int) + items.skip(size as int) =~= items);
    }
}

/// With at least `size` items, every group holds at least `size` and fewer
/// than twice `size` items; with fewer, all of them form a single group.
pub proof fn lemma_group_sizes(items: Seq<String>, size: nat)
    requires
        size > 0,
    ensures
        items.len() >= size ==> forall|i: int|
            0 <= i < grouped(items, size).len() ==> size <= #[trigger] grouped(items, size)[i].len() < 2
                * size,
        0 < items.len() < size ==> grouped(items, size) == seq![items],
    decreases items.len(),
{
    if items.len() >= 2 * size {
        lemma_group_sizes(items.skip(size as int), size);
        let g = grouped(items, size);
        assert forall|i: int| 0 <= i < g.len() implies size <= #[trigger] g[i].len() < 2 * size by {
            if i > 0 {
                assert(g[i] == grouped(items.skip(size as int), size)[i - 1]);
            }
        }
    }
}

/// Copies a list of strings.
pub(crate) fn copy_strings(items: &Vec<String>) -> (r: Vec<String>)
    ensures
        r@ == items@,
{
    let mut out: Vec<String> = Vec::new();
    let n = items.len();
    let mut i: usize = 0;
    while i < n
        invariant
            n == items@.len(),
            i <= n,
            out@ =~= items@.take(i as int),
        decreases n - i,
    {
        out.push(items[i].clone());
        i = i + 1;
    }
    assert(items@.take(n as int) =~= items@);
    out
}

/// Shuffles the members at random and splits them into groups of `size`; the
/// members are left in their shuffled order.
pub fn random_partition(users: &mut Vec<String>, size: usize) -> (r: Vec<Vec<String>>)
    requires
        size > 0,
    ensures
        final(users)@.to_multiset() == old(users)@.to_multiset(),
        group_views(r@) == grouped(final(users)@, size as nat),
        group_views(r@).flatten().to_multiset() == old(users)@.to_multiset(),
        old(users)@.len() >= size ==> forall|i: int|
            0 <= i < r@.len() ==> size <= #[trigger] r@[i]@.len() < 2 * size,
        exists|p: Seq<usize>| valid_picks(p, old(users)@.len()) && final(users)@ == drawn(old(users)@, p),
{
    let n = users.len();
    let mut picks: Vec<usize> = Vec::new();
    let mut i: usize = 0;
    while i < n
        invariant
            i <= n,
            picks@.len() == i,
            forall|j: int| 0 <= j < i ==> #[trigger] picks@[j] < n - j,
        decreases n - i,
    {
        let k = random_below(n - i);
        picks.push(k);
        i = i + 1;
    }
    let pool = copy_strings(users);
    let shuffled = shuffle_with(pool, &picks);
    assert(valid_picks(picks@, old(users)@.len()));
    let copy = copy_strings(&shuffled);
    *users = shuffled;
    let groups = group_by_size(copy, size);
    proof {
        lemma_groups_cover(users@, size as nat);
        lemma_group_sizes(users@, size as nat);
        assert(users@.to_multiset().len() == old(users)@.to_multiset().len());
        assert(users@.len() == old(users)@.len());
        if old(users)@.len() >= size {
            assert forall|i: int| 0 <= i < groups@.len() implies size <= #[trigger] groups@[i]@.len() < 2
                * size by {
                assert(group_views(groups@)[i] == groups@[i]@);
                assert(grouped(users@, size as nat)[i] == groups@[i]@);
            }
        }
    }
    groups
}

} // verus!
