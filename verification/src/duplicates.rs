//! Duplicate detection in the Recording Inbox: takes whose primary audio has
//! the same content hash are reported together, one group per hash that at
//! least two takes share. Reading and hashing the files is the host's.

use vstd::prelude::*;
use std::collections::HashMap;

verus! {

broadcast use {vstd::string::group_string_axioms, vstd::std_specs::hash::group_hash_axioms};

/// The names of the takes whose content hash is `h`, in order.
pub open spec fn names_with_hash(items: Seq<(u64, Seq<char>)>, h: u64) -> Seq<Seq<char>>
    decreases items.len(),
{
    if items.len() == 0 {
        Seq::empty()
    } else {
        let rest = names_with_hash(items.drop_last(), h);
        if items.last().0 == h { rest.push(items.last().1) } else { rest }
    }
}

/// The distinct hashes of the takes, in order of first appearance.
pub open spec fn hashes_in_order(items: Seq<(u64, Seq<char>)>) -> Seq<u64>
    decreases items.len(),
{
    if items.len() == 0 {
        Seq::empty()
    } else {
        let rest = hashes_in_order(items.drop_last());
        if rest.contains(items.last().0) { rest } else { rest.push(items.last().0) }
    }
}

/// For each hash of `hs` in turn, the takes sharing it, when at least two do.
pub open spec fn groups_for(items: Seq<(u64, Seq<char>)>, hs: Seq<u64>) -> Seq<Seq<Seq<char>>>
    decreases hs.len(),
{
    if hs.len() == 0 {
        Seq::empty()
    } else {
        let rest = groups_for(items, hs.drop_last());
        let g = names_with_hash(items, hs.last());
        if g.len() > 1 { rest.push(g) } else { rest }
    }
}

/// The duplicate groups of the takes, in order of their hash's first
/// appearance.
pub open spec fn duplicate_groups(items: Seq<(u64, Seq<char>)>) -> Seq<Seq<Seq<char>>> {
    groups_for(items, hashes_in_order(items))
}

/// The views of a take list as (hash, name) pairs.
pub open spec fn item_views(items: Seq<(u64, String)>) -> Seq<(u64, Seq<char>)> {
    Seq::new(items.len(), |i: int| (items[i].0, items[i].1@))
}

/// The views of a list of names.
pub open spec fn name_views(names: Seq<String>) -> Seq<Seq<char>> {
    Seq::new(names.len(), |i: int| names[i]@)
}

proof fn lemma_hash_absent(items: Seq<(u64, Seq<char>)>, h: u64)
    requires
        !hashes_in_order(items).contains(h),
    ensures
        names_with_hash(items, h).len() == 0,
    decreases items.len(),
{
    if items.len() > 0 {
        let rest = hashes_in_order(items.drop_last());
        if !rest.contains(items.last().0) {
            assert(hashes_in_order(items) == rest.push(items.last().0));
            assert(hashes_in_order(items).last() == items.last().0);
        }
        assert forall|x: u64| rest.contains(x) implies hashes_in_order(items).contains(x) by {
            let j = choose|j: int| 0 <= j < rest.len() && rest[j] == x;
            assert(hashes_in_order(items)[j] == x);
        }
        lemma_hash_absent(items.drop_last(), h);
    }
}

proof fn lemma_hashes_distinct(items: Seq<(u64, Seq<char>)>)
    ensures
        forall|i: int, j: int| 0 <= i < j < hashes_in_order(items).len() ==> hashes_in_order(items)[i] != hashes_in_order(items)[j],
    decreases items.len(),
{
    if items.len() > 0 {
        lemma_hashes_distinct(items.drop_last());
        let rest = hashes_in_order(items.drop_last());
        let x = items.last().0;
        let r = hashes_in_order(items);
        if !rest.contains(x) {
            assert forall|i: int, j: int| 0 <= i < j < r.len() implies r[i] != r[j] by {
                if j == rest.len() && rest[i] == x {
                    assert(rest.contains(x));
                }
            }
        }
    }
}

/// The buckets seen so far: one per hash in order of first appearance, each
/// with the names of the takes sharing it.
spec fn buckets_match(buckets: Seq<(u64, Vec<String>)>, items: Seq<(u64, Seq<char>)>) -> bool {
    &&& buckets.len() == hashes_in_order(items).len()
    &&& forall|i: int| 0 <= i < buckets.len() ==> #[trigger] buckets[i].0 == hashes_in_order(items)[i]
        && name_views(buckets[i].1@) == names_with_hash(items, hashes_in_order(items)[i])
}

/// Where each hash's bucket stands: the hashes of `index` are exactly
/// those of the buckets, each mapped to its bucket's position.
spec fn index_matches(index: Map<u64, usize>, buckets: Seq<(u64, Vec<String>)>) -> bool {
    &&& forall|h: u64| #[trigger] index.contains_key(h) ==> index[h] < buckets.len() && buckets[index[h] as int].0 == h
    &&& forall|j: int| 0 <= j < buckets.len() ==> #[trigger] index.contains_key(buckets[j].0)
}

/// Groups the takes of the Inbox by the content hash of their primary audio
/// and returns the groups that hold more than one take. The buckets are
/// found through a map from hash to bucket and kept in order of each hash's
/// first appearance, so the groups come out in that order.
pub fn group_duplicates(items: Vec<(u64, String)>) -> (groups: Vec<Vec<String>>)
    ensures
        groups@.len() == duplicate_groups(item_views(items@)).len(),
        forall|i: int| 0 <= i < groups@.len() ==> name_views(#[trigger] groups@[i]@) == duplicate_groups(item_views(items@))[i],
{
    let ghost all = item_views(items@);
    let mut buckets: Vec<(u64, Vec<String>)> = Vec::new();
    let mut index: HashMap<u64, usize> = HashMap::new();
    let mut rest = items;
    let ghost mut k: int = 0;
    let ghost raw = rest@;
    while rest.len() > 0
        invariant
            0 <= k <= all.len(),
            all == item_views(raw),
            rest@ == raw.skip(k),
            buckets_match(buckets@, all.take(k)),
            index_matches(index@, buckets@),
        decreases rest@.len(),
    {
        let (h, name) = rest.remove(0);
        assert(raw[k] == (h, name));
        let ghost prefix = all.take(k);
        let ghost next = all.take(k + 1);
        assert(next.drop_last() =~= prefix);
        assert(next.last() == (h, name@));
        proof { lemma_hashes_distinct(prefix); }
        let found = index.get(&h);
        let i: usize = match found {
            Some(position) => *position,
            None => buckets.len(),
        };
        proof {
            if i == buckets@.len() {
                assert forall|j: int| 0 <= j < buckets@.len() implies buckets@[j].0 != h by {
                    assert(index@.contains_key(buckets@[j].0));
                }
            }
        }
        let ghost before = buckets@;
        if i < buckets.len() {
            assert(hashes_in_order(prefix)[i as int] == h);
            assert(hashes_in_order(prefix).contains(h));
            assert(hashes_in_order(next) == hashes_in_order(prefix));
            buckets[i].1.push(name);
            assert forall|j: int| 0 <= j < buckets@.len() implies #[trigger] buckets@[j].0 == hashes_in_order(next)[j]
                && name_views(buckets@[j].1@) == names_with_hash(next, hashes_in_order(next)[j]) by {
                if j == i {
                    assert(name_views(buckets@[j].1@) =~= name_views(before[j].1@).push(name@));
                } else {
                    assert(buckets@[j] == before[j]);
                    assert(hashes_in_order(prefix)[j] != h);
                }
            }
        } else {
            assert forall|j: int| 0 <= j < hashes_in_order(prefix).len() implies hashes_in_order(prefix)[j] != h by {
                assert(before[j].0 == hashes_in_order(prefix)[j]);
            }
            assert(!hashes_in_order(prefix).contains(h));
            proof { lemma_hash_absent(prefix, h); }
            assert(hashes_in_order(next) == hashes_in_order(prefix).push(h));
            let mut members: Vec<String> = Vec::new();
            members.push(name);
            let position = buckets.len();
            buckets.push((h, members));
            index.insert(h, position);
            assert forall|j: int| 0 <= j < buckets@.len() implies #[trigger] buckets@[j].0 == hashes_in_order(next)[j]
                && name_views(buckets@[j].1@) == names_with_hash(next, hashes_in_order(next)[j]) by {
                if j == before.len() {
                    assert(name_views(buckets@[j].1@) =~= names_with_hash(prefix, h).push(name@));
                } else {
                    assert(buckets@[j] == before[j]);
                    assert(hashes_in_order(prefix)[j] != h);
                }
            }
        }
        proof { k = k + 1; }
    }
    assert(all.take(k) =~= all);
    let mut groups: Vec<Vec<String>> = Vec::new();
    let ghost hs = hashes_in_order(all);
    let mut b = buckets;
    let ghost bs = b@;
    let ghost mut m: int = 0;
    while b.len() > 0
        invariant
            0 <= m <= bs.len(),
            b@ == bs.skip(m),
            buckets_match(bs, all),
            hs == hashes_in_order(all),
            groups@.len() == groups_for(all, hs.take(m)).len(),
            forall|i: int| 0 <= i < groups@.len() ==> name_views(#[trigger] groups@[i]@) == groups_for(all, hs.take(m))[i],
        decreases b@.len(),
    {
        let (h, members) = b.remove(0);
        assert(bs[m] == (h, members));
        assert(hs.take(m + 1).drop_last() =~= hs.take(m));
        assert(hs.take(m + 1).last() == h);
        let ghost before = groups@;
        if members.len() > 1 {
            groups.push(members);
            assert forall|i: int| 0 <= i < groups@.len() implies name_views(#[trigger] groups@[i]@) == groups_for(all, hs.take(m + 1))[i] by {
                if i < before.len() {
                    assert(groups@[i] == before[i]);
                }
            }
        }
        proof { m = m + 1; }
    }
    assert(hs.take(m) =~= hs);
    groups
}

/// What duplicate detection reports: every group holds at least two takes,
/// all with the same content hash, and all takes with a hash that two or more
/// share are reported, in one group per hash.
pub proof fn law_duplicate_groups_are_exactly_shared_hashes(items: Seq<(u64, Seq<char>)>)
    ensures
        forall|i: int| 0 <= i < duplicate_groups(items).len() ==> (#[trigger] duplicate_groups(items)[i]).len() >= 2
            && exists|h: u64| duplicate_groups(items)[i] == names_with_hash(items, h),
        forall|h: u64| names_with_hash(items, h).len() >= 2 ==> duplicate_groups(items).contains(#[trigger] names_with_hash(items, h)),
{
    lemma_groups_for(items, hashes_in_order(items));
    assert forall|h: u64| names_with_hash(items, h).len() >= 2 implies duplicate_groups(items).contains(#[trigger] names_with_hash(items, h)) by {
        if !hashes_in_order(items).contains(h) {
            lemma_hash_absent(items, h);
        }
    }
}

proof fn lemma_groups_for(items: Seq<(u64, Seq<char>)>, hs: Seq<u64>)
    ensures
        forall|i: int| 0 <= i < groups_for(items, hs).len() ==> (#[trigger] groups_for(items, hs)[i]).len() >= 2
            && exists|h: u64| groups_for(items, hs)[i] == names_with_hash(items, h),
        forall|h: u64| hs.contains(h) && names_with_hash(items, h).len() >= 2 ==> groups_for(items, hs).contains(#[trigger] names_with_hash(items, h)),
    decreases hs.len(),
{
    if hs.len() > 0 {
        lemma_groups_for(items, hs.drop_last());
        let rest = groups_for(items, hs.drop_last());
        let g = names_with_hash(items, hs.last());
        let r = groups_for(items, hs);
        assert forall|i: int| 0 <= i < r.len() implies (#[trigger] r[i]).len() >= 2 && exists|h: u64| r[i] == names_with_hash(items, h) by {
            if i < rest.len() {
                assert(r[i] == rest[i]);
            } else {
                assert(r[i] == names_with_hash(items, hs.last()));
            }
        }
        assert forall|h: u64| hs.contains(h) && names_with_hash(items, h).len() >= 2 implies r.contains(#[trigger] names_with_hash(items, h)) by {
            if h == hs.last() {
                assert(r.last() == g);
            } else {
                let j = choose|j: int| 0 <= j < hs.len() && hs[j] == h;
                assert(hs.drop_last()[j] == h);
                let t = choose|t: int| 0 <= t < rest.len() && rest[t] == names_with_hash(items, h);
                assert(r[t] == rest[t]);
            }
        }
    }
}

} // verus!
