//! How much of a text the highlight captures cover, and how many kinds of
//! capture they are.

use vstd::prelude::*;
use vstd::set_lib::*;
use std::collections::HashSet;

verus! {

broadcast use {vstd::seq_lib::group_to_multiset_ensures, vstd::std_specs::hash::group_hash_axioms};

/// A byte range `start..end` of the text, as a highlight capture covers it.
#[derive(Clone, Copy)]
pub struct ByteRange {
    pub start: usize,
    pub end: usize,
}

/// The range `r` contains the byte position `p`.
pub open spec fn covers(r: ByteRange, p: int) -> bool {
    r.start <= p < r.end
}

/// All byte positions that at least one of `ranges` contains.
pub open spec fn covered_positions(ranges: Seq<ByteRange>) -> Set<int> {
    Set::new(|p: int| exists|i: int| 0 <= i < ranges.len() && #[trigger] covers(ranges[i], p))
}

/// `ranges` are ordered by their start.
pub open spec fn sorted_by_start(ranges: Seq<ByteRange>) -> bool {
    forall|i: int, j: int| 0 <= i <= j < ranges.len() ==> ranges[i].start <= ranges[j].start
}

/// Sorts `ranges` by their start (`slice::sort_unstable_by_key`): the result
/// holds the same ranges, each as often as before, ordered by start. The
/// order of ranges with equal starts is left open.
#[verifier::external_body]
fn sort_by_start(ranges: &mut Vec<ByteRange>)
    ensures
        final(ranges)@.to_multiset() == old(ranges)@.to_multiset(),
        sorted_by_start(final(ranges)@),
{
    ranges.sort_unstable_by_key(|r| r.start);
}

/// Coverage does not depend on the order of the ranges: two sequences that
/// hold the same ranges, as often each, cover the same positions.
pub proof fn lemma_covered_positions_permutation(a: Seq<ByteRange>, b: Seq<ByteRange>)
    requires
        a.to_multiset() == b.to_multiset(),
    ensures
        covered_positions(a) == covered_positions(b),
{
    assert forall|p: int| covered_positions(a).contains(p) implies covered_positions(b).contains(p) by {
        let i: int = choose|i: int| 0 <= i < a.len() && #[trigger] covers(a[i], p);
        assert(a.to_multiset().count(a[i]) > 0);
        assert(b.contains(a[i]));
        let j: int = choose|j: int| 0 <= j < b.len() && b[j] == a[i];
        assert(covers(b[j], p));
    }
    assert forall|p: int| covered_positions(b).contains(p) implies covered_positions(a).contains(p) by {
        let j: int = choose|j: int| 0 <= j < b.len() && #[trigger] covers(b[j], p);
        assert(b.to_multiset().count(b[j]) > 0);
        assert(a.contains(b[j]));
        let i: int = choose|i: int| 0 <= i < a.len() && a[i] == b[j];
        assert(covers(a[i], p));
    }
    assert(covered_positions(a) =~= covered_positions(b));
}

/// Adding one more range to a prefix adds exactly the positions it covers.
proof fn lemma_covered_positions_extend(s: Seq<ByteRange>, i: int)
    requires
        0 <= i < s.len(),
    ensures
        covered_positions(s.take(i + 1)) == covered_positions(s.take(i)) + set_int_range(
            s[i].start as int,
            s[i].end as int,
        ),
{
    let lhs = covered_positions(s.take(i + 1));
    let rhs = covered_positions(s.take(i)) + set_int_range(s[i].start as int, s[i].end as int);
    assert forall|p: int| lhs.contains(p) implies rhs.contains(p) by {
        let k: int = choose|k: int| 0 <= k < i + 1 && #[trigger] covers(s.take(i + 1)[k], p);
        if k < i {
            assert(covers(s.take(i)[k], p));
        }
    }
    assert forall|p: int| rhs.contains(p) implies lhs.contains(p) by {
        if covered_positions(s.take(i)).contains(p) {
            let k: int = choose|k: int| 0 <= k < i && #[trigger] covers(s.take(i)[k], p);
            assert(covers(s.take(i + 1)[k], p));
        } else {
            assert(covers(s.take(i + 1)[i], p));
        }
    }
    assert(lhs =~= rhs);
}

/// Counts the bytes that at least one of `ranges` covers, each byte once,
/// however the ranges nest or overlap: the ranges are sorted by start and
/// swept left to right, adding only what lies past the furthest end seen.
pub fn covered_bytes(ranges: Vec<ByteRange>) -> (total: usize)
    ensures
        covered_positions(ranges@).finite(),
        total == covered_positions(ranges@).len(),
{
    let ghost original = ranges@;
    let mut sorted = ranges;
    sort_by_start(&mut sorted);
    proof {
        lemma_covered_positions_permutation(sorted@, original);
    }
    let mut total: usize = 0;
    let mut max_end: usize = 0;
    let mut i: usize = 0;
    proof {
        assert(covered_positions(sorted@.take(0)) =~= Set::<int>::empty());
    }
    while i < sorted.len()
        invariant
            i <= sorted@.len(),
            sorted_by_start(sorted@),
            covered_positions(sorted@.take(i as int)).finite(),
            total == covered_positions(sorted@.take(i as int)).len(),
            total <= max_end,
            i == 0 ==> max_end == 0,
            forall|p: int| #[trigger]
                covered_positions(sorted@.take(i as int)).contains(p) ==> p < max_end,
            i > 0 ==> forall|p: int|
                sorted@[i - 1].start <= p < max_end ==> #[trigger] covered_positions(
                    sorted@.take(i as int),
                ).contains(p),
        decreases sorted@.len() - i,
    {
        let r = sorted[i];
        let ghost before = covered_positions(sorted@.take(i as int));
        let ghost added = set_int_range(r.start as int, r.end as int);
        proof {
            lemma_covered_positions_extend(sorted@, i as int);
        }
        let start: usize = if r.start > max_end {
            r.start
        } else {
            max_end
        };
        if start < r.end {
            proof {
                let fresh = set_int_range(start as int, r.end as int);
                lemma_int_range(start as int, r.end as int);
                assert(before + added =~= before + fresh) by {
                    assert forall|p: int| added.contains(p) && p < start implies before.contains(
                        p,
                    ) by {
                        if i > 0 {
                            assert(sorted@[i - 1].start <= r.start);
                        }
                    }
                }
                assert(before.disjoint(fresh));
                lemma_set_disjoint_lens(before, fresh);
            }
            total = total + (r.end - start);
            max_end = r.end;
        } else {
            proof {
                assert(before + added =~= before) by {
                    assert forall|p: int| added.contains(p) implies before.contains(p) by {
                        if i > 0 {
                            assert(sorted@[i - 1].start <= r.start);
                        }
                    }
                }
            }
        }
        i = i + 1;
    }
    proof {
        assert(sorted@.take(sorted@.len() as int) =~= sorted@);
    }
    total
}

/// Ranges that lie within a text of `n` bytes cover at most `n` bytes.
pub proof fn lemma_coverage_within_text(ranges: Seq<ByteRange>, n: int)
    requires
        0 <= n,
        forall|i: int| 0 <= i < ranges.len() ==> #[trigger] ranges[i].end <= n,
    ensures
        covered_positions(ranges).finite(),
        covered_positions(ranges).len() <= n,
{
    lemma_int_range(0, n);
    assert(covered_positions(ranges).subset_of(set_int_range(0, n)));
    lemma_len_subset(covered_positions(ranges), set_int_range(0, n));
}

/// Counts how many different values `names` holds.
pub fn distinct_count(names: &Vec<u32>) -> (count: usize)
    ensures
        count == names@.to_set().len(),
{
    let mut seen: HashSet<u32> = HashSet::new();
    let mut i: usize = 0;
    proof {
        assert(names@.take(0).to_set() =~= Set::<u32>::empty());
    }
    while i < names.len()
        invariant
            i <= names@.len(),
            seen@ == names@.take(i as int).to_set(),
        decreases names@.len() - i,
    {
        let name: u32 = names[i];
        seen.insert(name);
        proof {
            assert(names@.take(i + 1) =~= names@.take(i as int).push(name));
            names@.take(i as int).lemma_push_to_set_commute(name);
        }
        i = i + 1;
    }
    proof {
        assert(names@.take(names@.len() as int) =~= names@);
    }
    seen.len()
}

} // verus!
