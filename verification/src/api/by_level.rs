//! Putting features in the order of their levels, features of one level in
//! the order in which they came.

use vstd::prelude::*;
use crate::api::api_extensions::{feature_views, Feature, FeatureView};

verus! {

/// `sorted` with `x` put in behind the last feature whose level is not
/// above that of `x`.
pub open spec fn insert_by_level(sorted: Seq<FeatureView>, x: FeatureView) -> Seq<FeatureView>
    decreases sorted.len(),
{
    if sorted.len() == 0 {
        seq![x]
    } else if sorted.last().level <= x.level {
        sorted.push(x)
    } else {
        insert_by_level(sorted.drop_last(), x).push(sorted.last())
    }
}

/// The features of `s` by ascending level, those of one level in the order
/// that they have in `s`.
pub open spec fn sort_by_level(s: Seq<FeatureView>) -> Seq<FeatureView>
    decreases s.len(),
{
    if s.len() == 0 {
        Seq::empty()
    } else {
        insert_by_level(sort_by_level(s.drop_last()), s.last())
    }
}

/// Whether the levels of `s` never fall from one feature to the next.
pub open spec fn ascending(s: Seq<FeatureView>) -> bool {
    forall|i: int, j: int| 0 <= i <= j < s.len() ==> s[i].level <= s[j].level
}

/// The features of `s` that have the level `level`, in their order.
pub open spec fn of_level(s: Seq<FeatureView>, level: int) -> Seq<FeatureView> {
    s.filter(|f: FeatureView| f.level == level)
}

/// Where `x` goes: behind position `j - 1` when everything from `j` on has a
/// higher level and the feature before `j`, if any, has not.
pub proof fn lemma_insert_position(s: Seq<FeatureView>, x: FeatureView, j: int)
    requires
        0 <= j <= s.len(),
        forall|k: int| j <= k < s.len() ==> s[k].level > x.level,
        j > 0 ==> s[j - 1].level <= x.level,
    ensures
        insert_by_level(s, x) == s.insert(j, x),
    decreases s.len(),
{
    if s.len() == 0 {
        assert(seq![x] =~= s.insert(j, x));
    } else if j == s.len() {
        assert(s.push(x) =~= s.insert(j, x));
    } else {
        lemma_insert_position(s.drop_last(), x, j);
        assert(s.drop_last().insert(j, x).push(s.last()) =~= s.insert(j, x));
    }
}

/// Putting a feature into an ascending list leaves it ascending.
pub proof fn lemma_insert_ascending(sorted: Seq<FeatureView>, x: FeatureView)
    requires
        ascending(sorted),
    ensures
        ascending(insert_by_level(sorted, x)),
        insert_by_level(sorted, x).len() == sorted.len() + 1,
        forall|i: int|
            0 <= i < insert_by_level(sorted, x).len() ==> (#[trigger] insert_by_level(sorted, x)[i])
                == x || sorted.contains(insert_by_level(sorted, x)[i]),
    decreases sorted.len(),
{
    if sorted.len() > 0 && sorted.last().level > x.level {
        let shorter = sorted.drop_last();
        assert forall|i: int, j: int| 0 <= i <= j < shorter.len() implies shorter[i].level
            <= shorter[j].level by {
            assert(shorter[i] == sorted[i] && shorter[j] == sorted[j]);
        }
        lemma_insert_ascending(shorter, x);
        let inner = insert_by_level(shorter, x);
        let out = inner.push(sorted.last());
        assert forall|i: int| 0 <= i < out.len() implies (#[trigger] out[i]) == x
            || sorted.contains(out[i]) by {
            if i < inner.len() {
                if inner[i] != x {
                    let k = choose|k: int| 0 <= k < shorter.len() && shorter[k] == inner[i];
                    assert(sorted[k] == inner[i]);
                }
            } else {
                assert(sorted[sorted.len() - 1] == out[i]);
            }
        }
        assert forall|i: int, j: int| 0 <= i <= j < out.len() implies out[i].level
            <= out[j].level by {
            if j == inner.len() && i < j {
                if inner[i] != x {
                    let k = choose|k: int| 0 <= k < shorter.len() && shorter[k] == inner[i];
                    assert(sorted[k].level <= sorted[sorted.len() - 1].level);
                }
            }
        }
    } else if sorted.len() > 0 {
        let out = sorted.push(x);
        assert forall|i: int| 0 <= i < out.len() implies (#[trigger] out[i]) == x
            || sorted.contains(out[i]) by {
            if i < sorted.len() {
                assert(sorted[i] == out[i]);
            }
        }
        assert forall|i: int, j: int| 0 <= i <= j < out.len() implies out[i].level
            <= out[j].level by {
            if i < sorted.len() {
                assert(sorted[i].level <= sorted[sorted.len() - 1].level);
            }
        }
    }
}

/// The sorted list is ascending, and as long as the list it was made from.
pub proof fn lemma_sort_ascending(s: Seq<FeatureView>)
    ensures
        ascending(sort_by_level(s)),
        sort_by_level(s).len() == s.len(),
    decreases s.len(),
{
    if s.len() > 0 {
        lemma_sort_ascending(s.drop_last());
        lemma_insert_ascending(sort_by_level(s.drop_last()), s.last());
    }
}

/// Sorting makes no feature up: every feature of the sorted list is one of
/// the list it was made from.
pub proof fn lemma_sort_members(s: Seq<FeatureView>)
    ensures
        forall|i: int|
            0 <= i < sort_by_level(s).len() ==> s.contains(#[trigger] sort_by_level(s)[i]),
    decreases s.len(),
{
    if s.len() > 0 {
        let shorter = s.drop_last();
        lemma_sort_members(shorter);
        lemma_sort_ascending(shorter);
        lemma_insert_ascending(sort_by_level(shorter), s.last());
        let sorted = sort_by_level(s);
        assert forall|i: int| 0 <= i < sorted.len() implies s.contains(#[trigger] sorted[i]) by {
            if sorted[i] == s.last() {
                assert(s[s.len() - 1] == sorted[i]);
            } else {
                let inner = sort_by_level(shorter);
                let k = choose|k: int| 0 <= k < inner.len() && inner[k] == sorted[i];
                let j = choose|j: int| 0 <= j < shorter.len() && shorter[j] == inner[k];
                assert(s[j] == sorted[i]);
            }
        }
    }
}

/// Putting a feature in adds it behind the features of its own level and
/// leaves the features of every other level as they were.
pub proof fn lemma_insert_of_level(sorted: Seq<FeatureView>, x: FeatureView, level: int)
    ensures
        of_level(insert_by_level(sorted, x), level) == if x.level == level {
            of_level(sorted, level).push(x)
        } else {
            of_level(sorted, level)
        },
    decreases sorted.len(),
{
    let same = |f: FeatureView| f.level == level;
    if sorted.len() == 0 {
        assert(seq![x] =~= sorted.push(x));
        sorted.lemma_filter_push(x, same);
    } else if sorted.last().level <= x.level {
        sorted.lemma_filter_push(x, same);
    } else {
        let shorter = sorted.drop_last();
        lemma_insert_of_level(shorter, x, level);
        insert_by_level(shorter, x).lemma_filter_push(sorted.last(), same);
        shorter.lemma_filter_push(sorted.last(), same);
        assert(shorter.push(sorted.last()) =~= sorted);
    }
}

/// Sorting keeps the features of every level, in the order in which they
/// came: it moves no feature past another of the same level, loses none and
/// makes none up.
pub proof fn lemma_sort_stable(s: Seq<FeatureView>, level: int)
    ensures
        of_level(sort_by_level(s), level) == of_level(s, level),
    decreases s.len(),
{
    let same = |f: FeatureView| f.level == level;
    if s.len() == 0 {
    } else {
        lemma_sort_stable(s.drop_last(), level);
        lemma_insert_of_level(sort_by_level(s.drop_last()), s.last(), level);
        s.drop_last().lemma_filter_push(s.last(), same);
        assert(s.drop_last().push(s.last()) =~= s);
    }
}

/// The features by ascending level, those of one level in the order in
/// which they came.
pub fn sort_features(features: Vec<Feature>) -> (sorted: Vec<Feature>)
    ensures
        feature_views(sorted@) == sort_by_level(feature_views(features@)),
        ascending(feature_views(sorted@)),
        sorted.len() == features.len(),
{
    proof {
        lemma_sort_ascending(feature_views(features@));
    }
    let mut sorted: Vec<Feature> = Vec::new();
    let ghost all = feature_views(features@);
    for feature in it: features
        invariant
            it.seq() == features@,
            all == feature_views(features@),
            feature_views(sorted@) == sort_by_level(all.subrange(0, it.index() as int)),
    {
        let mut j: usize = sorted.len();
        while j > 0 && sorted[j - 1].level > feature.level
            invariant
                j <= sorted.len(),
                forall|k: int| j <= k < sorted.len() ==> sorted[k].level > feature.level,
            decreases j,
        {
            j -= 1;
        }
        proof {
            let upto = all.subrange(0, it.index() + 1);
            assert(upto.drop_last() =~= all.subrange(0, it.index() as int));
            assert(upto.last() == feature@);
            lemma_insert_position(feature_views(sorted@), feature@, j as int);
            assert(feature_views(sorted@.insert(j as int, feature)) =~= feature_views(
                sorted@,
            ).insert(j as int, feature@));
        }
        sorted.insert(j, feature);
    }
    proof {
        assert(all.subrange(0, all.len() as int) =~= all);
    }
    sorted
}

} // verus!
