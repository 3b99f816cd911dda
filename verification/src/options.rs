//! Option groups, the selections a player makes from them, and the active
//! features that the selections add to a character's own.

use vstd::prelude::*;
use crate::api::api_extensions::{
    feature_views, lemma_options_view, selection_views, Feature, FeatureOptions,
    FeatureOptionsSelection, FeatureOptionsView, FeatureType, FeatureTypeView, FeatureView,
    SelectionView,
};
use crate::text::{chars_of, contains, contains_sub, same_text};

verus! {

/// An option group with the slug of the feature that holds it.
pub struct GroupView {
    pub slug: Seq<char>,
    pub group: FeatureOptionsView,
}

/// The option group that a feature holds, if it holds one.
pub open spec fn group_of_feature(feature: FeatureView) -> Option<GroupView> {
    match feature.feature_type {
        FeatureTypeView::Option(group) => Some(GroupView { slug: feature.feature_slug(), group }),
        _ => None,
    }
}

/// The option groups among `features`, in their order.
pub open spec fn option_groups(features: Seq<FeatureView>) -> Seq<GroupView> {
    features.filter_map(|f: FeatureView| group_of_feature(f))
}

/// The views of a list of groups with their slugs.
pub open spec fn group_views(groups: Seq<(String, FeatureOptions)>) -> Seq<GroupView> {
    Seq::new(groups.len(), |i: int| GroupView { slug: groups[i].0@, group: groups[i].1@ })
}

/// The first of the groups from the `k`th on whose slug occurs in `slug`.
pub open spec fn group_for(groups: Seq<GroupView>, slug: Seq<char>, k: int) -> Option<
    FeatureOptionsView,
>
    decreases groups.len() - k,
{
    if k < 0 || k >= groups.len() {
        None
    } else if contains_sub(slug, groups[k].slug) {
        Some(groups[k].group)
    } else {
        group_for(groups, slug, k + 1)
    }
}

/// The feature that a selection picks among `groups`: the candidate at the
/// selected index in the first group whose slug occurs in the selection's.
/// None where no group is found or the group has no such candidate.
pub open spec fn picked(groups: Seq<GroupView>, selection: SelectionView) -> Option<FeatureView> {
    match group_for(groups, selection.slug, 0) {
        Some(group) => if 0 <= selection.selection < group.options.len() {
            Some(group.options[selection.selection])
        } else {
            None
        },
        None => None,
    }
}

/// The features that the selections pick among the groups of `base`, in
/// the order of the selections.
pub open spec fn picks(base: Seq<FeatureView>, selections: Seq<SelectionView>) -> Seq<FeatureView> {
    selections.filter_map(|s: SelectionView| picked(option_groups(base), s))
}

/// The active features: those of `base`, then what the selections pick
/// among its option groups.
pub open spec fn resolved(base: Seq<FeatureView>, selections: Seq<SelectionView>) -> Seq<
    FeatureView,
> {
    base + picks(base, selections)
}

/// The selections after a pick: those with another slug, then the pick.
pub open spec fn selected(selections: Seq<SelectionView>, slug: Seq<char>, index: int) -> Seq<
    SelectionView,
> {
    selections.filter(|s: SelectionView| s.slug != slug).push(
        SelectionView { slug, selection: index },
    )
}

/// How many of `selections` have the slug `slug`.
pub open spec fn count_of_slug(selections: Seq<SelectionView>, slug: Seq<char>) -> nat {
    selections.filter(|s: SelectionView| s.slug == slug).len()
}

/// The option groups among `features`, each with the slug of the feature
/// that holds it.
pub fn get_optional_features(features: &Vec<Feature>) -> (groups: Vec<(String, FeatureOptions)>)
    ensures
        group_views(groups@) == option_groups(feature_views(features@)),
{
    let ghost all = feature_views(features@);
    let ghost pick = |f: FeatureView| group_of_feature(f);
    let mut groups: Vec<(String, FeatureOptions)> = Vec::new();
    let mut i: usize = 0;
    proof {
        assert(group_views(groups@) =~= all.take(0).filter_map(pick));
    }
    while i < features.len()
        invariant
            i <= features.len(),
            all == feature_views(features@),
            pick == (|f: FeatureView| group_of_feature(f)),
            group_views(groups@) == all.take(i as int).filter_map(pick),
        decreases features.len() - i,
    {
        proof {
            all.lemma_filter_map_take_succ(pick, i as int);
            assert(all[i as int] == features[i as int]@);
        }
        if let FeatureType::Option(group) = &features[i].feature_type {
            let entry = (features[i].feature_slug(), group.clone());
            proof {
                assert(group_views(groups@.push(entry)) =~= group_views(groups@) + seq![
                    GroupView { slug: entry.0@, group: entry.1@ },
                ]);
            }
            groups.push(entry);
        } else {
            assert(group_views(groups@) + Seq::<GroupView>::empty() =~= group_views(groups@));
        }
        i += 1;
    }
    proof {
        assert(all.take(features.len() as int) =~= all);
    }
    groups
}

/// The feature that a selection picks among `groups`.
pub fn pick_option(groups: &Vec<(String, FeatureOptions)>, selection: &FeatureOptionsSelection) -> (feature:
    Option<Feature>)
    ensures
        crate::api::api_extensions::optional_view(feature) == picked(
            group_views(groups@),
            selection@,
        ),
{
    let slug = chars_of(selection.slug.as_str());
    let mut k: usize = 0;
    while k < groups.len()
        invariant
            k <= groups.len(),
            slug@ == selection.slug@,
            group_for(group_views(groups@), selection.slug@, 0) == group_for(
                group_views(groups@),
                selection.slug@,
                k as int,
            ),
        decreases groups.len() - k,
    {
        if contains(&slug, &chars_of(groups[k].0.as_str())) {
            let group = &groups[k].1;
            proof {
                lemma_options_view(group);
            }
            if selection.selection < group.options.len() {
                return Some(group.options[selection.selection].clone());
            } else {
                return None;
            }
        }
        k += 1;
    }
    None
}

/// The active features of a character: its own features `base`, then for
/// each selection the candidate it picks among the option groups of `base`.
/// A selection that finds no group, or no candidate at its index, adds
/// nothing.
pub fn get_current_features(base: Vec<Feature>, selections: &Vec<FeatureOptionsSelection>) -> (out: Vec<
    Feature,
>)
    ensures
        feature_views(out@) == resolved(feature_views(base@), selection_views(selections@)),
{
    let groups = get_optional_features(&base);
    let ghost own = feature_views(base@);
    let ghost all = selection_views(selections@);
    let ghost pick = |s: SelectionView| picked(option_groups(own), s);
    let mut out = base;
    let mut i: usize = 0;
    proof {
        assert(own + all.take(0).filter_map(pick) =~= own);
    }
    while i < selections.len()
        invariant
            i <= selections.len(),
            all == selection_views(selections@),
            pick == (|s: SelectionView| picked(option_groups(own), s)),
            group_views(groups@) == option_groups(own),
            feature_views(out@) == own + all.take(i as int).filter_map(pick),
        decreases selections.len() - i,
    {
        proof {
            all.lemma_filter_map_take_succ(pick, i as int);
            assert(all[i as int] == selections[i as int]@);
        }
        if let Some(feature) = pick_option(&groups, &selections[i]) {
            proof {
                let before = all.take(i as int).filter_map(pick);
                assert(feature_views(out@.push(feature)) =~= feature_views(out@).push(feature@));
                assert((own + before).push(feature@) =~= own + (before + seq![feature@]));
            }
            out.push(feature);
        } else {
            assert(all.take(i as int).filter_map(pick) + Seq::<FeatureView>::empty()
                =~= all.take(i as int).filter_map(pick));
        }
        i += 1;
    }
    proof {
        assert(all.take(selections.len() as int) =~= all);
    }
    out
}

/// Records a pick: every selection with the slug `slug` leaves the list,
/// and the pick of `index` under that slug goes to its end.
pub fn change_selected_feature(selections: &mut Vec<FeatureOptionsSelection>, slug: &str, index: usize)
    ensures
        selection_views(final(selections)@) == selected(
            selection_views(old(selections)@),
            slug@,
            index as int,
        ),
{
    let ghost all = selection_views(selections@);
    let ghost keep = |s: SelectionView| s.slug != slug@;
    let mut kept: Vec<FeatureOptionsSelection> = Vec::new();
    let mut i: usize = 0;
    proof {
        reveal(Seq::filter);
        assert(selection_views(kept@) =~= all.subrange(0, 0).filter(keep));
    }
    while i < selections.len()
        invariant
            i <= selections.len(),
            all == selection_views(selections@),
            keep == (|s: SelectionView| s.slug != slug@),
            selection_views(kept@) == all.subrange(0, i as int).filter(keep),
        decreases selections.len() - i,
    {
        proof {
            assert(all.subrange(0, i + 1) =~= all.subrange(0, i as int).push(
                selections[i as int]@,
            ));
            all.subrange(0, i as int).lemma_filter_push(selections[i as int]@, keep);
        }
        if !same_text(selections[i].slug.as_str(), slug) {
            let selection = selections[i].clone();
            proof {
                assert(selection_views(kept@.push(selection)) =~= selection_views(kept@).push(
                    selection@,
                ));
            }
            kept.push(selection);
        }
        i += 1;
    }
    let pick = FeatureOptionsSelection { slug: String::from_str(slug), selection: index };
    proof {
        assert(all.subrange(0, selections.len() as int) =~= all);
        assert(selection_views(kept@.push(pick)) =~= selection_views(kept@).push(pick@));
    }
    kept.push(pick);
    *selections = kept;
}

/// A list whose members all pass a test is its own filtering by that test.
pub proof fn lemma_filter_all<A>(s: Seq<A>, pred: spec_fn(A) -> bool)
    requires
        forall|i: int| 0 <= i < s.len() ==> pred(s[i]),
    ensures
        s.filter(pred) == s,
    decreases s.len(),
{
    reveal(Seq::filter);
    if s.len() > 0 {
        lemma_filter_all(s.drop_last(), pred);
        assert(s.drop_last().push(s.last()) =~= s);
    }
}

/// A list of which no member passes a test has nothing left after filtering
/// by that test.
pub proof fn lemma_filter_none<A>(s: Seq<A>, pred: spec_fn(A) -> bool)
    requires
        forall|i: int| 0 <= i < s.len() ==> !pred(s[i]),
    ensures
        s.filter(pred).len() == 0,
    decreases s.len(),
{
    reveal(Seq::filter);
    if s.len() > 0 {
        lemma_filter_none(s.drop_last(), pred);
    }
}

/// A pick replaces the pick made before under the same slug: picking `first`
/// and then `second` leaves the selections that picking `second` alone
/// leaves. With `first` equal to `second`: picking twice is picking once.
pub proof fn lemma_pick_replaces(selections: Seq<SelectionView>, slug: Seq<char>, first: int, second: int)
    ensures
        selected(selected(selections, slug, first), slug, second) == selected(
            selections,
            slug,
            second,
        ),
{
    let keep = |s: SelectionView| s.slug != slug;
    let others = selections.filter(keep);
    let pick = SelectionView { slug, selection: first };
    others.lemma_filter_push(pick, keep);
    assert forall|i: int| 0 <= i < others.len() implies keep(others[i]) by {
        selections.lemma_filter_pred(keep, i);
    }
    lemma_filter_all(others, keep);
}

/// After a pick exactly one selection has the slug of the pick, the last,
/// and it selects the picked index.
pub proof fn lemma_pick_is_only(selections: Seq<SelectionView>, slug: Seq<char>, index: int)
    ensures
        count_of_slug(selected(selections, slug, index), slug) == 1,
        selected(selections, slug, index).last() == (SelectionView { slug, selection: index }),
{
    let keep = |s: SelectionView| s.slug != slug;
    let same = |s: SelectionView| s.slug == slug;
    let others = selections.filter(keep);
    let pick = SelectionView { slug, selection: index };
    assert forall|i: int| 0 <= i < others.len() implies !same(others[i]) by {
        selections.lemma_filter_pred(keep, i);
    }
    lemma_filter_none(others, same);
    others.lemma_filter_push(pick, same);
}

/// What a pick adds to the active features: after the picks of the
/// selections with another slug comes the one candidate that the pick finds,
/// or nothing where it finds none.
pub proof fn lemma_pick_adds_one(
    base: Seq<FeatureView>,
    selections: Seq<SelectionView>,
    slug: Seq<char>,
    index: int,
)
    ensures
        resolved(base, selected(selections, slug, index)) == resolved(
            base,
            selections.filter(|s: SelectionView| s.slug != slug),
        ) + match picked(option_groups(base), SelectionView { slug, selection: index }) {
            Some(feature) => seq![feature],
            None => Seq::empty(),
        },
{
    let others = selections.filter(|s: SelectionView| s.slug != slug);
    let pick = SelectionView { slug, selection: index };
    let find = |s: SelectionView| picked(option_groups(base), s);
    let after = others.push(pick);
    assert(after.drop_last() =~= others);
    assert(after.last() == pick);
    let added = match find(pick) {
        Some(feature) => seq![feature],
        None => Seq::empty(),
    };
    assert(after.filter_map(find) =~= others.filter_map(find) + added);
    assert(base + (others.filter_map(find) + added) =~= base + others.filter_map(find) + added);
}

/// Picking the same candidate again changes nothing of the active
/// features.
pub proof fn lemma_pick_twice(
    base: Seq<FeatureView>,
    selections: Seq<SelectionView>,
    slug: Seq<char>,
    index: int,
)
    ensures
        resolved(base, selected(selected(selections, slug, index), slug, index)) == resolved(
            base,
            selected(selections, slug, index),
        ),
{
    lemma_pick_replaces(selections, slug, index, index);
}

/// Every feature of `base` is active, in its place, whatever the
/// selections.
pub proof fn lemma_resolved_keeps_base(base: Seq<FeatureView>, selections: Seq<SelectionView>)
    ensures
        resolved(base, selections).len() >= base.len(),
        resolved(base, selections).subrange(0, base.len() as int) == base,
        resolved(base, selections).len() <= base.len() + selections.len(),
{
    let find = |s: SelectionView| picked(option_groups(base), s);
    lemma_filter_map_len(selections, find);
    assert(resolved(base, selections).subrange(0, base.len() as int) =~= base);
}

/// Mapping with a filter leaves no more than there were.
pub proof fn lemma_filter_map_len<A, B>(s: Seq<A>, f: spec_fn(A) -> Option<B>)
    ensures
        s.filter_map(f).len() <= s.len(),
    decreases s.len(),
{
    if s.len() > 0 {
        lemma_filter_map_len(s.drop_last(), f);
    }
}

} // verus!
