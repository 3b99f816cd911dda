//! Feature extraction and resolution for a tabletop character sheet.
//!
//! Source records (species, subspecies, class, background) are parsed into
//! ordered lists of features; the lists are composed and cut off at the
//! character's level, the player's selections are resolved against the
//! option groups found in them, and the active list is projected into
//! ability score increases and proficiencies.

pub mod api;
pub mod character_model;
pub mod derived;
pub mod options;
pub mod pattern;
pub mod text;

pub use crate::derived::{get_current_asis, get_skill_proficencies};
pub use crate::options::{get_current_features, get_optional_features};

use vstd::prelude::*;
use crate::api::api_extensions::{feature_views, Feature, FeatureView, ParseError, ParseErrorView};
use crate::api::api_model::{Background, Class, Species, Subspecies};
use crate::text::{chars_of, same_chars, same_text, split, split_spec, texts};

verus! {

/// The features of `features` that apply at `level`: those whose level is
/// not above it, in their order.
pub open spec fn up_to_level(features: Seq<FeatureView>, level: int) -> Seq<FeatureView> {
    features.filter(|f: FeatureView| f.level <= level)
}

/// The features of a character at `level`, from the features of its four
/// sources: those of the species, the subspecies, the class and the
/// background, in this order, without those above the level.
pub open spec fn composed(
    species: Seq<FeatureView>,
    subspecies: Seq<FeatureView>,
    class: Seq<FeatureView>,
    background: Seq<FeatureView>,
    level: int,
) -> Seq<FeatureView> {
    up_to_level(species + subspecies + class + background, level)
}

/// The features that apply at `level`.
pub fn features_up_to_level(features: &Vec<Feature>, level: i32) -> (out: Vec<Feature>)
    ensures
        feature_views(out@) == up_to_level(feature_views(features@), level as int),
{
    let ghost keep = |f: FeatureView| f.level <= level as int;
    let ghost all = feature_views(features@);
    let mut out: Vec<Feature> = Vec::new();
    let mut i: usize = 0;
    proof {
        reveal(Seq::filter);
        assert(all.subrange(0, 0).filter(keep) =~= feature_views(out@));
    }
    while i < features.len()
        invariant
            i <= features.len(),
            all == feature_views(features@),
            keep == (|f: FeatureView| f.level <= level as int),
            feature_views(out@) == all.subrange(0, i as int).filter(keep),
        decreases features.len() - i,
    {
        proof {
            assert(all.subrange(0, i + 1) =~= all.subrange(0, i as int).push(features[i as int]@));
            all.subrange(0, i as int).lemma_filter_push(features[i as int]@, keep);
        }
        if features[i].level <= level {
            let feature = features[i].clone();
            proof {
                assert(feature_views(out@.push(feature)) =~= feature_views(out@).push(feature@));
            }
            out.push(feature);
        }
        i += 1;
    }
    proof {
        assert(all.subrange(0, features.len() as int) =~= all);
    }
    out
}

/// The features of a character at `level`, from the features of its four
/// sources; a source that the character lacks has none.
pub fn compose_features(
    species: Vec<Feature>,
    subspecies: Vec<Feature>,
    class: Vec<Feature>,
    background: Vec<Feature>,
    level: i32,
) -> (out: Vec<Feature>)
    ensures
        feature_views(out@) == composed(
            feature_views(species@),
            feature_views(subspecies@),
            feature_views(class@),
            feature_views(background@),
            level as int,
        ),
        forall|i: int| 0 <= i < out.len() ==> out[i].level <= level,
        out.len() == up_to_level(feature_views(species@), level as int).len() + up_to_level(
            feature_views(subspecies@),
            level as int,
        ).len() + up_to_level(feature_views(class@), level as int).len() + up_to_level(
            feature_views(background@),
            level as int,
        ).len(),
{
    let ghost a = feature_views(species@);
    let ghost b = feature_views(subspecies@);
    let ghost c = feature_views(class@);
    let ghost d = feature_views(background@);
    let mut all = species;
    let mut subspecies = subspecies;
    let mut class = class;
    let mut background = background;
    all.append(&mut subspecies);
    all.append(&mut class);
    all.append(&mut background);
    proof {
        assert(feature_views(all@) =~= a + b + c + d);
    }
    let out = features_up_to_level(&all, level);
    proof {
        lemma_composed_levels(a, b, c, d, level as int);
        assert forall|i: int| 0 <= i < out.len() implies out[i].level <= level by {
            assert(feature_views(out@)[i] == out[i]@);
        }
    }
    out
}

/// No composed feature is above the level, and there are as many of them
/// as the four sources have at or below it, taken together.
pub proof fn lemma_composed_levels(
    species: Seq<FeatureView>,
    subspecies: Seq<FeatureView>,
    class: Seq<FeatureView>,
    background: Seq<FeatureView>,
    level: int,
)
    ensures
        forall|i: int|
            0 <= i < composed(species, subspecies, class, background, level).len() ==> composed(
                species,
                subspecies,
                class,
                background,
                level,
            )[i].level <= level,
        composed(species, subspecies, class, background, level) == up_to_level(species, level)
            + up_to_level(subspecies, level) + up_to_level(class, level) + up_to_level(
            background,
            level,
        ),
        composed(species, subspecies, class, background, level).len() == up_to_level(
            species,
            level,
        ).len() + up_to_level(subspecies, level).len() + up_to_level(class, level).len()
            + up_to_level(background, level).len(),
{
    let keep = |f: FeatureView| f.level <= level;
    let all = species + subspecies + class + background;
    Seq::filter_distributes_over_add(species + subspecies + class, background, keep);
    Seq::filter_distributes_over_add(species + subspecies, class, keep);
    Seq::filter_distributes_over_add(species, subspecies, keep);
    assert forall|i: int| 0 <= i < all.filter(keep).len() implies all.filter(keep)[i].level
        <= level by {
        all.lemma_filter_pred(keep, i);
    }
}

/// The features of a character at `level`: those of its species, its
/// subspecies, its class and its background, as far as it has them, in this
/// order, without those above the level. The error of the class, if its
/// narrative cannot be read.
pub open spec fn base_features_spec(
    species: Option<&Species>,
    subspecies: Option<&Subspecies>,
    class: Option<&Class>,
    background: Option<&Background>,
    level: int,
) -> Result<Seq<FeatureView>, ParseErrorView> {
    let of_class = match class {
        Some(class) => class.features_spec(),
        None => Ok(Seq::empty()),
    };
    match of_class {
        Err(error) => Err(error),
        Ok(of_class) => Ok(
            composed(
                match species {
                    Some(species) => species.features_spec(),
                    None => Seq::empty(),
                },
                match subspecies {
                    Some(subspecies) => subspecies.features_spec(),
                    None => Seq::empty(),
                },
                of_class,
                match background {
                    Some(background) => background.features_spec(),
                    None => Seq::empty(),
                },
                level,
            ),
        ),
    }
}

/// The features of a character at `level`, before any selection.
pub fn get_base_features(
    species: Option<&Species>,
    subspecies: Option<&Subspecies>,
    class: Option<&Class>,
    background: Option<&Background>,
    level: i32,
) -> (out: Result<Vec<Feature>, ParseError>)
    ensures
        match out {
            Ok(features) => base_features_spec(
                species,
                subspecies,
                class,
                background,
                level as int,
            ) == Ok::<Seq<FeatureView>, ParseErrorView>(feature_views(features@)),
            Err(error) => base_features_spec(species, subspecies, class, background, level as int)
                == Err::<Seq<FeatureView>, ParseErrorView>(error@),
        },
        out matches Ok(features) ==> forall|i: int|
            0 <= i < features.len() ==> features[i].level <= level,
{
    let of_species = match species {
        Some(species) => species.features(),
        None => Vec::new(),
    };
    let of_subspecies = match subspecies {
        Some(subspecies) => subspecies.features(),
        None => Vec::new(),
    };
    let of_class = match class {
        Some(class) => match class.features() {
            Ok(features) => features,
            Err(error) => {
                return Err(error);
            },
        },
        None => Vec::new(),
    };
    let of_background = match background {
        Some(background) => background.features(),
        None => Vec::new(),
    };
    proof {
        assert(species is None ==> feature_views(of_species@) =~= Seq::<FeatureView>::empty());
        assert(subspecies is None ==> feature_views(of_subspecies@) =~= Seq::<
            FeatureView,
        >::empty());
        assert(class is None ==> feature_views(of_class@) =~= Seq::<FeatureView>::empty());
        assert(background is None ==> feature_views(of_background@) =~= Seq::<
            FeatureView,
        >::empty());
    }
    Ok(compose_features(of_species, of_subspecies, of_class, of_background, level))
}

/// The first index from `k` on at which `slugs` holds `slug`.
pub open spec fn first_with_slug(slugs: Seq<Seq<char>>, slug: Seq<char>, k: int) -> Option<int>
    decreases slugs.len() - k,
{
    if k < 0 || k >= slugs.len() {
        None
    } else if slugs[k] == slug {
        Some(k)
    } else {
        first_with_slug(slugs, slug, k + 1)
    }
}

/// The slugs of a list of species.
pub open spec fn species_slugs(list: Seq<Species>) -> Seq<Seq<char>> {
    Seq::new(list.len(), |i: int| list[i].slug@)
}

/// The slugs of a list of subspecies.
pub open spec fn subspecies_slugs(list: Seq<Subspecies>) -> Seq<Seq<char>> {
    Seq::new(list.len(), |i: int| list[i].slug@)
}

/// The slugs of a list of classes.
pub open spec fn class_slugs(list: Seq<Class>) -> Seq<Seq<char>> {
    Seq::new(list.len(), |i: int| list[i].slug@)
}

/// The slugs of a list of backgrounds.
pub open spec fn background_slugs(list: Seq<Background>) -> Seq<Seq<char>> {
    Seq::new(list.len(), |i: int| list[i].slug@)
}

/// The first species of `list` with the slug `slug`.
pub fn get_current_species<'a>(list: &'a Vec<Species>, slug: &str) -> (found: Option<&'a Species>)
    ensures
        match first_with_slug(species_slugs(list@), slug@, 0) {
            Some(i) => 0 <= i < list.len() && found == Some(&list@[i]),
            None => found is None,
        },
{
    let mut k: usize = 0;
    while k < list.len()
        invariant
            k <= list.len(),
            first_with_slug(species_slugs(list@), slug@, 0) == first_with_slug(
                species_slugs(list@),
                slug@,
                k as int,
            ),
        decreases list.len() - k,
    {
        if same_text(list[k].slug.as_str(), slug) {
            return Some(&list[k]);
        }
        k += 1;
    }
    None
}

/// The first subspecies of `list` with the slug `slug`.
pub fn find_subspecies<'a>(list: &'a Vec<Subspecies>, slug: &str) -> (found: Option<&'a Subspecies>)
    ensures
        match first_with_slug(subspecies_slugs(list@), slug@, 0) {
            Some(i) => 0 <= i < list.len() && found == Some(&list@[i]),
            None => found is None,
        },
{
    let mut k: usize = 0;
    while k < list.len()
        invariant
            k <= list.len(),
            first_with_slug(subspecies_slugs(list@), slug@, 0) == first_with_slug(
                subspecies_slugs(list@),
                slug@,
                k as int,
            ),
        decreases list.len() - k,
    {
        if same_text(list[k].slug.as_str(), slug) {
            return Some(&list[k]);
        }
        k += 1;
    }
    None
}

/// The first subspecies of `species` with the slug `slug`; none where the
/// character has no species.
pub fn get_current_subspecies<'a>(species: Option<&'a Species>, slug: &str) -> (found: Option<
    &'a Subspecies,
>)
    ensures
        match species {
            Some(species) => match first_with_slug(
                subspecies_slugs(species.subraces@),
                slug@,
                0,
            ) {
                Some(i) => 0 <= i < species.subraces.len() && found == Some(
                    &species.subraces@[i],
                ),
                None => found is None,
            },
            None => found is None,
        },
{
    match species {
        Some(species) => find_subspecies(&species.subraces, slug),
        None => None,
    }
}

/// The first class of `list` with the slug `slug`.
pub fn get_current_class<'a>(list: &'a Vec<Class>, slug: &str) -> (found: Option<&'a Class>)
    ensures
        match first_with_slug(class_slugs(list@), slug@, 0) {
            Some(i) => 0 <= i < list.len() && found == Some(&list@[i]),
            None => found is None,
        },
{
    let mut k: usize = 0;
    while k < list.len()
        invariant
            k <= list.len(),
            first_with_slug(class_slugs(list@), slug@, 0) == first_with_slug(
                class_slugs(list@),
                slug@,
                k as int,
            ),
        decreases list.len() - k,
    {
        if same_text(list[k].slug.as_str(), slug) {
            return Some(&list[k]);
        }
        k += 1;
    }
    None
}

/// The first background of `list` with the slug `slug`.
pub fn get_current_background<'a>(list: &'a Vec<Background>, slug: &str) -> (found: Option<
    &'a Background,
>)
    ensures
        match first_with_slug(background_slugs(list@), slug@, 0) {
            Some(i) => 0 <= i < list.len() && found == Some(&list@[i]),
            None => found is None,
        },
{
    let mut k: usize = 0;
    while k < list.len()
        invariant
            k <= list.len(),
            first_with_slug(background_slugs(list@), slug@, 0) == first_with_slug(
                background_slugs(list@),
                slug@,
                k as int,
            ),
        decreases list.len() - k,
    {
        if same_text(list[k].slug.as_str(), slug) {
            return Some(&list[k]);
        }
        k += 1;
    }
    None
}

/// The kind of record that a feature comes from: its source slug up to the
/// first colon.
pub open spec fn source_kind(feature: FeatureView) -> Seq<char> {
    split_spec(feature.source_slug, ":"@)[0]
}

/// The features of `features` that a tab for the sources of `kind` shows:
/// those that come from such a source and are not hidden.
pub open spec fn shown_of_kind(features: Seq<FeatureView>, kind: Seq<char>) -> Seq<FeatureView> {
    features.filter(|f: FeatureView| !f.hidden && source_kind(f) == kind)
}

/// The features that a tab for the sources of `kind` shows.
pub fn features_shown(features: &Vec<Feature>, kind: &str) -> (out: Vec<Feature>)
    ensures
        feature_views(out@) == shown_of_kind(feature_views(features@), kind@),
{
    let ghost keep = |f: FeatureView| !f.hidden && source_kind(f) == kind@;
    let ghost all = feature_views(features@);
    let colon = chars_of(":");
    let wanted = chars_of(kind);
    let mut out: Vec<Feature> = Vec::new();
    let mut i: usize = 0;
    proof {
        reveal(Seq::filter);
        assert(all.subrange(0, 0).filter(keep) =~= feature_views(out@));
    }
    while i < features.len()
        invariant
            i <= features.len(),
            colon@ == ":"@,
            wanted@ == kind@,
            all == feature_views(features@),
            keep == (|f: FeatureView| !f.hidden && source_kind(f) == kind@),
            feature_views(out@) == all.subrange(0, i as int).filter(keep),
        decreases features.len() - i,
    {
        proof {
            assert(all.subrange(0, i + 1) =~= all.subrange(0, i as int).push(features[i as int]@));
            all.subrange(0, i as int).lemma_filter_push(features[i as int]@, keep);
        }
        let parts = split(&chars_of(features[i].source_slug.as_str()), &colon);
        assert(texts(parts@)[0] == parts[0]@);
        if !features[i].hidden && same_chars(&parts[0], &wanted) {
            let feature = features[i].clone();
            proof {
                assert(feature_views(out@.push(feature)) =~= feature_views(out@).push(feature@));
            }
            out.push(feature);
        }
        i += 1;
    }
    proof {
        assert(all.subrange(0, features.len() as int) =~= all);
    }
    out
}

} // verus!
