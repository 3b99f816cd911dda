//! The features of a species or subspecies: its ability score increases, and
//! the traits that its narrative describes under titles in bold italics.

use vstd::prelude::*;
use crate::api::api_extensions::{
    feature_views, Feature, FeatureType, FeatureTypeView, FeatureView,
};
use crate::api::api_model::{ApiAsi, Species, Subspecies};
use crate::api::api_model::entry_asis;
use crate::character_model::{
    ability_named, asi_total, asi_views, Ability, CharacterAsiView,
};
use crate::derived::{ability_delta, asi_of, asis_among};
use crate::pattern::{captures, group, group_text, regex_captures};
use crate::text::{
    chars_of, join_text, replace, replace_spec, split, split_spec, string_of, strings, texts,
};

verus! {

/// The slug of the record of the species `slug`.
pub open spec fn species_source(slug: Seq<char>) -> Seq<char> {
    "species:"@ + slug
}

/// The slug of the record of the subspecies `slug`.
pub open spec fn subspecies_source(slug: Seq<char>) -> Seq<char> {
    "subspecies:"@ + slug
}

/// The regular expression for a paragraph that opens a trait: a title
/// between two runs of three asterisks, then the text. Its first group
/// captures the title, its second the text.
pub open spec fn trait_title_pattern() -> Seq<char> {
    "\\*\\*\\*(.+)\\*\\*\\*(.+)"@
}

/// A paragraph with every mark of bold italics written as three asterisks.
pub open spec fn normalized(paragraph: Seq<char>) -> Seq<char> {
    replace_spec(replace_spec(paragraph, "**_"@, "***"@), "_**"@, "***"@)
}

/// The hidden level-one feature that grants the increase `asi`.
pub open spec fn asi_feature(asi: CharacterAsiView, asi_desc: Seq<char>, source_slug: Seq<char>) -> FeatureView {
    FeatureView {
        name: "Ability Score Increase"@,
        desc: asi_desc,
        level: 1,
        feature_type: FeatureTypeView::Asi(asi),
        source_slug,
        hidden: true,
    }
}

/// The features that grant the increases `asis`, in order.
pub open spec fn asi_features_of(
    asis: Seq<CharacterAsiView>,
    asi_desc: Seq<char>,
    source_slug: Seq<char>,
) -> Seq<FeatureView> {
    Seq::new(asis.len(), |i: int| asi_feature(asis[i], asi_desc, source_slug))
}

/// The increases that the entries of a record grant, entry by entry, each
/// marked with the record's own slug.
pub open spec fn record_asis(entries: Seq<ApiAsi>, slug: Seq<char>) -> Seq<CharacterAsiView>
    decreases entries.len(),
{
    if entries.len() == 0 {
        Seq::empty()
    } else {
        record_asis(entries.drop_last(), slug) + entries.last().asis_spec(slug)
    }
}

/// Where the reading of a trait narrative stands: the traits finished so
/// far, and the one being gathered.
pub struct TraitState {
    pub done: Seq<FeatureView>,
    pub current: FeatureView,
}

/// A visible level-one trait of the record `source_slug` with nothing in it
/// yet.
pub open spec fn blank_trait(source_slug: Seq<char>) -> FeatureView {
    FeatureView {
        name: Seq::empty(),
        desc: Seq::empty(),
        level: 1,
        feature_type: FeatureTypeView::Plain,
        source_slug,
        hidden: false,
    }
}

/// What one paragraph does to the state, where `line` is the paragraph,
/// normalized, and `captured` what the title pattern captures in it. A
/// titled paragraph closes the trait being gathered, if it has a name, and
/// starts a trait with the title as its name and the text behind the title
/// as its description; what was gathered under no name is dropped. Any other
/// paragraph is added to the description as it is.
pub open spec fn trait_step(
    state: TraitState,
    line: Seq<char>,
    captured: Option<Seq<Option<Seq<char>>>>,
    source_slug: Seq<char>,
) -> TraitState {
    match captured {
        Some(groups) => TraitState {
            done: if state.current.name.len() > 0 {
                state.done.push(state.current)
            } else {
                state.done
            },
            current: FeatureView {
                name: group_text(groups, 1),
                desc: group_text(groups, 2),
                ..blank_trait(source_slug)
            },
        },
        None => TraitState {
            done: state.done,
            current: FeatureView { desc: state.current.desc + line, ..state.current },
        },
    }
}

/// The traits that the paragraphs from the `k`th on leave when read from
/// `state`. The trait being gathered at the end counts if it has a name.
pub open spec fn trait_scan(
    paragraphs: Seq<Seq<char>>,
    source_slug: Seq<char>,
    k: int,
    state: TraitState,
) -> Seq<FeatureView>
    decreases paragraphs.len() - k,
{
    if k < 0 || k >= paragraphs.len() {
        if state.current.name.len() > 0 {
            state.done.push(state.current)
        } else {
            state.done
        }
    } else {
        let line = normalized(paragraphs[k]);
        trait_scan(
            paragraphs,
            source_slug,
            k + 1,
            trait_step(state, line, regex_captures(trait_title_pattern(), line), source_slug),
        )
    }
}

/// The traits that the narrative `traits` describes, its paragraphs parted
/// by blank lines.
pub open spec fn trait_narrative(traits: Seq<char>, source_slug: Seq<char>) -> Seq<FeatureView> {
    trait_scan(
        split_spec(traits, "\n\n"@),
        source_slug,
        0,
        TraitState { done: Seq::empty(), current: blank_trait(source_slug) },
    )
}

/// The features of a record with the ability score increases `entries` and
/// the narrative `traits`: one hidden feature for each increase, then the
/// traits.
pub open spec fn trait_features_spec(
    entries: Seq<ApiAsi>,
    slug: Seq<char>,
    asi_desc: Seq<char>,
    traits: Seq<char>,
    source_slug: Seq<char>,
) -> Seq<FeatureView> {
    asi_features_of(record_asis(entries, slug), asi_desc, source_slug) + trait_narrative(
        traits,
        source_slug,
    )
}

/// Reads one paragraph of a trait narrative: `done` takes the trait that the
/// paragraph closes, if it closes one, and the trait being gathered after the
/// paragraph is returned. `line` is the paragraph, normalized, and `captured`
/// what the title pattern captures in it.
pub fn read_trait_paragraph(
    done: &mut Vec<Feature>,
    current: Feature,
    line: &str,
    captured: &Option<Vec<Option<String>>>,
    source_slug: &str,
) -> (next: Feature)
    ensures
        (TraitState { done: feature_views(final(done)@), current: next@ }) == trait_step(
            TraitState { done: feature_views(old(done)@), current: current@ },
            line@,
            captured.deep_view(),
            source_slug@,
        ),
{
    let ghost before = feature_views(done@);
    let mut current = current;
    match captured {
        Some(groups) => {
            if current.name.as_str().unicode_len() > 0 {
                proof {
                    assert(feature_views(done@.push(current)) =~= before.push(current@));
                }
                done.push(current);
            }
            let mut started = new_trait(source_slug);
            started.name = group(groups, 1);
            started.desc = group(groups, 2);
            started
        },
        None => {
            current.desc.append(line);
            current
        },
    }
}

/// A visible level-one trait of the record `source_slug` with nothing in it
/// yet.
pub fn new_trait(source_slug: &str) -> (feature: Feature)
    ensures
        feature@ == blank_trait(source_slug@),
{
    Feature {
        name: String::new(),
        desc: String::new(),
        level: 1,
        feature_type: FeatureType::Plain,
        source_slug: String::from_str(source_slug),
        hidden: false,
    }
}

/// The traits that a narrative describes.
pub fn read_traits(traits: &str, source_slug: &str) -> (out: Vec<Feature>)
    ensures
        feature_views(out@) == trait_narrative(traits@, source_slug@),
{
    let text = chars_of(traits);
    let paragraphs = split(&text, &chars_of("\n\n"));
    let open_mark = chars_of("**_");
    let close_mark = chars_of("_**");
    let stars = chars_of("***");
    let mut done: Vec<Feature> = Vec::new();
    let mut current = new_trait(source_slug);
    proof {
        assert(feature_views(done@) =~= Seq::<FeatureView>::empty());
    }
    let mut k: usize = 0;
    while k < paragraphs.len()
        invariant
            k <= paragraphs.len(),
            open_mark@ == "**_"@,
            close_mark@ == "_**"@,
            stars@ == "***"@,
            texts(paragraphs@) == split_spec(traits@, "\n\n"@),
            trait_narrative(traits@, source_slug@) == trait_scan(
                texts(paragraphs@),
                source_slug@,
                k as int,
                TraitState { done: feature_views(done@), current: current@ },
            ),
        decreases paragraphs.len() - k,
    {
        assert(texts(paragraphs@)[k as int] == paragraphs[k as int]@);
        let line = string_of(
            &replace(&replace(&paragraphs[k], &open_mark, &stars), &close_mark, &stars),
        );
        let captured = captures("\\*\\*\\*(.+)\\*\\*\\*(.+)", line.as_str());
        current = read_trait_paragraph(&mut done, current, line.as_str(), &captured, source_slug);
        k += 1;
    }
    if current.name.as_str().unicode_len() > 0 {
        proof {
            assert(feature_views(done@.push(current)) =~= feature_views(done@).push(current@));
        }
        done.push(current);
    }
    done
}

/// One hidden feature for each increase that the entries grant.
pub fn asi_features(entries: &Vec<ApiAsi>, slug: &str, asi_desc: &str, source_slug: &str) -> (out: Vec<
    Feature,
>)
    ensures
        feature_views(out@) == asi_features_of(
            record_asis(entries@, slug@),
            asi_desc@,
            source_slug@,
        ),
{
    let mut out: Vec<Feature> = Vec::new();
    let mut i: usize = 0;
    proof {
        assert(feature_views(out@) =~= asi_features_of(
            record_asis(entries@.subrange(0, 0), slug@),
            asi_desc@,
            source_slug@,
        ));
    }
    while i < entries.len()
        invariant
            i <= entries.len(),
            feature_views(out@) == asi_features_of(
                record_asis(entries@.subrange(0, i as int), slug@),
                asi_desc@,
                source_slug@,
            ),
        decreases entries.len() - i,
    {
        let granted = entries[i].get_asis(slug);
        let ghost before = record_asis(entries@.subrange(0, i as int), slug@);
        proof {
            let upto = entries@.subrange(0, i + 1);
            assert(upto.drop_last() =~= entries@.subrange(0, i as int));
            assert(upto.last() == entries@[i as int]);
            assert(record_asis(upto, slug@) == before + asi_views(granted@));
        }
        let mut j: usize = 0;
        while j < granted.len()
            invariant
                j <= granted.len(),
                feature_views(out@) == asi_features_of(
                    before + asi_views(granted@).subrange(0, j as int),
                    asi_desc@,
                    source_slug@,
                ),
            decreases granted.len() - j,
        {
            let feature = Feature {
                level: 1,
                name: String::from_str("Ability Score Increase"),
                desc: String::from_str(asi_desc),
                feature_type: FeatureType::Asi(granted[j].clone()),
                source_slug: String::from_str(source_slug),
                hidden: true,
            };
            proof {
                assert(before + asi_views(granted@).subrange(0, j + 1) =~= (before + asi_views(
                    granted@,
                ).subrange(0, j as int)).push(granted[j as int]@));
                let shorter = before + asi_views(granted@).subrange(0, j as int);
                let longer = before + asi_views(granted@).subrange(0, j + 1);
                assert(feature@ == asi_feature(granted[j as int]@, asi_desc@, source_slug@));
                assert(asi_features_of(longer, asi_desc@, source_slug@) =~= asi_features_of(
                    shorter,
                    asi_desc@,
                    source_slug@,
                ).push(feature@));
                assert(feature_views(out@.push(feature)) =~= feature_views(out@).push(feature@));
            }
            out.push(feature);
            j += 1;
        }
        proof {
            assert(asi_views(granted@).subrange(0, granted.len() as int) =~= asi_views(granted@));
        }
        i += 1;
    }
    proof {
        assert(entries@.subrange(0, entries.len() as int) =~= entries@);
    }
    out
}

/// The features of a record with the ability score increases `entries` and
/// the narrative `traits`.
pub fn trait_features(
    entries: &Vec<ApiAsi>,
    slug: &str,
    asi_desc: &str,
    traits: &str,
    source_slug: &str,
) -> (out: Vec<Feature>)
    ensures
        feature_views(out@) == trait_features_spec(
            entries@,
            slug@,
            asi_desc@,
            traits@,
            source_slug@,
        ),
{
    let mut out = asi_features(entries, slug, asi_desc, source_slug);
    let mut narrative = read_traits(traits, source_slug);
    let ghost head = feature_views(out@);
    let ghost tail = feature_views(narrative@);
    out.append(&mut narrative);
    proof {
        assert(feature_views(out@) =~= head + tail);
    }
    out
}

impl Species {
    /// The features of the species: one hidden feature for each ability
    /// score increase, then the traits of the narrative.
    pub open spec fn features_spec(&self) -> Seq<FeatureView> {
        trait_features_spec(
            self.asi@,
            self.slug@,
            self.asi_desc@,
            self.traits@,
            species_source(self.slug@),
        )
    }

    /// The features of the species.
    pub fn features(&self) -> (out: Vec<Feature>)
        ensures
            feature_views(out@) == self.features_spec(),
    {
        let source_slug = join_text("species:", self.slug.as_str());
        trait_features(
            &self.asi,
            self.slug.as_str(),
            self.asi_desc.as_str(),
            self.traits.as_str(),
            source_slug.as_str(),
        )
    }
}

impl Subspecies {
    /// The features of the subspecies: one hidden feature for each ability
    /// score increase, then the traits of the narrative.
    pub open spec fn features_spec(&self) -> Seq<FeatureView> {
        trait_features_spec(
            self.asi@,
            self.slug@,
            self.asi_desc@,
            self.traits@,
            subspecies_source(self.slug@),
        )
    }

    /// The features of the subspecies.
    pub fn features(&self) -> (out: Vec<Feature>)
        ensures
            feature_views(out@) == self.features_spec(),
    {
        let source_slug = join_text("subspecies:", self.slug.as_str());
        trait_features(
            &self.asi,
            self.slug.as_str(),
            self.asi_desc.as_str(),
            self.traits.as_str(),
            source_slug.as_str(),
        )
    }
}

/// How many of the attribute names `attributes` name `ability`.
pub open spec fn names_count(attributes: Seq<Seq<char>>, ability: Ability) -> nat {
    attributes.filter(|name: Seq<char>| ability_named(name) == Some(ability)).len()
}

/// By how much the entries of a record raise `ability`: each entry by its
/// amount, once for each time it names the ability.
pub open spec fn source_total(entries: Seq<ApiAsi>, ability: Ability) -> int
    decreases entries.len(),
{
    if entries.len() == 0 {
        0
    } else {
        source_total(entries.drop_last(), ability) + entries.last().value * names_count(
            strings(entries.last().attributes@),
            ability,
        )
    }
}

/// Whether every feature of `features` grants nothing that is derived.
pub open spec fn all_plain(features: Seq<FeatureView>) -> bool {
    forall|i: int| 0 <= i < features.len() ==> features[i].feature_type == FeatureTypeView::Plain
}

/// Mapping with a filter goes through a concatenation.
pub proof fn lemma_filter_map_add<A, B>(a: Seq<A>, b: Seq<A>, f: spec_fn(A) -> Option<B>)
    ensures
        (a + b).filter_map(f) == a.filter_map(f) + b.filter_map(f),
    decreases b.len(),
{
    if b.len() == 0 {
        assert(a + b =~= a);
        assert(a.filter_map(f) + b.filter_map(f) =~= a.filter_map(f));
    } else {
        lemma_filter_map_add(a, b.drop_last(), f);
        assert((a + b).drop_last() =~= a + b.drop_last());
        assert((a + b).last() == b.last());
        match f(b.last()) {
            Some(x) => {
                assert(a.filter_map(f) + (b.drop_last().filter_map(f) + seq![x]) =~= a.filter_map(
                    f,
                ) + b.drop_last().filter_map(f) + seq![x]);
            },
            None => {},
        }
    }
}

/// The sum of the increases of two lists is the sum of their sums.
pub proof fn lemma_asi_total_add(a: Seq<CharacterAsiView>, b: Seq<CharacterAsiView>, ability: Ability)
    ensures
        asi_total(a + b, ability) == asi_total(a, ability) + asi_total(b, ability),
    decreases b.len(),
{
    if b.len() == 0 {
        assert(a + b =~= a);
    } else {
        lemma_asi_total_add(a, b.drop_last(), ability);
        assert((a + b).drop_last() =~= a + b.drop_last());
        assert((a + b).last() == b.last());
    }
}

/// What the features made for a list of increases grant is that list.
pub proof fn lemma_asi_features_grant(
    asis: Seq<CharacterAsiView>,
    asi_desc: Seq<char>,
    source_slug: Seq<char>,
)
    ensures
        asis_among(asi_features_of(asis, asi_desc, source_slug)) == asis,
    decreases asis.len(),
{
    let features = asi_features_of(asis, asi_desc, source_slug);
    if asis.len() == 0 {
        assert(asis_among(features) =~= asis);
    } else {
        lemma_asi_features_grant(asis.drop_last(), asi_desc, source_slug);
        assert(features.drop_last() =~= asi_features_of(asis.drop_last(), asi_desc, source_slug));
        assert(asis.drop_last() + seq![asis.last()] =~= asis);
    }
}

/// Features that grant nothing grant no increase.
pub proof fn lemma_plain_grants_nothing(features: Seq<FeatureView>)
    requires
        all_plain(features),
    ensures
        asis_among(features) == Seq::<CharacterAsiView>::empty(),
    decreases features.len(),
{
    if features.len() > 0 {
        lemma_plain_grants_nothing(features.drop_last());
    }
}

/// The traits of a narrative grant nothing that is derived, and all are
/// visible features of level one.
pub proof fn lemma_traits_are_plain(
    paragraphs: Seq<Seq<char>>,
    source_slug: Seq<char>,
    k: int,
    state: TraitState,
)
    requires
        all_plain(state.done),
        state.current.feature_type == FeatureTypeView::Plain,
    ensures
        all_plain(trait_scan(paragraphs, source_slug, k, state)),
    decreases paragraphs.len() - k,
{
    if 0 <= k < paragraphs.len() {
        let line = normalized(paragraphs[k]);
        let next = trait_step(
            state,
            line,
            regex_captures(trait_title_pattern(), line),
            source_slug,
        );
        lemma_traits_are_plain(paragraphs, source_slug, k + 1, next);
    }
}

/// The sum of the increases that an entry grants is its amount, once for
/// each attribute that names the ability.
pub proof fn lemma_entry_total(attributes: Seq<Seq<char>>, value: int, source: Seq<char>, ability: Ability)
    ensures
        asi_total(entry_asis(attributes, value, source), ability) == value * names_count(
            attributes,
            ability,
        ),
    decreases attributes.len(),
{
    let names = |name: Seq<char>| ability_named(name) == Some(ability);
    reveal(Seq::filter);
    if attributes.len() > 0 {
        lemma_entry_total(attributes.drop_last(), value, source, ability);
        let before = entry_asis(attributes.drop_last(), value, source);
        let count = attributes.drop_last().filter(names).len();
        match ability_named(attributes.last()) {
            Some(named) => {
                assert(before.push(
                    CharacterAsiView { score: named, source_slug: source, amount: value },
                ).drop_last() =~= before);
            },
            None => {},
        }
        assert(value * (count + 1) == value * count + value) by (nonlinear_arith);
    } else {
        assert(value * 0 == 0) by (nonlinear_arith);
    }
}

/// The sum of the increases that the entries of a record grant is what the
/// record says of the ability.
pub proof fn lemma_record_total(entries: Seq<ApiAsi>, slug: Seq<char>, ability: Ability)
    ensures
        asi_total(record_asis(entries, slug), ability) == source_total(entries, ability),
    decreases entries.len(),
{
    if entries.len() > 0 {
        lemma_record_total(entries.drop_last(), slug, ability);
        lemma_asi_total_add(
            record_asis(entries.drop_last(), slug),
            entries.last().asis_spec(slug),
            ability,
        );
        lemma_entry_total(
            strings(entries.last().attributes@),
            entries.last().value as int,
            slug,
            ability,
        );
    }
}

/// The ability score increases among the features of a record are those
/// that its entries grant, in order: one feature for each, hidden, and no
/// other feature grants an increase. So the features raise every ability by
/// what the record says.
pub proof fn lemma_record_increases(
    entries: Seq<ApiAsi>,
    slug: Seq<char>,
    asi_desc: Seq<char>,
    traits: Seq<char>,
    source_slug: Seq<char>,
    ability: Ability,
)
    ensures
        asis_among(trait_features_spec(entries, slug, asi_desc, traits, source_slug))
            == record_asis(entries, slug),
        forall|i: int|
            0 <= i < trait_features_spec(entries, slug, asi_desc, traits, source_slug).len() ==> (
            #[trigger] trait_features_spec(
                entries,
                slug,
                asi_desc,
                traits,
                source_slug,
            )[i]).hidden == (i < record_asis(entries, slug).len()),
        forall|i: int|
            0 <= i < trait_features_spec(entries, slug, asi_desc, traits, source_slug).len() ==> ((
            #[trigger] trait_features_spec(
                entries,
                slug,
                asi_desc,
                traits,
                source_slug,
            )[i]).feature_type is Asi) == (i < record_asis(entries, slug).len()),
        ability_delta(trait_features_spec(entries, slug, asi_desc, traits, source_slug), ability)
            == source_total(entries, ability),
{
    let granted = record_asis(entries, slug);
    let head = asi_features_of(granted, asi_desc, source_slug);
    let start = TraitState { done: Seq::empty(), current: blank_trait(source_slug) };
    let tail = trait_narrative(traits, source_slug);
    lemma_traits_shown(split_spec(traits, "\n\n"@), source_slug, 0, start);
    lemma_traits_are_plain(split_spec(traits, "\n\n"@), source_slug, 0, start);
    lemma_plain_grants_nothing(tail);
    lemma_asi_features_grant(granted, asi_desc, source_slug);
    lemma_filter_map_add(head, tail, |f: FeatureView| asi_of(f));
    assert(granted + Seq::<CharacterAsiView>::empty() =~= granted);
    lemma_record_total(entries, slug, ability);
}

/// Whether every feature of `features` is visible.
pub open spec fn all_shown(features: Seq<FeatureView>) -> bool {
    forall|i: int| 0 <= i < features.len() ==> !features[i].hidden
}

/// The traits of a narrative are visible.
pub proof fn lemma_traits_shown(
    paragraphs: Seq<Seq<char>>,
    source_slug: Seq<char>,
    k: int,
    state: TraitState,
)
    requires
        all_shown(state.done),
        !state.current.hidden,
    ensures
        all_shown(trait_scan(paragraphs, source_slug, k, state)),
    decreases paragraphs.len() - k,
{
    if 0 <= k < paragraphs.len() {
        let line = normalized(paragraphs[k]);
        let next = trait_step(
            state,
            line,
            regex_captures(trait_title_pattern(), line),
            source_slug,
        );
        lemma_traits_shown(paragraphs, source_slug, k + 1, next);
    }
}

/// A record whose entries each name exactly one ability has as many
/// increases as entries.
pub proof fn lemma_one_increase_each(entries: Seq<ApiAsi>, slug: Seq<char>)
    requires
        forall|i: int| 0 <= i < entries.len() ==> (#[trigger] entries[i]).asis_spec(slug).len() == 1,
    ensures
        record_asis(entries, slug).len() == entries.len(),
    decreases entries.len(),
{
    if entries.len() > 0 {
        assert forall|i: int| 0 <= i < entries.drop_last().len() implies (
        #[trigger] entries.drop_last()[i]).asis_spec(slug).len() == 1 by {
            assert(entries.drop_last()[i] == entries[i]);
        }
        lemma_one_increase_each(entries.drop_last(), slug);
    }
}

/// The ability score increases among the features of a species are those
/// that its record grants, one hidden feature for each and no other, and the
/// features raise every ability by what the record says.
pub proof fn lemma_species_increases(species: &Species, ability: Ability)
    ensures
        asis_among(species.features_spec()) == record_asis(species.asi@, species.slug@),
        forall|i: int|
            0 <= i < species.features_spec().len() ==> ((
            #[trigger] species.features_spec()[i]).feature_type is Asi) == (i < record_asis(
                species.asi@,
                species.slug@,
            ).len()),
        forall|i: int|
            0 <= i < species.features_spec().len() ==> (
            #[trigger] species.features_spec()[i]).hidden == (i < record_asis(
                species.asi@,
                species.slug@,
            ).len()),
        ability_delta(species.features_spec(), ability) == source_total(species.asi@, ability),
{
    lemma_record_increases(
        species.asi@,
        species.slug@,
        species.asi_desc@,
        species.traits@,
        species_source(species.slug@),
        ability,
    );
}

/// A species whose entries each grant exactly one increase has as many
/// features that grant an increase as its record has entries.
pub proof fn lemma_species_increase_count(species: &Species)
    requires
        forall|i: int|
            0 <= i < species.asi.len() ==> (#[trigger] species.asi@[i]).asis_spec(
                species.slug@,
            ).len() == 1,
    ensures
        asis_among(species.features_spec()).len() == species.asi.len(),
{
    lemma_species_increases(species, Ability::Strength);
    lemma_one_increase_each(species.asi@, species.slug@);
}

} // verus!
