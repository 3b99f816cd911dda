//! The features of a background: its description, its feature, its
//! suggested characteristics, and the proficiencies that its record lists.

use vstd::prelude::*;
use crate::api::api_extensions::{
    feature_views, Feature, FeatureType, FeatureTypeView, FeatureView,
};
use crate::api::api_model::Background;
use crate::text::{
    chars_of, join_text, contains, contains_sub, same_chars, same_text, split, split_spec,
    string_of, texts, trim, trim_spec,
};

verus! {

/// The slug of the record of the background `slug`.
pub open spec fn background_source(slug: Seq<char>) -> Seq<char> {
    "background:"@ + slug
}

/// The document whose backgrounds write their choices of skills in a way
/// that cannot be told from a list.
pub open spec fn ambiguous_document() -> Seq<char> {
    "a5e"@
}

/// A visible level-one feature.
pub open spec fn shown(
    name: Seq<char>,
    desc: Seq<char>,
    feature_type: FeatureTypeView,
    source_slug: Seq<char>,
) -> FeatureView {
    FeatureView { name, desc, level: 1, feature_type, source_slug, hidden: false }
}

/// A hidden level-one feature.
pub open spec fn concealed(
    name: Seq<char>,
    desc: Seq<char>,
    feature_type: FeatureTypeView,
    source_slug: Seq<char>,
) -> FeatureView {
    FeatureView { name, desc, level: 1, feature_type, source_slug, hidden: true }
}

/// The three features that every background has: its description, its
/// feature, its suggested characteristics.
pub open spec fn narrative_features(background: &Background) -> Seq<FeatureView> {
    let source = background_source(background.slug@);
    seq![
        shown(
            background.name@ + " Description"@,
            background.desc@,
            FeatureTypeView::Fluff,
            source,
        ),
        shown(background.feature@, background.feature_desc@, FeatureTypeView::Plain, source),
        shown(
            background.name@ + " Characteristics"@,
            background.suggested_characteristics@,
            FeatureTypeView::Fluff,
            source,
        ),
    ]
}

/// One hidden skill proficiency for each of `entries` that offers no
/// choice, which is to say holds no " or ". `list` is the text that the
/// entries come from.
pub open spec fn skill_entries(entries: Seq<Seq<char>>, list: Seq<char>, source_slug: Seq<char>) -> Seq<
    FeatureView,
>
    decreases entries.len(),
{
    if entries.len() == 0 {
        Seq::empty()
    } else {
        let before = skill_entries(entries.drop_last(), list, source_slug);
        if contains_sub(entries.last(), " or "@) {
            before
        } else {
            before.push(
                concealed(
                    "Skill Proficiencies"@,
                    list,
                    FeatureTypeView::SkillProficency(trim_spec(entries.last())),
                    source_slug,
                ),
            )
        }
    }
}

/// The skill proficiencies of a background: none where its record has no
/// list of skills or stands in the ambiguous document, else those of the
/// entries that the commas of the list part.
pub open spec fn skill_features(background: &Background) -> Seq<FeatureView> {
    match background.skill_proficiencies {
        Some(list) => if background.document_slug@ == ambiguous_document() {
            Seq::empty()
        } else {
            skill_entries(
                split_spec(list@, ","@),
                list@,
                background_source(background.slug@),
            )
        },
        None => Seq::empty(),
    }
}

/// One hidden proficiency for each of `entries` but those that say that
/// there is none; a free choice of two is spelled out as one of tools.
pub open spec fn tool_entries(entries: Seq<Seq<char>>, source_slug: Seq<char>) -> Seq<FeatureView>
    decreases entries.len(),
{
    if entries.len() == 0 {
        Seq::empty()
    } else {
        let before = tool_entries(entries.drop_last(), source_slug);
        let entry = entries.last();
        if entry == "Two of your choice"@ {
            before.push(
                concealed(
                    "Tool Proficency"@,
                    entry,
                    FeatureTypeView::OtherProficency("Two tools of your choice"@),
                    source_slug,
                ),
            )
        } else if entry == "No additional tool proficiencies"@ {
            before
        } else {
            before.push(
                concealed(
                    "Tool Proficency"@,
                    entry,
                    FeatureTypeView::OtherProficency(entry),
                    source_slug,
                ),
            )
        }
    }
}

/// The tool proficiencies of a background: those of the entries that the
/// commas of its list part, none where its record has no such list.
pub open spec fn tool_features(background: &Background) -> Seq<FeatureView> {
    match background.tool_proficiencies {
        Some(list) => tool_entries(split_spec(list@, ","@), background_source(background.slug@)),
        None => Seq::empty(),
    }
}

/// The one language text that is kept whole, commas and all.
pub open spec fn adopted_language() -> Seq<char> {
    "One language of your choice, typically your adopted parents' language (if any)"@
}

/// What an entry of a list of languages grants: a free choice of one or two
/// spelled out, any other entry as a language.
pub open spec fn language_granted(entry: Seq<char>) -> Seq<char> {
    if entry == "One of your choice"@ || entry == "One language of your choice"@ {
        "One language of your choice"@
    } else if entry == "Two of your choice"@ {
        "Two languages of your choice"@
    } else {
        "Language: "@ + entry
    }
}

/// One hidden proficiency for each of `entries`.
pub open spec fn language_entries(entries: Seq<Seq<char>>, source_slug: Seq<char>) -> Seq<
    FeatureView,
> {
    Seq::new(
        entries.len(),
        |i: int|
            concealed(
                "Language"@,
                entries[i],
                FeatureTypeView::OtherProficency(language_granted(entries[i])),
                source_slug,
            ),
    )
}

/// The languages of a background: none where its record has no list of
/// languages or the list says that there are none; the whole list as one
/// proficiency where it is the language of the adopted parents; else those
/// of the entries that the commas of the list part.
pub open spec fn language_features(background: &Background) -> Seq<FeatureView> {
    let source = background_source(background.slug@);
    match background.languages {
        Some(list) => if list@ == adopted_language() {
            seq![
                concealed("Language"@, list@, FeatureTypeView::OtherProficency(list@), source),
            ]
        } else if list@ == "No additional languages"@ {
            Seq::empty()
        } else {
            language_entries(split_spec(list@, ","@), source)
        },
        None => Seq::empty(),
    }
}

/// A level-one feature with the given parts.
pub fn level_one(name: String, desc: &str, feature_type: FeatureType, source_slug: &str, hidden: bool) -> (feature:
    Feature)
    ensures
        feature@ == (FeatureView {
            name: name@,
            desc: desc@,
            level: 1,
            feature_type: feature_type@,
            source_slug: source_slug@,
            hidden,
        }),
{
    Feature {
        name,
        desc: String::from_str(desc),
        level: 1,
        feature_type,
        source_slug: String::from_str(source_slug),
        hidden,
    }
}

impl Background {
    /// The features of the background: description, feature and suggested
    /// characteristics, then its skills, its tools and its languages.
    pub open spec fn features_spec(&self) -> Seq<FeatureView> {
        narrative_features(self) + skill_features(self) + tool_features(self) + language_features(
            self,
        )
    }

    /// The features of the background.
    pub fn features(&self) -> (out: Vec<Feature>)
        ensures
            feature_views(out@) == self.features_spec(),
    {
        let source_slug = join_text("background:", self.slug.as_str());
        let source = source_slug.as_str();
        let mut features: Vec<Feature> = Vec::new();
        features.push(
            level_one(
                join_text(self.name.as_str(), " Description"),
                self.desc.as_str(),
                FeatureType::Fluff,
                source,
                false,
            ),
        );
        features.push(
            level_one(
                self.feature.clone(),
                self.feature_desc.as_str(),
                FeatureType::Plain,
                source,
                false,
            ),
        );
        features.push(
            level_one(
                join_text(self.name.as_str(), " Characteristics"),
                self.suggested_characteristics.as_str(),
                FeatureType::Fluff,
                source,
                false,
            ),
        );
        proof {
            assert(feature_views(features@) =~= narrative_features(self));
        }
        let mut skills = self.skills(source);
        let mut tools = self.tools(source);
        let mut languages = self.languages(source);
        let ghost a = feature_views(features@);
        let ghost b = feature_views(skills@);
        let ghost c = feature_views(tools@);
        let ghost d = feature_views(languages@);
        features.append(&mut skills);
        features.append(&mut tools);
        features.append(&mut languages);
        proof {
            assert(feature_views(features@) =~= a + b + c + d);
        }
        features
    }

    /// The skill proficiencies of the background. `source_slug` is the slug
    /// of its record.
    fn skills(&self, source_slug: &str) -> (out: Vec<Feature>)
        requires
            source_slug@ == background_source(self.slug@),
        ensures
            feature_views(out@) == skill_features(self),
    {
        let mut out: Vec<Feature> = Vec::new();
        proof {
            assert(feature_views(out@) =~= Seq::<FeatureView>::empty());
        }
        if let Some(list) = &self.skill_proficiencies {
            if !same_text(self.document_slug.as_str(), "a5e") {
                let entries = split(&chars_of(list.as_str()), &chars_of(","));
                let choice = chars_of(" or ");
                let mut i: usize = 0;
                while i < entries.len()
                    invariant
                        i <= entries.len(),
                        choice@ == " or "@,
                        feature_views(out@) == skill_entries(
                            texts(entries@).subrange(0, i as int),
                            list@,
                            source_slug@,
                        ),
                    decreases entries.len() - i,
                {
                    proof {
                        let upto = texts(entries@).subrange(0, i + 1);
                        assert(upto.drop_last() =~= texts(entries@).subrange(0, i as int));
                        assert(upto.last() == entries[i as int]@);
                    }
                    if !contains(&entries[i], &choice) {
                        let feature = level_one(
                            String::from_str("Skill Proficiencies"),
                            list.as_str(),
                            FeatureType::SkillProficency(string_of(&trim(&entries[i]))),
                            source_slug,
                            true,
                        );
                        proof {
                            assert(feature_views(out@.push(feature)) =~= feature_views(out@).push(
                                feature@,
                            ));
                        }
                        out.push(feature);
                    }
                    i += 1;
                }
                proof {
                    assert(texts(entries@).subrange(0, entries.len() as int) =~= texts(entries@));
                }
            }
        }
        out
    }

    /// The tool proficiencies of the background. `source_slug` is the slug
    /// of its record.
    fn tools(&self, source_slug: &str) -> (out: Vec<Feature>)
        requires
            source_slug@ == background_source(self.slug@),
        ensures
            feature_views(out@) == tool_features(self),
    {
        let mut out: Vec<Feature> = Vec::new();
        proof {
            assert(feature_views(out@) =~= Seq::<FeatureView>::empty());
        }
        if let Some(list) = &self.tool_proficiencies {
            let entries = split(&chars_of(list.as_str()), &chars_of(","));
            let two = chars_of("Two of your choice");
            let none = chars_of("No additional tool proficiencies");
            let mut i: usize = 0;
            while i < entries.len()
                invariant
                    i <= entries.len(),
                    two@ == "Two of your choice"@,
                    none@ == "No additional tool proficiencies"@,
                    feature_views(out@) == tool_entries(
                        texts(entries@).subrange(0, i as int),
                        source_slug@,
                    ),
                decreases entries.len() - i,
            {
                proof {
                    let upto = texts(entries@).subrange(0, i + 1);
                    assert(upto.drop_last() =~= texts(entries@).subrange(0, i as int));
                    assert(upto.last() == entries[i as int]@);
                }
                let entry = string_of(&entries[i]);
                if same_chars(&entries[i], &two) {
                    let feature = level_one(
                        String::from_str("Tool Proficency"),
                        entry.as_str(),
                        FeatureType::OtherProficency(String::from_str("Two tools of your choice")),
                        source_slug,
                        true,
                    );
                    proof {
                        assert(feature_views(out@.push(feature)) =~= feature_views(out@).push(
                            feature@,
                        ));
                    }
                    out.push(feature);
                } else if !same_chars(&entries[i], &none) {
                    let feature = level_one(
                        String::from_str("Tool Proficency"),
                        entry.as_str(),
                        FeatureType::OtherProficency(entry.clone()),
                        source_slug,
                        true,
                    );
                    proof {
                        assert(feature_views(out@.push(feature)) =~= feature_views(out@).push(
                            feature@,
                        ));
                    }
                    out.push(feature);
                }
                i += 1;
            }
            proof {
                assert(texts(entries@).subrange(0, entries.len() as int) =~= texts(entries@));
            }
        }
        out
    }

    /// The languages of the background. `source_slug` is the slug of its
    /// record.
    fn languages(&self, source_slug: &str) -> (out: Vec<Feature>)
        requires
            source_slug@ == background_source(self.slug@),
        ensures
            feature_views(out@) == language_features(self),
    {
        let mut out: Vec<Feature> = Vec::new();
        proof {
            assert(feature_views(out@) =~= Seq::<FeatureView>::empty());
        }
        if let Some(list) = &self.languages {
            if same_text(
                list.as_str(),
                "One language of your choice, typically your adopted parents' language (if any)",
            ) {
                let feature = level_one(
                    String::from_str("Language"),
                    list.as_str(),
                    FeatureType::OtherProficency(list.clone()),
                    source_slug,
                    true,
                );
                out.push(feature);
                proof {
                    assert(feature_views(out@) =~= language_features(self));
                }
            } else if !same_text(list.as_str(), "No additional languages") {
                let entries = split(&chars_of(list.as_str()), &chars_of(","));
                let mut i: usize = 0;
                while i < entries.len()
                    invariant
                        i <= entries.len(),
                        out.len() == i,
                        forall|j: int|
                            0 <= j < i ==> out[j]@ == concealed(
                                "Language"@,
                                entries[j]@,
                                FeatureTypeView::OtherProficency(language_granted(entries[j]@)),
                                source_slug@,
                            ),
                    decreases entries.len() - i,
                {
                    let entry = string_of(&entries[i]);
                    let granted = grant_language(entry.as_str());
                    out.push(
                        level_one(
                            String::from_str("Language"),
                            entry.as_str(),
                            FeatureType::OtherProficency(granted),
                            source_slug,
                            true,
                        ),
                    );
                    i += 1;
                }
                proof {
                    assert(feature_views(out@) =~= language_entries(
                        texts(entries@),
                        source_slug@,
                    ));
                }
            }
        }
        out
    }
}

/// What an entry of a list of languages grants.
pub fn grant_language(entry: &str) -> (granted: String)
    ensures
        granted@ == language_granted(entry@),
{
    if same_text(entry, "One of your choice") || same_text(entry, "One language of your choice") {
        String::from_str("One language of your choice")
    } else if same_text(entry, "Two of your choice") {
        String::from_str("Two languages of your choice")
    } else {
        join_text("Language: ", entry)
    }
}

} // verus!
