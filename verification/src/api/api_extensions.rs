//! Features, the option groups among them, and the selections made from
//! those groups.

use vstd::prelude::*;
use crate::character_model::{Ability, CharacterAsi, CharacterAsiView};
use crate::text::{
    chars_of, join_text, lowercase_of, replace, replace_spec, string_of, to_lowercase,
};

verus! {

/// What a feature grants.
#[derive(Debug, PartialEq)]
pub enum FeatureType {
    /// An increase of an ability score.
    Asi(CharacterAsi),
    /// Proficiency in the saving throws of an ability.
    SavingThrow(Ability),
    /// Proficiency in a skill.
    SkillProficency(String),
    /// Any other proficiency, as free text.
    OtherProficency(String),
    /// A choice among candidate features.
    Option(FeatureOptions),
    /// Narrative only.
    Fluff,
    /// Nothing that the sheet derives a number from.
    Plain,
}

/// A group of candidate features, of which the player picks some.
#[derive(Debug, PartialEq)]
pub struct FeatureOptions {
    /// How many picks the group allows.
    pub num_choices: i32,
    /// The candidates, in the order in which they are offered.
    pub options: Vec<Feature>,
}

/// One trait, class ability, proficiency or ability score increase of a
/// character.
#[derive(Debug, PartialEq)]
pub struct Feature {
    pub name: String,
    /// Markdown text.
    pub desc: String,
    /// The character level from which the feature applies.
    pub level: i32,
    pub feature_type: FeatureType,
    /// The kind of record that the feature comes from, a colon, and the
    /// record's slug.
    pub source_slug: String,
    /// Hidden features are left out of the narrative display, not out of
    /// what is derived.
    pub hidden: bool,
}

/// A pick from an option group. A group that allows several picks has one
/// selection for each.
#[derive(Debug, PartialEq)]
pub struct FeatureOptionsSelection {
    /// The slug of the feature that holds the group, a colon, and the number
    /// of the pick within the group.
    pub slug: String,
    /// The index of the picked candidate among the group's options.
    pub selection: usize,
}

/// A text that could not be parsed, and the record it stands in.
#[derive(Debug, PartialEq)]
pub struct ParseError {
    pub source_slug: String,
    pub reason: String,
}

/// A feature as a value.
pub struct FeatureView {
    pub name: Seq<char>,
    pub desc: Seq<char>,
    pub level: int,
    pub feature_type: FeatureTypeView,
    pub source_slug: Seq<char>,
    pub hidden: bool,
}

/// What a feature grants, as a value.
pub enum FeatureTypeView {
    Asi(CharacterAsiView),
    SavingThrow(Ability),
    SkillProficency(Seq<char>),
    OtherProficency(Seq<char>),
    Option(FeatureOptionsView),
    Fluff,
    Plain,
}

/// An option group as a value.
pub struct FeatureOptionsView {
    pub num_choices: int,
    pub options: Seq<FeatureView>,
}

/// A selection as a value.
pub struct SelectionView {
    pub slug: Seq<char>,
    pub selection: int,
}

/// A parse error as a value.
pub struct ParseErrorView {
    pub source_slug: Seq<char>,
    pub reason: Seq<char>,
}

impl View for ParseError {
    type V = ParseErrorView;

    open spec fn view(&self) -> ParseErrorView {
        ParseErrorView { source_slug: self.source_slug@, reason: self.reason@ }
    }
}

/// The slug of a feature named `name` that comes from the record
/// `source_slug`: the record, a colon, and the name in lowercase with an
/// underscore for each space.
pub open spec fn feature_slug_of(source_slug: Seq<char>, name: Seq<char>) -> Seq<char> {
    source_slug + ":"@ + replace_spec(lowercase_of(name), " "@, "_"@)
}

impl FeatureView {
    /// The identity of the feature, by which selections find it.
    pub open spec fn feature_slug(self) -> Seq<char> {
        feature_slug_of(self.source_slug, self.name)
    }
}

/// The hidden level-one feature that grants proficiency in `skill`.
pub open spec fn skill_feature(skill: Seq<char>, source_slug: Seq<char>) -> FeatureView {
    FeatureView {
        name: "Skill: "@ + skill,
        desc: Seq::empty(),
        level: 1,
        feature_type: FeatureTypeView::SkillProficency(skill),
        source_slug,
        hidden: true,
    }
}

impl View for Feature {
    type V = FeatureView;

    open spec fn view(&self) -> FeatureView
        decreases self,
    {
        FeatureView {
            name: self.name@,
            desc: self.desc@,
            level: self.level as int,
            feature_type: self.feature_type.view(),
            source_slug: self.source_slug@,
            hidden: self.hidden,
        }
    }
}

impl View for FeatureType {
    type V = FeatureTypeView;

    open spec fn view(&self) -> FeatureTypeView
        decreases self,
    {
        match self {
            FeatureType::Asi(asi) => FeatureTypeView::Asi(asi@),
            FeatureType::SavingThrow(ability) => FeatureTypeView::SavingThrow(*ability),
            FeatureType::SkillProficency(skill) => FeatureTypeView::SkillProficency(skill@),
            FeatureType::OtherProficency(text) => FeatureTypeView::OtherProficency(text@),
            FeatureType::Option(group) => FeatureTypeView::Option(group.view()),
            FeatureType::Fluff => FeatureTypeView::Fluff,
            FeatureType::Plain => FeatureTypeView::Plain,
        }
    }
}

impl View for FeatureOptions {
    type V = FeatureOptionsView;

    open spec fn view(&self) -> FeatureOptionsView
        decreases self,
    {
        FeatureOptionsView {
            num_choices: self.num_choices as int,
            options: Seq::new(
                self.options.len() as nat,
                |i: int|
                    if 0 <= i < self.options.len() {
                        self.options[i].view()
                    } else {
                        arbitrary()
                    },
            ),
        }
    }
}

impl View for FeatureOptionsSelection {
    type V = SelectionView;

    open spec fn view(&self) -> SelectionView {
        SelectionView { slug: self.slug@, selection: self.selection as int }
    }
}

/// The views of a list of features.
pub open spec fn feature_views(features: Seq<Feature>) -> Seq<FeatureView> {
    Seq::new(features.len(), |i: int| features[i]@)
}

/// The view of a feature that may be missing.
pub open spec fn optional_view(feature: Option<Feature>) -> Option<FeatureView> {
    match feature {
        Some(feature) => Some(feature@),
        None => None,
    }
}

/// The views of a list of selections.
pub open spec fn selection_views(selections: Seq<FeatureOptionsSelection>) -> Seq<SelectionView> {
    Seq::new(selections.len(), |i: int| selections[i]@)
}

/// The options of a group are the views of the features it holds.
pub proof fn lemma_options_view(group: &FeatureOptions)
    ensures
        group@.options == feature_views(group.options@),
        group@.num_choices == group.num_choices,
{
    assert(group@.options =~= feature_views(group.options@));
}

impl Clone for FeatureOptions {
    fn clone(&self) -> (copy: Self)
        ensures
            copy@ == self@,
        decreases self,
    {
        let mut options: Vec<Feature> = Vec::new();
        let mut i: usize = 0;
        while i < self.options.len()
            invariant
                i <= self.options.len(),
                options.len() == i,
                forall|j: int| 0 <= j < i ==> options[j]@ == self.options[j]@,
            decreases self.options.len() - i,
        {
            let item = self.options[i].clone();
            options.push(item);
            i += 1;
        }
        let copy = FeatureOptions { num_choices: self.num_choices, options };
        proof {
            assert(copy@.options =~= self@.options);
        }
        copy
    }
}

impl Clone for FeatureType {
    fn clone(&self) -> (copy: Self)
        ensures
            copy@ == self@,
        decreases self,
    {
        match self {
            FeatureType::Asi(asi) => FeatureType::Asi(asi.clone()),
            FeatureType::SavingThrow(ability) => FeatureType::SavingThrow(*ability),
            FeatureType::SkillProficency(skill) => FeatureType::SkillProficency(skill.clone()),
            FeatureType::OtherProficency(text) => FeatureType::OtherProficency(text.clone()),
            FeatureType::Option(group) => FeatureType::Option(group.clone()),
            FeatureType::Fluff => FeatureType::Fluff,
            FeatureType::Plain => FeatureType::Plain,
        }
    }
}

impl Clone for Feature {
    fn clone(&self) -> (copy: Self)
        ensures
            copy@ == self@,
        decreases self,
    {
        Feature {
            name: self.name.clone(),
            desc: self.desc.clone(),
            level: self.level,
            feature_type: self.feature_type.clone(),
            source_slug: self.source_slug.clone(),
            hidden: self.hidden,
        }
    }
}

impl Clone for FeatureOptionsSelection {
    fn clone(&self) -> (copy: Self)
        ensures
            copy@ == self@,
    {
        FeatureOptionsSelection { slug: self.slug.clone(), selection: self.selection }
    }
}

impl Default for FeatureType {
    fn default() -> (kind: Self)
        ensures
            kind@ == FeatureTypeView::Plain,
    {
        FeatureType::Plain
    }
}

impl Default for Feature {
    fn default() -> (feature: Self)
        ensures
            feature@ == (FeatureView {
                name: Seq::empty(),
                desc: Seq::empty(),
                level: 0,
                feature_type: FeatureTypeView::Plain,
                source_slug: Seq::empty(),
                hidden: false,
            }),
    {
        Feature {
            name: String::new(),
            desc: String::new(),
            level: 0,
            feature_type: FeatureType::Plain,
            source_slug: String::new(),
            hidden: false,
        }
    }
}

impl Feature {
    /// The identity of the feature, by which selections find it.
    pub fn feature_slug(&self) -> (slug: String)
        ensures
            slug@ == self@.feature_slug(),
    {
        let lower = to_lowercase(self.name.as_str());
        let lower_chars = chars_of(lower.as_str());
        let space = chars_of(" ");
        let underscore = chars_of("_");
        let joined = replace(&lower_chars, &space, &underscore);
        let tail = string_of(&joined);
        let head = join_text(self.source_slug.as_str(), ":");
        join_text(head.as_str(), tail.as_str())
    }

    /// The hidden level-one feature that grants proficiency in `skill`.
    pub fn new_skill(skill: &str, source_slug: &str) -> (feature: Self)
        ensures
            feature@ == skill_feature(skill@, source_slug@),
    {
        Self {
            name: join_text("Skill: ", skill),
            desc: String::new(),
            level: 1,
            feature_type: FeatureType::SkillProficency(String::from_str(skill)),
            source_slug: String::from_str(source_slug),
            hidden: true,
        }
    }
}

} // verus!
