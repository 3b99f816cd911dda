//! The features of a class: its skill choices, the features that its
//! narrative describes level by level, and its saving throws.

use vstd::prelude::*;
use crate::api::api_extensions::{
    feature_slug_of, feature_views, optional_view, skill_feature, Feature, FeatureOptions, FeatureOptionsView,
    FeatureType, FeatureTypeView, FeatureView, ParseError, ParseErrorView,
};
use crate::api::api_model::Class;
use crate::api::by_level::{ascending, lemma_sort_members, sort_by_level, sort_features};
use crate::character_model::{ability_named, Ability};
use crate::pattern::{captures, group_at, group_of, regex_captures};
use crate::text::{
    after_first_line, chars_of, find_line_end, first_line, has_prefix, join_text, parse_i32,
    parsed_i32, replace, replace_spec, same_text, slice_of, split, split_spec, split_whitespace,
    starts_with, string_of, strings, texts, trim, trim_spec, words_spec,
};

verus! {

/// The slug of the record of the class `slug`.
pub open spec fn class_source(slug: Seq<char>) -> Seq<char> {
    "class:"@ + slug
}

/// How many ways of announcing a level the narrative knows.
pub const LEVEL_PATTERN_COUNT: usize = 6;

/// The regular expression for the `k`th way of announcing a level. Its first
/// group captures the numeral.
pub open spec fn level_pattern(k: int) -> Seq<char> {
    if k == 0 {
        "At ([0-9]{1,2})[a-zA-Z]{1,2} level"@
    } else if k == 1 {
        "When you reach ([0-9]{1,2})[a-zA-Z]{1,2} level"@
    } else if k == 2 {
        "Starting at ([0-9]{1,2})[a-zA-Z]{1,2} level"@
    } else if k == 3 {
        "By ([0-9]{1,2})[a-zA-Z]{1,2} level"@
    } else if k == 4 {
        "Beginning at ([0-9]{1,2})[a-zA-Z]{1,2} level"@
    } else {
        "Beginning when you reach ([0-9]{1,2})[a-zA-Z]{1,2} level"@
    }
}

/// The regular expression for the `k`th way of announcing a level.
pub fn level_pattern_text(k: usize) -> (pattern: &'static str)
    ensures
        pattern@ == level_pattern(k as int),
{
    if k == 0 {
        "At ([0-9]{1,2})[a-zA-Z]{1,2} level"
    } else if k == 1 {
        "When you reach ([0-9]{1,2})[a-zA-Z]{1,2} level"
    } else if k == 2 {
        "Starting at ([0-9]{1,2})[a-zA-Z]{1,2} level"
    } else if k == 3 {
        "By ([0-9]{1,2})[a-zA-Z]{1,2} level"
    } else if k == 4 {
        "Beginning at ([0-9]{1,2})[a-zA-Z]{1,2} level"
    } else {
        "Beginning when you reach ([0-9]{1,2})[a-zA-Z]{1,2} level"
    }
}

/// The numeral that the first of the ways of announcing a level from the
/// `k`th on captures in `text`, if any of them does.
pub open spec fn level_numeral_from(text: Seq<char>, k: int) -> Option<Seq<char>>
    decreases LEVEL_PATTERN_COUNT - k,
{
    if k < 0 || k >= LEVEL_PATTERN_COUNT {
        None
    } else {
        match regex_captures(level_pattern(k), text) {
            Some(groups) => match group_at(groups, 1) {
                Some(numeral) => Some(numeral),
                None => level_numeral_from(text, k + 1),
            },
            None => level_numeral_from(text, k + 1),
        }
    }
}

/// The numeral of the level that `text` announces, if it announces one.
pub open spec fn level_numeral(text: Seq<char>) -> Option<Seq<char>> {
    level_numeral_from(text, 0)
}

/// The level that `text` announces: none, a number, or as an error a
/// captured numeral that is no number.
pub open spec fn announced_level(text: Seq<char>) -> Result<Option<i32>, Seq<char>> {
    level_of(level_numeral(text))
}

/// The level that a captured numeral stands for: none where nothing was
/// captured, the number that the numeral reads as, or as an error a numeral
/// that is no number.
pub open spec fn level_of(numeral: Option<Seq<char>>) -> Result<Option<i32>, Seq<char>> {
    match numeral {
        None => Ok(None),
        Some(numeral) => match parsed_i32(numeral) {
            Some(level) => Ok(Some(level)),
            None => Err(numeral),
        },
    }
}

/// The error that a narrative of the record `source_slug` cannot be read
/// because the captured `numeral` is no number.
pub open spec fn level_error_spec(source_slug: Seq<char>, numeral: Seq<char>) -> ParseErrorView {
    ParseErrorView { source_slug, reason: "Parsed a non-numeric level: "@ + numeral }
}

/// Where the reading of a narrative stands: the features finished so far,
/// and the one being gathered. A level of 0 says that none was announced for
/// it yet.
pub struct NarrativeState {
    pub done: Seq<FeatureView>,
    pub current: FeatureView,
}

/// A feature of the record `source_slug` with nothing in it yet.
pub open spec fn blank_feature(source_slug: Seq<char>) -> FeatureView {
    FeatureView {
        name: Seq::empty(),
        desc: Seq::empty(),
        level: 0,
        feature_type: FeatureTypeView::Plain,
        source_slug,
        hidden: false,
    }
}

/// The state before the first paragraph.
pub open spec fn initial_state(source_slug: Seq<char>) -> NarrativeState {
    NarrativeState { done: Seq::empty(), current: blank_feature(source_slug) }
}

/// `feature`, at level 1 if no level was announced for it.
pub open spec fn with_default_level(feature: FeatureView) -> FeatureView {
    if feature.level == 0 {
        FeatureView { level: 1, ..feature }
    } else {
        feature
    }
}

/// Whether a paragraph is a header, which opens a feature.
pub open spec fn is_header(text: Seq<char>) -> bool {
    starts_with(text, "### "@)
}

/// The name that a header paragraph gives: its first line without the
/// header marks and without white space around it.
pub open spec fn header_name(text: Seq<char>) -> Seq<char> {
    trim_spec(replace_spec(first_line(text), "### "@, ""@))
}

/// The description that a header paragraph begins: the lines that follow
/// its first, without white space around them.
pub open spec fn header_text(text: Seq<char>) -> Seq<char> {
    trim_spec(after_first_line(text))
}

/// A header closes the feature being gathered, if it has a name, and opens
/// one under the header's name, with the lines that follow the header line
/// as the beginning of its description.
pub open spec fn open_header(state: NarrativeState, text: Seq<char>, source_slug: Seq<char>) -> NarrativeState {
    NarrativeState {
        done: if state.current.name.len() > 0 {
            state.done.push(with_default_level(state.current))
        } else {
            state.done
        },
        current: FeatureView {
            name: header_name(text),
            desc: header_text(text),
            ..blank_feature(source_slug)
        },
    }
}

/// An announced level goes to the feature being gathered if it has none; if
/// it has one, that feature is closed and a feature of the same name opens at
/// the announced level, with no text yet.
pub open spec fn announce(state: NarrativeState, level: int, source_slug: Seq<char>) -> NarrativeState {
    if state.current.level != 0 {
        NarrativeState {
            done: state.done.push(state.current),
            current: FeatureView {
                name: state.current.name,
                desc: Seq::empty(),
                level,
                feature_type: FeatureTypeView::Plain,
                source_slug,
                hidden: false,
            },
        }
    } else {
        NarrativeState { done: state.done, current: FeatureView { level, ..state.current } }
    }
}

/// `feature` with the paragraph `text` added to its description, trimmed,
/// and parted from what was there by a blank line.
pub open spec fn append_paragraph(feature: FeatureView, text: Seq<char>) -> FeatureView {
    FeatureView {
        desc: (if feature.desc.len() > 0 {
            feature.desc + "\n\n"@
        } else {
            feature.desc
        }) + trim_spec(text),
        ..feature
    }
}

/// What one paragraph does to the state, where `announced` is the level that
/// the paragraph announces. A header opens a feature. Any other paragraph
/// first hands the level that it announces, if it announces one, to the
/// feature being gathered, and is then added to the description: to that of
/// the new tier, where the level opened one.
pub open spec fn narrative_step(
    state: NarrativeState,
    text: Seq<char>,
    announced: Option<i32>,
    source_slug: Seq<char>,
) -> NarrativeState {
    if is_header(text) {
        open_header(state, text, source_slug)
    } else {
        let told = match announced {
            Some(level) => announce(state, level as int, source_slug),
            None => state,
        };
        NarrativeState { done: told.done, current: append_paragraph(told.current, text) }
    }
}

/// The features that the paragraphs from the `k`th on leave when read from
/// `state`, or as an error the first captured numeral that is no number.
pub open spec fn narrative_scan(
    paragraphs: Seq<Seq<char>>,
    source_slug: Seq<char>,
    k: int,
    state: NarrativeState,
) -> Result<Seq<FeatureView>, Seq<char>>
    decreases paragraphs.len() - k,
{
    if k < 0 || k >= paragraphs.len() {
        Ok(state.done.push(with_default_level(state.current)))
    } else if is_header(paragraphs[k]) {
        narrative_scan(
            paragraphs,
            source_slug,
            k + 1,
            narrative_step(state, paragraphs[k], None, source_slug),
        )
    } else {
        match announced_level(paragraphs[k]) {
            Err(numeral) => Err(numeral),
            Ok(announced) => narrative_scan(
                paragraphs,
                source_slug,
                k + 1,
                narrative_step(state, paragraphs[k], announced, source_slug),
            ),
        }
    }
}

/// The paragraphs of a narrative: the text between blank lines, a line of
/// one space counting as blank.
pub open spec fn class_paragraphs(desc: Seq<char>) -> Seq<Seq<char>> {
    split_spec(replace_spec(desc, "\n \n"@, "\n\n"@), "\n\n"@)
}

/// The features that the narrative `desc` describes, in the order in which
/// they end.
pub open spec fn class_narrative(desc: Seq<char>, source_slug: Seq<char>) -> Result<
    Seq<FeatureView>,
    Seq<char>,
> {
    narrative_scan(class_paragraphs(desc), source_slug, 0, initial_state(source_slug))
}

/// The numeral of the level that `line` announces: that of the first way
/// of announcing a level that captures one.
pub fn find_level_numeral(line: &str) -> (numeral: Option<String>)
    ensures
        numeral.deep_view() == level_numeral(line@),
{
    let mut k: usize = 0;
    while k < LEVEL_PATTERN_COUNT
        invariant
            k <= LEVEL_PATTERN_COUNT,
            level_numeral(line@) == level_numeral_from(line@, k as int),
        decreases LEVEL_PATTERN_COUNT - k,
    {
        let found = captures(level_pattern_text(k), line);
        if let Some(groups) = found {
            if let Some(numeral) = group_of(&groups, 1) {
                return Some(numeral);
            }
        }
        k += 1;
    }
    None
}

/// The level that `line` announces, or as an error a captured numeral that
/// is no number.
pub fn read_level(line: &str) -> (level: Result<Option<i32>, String>)
    ensures
        match level {
            Ok(announced) => announced_level(line@) == Ok::<Option<i32>, Seq<char>>(announced),
            Err(numeral) => announced_level(line@) == Err::<Option<i32>, Seq<char>>(numeral@),
        },
{
    level_of_numeral(find_level_numeral(line))
}

/// The level that a captured numeral stands for, or as an error a numeral
/// that is no number.
pub fn level_of_numeral(numeral: Option<String>) -> (level: Result<Option<i32>, String>)
    ensures
        match level {
            Ok(announced) => level_of(numeral.deep_view()) == Ok::<Option<i32>, Seq<char>>(
                announced,
            ),
            Err(text) => level_of(numeral.deep_view()) == Err::<Option<i32>, Seq<char>>(text@),
        },
{
    match numeral {
        None => Ok(None),
        Some(numeral) => match parse_i32(numeral.as_str()) {
            Some(level) => Ok(Some(level)),
            None => Err(numeral),
        },
    }
}

/// The error that a narrative of the record `source_slug` cannot be read
/// because the captured `numeral` is no number.
pub fn level_error(source_slug: &str, numeral: &str) -> (error: ParseError)
    ensures
        error@ == level_error_spec(source_slug@, numeral@),
{
    ParseError {
        source_slug: String::from_str(source_slug),
        reason: join_text("Parsed a non-numeric level: ", numeral),
    }
}

/// Reads one paragraph of a narrative: `done` takes the feature that the
/// paragraph closes, if it closes one, and the feature being gathered after
/// the paragraph is returned. `announced` is the level that the paragraph
/// announces.
pub fn read_paragraph(
    done: &mut Vec<Feature>,
    current: Feature,
    line: &Vec<char>,
    announced: Option<i32>,
    source_slug: &str,
) -> (next: Feature)
    ensures
        (NarrativeState { done: feature_views(final(done)@), current: next@ }) == narrative_step(
            NarrativeState { done: feature_views(old(done)@), current: current@ },
            line@,
            announced,
            source_slug@,
        ),
{
    let ghost before = feature_views(done@);
    let mut current = current;
    let marks = chars_of("### ");
    if has_prefix(line, &marks) {
        if current.name.as_str().unicode_len() > 0 {
            if current.level == 0 {
                current.level = 1;
            }
            proof {
                assert(feature_views(done@.push(current)) =~= before.push(current@));
            }
            done.push(current);
        }
        let nothing = chars_of("");
        let end = find_line_end(line);
        let name = trim(&replace(&slice_of(line, 0, end), &marks, &nothing));
        let following = if end < line.len() {
            slice_of(line, end + 1, line.len())
        } else {
            Vec::new()
        };
        Feature {
            name: string_of(&name),
            desc: string_of(&trim(&following)),
            level: 0,
            feature_type: FeatureType::Plain,
            source_slug: String::from_str(source_slug),
            hidden: false,
        }
    } else {
        if let Some(level) = announced {
            if current.level != 0 {
                let opened = Feature {
                    level,
                    name: current.name.clone(),
                    desc: String::new(),
                    feature_type: FeatureType::Plain,
                    source_slug: String::from_str(source_slug),
                    hidden: false,
                };
                proof {
                    assert(feature_views(done@.push(current)) =~= before.push(current@));
                }
                done.push(current);
                current = opened;
            } else {
                current.level = level;
            }
        }
        if current.desc.as_str().unicode_len() > 0 {
            current.desc.append("\n\n");
        }
        let trimmed = string_of(&trim(line));
        current.desc.append(trimmed.as_str());
        current
    }
}

/// The features that a narrative describes, in the order in which they
/// end, or as an error the first captured numeral that is no number.
pub fn read_narrative(desc: &str, source_slug: &str) -> (out: Result<Vec<Feature>, String>)
    ensures
        match out {
            Ok(features) => class_narrative(desc@, source_slug@) == Ok::<
                Seq<FeatureView>,
                Seq<char>,
            >(feature_views(features@)),
            Err(numeral) => class_narrative(desc@, source_slug@) == Err::<
                Seq<FeatureView>,
                Seq<char>,
            >(numeral@),
        },
{
    let text = chars_of(desc);
    let collapsed = replace(&text, &chars_of("\n \n"), &chars_of("\n\n"));
    let paragraphs = split(&collapsed, &chars_of("\n\n"));
    let marks = chars_of("### ");
    let mut done: Vec<Feature> = Vec::new();
    let mut current = Feature {
        name: String::new(),
        desc: String::new(),
        level: 0,
        feature_type: FeatureType::Plain,
        source_slug: String::from_str(source_slug),
        hidden: false,
    };
    proof {
        assert(feature_views(done@) =~= Seq::<FeatureView>::empty());
    }
    let mut k: usize = 0;
    while k < paragraphs.len()
        invariant
            k <= paragraphs.len(),
            marks@ == "### "@,
            texts(paragraphs@) == class_paragraphs(desc@),
            class_narrative(desc@, source_slug@) == narrative_scan(
                texts(paragraphs@),
                source_slug@,
                k as int,
                NarrativeState { done: feature_views(done@), current: current@ },
            ),
        decreases paragraphs.len() - k,
    {
        let line = &paragraphs[k];
        assert(texts(paragraphs@)[k as int] == line@);
        let announced = if has_prefix(line, &marks) {
            None
        } else {
            let line_text = string_of(line);
            match read_level(line_text.as_str()) {
                Ok(announced) => announced,
                Err(numeral) => {
                    return Err(numeral);
                },
            }
        };
        current = read_paragraph(&mut done, current, line, announced, source_slug);
        k += 1;
    }
    if current.level == 0 {
        current.level = 1;
    }
    proof {
        assert(feature_views(done@.push(current)) =~= feature_views(done@).push(current@));
    }
    done.push(current);
    Ok(done)
}

/// The regular expression for a choice of skills from a list. Its first
/// group captures how many, its second the list.
pub open spec fn skill_choice_pattern() -> Seq<char> {
    "Choose (two|three|four|two skills) from (.+)"@
}

/// The skills there are, in the order in which a free choice offers them.
pub open spec fn skill_list() -> Seq<Seq<char>> {
    seq![
        "Athletics"@,
        "Acrobatics"@,
        "Sleight of Hand"@,
        "Stealth"@,
        "Arcana"@,
        "History"@,
        "Investigation"@,
        "Nature"@,
        "Religion"@,
        "Animal Handling"@,
        "Insight"@,
        "Medicine"@,
        "Perception"@,
        "Survival"@,
        "Deception"@,
        "Intimidation"@,
        "Performance"@,
        "Persuasion"@,
    ]
}

/// The number that a count word stands for, 0 for any other word.
pub open spec fn choice_count(word: Seq<char>) -> int {
    if word == "two"@ || word == "two skills"@ {
        2
    } else if word == "three"@ {
        3
    } else if word == "four"@ {
        4
    } else {
        0
    }
}

/// The skills that a list names: its entries between commas, an "and"
/// between two words counting as a space, each without white space around
/// it.
pub open spec fn listed_skills(list: Seq<char>) -> Seq<Seq<char>> {
    let pieces = split_spec(replace_spec(list, " and "@, " "@), ","@);
    Seq::new(pieces.len(), |i: int| trim_spec(pieces[i]))
}

/// The candidates that a choice among `skills` offers.
pub open spec fn skill_options(skills: Seq<Seq<char>>, group_slug: Seq<char>) -> Seq<FeatureView> {
    Seq::new(skills.len(), |i: int| skill_feature(skills[i], group_slug))
}

/// The visible level-one feature "Class Skills" that offers `num_choices` of
/// `skills`. Its candidates carry the feature's own slug as their source.
pub open spec fn skills_feature(
    desc: Seq<char>,
    source_slug: Seq<char>,
    num_choices: int,
    skills: Seq<Seq<char>>,
) -> FeatureView {
    FeatureView {
        name: "Class Skills"@,
        desc,
        level: 1,
        feature_type: FeatureTypeView::Option(
            FeatureOptionsView {
                num_choices,
                options: skill_options(skills, feature_slug_of(source_slug, "Class Skills"@)),
            },
        ),
        source_slug,
        hidden: false,
    }
}

/// The feature that the skill text of a class gives, where `captured` is
/// what the pattern for a choice from a list captures in it: any three of
/// all skills, or the captured number of the captured list; none where the
/// text is neither.
pub open spec fn class_skills(
    prof_skills: Seq<char>,
    source_slug: Seq<char>,
    captured: Option<Seq<Option<Seq<char>>>>,
) -> Option<FeatureView> {
    if prof_skills == "Choose any three"@ {
        Some(skills_feature(prof_skills, source_slug, 3, skill_list()))
    } else {
        match captured {
            Some(groups) => Some(
                skills_feature(
                    prof_skills,
                    source_slug,
                    match group_at(groups, 1) {
                        Some(word) => choice_count(word),
                        None => 0,
                    },
                    match group_at(groups, 2) {
                        Some(list) => listed_skills(list),
                        None => Seq::empty(),
                    },
                ),
            ),
            None => None,
        }
    }
}

/// The hidden level-one feature that grants proficiency in the saving
/// throws of `ability`, which the record calls `word`.
pub open spec fn save_feature(word: Seq<char>, ability: Ability, source_slug: Seq<char>) -> FeatureView {
    FeatureView {
        name: word + " Saving Throw"@,
        desc: "You have proficiency in "@ + word + " saving throws."@,
        level: 1,
        feature_type: FeatureTypeView::SavingThrow(ability),
        source_slug,
        hidden: true,
    }
}

/// The saving throw features for the words that name an ability, commas
/// left out, in order.
pub open spec fn save_features(words: Seq<Seq<char>>, source_slug: Seq<char>) -> Seq<FeatureView>
    decreases words.len(),
{
    if words.len() == 0 {
        Seq::empty()
    } else {
        let before = save_features(words.drop_last(), source_slug);
        let word = replace_spec(words.last(), ","@, ""@);
        match ability_named(word) {
            Some(ability) => before.push(save_feature(word, ability, source_slug)),
            None => before,
        }
    }
}

/// The saving throw features of a class whose record lists
/// `prof_saving_throws`.
pub open spec fn class_saves(prof_saving_throws: Seq<char>, source_slug: Seq<char>) -> Seq<
    FeatureView,
> {
    save_features(words_spec(prof_saving_throws), source_slug)
}

/// The features of a class before they are put in order: the skill choice
/// if there is one, what the narrative describes, the saving throws.
pub open spec fn class_features_unsorted(
    skills: Option<FeatureView>,
    narrative: Seq<FeatureView>,
    saves: Seq<FeatureView>,
) -> Seq<FeatureView> {
    (match skills {
        Some(feature) => seq![feature],
        None => Seq::empty(),
    }) + narrative + saves
}

/// The hit points that a text gives: the number that its first word is, the
/// words parted by single spaces; 0 where it is no number.
pub open spec fn base_hp_of(hp_at_1st_level: Seq<char>) -> int {
    match parsed_i32(split_spec(hp_at_1st_level, " "@)[0]) {
        Some(hp) => hp as int,
        None => 0,
    }
}

impl Class {
    /// The features of the class by ascending level, those of one level in
    /// the order skill choice, narrative, saving throws; or the error that
    /// the narrative announces a level with a numeral that is no number.
    pub open spec fn features_spec(&self) -> Result<Seq<FeatureView>, ParseErrorView> {
        let source = class_source(self.slug@);
        match class_narrative(self.desc@, source) {
            Err(numeral) => Err(level_error_spec(source, numeral)),
            Ok(narrative) => Ok(
                sort_by_level(
                    class_features_unsorted(
                        class_skills(
                            self.prof_skills@,
                            source,
                            regex_captures(skill_choice_pattern(), self.prof_skills@),
                        ),
                        narrative,
                        class_saves(self.prof_saving_throws@, source),
                    ),
                ),
            ),
        }
    }

    /// The hit points of the class at first level, before the Constitution
    /// modifier.
    pub fn base_hp(&self) -> (hp: i32)
        ensures
            hp == base_hp_of(self.hp_at_1st_level@),
    {
        let text = chars_of(self.hp_at_1st_level.as_str());
        let words = split(&text, &chars_of(" "));
        assert(texts(words@)[0] == words[0]@);
        let first = string_of(&words[0]);
        match parse_i32(first.as_str()) {
            Some(hp) => hp,
            None => 0,
        }
    }

    /// The features of the class.
    pub fn features(&self) -> (out: Result<Vec<Feature>, ParseError>)
        ensures
            match out {
                Ok(features) => self.features_spec() == Ok::<Seq<FeatureView>, ParseErrorView>(
                    feature_views(features@),
                ),
                Err(error) => self.features_spec() == Err::<Seq<FeatureView>, ParseErrorView>(
                    error@,
                ),
            },
            out matches Ok(features) ==> ascending(feature_views(features@)) && all_leveled(
                feature_views(features@),
            ),
    {
        proof {
            lemma_class_features_leveled(self);
        }
        let source_slug = join_text("class:", self.slug.as_str());
        let captured = if same_text(self.prof_skills.as_str(), "Choose any three") {
            None
        } else {
            captures("Choose (two|three|four|two skills) from (.+)", self.prof_skills.as_str())
        };
        let skills = skill_choice(self.prof_skills.as_str(), source_slug.as_str(), &captured);
        let mut narrative = match read_narrative(self.desc.as_str(), source_slug.as_str()) {
            Ok(narrative) => narrative,
            Err(numeral) => {
                return Err(level_error(source_slug.as_str(), numeral.as_str()));
            },
        };
        let mut saves = saving_throws(self.prof_saving_throws.as_str(), source_slug.as_str());
        let mut features: Vec<Feature> = Vec::new();
        let ghost narrative_views = feature_views(narrative@);
        let ghost save_views = feature_views(saves@);
        if let Some(feature) = skills {
            features.push(feature);
        }
        let ghost head = feature_views(features@);
        features.append(&mut narrative);
        features.append(&mut saves);
        proof {
            assert(feature_views(features@) =~= head + narrative_views + save_views);
            assert(head =~= match optional_view(skills) {
                Some(feature) => seq![feature],
                None => Seq::empty(),
            });
        }
        Ok(sort_features(features))
    }
}

/// The skills there are.
pub fn all_skills() -> (skills: Vec<String>)
    ensures
        strings(skills@) == skill_list(),
{
    let mut skills: Vec<String> = Vec::new();
    skills.push(String::from_str("Athletics"));
    skills.push(String::from_str("Acrobatics"));
    skills.push(String::from_str("Sleight of Hand"));
    skills.push(String::from_str("Stealth"));
    skills.push(String::from_str("Arcana"));
    skills.push(String::from_str("History"));
    skills.push(String::from_str("Investigation"));
    skills.push(String::from_str("Nature"));
    skills.push(String::from_str("Religion"));
    skills.push(String::from_str("Animal Handling"));
    skills.push(String::from_str("Insight"));
    skills.push(String::from_str("Medicine"));
    skills.push(String::from_str("Perception"));
    skills.push(String::from_str("Survival"));
    skills.push(String::from_str("Deception"));
    skills.push(String::from_str("Intimidation"));
    skills.push(String::from_str("Performance"));
    skills.push(String::from_str("Persuasion"));
    assert(strings(skills@) =~= skill_list());
    skills
}

/// The number that a count word stands for.
pub fn count_of(word: &str) -> (count: i32)
    ensures
        count == choice_count(word@),
{
    if same_text(word, "two") || same_text(word, "two skills") {
        2
    } else if same_text(word, "three") {
        3
    } else if same_text(word, "four") {
        4
    } else {
        0
    }
}

/// The skills that a list names.
pub fn skills_listed(list: &str) -> (skills: Vec<String>)
    ensures
        strings(skills@) == listed_skills(list@),
{
    let text = chars_of(list);
    let spaced = replace(&text, &chars_of(" and "), &chars_of(" "));
    let pieces = split(&spaced, &chars_of(","));
    let mut skills: Vec<String> = Vec::new();
    let mut i: usize = 0;
    while i < pieces.len()
        invariant
            i <= pieces.len(),
            skills.len() == i,
            forall|j: int| 0 <= j < i ==> skills[j]@ == trim_spec(pieces[j]@),
        decreases pieces.len() - i,
    {
        skills.push(string_of(&trim(&pieces[i])));
        i += 1;
    }
    assert(strings(skills@) =~= listed_skills(list@)) by {
        assert forall|j: int| 0 <= j < pieces.len() implies texts(pieces@)[j] == pieces[j]@ by {}
    }
    skills
}

/// The visible level-one feature "Class Skills" that offers `num_choices` of
/// `skills`.
pub fn skills_option(desc: &str, source_slug: &str, num_choices: i32, skills: &Vec<String>) -> (feature:
    Feature)
    ensures
        feature@ == skills_feature(desc@, source_slug@, num_choices as int, strings(skills@)),
{
    let mut feature = Feature {
        name: String::from_str("Class Skills"),
        desc: String::from_str(desc),
        level: 1,
        feature_type: FeatureType::Plain,
        source_slug: String::from_str(source_slug),
        hidden: false,
    };
    let group_slug = feature.feature_slug();
    let mut options: Vec<Feature> = Vec::new();
    let mut i: usize = 0;
    while i < skills.len()
        invariant
            i <= skills.len(),
            options.len() == i,
            group_slug@ == feature_slug_of(source_slug@, "Class Skills"@),
            forall|j: int| 0 <= j < i ==> options[j]@ == skill_feature(skills[j]@, group_slug@),
        decreases skills.len() - i,
    {
        options.push(Feature::new_skill(skills[i].as_str(), group_slug.as_str()));
        i += 1;
    }
    let group = FeatureOptions { num_choices, options };
    proof {
        assert(group@.options =~= skill_options(strings(skills@), group_slug@));
    }
    feature.feature_type = FeatureType::Option(group);
    feature
}

/// The feature that the skill text of a class gives, where `captured` is
/// what the pattern for a choice from a list captures in it.
pub fn skill_choice(prof_skills: &str, source_slug: &str, captured: &Option<Vec<Option<String>>>) -> (feature:
    Option<Feature>)
    ensures
        optional_view(feature) == class_skills(prof_skills@, source_slug@, captured.deep_view()),
{
    if same_text(prof_skills, "Choose any three") {
        let skills = all_skills();
        Some(skills_option(prof_skills, source_slug, 3, &skills))
    } else {
        match captured {
            Some(groups) => {
                let count = match group_of(groups, 1) {
                    Some(word) => count_of(word.as_str()),
                    None => 0,
                };
                let skills = match group_of(groups, 2) {
                    Some(list) => skills_listed(list.as_str()),
                    None => Vec::new(),
                };
                proof {
                    assert(group_at(groups.deep_view(), 2) is None ==> strings(skills@)
                        =~= Seq::<Seq<char>>::empty());
                }
                Some(skills_option(prof_skills, source_slug, count, &skills))
            },
            None => None,
        }
    }
}

/// The saving throw features of a class whose record lists
/// `prof_saving_throws`.
pub fn saving_throws(prof_saving_throws: &str, source_slug: &str) -> (features: Vec<Feature>)
    ensures
        feature_views(features@) == class_saves(prof_saving_throws@, source_slug@),
{
    let text = chars_of(prof_saving_throws);
    let words = split_whitespace(&text);
    let comma = chars_of(",");
    let nothing = chars_of("");
    let mut features: Vec<Feature> = Vec::new();
    let mut i: usize = 0;
    proof {
        assert(feature_views(features@) =~= Seq::<FeatureView>::empty());
    }
    while i < words.len()
        invariant
            i <= words.len(),
            comma@ == ","@,
            nothing@ == ""@,
            texts(words@) == words_spec(prof_saving_throws@),
            feature_views(features@) == save_features(
                texts(words@).subrange(0, i as int),
                source_slug@,
            ),
        decreases words.len() - i,
    {
        proof {
            let upto = texts(words@).subrange(0, i + 1);
            assert(upto.drop_last() =~= texts(words@).subrange(0, i as int));
            assert(upto.last() == words[i as int]@);
        }
        let word = string_of(&replace(&words[i], &comma, &nothing));
        if let Some(ability) = Ability::from_string(word.as_str()) {
            let head = join_text("You have proficiency in ", word.as_str());
            let feature = Feature {
                name: join_text(word.as_str(), " Saving Throw"),
                desc: join_text(head.as_str(), " saving throws."),
                level: 1,
                feature_type: FeatureType::SavingThrow(ability),
                source_slug: String::from_str(source_slug),
                hidden: true,
            };
            proof {
                assert(feature_views(features@.push(feature)) =~= feature_views(features@).push(
                    feature@,
                ));
            }
            features.push(feature);
        }
        i += 1;
    }
    proof {
        assert(texts(words@).subrange(0, words.len() as int) =~= texts(words@));
    }
    features
}

/// Whether every feature of `features` has a level, which is to say one
/// other than 0.
pub open spec fn all_leveled(features: Seq<FeatureView>) -> bool {
    forall|i: int| 0 <= i < features.len() ==> (#[trigger] features[i]).level != 0
}

/// Reading a narrative leaves no feature without a level.
pub proof fn lemma_narrative_leveled(
    paragraphs: Seq<Seq<char>>,
    source_slug: Seq<char>,
    k: int,
    state: NarrativeState,
)
    requires
        all_leveled(state.done),
    ensures
        narrative_scan(paragraphs, source_slug, k, state) matches Ok(features) ==> all_leveled(
            features,
        ),
    decreases paragraphs.len() - k,
{
    if 0 <= k < paragraphs.len() {
        if is_header(paragraphs[k]) {
            lemma_narrative_leveled(
                paragraphs,
                source_slug,
                k + 1,
                narrative_step(state, paragraphs[k], None, source_slug),
            );
        } else {
            match announced_level(paragraphs[k]) {
                Err(_) => {},
                Ok(announced) => {
                    lemma_narrative_leveled(
                        paragraphs,
                        source_slug,
                        k + 1,
                        narrative_step(state, paragraphs[k], announced, source_slug),
                    );
                },
            }
        }
    }
}

/// Saving throw features are of level one.
pub proof fn lemma_saves_leveled(words: Seq<Seq<char>>, source_slug: Seq<char>)
    ensures
        forall|i: int|
            0 <= i < save_features(words, source_slug).len() ==> (#[trigger] save_features(
                words,
                source_slug,
            )[i]).level == 1,
    decreases words.len(),
{
    if words.len() > 0 {
        lemma_saves_leveled(words.drop_last(), source_slug);
    }
}

/// Every feature of a class has a level: where the narrative announces none
/// for a feature, the feature is of level one.
pub proof fn lemma_class_features_leveled(class: &Class)
    ensures
        class.features_spec() matches Ok(features) ==> all_leveled(features),
{
    let source = class_source(class.slug@);
    match class_narrative(class.desc@, source) {
        Err(_) => {},
        Ok(narrative) => {
            let skills = class_skills(
                class.prof_skills@,
                source,
                regex_captures(skill_choice_pattern(), class.prof_skills@),
            );
            let saves = class_saves(class.prof_saving_throws@, source);
            let unsorted = class_features_unsorted(skills, narrative, saves);
            lemma_narrative_leveled(
                class_paragraphs(class.desc@),
                source,
                0,
                initial_state(source),
            );
            lemma_saves_leveled(words_spec(class.prof_saving_throws@), source);
            assert(all_leveled(unsorted));
            lemma_sort_members(unsorted);
            let sorted = sort_by_level(unsorted);
            assert forall|i: int| 0 <= i < sorted.len() implies (#[trigger] sorted[i]).level
                != 0 by {
                let j = choose|j: int| 0 <= j < unsorted.len() && unsorted[j] == sorted[i];
            }
        },
    }
}

} // verus!
