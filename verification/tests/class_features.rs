use char_sheet::api::api_extensions::{Feature, FeatureOptions, FeatureType, ParseError};
use char_sheet::api::api_model::Class;
use char_sheet::api::class::{
    all_skills, count_of, find_level_numeral, level_error, level_of_numeral, level_pattern_text,
    read_level, read_narrative, read_paragraph, saving_throws, skill_choice, skills_listed,
    LEVEL_PATTERN_COUNT,
};
use char_sheet::character_model::Ability;

fn class_with(slug: &str, desc: &str, skills: &str, saves: &str) -> Class {
    Class {
        slug: slug.to_string(),
        desc: desc.to_string(),
        prof_skills: skills.to_string(),
        prof_saving_throws: saves.to_string(),
        ..Default::default()
    }
}

fn plain(name: &str, desc: &str, level: i32, source_slug: &str) -> Feature {
    Feature {
        name: name.to_string(),
        desc: desc.to_string(),
        level,
        feature_type: FeatureType::Plain,
        source_slug: source_slug.to_string(),
        hidden: false,
    }
}

fn skill(name: &str, group_slug: &str) -> Feature {
    Feature {
        name: format!("Skill: {}", name),
        desc: String::new(),
        level: 1,
        feature_type: FeatureType::SkillProficency(name.to_string()),
        source_slug: group_slug.to_string(),
        hidden: true,
    }
}

fn save(word: &str, ability: Ability, source_slug: &str) -> Feature {
    Feature {
        name: format!("{} Saving Throw", word),
        desc: format!("You have proficiency in {} saving throws.", word),
        level: 1,
        feature_type: FeatureType::SavingThrow(ability),
        source_slug: source_slug.to_string(),
        hidden: true,
    }
}

#[test]
fn tiers_of_one_header_split_by_level() {
    let class = class_with(
        "barbarian",
        "### Rage\n\nAt 1st level, you can enter a rage.\n\nAt 6th level, your rage improves.",
        "",
        "",
    );
    let features = class.features().unwrap();
    assert_eq!(
        features,
        vec![
            plain("Rage", "At 1st level, you can enter a rage.", 1, "class:barbarian"),
            plain("Rage", "At 6th level, your rage improves.", 6, "class:barbarian"),
        ]
    );
}

#[test]
fn a_header_is_named_by_its_first_line() {
    let class = class_with(
        "barbarian",
        "### Rage\nYou can enter a rage.\n\nAt 6th level, your rage improves.",
        "",
        "",
    );
    let features = class.features().unwrap();
    assert_eq!(
        features,
        vec![plain(
            "Rage",
            "You can enter a rage.\n\nAt 6th level, your rage improves.",
            6,
            "class:barbarian"
        )]
    );
}

#[test]
fn the_lines_after_a_header_line_begin_the_description() {
    let mut done: Vec<Feature> = Vec::new();
    let current = plain("", "dropped", 0, "class:x");
    let line: Vec<char> = "### Rage ### \n You can rage. \nMore.\n".chars().collect();
    let next = read_paragraph(&mut done, current, &line, None, "class:x");
    assert!(done.is_empty());
    assert_eq!(next, plain("Rage", "You can rage. \nMore.", 0, "class:x"));

    let line: Vec<char> = "### Rage\n".chars().collect();
    let next = read_paragraph(&mut done, plain("", "", 0, "class:x"), &line, None, "class:x");
    assert_eq!(next, plain("Rage", "", 0, "class:x"));

    let class = class_with(
        "barbarian",
        "### Rage\nAt 3rd level, you rage.\n\nAt 6th level, more.",
        "",
        "",
    );
    assert_eq!(
        class.features().unwrap(),
        vec![plain("Rage", "At 3rd level, you rage.\n\nAt 6th level, more.", 6, "class:barbarian")]
    );
}

#[test]
fn first_announcement_sets_the_level_without_a_split() {
    let class = class_with(
        "barbarian",
        "### Rage\n\nYou can enter a rage.\n\nAt 6th level, your rage improves.",
        "",
        "",
    );
    let features = class.features().unwrap();
    assert_eq!(
        features,
        vec![plain(
            "Rage",
            "You can enter a rage.\n\nAt 6th level, your rage improves.",
            6,
            "class:barbarian"
        )]
    );
}

#[test]
fn lines_of_one_space_count_as_blank() {
    let class = class_with(
        "barbarian",
        "### Rage \n \nIn battle, you fight.\n\n### Danger Sense \n \nAt 2nd level, you gain an edge.",
        "",
        "",
    );
    let features = class.features().unwrap();
    assert_eq!(
        features,
        vec![
            plain("Rage", "In battle, you fight.", 1, "class:barbarian"),
            plain("Danger Sense", "At 2nd level, you gain an edge.", 2, "class:barbarian"),
        ]
    );
}

#[test]
fn empty_narrative_leaves_one_unnamed_feature() {
    let class = class_with("monk", "", "", "");
    assert_eq!(class.features().unwrap(), vec![plain("", "", 1, "class:monk")]);
}

#[test]
fn text_before_the_first_header_is_dropped_with_its_feature() {
    let class = class_with("monk", "Preface.\n\n### Ki\n\nYou have ki.", "", "");
    assert_eq!(class.features().unwrap(), vec![plain("Ki", "You have ki.", 1, "class:monk")]);
}

#[test]
fn features_come_by_level_and_keep_their_order_within_one() {
    let class = class_with(
        "bard",
        "### Late\n\nAt 3rd level, something.\n\n### Early\n\nText.",
        "Choose any three",
        "Dexterity, Charisma",
    );
    let features = class.features().unwrap();
    let names: Vec<&str> = features.iter().map(|f| f.name.as_str()).collect();
    assert_eq!(
        names,
        vec![
            "Class Skills",
            "Early",
            "Dexterity Saving Throw",
            "Charisma Saving Throw",
            "Late"
        ]
    );
    let levels: Vec<i32> = features.iter().map(|f| f.level).collect();
    assert_eq!(levels, vec![1, 1, 1, 1, 3]);
}

#[test]
fn each_way_of_announcing_a_level_is_read() {
    assert_eq!(read_level("At 3rd level, you gain."), Ok(Some(3)));
    assert_eq!(read_level("When you reach 4th level, you gain."), Ok(Some(4)));
    assert_eq!(read_level("Starting at 2nd level, you gain."), Ok(Some(2)));
    assert_eq!(read_level("By 11th level, you gain."), Ok(Some(11)));
    assert_eq!(read_level("Beginning at 14th level, you gain."), Ok(Some(14)));
    assert_eq!(read_level("Beginning when you reach 20th level, you gain."), Ok(Some(20)));
    assert_eq!(read_level("You gain nothing."), Ok(None));
    assert_eq!(read_level("At level 3 you gain."), Ok(None));
}

#[test]
fn the_first_pattern_that_matches_gives_the_numeral() {
    assert_eq!(
        find_level_numeral("By 5th level you are strong. At 7th level more so."),
        Some("7".to_string())
    );
    assert_eq!(
        find_level_numeral("Starting at 9th level, x."),
        Some("9".to_string())
    );
    assert_eq!(find_level_numeral("nothing"), None);
}

#[test]
fn there_are_six_patterns() {
    assert_eq!(LEVEL_PATTERN_COUNT, 6);
    assert_eq!(level_pattern_text(0), "At ([0-9]{1,2})[a-zA-Z]{1,2} level");
    assert_eq!(
        level_pattern_text(5),
        "Beginning when you reach ([0-9]{1,2})[a-zA-Z]{1,2} level"
    );
}

#[test]
fn a_numeral_that_is_no_number_is_an_error() {
    assert_eq!(level_of_numeral(Some("12".to_string())), Ok(Some(12)));
    assert_eq!(level_of_numeral(None), Ok(None));
    assert_eq!(level_of_numeral(Some("x1".to_string())), Err("x1".to_string()));
    assert_eq!(level_of_numeral(Some("".to_string())), Err("".to_string()));
    assert_eq!(
        level_error("class:monk", "x1"),
        ParseError {
            source_slug: "class:monk".to_string(),
            reason: "Parsed a non-numeric level: x1".to_string(),
        }
    );
}

#[test]
fn numerals_are_signed_decimal_integers() {
    assert_eq!(level_of_numeral(Some("+5".to_string())), Ok(Some(5)));
    assert_eq!(level_of_numeral(Some("-0".to_string())), Ok(Some(0)));
    assert_eq!(level_of_numeral(Some("007".to_string())), Ok(Some(7)));
    assert_eq!(level_of_numeral(Some("-12".to_string())), Ok(Some(-12)));
    assert_eq!(level_of_numeral(Some("2147483647".to_string())), Ok(Some(i32::MAX)));
    assert_eq!(level_of_numeral(Some("-2147483648".to_string())), Ok(Some(i32::MIN)));
    for text in
        ["2147483648", "-2147483649", " 5", "5 ", "+", "-", "--5", "+-5", "1_000", "5a", "\u{663}", "1.0"]
    {
        assert_eq!(level_of_numeral(Some(text.to_string())), Err(text.to_string()));
    }
}

#[test]
fn a_paragraph_with_a_level_after_a_level_opens_a_new_tier() {
    let mut done: Vec<Feature> = Vec::new();
    let current = plain("Rage", "First.", 1, "class:barbarian");
    let line: Vec<char> = " At 6th level, more. ".chars().collect();
    let next = read_paragraph(&mut done, current, &line, Some(6), "class:barbarian");
    assert_eq!(done, vec![plain("Rage", "First.", 1, "class:barbarian")]);
    assert_eq!(next, plain("Rage", "At 6th level, more.", 6, "class:barbarian"));
}

#[test]
fn a_paragraph_without_a_level_is_added_after_a_blank_line() {
    let mut done: Vec<Feature> = Vec::new();
    let current = plain("Rage", "First.", 0, "class:barbarian");
    let line: Vec<char> = "Second.".chars().collect();
    let next = read_paragraph(&mut done, current, &line, None, "class:barbarian");
    assert!(done.is_empty());
    assert_eq!(next, plain("Rage", "First.\n\nSecond.", 0, "class:barbarian"));
}

#[test]
fn a_header_closes_the_named_feature_at_level_one() {
    let mut done: Vec<Feature> = Vec::new();
    let current = plain("Rage", "First.", 0, "class:barbarian");
    let line: Vec<char> = "### Danger Sense ".chars().collect();
    let next = read_paragraph(&mut done, current, &line, Some(9), "class:barbarian");
    assert_eq!(done, vec![plain("Rage", "First.", 1, "class:barbarian")]);
    assert_eq!(next, plain("Danger Sense", "", 0, "class:barbarian"));
}

#[test]
fn narrative_alone() {
    let features = read_narrative("### A\n\nStarting at 2nd level, a.", "class:x").unwrap();
    assert_eq!(features, vec![plain("A", "Starting at 2nd level, a.", 2, "class:x")]);
}

#[test]
fn any_three_offers_every_skill() {
    let class = class_with("bard", "", "Choose any three", "");
    let features = class.features().unwrap();
    assert_eq!(features.len(), 2);
    let group_slug = "class:bard:class_skills";
    let names = [
        "Athletics",
        "Acrobatics",
        "Sleight of Hand",
        "Stealth",
        "Arcana",
        "History",
        "Investigation",
        "Nature",
        "Religion",
        "Animal Handling",
        "Insight",
        "Medicine",
        "Perception",
        "Survival",
        "Deception",
        "Intimidation",
        "Performance",
        "Persuasion",
    ];
    let options: Vec<Feature> = names.iter().map(|n| skill(n, group_slug)).collect();
    assert_eq!(
        features[0],
        Feature {
            name: "Class Skills".to_string(),
            desc: "Choose any three".to_string(),
            level: 1,
            feature_type: FeatureType::Option(FeatureOptions { num_choices: 3, options }),
            source_slug: "class:bard".to_string(),
            hidden: false,
        }
    );
    assert_eq!(all_skills().len(), 18);
}

#[test]
fn a_choice_from_a_list_offers_the_listed_skills() {
    let class = class_with(
        "fighter",
        "",
        "Choose two from Athletics, Stealth, and Deception",
        "",
    );
    let features = class.features().unwrap();
    let group_slug = "class:fighter:class_skills";
    assert_eq!(
        features[0],
        Feature {
            name: "Class Skills".to_string(),
            desc: "Choose two from Athletics, Stealth, and Deception".to_string(),
            level: 1,
            feature_type: FeatureType::Option(FeatureOptions {
                num_choices: 2,
                options: vec![
                    skill("Athletics", group_slug),
                    skill("Stealth", group_slug),
                    skill("Deception", group_slug),
                ],
            }),
            source_slug: "class:fighter".to_string(),
            hidden: false,
        }
    );
}

#[test]
fn an_and_without_a_comma_joins_two_skills() {
    let class = class_with(
        "fighter",
        "",
        "Choose two from Athletics, Stealth and Deception",
        "",
    );
    let features = class.features().unwrap();
    match &features[0].feature_type {
        FeatureType::Option(group) => {
            assert_eq!(group.num_choices, 2);
            let skills: Vec<&str> = group
                .options
                .iter()
                .map(|f| match &f.feature_type {
                    FeatureType::SkillProficency(s) => s.as_str(),
                    _ => "",
                })
                .collect();
            assert_eq!(skills, vec!["Athletics", "Stealth Deception"]);
        }
        _ => panic!("the first feature is the skill choice"),
    }
    assert_eq!(
        skills_listed("Athletics, Stealth and Deception"),
        vec!["Athletics".to_string(), "Stealth Deception".to_string()]
    );
}

#[test]
fn count_words() {
    assert_eq!(count_of("two"), 2);
    assert_eq!(count_of("two skills"), 2);
    assert_eq!(count_of("three"), 3);
    assert_eq!(count_of("four"), 4);
    assert_eq!(count_of("five"), 0);
    let class = class_with("ranger", "", "Choose three from Insight, Nature", "");
    match &class.features().unwrap()[0].feature_type {
        FeatureType::Option(group) => assert_eq!(group.num_choices, 3),
        _ => panic!("the first feature is the skill choice"),
    }
    let class = class_with("rogue", "", "Choose two skills from Insight, Nature", "");
    match &class.features().unwrap()[0].feature_type {
        FeatureType::Option(group) => {
            assert_eq!(group.num_choices, 2);
            assert_eq!(group.options.len(), 2);
        }
        _ => panic!("the first feature is the skill choice"),
    }
}

#[test]
fn skill_choice_by_what_was_captured() {
    assert_eq!(skill_choice("None", "class:x", &None), None);
    let captured = Some(vec![
        Some("Choose four from A,B".to_string()),
        Some("four".to_string()),
        Some("A,B".to_string()),
    ]);
    let feature = skill_choice("Choose four from A,B", "class:x", &captured).unwrap();
    match feature.feature_type {
        FeatureType::Option(group) => {
            assert_eq!(group.num_choices, 4);
            assert_eq!(
                group.options,
                vec![skill("A", "class:x:class_skills"), skill("B", "class:x:class_skills")]
            );
        }
        _ => panic!("a skill choice is an option group"),
    }
    let missing = Some(vec![Some("whole".to_string()), None]);
    let feature = skill_choice("whatever", "class:x", &missing).unwrap();
    match feature.feature_type {
        FeatureType::Option(group) => {
            assert_eq!(group.num_choices, 0);
            assert!(group.options.is_empty());
        }
        _ => panic!("a skill choice is an option group"),
    }
}

#[test]
fn text_that_is_no_choice_gives_no_skill_feature() {
    let class = class_with("monk", "", "Pick whatever you like", "");
    assert_eq!(class.features().unwrap(), vec![plain("", "", 1, "class:monk")]);
}

#[test]
fn saving_throws_of_the_named_abilities() {
    assert_eq!(
        saving_throws("Strength, Constitution", "class:barbarian"),
        vec![
            save("Strength", Ability::Strength, "class:barbarian"),
            save("Constitution", Ability::Constitution, "class:barbarian"),
        ]
    );
    assert_eq!(
        saving_throws("  wisdom  and\tCHARISMA ", "class:x"),
        vec![
            save("wisdom", Ability::Wisdom, "class:x"),
            save("CHARISMA", Ability::Charisma, "class:x"),
        ]
    );
    assert!(saving_throws("", "class:x").is_empty());
}

#[test]
fn base_hit_points_are_the_first_word() {
    let mut class = Class::default();
    class.hp_at_1st_level = "12 + your Constitution modifier".to_string();
    assert_eq!(class.base_hp(), 12);
    class.hp_at_1st_level = "8".to_string();
    assert_eq!(class.base_hp(), 8);
    class.hp_at_1st_level = "twelve".to_string();
    assert_eq!(class.base_hp(), 0);
    class.hp_at_1st_level = " 12".to_string();
    assert_eq!(class.base_hp(), 0);
    class.hp_at_1st_level = String::new();
    assert_eq!(class.base_hp(), 0);
}
