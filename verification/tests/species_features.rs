use char_sheet::api::api_extensions::{Feature, FeatureType};
use char_sheet::api::api_model::{ApiAsi, Species, Subspecies};
use char_sheet::api::species::{
    asi_features, new_trait, read_trait_paragraph, read_traits, trait_features,
};
use char_sheet::character_model::{Ability, CharacterAsi};
use char_sheet::derived::get_current_asis;

fn entry(attributes: &[&str], value: i32) -> ApiAsi {
    ApiAsi { attributes: attributes.iter().map(|a| a.to_string()).collect(), value }
}

fn trait_of(name: &str, desc: &str, source_slug: &str) -> Feature {
    Feature {
        name: name.to_string(),
        desc: desc.to_string(),
        level: 1,
        feature_type: FeatureType::Plain,
        source_slug: source_slug.to_string(),
        hidden: false,
    }
}

fn increase(ability: Ability, amount: i32, slug: &str, asi_desc: &str, source_slug: &str) -> Feature {
    Feature {
        name: "Ability Score Increase".to_string(),
        desc: asi_desc.to_string(),
        level: 1,
        feature_type: FeatureType::Asi(CharacterAsi {
            score: ability,
            source_slug: slug.to_string(),
            amount,
        }),
        source_slug: source_slug.to_string(),
        hidden: true,
    }
}

#[test]
fn traits_under_titles_in_bold_italics() {
    let species = Species {
        slug: "elf".to_string(),
        asi_desc: "Your Strength score increases by 2.".to_string(),
        asi: vec![entry(&["Strength"], 2)],
        traits: "***Darkvision.*** You can see in the dark.\n\n**_Keen Senses._** You have proficiency.\n\nMore text.".to_string(),
        ..Default::default()
    };
    assert_eq!(
        species.features(),
        vec![
            increase(
                Ability::Strength,
                2,
                "elf",
                "Your Strength score increases by 2.",
                "species:elf"
            ),
            trait_of("Darkvision.", " You can see in the dark.", "species:elf"),
            trait_of("Keen Senses.", " You have proficiency.More text.", "species:elf"),
        ]
    );
}

#[test]
fn one_hidden_feature_for_each_increase() {
    let species = Species {
        slug: "human".to_string(),
        asi: vec![
            entry(&["Strength"], 2),
            entry(&["Dexterity", "nonsense", "strength"], 1),
            entry(&[], 5),
        ],
        ..Default::default()
    };
    let features = species.features();
    assert_eq!(
        features,
        vec![
            increase(Ability::Strength, 2, "human", "", "species:human"),
            increase(Ability::Dexterity, 1, "human", "", "species:human"),
            increase(Ability::Strength, 1, "human", "", "species:human"),
        ]
    );
    let asis = get_current_asis(&features);
    let strength: i32 =
        asis.iter().filter(|a| a.score == Ability::Strength).map(|a| a.amount).sum();
    let dexterity: i32 =
        asis.iter().filter(|a| a.score == Ability::Dexterity).map(|a| a.amount).sum();
    assert_eq!(strength, 3);
    assert_eq!(dexterity, 1);
}

#[test]
fn strength_by_two() {
    let species = Species {
        slug: "orc".to_string(),
        asi: vec![entry(&["Strength"], 2)],
        ..Default::default()
    };
    let features = species.features();
    assert_eq!(features.len(), 1);
    assert!(features[0].hidden);
    assert_eq!(
        get_current_asis(&features),
        vec![CharacterAsi { score: Ability::Strength, source_slug: "orc".to_string(), amount: 2 }]
    );
}

#[test]
fn text_before_the_first_title_is_dropped() {
    let features = read_traits("Intro.\n\n***Size.*** Medium.", "species:x");
    assert_eq!(features, vec![trait_of("Size.", " Medium.", "species:x")]);
}

#[test]
fn a_title_starts_a_trait_with_the_text_behind_it() {
    let species = Species {
        slug: "elf".to_string(),
        asi: vec![],
        traits: "Intro.\n\n***A***b\n\nc".to_string(),
        ..Default::default()
    };
    let features = species.features();
    assert_eq!(features.len(), 1);
    assert_eq!(features[0].name, "A");
    assert_eq!(features[0].desc, "bc");
    let subspecies = Subspecies {
        slug: "wood-elf".to_string(),
        traits: "Intro.\n\n***A***b\n\nc".to_string(),
        ..Default::default()
    };
    assert_eq!(subspecies.features(), vec![trait_of("A", "bc", "subspecies:wood-elf")]);
}

#[test]
fn a_titled_paragraph_drops_what_was_gathered_under_no_name() {
    let mut done: Vec<Feature> = Vec::new();
    let current = trait_of("", "Intro.", "species:x");
    let captured = Some(vec![
        Some("***A***b".to_string()),
        Some("A".to_string()),
        Some("b".to_string()),
    ]);
    let next = read_trait_paragraph(&mut done, current, "***A***b", &captured, "species:x");
    assert!(done.is_empty());
    assert_eq!(next, trait_of("A", "b", "species:x"));
}

#[test]
fn a_narrative_without_titles_has_no_traits() {
    assert!(read_traits("Just text.\n\nAnd more.", "species:x").is_empty());
    assert!(read_traits("", "species:x").is_empty());
}

#[test]
fn the_title_runs_to_the_last_closing_mark() {
    let features = read_traits("***A*** b ***c*** d", "species:x");
    assert_eq!(features, vec![trait_of("A*** b ***c", " d", "species:x")]);
}

#[test]
fn subspecies_features_carry_the_subspecies_source() {
    let subspecies = Subspecies {
        slug: "high-elf".to_string(),
        asi: vec![entry(&["Intelligence"], 1)],
        asi_desc: "Int +1".to_string(),
        traits: "**_Cantrip._** You know one cantrip.".to_string(),
        ..Default::default()
    };
    assert_eq!(
        subspecies.features(),
        vec![
            increase(Ability::Intelligence, 1, "high-elf", "Int +1", "subspecies:high-elf"),
            trait_of("Cantrip.", " You know one cantrip.", "subspecies:high-elf"),
        ]
    );
}

#[test]
fn a_titled_paragraph_closes_the_named_trait() {
    let mut done: Vec<Feature> = Vec::new();
    let current = trait_of("Old", "text", "species:x");
    let captured = Some(vec![
        Some("***New*** more".to_string()),
        Some("New".to_string()),
        Some(" more".to_string()),
    ]);
    let next = read_trait_paragraph(&mut done, current, "***New*** more", &captured, "species:x");
    assert_eq!(done, vec![trait_of("Old", "text", "species:x")]);
    assert_eq!(next, trait_of("New", " more", "species:x"));
}

#[test]
fn an_untitled_paragraph_is_run_on() {
    let mut done: Vec<Feature> = Vec::new();
    let current = trait_of("Old", "text", "species:x");
    let next = read_trait_paragraph(&mut done, current, "tail", &None, "species:x");
    assert!(done.is_empty());
    assert_eq!(next, trait_of("Old", "texttail", "species:x"));
}

#[test]
fn groups_that_are_missing_count_as_empty() {
    let mut done: Vec<Feature> = Vec::new();
    let current = trait_of("Old", "kept", "species:x");
    let captured = Some(vec![Some("whole".to_string()), None]);
    let next = read_trait_paragraph(&mut done, current, "whole", &captured, "species:x");
    assert_eq!(done, vec![trait_of("Old", "kept", "species:x")]);
    assert_eq!(next, trait_of("", "", "species:x"));
    assert_eq!(new_trait("species:x"), trait_of("", "", "species:x"));
}

#[test]
fn increases_then_traits() {
    let entries = vec![entry(&["Wisdom"], 1)];
    let features = trait_features(&entries, "s", "d", "***T*** x", "species:s");
    assert_eq!(
        features,
        vec![increase(Ability::Wisdom, 1, "s", "d", "species:s"), trait_of("T", " x", "species:s")]
    );
    assert_eq!(
        asi_features(&entries, "s", "d", "species:s"),
        vec![increase(Ability::Wisdom, 1, "s", "d", "species:s")]
    );
}

#[test]
fn entry_increases() {
    let asis = entry(&["Charisma", "xyz", "CONSTITUTION"], 3).get_asis("src");
    assert_eq!(
        asis,
        vec![
            CharacterAsi { score: Ability::Charisma, source_slug: "src".to_string(), amount: 3 },
            CharacterAsi {
                score: Ability::Constitution,
                source_slug: "src".to_string(),
                amount: 3
            },
        ]
    );
}
