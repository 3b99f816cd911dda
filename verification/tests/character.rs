use char_sheet::api::api_model::Weapon;
use char_sheet::character_model::{
    level_to_xp, same_ability, xp_to_level, Ability, AbilityScores, AttackAction, AttackType,
    CharacterAsi, CharacterDetails,
};

#[test]
fn abilities_by_name() {
    assert_eq!(Ability::from_string("strength"), Some(Ability::Strength));
    assert_eq!(Ability::from_string("Dexterity"), Some(Ability::Dexterity));
    assert_eq!(Ability::from_string("CONSTITUTION"), Some(Ability::Constitution));
    assert_eq!(Ability::from_string("wIsDoM"), Some(Ability::Wisdom));
    assert_eq!(Ability::from_string("intelligence"), Some(Ability::Intelligence));
    assert_eq!(Ability::from_string("charisma"), Some(Ability::Charisma));
    assert_eq!(Ability::from_string("str"), None);
    assert_eq!(Ability::from_string(" strength"), None);
    assert_eq!(Ability::from_string(""), None);
    assert_eq!(Ability::from_uppercase("WISDOM"), Some(Ability::Wisdom));
    assert_eq!(Ability::from_uppercase("wisdom"), None);
}

#[test]
fn names_of_abilities() {
    assert_eq!(Ability::Strength.to_string(), "Strength");
    assert_eq!(Ability::Dexterity.to_string(), "Dexterity");
    assert_eq!(Ability::Constitution.to_string(), "Constitution");
    assert_eq!(Ability::Wisdom.to_string(), "Wisdom");
    assert_eq!(Ability::Intelligence.to_string(), "Intelligence");
    assert_eq!(Ability::Charisma.to_string(), "Charisma");
    assert!(same_ability(Ability::Wisdom, Ability::Wisdom));
    assert!(!same_ability(Ability::Wisdom, Ability::Charisma));
}

#[test]
fn levels_by_experience() {
    assert_eq!(xp_to_level(i32::MIN), 1);
    assert_eq!(xp_to_level(0), 1);
    assert_eq!(xp_to_level(299), 1);
    assert_eq!(xp_to_level(300), 2);
    assert_eq!(xp_to_level(899), 2);
    assert_eq!(xp_to_level(900), 3);
    assert_eq!(xp_to_level(6500), 5);
    assert_eq!(xp_to_level(84999), 10);
    assert_eq!(xp_to_level(85000), 11);
    assert_eq!(xp_to_level(354999), 19);
    assert_eq!(xp_to_level(355000), 20);
    assert_eq!(xp_to_level(i32::MAX), 20);
}

#[test]
fn experience_by_level() {
    assert_eq!(level_to_xp(i32::MIN), 0);
    assert_eq!(level_to_xp(1), 0);
    assert_eq!(level_to_xp(2), 300);
    assert_eq!(level_to_xp(5), 6500);
    assert_eq!(level_to_xp(12), 100000);
    assert_eq!(level_to_xp(19), 305000);
    assert_eq!(level_to_xp(20), 355000);
    assert_eq!(level_to_xp(i32::MAX), 355000);
    for level in 1..=20 {
        assert_eq!(xp_to_level(level_to_xp(level)), level);
    }
    assert_eq!(xp_to_level(level_to_xp(0)), 1);
    assert_eq!(xp_to_level(level_to_xp(25)), 20);
}

#[test]
fn modifiers_round_toward_zero() {
    assert_eq!(AbilityScores::score_to_mod(10), 0);
    assert_eq!(AbilityScores::score_to_mod(11), 0);
    assert_eq!(AbilityScores::score_to_mod(12), 1);
    assert_eq!(AbilityScores::score_to_mod(15), 2);
    assert_eq!(AbilityScores::score_to_mod(20), 5);
    assert_eq!(AbilityScores::score_to_mod(9), 0);
    assert_eq!(AbilityScores::score_to_mod(8), -1);
    assert_eq!(AbilityScores::score_to_mod(7), -1);
    assert_eq!(AbilityScores::score_to_mod(1), -4);
    assert_eq!(AbilityScores::score_to_mod(i32::MIN + 10), i32::MIN / 2);
    assert_eq!(AbilityScores::score_to_mod(i32::MAX), (i32::MAX - 10) / 2);
}

#[test]
fn scores_start_at_ten() {
    let scores = AbilityScores::new();
    assert_eq!(
        scores,
        AbilityScores {
            base_str: 10,
            base_dex: 10,
            base_con: 10,
            base_wis: 10,
            base_int: 10,
            base_cha: 10
        }
    );
    assert_eq!(AbilityScores::default(), scores);
    let scores = AbilityScores {
        base_str: 1,
        base_dex: 2,
        base_con: 3,
        base_wis: 4,
        base_int: 5,
        base_cha: 6,
    };
    assert_eq!(scores.base(Ability::Strength), 1);
    assert_eq!(scores.base(Ability::Dexterity), 2);
    assert_eq!(scores.base(Ability::Constitution), 3);
    assert_eq!(scores.base(Ability::Wisdom), 4);
    assert_eq!(scores.base(Ability::Intelligence), 5);
    assert_eq!(scores.base(Ability::Charisma), 6);
    assert_eq!(scores.score(Ability::Charisma, &vec![]), Some(6));
}

#[test]
fn a_new_character() {
    let c = CharacterDetails::new();
    assert_eq!(c.name, "");
    assert_eq!(c.class, "");
    assert_eq!(c.background, "");
    assert_eq!(c.species, "");
    assert_eq!(c.subspecies, "");
    assert_eq!(c.xp, 0);
    assert_eq!(c.base_hp(), 0);
    assert_eq!(c.ability_scores, AbilityScores::new());
    assert_eq!(c.level(), 1);
    assert_eq!(c.prof_bonus(), 2);
    assert_eq!(CharacterDetails::default().xp, 0);
}

#[test]
fn proficiency_bonus_by_level() {
    let mut c = CharacterDetails::new();
    let expected = [2, 2, 2, 2, 3, 3, 3, 3, 4, 4, 4, 4, 5, 5, 5, 5, 6, 6, 6, 6];
    for level in 1..=20 {
        c.set_level(level);
        assert_eq!(c.level(), level);
        assert_eq!(c.prof_bonus(), expected[(level - 1) as usize]);
    }
    c.set_level(0);
    assert_eq!(c.level(), 1);
    c.set_level(30);
    assert_eq!(c.level(), 20);
    assert_eq!(c.xp, 355000);
}

#[test]
fn changing_the_species_forgets_the_subspecies() {
    let mut c = CharacterDetails::new();
    c.species = "elf".to_string();
    c.subspecies = "high-elf".to_string();
    c.name = "Ada".to_string();
    c.set_base_hp(12);
    c.change_species("orc".to_string());
    assert_eq!(c.species, "orc");
    assert_eq!(c.subspecies, "");
    assert_eq!(c.name, "Ada");
    assert_eq!(c.base_hp(), 12);
    assert_eq!(c.base_hp, 12);
}

#[test]
fn an_increase() {
    let asi = CharacterAsi::new("elf".to_string(), Ability::Dexterity, 2);
    assert_eq!(
        asi,
        CharacterAsi { score: Ability::Dexterity, source_slug: "elf".to_string(), amount: 2 }
    );
    assert_eq!(asi.clone(), asi);
}

fn weapon(category: &str, properties: Option<Vec<&str>>) -> Weapon {
    Weapon {
        name: "Rapier".to_string(),
        category: category.to_string(),
        damage_dice: "1d8".to_string(),
        damage_type: "piercing".to_string(),
        properties: properties.map(|p| p.iter().map(|s| s.to_string()).collect()),
        ..Default::default()
    }
}

#[test]
fn properties_of_weapons() {
    let w = weapon("Martial Melee Weapons", Some(vec!["finesse", "light"]));
    assert!(w.is_finesse());
    assert!(w.is_light());
    assert!(!w.is_reach());
    assert!(!w.is_ranged());
    assert!(w.has_property("light"));
    assert!(!w.has_property("ligh"));
    let w = weapon("Simple Ranged Weapons", None);
    assert!(!w.is_finesse());
    assert!(!w.is_light());
    assert!(!w.is_reach());
    assert!(w.is_ranged());
    let w = weapon("ranged", Some(vec!["reach (10 ft.)", "Finesse"]));
    assert!(!w.is_reach());
    assert!(!w.is_finesse());
    assert!(!w.is_ranged());
}

#[test]
fn attacks_of_weapons() {
    let w = weapon("Martial Melee Weapons", Some(vec!["finesse"]));
    assert_eq!(
        w.to_attack(),
        AttackAction {
            name: "Rapier".to_string(),
            ability: Ability::Dexterity,
            damage_base: "1d8".to_string(),
            proficient: false,
            attack_type: AttackType::Melee,
            reach: 5,
            damage_type: "piercing".to_string(),
        }
    );
    let w = weapon("Martial Ranged Weapons", Some(vec!["reach"]));
    let attack = w.to_attack();
    assert_eq!(attack.ability, Ability::Strength);
    assert_eq!(attack.attack_type, AttackType::Ranged);
    assert_eq!(attack.reach, 10);
    assert_eq!(attack.clone(), attack);
}
