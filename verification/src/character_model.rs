//! The character record: abilities, ability scores, experience and level.

use vstd::prelude::*;
use crate::text::{same_text, to_uppercase, uppercase_of};

verus! {

/// One of the six abilities.
#[derive(Clone, Copy, Debug, PartialEq, Eq, Hash, Structural)]
pub enum Ability {
    Strength,
    Dexterity,
    Constitution,
    Wisdom,
    Intelligence,
    Charisma,
}

/// The English name of an ability.
pub open spec fn ability_name(ability: Ability) -> Seq<char> {
    match ability {
        Ability::Strength => "Strength"@,
        Ability::Dexterity => "Dexterity"@,
        Ability::Constitution => "Constitution"@,
        Ability::Wisdom => "Wisdom"@,
        Ability::Intelligence => "Intelligence"@,
        Ability::Charisma => "Charisma"@,
    }
}

/// The ability whose name in capitals is `upper`, if there is one.
pub open spec fn ability_from_upper(upper: Seq<char>) -> Option<Ability> {
    if upper == "STRENGTH"@ {
        Some(Ability::Strength)
    } else if upper == "DEXTERITY"@ {
        Some(Ability::Dexterity)
    } else if upper == "CONSTITUTION"@ {
        Some(Ability::Constitution)
    } else if upper == "WISDOM"@ {
        Some(Ability::Wisdom)
    } else if upper == "INTELLIGENCE"@ {
        Some(Ability::Intelligence)
    } else if upper == "CHARISMA"@ {
        Some(Ability::Charisma)
    } else {
        None
    }
}

/// The ability that a text names, whatever its case.
pub open spec fn ability_named(text: Seq<char>) -> Option<Ability> {
    ability_from_upper(uppercase_of(text))
}

impl Ability {
    /// The English name of the ability.
    pub fn to_string(&self) -> (name: &'static str)
        ensures
            name@ == ability_name(*self),
    {
        match self {
            Ability::Strength => "Strength",
            Ability::Dexterity => "Dexterity",
            Ability::Constitution => "Constitution",
            Ability::Wisdom => "Wisdom",
            Ability::Intelligence => "Intelligence",
            Ability::Charisma => "Charisma",
        }
    }

    /// The ability whose name in capitals is exactly `upper`.
    pub fn from_uppercase(upper: &str) -> (ability: Option<Ability>)
        ensures
            ability == ability_from_upper(upper@),
    {
        if same_text(upper, "STRENGTH") {
            Some(Ability::Strength)
        } else if same_text(upper, "DEXTERITY") {
            Some(Ability::Dexterity)
        } else if same_text(upper, "CONSTITUTION") {
            Some(Ability::Constitution)
        } else if same_text(upper, "WISDOM") {
            Some(Ability::Wisdom)
        } else if same_text(upper, "INTELLIGENCE") {
            Some(Ability::Intelligence)
        } else if same_text(upper, "CHARISMA") {
            Some(Ability::Charisma)
        } else {
            None
        }
    }

    /// The ability that `string` names, compared without regard to case.
    pub fn from_string(string: &str) -> (ability: Option<Ability>)
        ensures
            ability == ability_named(string@),
    {
        let upper = to_uppercase(string);
        Ability::from_uppercase(upper.as_str())
    }
}

/// An increase of one ability score, with the record it comes from.
#[derive(Debug, PartialEq)]
pub struct CharacterAsi {
    pub score: Ability,
    pub source_slug: String,
    pub amount: i32,
}

/// An ability score increase as a value.
pub struct CharacterAsiView {
    pub score: Ability,
    pub source_slug: Seq<char>,
    pub amount: int,
}

impl View for CharacterAsi {
    type V = CharacterAsiView;

    open spec fn view(&self) -> CharacterAsiView {
        CharacterAsiView {
            score: self.score,
            source_slug: self.source_slug@,
            amount: self.amount as int,
        }
    }
}

impl Clone for CharacterAsi {
    fn clone(&self) -> (copy: Self)
        ensures
            copy@ == self@,
    {
        CharacterAsi {
            score: self.score,
            source_slug: self.source_slug.clone(),
            amount: self.amount,
        }
    }
}

impl CharacterAsi {
    /// An increase of `ability` by `amount`, granted by the record `slug`.
    pub fn new(slug: String, ability: Ability, amount: i32) -> (asi: Self)
        ensures
            asi@ == (CharacterAsiView { score: ability, source_slug: slug@, amount: amount as int }),
    {
        Self { source_slug: slug, score: ability, amount }
    }
}

/// The sum of the increases in `asis` that raise `ability`.
pub open spec fn asi_total(asis: Seq<CharacterAsiView>, ability: Ability) -> int
    decreases asis.len(),
{
    if asis.len() == 0 {
        0
    } else {
        asi_total(asis.drop_last(), ability) + if asis.last().score == ability {
            asis.last().amount
        } else {
            0
        }
    }
}

/// The views of a list of increases.
pub open spec fn asi_views(asis: Seq<CharacterAsi>) -> Seq<CharacterAsiView> {
    Seq::new(asis.len(), |i: int| asis[i]@)
}

/// The modifier that a score gives: half of what it has over ten, rounded
/// toward zero.
pub open spec fn modifier_of(score: int) -> int {
    if score >= 10 {
        (score - 10) / 2
    } else {
        -((10 - score) / 2)
    }
}

/// The six base ability scores, before any increase.
#[derive(Clone, Copy, Debug, PartialEq, Eq, Structural)]
pub struct AbilityScores {
    pub base_str: i32,
    pub base_dex: i32,
    pub base_con: i32,
    pub base_wis: i32,
    pub base_int: i32,
    pub base_cha: i32,
}

impl AbilityScores {
    /// Scores of ten throughout.
    pub open spec fn tens() -> AbilityScores {
        AbilityScores {
            base_str: 10,
            base_dex: 10,
            base_con: 10,
            base_wis: 10,
            base_int: 10,
            base_cha: 10,
        }
    }

    /// The modifier of a score.
    pub fn score_to_mod(score: i32) -> (modifier: i32)
        requires
            score >= i32::MIN + 10,
        ensures
            modifier == modifier_of(score as int),
    {
        (score - 10) / 2
    }

    /// Scores of ten throughout.
    pub fn new() -> (scores: Self)
        ensures
            scores == AbilityScores::tens(),
    {
        Self { base_str: 10, base_dex: 10, base_con: 10, base_wis: 10, base_int: 10, base_cha: 10 }
    }

    /// The base score of one ability.
    pub open spec fn base_spec(&self, ability: Ability) -> int {
        match ability {
            Ability::Strength => self.base_str as int,
            Ability::Dexterity => self.base_dex as int,
            Ability::Constitution => self.base_con as int,
            Ability::Wisdom => self.base_wis as int,
            Ability::Intelligence => self.base_int as int,
            Ability::Charisma => self.base_cha as int,
        }
    }

    /// The base score of one ability.
    pub fn base(&self, ability: Ability) -> (score: i32)
        ensures
            score == self.base_spec(ability),
    {
        match ability {
            Ability::Strength => self.base_str,
            Ability::Dexterity => self.base_dex,
            Ability::Constitution => self.base_con,
            Ability::Wisdom => self.base_wis,
            Ability::Intelligence => self.base_int,
            Ability::Charisma => self.base_cha,
        }
    }

    /// The score of one ability with the increases in `asis` applied: the
    /// base score plus every increase of that ability. `None` where the sum
    /// does not fit the score's type.
    pub fn score(&self, ability: Ability, asis: &Vec<CharacterAsi>) -> (score: Option<i32>)
        ensures
            match score {
                Some(value) => value == self.base_spec(ability) + asi_total(
                    asi_views(asis@),
                    ability,
                ),
                None => {
                    let total = self.base_spec(ability) + asi_total(asi_views(asis@), ability);
                    total < i32::MIN || total > i32::MAX
                },
            },
    {
        let sum: i128 = self.base(ability) as i128 + sum_of_increases(asis, ability);
        if sum < i32::MIN as i128 || sum > i32::MAX as i128 {
            None
        } else {
            Some(sum as i32)
        }
    }
}

/// By how much the increases in `asis` raise `ability`: the sum of the
/// amounts of those that raise it.
pub fn sum_of_increases(asis: &Vec<CharacterAsi>, ability: Ability) -> (total: i128)
    ensures
        total == asi_total(asi_views(asis@), ability),
        -(asis.len() as int) * 0x8000_0000 <= total <= (asis.len() as int) * 0x8000_0000,
{
    let mut total: i128 = 0;
    let mut i: usize = 0;
    while i < asis.len()
        invariant
            i <= asis.len(),
            total == asi_total(asi_views(asis@).subrange(0, i as int), ability),
            -(i as int) * 0x8000_0000 <= total <= (i as int) * 0x8000_0000,
        decreases asis.len() - i,
    {
        proof {
            let upto = asi_views(asis@).subrange(0, i + 1);
            assert(upto.drop_last() =~= asi_views(asis@).subrange(0, i as int));
            assert(upto.last() == asis@[i as int]@);
            assert((i + 1) * 0x8000_0000 == i * 0x8000_0000 + 0x8000_0000) by (nonlinear_arith);
            assert(i * 0x8000_0000 <= 0xffff_ffff_ffff_ffff * 0x8000_0000) by (nonlinear_arith)
                requires
                    i <= 0xffff_ffff_ffff_ffff,
            ;
        }
        if same_ability(asis[i].score, ability) {
            total = total + asis[i].amount as i128;
        }
        i += 1;
    }
    proof {
        assert(asi_views(asis@).subrange(0, asis.len() as int) =~= asi_views(asis@));
    }
    total
}

/// Whether two abilities are the same.
pub fn same_ability(a: Ability, b: Ability) -> (same: bool)
    ensures
        same == (a == b),
{
    a == b
}

impl Default for AbilityScores {
    fn default() -> (scores: Self)
        ensures
            scores == AbilityScores::tens(),
    {
        Self::new()
    }
}

/// How an attack is made.
#[derive(Clone, Copy, Debug, PartialEq, Eq, Structural)]
pub enum AttackType {
    Melee,
    Ranged,
}

/// An attack that a character can make.
#[derive(Debug, PartialEq)]
pub struct AttackAction {
    pub name: String,
    /// The ability whose modifier the attack adds.
    pub ability: Ability,
    /// The damage dice.
    pub damage_base: String,
    pub proficient: bool,
    pub attack_type: AttackType,
    /// In feet.
    pub reach: i32,
    pub damage_type: String,
}

/// An attack as a value.
pub struct AttackActionView {
    pub name: Seq<char>,
    pub ability: Ability,
    pub damage_base: Seq<char>,
    pub proficient: bool,
    pub attack_type: AttackType,
    pub reach: int,
    pub damage_type: Seq<char>,
}

impl View for AttackAction {
    type V = AttackActionView;

    open spec fn view(&self) -> AttackActionView {
        AttackActionView {
            name: self.name@,
            ability: self.ability,
            damage_base: self.damage_base@,
            proficient: self.proficient,
            attack_type: self.attack_type,
            reach: self.reach as int,
            damage_type: self.damage_type@,
        }
    }
}

impl Clone for AttackAction {
    fn clone(&self) -> (copy: Self)
        ensures
            copy@ == self@,
    {
        AttackAction {
            name: self.name.clone(),
            ability: self.ability,
            damage_base: self.damage_base.clone(),
            proficient: self.proficient,
            attack_type: self.attack_type,
            reach: self.reach,
            damage_type: self.damage_type.clone(),
        }
    }
}

/// The level that a character with `xp` experience points has reached.
pub open spec fn level_of_xp(xp: int) -> int {
    if xp < 300 {
        1
    } else if xp < 900 {
        2
    } else if xp < 2700 {
        3
    } else if xp < 6500 {
        4
    } else if xp < 14000 {
        5
    } else if xp < 23000 {
        6
    } else if xp < 34000 {
        7
    } else if xp < 48000 {
        8
    } else if xp < 64000 {
        9
    } else if xp < 85000 {
        10
    } else if xp < 100000 {
        11
    } else if xp < 120000 {
        12
    } else if xp < 140000 {
        13
    } else if xp < 165000 {
        14
    } else if xp < 195000 {
        15
    } else if xp < 225000 {
        16
    } else if xp < 265000 {
        17
    } else if xp < 305000 {
        18
    } else if xp < 355000 {
        19
    } else {
        20
    }
}

/// The least experience that gives `level`; levels below one count as one
/// and levels above twenty as twenty.
pub open spec fn xp_of_level(level: int) -> int {
    if level <= 1 {
        0
    } else if level == 2 {
        300
    } else if level == 3 {
        900
    } else if level == 4 {
        2700
    } else if level == 5 {
        6500
    } else if level == 6 {
        14000
    } else if level == 7 {
        23000
    } else if level == 8 {
        34000
    } else if level == 9 {
        48000
    } else if level == 10 {
        64000
    } else if level == 11 {
        85000
    } else if level == 12 {
        100000
    } else if level == 13 {
        120000
    } else if level == 14 {
        140000
    } else if level == 15 {
        165000
    } else if level == 16 {
        195000
    } else if level == 17 {
        225000
    } else if level == 18 {
        265000
    } else if level == 19 {
        305000
    } else {
        355000
    }
}

/// The level reached with `xp` experience points, from 1 to 20.
pub fn xp_to_level(xp: i32) -> (level: i32)
    ensures
        level == level_of_xp(xp as int),
        1 <= level <= 20,
{
    if xp < 300 {
        1
    } else if xp < 900 {
        2
    } else if xp < 2700 {
        3
    } else if xp < 6500 {
        4
    } else if xp < 14000 {
        5
    } else if xp < 23000 {
        6
    } else if xp < 34000 {
        7
    } else if xp < 48000 {
        8
    } else if xp < 64000 {
        9
    } else if xp < 85000 {
        10
    } else if xp < 100000 {
        11
    } else if xp < 120000 {
        12
    } else if xp < 140000 {
        13
    } else if xp < 165000 {
        14
    } else if xp < 195000 {
        15
    } else if xp < 225000 {
        16
    } else if xp < 265000 {
        17
    } else if xp < 305000 {
        18
    } else if xp < 355000 {
        19
    } else {
        20
    }
}

/// The least experience that gives `level`.
pub fn level_to_xp(level: i32) -> (xp: i32)
    ensures
        xp == xp_of_level(level as int),
        0 <= xp <= 355000,
{
    if level <= 1 {
        0
    } else if level == 2 {
        300
    } else if level == 3 {
        900
    } else if level == 4 {
        2700
    } else if level == 5 {
        6500
    } else if level == 6 {
        14000
    } else if level == 7 {
        23000
    } else if level == 8 {
        34000
    } else if level == 9 {
        48000
    } else if level == 10 {
        64000
    } else if level == 11 {
        85000
    } else if level == 12 {
        100000
    } else if level == 13 {
        120000
    } else if level == 14 {
        140000
    } else if level == 15 {
        165000
    } else if level == 16 {
        195000
    } else if level == 17 {
        225000
    } else if level == 18 {
        265000
    } else if level == 19 {
        305000
    } else {
        355000
    }
}

/// A level brought into the range from 1 to 20.
pub open spec fn clamp_level(level: int) -> int {
    if level < 1 {
        1
    } else if level > 20 {
        20
    } else {
        level
    }
}

/// The proficiency bonus at a level from 1 to 20: two, and one more for
/// every four levels above the first.
pub open spec fn prof_bonus_of(level: int) -> int {
    (level - 1) / 4 + 2
}

/// The durable record of a character.
pub struct CharacterDetails {
    pub name: String,
    pub class: String,
    pub background: String,
    pub species: String,
    pub subspecies: String,
    pub xp: i32,
    /// Hit points before the Constitution modifier.
    pub base_hp: i32,
    pub ability_scores: AbilityScores,
}

impl CharacterDetails {
    /// A character with no name and no choices made, no experience, no hit
    /// points and scores of ten.
    pub fn new() -> (character: Self)
        ensures
            character.name@.len() == 0,
            character.class@.len() == 0,
            character.background@.len() == 0,
            character.species@.len() == 0,
            character.subspecies@.len() == 0,
            character.xp == 0,
            character.base_hp == 0,
            character.ability_scores == AbilityScores::tens(),
    {
        Self {
            name: String::new(),
            species: String::new(),
            class: String::new(),
            subspecies: String::new(),
            background: String::new(),
            xp: 0,
            base_hp: 0,
            ability_scores: AbilityScores::new(),
        }
    }

    /// The proficiency bonus at the character's level.
    pub fn prof_bonus(&self) -> (bonus: i32)
        ensures
            bonus == prof_bonus_of(level_of_xp(self.xp as int)),
            2 <= bonus <= 6,
    {
        ((self.level() - 1) / 4) + 2
    }

    /// Sets the hit points before the Constitution modifier.
    pub fn set_base_hp(&mut self, hp: i32)
        ensures
            final(self).base_hp == hp,
            final(self).name == old(self).name,
            final(self).class == old(self).class,
            final(self).background == old(self).background,
            final(self).species == old(self).species,
            final(self).subspecies == old(self).subspecies,
            final(self).xp == old(self).xp,
            final(self).ability_scores == old(self).ability_scores,
    {
        self.base_hp = hp;
    }

    /// The hit points before the Constitution modifier.
    pub fn base_hp(&self) -> (hp: i32)
        ensures
            hp == self.base_hp,
    {
        self.base_hp
    }

    /// Takes a new species and forgets the subspecies, which belonged to
    /// the old one.
    pub fn change_species(&mut self, new: String)
        ensures
            final(self).species == new,
            final(self).subspecies@.len() == 0,
            final(self).name == old(self).name,
            final(self).class == old(self).class,
            final(self).background == old(self).background,
            final(self).xp == old(self).xp,
            final(self).base_hp == old(self).base_hp,
            final(self).ability_scores == old(self).ability_scores,
    {
        self.species = new;
        self.subspecies = String::new();
    }

    /// Gives the character the least experience that reaches `level`.
    pub fn set_level(&mut self, level: i32)
        ensures
            final(self).xp == xp_of_level(level as int),
            level_of_xp(final(self).xp as int) == clamp_level(level as int),
            final(self).name == old(self).name,
            final(self).class == old(self).class,
            final(self).background == old(self).background,
            final(self).species == old(self).species,
            final(self).subspecies == old(self).subspecies,
            final(self).base_hp == old(self).base_hp,
            final(self).ability_scores == old(self).ability_scores,
    {
        self.xp = level_to_xp(level)
    }

    /// The character's level, from 1 to 20.
    pub fn level(&self) -> (level: i32)
        ensures
            level == level_of_xp(self.xp as int),
            1 <= level <= 20,
    {
        xp_to_level(self.xp)
    }
}

impl Default for CharacterDetails {
    fn default() -> (character: Self)
        ensures
            character.name@.len() == 0,
            character.class@.len() == 0,
            character.background@.len() == 0,
            character.species@.len() == 0,
            character.subspecies@.len() == 0,
            character.xp == 0,
            character.base_hp == 0,
            character.ability_scores == AbilityScores::tens(),
    {
        Self::new()
    }
}

} // verus!
