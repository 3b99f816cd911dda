//! What the active features of a character amount to: ability score
//! increases, proficiencies, saving throws, hit points.

use vstd::prelude::*;
use crate::api::api_extensions::{feature_views, Feature, FeatureType, FeatureTypeView, FeatureView};
use crate::character_model::{
    asi_total, asi_views, modifier_of, same_ability, sum_of_increases, Ability, AbilityScores,
    CharacterAsi, CharacterAsiView,
};
use crate::text::strings;

verus! {

/// The increase that a feature grants, if it grants one.
pub open spec fn asi_of(feature: FeatureView) -> Option<CharacterAsiView> {
    match feature.feature_type {
        FeatureTypeView::Asi(asi) => Some(asi),
        _ => None,
    }
}

/// The skill that a feature grants proficiency in, if it grants one.
pub open spec fn skill_of(feature: FeatureView) -> Option<Seq<char>> {
    match feature.feature_type {
        FeatureTypeView::SkillProficency(skill) => Some(skill),
        _ => None,
    }
}

/// The ability in whose saving throws a feature grants proficiency, if it
/// grants one.
pub open spec fn save_of(feature: FeatureView) -> Option<Ability> {
    match feature.feature_type {
        FeatureTypeView::SavingThrow(ability) => Some(ability),
        _ => None,
    }
}

/// The other proficiency that a feature grants, if it grants one.
pub open spec fn other_of(feature: FeatureView) -> Option<Seq<char>> {
    match feature.feature_type {
        FeatureTypeView::OtherProficency(text) => Some(text),
        _ => None,
    }
}

/// The increases that `features` grant, in their order.
pub open spec fn asis_among(features: Seq<FeatureView>) -> Seq<CharacterAsiView> {
    features.filter_map(|f: FeatureView| asi_of(f))
}

/// The skills that `features` grant proficiency in, in their order.
pub open spec fn skills_among(features: Seq<FeatureView>) -> Seq<Seq<char>> {
    features.filter_map(|f: FeatureView| skill_of(f))
}

/// The abilities in whose saving throws `features` grant proficiency, in
/// their order.
pub open spec fn saves_among(features: Seq<FeatureView>) -> Seq<Ability> {
    features.filter_map(|f: FeatureView| save_of(f))
}

/// The other proficiencies that `features` grant, in their order.
pub open spec fn others_among(features: Seq<FeatureView>) -> Seq<Seq<char>> {
    features.filter_map(|f: FeatureView| other_of(f))
}

/// By how much `features` raise the score of `ability`.
pub open spec fn ability_delta(features: Seq<FeatureView>, ability: Ability) -> int {
    asi_total(asis_among(features), ability)
}

/// The bonus to a saving throw of `ability`: the modifier of the score, and
/// the proficiency bonus on top where `saves` holds the ability.
pub open spec fn save_bonus(score: int, ability: Ability, saves: Seq<Ability>, prof_bonus: int) -> int {
    modifier_of(score) + if saves.contains(ability) {
        prof_bonus
    } else {
        0
    }
}

/// The hit points of a character: those of its class at first level, and
/// its Constitution modifier once for each level.
pub open spec fn hit_points(base_hp: int, con_mod: int, level: int) -> int {
    base_hp + con_mod * level
}

/// The increases that the features grant.
pub fn get_current_asis(features: &Vec<Feature>) -> (asis: Vec<CharacterAsi>)
    ensures
        asi_views(asis@) == asis_among(feature_views(features@)),
{
    let ghost all = feature_views(features@);
    let ghost pick = |f: FeatureView| asi_of(f);
    let mut asis: Vec<CharacterAsi> = Vec::new();
    let mut i: usize = 0;
    proof {
        assert(asi_views(asis@) =~= all.take(0).filter_map(pick));
    }
    while i < features.len()
        invariant
            i <= features.len(),
            all == feature_views(features@),
            pick == (|f: FeatureView| asi_of(f)),
            asi_views(asis@) == all.take(i as int).filter_map(pick),
        decreases features.len() - i,
    {
        proof {
            all.lemma_filter_map_take_succ(pick, i as int);
            assert(all[i as int] == features[i as int]@);
        }
        if let FeatureType::Asi(asi) = &features[i].feature_type {
            let asi = asi.clone();
            proof {
                assert(asi_views(asis@.push(asi)) =~= asi_views(asis@) + seq![asi@]);
            }
            asis.push(asi);
        } else {
            assert(asi_views(asis@) + Seq::<CharacterAsiView>::empty() =~= asi_views(asis@));
        }
        i += 1;
    }
    proof {
        assert(all.take(features.len() as int) =~= all);
    }
    asis
}

/// By how much the features raise the score of `ability`: the sum of the
/// increases of that ability among them.
pub fn get_ability_delta(features: &Vec<Feature>, ability: Ability) -> (delta: i128)
    ensures
        delta == ability_delta(feature_views(features@), ability),
{
    let asis = get_current_asis(features);
    sum_of_increases(&asis, ability)
}

/// The skills that the features grant proficiency in.
pub fn get_skill_proficencies(features: &Vec<Feature>) -> (skills: Vec<String>)
    ensures
        strings(skills@) == skills_among(feature_views(features@)),
{
    let ghost all = feature_views(features@);
    let ghost pick = |f: FeatureView| skill_of(f);
    let mut skills: Vec<String> = Vec::new();
    let mut i: usize = 0;
    proof {
        assert(strings(skills@) =~= all.take(0).filter_map(pick));
    }
    while i < features.len()
        invariant
            i <= features.len(),
            all == feature_views(features@),
            pick == (|f: FeatureView| skill_of(f)),
            strings(skills@) == all.take(i as int).filter_map(pick),
        decreases features.len() - i,
    {
        proof {
            all.lemma_filter_map_take_succ(pick, i as int);
            assert(all[i as int] == features[i as int]@);
        }
        if let FeatureType::SkillProficency(skill) = &features[i].feature_type {
            let skill = skill.clone();
            proof {
                assert(strings(skills@.push(skill)) =~= strings(skills@) + seq![skill@]);
            }
            skills.push(skill);
        } else {
            assert(strings(skills@) + Seq::<Seq<char>>::empty() =~= strings(skills@));
        }
        i += 1;
    }
    proof {
        assert(all.take(features.len() as int) =~= all);
    }
    skills
}

/// The abilities in whose saving throws the features grant proficiency.
pub fn get_saving_throws(features: &Vec<Feature>) -> (saves: Vec<Ability>)
    ensures
        saves@ == saves_among(feature_views(features@)),
{
    let ghost all = feature_views(features@);
    let ghost pick = |f: FeatureView| save_of(f);
    let mut saves: Vec<Ability> = Vec::new();
    let mut i: usize = 0;
    proof {
        assert(saves@ =~= all.take(0).filter_map(pick));
    }
    while i < features.len()
        invariant
            i <= features.len(),
            all == feature_views(features@),
            pick == (|f: FeatureView| save_of(f)),
            saves@ == all.take(i as int).filter_map(pick),
        decreases features.len() - i,
    {
        proof {
            all.lemma_filter_map_take_succ(pick, i as int);
            assert(all[i as int] == features[i as int]@);
        }
        if let FeatureType::SavingThrow(ability) = &features[i].feature_type {
            proof {
                assert(saves@.push(*ability) =~= saves@ + seq![*ability]);
            }
            saves.push(*ability);
        } else {
            assert(saves@ + Seq::<Ability>::empty() =~= saves@);
        }
        i += 1;
    }
    proof {
        assert(all.take(features.len() as int) =~= all);
    }
    saves
}

/// The other proficiencies that the features grant.
pub fn get_other_proficencies(features: &Vec<Feature>) -> (others: Vec<String>)
    ensures
        strings(others@) == others_among(feature_views(features@)),
{
    let ghost all = feature_views(features@);
    let ghost pick = |f: FeatureView| other_of(f);
    let mut others: Vec<String> = Vec::new();
    let mut i: usize = 0;
    proof {
        assert(strings(others@) =~= all.take(0).filter_map(pick));
    }
    while i < features.len()
        invariant
            i <= features.len(),
            all == feature_views(features@),
            pick == (|f: FeatureView| other_of(f)),
            strings(others@) == all.take(i as int).filter_map(pick),
        decreases features.len() - i,
    {
        proof {
            all.lemma_filter_map_take_succ(pick, i as int);
            assert(all[i as int] == features[i as int]@);
        }
        if let FeatureType::OtherProficency(text) = &features[i].feature_type {
            let text = text.clone();
            proof {
                assert(strings(others@.push(text)) =~= strings(others@) + seq![text@]);
            }
            others.push(text);
        } else {
            assert(strings(others@) + Seq::<Seq<char>>::empty() =~= strings(others@));
        }
        i += 1;
    }
    proof {
        assert(all.take(features.len() as int) =~= all);
    }
    others
}

/// The bonus to a saving throw of `ability` for a character with the base
/// scores `scores`, the increases `asis`, proficiency in the saving throws of
/// `saves`, and the proficiency bonus `prof_bonus`. `None` where the score or
/// the bonus does not fit its type.
pub fn calc_save(
    scores: &AbilityScores,
    asis: &Vec<CharacterAsi>,
    saves: &Vec<Ability>,
    ability: Ability,
    prof_bonus: i32,
) -> (bonus: Option<i32>)
    ensures
        match bonus {
            Some(bonus) => bonus == save_bonus(
                scores.base_spec(ability) + asi_total(asi_views(asis@), ability),
                ability,
                saves@,
                prof_bonus as int,
            ),
            None => {
                let score = scores.base_spec(ability) + asi_total(asi_views(asis@), ability);
                let bonus = save_bonus(score, ability, saves@, prof_bonus as int);
                score < i32::MIN || score > i32::MAX || bonus < i32::MIN || bonus > i32::MAX
            },
        },
{
    let score = match scores.score(ability, asis) {
        Some(score) => score,
        None => {
            return None;
        },
    };
    let modifier: i64 = if score >= 10 {
        (score as i64 - 10) / 2
    } else {
        -((10 - score as i64) / 2)
    };
    let mut proficient = false;
    let mut i: usize = 0;
    while i < saves.len()
        invariant
            i <= saves.len(),
            proficient == saves@.subrange(0, i as int).contains(ability),
        decreases saves.len() - i,
    {
        proof {
            let upto = saves@.subrange(0, i + 1);
            assert(upto =~= saves@.subrange(0, i as int).push(saves[i as int]));
            if saves@.subrange(0, i as int).contains(ability) {
                let j = choose|j: int|
                    0 <= j < i && saves@.subrange(0, i as int)[j] == ability;
                assert(upto[j] == ability);
            }
            if saves[i as int] == ability {
                assert(upto[i as int] == ability);
            }
        }
        if same_ability(saves[i], ability) {
            proficient = true;
        }
        i += 1;
    }
    proof {
        assert(saves@.subrange(0, saves.len() as int) =~= saves@);
    }
    let total: i64 = modifier + if proficient {
        prof_bonus as i64
    } else {
        0
    };
    if total < i32::MIN as i64 || total > i32::MAX as i64 {
        None
    } else {
        Some(total as i32)
    }
}

/// The hit points of a character of `level` whose class gives `base_hp` at
/// first level and whose Constitution modifier is `con_mod`. `None` where
/// they do not fit their type.
pub fn get_current_hp(base_hp: i32, con_mod: i32, level: i32) -> (hp: Option<i32>)
    ensures
        match hp {
            Some(hp) => hp == hit_points(base_hp as int, con_mod as int, level as int),
            None => hit_points(base_hp as int, con_mod as int, level as int) < i32::MIN
                || hit_points(base_hp as int, con_mod as int, level as int) > i32::MAX,
        },
{
    proof {
        assert(-0x4000_0000_0000_0000 <= (con_mod as int) * (level as int)
            <= 0x4000_0000_0000_0000) by (nonlinear_arith)
            requires
                -0x8000_0000 <= con_mod <= 0x7fff_ffff,
                -0x8000_0000 <= level <= 0x7fff_ffff,
        ;
    }
    let product: i64 = (con_mod as i64) * (level as i64);
    let total: i128 = base_hp as i128 + product as i128;
    if total < i32::MIN as i128 || total > i32::MAX as i128 {
        None
    } else {
        Some(total as i32)
    }
}

} // verus!
