//! The source records, as the rules service hands them out.

use vstd::prelude::*;
use crate::character_model::{ability_named, Ability, CharacterAsi, CharacterAsiView};
use crate::text::strings;

verus! {

/// A species, with its subspecies.
#[derive(Default, Debug, Clone, PartialEq)]
pub struct Species {
    pub name: String,
    pub slug: String,
    pub desc: String,
    pub asi_desc: String,
    pub asi: Vec<ApiAsi>,
    pub age: String,
    pub alignment: String,
    pub size: String,
    pub speed: Speed,
    pub speed_desc: String,
    pub languages: String,
    pub vision: String,
    /// The narrative of the species' traits, in markdown.
    pub traits: String,
    pub subraces: Vec<Subspecies>,
    pub document_slug: String,
    pub document_title: String,
    pub document_license_url: String,
    pub document_url: String,
}

/// One entry of a record's ability score increases: the abilities it
/// raises, and by how much each.
#[derive(Default, Debug, Clone, PartialEq)]
pub struct ApiAsi {
    pub attributes: Vec<String>,
    pub value: i32,
}

/// The increases that an entry with the attribute names `attributes` and the
/// amount `value` grants: one for each name that is an ability's, in order.
pub open spec fn entry_asis(attributes: Seq<Seq<char>>, value: int, source: Seq<char>) -> Seq<
    CharacterAsiView,
>
    decreases attributes.len(),
{
    if attributes.len() == 0 {
        Seq::empty()
    } else {
        let before = entry_asis(attributes.drop_last(), value, source);
        match ability_named(attributes.last()) {
            Some(ability) => before.push(
                CharacterAsiView { score: ability, source_slug: source, amount: value },
            ),
            None => before,
        }
    }
}

impl ApiAsi {
    /// The increases that the entry grants, each marked with `source`.
    pub open spec fn asis_spec(&self, source: Seq<char>) -> Seq<CharacterAsiView> {
        entry_asis(strings(self.attributes@), self.value as int, source)
    }

    /// The increases that the entry grants: one for each attribute that
    /// names an ability, each marked with `source`.
    pub fn get_asis(&self, source: &str) -> (out: Vec<CharacterAsi>)
        ensures
            crate::character_model::asi_views(out@) == self.asis_spec(source@),
    {
        let mut out: Vec<CharacterAsi> = Vec::new();
        let mut i: usize = 0;
        while i < self.attributes.len()
            invariant
                i <= self.attributes.len(),
                crate::character_model::asi_views(out@) == entry_asis(
                    strings(self.attributes@).subrange(0, i as int),
                    self.value as int,
                    source@,
                ),
            decreases self.attributes.len() - i,
        {
            proof {
                let upto = strings(self.attributes@).subrange(0, i + 1);
                assert(upto.drop_last() =~= strings(self.attributes@).subrange(0, i as int));
                assert(upto.last() == self.attributes@[i as int]@);
            }
            if let Some(ability) = Ability::from_string(self.attributes[i].as_str()) {
                let asi = CharacterAsi {
                    score: ability,
                    source_slug: String::from_str(source),
                    amount: self.value,
                };
                proof {
                    assert(crate::character_model::asi_views(out@.push(asi))
                        =~= crate::character_model::asi_views(out@).push(asi@));
                }
                out.push(asi);
            }
            i += 1;
        }
        proof {
            assert(strings(self.attributes@).subrange(0, self.attributes.len() as int)
                =~= strings(self.attributes@));
        }
        out
    }
}

/// How fast a species moves.
#[derive(Default, Debug, Clone, PartialEq)]
pub struct Speed {
    pub walk: i32,
}

/// A subspecies.
#[derive(Default, Debug, Clone, PartialEq)]
pub struct Subspecies {
    pub name: String,
    pub slug: String,
    pub desc: String,
    pub asi: Vec<ApiAsi>,
    /// The narrative of the subspecies' traits, in markdown.
    pub traits: String,
    pub asi_desc: String,
    pub document_slug: String,
    pub document_title: String,
    pub document_url: String,
}

/// A class.
#[derive(Default, Debug, Clone, PartialEq)]
pub struct Class {
    pub name: String,
    pub slug: String,
    /// The narrative of the class's features, in markdown.
    pub desc: String,
    pub hit_dice: String,
    pub hp_at_1st_level: String,
    pub hp_at_higher_levels: String,
    pub prof_armor: String,
    pub prof_weapons: String,
    pub prof_tools: String,
    pub prof_saving_throws: String,
    pub prof_skills: String,
    pub equipment: String,
    pub table: String,
    pub spellcasting_ability: String,
    pub subtypes_name: String,
    pub archetypes: Vec<Archetype>,
    pub document_slug: String,
    pub document_title: String,
    pub document_license_url: String,
    pub document_url: String,
}

/// A subclass.
#[derive(Default, Debug, Clone, PartialEq)]
pub struct Archetype {
    pub name: String,
    pub slug: String,
    pub desc: String,
    pub document_slug: String,
    pub document_title: String,
    pub document_license_url: String,
    pub document_url: String,
}

/// A background.
#[derive(Default, Debug, Clone, PartialEq)]
pub struct Background {
    pub name: String,
    pub desc: String,
    pub slug: String,
    pub skill_proficiencies: Option<String>,
    pub tool_proficiencies: Option<String>,
    pub languages: Option<String>,
    pub equipment: String,
    pub feature: String,
    pub feature_desc: String,
    pub suggested_characteristics: String,
    pub document_slug: String,
    pub document_title: String,
    pub document_license_url: String,
    pub document_url: String,
}

/// A weapon.
#[derive(Default, Debug, Clone, PartialEq)]
pub struct Weapon {
    pub name: String,
    pub slug: String,
    pub category: String,
    pub cost: String,
    pub damage_dice: String,
    pub damage_type: String,
    pub weight: String,
    pub properties: Option<Vec<String>>,
    pub document_slug: String,
    pub document_title: String,
    pub document_license_url: String,
    pub document_url: String,
}

} // verus!
