//! What a weapon's record says of the attack made with it.

use vstd::prelude::*;
use crate::api::api_model::Weapon;
use crate::character_model::{Ability, AttackAction, AttackActionView, AttackType};
use crate::text::{chars_of, contains, contains_sub, same_text, strings};

verus! {

impl Weapon {
    /// Whether the weapon's record lists `property`.
    pub open spec fn has_property_spec(&self, property: Seq<char>) -> bool {
        match self.properties {
            Some(list) => strings(list@).contains(property),
            None => false,
        }
    }

    /// Whether the weapon is one of a ranged category.
    pub open spec fn is_ranged_spec(&self) -> bool {
        contains_sub(self.category@, "Ranged"@)
    }

    /// The attack made with the weapon, as a value.
    pub open spec fn attack_spec(&self) -> AttackActionView {
        AttackActionView {
            name: self.name@,
            ability: if self.has_property_spec("finesse"@) {
                Ability::Dexterity
            } else {
                Ability::Strength
            },
            damage_base: self.damage_dice@,
            proficient: false,
            attack_type: if self.is_ranged_spec() {
                AttackType::Ranged
            } else {
                AttackType::Melee
            },
            reach: if self.has_property_spec("reach"@) {
                10
            } else {
                5
            },
            damage_type: self.damage_type@,
        }
    }

    /// Whether the weapon's record lists `property`.
    pub fn has_property(&self, property: &str) -> (found: bool)
        ensures
            found == self.has_property_spec(property@),
    {
        match &self.properties {
            Some(list) => {
                let mut i: usize = 0;
                while i < list.len()
                    invariant
                        i <= list.len(),
                        self.properties == Some(*list),
                        forall|j: int| 0 <= j < i ==> list[j]@ != property@,
                    decreases list.len() - i,
                {
                    if same_text(list[i].as_str(), property) {
                        assert(strings(list@)[i as int] == property@);
                        assert(strings(list@).contains(property@));
                        return true;
                    }
                    i += 1;
                }
                false
            },
            None => false,
        }
    }

    /// Whether the weapon has the property "finesse".
    pub fn is_finesse(&self) -> (found: bool)
        ensures
            found == self.has_property_spec("finesse"@),
    {
        self.has_property("finesse")
    }

    /// Whether the weapon has the property "light".
    pub fn is_light(&self) -> (found: bool)
        ensures
            found == self.has_property_spec("light"@),
    {
        self.has_property("light")
    }

    /// Whether the weapon has the property "reach".
    pub fn is_reach(&self) -> (found: bool)
        ensures
            found == self.has_property_spec("reach"@),
    {
        self.has_property("reach")
    }

    /// Whether the weapon is one of a ranged category: whether the name of
    /// its category holds "Ranged".
    pub fn is_ranged(&self) -> (ranged: bool)
        ensures
            ranged == self.is_ranged_spec(),
    {
        contains(&chars_of(self.category.as_str()), &chars_of("Ranged"))
    }

    /// The attack made with the weapon: with Dexterity if it is a finesse
    /// weapon, else with Strength; ranged or melee by its category; with a
    /// reach of ten feet if it is a reach weapon, else of five; not
    /// proficient.
    pub fn to_attack(&self) -> (attack: AttackAction)
        ensures
            attack@ == self.attack_spec(),
    {
        AttackAction {
            name: self.name.clone(),
            ability: if self.is_finesse() {
                Ability::Dexterity
            } else {
                Ability::Strength
            },
            damage_base: self.damage_dice.clone(),
            proficient: false,
            attack_type: if self.is_ranged() {
                AttackType::Ranged
            } else {
                AttackType::Melee
            },
            reach: if self.is_reach() {
                10
            } else {
                5
            },
            damage_type: self.damage_type.clone(),
        }
    }
}

} // verus!
