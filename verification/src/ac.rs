//! The armor-class calculator: a pure function from an armor-class request to
//! the resulting value, together with the laws of its dexterity policies.

use vstd::prelude::*;

use crate::dnd::{
    is_heavy, is_medium, spec_base_ac, spec_shield_bonus, Armor, Shield, UnarmoredDefense,
};

verus! {

/// An armor-class request: worn armor, dexterity modifier, shield choice and
/// unarmored-defense feature. Built fresh for each calculation.
#[derive(Debug, Clone, Copy)]
pub struct Ac(pub Armor, pub i8, pub Shield, pub UnarmoredDefense);

/// The effective dexterity modifier before the armor's policy is applied:
/// without armor a barbarian adds their constitution modifier unconditionally,
/// and a monk adds their wisdom modifier only while no shield is worn.
pub open spec fn effective_dex(req: Ac) -> int {
    match (req.0, req.2, req.3) {
        (Armor::NoArmor, _, UnarmoredDefense::Barbarian(ability)) => req.1 + ability,
        (Armor::NoArmor, Shield::NoShield, UnarmoredDefense::Monk(ability)) => req.1 + ability,
        _ => req.1 as int,
    }
}

/// A value clamped to the inclusive range `[0, 2]`.
pub open spec fn clamped_to_two(d: int) -> int {
    if d < 0 {
        0
    } else if d > 2 {
        2
    } else {
        d
    }
}

/// The dexterity contribution after the armor's policy: light armor (and no
/// armor) passes the effective modifier through, medium armor clamps it to
/// `[0, 2]`, and heavy armor discards it.
pub open spec fn applied_dex(req: Ac) -> int {
    if is_heavy(req.0) {
        0
    } else if is_medium(req.0) {
        clamped_to_two(effective_dex(req))
    } else {
        effective_dex(req)
    }
}

/// The armor class of a request: base armor class, plus the applied dexterity
/// contribution, plus the shield bonus.
pub open spec fn ac_value(req: Ac) -> int {
    spec_base_ac(req.0) + applied_dex(req) + spec_shield_bonus(req.2)
}

/// A monk's advisory when a shield is worn: the forfeited unarmored-defense
/// bonus costs `ability - 2` points of armor class once the ability modifier
/// exceeds the medium-armor-style cap of 2, and nothing otherwise.
pub open spec fn spec_monk_shield_loss(req: Ac) -> Option<i8> {
    match (req.2, req.3) {
        (Shield::Shield, UnarmoredDefense::Monk(ability)) => Option::Some(
            if ability > 2 {
                (ability - 2) as i8
            } else {
                0i8
            },
        ),
        _ => Option::None,
    }
}

impl Ac {
    /// Computes the armor class of this request.
    pub fn calculate(&self) -> (r: u8)
        requires
            0 <= ac_value(*self) <= u8::MAX,
        ensures
            r == ac_value(*self),
    {
        let Ac(armor, dex, shield, unarmored_defense) = *self;
        let effective: i32 = match (armor, shield, unarmored_defense) {
            (Armor::NoArmor, _, UnarmoredDefense::Barbarian(ability)) => dex as i32 + ability as i32,
            (Armor::NoArmor, Shield::NoShield, UnarmoredDefense::Monk(ability)) => dex as i32
                + ability as i32,
            _ => dex as i32,
        };
        let applied: i32 = match armor {
            Armor::NoArmor | Armor::Padded | Armor::Leather | Armor::StuddedLeather => effective,
            Armor::Hide | Armor::ChainShirt | Armor::ScaleMail | Armor::Breastplate
            | Armor::HalfPlate => {
                if effective < 0 {
                    0
                } else if effective > 2 {
                    2
                } else {
                    effective
                }
            },
            Armor::RingMail | Armor::ChainMail | Armor::Splint | Armor::Plate => 0,
        };
        let total: i32 = armor.base_ac() as i32 + applied + shield.bonus() as i32;
        total as u8
    }

    /// The advisory owed to a monk wearing a shield: `Some` exactly when the
    /// request combines a shield with monk unarmored defense, carrying the
    /// armor-class points lost to the forfeited bonus.
    pub fn monk_shield_loss(&self) -> (r: Option<i8>)
        ensures
            r == spec_monk_shield_loss(*self),
    {
        match (self.2, self.3) {
            (Shield::Shield, UnarmoredDefense::Monk(ability)) => {
                if ability > 2 {
                    Option::Some(ability - 2)
                } else {
                    Option::Some(0)
                }
            },
            _ => Option::None,
        }
    }
}

/// Computes the armor class of a request.
pub fn calculate_ac(request: &Ac) -> (r: u8)
    requires
        0 <= ac_value(*request) <= u8::MAX,
    ensures
        r == ac_value(*request),
{
    request.calculate()
}

/// In heavy armor the armor class is independent of the dexterity modifier
/// and of the unarmored-defense choice: the dexterity contribution is 0.
pub proof fn lemma_heavy_armor_ignores_dex(
    armor: Armor,
    dex1: i8,
    dex2: i8,
    shield: Shield,
    ud1: UnarmoredDefense,
    ud2: UnarmoredDefense,
)
    requires
        is_heavy(armor),
    ensures
        ac_value(Ac(armor, dex1, shield, ud1)) == ac_value(Ac(armor, dex2, shield, ud2)),
{
}

/// In medium armor a dexterity modifier of 3 or more always contributes
/// exactly 2: the clamp is reached.
pub proof fn lemma_medium_armor_caps_dex(
    armor: Armor,
    dex: i8,
    shield: Shield,
    ud: UnarmoredDefense,
)
    requires
        is_medium(armor),
        dex >= 3,
    ensures
        ac_value(Ac(armor, dex, shield, ud)) == spec_base_ac(armor) + 2 + spec_shield_bonus(
            shield,
        ),
{
}

/// Monk unarmored defense with a shield worn never adds the ability modifier:
/// the armor class equals the one computed without the feature.
pub proof fn lemma_monk_shield_forfeits_bonus(dex: i8, ability: i8)
    ensures
        ac_value(Ac(Armor::NoArmor, dex, Shield::Shield, UnarmoredDefense::Monk(ability)))
            == ac_value(Ac(Armor::NoArmor, dex, Shield::Shield, UnarmoredDefense::Neither)),
{
}

/// Barbarian unarmored defense adds its ability modifier even with a shield
/// worn.
pub proof fn lemma_barbarian_bonus_with_shield(dex: i8, ability: i8, shield: Shield)
    ensures
        ac_value(Ac(Armor::NoArmor, dex, shield, UnarmoredDefense::Barbarian(ability))) == 10 + dex
            + ability + spec_shield_bonus(shield),
{
}

} // verus!
