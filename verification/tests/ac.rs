use danjon::ac::{calculate_ac, Ac};
use danjon::dnd::{Armor, Shield, UnarmoredDefense};

#[test]
fn heavy_armor_ignores_dex_and_defense() {
    for armor in [Armor::RingMail, Armor::ChainMail, Armor::Splint, Armor::Plate] {
        let base = calculate_ac(&Ac(armor, 0, Shield::NoShield, UnarmoredDefense::Neither));
        let high = calculate_ac(&Ac(armor, 5, Shield::NoShield, UnarmoredDefense::Barbarian(4)));
        let neg = calculate_ac(&Ac(armor, -3, Shield::NoShield, UnarmoredDefense::Monk(2)));
        assert_eq!(base, high);
        assert_eq!(base, neg);
    }
}

#[test]
fn heavy_armor_base_values() {
    assert_eq!(
        calculate_ac(&Ac(Armor::RingMail, 4, Shield::NoShield, UnarmoredDefense::Neither)),
        14
    );
    assert_eq!(
        calculate_ac(&Ac(Armor::ChainMail, 4, Shield::NoShield, UnarmoredDefense::Neither)),
        16
    );
    assert_eq!(
        calculate_ac(&Ac(Armor::Splint, 4, Shield::NoShield, UnarmoredDefense::Neither)),
        17
    );
    assert_eq!(
        calculate_ac(&Ac(Armor::Plate, 4, Shield::Shield, UnarmoredDefense::Neither)),
        20
    );
}

#[test]
fn medium_armor_caps_dex_at_two() {
    for armor in [
        Armor::Hide,
        Armor::ChainShirt,
        Armor::ScaleMail,
        Armor::Breastplate,
        Armor::HalfPlate,
    ] {
        let flat = calculate_ac(&Ac(armor, 0, Shield::NoShield, UnarmoredDefense::Neither));
        for dex in [3i8, 4, 7, 20, 127] {
            let with_dex = calculate_ac(&Ac(armor, dex, Shield::NoShield, UnarmoredDefense::Neither));
            assert_eq!(with_dex, flat + 2);
        }
    }
}

#[test]
fn medium_armor_negative_dex_contributes_nothing() {
    assert_eq!(
        calculate_ac(&Ac(Armor::HalfPlate, -4, Shield::NoShield, UnarmoredDefense::Neither)),
        15
    );
}

#[test]
fn light_armor_passes_dex_through() {
    assert_eq!(
        calculate_ac(&Ac(Armor::Leather, 4, Shield::NoShield, UnarmoredDefense::Neither)),
        15
    );
    assert_eq!(
        calculate_ac(&Ac(Armor::Leather, -2, Shield::NoShield, UnarmoredDefense::Neither)),
        9
    );
    assert_eq!(
        calculate_ac(&Ac(Armor::StuddedLeather, 3, Shield::Shield, UnarmoredDefense::Neither)),
        17
    );
}

#[test]
fn monk_with_shield_forfeits_bonus() {
    assert_eq!(
        calculate_ac(&Ac(Armor::NoArmor, 1, Shield::Shield, UnarmoredDefense::Monk(5))),
        13
    );
}

#[test]
fn barbarian_keeps_bonus_with_shield() {
    assert_eq!(
        calculate_ac(&Ac(Armor::NoArmor, 1, Shield::Shield, UnarmoredDefense::Barbarian(5))),
        18
    );
}

#[test]
fn monk_unarmored_defense_without_shield() {
    assert_eq!(
        calculate_ac(&Ac(Armor::NoArmor, 2, Shield::NoShield, UnarmoredDefense::Monk(3))),
        15
    );
}

#[test]
fn monk_shield_advisory() {
    let big = Ac(Armor::NoArmor, 1, Shield::Shield, UnarmoredDefense::Monk(5));
    assert_eq!(big.monk_shield_loss(), Some(3));
    let small = Ac(Armor::NoArmor, 1, Shield::Shield, UnarmoredDefense::Monk(2));
    assert_eq!(small.monk_shield_loss(), Some(0));
    let no_shield = Ac(Armor::NoArmor, 1, Shield::NoShield, UnarmoredDefense::Monk(5));
    assert_eq!(no_shield.monk_shield_loss(), None);
    let barbarian = Ac(Armor::NoArmor, 1, Shield::Shield, UnarmoredDefense::Barbarian(5));
    assert_eq!(barbarian.monk_shield_loss(), None);
}
