use danjon::dnd::{Class, Dice, DiceParseError};

#[test]
fn parse_named_dice() {
    assert_eq!(Dice::from_str("d8"), Ok(Dice::D8));
    assert_eq!(Dice::from_str("8"), Ok(Dice::D8));
    assert_eq!(Dice::from_str("d4"), Ok(Dice::D4));
    assert_eq!(Dice::from_str("6"), Ok(Dice::D6));
    assert_eq!(Dice::from_str("d10"), Ok(Dice::D10));
    assert_eq!(Dice::from_str("12"), Ok(Dice::D12));
    assert_eq!(Dice::from_str("d20"), Ok(Dice::D20));
}

#[test]
fn parse_uppercase_prefix() {
    assert_eq!(Dice::from_str("D12"), Ok(Dice::D12));
}

#[test]
fn parse_custom_dice() {
    assert_eq!(Dice::from_str("7"), Ok(Dice::Other(7)));
    assert_eq!(Dice::from_str("d100"), Ok(Dice::Other(100)));
    assert_eq!(Dice::from_str("255"), Ok(Dice::Other(255)));
}

#[test]
fn parse_accepts_leading_zeros() {
    assert_eq!(Dice::from_str("020"), Ok(Dice::D20));
}

#[test]
fn parse_rejects_non_numbers() {
    assert_eq!(Dice::from_str("abc"), Err(DiceParseError));
    assert_eq!(Dice::from_str("-1"), Err(DiceParseError));
    assert_eq!(Dice::from_str(""), Err(DiceParseError));
    assert_eq!(Dice::from_str("d"), Err(DiceParseError));
    assert_eq!(Dice::from_str("8x"), Err(DiceParseError));
    assert_eq!(Dice::from_str("d8 "), Err(DiceParseError));
}

#[test]
fn parse_rejects_zero_and_oversized() {
    assert_eq!(Dice::from_str("0"), Err(DiceParseError));
    assert_eq!(Dice::from_str("d0"), Err(DiceParseError));
    assert_eq!(Dice::from_str("256"), Err(DiceParseError));
    assert_eq!(Dice::from_str("300"), Err(DiceParseError));
}

#[test]
fn named_dice_faces() {
    assert_eq!(Dice::D4.faces(), 4);
    assert_eq!(Dice::D6.faces(), 6);
    assert_eq!(Dice::D8.faces(), 8);
    assert_eq!(Dice::D10.faces(), 10);
    assert_eq!(Dice::D12.faces(), 12);
    assert_eq!(Dice::D20.faces(), 20);
    assert_eq!(Dice::Other(37).faces(), 37);
}

#[test]
fn default_die_is_d8() {
    assert_eq!(Dice::default(), Dice::D8);
}

#[test]
fn class_hit_dice_table() {
    assert_eq!(Class::Barbarian.hit_dice(), Dice::D12);
    assert_eq!(Class::Bard.hit_dice(), Dice::D8);
    assert_eq!(Class::Cleric.hit_dice(), Dice::D8);
    assert_eq!(Class::Druid.hit_dice(), Dice::D8);
    assert_eq!(Class::Fighter.hit_dice(), Dice::D10);
    assert_eq!(Class::Monk.hit_dice(), Dice::D8);
    assert_eq!(Class::Paladin.hit_dice(), Dice::D10);
    assert_eq!(Class::Ranger.hit_dice(), Dice::D10);
    assert_eq!(Class::Rogue.hit_dice(), Dice::D8);
    assert_eq!(Class::Sorcerer.hit_dice(), Dice::D6);
    assert_eq!(Class::Warlock.hit_dice(), Dice::D8);
    assert_eq!(Class::Wizard.hit_dice(), Dice::D6);
    assert_eq!(Class::Artificer.hit_dice(), Dice::D8);
    let homebrew = Class::Homebrew { name: None, hit_dice: Dice::Other(7) };
    assert_eq!(homebrew.hit_dice(), Dice::Other(7));
}

#[test]
fn dice_prompt_keeps_named_choice() {
    let picked = Dice::prompt(Dice::D6, || unreachable!("no follow-up question is owed"));
    assert_eq!(picked, Dice::D6);
}

#[test]
fn dice_prompt_defers_to_custom_entry() {
    let picked = Dice::prompt(Dice::Other(0), || Dice::from_str("d10").unwrap());
    assert_eq!(picked, Dice::D10);
}

#[test]
fn class_prompt_keeps_archetype() {
    let picked = Class::prompt(
        Class::Rogue,
        || unreachable!("no die question is owed"),
        || unreachable!("no name question is owed"),
    );
    assert_eq!(picked, Class::Rogue);
}

#[test]
fn class_prompt_completes_homebrew() {
    let placeholder = Class::Homebrew { name: None, hit_dice: Dice::D8 };
    let picked = Class::prompt(placeholder, || Dice::D12, || "Bloodhunter".to_string());
    assert_eq!(
        picked,
        Class::Homebrew { name: Some("Bloodhunter".to_string()), hit_dice: Dice::D12 }
    );
}

#[test]
fn class_prompt_drops_empty_homebrew_name() {
    let placeholder = Class::Homebrew { name: None, hit_dice: Dice::D8 };
    let picked = Class::prompt(placeholder, || Dice::D6, || String::new());
    assert_eq!(picked, Class::Homebrew { name: None, hit_dice: Dice::D6 });
}
