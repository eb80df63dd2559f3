//! The domain vocabulary shared by the two calculators: hit dice, classes,
//! armor, shields and unarmored defense, with their fixed lookup tables and
//! the hit-dice text parser.

use vstd::prelude::*;

verus! {

/// A hit die: one of the canonical face counts, or a custom one.
///
/// A well-formed die has a positive face count; `Other(0)` is representable
/// but never produced by [`Dice::from_str`].
#[derive(Debug, Clone, Copy, PartialEq, Eq, Structural)]
pub enum Dice {
    D4,
    D6,
    D8,
    D10,
    D12,
    D20,
    Other(u8),
}

/// The numeric face count of a die.
pub open spec fn spec_faces(d: Dice) -> u8 {
    match d {
        Dice::D4 => 4,
        Dice::D6 => 6,
        Dice::D8 => 8,
        Dice::D10 => 10,
        Dice::D12 => 12,
        Dice::D20 => 20,
        Dice::Other(other) => other,
    }
}

/// A die is well formed when it has at least one face.
pub open spec fn dice_wf(d: Dice) -> bool {
    spec_faces(d) >= 1
}

impl Dice {
    /// The numeric face count of the die.
    pub fn faces(&self) -> (r: u8)
        ensures
            r == spec_faces(*self),
    {
        match self {
            Dice::D4 => 4,
            Dice::D6 => 6,
            Dice::D8 => 8,
            Dice::D10 => 10,
            Dice::D12 => 12,
            Dice::D20 => 20,
            Dice::Other(other) => *other,
        }
    }
}

impl Default for Dice {
    /// The customary die: a d8.
    fn default() -> (r: Self)
        ensures
            r == Dice::D8,
    {
        Dice::D8
    }
}

/// The error of the hit-dice text parser: the text is not a positive integer,
/// with or without a leading `d`.
#[derive(Debug, Clone, Copy, PartialEq, Eq, Structural)]
pub struct DiceParseError;

/// An ASCII digit.
pub open spec fn is_ascii_digit_char(c: char) -> bool {
    '0' <= c && c <= '9'
}

/// The numeric value of an ASCII digit.
pub open spec fn digit_value(c: char) -> int {
    c as u32 - '0' as u32
}

/// The number an all-digit text denotes, most significant digit first.
pub open spec fn digits_value(s: Seq<char>) -> int
    decreases s.len(),
{
    if s.len() == 0 {
        0
    } else {
        digits_value(s.drop_last()) * 10 + digit_value(s.last())
    }
}

/// Whether every character of the text is an ASCII digit.
pub open spec fn all_digits(s: Seq<char>) -> bool {
    forall|i: int| 0 <= i < s.len() ==> is_ascii_digit_char(s[i])
}

/// The digit part of hit-dice text: what follows an optional leading `d` or
/// `D`.
pub open spec fn dice_digits(s: Seq<char>) -> Seq<char> {
    if s.len() > 0 && (s[0] == 'd' || s[0] == 'D') {
        s.subrange(1, s.len() as int)
    } else {
        s
    }
}

/// Well-formed hit-dice text: an optional `d` or `D`, then one or more
/// digits, denoting a positive count that fits the face-count type.
pub open spec fn dice_text_valid(s: Seq<char>) -> bool {
    dice_digits(s).len() > 0 && all_digits(dice_digits(s)) && 1 <= digits_value(dice_digits(s))
        <= u8::MAX
}

/// The canonical die of a face count: the named die when the count matches
/// one, the custom die otherwise.
pub open spec fn canonical_dice(n: u8) -> Dice {
    if n == 4 {
        Dice::D4
    } else if n == 6 {
        Dice::D6
    } else if n == 8 {
        Dice::D8
    } else if n == 10 {
        Dice::D10
    } else if n == 12 {
        Dice::D12
    } else if n == 20 {
        Dice::D20
    } else {
        Dice::Other(n)
    }
}

/// The die that well-formed hit-dice text denotes.
pub open spec fn parsed_dice(s: Seq<char>) -> Dice {
    canonical_dice(digits_value(dice_digits(s)) as u8)
}

impl Dice {
    /// Parses hit-dice text: a positive integer, optionally prefixed with `d`
    /// or `D`. A count matching a named die yields that die; any other
    /// positive count that fits the face-count type yields the custom die;
    /// everything else is an error.
    pub fn from_str(s: &str) -> (r: Result<Dice, DiceParseError>)
        ensures
            r is Ok <==> dice_text_valid(s@),
            dice_text_valid(s@) ==> r == Ok::<Dice, DiceParseError>(parsed_dice(s@)),
    {
        let n: usize = s.unicode_len();
        let mut start: usize = 0;
        if n > 0 {
            let c0: char = s.get_char(0);
            if c0 == 'd' || c0 == 'D' {
                start = 1;
            }
        }
        let ghost d: Seq<char> = dice_digits(s@);
        proof {
            assert(d =~= s@.subrange(start as int, n as int));
        }
        if start >= n {
            return Err(DiceParseError);
        }
        let mut i: usize = start;
        let mut acc: u32 = 0;
        while i < n
            invariant
                n == s@.len(),
                start <= i <= n,
                start <= 1,
                d == dice_digits(s@),
                d == s@.subrange(start as int, n as int),
                forall|j: int| start <= j < i ==> is_ascii_digit_char(s@[j]),
                digits_value(s@.subrange(start as int, i as int)) <= u8::MAX ==> acc
                    == digits_value(s@.subrange(start as int, i as int)),
                digits_value(s@.subrange(start as int, i as int)) > u8::MAX ==> acc == 256,
                acc <= 256,
            decreases n - i,
        {
            let ghost prefix: Seq<char> = s@.subrange(start as int, i as int);
            let c: char = s.get_char(i);
            if !('0' <= c && c <= '9') {
                proof {
                    assert(d[i - start] == s@[i as int]);
                    assert(!is_ascii_digit_char(d[i - start]));
                    assert(!all_digits(d));
                }
                return Err(DiceParseError);
            }
            let dv: u32 = c as u32 - '0' as u32;
            if acc <= 255 {
                let t: u32 = acc * 10 + dv;
                if t > 255 {
                    acc = 256;
                } else {
                    acc = t;
                }
            }
            i = i + 1;
            proof {
                let extended = s@.subrange(start as int, i as int);
                assert(extended.drop_last() =~= prefix);
                assert(extended.last() == c);
            }
        }
        proof {
            assert(forall|j: int| 0 <= j < d.len() ==> d[j] == s@[start + j]);
        }
        if acc == 0 || acc > 255 {
            return Err(DiceParseError);
        }
        let v: u8 = acc as u8;
        let die: Dice = if v == 4 {
            Dice::D4
        } else if v == 6 {
            Dice::D6
        } else if v == 8 {
            Dice::D8
        } else if v == 10 {
            Dice::D10
        } else if v == 12 {
            Dice::D12
        } else if v == 20 {
            Dice::D20
        } else {
            Dice::Other(v)
        };
        Ok(die)
    }

    /// Decides the outcome of the hit-dice dialogue: a canonical menu choice
    /// stands as picked, while the custom entry defers to the die obtained by
    /// the follow-up question `ask_sides`.
    pub fn prompt<F: FnOnce() -> Dice>(selection: Dice, ask_sides: F) -> (r: Dice)
        requires
            call_requires(ask_sides, ()),
        ensures
            selection is Other ==> call_ensures(ask_sides, (), r),
            !(selection is Other) ==> r == selection,
    {
        match selection {
            Dice::Other(_) => ask_sides(),
            die => die,
        }
    }
}

/// A character class: one of the thirteen fixed archetypes, or a homebrew
/// class with a chosen name and hit die.
///
/// A homebrew name, when present, is non-empty display text.
#[derive(Debug, Clone, PartialEq, Eq)]
pub enum Class {
    Barbarian,
    Bard,
    Cleric,
    Druid,
    Fighter,
    Monk,
    Paladin,
    Ranger,
    Rogue,
    Sorcerer,
    Warlock,
    Wizard,
    Artificer,
    Homebrew { name: Option<String>, hit_dice: Dice },
}

/// The hit die of a class: a fixed, total lookup for the archetypes, and the
/// chosen die for a homebrew class.
pub open spec fn spec_hit_dice(c: Class) -> Dice {
    match c {
        Class::Barbarian => Dice::D12,
        Class::Bard => Dice::D8,
        Class::Cleric => Dice::D8,
        Class::Druid => Dice::D8,
        Class::Fighter => Dice::D10,
        Class::Monk => Dice::D8,
        Class::Paladin => Dice::D10,
        Class::Ranger => Dice::D10,
        Class::Rogue => Dice::D8,
        Class::Sorcerer => Dice::D6,
        Class::Warlock => Dice::D8,
        Class::Wizard => Dice::D6,
        Class::Artificer => Dice::D8,
        Class::Homebrew { name: _, hit_dice } => hit_dice,
    }
}

impl Class {
    /// The hit die this class rolls for hit points.
    pub fn hit_dice(&self) -> (r: Dice)
        ensures
            r == spec_hit_dice(*self),
    {
        match self {
            Class::Barbarian => Dice::D12,
            Class::Bard => Dice::D8,
            Class::Cleric => Dice::D8,
            Class::Druid => Dice::D8,
            Class::Fighter => Dice::D10,
            Class::Monk => Dice::D8,
            Class::Paladin => Dice::D10,
            Class::Ranger => Dice::D10,
            Class::Rogue => Dice::D8,
            Class::Sorcerer => Dice::D6,
            Class::Warlock => Dice::D8,
            Class::Wizard => Dice::D6,
            Class::Artificer => Dice::D8,
            Class::Homebrew { name: _, hit_dice } => *hit_dice,
        }
    }

    /// Decides the outcome of the class dialogue: an archetype choice stands
    /// as picked, while the homebrew entry is completed from the follow-up
    /// questions `ask_dice` and `ask_name`. An empty name is recorded as no
    /// name, so a present homebrew name is always non-empty.
    pub fn prompt<FD: FnOnce() -> Dice, FN: FnOnce() -> String>(
        selection: Class,
        ask_dice: FD,
        ask_name: FN,
    ) -> (r: Class)
        requires
            call_requires(ask_dice, ()),
            call_requires(ask_name, ()),
        ensures
            !(selection is Homebrew) ==> r == selection,
            selection is Homebrew ==> exists|die: Dice, entered: String|
                call_ensures(ask_dice, (), die) && call_ensures(ask_name, (), entered) && r == (
                Class::Homebrew {
                    name: if entered@.len() == 0 {
                        Option::None
                    } else {
                        Option::Some(entered)
                    },
                    hit_dice: die,
                }),
    {
        match selection {
            Class::Homebrew { .. } => {
                let hit_dice: Dice = ask_dice();
                let entered: String = ask_name();
                let ghost entered_g: String = entered;
                let name: Option<String> = if entered.as_str().is_empty() {
                    Option::None
                } else {
                    Option::Some(entered)
                };
                let result: Class = Class::Homebrew { name, hit_dice };
                proof {
                    assert(call_ensures(ask_dice, (), hit_dice) && call_ensures(
                        ask_name,
                        (),
                        entered_g,
                    ) && result == (Class::Homebrew {
                        name: if entered_g@.len() == 0 {
                            Option::None
                        } else {
                            Option::Some(entered_g)
                        },
                        hit_dice,
                    }));
                }
                result
            },
            picked => picked,
        }
    }
}

/// A worn armor category, including wearing none.
#[derive(Debug, Clone, Copy, PartialEq, Eq, Structural)]
pub enum Armor {
    NoArmor,
    Padded,
    Leather,
    StuddedLeather,
    Hide,
    ChainShirt,
    ScaleMail,
    Breastplate,
    HalfPlate,
    RingMail,
    ChainMail,
    Splint,
    Plate,
}

/// The fixed base armor class of each armor category.
pub open spec fn spec_base_ac(a: Armor) -> u8 {
    match a {
        Armor::NoArmor => 10,
        Armor::Padded => 11,
        Armor::Leather => 11,
        Armor::StuddedLeather => 12,
        Armor::Hide => 12,
        Armor::ChainShirt => 13,
        Armor::ScaleMail => 14,
        Armor::Breastplate => 14,
        Armor::HalfPlate => 15,
        Armor::RingMail => 14,
        Armor::ChainMail => 16,
        Armor::Splint => 17,
        Armor::Plate => 18,
    }
}

/// The light group, no armor included: the dexterity modifier applies in full.
pub open spec fn is_light(a: Armor) -> bool {
    a == Armor::NoArmor || a == Armor::Padded || a == Armor::Leather || a == Armor::StuddedLeather
}

/// The medium group: the dexterity modifier is clamped to the range `[0, 2]`.
pub open spec fn is_medium(a: Armor) -> bool {
    a == Armor::Hide || a == Armor::ChainShirt || a == Armor::ScaleMail || a == Armor::Breastplate
        || a == Armor::HalfPlate
}

/// The heavy group: the dexterity modifier contributes nothing.
pub open spec fn is_heavy(a: Armor) -> bool {
    a == Armor::RingMail || a == Armor::ChainMail || a == Armor::Splint || a == Armor::Plate
}

/// Every armor category falls in exactly one of the three dexterity-policy
/// groups.
pub proof fn lemma_armor_group_partition(a: Armor)
    ensures
        is_light(a) || is_medium(a) || is_heavy(a),
        !(is_light(a) && is_medium(a)),
        !(is_light(a) && is_heavy(a)),
        !(is_medium(a) && is_heavy(a)),
{
}

impl Armor {
    /// The fixed base armor class of this armor category.
    pub fn base_ac(&self) -> (r: u8)
        ensures
            r == spec_base_ac(*self),
    {
        match self {
            Armor::NoArmor => 10,
            Armor::Padded => 11,
            Armor::Leather => 11,
            Armor::StuddedLeather => 12,
            Armor::Hide => 12,
            Armor::ChainShirt => 13,
            Armor::ScaleMail => 14,
            Armor::Breastplate => 14,
            Armor::HalfPlate => 15,
            Armor::RingMail => 14,
            Armor::ChainMail => 16,
            Armor::Splint => 17,
            Armor::Plate => 18,
        }
    }
}

/// Whether a shield is worn.
#[derive(Debug, Clone, Copy, PartialEq, Eq, Structural)]
pub enum Shield {
    Shield,
    NoShield,
}

/// The armor-class bonus of a shield: 2 when worn, else 0.
pub open spec fn spec_shield_bonus(s: Shield) -> u8 {
    match s {
        Shield::Shield => 2,
        Shield::NoShield => 0,
    }
}

impl Shield {
    /// The armor-class bonus this shield choice grants.
    pub fn bonus(&self) -> (r: u8)
        ensures
            r == spec_shield_bonus(*self),
    {
        match self {
            Shield::Shield => 2,
            Shield::NoShield => 0,
        }
    }
}

/// An unarmored-defense feature, carrying the relevant ability modifier:
/// constitution for a barbarian, wisdom for a monk.
#[derive(Debug, Clone, Copy, PartialEq, Eq, Structural)]
pub enum UnarmoredDefense {
    Barbarian(i8),
    Monk(i8),
    Neither,
}

} // verus!
