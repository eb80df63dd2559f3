//! The hit-point calculator: a pure function from a hit-point request and a
//! randomness source to the resulting total, by the averaged or the rolled
//! progression.

use vstd::prelude::*;

use crate::dnd::{dice_wf, spec_faces, spec_hit_dice, Class};

verus! {

/// How hit points are gained past level 1: one die roll per level, or the
/// fixed per-level average.
#[derive(Debug, Clone, Copy, PartialEq, Eq, Structural)]
pub enum Method {
    Rolled,
    Average,
}

/// A hit-point request: class, level, constitution modifier, the Tough feat,
/// hill-dwarf ancestry, and the chosen progression method.
#[derive(Debug, Clone)]
pub struct Hp {
    pub class: Class,
    pub level: u32,
    pub con_mod: u8,
    pub has_tough: bool,
    pub is_hill_dwarf: bool,
    pub method: Method,
}

/// The outcome of a calculation: the total, and for the rolled method also
/// the per-level die rolls in level order.
#[derive(Debug, Clone, PartialEq, Eq)]
pub enum HpResult {
    Rolled(u32, Vec<u8>),
    Average(u32),
}

/// The Tough feat grants 2 hit points per level.
pub open spec fn tough_bonus(has_tough: bool, level: u32) -> int {
    if has_tough {
        2 * level
    } else {
        0
    }
}

/// Hill-dwarf ancestry grants 1 hit point per level.
pub open spec fn hill_dwarf_bonus(is_hill_dwarf: bool, level: u32) -> int {
    if is_hill_dwarf {
        level as int
    } else {
        0
    }
}

/// The face count of the hit die a request rolls.
pub open spec fn hp_faces(hp: Hp) -> int {
    spec_faces(spec_hit_dice(hp.class)) as int
}

/// The averaged hit points gained at each level past the first:
/// `1 + ceil(faces / 2)`.
pub open spec fn per_level_average(faces: int) -> int {
    1 + (faces + 1) / 2
}

/// The total of the average method: the full die plus the constitution
/// modifier at level 1, the per-level average plus the constitution modifier
/// at each later level, and the feat and ancestry bonuses.
pub open spec fn average_total(hp: Hp) -> int {
    hp_faces(hp) + hp.con_mod + (per_level_average(hp_faces(hp)) + hp.con_mod) * (hp.level - 1)
        + tough_bonus(hp.has_tough, hp.level) + hill_dwarf_bonus(hp.is_hill_dwarf, hp.level)
}

/// The sum of a sequence of die rolls.
pub open spec fn rolls_total(rolls: Seq<u8>) -> int
    decreases rolls.len(),
{
    if rolls.len() == 0 {
        0
    } else {
        rolls_total(rolls.drop_last()) + rolls.last()
    }
}

/// The total of the rolled method over a given roll sequence: the full die
/// plus the constitution modifier at level 1, each recorded roll plus the
/// constitution modifier, and the feat and ancestry bonuses.
pub open spec fn rolled_total(hp: Hp, rolls: Seq<u8>) -> int {
    hp_faces(hp) + hp.con_mod + tough_bonus(hp.has_tough, hp.level) + hill_dwarf_bonus(
        hp.is_hill_dwarf,
        hp.level,
    ) + rolls_total(rolls) + hp.con_mod * rolls.len()
}

/// The largest total the rolled method can reach: every roll comes up with
/// the full face count.
pub open spec fn max_rolled_total(hp: Hp) -> int {
    hp_faces(hp) + hp.con_mod + tough_bonus(hp.has_tough, hp.level) + hill_dwarf_bonus(
        hp.is_hill_dwarf,
        hp.level,
    ) + (hp_faces(hp) + hp.con_mod) * (hp.level - 1)
}

/// A well-formed request: the level is at least 1 and the hit die is well
/// formed.
pub open spec fn hp_request_wf(hp: Hp) -> bool {
    hp.level >= 1 && dice_wf(spec_hit_dice(hp.class))
}

/// The injected randomness capability of the rolled method: one method that
/// draws an integer from an inclusive range starting at 1. Deterministic
/// sources may stand in for it in tests.
pub trait RandomSource {
    /// Draws one die roll: an integer between 1 and `faces`, both inclusive.
    fn roll(&mut self, faces: u8) -> (r: u8)
        requires
            faces >= 1,
        ensures
            1 <= r <= faces,
    ;
}

/// The process-wide generator as a randomness source.
#[derive(Debug, Clone, Copy)]
pub struct ThreadRngSource;

/// Relies on rand::Rng::gen_range over rand::thread_rng: a sample from a
/// non-empty inclusive range lies within that range.
#[verifier::external_body]
fn thread_roll(faces: u8) -> (r: u8)
    requires
        faces >= 1,
    ensures
        1 <= r <= faces,
{
    rand::Rng::gen_range(&mut rand::thread_rng(), 1..=faces)
}

impl RandomSource for ThreadRngSource {
    fn roll(&mut self, faces: u8) -> u8 {
        thread_roll(faces)
    }
}

/// A deterministic randomness source: hands out a fixed sequence of rolls in
/// order, each forced into the asked-for range, and 1 once exhausted.
#[derive(Debug, Clone)]
pub struct FixedRolls {
    pub rolls: Vec<u8>,
    pub next: usize,
}

impl FixedRolls {
    /// A source that will hand out `rolls` in order.
    pub fn new(rolls: Vec<u8>) -> (r: FixedRolls)
        ensures
            r.rolls == rolls,
            r.next == 0,
    {
        FixedRolls { rolls, next: 0 }
    }
}

impl RandomSource for FixedRolls {
    fn roll(&mut self, faces: u8) -> u8 {
        let mut v: u8 = 1;
        if self.next < self.rolls.len() {
            v = self.rolls[self.next];
            self.next = self.next + 1;
        }
        if v < 1 {
            1
        } else if v > faces {
            faces
        } else {
            v
        }
    }
}

impl Hp {
    /// Computes the hit points of this request, drawing the rolled method's
    /// die rolls from `rng`.
    pub fn calculate<R: RandomSource>(&self, rng: &mut R) -> (r: HpResult)
        requires
            hp_request_wf(*self),
            self.method == Method::Average ==> average_total(*self) <= u32::MAX,
            self.method == Method::Rolled ==> max_rolled_total(*self) <= u32::MAX,
        ensures
            self.method == Method::Average ==> r == HpResult::Average(average_total(*self) as u32),
            self.method == Method::Rolled ==> r is Rolled,
            r matches HpResult::Rolled(total, rolls) ==> (self.method == Method::Rolled
                && rolls@.len() == self.level - 1 && total == rolled_total(*self, rolls@) && (
            forall|j: int|
                0 <= j < rolls@.len() ==> 1 <= #[trigger] rolls@[j] <= hp_faces(*self))),
    {
        proof {
            vstd::arithmetic::mul::lemma_mul_nonnegative(
                per_level_average(hp_faces(*self)) + self.con_mod,
                self.level - 1,
            );
            vstd::arithmetic::mul::lemma_mul_nonnegative(
                hp_faces(*self) + self.con_mod,
                self.level - 1,
            );
        }
        let faces: u8 = self.class.hit_dice().faces();
        let con: u32 = self.con_mod as u32;
        let level: u32 = self.level;
        let tough_v: u32 = if self.has_tough {
            2 * level
        } else {
            0
        };
        let dwarf_v: u32 = if self.is_hill_dwarf {
            level
        } else {
            0
        };
        match self.method {
            Method::Average => {
                let per_level: u32 = 1 + (faces as u32 + 1) / 2 + con;
                let total: u32 = faces as u32 + con + per_level * (level - 1) + tough_v + dwarf_v;
                HpResult::Average(total)
            },
            Method::Rolled => {
                let base: u32 = faces as u32 + con + tough_v + dwarf_v;
                let mut total: u32 = base;
                let mut rolls: Vec<u8> = Vec::new();
                let mut i: u32 = 1;
                while i < level
                    invariant
                        hp_request_wf(*self),
                        max_rolled_total(*self) <= u32::MAX,
                        faces == spec_faces(spec_hit_dice(self.class)),
                        con == self.con_mod,
                        level == self.level,
                        tough_v == tough_bonus(self.has_tough, self.level),
                        dwarf_v == hill_dwarf_bonus(self.is_hill_dwarf, self.level),
                        base == hp_faces(*self) + con + tough_v + dwarf_v,
                        1 <= i <= level,
                        rolls@.len() == i - 1,
                        forall|j: int|
                            0 <= j < rolls@.len() ==> 1 <= #[trigger] rolls@[j] <= faces,
                        total == base + rolls_total(rolls@) + con * rolls@.len(),
                        total <= base + (faces + con) * rolls@.len(),
                    decreases level - i,
                {
                    let ghost old_rolls: Seq<u8> = rolls@;
                    let ghost len: int = rolls@.len() as int;
                    proof {
                        assert((faces + con) * (len + 1) == (faces + con) * len + (faces + con))
                            by (nonlinear_arith);
                        assert(con * (len + 1) == con * len + con) by (nonlinear_arith);
                        assert((faces + con) * (len + 1) <= (faces + con) * (level - 1))
                            by (nonlinear_arith)
                            requires
                                0 <= faces + con,
                                len + 1 <= level - 1,
                        ;
                    }
                    let roll: u8 = rng.roll(faces);
                    total = total + roll as u32 + con;
                    rolls.push(roll);
                    proof {
                        assert(rolls@.drop_last() =~= old_rolls);
                    }
                    i = i + 1;
                }
                HpResult::Rolled(total, rolls)
            },
        }
    }
}

/// Computes the hit points of a request, drawing the rolled method's die
/// rolls from `rng`.
pub fn calculate_hp<R: RandomSource>(hp: &Hp, rng: &mut R) -> (r: HpResult)
    requires
        hp_request_wf(*hp),
        hp.method == Method::Average ==> average_total(*hp) <= u32::MAX,
        hp.method == Method::Rolled ==> max_rolled_total(*hp) <= u32::MAX,
    ensures
        hp.method == Method::Average ==> r == HpResult::Average(average_total(*hp) as u32),
        hp.method == Method::Rolled ==> r is Rolled,
        r matches HpResult::Rolled(total, rolls) ==> (hp.method == Method::Rolled
            && rolls@.len() == hp.level - 1 && total == rolled_total(*hp, rolls@) && (forall|
            j: int,
        |
            0 <= j < rolls@.len() ==> 1 <= #[trigger] rolls@[j] <= hp_faces(*hp))),
{
    hp.calculate(rng)
}

/// At level 1 the two methods agree: the rolled method draws no rolls, and
/// its total equals the average method's level-1-only term.
pub proof fn lemma_rolled_level_one_matches_average(hp: Hp)
    requires
        hp.level == 1,
    ensures
        rolled_total(hp, Seq::empty()) == average_total(hp),
{
    assert(rolls_total(Seq::empty()) == 0);
}

} // verus!
