//! What is left to chance: the coins that some units flip before they
//! answer, and the choice among several answers.

use rand::seq::IndexedRandom;
use vstd::prelude::*;

verus! {

/// `rand::random_ratio` flips a coin that shows `true` in `numerator` of
/// `denominator` cases. It panics where the ratio is no probability; where
/// the ratio is one it gives `true`, where it is zero `false`.
pub assume_specification[ rand::random_ratio ](numerator: u32, denominator: u32) -> (hit: bool)
    requires
        denominator != 0,
        numerator <= denominator,
    ensures
        numerator == denominator ==> hit,
        numerator == 0 ==> !hit,
;

/// Picks one of `lines` with `rand::seq::IndexedRandom::choose` and the
/// generator of the thread: `None` where there is no line, else one of them.
#[verifier::external_body]
pub(crate) fn choose_line(lines: &Vec<&'static str>) -> (picked: Option<&'static str>)
    ensures
        match picked {
            Some(line) => exists|i: int| 0 <= i < lines@.len() && lines@[i] == line,
            None => lines@.len() == 0,
        },
{
    lines.choose(&mut rand::rng()).copied()
}

/// The coins of the units that answer only now and then, one flip each.
#[derive(Clone, Copy, Debug, PartialEq, Eq, Structural)]
pub struct Draws {
    /// One in three.
    pub nullpo: bool,
    /// One in three.
    pub call: bool,
    /// One in two.
    pub meow: bool,
}

impl Draws {
    /// Flips the three coins.
    pub fn sample() -> Draws {
        Draws {
            nullpo: rand::random_ratio(1, 3),
            call: rand::random_ratio(1, 3),
            meow: rand::random_ratio(1, 2),
        }
    }
}

} // verus!
