//! The closed set of elemental tags.

use vstd::prelude::*;

verus! {

/// An elemental tag. The set is closed: the effectiveness table is total
/// over every ordered pair of elements. `Phantom` is the spectral element
/// (`Ghost` is a reserved word of the verifier).
#[derive(Clone, Copy, Debug, PartialEq, Eq, Structural)]
pub enum Element {
    Bug,
    Dark,
    Dragon,
    Electric,
    Fairy,
    Fighting,
    Fire,
    Flying,
    Grass,
    Ground,
    Ice,
    Normal,
    Phantom,
    Poison,
    Psychic,
    Rock,
    Steel,
    Water,
}

} // verus!
