//! Shared classification types: size categories, impact substances,
//! power-up variants and the tag that names an entity's kind.

use vstd::prelude::*;

verus! {

/// Size tier of an asteroid or of an explosion / audio effect.
///
/// For asteroid fragmentation the tiers form a strict chain
/// `XL -> L -> M -> S`, with `S` terminal.
#[derive(Clone, Copy, Debug, PartialEq, Eq, Structural)]
pub enum Category {
    XL,
    L,
    M,
    S,
}

/// Cosmetic material tag of an impact; selects audio/particle variants and
/// never affects gameplay arithmetic.
#[derive(Clone, Copy, Debug, PartialEq, Eq, Structural)]
pub enum Substance {
    Rock,
    Metal,
    Energy,
    Magic,
    Undefined,
}

/// The two collectible power-up variants.
#[derive(Clone, Copy, Debug, PartialEq, Eq, Structural)]
pub enum PowerUpType {
    Shield,
    Weapon,
}

/// Kind tag of a collision party, as reported to resolver rules about the
/// *other* side of a collision. `Unknown` stands for a handle that matched
/// no registry entry.
#[derive(Clone, Copy, Debug, PartialEq, Eq, Structural)]
pub enum EntityType {
    Player,
    Shield,
    Projectile,
    Asteroid,
    Enemy,
    PowerUp,
    Unknown,
}

/// Per-entity explosion metadata: which size tier a contact explosion uses,
/// which tier a death explosion uses, and the substance of both.
#[derive(Clone, Copy, Debug, PartialEq, Eq, Structural)]
pub struct ImpactInfo {
    pub impact_category: Category,
    pub death_category: Category,
    pub substance: Substance,
}

/// Numeric rank of a size tier, used to state that fragmentation strictly
/// shrinks the tier.
pub open spec fn tier(c: Category) -> int {
    match c {
        Category::XL => 3,
        Category::L => 2,
        Category::M => 1,
        Category::S => 0,
    }
}

/// The next smaller size tier in the fragmentation chain, if any.
pub open spec fn spec_smaller_category(c: Category) -> Option<Category> {
    match c {
        Category::XL => Some(Category::L),
        Category::L => Some(Category::M),
        Category::M => Some(Category::S),
        Category::S => None,
    }
}

impl Category {
    /// Fragments of a destroyed asteroid use the next smaller tier;
    /// a small asteroid leaves no fragments.
    pub fn smaller(self) -> (r: Option<Category>)
        ensures
            r == spec_smaller_category(self),
    {
        match self {
            Category::XL => Some(Category::L),
            Category::L => Some(Category::M),
            Category::M => Some(Category::S),
            Category::S => None,
        }
    }
}

/// Fragmentation strictly shrinks the size tier: every child category of a
/// destroyed asteroid ranks strictly below its parent, and only the smallest
/// tier is terminal.
pub proof fn lemma_fragment_tier_decreases(c: Category)
    ensures
        spec_smaller_category(c) matches Some(child) ==> tier(child) < tier(c),
        spec_smaller_category(c) is None <==> c == Category::S,
{
}

} // verus!
