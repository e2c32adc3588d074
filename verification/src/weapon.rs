//! The player's weapon system: a level from 1 to 6 and the loadout of
//! primary weapons it implies. Weapon power-ups raise the level; the
//! loadout is a fixed table per level.
//!
//! Offsets are in integer world units; directions are unnormalised rays in
//! tenths, which the embedding normalises before use.

use vstd::prelude::*;

verus! {

/// The highest weapon level a power-up can reach.
pub const MAX_WEAPON_LEVEL: u8 = 6;

/// One primary weapon: where on the ship it fires from, and in which
/// direction (a ray in tenths of a unit, not normalised).
#[derive(Clone, Copy, Debug, PartialEq, Eq, Structural)]
pub struct Weapon {
    pub offset_x: i32,
    pub offset_y: i32,
    pub dir_x_tenths: i32,
    pub dir_y_tenths: i32,
}

/// The player's weapon system.
#[derive(Clone, Debug)]
pub struct WeaponSystem {
    pub level: u8,
    pub cooldown_ms: u32,
    pub primary: Vec<Weapon>,
}

/// Shorthand for a weapon entry.
pub open spec fn spec_weapon(ox: int, oy: int, dx: int, dy: int) -> Weapon {
    Weapon {
        offset_x: ox as i32,
        offset_y: oy as i32,
        dir_x_tenths: dx as i32,
        dir_y_tenths: dy as i32,
    }
}

/// The loadout table: which primary weapons each level grants. Levels
/// beyond the table reuse the top row; level `n` grants `n` weapons.
pub open spec fn spec_level_loadout(level: u8) -> Seq<Weapon> {
    if level <= 1 {
        seq![spec_weapon(0, 5, 0, 10)]
    } else if level == 2 {
        seq![spec_weapon(5, 5, 0, 10), spec_weapon(-5, 5, 0, 10)]
    } else if level == 3 {
        seq![spec_weapon(5, 5, 4, 10), spec_weapon(0, 5, 0, 10), spec_weapon(-5, 5, -4, 10)]
    } else if level == 4 {
        seq![
            spec_weapon(5, -3, 10, 0),
            spec_weapon(5, 5, 0, 10),
            spec_weapon(-5, 5, 0, 10),
            spec_weapon(-5, -3, -10, 0),
        ]
    } else if level == 5 {
        seq![
            spec_weapon(0, 5, 0, 10),
            spec_weapon(5, 5, 4, 10),
            spec_weapon(-5, 5, -4, 10),
            spec_weapon(-5, 0, -10, 0),
            spec_weapon(5, 0, 10, 0),
        ]
    } else {
        seq![
            spec_weapon(0, 5, 0, 10),
            spec_weapon(5, 5, 4, 10),
            spec_weapon(-5, 5, -4, 10),
            spec_weapon(5, -4, 10, 0),
            spec_weapon(-5, -4, -10, 0),
            spec_weapon(0, -5, 0, -10),
        ]
    }
}

impl WeaponSystem {
    /// A well-formed weapon system: a level within bounds, firing exactly
    /// one primary weapon per level.
    pub open spec fn wf(&self) -> bool {
        &&& 1 <= self.level <= MAX_WEAPON_LEVEL
        &&& self.primary@.len() == self.level
    }

    /// A fresh level-1 system with a single forward weapon at the given
    /// vertical offset.
    pub fn new(cooldown_ms: u32, y_offset: i32) -> (w: WeaponSystem)
        ensures
            w.wf(),
            w.level == 1,
            w.cooldown_ms == cooldown_ms,
            w.primary@ == seq![
                Weapon { offset_x: 0, offset_y: y_offset, dir_x_tenths: 0, dir_y_tenths: 10 },
            ],
    {
        let mut primary: Vec<Weapon> = Vec::new();
        primary.push(Weapon { offset_x: 0, offset_y: y_offset, dir_x_tenths: 0, dir_y_tenths: 10 });
        let w = WeaponSystem { level: 1, cooldown_ms, primary };
        proof {
            assert(w.primary@ =~= seq![
                Weapon { offset_x: 0, offset_y: y_offset, dir_x_tenths: 0, dir_y_tenths: 10 },
            ]);
        }
        w
    }

    /// Drops back to level 1 with the default loadout; the run keeps the
    /// loadout otherwise, so this fires only on a loadout reset.
    pub fn reset(&mut self)
        ensures
            final(self).wf(),
            final(self).level == 1,
            final(self).primary@ == spec_level_loadout(1),
            final(self).cooldown_ms == old(self).cooldown_ms,
    {
        self.level = 1;
        let mut primary: Vec<Weapon> = Vec::new();
        primary.push(Weapon { offset_x: 0, offset_y: 5, dir_x_tenths: 0, dir_y_tenths: 10 });
        self.primary = primary;
        proof {
            assert(self.primary@ =~= spec_level_loadout(1));
        }
    }

    /// Raises the level by one, capped at the maximum, and installs that
    /// level's loadout. Level `n` fires `n` primary weapons.
    pub fn upgrade(&mut self)
        requires
            old(self).wf(),
        ensures
            final(self).wf(),
            final(self).level == if old(self).level < MAX_WEAPON_LEVEL {
                old(self).level + 1
            } else {
                MAX_WEAPON_LEVEL as int
            },
            final(self).primary@ == spec_level_loadout(final(self).level),
            final(self).primary@.len() == final(self).level,
            final(self).cooldown_ms == old(self).cooldown_ms,
    {
        let next = if self.level < MAX_WEAPON_LEVEL {
            self.level + 1
        } else {
            MAX_WEAPON_LEVEL
        };
        self.level = next;
        let mut primary: Vec<Weapon> = Vec::new();
        if next == 2 {
            primary.push(Weapon { offset_x: 5, offset_y: 5, dir_x_tenths: 0, dir_y_tenths: 10 });
            primary.push(Weapon { offset_x: -5, offset_y: 5, dir_x_tenths: 0, dir_y_tenths: 10 });
        } else if next == 3 {
            primary.push(Weapon { offset_x: 5, offset_y: 5, dir_x_tenths: 4, dir_y_tenths: 10 });
            primary.push(Weapon { offset_x: 0, offset_y: 5, dir_x_tenths: 0, dir_y_tenths: 10 });
            primary.push(Weapon { offset_x: -5, offset_y: 5, dir_x_tenths: -4, dir_y_tenths: 10 });
        } else if next == 4 {
            primary.push(Weapon { offset_x: 5, offset_y: -3, dir_x_tenths: 10, dir_y_tenths: 0 });
            primary.push(Weapon { offset_x: 5, offset_y: 5, dir_x_tenths: 0, dir_y_tenths: 10 });
            primary.push(Weapon { offset_x: -5, offset_y: 5, dir_x_tenths: 0, dir_y_tenths: 10 });
            primary.push(Weapon { offset_x: -5, offset_y: -3, dir_x_tenths: -10, dir_y_tenths: 0 });
        } else if next == 5 {
            primary.push(Weapon { offset_x: 0, offset_y: 5, dir_x_tenths: 0, dir_y_tenths: 10 });
            primary.push(Weapon { offset_x: 5, offset_y: 5, dir_x_tenths: 4, dir_y_tenths: 10 });
            primary.push(Weapon { offset_x: -5, offset_y: 5, dir_x_tenths: -4, dir_y_tenths: 10 });
            primary.push(Weapon { offset_x: -5, offset_y: 0, dir_x_tenths: -10, dir_y_tenths: 0 });
            primary.push(Weapon { offset_x: 5, offset_y: 0, dir_x_tenths: 10, dir_y_tenths: 0 });
        } else {
            primary.push(Weapon { offset_x: 0, offset_y: 5, dir_x_tenths: 0, dir_y_tenths: 10 });
            primary.push(Weapon { offset_x: 5, offset_y: 5, dir_x_tenths: 4, dir_y_tenths: 10 });
            primary.push(Weapon { offset_x: -5, offset_y: 5, dir_x_tenths: -4, dir_y_tenths: 10 });
            primary.push(Weapon { offset_x: 5, offset_y: -4, dir_x_tenths: 10, dir_y_tenths: 0 });
            primary.push(Weapon { offset_x: -5, offset_y: -4, dir_x_tenths: -10, dir_y_tenths: 0 });
            primary.push(Weapon { offset_x: 0, offset_y: -5, dir_x_tenths: 0, dir_y_tenths: -10 });
        }
        self.primary = primary;
        proof {
            assert(self.primary@ =~= spec_level_loadout(self.level));
        }
    }

    /// One shooting tick of the player's weapons: with the trigger held
    /// and the cooldown elapsed, every primary weapon of the current
    /// loadout fires once and the cooldown rearms; elapsed time then
    /// counts off the remainder, never below zero.
    pub fn shooting_tick(&self, trigger_held: bool, cooldown_left_ms: u32, delta_ms: u32) -> (r: (
        Vec<Weapon>,
        u32,
    ))
        ensures
            trigger_held && cooldown_left_ms == 0 ==> r.0@ == self.primary@ && r.1 == (
            if self.cooldown_ms >= delta_ms {
                self.cooldown_ms - delta_ms
            } else {
                0int
            }),
            !(trigger_held && cooldown_left_ms == 0) ==> r.0@ == Seq::<Weapon>::empty() && r.1 == (
            if cooldown_left_ms >= delta_ms {
                cooldown_left_ms - delta_ms
            } else {
                0int
            }),
    {
        let mut fired: Vec<Weapon> = Vec::new();
        let mut cooldown = cooldown_left_ms;
        if trigger_held && cooldown == 0 {
            let n = self.primary.len();
            let mut i: usize = 0;
            while i < n
                invariant
                    n == self.primary@.len(),
                    i <= n,
                    fired@ == self.primary@.take(i as int),
                decreases n - i,
            {
                fired.push(self.primary[i]);
                proof {
                    assert(fired@ =~= self.primary@.take(i as int + 1));
                }
                i = i + 1;
            }
            proof {
                assert(fired@ =~= self.primary@);
            }
            cooldown = self.cooldown_ms;
        }
        let remaining = if cooldown >= delta_ms {
            cooldown - delta_ms
        } else {
            0
        };
        (fired, remaining)
    }
}

} // verus!
