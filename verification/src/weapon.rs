//! Weapons of the projectiles example and the score a hit earns.

use vstd::prelude::*;

verus! {

/// The two weapons a player can switch between.
#[derive(Clone, Copy, Debug, PartialEq, Eq, Hash, Structural)]
pub enum WeaponType {
    Hitscan,
    Bullet,
}

impl WeaponType {
    /// The weapon that follows this one in the switching cycle.
    pub open spec fn spec_next(self) -> WeaponType {
        match self {
            WeaponType::Hitscan => WeaponType::Bullet,
            WeaponType::Bullet => WeaponType::Hitscan,
        }
    }

    /// The name shown for the weapon.
    pub open spec fn spec_name(self) -> Seq<char> {
        match self {
            WeaponType::Hitscan => "Hitscan"@,
            WeaponType::Bullet => "Linear Projectile"@,
        }
    }

    /// Shots per second.
    pub open spec fn spec_fire_rate(self) -> u32 {
        match self {
            WeaponType::Hitscan => 5,
            WeaponType::Bullet => 2,
        }
    }

    pub fn next(&self) -> (w: WeaponType)
        ensures
            w == self.spec_next(),
    {
        match self {
            WeaponType::Hitscan => WeaponType::Bullet,
            WeaponType::Bullet => WeaponType::Hitscan,
        }
    }

    pub fn name(&self) -> (r: &'static str)
        ensures
            r@ == self.spec_name(),
    {
        match self {
            WeaponType::Hitscan => "Hitscan",
            WeaponType::Bullet => "Linear Projectile",
        }
    }

    /// Shots per second of the weapon.
    pub fn fire_rate(&self) -> (r: u32)
        ensures
            r == self.spec_fire_rate(),
    {
        match self {
            WeaponType::Hitscan => 5,
            WeaponType::Bullet => 2,
        }
    }
}

impl Default for WeaponType {
    fn default() -> (r: Self)
        ensures
            r == WeaponType::Hitscan,
    {
        WeaponType::Hitscan
    }
}

/// Switching weapons always changes the weapon, and switching twice comes
/// back to the weapon one started with.
pub proof fn law_weapon_cycle(w: WeaponType)
    ensures
        w.spec_next() != w,
        w.spec_next().spec_next() == w,
{
}

/// A player's weapon state: the tick of its last shot, if any.
#[derive(Clone, Copy, Debug, PartialEq, Eq, Structural)]
pub struct Weapon {
    pub last_fire_tick: Option<u16>,
}

impl Default for Weapon {
    fn default() -> (r: Self)
        ensures
            r.last_fire_tick is None,
    {
        Weapon { last_fire_tick: None }
    }
}

/// Number of bullet hits a player has scored.
#[derive(Clone, Copy, Debug, PartialEq, Eq, Structural)]
pub struct Score(pub usize);

impl Score {
    /// Counts one more hit.
    pub fn record_hit(&mut self)
        requires
            old(self).0 < usize::MAX,
        ensures
            final(self).0 == old(self).0 + 1,
    {
        self.0 = self.0 + 1;
    }
}

} // verus!
