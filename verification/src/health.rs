//! Hit points of a character. Health always stays inside `[0, total]`, and no
//! operation on it ever heals: within one session it only goes down.

use vstd::prelude::*;

verus! {

/// Remaining and total hit points.
#[derive(Clone, Copy, Debug, PartialEq, Eq, Structural)]
pub struct Health {
    pub remaining: i64,
    pub total: i64,
}

impl Health {
    /// Health is well formed when what remains lies in `[0, total]`.
    pub open spec fn wf(self) -> bool {
        0 <= self.remaining <= self.total
    }

    pub fn new(remaining: i64, total: i64) -> (h: Health)
        requires
            0 <= remaining <= total,
        ensures
            h.remaining == remaining,
            h.total == total,
            h.wf(),
    {
        Health { remaining, total }
    }

    pub fn full(total: i64) -> (h: Health)
        requires
            total >= 0,
        ensures
            h.remaining == total,
            h.total == total,
            h.wf(),
    {
        Health::new(total, total)
    }

    /// Subtracts `amount` hit points, never dropping below zero.
    pub fn take_damage(&mut self, amount: i64)
        requires
            old(self).wf(),
            amount >= 0,
        ensures
            final(self).wf(),
            final(self).total == old(self).total,
            final(self).remaining <= old(self).remaining,
            old(self).remaining >= amount ==> final(self).remaining == old(self).remaining - amount,
            old(self).remaining < amount ==> final(self).remaining == 0,
    {
        if self.remaining >= amount {
            self.remaining = self.remaining - amount;
        } else {
            self.remaining = 0;
        }
    }
}

impl Default for Health {
    /// A fresh character has the default full hit points.
    fn default() -> (h: Health)
        ensures
            h.remaining == crate::INITIAL_HEALTH,
            h.total == crate::INITIAL_HEALTH,
            h.wf(),
    {
        Health::full(crate::INITIAL_HEALTH)
    }
}

/// Hit points a touch of this entity costs the player.
#[derive(Clone, Copy, Debug, PartialEq, Eq, Structural)]
pub struct Damage(pub i64);

} // verus!
