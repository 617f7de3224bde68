use vstd::prelude::*;

verus! {

/// Hit points: damage saturates at zero, and an entity is alive while it has
/// any left.
#[derive(Clone, Copy, Debug, PartialEq, Eq, Structural)]
pub struct Health {
    pub health: u32,
    pub max_health: u32,
}

/// `h` after taking `d` points of damage: never below zero.
pub open spec fn damaged(h: Health, d: u32) -> Health {
    Health { health: if d >= h.health { 0 } else { (h.health - d) as u32 }, max_health: h.max_health }
}

/// `h` after taking each damage of `ds` in turn.
pub open spec fn damaged_all(h: Health, ds: Seq<u32>) -> Health
    decreases ds.len(),
{
    if ds.len() == 0 {
        h
    } else {
        damaged(damaged_all(h, ds.drop_last()), ds.last())
    }
}

/// The sum of a sequence of damages.
pub open spec fn damage_total(ds: Seq<u32>) -> int
    decreases ds.len(),
{
    if ds.len() == 0 {
        0
    } else {
        damage_total(ds.drop_last()) + ds.last()
    }
}

impl Health {
    /// Current hit points never exceed the maximum.
    pub open spec fn wf(&self) -> bool {
        self.health <= self.max_health
    }

    /// Full health of `health` points.
    pub fn new(health: u32) -> (r: Health)
        ensures
            r == (Health { health, max_health: health }),
            r.wf(),
    {
        Health { health, max_health: health }
    }

    /// Takes `damage` points, saturating at zero; returns the hit points left,
    /// so that the caller can report the change.
    pub fn take_damage(&mut self, damage: u32) -> (r: u32)
        ensures
            *final(self) == damaged(*old(self), damage),
            r == final(self).health,
            old(self).wf() ==> final(self).wf(),
    {
        self.health = self.health.saturating_sub(damage);
        self.health
    }

    pub fn is_alive(&self) -> (r: bool)
        ensures
            r == (self.health > 0),
    {
        self.health > 0
    }
}

/// Damage only ever lowers health: over any sequence of damages, the hit
/// points after a longer prefix are at most those after a shorter one, and
/// what is left is exactly the starting health less the total damage, or zero
/// once that total reaches it.
pub proof fn lemma_damage_monotone(h: Health, ds: Seq<u32>)
    requires
        h.wf(),
    ensures
        damaged_all(h, ds).wf(),
        damaged_all(h, ds).health == (if damage_total(ds) >= h.health {
            0
        } else {
            h.health - damage_total(ds)
        }),
        forall|i: int, j: int|
            0 <= i <= j <= ds.len() ==> #[trigger] damaged_all(h, ds.take(j)).health
                <= #[trigger] damaged_all(h, ds.take(i)).health,
    decreases ds.len(),
{
    if ds.len() > 0 {
        lemma_damage_monotone(h, ds.drop_last());
        assert(ds.take(ds.len() as int) =~= ds);
        assert forall|i: int, j: int|
            0 <= i <= j <= ds.len() implies #[trigger] damaged_all(h, ds.take(j)).health
                <= #[trigger] damaged_all(h, ds.take(i)).health by {
            let p = ds.drop_last();
            lemma_damage_monotone(h, p);
            if j == ds.len() {
                if i == ds.len() {
                } else {
                    assert(ds.take(i) =~= p.take(i));
                    assert(p.take(p.len() as int) =~= p);
                    assert(damaged_all(h, p.take(p.len() as int)).health <= damaged_all(
                        h,
                        p.take(i),
                    ).health);
                }
            } else {
                assert(ds.take(i) =~= p.take(i));
                assert(ds.take(j) =~= p.take(j));
            }
        }
    }
}

} // verus!
