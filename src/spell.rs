use vstd::prelude::*;
use crate::physics::{dist_sq, Movable, Point, Rigidbody};
use crate::timer::Timer;

verus! {

/// One projectile slot of a pool: it moves by its velocity while visible.
#[derive(Clone, Copy, Debug, PartialEq, Eq, Structural)]
pub struct Bullet {
    pub body: Rigidbody,
    pub is_visible: bool,
}

/// A hidden bullet at the origin, moving `speed` units per tick along
/// `direction`.
pub open spec fn hidden_bullet(direction: [i32; 2], speed: i32) -> Bullet {
    Bullet {
        body: Rigidbody {
            position: Point { x: 0, y: 0 },
            velocity: Point { x: (direction@[0] * speed) as i64, y: (direction@[1] * speed) as i64 },
        },
        is_visible: false,
    }
}

/// `b` after one step along its velocity.
pub open spec fn stepped(b: Bullet) -> Bullet {
    Bullet {
        body: Rigidbody {
            position: b.body.position.translated(b.body.velocity),
            velocity: b.body.velocity,
        },
        is_visible: b.is_visible,
    }
}

/// Whether a bullet at `p` has crossed the vertical bounds of a play field of
/// the given height.
pub open spec fn out_of_bounds(p: Point, height: i64) -> bool {
    p.y < 0 || p.y > height
}

/// Whether `b`, once stepped, lies strictly within `hitbox` of the target.
pub open spec fn strikes(b: Bullet, target: Option<Point>, hitbox: u32) -> bool {
    match target {
        Some(p) => dist_sq(stepped(b).body.position, p) < hitbox * hitbox,
        None => false,
    }
}

/// A slot after one tick: a visible bullet steps, then is hidden if it struck
/// the target or left the play field; a hidden one stays as it is.
pub open spec fn advanced_bullet(b: Bullet, target: Option<Point>, hitbox: u32, height: i64) -> Bullet {
    if b.is_visible {
        let m = stepped(b);
        Bullet {
            body: m.body,
            is_visible: !strikes(b, target, hitbox) && !out_of_bounds(m.body.position, height),
        }
    } else {
        b
    }
}

/// Every slot of a pool after one tick.
pub open spec fn advanced(s: Seq<Bullet>, target: Option<Point>, hitbox: u32, height: i64) -> Seq<Bullet> {
    s.map_values(|b: Bullet| advanced_bullet(b, target, hitbox, height))
}

/// How many visible bullets of `s` strike the target this tick.
pub open spec fn hit_count(s: Seq<Bullet>, target: Option<Point>, hitbox: u32) -> nat
    decreases s.len(),
{
    if s.len() == 0 {
        0
    } else {
        hit_count(s.drop_last(), target, hitbox) + if s.last().is_visible && strikes(
            s.last(),
            target,
            hitbox,
        ) {
            1nat
        } else {
            0nat
        }
    }
}

/// The visible bullets of `s`, in pool order.
pub open spec fn visible_of(s: Seq<Bullet>) -> Seq<Bullet>
    decreases s.len(),
{
    if s.len() == 0 {
        s
    } else if s.last().is_visible {
        visible_of(s.drop_last()).push(s.last())
    } else {
        visible_of(s.drop_last())
    }
}

/// Slot `i` is the first hidden slot of `s`.
pub open spec fn is_first_hidden(s: Seq<Bullet>, i: int) -> bool {
    &&& 0 <= i < s.len()
    &&& !s[i].is_visible
    &&& forall|j: int| 0 <= j < i ==> #[trigger] s[j].is_visible
}

/// `b` made visible at `origin`, keeping its velocity.
pub open spec fn shown_at(b: Bullet, origin: Point) -> Bullet {
    Bullet { body: Rigidbody { position: origin, velocity: b.body.velocity }, is_visible: true }
}

/// `s` with its first hidden slot made visible at `origin`; unchanged when
/// every slot is visible.
pub open spec fn spawned(s: Seq<Bullet>, origin: Point) -> Seq<Bullet> {
    if exists|i: int| is_first_hidden(s, i) {
        let i = choose|i: int| is_first_hidden(s, i);
        s.update(i, shown_at(s[i], origin))
    } else {
        s
    }
}

/// A pool's state: its slots and its cooldown.
pub ghost struct SpellModel {
    pub bullets: Seq<Bullet>,
    pub shot_timer: Timer,
}

/// The pool after a spawn attempt in a frame of `delta`: the cooldown advances,
/// and only if it fires is a bullet shown at `origin`.
pub open spec fn spawn_model(s: SpellModel, delta: u64, origin: Point) -> SpellModel {
    let (t, fired) = s.shot_timer.step(delta);
    SpellModel { bullets: if fired { spawned(s.bullets, origin) } else { s.bullets }, shot_timer: t }
}

/// A fixed-size pool of bullet slots, recycled by their visibility, and the
/// cooldown that limits its rate of fire.
pub struct Spell {
    pub bullets: Vec<Bullet>,
    pub shot_timer: Timer,
}

impl View for Spell {
    type V = SpellModel;

    open spec fn view(&self) -> SpellModel {
        SpellModel { bullets: self.bullets@, shot_timer: self.shot_timer }
    }
}

impl Bullet {
    /// A hidden bullet at the origin, moving `speed` units per tick along
    /// `direction`.
    pub fn new(direction: [i32; 2], speed: i32) -> (r: Bullet)
        ensures
            r == hidden_bullet(direction, speed),
            r.body.velocity.x == direction@[0] * speed,
            r.body.velocity.y == direction@[1] * speed,
    {
        Bullet {
            body: Rigidbody { position: Point { x: 0, y: 0 }, velocity: Point::scaled(direction, speed) },
            is_visible: false,
        }
    }

    /// One step along the velocity.
    pub fn update(&mut self)
        ensures
            *final(self) == stepped(*old(self)),
    {
        self.body.position = self.body.position.translate(self.body.velocity);
    }

    /// Whether the bullet lies strictly within `hitbox_size` of `other`.
    pub fn collided(&self, other: &Point, hitbox_size: u32) -> (r: bool)
        ensures
            r == (dist_sq(self.body.position, *other) < hitbox_size * hitbox_size),
    {
        self.body.position.within(other, hitbox_size)
    }
}

impl Movable for Bullet {
    open spec fn rigidbody(&self) -> Rigidbody {
        self.body
    }

    fn get_rigidbody(&self) -> (r: &Rigidbody) {
        &self.body
    }

    fn set_position(&mut self, x: i64, y: i64) {
        self.body.position = Point { x, y };
    }
}

proof fn lemma_first_hidden_unique(s: Seq<Bullet>, i: int, k: int)
    requires
        is_first_hidden(s, i),
        is_first_hidden(s, k),
    ensures
        i == k,
{
    if k < i {
        assert(s[k].is_visible);
    } else if i < k {
        assert(s[i].is_visible);
    }
}

impl Spell {
    pub open spec fn wf(&self) -> bool {
        self.shot_timer.wf()
    }

    /// A pool of `bullets_size` copies of `bullet`, firing at most once per
    /// `delay` nanoseconds.
    pub fn new(bullet: Bullet, bullets_size: usize, delay: u64) -> (r: Spell)
        ensures
            r@.bullets == Seq::new(bullets_size as nat, |i: int| bullet),
            r@.shot_timer == (Timer { time: 0, delay }),
            r.wf(),
    {
        let mut bullets: Vec<Bullet> = Vec::new();
        while bullets.len() < bullets_size
            invariant
                bullets.len() <= bullets_size,
                forall|j: int| 0 <= j < bullets.len() ==> bullets@[j] == bullet,
            decreases bullets_size - bullets.len(),
        {
            bullets.push(bullet);
        }
        assert(bullets@ =~= Seq::new(bullets_size as nat, |i: int| bullet));
        Spell { bullets, shot_timer: Timer::new(delay) }
    }

    /// Advances the cooldown by `delta`; if it fires, shows the first hidden
    /// slot at `position`. With every slot visible nothing is shown.
    pub fn spawn(&mut self, delta: u64, position: &Point)
        requires
            old(self).wf(),
        ensures
            final(self)@ == spawn_model(old(self)@, delta, *position),
            final(self).wf(),
    {
        if self.shot_timer.ready(delta) {
            let n = self.bullets.len();
            let mut i: usize = 0;
            while i < n && self.bullets[i].is_visible
                invariant
                    n == self.bullets.len(),
                    i <= n,
                    forall|j: int| 0 <= j < i ==> #[trigger] self.bullets@[j].is_visible,
                decreases n - i,
            {
                i = i + 1;
            }
            if i < n {
                let old_bullets = Ghost(self.bullets@);
                let b = self.bullets[i];
                let shown = Bullet {
                    body: Rigidbody { position: *position, velocity: b.body.velocity },
                    is_visible: true,
                };
                self.bullets.set(i, shown);
                proof {
                    assert(is_first_hidden(old_bullets@, i as int));
                    let k = choose|k: int| is_first_hidden(old_bullets@, k);
                    lemma_first_hidden_unique(old_bullets@, i as int, k);
                }
            } else {
                assert(!exists|k: int| is_first_hidden(self.bullets@, k));
            }
        }
    }

    /// Advances every visible bullet by one tick, in pool order: each steps,
    /// and is hidden once it comes strictly within `hitbox` of `target` or
    /// crosses the vertical bounds `0..=height`. Returns how many struck the
    /// target.
    pub fn advance(&mut self, target: Option<Point>, hitbox: u32, height: i64) -> (r: usize)
        ensures
            final(self).bullets@ == advanced(old(self).bullets@, target, hitbox, height),
            final(self).shot_timer == old(self).shot_timer,
            r == hit_count(old(self).bullets@, target, hitbox),
    {
        let ghost s = self.bullets@;
        let n = self.bullets.len();
        let mut hits: usize = 0;
        let mut i: usize = 0;
        while i < n
            invariant
                n == s.len(),
                self.bullets@.len() == n,
                i <= n,
                hits <= i,
                hits == hit_count(s.take(i as int), target, hitbox),
                self.shot_timer == old(self).shot_timer,
                forall|j: int|
                    0 <= j < i ==> self.bullets@[j] == advanced_bullet(
                        #[trigger] s[j],
                        target,
                        hitbox,
                        height,
                    ),
                forall|j: int| i <= j < n ==> self.bullets@[j] == s[j],
            decreases n - i,
        {
            let mut b = self.bullets[i];
            assert(s.take(i + 1).drop_last() =~= s.take(i as int));
            if b.is_visible {
                b.update();
                let hit = match target {
                    Some(p) => b.collided(&p, hitbox),
                    None => false,
                };
                if hit {
                    hits = hits + 1;
                }
                let p = b.body.position;
                b.is_visible = !hit && !(p.y < 0 || p.y > height);
            }
            self.bullets.set(i, b);
            i = i + 1;
        }
        assert(s.take(n as int) =~= s);
        assert(self.bullets@ =~= advanced(s, target, hitbox, height));
        hits
    }

    /// The visible bullets, in pool order.
    pub fn visible_bullets(&self) -> (r: Vec<Bullet>)
        ensures
            r@ == visible_of(self.bullets@),
    {
        let ghost s = self.bullets@;
        let mut out: Vec<Bullet> = Vec::new();
        let mut i: usize = 0;
        while i < self.bullets.len()
            invariant
                s == self.bullets@,
                i <= s.len(),
                out@ == visible_of(s.take(i as int)),
            decreases s.len() - i,
        {
            assert(s.take(i + 1).drop_last() =~= s.take(i as int));
            if self.bullets[i].is_visible {
                out.push(self.bullets[i]);
            }
            i = i + 1;
        }
        assert(s.take(s.len() as int) =~= s);
        out
    }
}

/// Spawning reuses slots in a stable order: where slot `i` is the first hidden
/// one, a spawn shows exactly that slot at the origin, keeping its velocity,
/// and leaves every other slot as it was.
pub proof fn lemma_spawn_first_hidden(s: Seq<Bullet>, i: int, origin: Point)
    requires
        is_first_hidden(s, i),
    ensures
        spawned(s, origin).len() == s.len(),
        spawned(s, origin)[i] == shown_at(s[i], origin),
        forall|j: int| 0 <= j < s.len() && j != i ==> spawned(s, origin)[j] == s[j],
{
    let k = choose|k: int| is_first_hidden(s, k);
    lemma_first_hidden_unique(s, i, k);
}

/// A hit needs the bullet strictly inside the hitbox: at a distance exactly
/// equal to the radius it misses, and at any smaller distance it hits.
pub proof fn lemma_collision_threshold(b: Bullet, target: Point, hitbox: u32)
    ensures
        dist_sq(stepped(b).body.position, target) == hitbox * hitbox ==> !strikes(
            b,
            Some(target),
            hitbox,
        ),
        dist_sq(stepped(b).body.position, target) < hitbox * hitbox ==> strikes(
            b,
            Some(target),
            hitbox,
        ),
        !strikes(b, None, hitbox),
{
}

proof fn lemma_visible_of_len(s: Seq<Bullet>)
    ensures
        visible_of(s).len() <= s.len(),
    decreases s.len(),
{
    if s.len() > 0 {
        lemma_visible_of_len(s.drop_last());
    }
}

/// A pool never grows: a spawn attempt and a tick of advancing keep the number
/// of slots, and the visible bullets, before and after either, never outnumber
/// the slots.
pub proof fn lemma_pool_capacity(
    s: SpellModel,
    delta: u64,
    origin: Point,
    target: Option<Point>,
    hitbox: u32,
    height: i64,
)
    ensures
        spawn_model(s, delta, origin).bullets.len() == s.bullets.len(),
        advanced(s.bullets, target, hitbox, height).len() == s.bullets.len(),
        visible_of(s.bullets).len() <= s.bullets.len(),
        visible_of(spawn_model(s, delta, origin).bullets).len() <= s.bullets.len(),
        visible_of(advanced(s.bullets, target, hitbox, height)).len() <= s.bullets.len(),
{
    lemma_visible_of_len(s.bullets);
    lemma_visible_of_len(spawn_model(s, delta, origin).bullets);
    lemma_visible_of_len(advanced(s.bullets, target, hitbox, height));
}

} // verus!
