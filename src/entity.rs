use vstd::prelude::*;
use crate::health::{damaged, Health};
use crate::physics::{clamp_i64, Point, Rigidbody};
use crate::spell::{advanced, hit_count, spawn_model, stepped, Bullet, Spell, SpellModel};
use crate::timer::{Timer, NANOS_PER_SEC};

verus! {

/// Unit directions on the play field; `y` grows downwards.
pub const DIR_UP: [i32; 2] = [0, -1];
pub const DIR_DOWN: [i32; 2] = [0, 1];
pub const DIR_LEFT: [i32; 2] = [-1, 0];
pub const DIR_RIGHT: [i32; 2] = [1, 0];

/// Hitbox radius of the player: small, as the player is fast.
pub const PLAYER_HITBOX: u32 = 25;
/// Hitbox radius of the enemy: large, as the enemy is bulky.
pub const ENEMY_HITBOX: u32 = 100;

/// Cooldown of the player's weapon: a tenth of a second.
pub const PLAYER_FIRE_PERIOD: u64 = NANOS_PER_SEC / 10;
/// Cooldown of the enemy's weapon: half a second.
pub const ENEMY_FIRE_PERIOD: u64 = NANOS_PER_SEC / 2;
/// Period of the enemy's movement pattern: one and a half seconds.
pub const ENEMY_MOVE_PERIOD: u64 = NANOS_PER_SEC * 3 / 2;

/// Time to live of a particle, in nanoseconds.
pub const PARTICLE_TTL: u64 = 2 * NANOS_PER_SEC;
/// Speed of a particle, in units per tick.
pub const PARTICLE_SPEED: i32 = 5;

/// Where an entity stands and how far it moves in one step.
#[derive(Clone, Copy, Debug, PartialEq, Eq, Structural)]
pub struct Body {
    pub position: Point,
    pub speed: i32,
}

impl Body {
    pub fn new(position: Point, speed: i32) -> (r: Body)
        ensures
            r == (Body { position, speed }),
    {
        Body { position, speed }
    }
}

/// Which movement keys are held this tick.
#[derive(Clone, Copy, Debug, PartialEq, Eq, Structural)]
pub struct Keys {
    pub up: bool,
    pub down: bool,
    pub left: bool,
    pub right: bool,
}

/// `b` moved one step along `(dx, dy)` if `held`.
pub open spec fn nudged(b: Body, held: bool, dx: int, dy: int) -> Body {
    if held {
        Body {
            position: b.position.translated(Point { x: (dx * b.speed) as i64, y: (dy * b.speed) as i64 }),
            speed: b.speed,
        }
    } else {
        b
    }
}

/// `b` moved by the held keys, in the order up, down, left, right.
pub open spec fn steered(b: Body, k: Keys) -> Body {
    nudged(nudged(nudged(nudged(b, k.up, 0, -1), k.down, 0, 1), k.left, -1, 0), k.right, 1, 0)
}

/// `n` hits as damage points; more hits than `u32` holds take every point anyway.
pub open spec fn hits_as_damage(n: nat) -> u32 {
    if n > u32::MAX {
        u32::MAX
    } else {
        n as u32
    }
}

fn damage_of(n: usize) -> (r: u32)
    ensures
        r == hits_as_damage(n as nat),
{
    if n > u32::MAX as usize {
        u32::MAX
    } else {
        n as u32
    }
}

/// A player's state.
pub ghost struct PlayerModel {
    pub health: Health,
    pub body: Body,
    pub spell: SpellModel,
}

/// An enemy's state; `head` is the read cursor of its movement pattern.
pub ghost struct EnemyModel {
    pub health: Health,
    pub body: Body,
    pub spell: SpellModel,
    pub move_timer: Timer,
    pub directions: Seq<i32>,
    pub head: nat,
}

/// Where an optional player stands.
pub open spec fn player_position(p: Option<PlayerModel>) -> Option<Point> {
    match p {
        Some(p) => Some(p.body.position),
        None => None,
    }
}

/// Where an optional enemy stands.
pub open spec fn enemy_position(e: Option<EnemyModel>) -> Option<Point> {
    match e {
        Some(e) => Some(e.body.position),
        None => None,
    }
}

/// The player's part of a tick: its bullets advance against the enemy at
/// `target`, then it fires from where it stands. Also returns the number of
/// hits on the enemy.
pub open spec fn player_stage(p: PlayerModel, delta: u64, target: Option<Point>, height: i64) -> (
    PlayerModel,
    nat,
) {
    let hits = hit_count(p.spell.bullets, target, ENEMY_HITBOX);
    let moved = SpellModel {
        bullets: advanced(p.spell.bullets, target, ENEMY_HITBOX, height),
        shot_timer: p.spell.shot_timer,
    };
    (
        PlayerModel {
            health: p.health,
            body: p.body,
            spell: spawn_model(moved, delta, p.body.position),
        },
        hits,
    )
}

/// The pattern cursor after the movement timer has fired or not.
pub open spec fn next_head(head: nat, len: nat, fired: bool) -> nat {
    if fired && len > 0 {
        (((head + 1) as int) % (len as int)) as nat
    } else {
        head
    }
}

/// The current horizontal multiplier of a pattern: its element at the cursor,
/// or 0 when the pattern is empty.
pub open spec fn front(directions: Seq<i32>, head: nat) -> int {
    if head < directions.len() {
        directions[head as int] as int
    } else {
        0
    }
}

/// The enemy after its scripted movement in a frame of `delta`: the pattern
/// advances by one each time the movement timer fires, and the enemy drifts
/// horizontally by the current multiplier times its speed.
pub open spec fn moved_auto(e: EnemyModel, delta: u64) -> EnemyModel {
    let (t, fired) = e.move_timer.step(delta);
    let head = next_head(e.head, e.directions.len(), fired);
    let dx = front(e.directions, head) * e.body.speed;
    EnemyModel {
        move_timer: t,
        head,
        body: Body {
            position: Point { x: clamp_i64(e.body.position.x + dx) as i64, y: e.body.position.y },
            speed: e.body.speed,
        },
        ..e
    }
}

/// The enemy's part of a tick: it moves, its bullets advance against the
/// player at `target`, then it fires from where it now stands. Also returns the
/// number of hits on the player.
pub open spec fn enemy_stage(e: EnemyModel, delta: u64, target: Option<Point>, height: i64) -> (
    EnemyModel,
    nat,
) {
    let m = moved_auto(e, delta);
    let hits = hit_count(m.spell.bullets, target, PLAYER_HITBOX);
    let moved = SpellModel {
        bullets: advanced(m.spell.bullets, target, PLAYER_HITBOX, height),
        shot_timer: m.spell.shot_timer,
    };
    (EnemyModel { spell: spawn_model(moved, delta, m.body.position), ..m }, hits)
}

/// The player ship: its body, health and weapon.
pub struct Player {
    pub health: Health,
    pub body: Body,
    pub spell: Spell,
}

impl View for Player {
    type V = PlayerModel;

    open spec fn view(&self) -> PlayerModel {
        PlayerModel { health: self.health, body: self.body, spell: self.spell@ }
    }
}

/// An enemy: body, health and weapon, and a cyclic pattern of horizontal
/// velocity multipliers read at the cursor `head`.
pub struct Enemy {
    pub health: Health,
    pub body: Body,
    pub spell: Spell,
    pub move_timer: Timer,
    pub directions: Vec<i32>,
    pub head: usize,
}

impl View for Enemy {
    type V = EnemyModel;

    open spec fn view(&self) -> EnemyModel {
        EnemyModel {
            health: self.health,
            body: self.body,
            spell: self.spell@,
            move_timer: self.move_timer,
            directions: self.directions@,
            head: self.head as nat,
        }
    }
}

impl PlayerModel {
    pub open spec fn wf(&self) -> bool {
        self.health.wf() && self.spell.shot_timer.wf()
    }
}

impl EnemyModel {
    pub open spec fn wf(&self) -> bool {
        &&& self.health.wf()
        &&& self.spell.shot_timer.wf()
        &&& self.move_timer.wf()
        &&& (self.head < self.directions.len() || (self.head == 0 && self.directions.len() == 0))
    }
}

impl Player {
    /// A player at full `health` at `(350, 350)`, moving 5 units per step, with
    /// `bullets_size` copies of `bullet` fired at most every tenth of a second.
    pub fn new(health: u32, bullet: Bullet, bullets_size: usize) -> (r: Player)
        ensures
            r@.health == (Health { health, max_health: health }),
            r@.body == (Body { position: Point { x: 350, y: 350 }, speed: 5 }),
            r@.spell.bullets == Seq::new(bullets_size as nat, |i: int| bullet),
            r@.spell.shot_timer == (Timer { time: 0, delay: PLAYER_FIRE_PERIOD }),
            r@.wf(),
    {
        Player {
            health: Health::new(health),
            body: Body::new(Point::new(350, 350), 5),
            spell: Spell::new(bullet, bullets_size, PLAYER_FIRE_PERIOD),
        }
    }

    /// Moves the player one step for each held key: up, down, left, right.
    pub fn steer(&mut self, keys: Keys)
        ensures
            final(self)@ == (PlayerModel { body: steered(old(self)@.body, keys), ..old(self)@ }),
    {
        if keys.up {
            self.body.position = self.body.position.translate(Point::scaled(DIR_UP, self.body.speed));
        }
        if keys.down {
            self.body.position = self.body.position.translate(Point::scaled(DIR_DOWN, self.body.speed));
        }
        if keys.left {
            self.body.position = self.body.position.translate(Point::scaled(DIR_LEFT, self.body.speed));
        }
        if keys.right {
            self.body.position = self.body.position.translate(Point::scaled(DIR_RIGHT, self.body.speed));
        }
    }

    /// The player's part of a tick: its bullets advance against `enemy`, each
    /// hit taking one point of the enemy's health, then it fires. Returns the
    /// number of hits.
    pub fn update(&mut self, delta: u64, enemy: &mut Option<Enemy>, height: i64) -> (r: usize)
        requires
            old(self)@.wf(),
        ensures
            (final(self)@, r as nat) == player_stage(
                old(self)@,
                delta,
                enemy_position(view_enemy(*old(enemy))),
                height,
            ),
            view_enemy(*final(enemy)) == damage_enemy(view_enemy(*old(enemy)), r as nat),
            final(self)@.wf(),
    {
        let target = match enemy {
            Some(e) => Some(e.body.position),
            None => None,
        };
        let hits = self.spell.advance(target, ENEMY_HITBOX, height);
        match enemy {
            Some(e) => {
                e.health.take_damage(damage_of(hits));
            },
            None => {},
        }
        self.spell.spawn(delta, &self.body.position);
        hits
    }
}

/// An optional player's model.
pub open spec fn view_player(p: Option<Player>) -> Option<PlayerModel> {
    match p {
        Some(p) => Some(p@),
        None => None,
    }
}

/// An optional enemy's model.
pub open spec fn view_enemy(e: Option<Enemy>) -> Option<EnemyModel> {
    match e {
        Some(e) => Some(e@),
        None => None,
    }
}

/// An optional player after `hits` hits, one point each.
pub open spec fn damage_player(p: Option<PlayerModel>, hits: nat) -> Option<PlayerModel> {
    match p {
        Some(p) => Some(PlayerModel { health: damaged(p.health, hits_as_damage(hits)), ..p }),
        None => None,
    }
}

/// An optional enemy after `hits` hits, one point each.
pub open spec fn damage_enemy(e: Option<EnemyModel>, hits: nat) -> Option<EnemyModel> {
    match e {
        Some(e) => Some(EnemyModel { health: damaged(e.health, hits_as_damage(hits)), ..e }),
        None => None,
    }
}

impl Enemy {
    /// An enemy at full `health` at `(350, 100)`, drifting `speed` units per
    /// step along the pattern `[-1, 0, 1, 0, 1, 0, -1, 0]`, which advances
    /// every one and a half seconds, with `bullets_size` copies of `bullet`
    /// fired at most every half second.
    pub fn new(health: u32, speed: i32, bullet: Bullet, bullets_size: usize) -> (r: Enemy)
        ensures
            r@.health == (Health { health, max_health: health }),
            r@.body == (Body { position: Point { x: 350, y: 100 }, speed }),
            r@.spell.bullets == Seq::new(bullets_size as nat, |i: int| bullet),
            r@.spell.shot_timer == (Timer { time: 0, delay: ENEMY_FIRE_PERIOD }),
            r@.move_timer == (Timer { time: 0, delay: ENEMY_MOVE_PERIOD }),
            r@.directions == seq![-1i32, 0i32, 1i32, 0i32, 1i32, 0i32, -1i32, 0i32],
            r@.head == 0,
            r@.wf(),
    {
        let directions: Vec<i32> = vec![-1, 0, 1, 0, 1, 0, -1, 0];
        Enemy {
            health: Health::new(health),
            body: Body::new(Point::new(350, 100), speed),
            spell: Spell::new(bullet, bullets_size, ENEMY_FIRE_PERIOD),
            directions,
            move_timer: Timer::new(ENEMY_MOVE_PERIOD),
            head: 0,
        }
    }

    /// The scripted movement of one frame of `delta`.
    pub fn move_auto(&mut self, delta: u64)
        requires
            old(self)@.wf(),
        ensures
            final(self)@ == moved_auto(old(self)@, delta),
            final(self)@.wf(),
    {
        let fired = self.move_timer.ready(delta);
        let len = self.directions.len();
        if fired && len > 0 {
            let h = self.head;
            proof {
                if h + 1 == len {
                    vstd::arithmetic::div_mod::lemma_mod_self_0(len as int);
                } else {
                    vstd::arithmetic::div_mod::lemma_small_mod((h + 1) as nat, len as nat);
                }
            }
            self.head = if h + 1 == len { 0 } else { h + 1 };
        }
        let vel: i64 = if self.head < len { self.directions[self.head] as i64 } else { 0 };
        let speed = self.body.speed as i64;
        assert(-0x4000_0000_0000_0000 <= vel * speed <= 0x4000_0000_0000_0000) by (nonlinear_arith)
            requires
                -0x8000_0000 <= vel <= 0x7fff_ffff,
                -0x8000_0000 <= speed <= 0x7fff_ffff,
        ;
        self.body.position = Point {
            x: crate::physics::add_clamped(self.body.position.x, vel * speed),
            y: self.body.position.y,
        };
    }

    /// The enemy's part of a tick: it moves, its bullets advance against
    /// `player`, each hit taking one point of the player's health, then it
    /// fires. Returns the number of hits.
    pub fn update(&mut self, delta: u64, player: &mut Option<Player>, height: i64) -> (r: usize)
        requires
            old(self)@.wf(),
        ensures
            (final(self)@, r as nat) == enemy_stage(
                old(self)@,
                delta,
                player_position(view_player(*old(player))),
                height,
            ),
            view_player(*final(player)) == damage_player(view_player(*old(player)), r as nat),
            final(self)@.wf(),
    {
        self.move_auto(delta);
        let target = match player {
            Some(p) => Some(p.body.position),
            None => None,
        };
        let hits = self.spell.advance(target, PLAYER_HITBOX, height);
        match player {
            Some(p) => {
                p.health.take_damage(damage_of(hits));
            },
            None => {},
        }
        self.spell.spawn(delta, &self.body.position);
        hits
    }
}

/// A visual-only projectile that lives until its timer fires.
#[derive(Clone, Copy, Debug, PartialEq, Eq, Structural)]
pub struct Particle {
    pub bullet: Bullet,
    pub timer: Timer,
}

/// A particle after one frame of `delta`: hidden once its time to live has
/// passed, else one step further.
pub open spec fn aged(p: Particle, delta: u64) -> Particle {
    let (t, expired) = p.timer.step(delta);
    if expired {
        Particle { bullet: Bullet { is_visible: false, ..p.bullet }, timer: t }
    } else {
        Particle { bullet: stepped(p.bullet), timer: t }
    }
}

/// A visible particle at `position` moving `speed` units per tick along
/// `direction`, for `ttl` nanoseconds.
pub open spec fn particle_at(ttl: u64, position: Point, direction: [i32; 2], speed: i32) -> Particle {
    Particle {
        bullet: Bullet {
            body: Rigidbody {
                position,
                velocity: Point {
                    x: (direction@[0] * speed) as i64,
                    y: (direction@[1] * speed) as i64,
                },
            },
            is_visible: true,
        },
        timer: Timer { time: 0, delay: ttl },
    }
}

impl Particle {
    pub fn new(ttl: u64, position: Point, direction: [i32; 2], speed: i32) -> (r: Particle)
        ensures
            r == particle_at(ttl, position, direction, speed),
            r.timer.wf(),
    {
        let mut bullet = Bullet::new(direction, speed);
        bullet.body.position = position;
        bullet.is_visible = true;
        Particle { bullet, timer: Timer::new(ttl) }
    }

    /// One frame of `delta`: the particle expires or steps.
    pub fn update(&mut self, delta: u64)
        requires
            old(self).timer.wf(),
        ensures
            *final(self) == aged(*old(self), delta),
            final(self).timer.wf(),
    {
        if self.timer.ready(delta) {
            self.bullet.is_visible = false;
        } else {
            self.bullet.update();
        }
    }
}

} // verus!
