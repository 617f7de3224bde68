use vstd::prelude::*;
use crate::entity::{
    aged, damage_enemy, damage_player, enemy_position, enemy_stage, particle_at, player_position,
    player_stage, steered, view_enemy, view_player, Body, Enemy, EnemyModel, Keys, Particle, Player,
    PlayerModel, DIR_DOWN, DIR_LEFT, DIR_RIGHT, DIR_UP, ENEMY_FIRE_PERIOD, ENEMY_MOVE_PERIOD,
    PARTICLE_SPEED, PARTICLE_TTL, PLAYER_FIRE_PERIOD,
};
use crate::health::Health;
use crate::physics::Point;
use crate::spell::{hidden_bullet, Bullet, SpellModel};
use crate::timer::Timer;

verus! {

/// Which part of the game runs: the combat simulation runs only in `Combat`.
#[derive(Clone, Copy, Debug, PartialEq, Eq, Structural)]
pub enum GameState {
    Combat,
    Paused,
    Cinematic,
}

/// A terminal message, queued when one side is defeated.
#[derive(Clone, Copy, Debug, PartialEq, Eq, Structural)]
pub enum Message {
    PlayerDied,
    EnemyDefeated,
}

impl Message {
    /// The text shown for the message.
    pub fn text(&self) -> (r: &'static str)
        ensures
            *self == Message::PlayerDied ==> r@ == "You died! Press R to restart."@,
            *self == Message::EnemyDefeated ==> r@ == "You win! Press R to restart."@,
    {
        match self {
            Message::PlayerDied => "You died! Press R to restart.",
            Message::EnemyDefeated => "You win! Press R to restart.",
        }
    }
}

/// Who speaks a line of the story.
#[derive(Clone, Copy, Debug, PartialEq, Eq, Structural)]
pub enum Speaker {
    Player,
    Enemy,
}

/// One line of the story shown before combat.
pub struct StoryLine {
    pub text: String,
    pub speaker: Speaker,
}

/// The size of the play area.
#[derive(Clone, Copy, Debug, PartialEq, Eq, Structural)]
pub struct Screen {
    pub width: i64,
    pub height: i64,
}

/// The entries of the pause menu, in their initial order.
#[derive(Clone, Copy, Debug, PartialEq, Eq, Structural)]
pub enum MenuItem {
    Resume,
    Reset,
    Quit,
}

/// The number of entries of the pause menu.
pub const MENU_LEN: usize = 3;

/// The entry at `i` of the pause menu in its initial order.
pub open spec fn menu_item(i: int) -> MenuItem {
    if i == 0 {
        MenuItem::Resume
    } else if i == 1 {
        MenuItem::Reset
    } else {
        MenuItem::Quit
    }
}

/// A discrete input event.
#[derive(Clone, Copy, Debug, PartialEq, Eq, Structural)]
pub enum Key {
    /// Advance the story, or choose the selected menu entry.
    Confirm,
    /// Open the pause menu.
    Menu,
    /// Restart the game.
    Restart,
    /// Select the next menu entry.
    Next,
    /// Select the previous menu entry.
    Previous,
    /// Any other key.
    Other,
}

/// What the host must do after an input event.
#[derive(Clone, Copy, Debug, PartialEq, Eq, Structural)]
pub enum Action {
    Nothing,
    /// Reload the configuration and rebuild the game.
    Restart,
    Quit,
}

/// Initial parameters of one kind of object.
#[derive(Clone, Copy, Debug, PartialEq, Eq, Structural)]
pub struct InitData {
    pub amount: usize,
    pub health: u32,
    pub speed: i32,
}

/// Initial parameters of an entity and of its bullets.
#[derive(Clone, Copy, Debug, PartialEq, Eq, Structural)]
pub struct InitObject {
    pub data: InitData,
    pub bullet: InitData,
}

/// The game's configuration.
pub struct Globals {
    pub background: String,
    pub player: InitObject,
    pub enemy: InitObject,
}

impl Default for InitData {
    fn default() -> (r: InitData)
        ensures
            r == (InitData { amount: 0, health: 0, speed: 0 }),
    {
        InitData { amount: 0, health: 0, speed: 0 }
    }
}

impl Default for InitObject {
    fn default() -> (r: InitObject)
        ensures
            r == (InitObject {
                data: InitData { amount: 0, health: 0, speed: 0 },
                bullet: InitData { amount: 0, health: 0, speed: 0 },
            }),
    {
        InitObject { data: InitData::default(), bullet: InitData::default() }
    }
}

impl Default for Globals {
    fn default() -> (r: Globals)
        ensures
            r.background@.len() == 0,
            r.player == InitObject::default_spec(),
            r.enemy == InitObject::default_spec(),
    {
        Globals {
            background: String::new(),
            player: InitObject::default(),
            enemy: InitObject::default(),
        }
    }
}

impl InitObject {
    /// Every parameter zero: what an absent or malformed configuration gives.
    pub open spec fn default_spec() -> InitObject {
        InitObject {
            data: InitData { amount: 0, health: 0, speed: 0 },
            bullet: InitData { amount: 0, health: 0, speed: 0 },
        }
    }

    pub fn health(&self) -> (r: u32)
        ensures
            r == self.data.health,
    {
        self.data.health
    }

    pub fn speed(&self) -> (r: i32)
        ensures
            r == self.data.speed,
    {
        self.data.speed
    }
}

/// A fresh player built from its configuration.
pub open spec fn fresh_player(o: InitObject) -> PlayerModel {
    PlayerModel {
        health: Health { health: o.data.health, max_health: o.data.health },
        body: Body { position: Point { x: 350, y: 350 }, speed: 5 },
        spell: SpellModel {
            bullets: Seq::new(o.bullet.amount as nat, |i: int| hidden_bullet(DIR_UP, o.bullet.speed)),
            shot_timer: Timer { time: 0, delay: PLAYER_FIRE_PERIOD },
        },
    }
}

/// A fresh enemy built from its configuration.
pub open spec fn fresh_enemy(o: InitObject) -> EnemyModel {
    EnemyModel {
        health: Health { health: o.data.health, max_health: o.data.health },
        body: Body { position: Point { x: 350, y: 100 }, speed: o.data.speed },
        spell: SpellModel {
            bullets: Seq::new(
                o.bullet.amount as nat,
                |i: int| hidden_bullet(DIR_DOWN, o.bullet.speed),
            ),
            shot_timer: Timer { time: 0, delay: ENEMY_FIRE_PERIOD },
        },
        move_timer: Timer { time: 0, delay: ENEMY_MOVE_PERIOD },
        directions: seq![-1i32, 0i32, 1i32, 0i32, 1i32, 0i32, -1i32, 0i32],
        head: 0,
    }
}

/// The state of a pause menu with entry `sel` (in initial order) selected,
/// after `key`: next and previous rotate the selection round the entries.
pub open spec fn menu_moved(sel: usize, key: Key) -> usize {
    match key {
        Key::Next => ((sel + 1) % (MENU_LEN as int)) as usize,
        Key::Previous => ((sel + MENU_LEN - 1) % (MENU_LEN as int)) as usize,
        _ => sel,
    }
}

/// What the story, game state and pause menu are, and what the host must do,
/// after one key press.
///
/// - Confirm, not repeated: in a cinematic it drops the current story line and
///   starts combat once no line is left (or none was); in the pause menu it
///   chooses the selected entry: Resume closes the menu and returns to the
///   story if lines remain, else to combat.
/// - Menu, not repeated, outside the pause menu: opens it with Resume selected.
/// - Restart, not repeated: asks the host to rebuild the game.
/// - Otherwise, in the pause menu: next and previous move the selection.
pub open spec fn key_step(
    gamestate: GameState,
    story: Seq<StoryLine>,
    menu: Option<usize>,
    key: Key,
    repeated: bool,
) -> (GameState, Seq<StoryLine>, Option<usize>, Action) {
    if key == Key::Confirm && !repeated {
        match gamestate {
            GameState::Cinematic => {
                if story.len() <= 1 {
                    (GameState::Combat, if story.len() == 0 { story } else { story.drop_last() }, menu, Action::Nothing)
                } else {
                    (gamestate, story.drop_last(), menu, Action::Nothing)
                }
            },
            GameState::Paused => {
                match menu {
                    Some(sel) => match menu_item(sel as int) {
                        MenuItem::Resume => (
                            if story.len() == 0 { GameState::Combat } else { GameState::Cinematic },
                            story,
                            None,
                            Action::Nothing,
                        ),
                        MenuItem::Reset => (gamestate, story, menu, Action::Restart),
                        MenuItem::Quit => (gamestate, story, menu, Action::Quit),
                    },
                    None => (gamestate, story, menu, Action::Nothing),
                }
            },
            GameState::Combat => (gamestate, story, menu, Action::Nothing),
        }
    } else if key == Key::Menu && !repeated && gamestate != GameState::Paused {
        (GameState::Paused, story, Some(0), Action::Nothing)
    } else if key == Key::Restart && !repeated {
        (gamestate, story, menu, Action::Restart)
    } else if gamestate == GameState::Paused {
        match menu {
            Some(sel) => (gamestate, story, Some(menu_moved(sel, key)), Action::Nothing),
            None => (gamestate, story, menu, Action::Nothing),
        }
    } else {
        (gamestate, story, menu, Action::Nothing)
    }
}

/// What one tick of combat did.
#[derive(Clone, Copy, Debug, PartialEq, Eq, Structural)]
pub struct TickEvents {
    /// Hits the player took from enemy bullets.
    pub player_hits: usize,
    /// Hits the enemy took from player bullets.
    pub enemy_hits: usize,
    /// The player was defeated and removed.
    pub player_died: bool,
    /// The enemy was defeated and removed.
    pub enemy_died: bool,
}

/// The part of the game that one tick of combat changes.
pub ghost struct CombatModel {
    pub player: Option<PlayerModel>,
    pub enemy: Option<EnemyModel>,
    pub texts: Seq<Message>,
    pub particles: Seq<Particle>,
}

/// The four particles left where an entity died, one per cardinal direction.
pub open spec fn death_ring(at: Point) -> Seq<Particle> {
    seq![
        particle_at(PARTICLE_TTL, at, DIR_UP, PARTICLE_SPEED),
        particle_at(PARTICLE_TTL, at, DIR_DOWN, PARTICLE_SPEED),
        particle_at(PARTICLE_TTL, at, DIR_LEFT, PARTICLE_SPEED),
        particle_at(PARTICLE_TTL, at, DIR_RIGHT, PARTICLE_SPEED),
    ]
}

/// Every particle aged by one frame of `delta`, keeping, in order, those still
/// visible.
pub open spec fn aged_all(ps: Seq<Particle>, delta: u64) -> Seq<Particle>
    decreases ps.len(),
{
    if ps.len() == 0 {
        ps
    } else {
        let rest = aged_all(ps.drop_last(), delta);
        let a = aged(ps.last(), delta);
        if a.bullet.is_visible {
            rest.push(a)
        } else {
            rest
        }
    }
}

/// An optional player moved by the held keys.
pub open spec fn steer_player(p: Option<PlayerModel>, keys: Keys) -> Option<PlayerModel> {
    match p {
        Some(p) => Some(PlayerModel { body: steered(p.body, keys), ..p }),
        None => None,
    }
}

/// Whether an optional player is present with no health left.
pub open spec fn player_defeated(p: Option<PlayerModel>) -> bool {
    match p {
        Some(p) => p.health.health == 0,
        None => false,
    }
}

/// Whether an optional enemy is present with no health left.
pub open spec fn enemy_defeated(e: Option<EnemyModel>) -> bool {
    match e {
        Some(e) => e.health.health == 0,
        None => false,
    }
}

/// `ps` with the ring of an entity that died at `at`, if it died.
pub open spec fn with_ring(ps: Seq<Particle>, died: bool, at: Option<Point>) -> Seq<Particle> {
    match at {
        Some(p) if died => ps + death_ring(p),
        _ => ps,
    }
}

/// One tick of combat, in order: the player moves by the held keys; the enemy
/// moves, its bullets advance against the player, and it fires; the player's
/// bullets advance against the enemy, and the player fires; then each side
/// left with no health is removed, leaving a ring of particles and a message
/// (the player first); last, every particle ages.
pub open spec fn combat_step(c: CombatModel, delta: u64, keys: Keys, height: i64) -> (
    CombatModel,
    TickEvents,
) {
    let p1 = steer_player(c.player, keys);
    let (e2, player_hits) = match c.enemy {
        Some(e) => {
            let (e2, h) = enemy_stage(e, delta, player_position(p1), height);
            (Some(e2), h)
        },
        None => (None, 0nat),
    };
    let p2 = damage_player(p1, player_hits);
    let (p3, enemy_hits) = match p2 {
        Some(p) => {
            let (p3, h) = player_stage(p, delta, enemy_position(e2), height);
            (Some(p3), h)
        },
        None => (None, 0nat),
    };
    let e3 = damage_enemy(e2, enemy_hits);
    let player_died = player_defeated(p3);
    let enemy_died = enemy_defeated(e3);
    let particles = with_ring(
        with_ring(c.particles, player_died, player_position(p3)),
        enemy_died,
        enemy_position(e3),
    );
    let texts1 = if player_died {
        c.texts.push(Message::PlayerDied)
    } else {
        c.texts
    };
    let texts = if enemy_died {
        texts1.push(Message::EnemyDefeated)
    } else {
        texts1
    };
    (
        CombatModel {
            player: if player_died {
                None
            } else {
                p3
            },
            enemy: if enemy_died {
                None
            } else {
                e3
            },
            texts,
            particles: aged_all(particles, delta),
        },
        TickEvents {
            player_hits: player_hits as usize,
            enemy_hits: enemy_hits as usize,
            player_died,
            enemy_died,
        },
    )
}

/// The combat state after each tick of `ticks` in turn, each a frame delta and
/// the keys held.
pub open spec fn combat_run(c: CombatModel, ticks: Seq<(u64, Keys)>, height: i64) -> CombatModel
    decreases ticks.len(),
{
    if ticks.len() == 0 {
        c
    } else {
        let (delta, keys) = ticks.last();
        combat_step(combat_run(c, ticks.drop_last(), height), delta, keys, height).0
    }
}

/// Death is final: after any tick no side is left present with zero health,
/// and over any run of ticks a side that is gone stays gone.
pub proof fn lemma_death_final(c: CombatModel, ticks: Seq<(u64, Keys)>, height: i64)
    ensures
        ticks.len() > 0 ==> !player_defeated(combat_run(c, ticks, height).player) && !enemy_defeated(
            combat_run(c, ticks, height).enemy,
        ),
        c.player is None ==> combat_run(c, ticks, height).player is None,
        c.enemy is None ==> combat_run(c, ticks, height).enemy is None,
    decreases ticks.len(),
{
    if ticks.len() > 0 {
        lemma_death_final(c, ticks.drop_last(), height);
    }
}

/// A tick never resizes a pool: each side still present keeps as many bullet
/// slots as it had, so its visible bullets never outnumber that capacity.
pub proof fn lemma_tick_keeps_pools(c: CombatModel, delta: u64, keys: Keys, height: i64)
    ensures
        ({
            let after = combat_step(c, delta, keys, height).0;
            &&& (after.player is Some ==> c.player is Some && after.player->Some_0.spell.bullets.len()
                == c.player->Some_0.spell.bullets.len())
            &&& (after.enemy is Some ==> c.enemy is Some && after.enemy->Some_0.spell.bullets.len()
                == c.enemy->Some_0.spell.bullets.len())
        }),
{
}

/// Pushes the ring of particles of an entity that died at `at`.
fn push_ring(particles: &mut Vec<Particle>, at: Point)
    requires
        forall|i: int| 0 <= i < old(particles)@.len() ==> #[trigger] old(particles)@[i].timer.wf(),
    ensures
        final(particles)@ == old(particles)@ + death_ring(at),
        forall|i: int| 0 <= i < final(particles)@.len() ==> #[trigger] final(particles)@[i].timer.wf(),
{
    particles.push(Particle::new(PARTICLE_TTL, at, DIR_UP, PARTICLE_SPEED));
    particles.push(Particle::new(PARTICLE_TTL, at, DIR_DOWN, PARTICLE_SPEED));
    particles.push(Particle::new(PARTICLE_TTL, at, DIR_LEFT, PARTICLE_SPEED));
    particles.push(Particle::new(PARTICLE_TTL, at, DIR_RIGHT, PARTICLE_SPEED));
    assert(particles@ =~= old(particles)@ + death_ring(at));
}

/// Ages every particle by `delta` and drops those that expired.
fn age_particles(particles: &mut Vec<Particle>, delta: u64)
    requires
        forall|i: int| 0 <= i < old(particles)@.len() ==> #[trigger] old(particles)@[i].timer.wf(),
    ensures
        final(particles)@ == aged_all(old(particles)@, delta),
        forall|i: int| 0 <= i < final(particles)@.len() ==> #[trigger] final(particles)@[i].timer.wf(),
{
    let ghost s = particles@;
    let mut kept: Vec<Particle> = Vec::new();
    let mut i: usize = 0;
    while i < particles.len()
        invariant
            s == particles@,
            i <= s.len(),
            kept@ == aged_all(s.take(i as int), delta),
            forall|j: int| 0 <= j < s.len() ==> #[trigger] s[j].timer.wf(),
            forall|j: int| 0 <= j < kept@.len() ==> #[trigger] kept@[j].timer.wf(),
        decreases s.len() - i,
    {
        assert(s.take(i + 1).drop_last() =~= s.take(i as int));
        let mut p = particles[i];
        p.update(delta);
        if p.bullet.is_visible {
            kept.push(p);
        }
        i = i + 1;
    }
    assert(s.take(s.len() as int) =~= s);
    *particles = kept;
}

/// `story` is the opening one: the message of a failed script alone, else
/// the two lines of dialogue, the current one last.
pub open spec fn is_opening_story(story: Seq<StoryLine>, parse_error: Option<String>) -> bool {
    match parse_error {
        Some(msg) => story.len() == 1 && story[0].text == msg && story[0].speaker == Speaker::Player,
        None => {
            &&& story.len() == 2
            &&& story[1].text@ == "The story begins..."@
            &&& story[1].speaker == Speaker::Player
            &&& story[0].text@ == "I'm going to kill you!"@
            &&& story[0].speaker == Speaker::Enemy
        },
    }
}

/// The whole game: the story, the state machine, the simulated entities and
/// the effects they left behind.
pub struct State {
    pub gamestate: GameState,
    /// Lines still to be shown, the current one last.
    pub story: Vec<StoryLine>,
    pub screen: Screen,
    pub player: Option<Player>,
    pub enemy: Option<Enemy>,
    /// Terminal messages, in the order they were queued.
    pub texts: Vec<Message>,
    pub particles: Vec<Particle>,
    /// The selected entry of the open pause menu, in initial order.
    pub menu: Option<usize>,
}

impl State {
    pub open spec fn wf(&self) -> bool {
        &&& (match self.player {
            Some(p) => p@.wf(),
            None => true,
        })
        &&& (match self.enemy {
            Some(e) => e@.wf(),
            None => true,
        })
        &&& forall|i: int| 0 <= i < self.particles@.len() ==> #[trigger] self.particles@[i].timer.wf()
        &&& (self.gamestate == GameState::Paused) == self.menu.is_some()
        &&& (match self.menu {
            Some(sel) => sel < MENU_LEN,
            None => true,
        })
    }

    /// A fresh game on a play area of the given size, built from `init`. With
    /// a `parse_error` the story is that one message; else it is the opening
    /// dialogue.
    pub fn new(init: &Globals, width: i64, height: i64, parse_error: Option<String>) -> (r: State)
        ensures
            r.wf(),
            r.gamestate == GameState::Cinematic,
            r.screen == (Screen { width, height }),
            view_player(r.player) == Some(fresh_player(init.player)),
            view_enemy(r.enemy) == Some(fresh_enemy(init.enemy)),
            r.texts@.len() == 0,
            r.particles@.len() == 0,
            r.menu.is_none(),
            is_opening_story(r.story@, parse_error),
    {
        let player = Player::new(
            init.player.health(),
            Bullet::new(DIR_UP, init.player.bullet.speed),
            init.player.bullet.amount,
        );
        let enemy = Enemy::new(
            init.enemy.health(),
            init.enemy.speed(),
            Bullet::new(DIR_DOWN, init.enemy.bullet.speed),
            init.enemy.bullet.amount,
        );
        let mut story: Vec<StoryLine> = Vec::new();
        match parse_error {
            Some(msg) => {
                story.push(StoryLine { text: msg, speaker: Speaker::Player });
            },
            None => {
                story.push(StoryLine { text: "I'm going to kill you!".to_owned(), speaker: Speaker::Enemy });
                story.push(StoryLine { text: "The story begins...".to_owned(), speaker: Speaker::Player });
            },
        }
        proof {
            assert(player@.spell.bullets =~= fresh_player(init.player).spell.bullets);
            assert(enemy@.spell.bullets =~= fresh_enemy(init.enemy).spell.bullets);
        }
        State {
            gamestate: GameState::Cinematic,
            story,
            screen: Screen { width, height },
            player: Some(player),
            enemy: Some(enemy),
            texts: Vec::new(),
            particles: Vec::new(),
            menu: None,
        }
    }

    /// The part of the game that a tick of combat changes.
    pub open spec fn combat(&self) -> CombatModel {
        CombatModel {
            player: view_player(self.player),
            enemy: view_enemy(self.enemy),
            texts: self.texts@,
            particles: self.particles@,
        }
    }

    /// One tick of combat; see `combat_step`. The story, state, menu and
    /// play area stay as they are.
    pub fn on_combat_update(&mut self, delta: u64, keys: Keys) -> (r: TickEvents)
        requires
            old(self).wf(),
        ensures
            final(self).wf(),
            (final(self).combat(), r) == combat_step(
                old(self).combat(),
                delta,
                keys,
                old(self).screen.height,
            ),
            final(self).gamestate == old(self).gamestate,
            final(self).story == old(self).story,
            final(self).screen == old(self).screen,
            final(self).menu == old(self).menu,
    {
        let height = self.screen.height;
        match &mut self.player {
            Some(p) => {
                p.steer(keys);
            },
            None => {},
        }
        let player_hits = match &mut self.enemy {
            Some(e) => e.update(delta, &mut self.player, height),
            None => 0,
        };
        let enemy_hits = match &mut self.player {
            Some(p) => p.update(delta, &mut self.enemy, height),
            None => 0,
        };
        let mut player_died = false;
        let mut at = Point::new(0, 0);
        match &self.player {
            Some(p) => {
                if !p.health.is_alive() {
                    player_died = true;
                    at = p.body.position;
                }
            },
            None => {},
        }
        if player_died {
            push_ring(&mut self.particles, at);
            self.texts.push(Message::PlayerDied);
            self.player = None;
        }
        let mut enemy_died = false;
        match &self.enemy {
            Some(e) => {
                if !e.health.is_alive() {
                    enemy_died = true;
                    at = e.body.position;
                }
            },
            None => {},
        }
        if enemy_died {
            push_ring(&mut self.particles, at);
            self.texts.push(Message::EnemyDefeated);
            self.enemy = None;
        }
        age_particles(&mut self.particles, delta);
        TickEvents { player_hits, enemy_hits, player_died, enemy_died }
    }

    /// One frame: a tick of combat while in combat, else nothing changes.
    pub fn update(&mut self, delta: u64, keys: Keys) -> (r: Option<TickEvents>)
        requires
            old(self).wf(),
        ensures
            final(self).wf(),
            old(self).gamestate == GameState::Combat ==> {
                &&& r is Some
                &&& (final(self).combat(), r->Some_0) == combat_step(
                    old(self).combat(),
                    delta,
                    keys,
                    old(self).screen.height,
                )
                &&& final(self).gamestate == old(self).gamestate
                &&& final(self).story == old(self).story
                &&& final(self).screen == old(self).screen
                &&& final(self).menu == old(self).menu
            },
            old(self).gamestate != GameState::Combat ==> r is None && *final(self) == *old(self),
    {
        if self.gamestate == GameState::Combat {
            Some(self.on_combat_update(delta, keys))
        } else {
            None
        }
    }

    /// Rebuilds the whole game from `init`, keeping the play area's size.
    pub fn restart(&mut self, init: &Globals, parse_error: Option<String>)
        ensures
            final(self).wf(),
            final(self).gamestate == GameState::Cinematic,
            final(self).screen == old(self).screen,
            view_player(final(self).player) == Some(fresh_player(init.player)),
            view_enemy(final(self).enemy) == Some(fresh_enemy(init.enemy)),
            final(self).texts@.len() == 0,
            final(self).particles@.len() == 0,
            final(self).menu.is_none(),
            is_opening_story(final(self).story@, parse_error),
    {
        *self = State::new(init, self.screen.width, self.screen.height, parse_error);
    }

    /// Takes the new size of the play area; nothing else changes.
    pub fn resize_event(&mut self, width: i64, height: i64)
        ensures
            *final(self) == (State { screen: Screen { width, height }, ..*old(self) }),
    {
        self.screen = Screen { width, height };
    }

    /// Handles one key press; see `key_step`.
    pub fn key_down_event(&mut self, key: Key, repeated: bool) -> (r: Action)
        requires
            old(self).wf(),
        ensures
            final(self).wf(),
            (final(self).gamestate, final(self).story@, final(self).menu, r) == key_step(
                old(self).gamestate,
                old(self).story@,
                old(self).menu,
                key,
                repeated,
            ),
            final(self).screen == old(self).screen,
            final(self).player == old(self).player,
            final(self).enemy == old(self).enemy,
            final(self).texts == old(self).texts,
            final(self).particles == old(self).particles,
    {
        if key == Key::Confirm && !repeated {
            match self.gamestate {
                GameState::Cinematic => {
                    let line = self.story.pop();
                    if line.is_none() || self.story.len() == 0 {
                        self.gamestate = GameState::Combat;
                    }
                    Action::Nothing
                },
                GameState::Paused => {
                    match self.menu {
                        Some(sel) => {
                            if sel == 0 {
                                self.menu = None;
                                self.gamestate = if self.story.len() == 0 {
                                    GameState::Combat
                                } else {
                                    GameState::Cinematic
                                };
                                Action::Nothing
                            } else if sel == 1 {
                                Action::Restart
                            } else {
                                Action::Quit
                            }
                        },
                        None => Action::Nothing,
                    }
                },
                GameState::Combat => Action::Nothing,
            }
        } else if key == Key::Menu && !repeated && self.gamestate != GameState::Paused {
            self.gamestate = GameState::Paused;
            self.menu = Some(0);
            Action::Nothing
        } else if key == Key::Restart && !repeated {
            Action::Restart
        } else if self.gamestate == GameState::Paused {
            match self.menu {
                Some(sel) => {
                    if key == Key::Next {
                        self.menu = Some(if sel + 1 == MENU_LEN { 0 } else { sel + 1 });
                    } else if key == Key::Previous {
                        self.menu = Some(if sel == 0 { MENU_LEN - 1 } else { sel - 1 });
                    }
                },
                None => {},
            }
            Action::Nothing
        } else {
            Action::Nothing
        }
    }
}

} // verus!
