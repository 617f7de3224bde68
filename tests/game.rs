use touhou_engine::entity::{Keys, Player, PARTICLE_SPEED};
use touhou_engine::game::{Action, GameState, Globals, InitData, InitObject, Key, Message, Speaker, State};
use touhou_engine::physics::Point;
use touhou_engine::spell::Bullet;
use touhou_engine::timer::NANOS_PER_SEC;

const NO_KEYS: Keys = Keys { up: false, down: false, left: false, right: false };

fn config(player_health: u32, enemy_health: u32) -> Globals {
    Globals {
        background: String::from("bg"),
        player: InitObject {
            data: InitData { amount: 1, health: player_health, speed: 5 },
            bullet: InitData { amount: 4, health: 0, speed: 10 },
        },
        enemy: InitObject {
            data: InitData { amount: 1, health: enemy_health, speed: 0 },
            bullet: InitData { amount: 0, health: 0, speed: 10 },
        },
    }
}

fn in_combat(init: &Globals) -> State {
    let mut s = State::new(init, 800, 800, None);
    assert_eq!(s.key_down_event(Key::Confirm, false), Action::Nothing);
    assert_eq!(s.key_down_event(Key::Confirm, false), Action::Nothing);
    assert_eq!(s.gamestate, GameState::Combat);
    s
}

#[test]
fn new_state_starts_with_the_story() {
    let s = State::new(&config(3, 200), 800, 600, None);
    assert_eq!(s.gamestate, GameState::Cinematic);
    assert_eq!(s.story.len(), 2);
    assert_eq!(s.story[1].text, "The story begins...");
    assert_eq!(s.story[1].speaker, Speaker::Player);
    assert_eq!(s.story[0].text, "I'm going to kill you!");
    assert_eq!(s.story[0].speaker, Speaker::Enemy);
    let p = s.player.as_ref().unwrap();
    assert_eq!(p.body.position, Point::new(350, 350));
    assert_eq!(p.health.health, 3);
    assert_eq!(p.spell.bullets.len(), 4);
    let e = s.enemy.as_ref().unwrap();
    assert_eq!(e.body.position, Point::new(350, 100));
    assert_eq!(e.health.max_health, 200);
    assert!(e.spell.bullets.is_empty());
    assert_eq!(p.spell.bullets[0].body.velocity, Point::new(0, -10));
    assert!(!p.spell.bullets[0].is_visible);
    assert!(s.texts.is_empty() && s.particles.is_empty());
    assert_eq!(s.menu, None);
}

#[test]
fn parse_error_becomes_the_story() {
    let s = State::new(&Globals::default(), 800, 600, Some(String::from("bad script")));
    assert_eq!(s.story.len(), 1);
    assert_eq!(s.story[0].text, "bad script");
    assert_eq!(s.player.as_ref().unwrap().health.health, 0);
}

#[test]
fn default_config_player_falls_on_the_first_tick() {
    let mut s = in_combat(&Globals::default());
    let ev = s.update(NANOS_PER_SEC / 60, NO_KEYS).unwrap();
    assert!(ev.player_died && ev.enemy_died);
    assert!(s.player.is_none() && s.enemy.is_none());
    assert_eq!(s.texts, vec![Message::PlayerDied, Message::EnemyDefeated]);
    assert_eq!(s.particles.len(), 8);
}

#[test]
fn confirm_walks_through_the_story() {
    let mut s = State::new(&config(3, 3), 800, 600, None);
    s.key_down_event(Key::Confirm, false);
    assert_eq!(s.gamestate, GameState::Cinematic);
    assert_eq!(s.story.len(), 1);
    s.key_down_event(Key::Confirm, true);
    assert_eq!(s.story.len(), 1);
    s.key_down_event(Key::Confirm, false);
    assert_eq!(s.gamestate, GameState::Combat);
    assert!(s.story.is_empty());
}

#[test]
fn pause_menu_navigation_and_resume() {
    let mut s = in_combat(&config(3, 3));
    s.key_down_event(Key::Menu, false);
    assert_eq!(s.gamestate, GameState::Paused);
    assert_eq!(s.menu, Some(0));
    // pausing again while paused changes nothing
    s.key_down_event(Key::Menu, false);
    assert_eq!(s.menu, Some(0));
    s.key_down_event(Key::Previous, false);
    assert_eq!(s.menu, Some(2));
    assert_eq!(s.key_down_event(Key::Confirm, false), Action::Quit);
    s.key_down_event(Key::Next, true);
    assert_eq!(s.menu, Some(0));
    s.key_down_event(Key::Next, false);
    assert_eq!(s.key_down_event(Key::Confirm, false), Action::Restart);
    s.key_down_event(Key::Previous, false);
    assert_eq!(s.key_down_event(Key::Confirm, false), Action::Nothing);
    assert_eq!(s.gamestate, GameState::Combat);
    assert_eq!(s.menu, None);
}

#[test]
fn resume_returns_to_the_story_when_lines_remain() {
    let mut s = State::new(&config(3, 3), 800, 600, None);
    s.key_down_event(Key::Menu, false);
    assert_eq!(s.gamestate, GameState::Paused);
    s.key_down_event(Key::Confirm, false);
    assert_eq!(s.gamestate, GameState::Cinematic);
    assert_eq!(s.story.len(), 2);
}

#[test]
fn restart_key_asks_for_a_rebuild() {
    let mut s = in_combat(&config(3, 3));
    assert_eq!(s.key_down_event(Key::Restart, true), Action::Nothing);
    assert_eq!(s.key_down_event(Key::Restart, false), Action::Restart);
    s.update(NANOS_PER_SEC, NO_KEYS);
    s.restart(&config(3, 3), None);
    assert_eq!(s.gamestate, GameState::Cinematic);
    assert_eq!(s.story.len(), 2);
    assert_eq!(s.screen.height, 800);
    assert_eq!(s.player.as_ref().unwrap().body.position, Point::new(350, 350));
}

#[test]
fn simulation_runs_only_in_combat() {
    let mut s = State::new(&config(3, 3), 800, 600, None);
    assert!(s.update(NANOS_PER_SEC, Keys { up: true, down: false, left: false, right: false }).is_none());
    assert_eq!(s.player.as_ref().unwrap().body.position, Point::new(350, 350));
    s.key_down_event(Key::Confirm, false);
    s.key_down_event(Key::Confirm, false);
    assert!(s.update(0, Keys { up: true, down: false, left: false, right: false }).is_some());
    assert_eq!(s.player.as_ref().unwrap().body.position, Point::new(350, 345));
}

#[test]
fn resize_keeps_the_simulation() {
    let mut s = in_combat(&config(3, 3));
    s.update(0, Keys { up: false, down: false, left: false, right: true });
    s.resize_event(1024, 768);
    assert_eq!(s.screen.width, 1024);
    assert_eq!(s.screen.height, 768);
    assert_eq!(s.gamestate, GameState::Combat);
    assert_eq!(s.player.as_ref().unwrap().body.position, Point::new(355, 350));
}

#[test]
fn message_texts() {
    assert_eq!(Message::PlayerDied.text(), "You died! Press R to restart.");
    assert_eq!(Message::EnemyDefeated.text(), "You win! Press R to restart.");
}

#[test]
fn config_getters() {
    let o = config(7, 9).enemy;
    assert_eq!(o.health(), 9);
    assert_eq!(o.speed(), 0);
    assert_eq!(InitObject::default().data, InitData::default());
}

// A player at (350, 350) firing upwards: a frame just over a tenth of a second
// fires its weapon every tick.
#[test]
fn player_fires_upward_every_tick() {
    let frame = NANOS_PER_SEC / 10 + 1;
    let mut p = Player::new(3, Bullet::new([0, -1], 10), 16);
    let mut enemy = None;
    p.update(frame, &mut enemy, 800);
    assert!(p.spell.bullets[0].is_visible);
    assert_eq!(p.spell.bullets[0].body.position, Point::new(350, 350));
    for _ in 0..9 {
        p.update(frame, &mut enemy, 800);
    }
    let b = p.spell.bullets[0];
    assert!(b.is_visible);
    assert_eq!(b.body.position, Point::new(350, 350 - 9 * 10));
    assert_eq!(p.spell.visible_bullets().len(), 10);
}

// A frame of exactly the weapon's period does not pass it: the first bullet
// comes out on the second tick.
#[test]
fn player_frame_of_exactly_the_period_fires_on_the_second_tick() {
    let frame = NANOS_PER_SEC / 10;
    let mut p = Player::new(3, Bullet::new([0, -1], 10), 16);
    let mut enemy = None;
    p.update(frame, &mut enemy, 800);
    assert!(p.spell.visible_bullets().is_empty());
    p.update(frame, &mut enemy, 800);
    assert_eq!(p.spell.visible_bullets().len(), 1);
    assert_eq!(p.spell.bullets[0].body.position, Point::new(350, 350));
}

// Enemy with 200 points: each colliding player bullet takes one; the
// two-hundredth removes it, leaves four particles and queues the win message.
#[test]
fn enemy_defeated_after_two_hundred_hits() {
    let mut s = in_combat(&config(3, 200));
    for i in 0..200u32 {
        let p = s.player.as_mut().unwrap();
        p.spell.bullets[0].is_visible = true;
        p.spell.bullets[0].body.position = Point::new(350, 110);
        let ev = s.update(0, NO_KEYS).unwrap();
        assert_eq!(ev.enemy_hits, 1);
        if i == 0 {
            assert_eq!(s.enemy.as_ref().unwrap().health.health, 199);
        }
        if i < 199 {
            assert!(!ev.enemy_died);
            assert_eq!(s.enemy.as_ref().unwrap().health.health, 199 - i);
        } else {
            assert!(ev.enemy_died);
        }
    }
    assert!(s.enemy.is_none());
    assert_eq!(s.texts, vec![Message::EnemyDefeated]);
    assert_eq!(s.particles.len(), 4);
    // spawned at (350, 100) and aged once in the same tick
    let step = PARTICLE_SPEED as i64;
    let expected = [
        Point::new(350, 100 - step),
        Point::new(350, 100 + step),
        Point::new(350 - step, 100),
        Point::new(350 + step, 100),
    ];
    for (p, at) in s.particles.iter().zip(expected.iter()) {
        assert!(p.bullet.is_visible);
        assert_eq!(p.bullet.body.position, *at);
    }
    // the enemy stays gone
    s.update(NANOS_PER_SEC, NO_KEYS);
    assert!(s.enemy.is_none());
    assert_eq!(s.texts.len(), 1);
}

#[test]
fn particles_expire_after_their_time_to_live() {
    let mut s = in_combat(&config(0, 3));
    s.update(0, NO_KEYS);
    assert_eq!(s.particles.len(), 4);
    s.update(2 * NANOS_PER_SEC, NO_KEYS);
    assert_eq!(s.particles.len(), 4);
    s.update(1, NO_KEYS);
    assert!(s.particles.is_empty());
    assert!(s.player.is_none());
}
