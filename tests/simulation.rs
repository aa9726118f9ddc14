use chasedow::coins::{update_coins, Coin, COIN_LIFETIME_MS, COIN_POINTS, COIN_SIZE};
use chasedow::echo::DelayBuffer;
use chasedow::game::{
    GameScreen, GameState, COIN_MAX_X, COIN_MAX_Y, COIN_MIN_Y,
    PLAYER_MAX_X, ROUND_SHADOW_DELAY, SHADOW_FRAMES_DELAY,
};
use chasedow::geometry::{Pos, Rect};
use chasedow::hazard::{Hazard, HazardPhase, INITIAL_LIVES, INVULNERABILITY_MS};
use chasedow::motion::integrate;
use chasedow::platform::{create_platforms, Motion, Platform, PLATFORM_SPEED};
use chasedow::player::{
    Input, Player, JUMP_VELOCITY, PLAYER_SIZE, PLAYER_SPAWN_X, PLAYER_SPAWN_Y, PLAYER_SPEED,
};
use chasedow::world::World;

fn no_input() -> Input {
    Input { left: false, right: false, jump: false, pause: false, confirm: false }
}

fn pos(x: i64, y: i64) -> Pos {
    Pos { x, y }
}

#[test]
fn echo_head_is_position_fed_delay_frames_ago() {
    let mut b = DelayBuffer::new(3, pos(0, 0));
    let fed: Vec<Pos> = (1..=10).map(|i| pos(i * 10, i)).collect();
    for (k, p) in fed.iter().enumerate() {
        b.advance(*p);
        let k = k + 1;
        if k >= 3 {
            assert_eq!(b.head(), fed[k - 3]);
        } else {
            assert_eq!(b.head(), pos(0, 0));
        }
    }
    assert_eq!(b.delay(), 3);
}

#[test]
fn echo_advance_returns_dropped_sample() {
    let mut b = DelayBuffer::new(2, pos(5, 5));
    assert_eq!(b.advance(pos(1, 1)), pos(5, 5));
    assert_eq!(b.advance(pos(2, 2)), pos(5, 5));
    assert_eq!(b.advance(pos(3, 3)), pos(1, 1));
    assert_eq!(b.last_removed(), pos(1, 1));
    assert_eq!(b.head(), pos(2, 2));
}

#[test]
fn echo_depth_one_trails_by_one_frame() {
    let mut b = DelayBuffer::new(1, pos(0, 0));
    b.advance(pos(7, 8));
    assert_eq!(b.head(), pos(7, 8));
    b.advance(pos(9, 9));
    assert_eq!(b.head(), pos(9, 9));
}

#[test]
fn echo_contact_uses_reduced_hitbox() {
    let b = DelayBuffer::new(4, pos(100, 100));
    assert!(b.collides_with_player(pos(100, 100)));
    assert!(b.collides_with_player(pos(132, 100)));
    assert!(!b.collides_with_player(pos(133, 100)));
    assert!(!b.collides_with_player(pos(100, 133)));
}

#[test]
fn actor_stops_flush_against_wall() {
    let mut w = World::new();
    w.add_solid(pos(100, 0), 10, 100);
    let a = w.add_actor(pos(50, 10), 20, 20);
    // right edge at 70, wall face at 100: 29 free pixels before touching
    assert!(!w.move_h(a, 40));
    assert_eq!(w.actor_pos(a), pos(79, 10));
    assert!(!w.collide_check(a, pos(79, 10)));
    assert!(w.collide_check(a, pos(80, 10)));
    assert!(!w.move_h(a, 5));
    assert_eq!(w.actor_pos(a), pos(79, 10));
}

#[test]
fn actor_moves_freely_when_short_of_wall() {
    let mut w = World::new();
    w.add_solid(pos(100, 0), 10, 100);
    let a = w.add_actor(pos(50, 10), 20, 20);
    assert!(w.move_h(a, 29));
    assert_eq!(w.actor_pos(a), pos(79, 10));
    assert!(w.move_h(a, -79));
    assert_eq!(w.actor_pos(a), pos(0, 10));
}

#[test]
fn actor_falls_onto_ground_and_stops() {
    let mut w = World::new();
    w.add_solid(pos(0, 585), 800, 12);
    let a = w.add_actor(pos(250, 500), 48, 48);
    assert!(!w.move_v(a, 100));
    assert_eq!(w.actor_pos(a), pos(250, 536));
    assert!(w.collide_check(a, pos(250, 537)));
}

#[test]
fn moving_platform_does_not_carry_resting_actor() {
    let mut w = World::new();
    let s = w.add_solid(pos(100, 200), 200, 12);
    let a = w.add_actor(pos(150, 151), 48, 48);
    w.solid_move(s, 5, 0);
    assert_eq!(w.solid_pos(s), pos(105, 200));
    assert_eq!(w.actor_pos(a), pos(150, 151));
}

#[test]
fn moving_solid_pushes_actor_in_its_way() {
    let mut w = World::new();
    let s = w.add_solid(pos(0, 0), 10, 100);
    let a = w.add_actor(pos(13, 10), 20, 20);
    w.solid_move(s, 5, 0);
    assert_eq!(w.solid_pos(s), pos(5, 0));
    assert_eq!(w.actor_pos(a), pos(18, 10));
}

#[test]
fn pushed_actor_stops_at_other_solid() {
    let mut w = World::new();
    let s = w.add_solid(pos(0, 0), 10, 100);
    w.add_solid(pos(40, 0), 10, 100);
    let a = w.add_actor(pos(12, 10), 20, 20);
    w.solid_move(s, 10, 0);
    assert_eq!(w.actor_pos(a), pos(19, 10));
}

#[test]
fn hazard_contact_opens_window_and_ignores_repeats() {
    let mut h = Hazard::new();
    assert_eq!(h.phase(), HazardPhase::Safe);
    assert!(h.contact());
    assert_eq!(h, Hazard { lives: INITIAL_LIVES - 1, timer_ms: INVULNERABILITY_MS });
    assert_eq!(h.phase(), HazardPhase::Invulnerable);
    assert!(h.is_invulnerable());
    h.tick(1000);
    assert!(!h.contact());
    h.tick(1999);
    assert!(!h.contact());
    assert_eq!(h.lives, INITIAL_LIVES - 1);
    h.tick(1);
    assert_eq!(h.phase(), HazardPhase::Safe);
    assert!(h.contact());
    assert_eq!(h.lives, INITIAL_LIVES - 2);
}

#[test]
fn hazard_last_life_depletes_without_window() {
    let mut h = Hazard { lives: 1, timer_ms: 0 };
    assert!(h.contact());
    assert_eq!(h, Hazard { lives: 0, timer_ms: 0 });
    assert_eq!(h.phase(), HazardPhase::Depleted);
    assert!(!h.contact());
    assert_eq!(h.lives, 0);
}

#[test]
fn hazard_tick_does_not_go_below_zero() {
    let mut h = Hazard { lives: 2, timer_ms: 500 };
    h.tick(2000);
    assert_eq!(h.timer_ms, 0);
    assert!(!h.is_invulnerable());
}

#[test]
fn untouched_coin_expires_by_its_lifetime() {
    let far = Rect::new(700, 0, PLAYER_SIZE, PLAYER_SIZE);
    let mut coins = vec![Coin::new(pos(0, 200))];
    let mut collected = 0;
    let mut elapsed = 0;
    while !coins.is_empty() {
        collected += update_coins(&mut coins, 16, far);
        elapsed += 16;
    }
    assert_eq!(collected, 0);
    assert!(elapsed >= COIN_LIFETIME_MS && elapsed < COIN_LIFETIME_MS + 16);
}

#[test]
fn coin_expiry_wins_over_contact() {
    let c = Coin { pos: pos(0, 0), lifetime_ms: 10 };
    let mut coins = vec![c];
    let n = update_coins(&mut coins, 10, Rect::new(0, 0, 48, 48));
    assert_eq!(n, 0);
    assert!(coins.is_empty());
}

#[test]
fn touched_coin_is_collected_once() {
    let player = Rect::new(10, 10, PLAYER_SIZE, PLAYER_SIZE);
    let mut coins = vec![
        Coin::new(pos(500, 500)),
        Coin::new(pos(20, 20)),
        Coin { pos: pos(300, 300), lifetime_ms: 100 },
    ];
    assert_eq!(update_coins(&mut coins, 16, player), 1);
    assert_eq!(
        coins,
        vec![
            Coin { pos: pos(500, 500), lifetime_ms: COIN_LIFETIME_MS - 16 },
            Coin { pos: pos(300, 300), lifetime_ms: 84 },
        ]
    );
    assert_eq!(update_coins(&mut coins, 16, player), 0);
    assert_eq!(coins.len(), 2);
}

#[test]
fn coin_contact_edges() {
    let c = Coin::new(pos(100, 100));
    assert!(c.collides_with_player(pos(100 + COIN_SIZE, 100), 48, 48));
    assert!(!c.collides_with_player(pos(101 + COIN_SIZE, 100), 48, 48));
    assert!(c.collides_with_player(pos(100 - 48, 100 - 48), 48, 48));
}

#[test]
fn integrate_carries_fractions() {
    let mut rem = 0;
    // 150 px/s for 16 ms is 2.4 px
    assert_eq!(integrate(&mut rem, PLAYER_SPEED, 16), 2);
    assert_eq!(rem, 400_000);
    assert_eq!(integrate(&mut rem, PLAYER_SPEED, 16), 4 - 2 + 0);
    assert_eq!(rem, 800_000);
    assert_eq!(integrate(&mut rem, PLAYER_SPEED, 16), 3);
    assert_eq!(rem, 200_000);
    let mut rem = 0;
    assert_eq!(integrate(&mut rem, -PLAYER_SPEED, 16), -2);
    assert_eq!(rem, -400_000);
}

#[test]
fn player_runs_jumps_and_falls() {
    let mut w = World::new();
    w.add_solid(pos(0, 585), 800, 12);
    let mut p = Player::new(&mut w);
    assert_eq!(w.actor_pos(p.collider), pos(250, 500));
    assert!(!p.on_ground(&w));
    // airborne: gravity adds 500 px/s^2 * 0.1 s = 50 px/s
    p.update(&mut w, Input { right: true, ..no_input() }, 100);
    assert_eq!(p.vx, PLAYER_SPEED);
    assert_eq!(p.vy, 50_000);
    assert_eq!(w.actor_pos(p.collider), pos(265, 505));
    // a jump is refused in the air
    p.update(&mut w, Input { jump: true, ..no_input() }, 100);
    assert_eq!(p.vx, 0);
    assert_eq!(p.vy, 100_000);
    for _ in 0..50 {
        p.update(&mut w, no_input(), 100);
    }
    assert_eq!(w.actor_pos(p.collider).y, 536);
    assert!(p.on_ground(&w));
    p.update(&mut w, Input { jump: true, left: true, ..no_input() }, 10);
    assert_eq!(p.vy, JUMP_VELOCITY);
    assert_eq!(p.vx, -PLAYER_SPEED);
    assert!(w.actor_pos(p.collider).y < 536);
}

#[test]
fn platform_oscillates_between_bounds() {
    let mut w = World::new();
    let mut p = Platform::new(&mut w, pos(490, 100), 200, 12, true);
    assert!(p.is_moving());
    assert!(!p.cacti.is_empty() && p.cacti.len() <= 2);
    // 50 px/s for 200 ms is 10 px: reaches 500 and turns
    p.update(&mut w, 200);
    assert_eq!(w.solid_pos(p.collider), pos(500, 100));
    assert_eq!(p.motion, Motion::Oscillating { speed: -PLATFORM_SPEED, left: 150, right: 500 });
    p.update(&mut w, 200);
    assert_eq!(w.solid_pos(p.collider), pos(490, 100));
}

#[test]
fn static_platform_stays() {
    let mut w = World::new();
    let mut p = Platform::new(&mut w, pos(50, 200), 200, 12, false);
    assert!(!p.is_moving());
    p.update(&mut w, 1000);
    assert_eq!(w.solid_pos(p.collider), pos(50, 200));
    for c in &p.cacti {
        assert!(c.size >= 36 && c.size <= 60);
        assert!(c.x >= 50 && c.x + c.size <= 250);
    }
}

#[test]
fn level_has_eight_platforms() {
    let mut w = World::new();
    let ps = create_platforms(&mut w);
    assert_eq!(ps.len(), 8);
    assert_eq!(w.solid_pos(ps[7].collider), pos(0, 585));
    assert!(ps[0].is_moving() && ps[6].is_moving());
    assert_eq!(ps.iter().filter(|p| p.is_moving()).count(), 2);
}

#[test]
fn new_game_starts_on_menu() {
    let g = GameState::new();
    assert_eq!(g.screen, GameScreen::MainMenu);
    assert_eq!(g.shadow.delay(), SHADOW_FRAMES_DELAY);
    assert_eq!(g.hazard.lives, INITIAL_LIVES);
    assert_eq!(g.high_score_ms, 0);
    assert_eq!(g.shadow.head(), pos(PLAYER_SPAWN_X, PLAYER_SPAWN_Y));
}

#[test]
fn platform_started_past_bound_turns_back() {
    let mut w = World::new();
    let mut p = Platform::new(&mut w, pos(600, 100), 200, 12, true);
    p.update(&mut w, 100);
    assert_eq!(w.solid_pos(p.collider), pos(605, 100));
    assert_eq!(p.motion, Motion::Oscillating { speed: -PLATFORM_SPEED, left: 150, right: 500 });
    p.update(&mut w, 100);
    assert_eq!(w.solid_pos(p.collider), pos(600, 100));
}

#[test]
fn platforms_get_one_or_two_cacti() {
    for _ in 0..50 {
        let mut w = World::new();
        let p = Platform::new(&mut w, pos(0, 0), 200, 12, false);
        assert!(p.cacti.len() == 1 || p.cacti.len() == 2);
    }
}

#[test]
fn echo_starts_on_player_and_costs_a_life_if_player_stays() {
    let mut g = started();
    assert_eq!(g.shadow.head(), g.world.actor_pos(g.player.collider));
    g.update(no_input(), 16);
    assert_eq!(g.hazard.lives, INITIAL_LIVES - 1);
    assert!(g.hazard.is_invulnerable());
}

fn started() -> GameState {
    let mut g = GameState::new();
    g.update(Input { confirm: true, ..no_input() }, 16);
    assert_eq!(g.screen, GameScreen::Playing);
    g
}

#[test]
fn reset_restores_episode_and_commits_high_score() {
    let mut g = started();
    for _ in 0..100 {
        g.update(Input { right: true, ..no_input() }, 16);
    }
    assert_eq!(g.score_ms, 1600);
    g.coin_points = 40;
    g.hazard = Hazard { lives: 1, timer_ms: 0 };
    g.reset_game();
    assert_eq!(g.high_score_ms, 1600);
    assert_eq!(g.score_ms, 0);
    assert_eq!(g.coin_points, 0);
    assert_eq!(g.hazard, Hazard { lives: INITIAL_LIVES, timer_ms: 0 });
    assert!(g.coins.is_empty());
    assert_eq!(g.shadow.delay(), ROUND_SHADOW_DELAY);
    let b = &mut g.shadow;
    for _ in 0..ROUND_SHADOW_DELAY {
        assert_eq!(b.advance(pos(0, 0)), pos(PLAYER_SPAWN_X, PLAYER_SPAWN_Y));
    }
    // a lower score does not lower the high score
    g.score_ms = 10;
    g.reset_game();
    assert_eq!(g.high_score_ms, 1600);
}

#[test]
fn pause_freezes_everything() {
    let mut g = started();
    for _ in 0..10 {
        g.update(no_input(), 16);
    }
    g.update(Input { pause: true, ..no_input() }, 16);
    assert_eq!(g.screen, GameScreen::Paused);
    let (score, lives, coins, timer) = (g.score_ms, g.hazard.lives, g.coins.clone(), g.coin_spawn_timer_ms);
    let at = g.world.actor_pos(g.player.collider);
    for _ in 0..200 {
        g.update(Input { right: true, ..no_input() }, 16);
    }
    assert_eq!(g.score_ms, score);
    assert_eq!(g.hazard.lives, lives);
    assert_eq!(g.coins, coins);
    assert_eq!(g.coin_spawn_timer_ms, timer);
    assert_eq!(g.world.actor_pos(g.player.collider), at);
    g.update(Input { pause: true, ..no_input() }, 16);
    assert_eq!(g.screen, GameScreen::Playing);
    g.update(no_input(), 16);
    assert_eq!(g.score_ms, score + 16);
}

#[test]
fn playing_frames_spawn_coins_and_grow_score() {
    let mut g = started();
    g.step_playing(no_input(), 16, pos(600, 120));
    assert_eq!(g.coins, vec![Coin { pos: pos(600, 120), lifetime_ms: COIN_LIFETIME_MS - 16 }]);
    assert_eq!(g.coin_spawn_timer_ms, 3000);
    assert_eq!(g.score_ms, 16);
    g.step_playing(no_input(), 16, pos(0, 100));
    assert_eq!(g.coins.len(), 1);
    assert_eq!(g.coin_spawn_timer_ms, 2984);
}

#[test]
fn coin_under_player_scores_points() {
    let mut g = started();
    let at = g.world.actor_pos(g.player.collider);
    g.step_playing(no_input(), 16, pos(at.x, at.y));
    assert!(g.coins.is_empty());
    assert_eq!(g.coin_points, COIN_POINTS);
}

#[test]
fn random_coins_land_in_coin_area() {
    let mut g = started();
    for _ in 0..30 {
        g.spawn_coin();
    }
    assert_eq!(g.coins.len(), 30);
    for c in &g.coins {
        assert!(c.pos.x >= 0 && c.pos.x <= COIN_MAX_X);
        assert!(c.pos.y >= COIN_MIN_Y && c.pos.y <= COIN_MAX_Y);
        assert_eq!(c.lifetime_ms, COIN_LIFETIME_MS);
    }
    assert!(g.coins.iter().any(|c| c.pos.x != 0));
    assert!(g.coins.iter().any(|c| c.pos.y != COIN_MIN_Y));
}

#[test]
fn player_is_kept_inside_window() {
    let mut g = started();
    for _ in 0..400 {
        g.step_playing(Input { left: true, ..no_input() }, 16, pos(700, 100));
        let p = g.world.actor_pos(g.player.collider);
        assert!(p.x >= 0 && p.x <= PLAYER_MAX_X);
        if g.screen != GameScreen::Playing {
            break;
        }
    }
}

#[test]
fn echo_contact_costs_life_then_game_over() {
    let mut g = started();
    // put the echo on the player
    let at = g.world.actor_pos(g.player.collider);
    g.shadow = DelayBuffer::new(1, at);
    g.step_playing(no_input(), 16, pos(700, 100));
    assert_eq!(g.hazard.lives, INITIAL_LIVES - 1);
    assert_eq!(g.hazard.timer_ms, INVULNERABILITY_MS);
    g.step_playing(no_input(), 16, pos(700, 100));
    assert_eq!(g.hazard.lives, INITIAL_LIVES - 1);
    g.hazard = Hazard { lives: 1, timer_ms: 0 };
    g.step_playing(no_input(), 16, pos(700, 100));
    assert_eq!(g.hazard.lives, 0);
    assert_eq!(g.screen, GameScreen::GameOver);
    g.update(Input { pause: true, ..no_input() }, 16);
    assert_eq!(g.screen, GameScreen::MainMenu);
}

#[test]
fn game_over_confirm_restarts() {
    let mut g = started();
    g.score_ms = 5000;
    g.screen = GameScreen::GameOver;
    g.update(Input { confirm: true, ..no_input() }, 16);
    assert_eq!(g.screen, GameScreen::Playing);
    assert_eq!(g.high_score_ms, 5000);
    assert_eq!(g.score_ms, 0);
}
