use vstd::prelude::*;

use crate::coins::{
    coins_collected, coins_kept, coins_wf, update_coins, Coin, COIN_POINTS, COIN_SIZE,
    COIN_SPAWN_INTERVAL_MS,
};
use crate::echo::{hitbox, DelayBuffer};
use crate::geometry::{Pos, Rect, WINDOW_HEIGHT, WINDOW_WIDTH};
use crate::hazard::{Hazard, HazardPhase, INITIAL_LIVES};
use crate::platform::{
    create_platforms, level_layout, matches_layout, platform_after, platform_frame, platforms_wf, Platform,
};
use crate::motion::{rem_of, step_of};
use crate::player::{
    fall_velocity, moved_body, run_velocity, Input, Player, PLAYER_SIZE, PLAYER_SPAWN_X, PLAYER_SPAWN_Y,
};
use crate::random::random_between;
use crate::world::{step_ok, World};

verus! {

/// Echo delay, in frames, of the state shown behind the main menu.
pub const SHADOW_FRAMES_DELAY: usize = 75;

/// Echo delay, in frames, of every round played.
pub const ROUND_SHADOW_DELAY: usize = 25;

/// Coins appear with their corner in `[0, COIN_MAX_X] x [COIN_MIN_Y, COIN_MAX_Y]`:
/// inside the window and clear of the strip above the ground.
pub const COIN_MAX_X: i64 = WINDOW_WIDTH - COIN_SIZE;
pub const COIN_MIN_Y: i64 = 100;
pub const COIN_MAX_Y: i64 = WINDOW_HEIGHT - COIN_SIZE - 50;

/// The rightmost x at which the player is still inside the window.
pub const PLAYER_MAX_X: i64 = WINDOW_WIDTH - PLAYER_SIZE;

/// Which screen is showing, and so which updates run.
#[derive(Clone, Copy, Debug, PartialEq, Eq, Structural)]
pub enum GameScreen {
    MainMenu,
    Playing,
    Paused,
    GameOver,
}

/// Where the player appears, and so where every slot of a fresh echo stands.
pub open spec fn player_spawn() -> Pos {
    Pos { x: PLAYER_SPAWN_X, y: PLAYER_SPAWN_Y }
}

pub open spec fn player_spawn_rect() -> Rect {
    Rect { x: PLAYER_SPAWN_X, y: PLAYER_SPAWN_Y, w: PLAYER_SIZE, h: PLAYER_SIZE }
}

/// The player's body for contact with coins, at `p`.
pub open spec fn player_rect(p: Pos) -> Rect {
    Rect { x: p.x, y: p.y, w: PLAYER_SIZE, h: PLAYER_SIZE }
}

/// A position where a coin may appear.
pub open spec fn coin_spot(p: Pos) -> bool {
    0 <= p.x <= COIN_MAX_X && COIN_MIN_Y <= p.y <= COIN_MAX_Y
}

pub open spec fn max_score(a: u64, b: u64) -> u64 {
    if a >= b {
        a
    } else {
        b
    }
}

/// Coin points after `n` more coins, saturating at the largest `u64`.
pub open spec fn add_points(points: int, n: int) -> u64 {
    if points + COIN_POINTS * n > u64::MAX {
        u64::MAX
    } else {
        (points + COIN_POINTS * n) as u64
    }
}

fn add_points_exec(points: u64, n: u64) -> (r: u64)
    ensures
        r == add_points(points as int, n as int),
{
    if n > (u64::MAX - points) / COIN_POINTS {
        assert(points + 10 * n > u64::MAX) by (nonlinear_arith)
            requires
                n > (u64::MAX - points) / 10,
                points <= u64::MAX,
        ;
        u64::MAX
    } else {
        assert(points + 10 * n <= u64::MAX) by (nonlinear_arith)
            requires
                n <= (u64::MAX - points) / 10,
                points <= u64::MAX,
        ;
        points + COIN_POINTS * n
    }
}

/// How the platforms and the player move in a frame of play that is not
/// paused: the platforms move in order, then the player's velocity is set from
/// the input and from ground contact in the world the platforms left, the body
/// moves against the solids, and is put back inside the window if it left it.
pub open spec fn moved_as_played(old: GameState, new: GameState, input: Input, dt: u32) -> bool {
    let moved = platforms_frame(old.world.solids(), old.world.actors(), old.platforms@, dt);
    let k = old.player.collider.index as int;
    let start = moved.1[k];
    let on_ground = !step_ok(moved.0, start, 0, 1, None);
    let vx = run_velocity(input);
    let vy = fall_velocity(old.player.vy as int, on_ground, input.jump, dt as int);
    let body = moved_body(
        moved.0,
        start,
        step_of(old.player.rem_x as int, vx as int, dt as int),
        step_of(old.player.rem_y as int, vy, dt as int),
    );
    let inside = 0 <= body.x <= PLAYER_MAX_X;
    let x = if body.x < 0 {
        0
    } else if body.x > PLAYER_MAX_X {
        PLAYER_MAX_X as int
    } else {
        body.x as int
    };
    &&& new.platforms@ == Seq::new(
        old.platforms@.len(),
        |j: int| platform_after(old.platforms@[j], old.world.solids(), dt),
    )
    &&& new.world.solids() == moved.0
    &&& new.world.actors() == moved.1.update(k, body.at(x, body.y as int))
    &&& new.player.collider == old.player.collider
    &&& new.player.vx == if inside {
        vx
    } else {
        0
    }
    &&& new.player.vy == vy
    &&& new.player.rem_x == if inside {
        rem_of(old.player.rem_x as int, vx as int, dt as int)
    } else {
        0
    }
    &&& new.player.rem_y == rem_of(old.player.rem_y as int, vy, dt as int)
}

/// What one frame of play does, from `old` to `new`; see `GameState::step_playing`.
pub open spec fn played(old: GameState, new: GameState, input: Input, dt: u32, spawn_at: Pos) -> bool {
    &&& new.wf()
    &&& ({
        let due = old.coin_spawn_timer_ms <= dt;
        let with_new = if due {
            old.coins@.push(Coin::new_spec(spawn_at))
        } else {
            old.coins@
        };
        let body = player_rect(old.player_pos());
        let n = coins_collected(with_new, dt as u64, body);
        &&& new.coin_spawn_timer_ms == if due {
            COIN_SPAWN_INTERVAL_MS
        } else {
            (old.coin_spawn_timer_ms - dt) as u64
        }
        &&& new.coins@ == coins_kept(with_new, dt as u64, body)
        &&& new.coin_points == add_points(old.coin_points as int, n as int)
    })
    &&& new.high_score_ms == old.high_score_ms
    &&& input.pause ==> {
        &&& new.screen == GameScreen::Paused
        &&& new.hazard == old.hazard.after_tick(dt as u64)
        &&& new.world == old.world
        &&& new.player == old.player
        &&& new.shadow == old.shadow
        &&& new.platforms == old.platforms
        &&& new.score_ms == old.score_ms
    }
    &&& !input.pause ==> {
        let p = new.player_pos();
        let touch = hitbox(new.shadow@[0]).overlaps_spec(hitbox(p));
        let ticked = old.hazard.after_tick(dt as u64);
        &&& 0 <= p.x <= PLAYER_MAX_X
        &&& new.shadow@ == old.shadow@.drop_first().push(p)
        &&& new.shadow.last_removed_spec() == old.shadow@[0]
        &&& new.hazard == if touch {
            ticked.after_contact()
        } else {
            ticked
        }
        &&& new.screen == if new.hazard.phase_spec() == HazardPhase::Depleted
            && touch {
            GameScreen::GameOver
        } else {
            old.screen
        }
        &&& new.score_ms == old.score_ms.saturating_add(dt as u64)
        &&& moved_as_played(old, new, input, dt)
    }
}

/// The solids and actors after each platform of `ps` has had its frame, in order.
pub open spec fn platforms_frame(solids: Seq<Rect>, actors: Seq<Rect>, ps: Seq<Platform>, dt: u32) -> (
    Seq<Rect>,
    Seq<Rect>,
)
    decreases ps.len(),
{
    if ps.len() == 0 {
        (solids, actors)
    } else {
        let before = platforms_frame(solids, actors, ps.drop_last(), dt);
        platform_frame(before.0, before.1, ps.last(), dt)
    }
}

/// Platforms that own solids `0..ps.len()` leave every later solid in place and
/// keep the number of solids and actors.
proof fn lemma_frame_keeps_later(solids: Seq<Rect>, actors: Seq<Rect>, ps: Seq<Platform>, dt: u32, j: int)
    requires
        forall|i: int| 0 <= i < ps.len() ==> (#[trigger] ps[i]).collider.index == i,
        ps.len() <= j < solids.len(),
    ensures
        platforms_frame(solids, actors, ps, dt).0.len() == solids.len(),
        platforms_frame(solids, actors, ps, dt).1.len() == actors.len(),
        platforms_frame(solids, actors, ps, dt).0[j] == solids[j],
    decreases ps.len(),
{
    if ps.len() > 0 {
        let rest = ps.drop_last();
        assert forall|i: int| 0 <= i < rest.len() implies (#[trigger] rest[i]).collider.index == i by {
            assert(rest[i] == ps[i]);
        }
        lemma_frame_keeps_later(solids, actors, rest, dt, j);
    }
}

/// One episode and the screens around it: the world with the player and the
/// platforms, the echo, lives, coins and scores. Scores are survival times in
/// milliseconds; coin points are counted apart.
pub struct GameState {
    pub world: World,
    pub player: Player,
    pub shadow: DelayBuffer,
    pub platforms: Vec<Platform>,
    pub score_ms: u64,
    pub screen: GameScreen,
    pub high_score_ms: u64,
    pub hazard: Hazard,
    pub coins: Vec<Coin>,
    pub coin_spawn_timer_ms: u64,
    pub coin_points: u64,
}

impl GameState {
    pub open spec fn wf(&self) -> bool {
        &&& self.world.wf()
        &&& self.player.wf(self.world)
        &&& self.shadow.wf()
        &&& platforms_wf(self.platforms@, self.world, 0)
        &&& coins_wf(self.coins@)
    }

    /// A fresh episode: the world rebuilt, the player at the spawn point, the
    /// echo filled with the player's spawn position `delay` times, full lives, no coins,
    /// scores of the episode at zero.
    pub open spec fn fresh_episode(&self, delay: nat) -> bool {
        &&& self.world.actors() == seq![player_spawn_rect()]
        &&& self.world.solids() == level_layout().map_values(|e: (Rect, bool)| e.0)
        &&& self.player == (Player {
            collider: crate::world::ActorId { index: 0 },
            vx: 0,
            vy: 0,
            rem_x: 0,
            rem_y: 0,
        })
        &&& self.platforms@.len() == level_layout().len()
        &&& matches_layout(self.platforms@)
        &&& self.shadow@ == Seq::new(delay, |i: int| player_spawn())
        &&& self.score_ms == 0
        &&& self.hazard == (Hazard { lives: INITIAL_LIVES, timer_ms: 0 })
        &&& self.coins@.len() == 0
        &&& self.coin_spawn_timer_ms == 0
        &&& self.coin_points == 0
    }

    fn build_world() -> (r: (World, Player, Vec<Platform>))
        ensures
            r.0.wf(),
            r.1.wf(r.0),
            platforms_wf(r.2@, r.0, 0),
            r.0.actors() == seq![player_spawn_rect()],
            r.0.solids() == level_layout().map_values(|e: (Rect, bool)| e.0),
            r.1 == (Player {
                collider: crate::world::ActorId { index: 0 },
                vx: 0,
                vy: 0,
                rem_x: 0,
                rem_y: 0,
            }),
            r.2@.len() == level_layout().len(),
            matches_layout(r.2@),
    {
        let mut world = World::new();
        let player = Player::new(&mut world);
        assert(world.actors() =~= seq![player_spawn_rect()]);
        let platforms = create_platforms(&mut world);
        assert(world.solids() =~= level_layout().map_values(|e: (Rect, bool)| e.0));
        (world, player, platforms)
    }

    /// The state at start-up: the main menu over a fresh episode, no high score.
    pub fn new() -> (g: GameState)
        ensures
            g.wf(),
            g.fresh_episode(SHADOW_FRAMES_DELAY as nat),
            g.screen == GameScreen::MainMenu,
            g.high_score_ms == 0,
    {
        let (world, player, platforms) = Self::build_world();
        GameState {
            world,
            player,
            shadow: DelayBuffer::new(SHADOW_FRAMES_DELAY, Pos { x: PLAYER_SPAWN_X, y: PLAYER_SPAWN_Y }),
            platforms,
            score_ms: 0,
            screen: GameScreen::MainMenu,
            high_score_ms: 0,
            hazard: Hazard::new(),
            coins: Vec::new(),
            coin_spawn_timer_ms: 0,
            coin_points: 0,
        }
    }

    /// Starts a new episode from scratch, keeping the screen. The score of the
    /// episode that ends is committed to the high score first.
    pub fn reset_game(&mut self)
        ensures
            final(self).wf(),
            final(self).fresh_episode(ROUND_SHADOW_DELAY as nat),
            final(self).high_score_ms == max_score(old(self).high_score_ms, old(self).score_ms),
            final(self).screen == old(self).screen,
    {
        if self.score_ms > self.high_score_ms {
            self.high_score_ms = self.score_ms;
        }
        let (world, player, platforms) = Self::build_world();
        self.world = world;
        self.player = player;
        self.shadow = DelayBuffer::new(ROUND_SHADOW_DELAY, Pos { x: PLAYER_SPAWN_X, y: PLAYER_SPAWN_Y });
        self.platforms = platforms;
        self.score_ms = 0;
        self.hazard = Hazard::new();
        self.coins = Vec::new();
        self.coin_spawn_timer_ms = 0;
        self.coin_points = 0;
    }

    /// Moves every platform by one frame of `dt` milliseconds, in order.
    fn update_platforms(&mut self, dt: u32)
        requires
            old(self).wf(),
        ensures
            final(self).wf(),
            (final(self).world.solids(), final(self).world.actors()) == platforms_frame(
                old(self).world.solids(),
                old(self).world.actors(),
                old(self).platforms@,
                dt,
            ),
            final(self).platforms@ == Seq::new(
                old(self).platforms@.len(),
                |j: int| platform_after(old(self).platforms@[j], old(self).world.solids(), dt),
            ),
            final(self).player == old(self).player,
            final(self).shadow == old(self).shadow,
            final(self).coins == old(self).coins,
            final(self).hazard == old(self).hazard,
            final(self).screen == old(self).screen,
            final(self).score_ms == old(self).score_ms,
            final(self).high_score_ms == old(self).high_score_ms,
            final(self).coin_spawn_timer_ms == old(self).coin_spawn_timer_ms,
            final(self).coin_points == old(self).coin_points,
    {
        let ghost s0 = self.world.solids();
        let ghost a0 = self.world.actors();
        let ghost ps0 = self.platforms@;
        let mut i: usize = 0;
        assert(ps0.take(0) =~= Seq::<Platform>::empty());
        while i < self.platforms.len()
            invariant
                self.wf(),
                self.platforms@.len() == ps0.len(),
                s0 == old(self).world.solids(),
                a0 == old(self).world.actors(),
                ps0 == old(self).platforms@,
                platforms_wf(ps0, old(self).world, 0),
                0 <= i <= ps0.len(),
                (self.world.solids(), self.world.actors()) == platforms_frame(s0, a0, ps0.take(i as int), dt),
                forall|j: int| 0 <= j < i ==> #[trigger] self.platforms@[j] == platform_after(ps0[j], s0, dt),
                forall|j: int| i <= j < ps0.len() ==> #[trigger] self.platforms@[j] == ps0[j],
                self.player == old(self).player,
                self.shadow == old(self).shadow,
                self.coins == old(self).coins,
                self.hazard == old(self).hazard,
                self.screen == old(self).screen,
                self.score_ms == old(self).score_ms,
                self.high_score_ms == old(self).high_score_ms,
                self.coin_spawn_timer_ms == old(self).coin_spawn_timer_ms,
                self.coin_points == old(self).coin_points,
            decreases ps0.len() - i,
        {
            let ghost ps = self.platforms@;
            let ghost w0 = self.world;
            assert(ps[i as int].wf(w0) && ps[i as int].collider.index == i);
            assert(ps0[i as int].collider.index == i);
            proof {
                lemma_frame_keeps_later(s0, a0, ps0.take(i as int), dt, i as int);
            }
            let mut p = self.platforms.remove(i);
            p.update(&mut self.world, dt);
            self.platforms.insert(i, p);
            assert(ps0.take(i + 1).drop_last() =~= ps0.take(i as int));
            assert forall|j: int| 0 <= j < self.platforms@.len() implies (#[trigger] self.platforms@[j]).wf(self.world)
                && self.platforms@[j].collider.index == j by {
                if j != i {
                    assert(self.platforms@[j] == ps[j]);
                    assert(ps[j].wf(w0) && ps[j].collider.index == j);
                    assert(self.world.solids()[j] == w0.solids()[j]);
                }
            }
            i += 1;
        }
        assert(ps0.take(ps0.len() as int) =~= ps0);
        assert(self.platforms@ =~= Seq::new(
            ps0.len(),
            |j: int| platform_after(ps0[j], s0, dt),
        ));
    }

    /// Puts a new coin at `pos`.
    pub fn spawn_coin_at(&mut self, pos: Pos)
        requires
            old(self).wf(),
            pos.wf(),
        ensures
            final(self).wf(),
            final(self).coins@ == old(self).coins@.push(Coin::new_spec(pos)),
            final(self).world == old(self).world,
            final(self).player == old(self).player,
            final(self).shadow == old(self).shadow,
            final(self).platforms == old(self).platforms,
            final(self).hazard == old(self).hazard,
            final(self).screen == old(self).screen,
            final(self).score_ms == old(self).score_ms,
            final(self).high_score_ms == old(self).high_score_ms,
            final(self).coin_spawn_timer_ms == old(self).coin_spawn_timer_ms,
            final(self).coin_points == old(self).coin_points,
    {
        self.coins.push(Coin::new(pos));
        assert forall|i: int| 0 <= i < self.coins@.len() implies (#[trigger] self.coins@[i]).pos.wf() by {
            if i < self.coins@.len() - 1 {
                assert(self.coins@[i] == old(self).coins@[i]);
            }
        }
    }

    /// Puts a new coin at a random place inside the coin area.
    pub fn spawn_coin(&mut self)
        requires
            old(self).wf(),
        ensures
            final(self).wf(),
            final(self).coins@.len() == old(self).coins@.len() + 1,
            final(self).coins@.drop_last() == old(self).coins@,
            coin_spot(final(self).coins@.last().pos),
            final(self).coins@.last() == Coin::new_spec(final(self).coins@.last().pos),
    {
        let x = random_between(0, COIN_MAX_X);
        let y = random_between(COIN_MIN_Y, COIN_MAX_Y);
        self.spawn_coin_at(Pos { x, y });
        assert(self.coins@.drop_last() =~= old(self).coins@);
    }

    /// Where the player's body is.
    pub open spec fn player_pos(&self) -> Pos {
        Pos {
            x: self.world.actor_rect(self.player.collider).x,
            y: self.world.actor_rect(self.player.collider).y,
        }
    }

    /// Keeps the player inside the window horizontally: a player past an edge is
    /// put back on it, stops running and loses its horizontal sub-pixel fraction. Returns where the player is.
    fn enforce_bounds(&mut self) -> (p: Pos)
        requires
            old(self).wf(),
        ensures
            final(self).wf(),
            p == final(self).player_pos(),
            0 <= p.x <= PLAYER_MAX_X,
            p.y == old(self).player_pos().y,
            old(self).player_pos().x < 0 ==> p.x == 0,
            old(self).player_pos().x > PLAYER_MAX_X ==> p.x == PLAYER_MAX_X,
            0 <= old(self).player_pos().x <= PLAYER_MAX_X ==> p.x == old(self).player_pos().x,
            final(self).player.collider == old(self).player.collider,
            final(self).player.vy == old(self).player.vy,
            final(self).player.rem_y == old(self).player.rem_y,
            !(0 <= old(self).player_pos().x <= PLAYER_MAX_X) ==> final(self).player.rem_x == 0,
            0 <= old(self).player_pos().x <= PLAYER_MAX_X ==> final(self).player == old(self).player,
            !(0 <= old(self).player_pos().x <= PLAYER_MAX_X) ==> final(self).player.vx == 0,
            final(self).world.solids() == old(self).world.solids(),
            final(self).world.actors() == old(self).world.actors().update(
                old(self).player.collider.index as int,
                old(self).world.actor_rect(old(self).player.collider).at(p.x as int, p.y as int),
            ),
            final(self).platforms == old(self).platforms,
            final(self).shadow == old(self).shadow,
            final(self).coins == old(self).coins,
            final(self).hazard == old(self).hazard,
            final(self).screen == old(self).screen,
            final(self).score_ms == old(self).score_ms,
            final(self).high_score_ms == old(self).high_score_ms,
            final(self).coin_spawn_timer_ms == old(self).coin_spawn_timer_ms,
            final(self).coin_points == old(self).coin_points,
    {
        let mut p = self.world.actor_pos(self.player.collider);
        assert(self.world.actors() =~= self.world.actors().update(
            self.player.collider.index as int,
            self.world.actor_rect(self.player.collider).at(p.x as int, p.y as int),
        ));
        if p.x < 0 || p.x > PLAYER_MAX_X {
            p.x = if p.x < 0 {
                0
            } else {
                PLAYER_MAX_X
            };
            self.world.set_actor_position(self.player.collider, p);
            self.player.vx = 0;
            self.player.rem_x = 0;
            assert forall|j: int| 0 <= j < self.platforms@.len() implies (#[trigger] self.platforms@[j]).wf(self.world)
                && self.platforms@[j].collider.index == j by {
                assert(old(self).platforms@[j].wf(old(self).world));
            }
        }
        p
    }

    /// One frame of play, `dt` milliseconds long, with `spawn_at` as the place of
    /// the coin that appears if the spawn timer runs out in this frame.
    ///
    /// In order: the spawn timer runs and may add a coin; every coin ages,
    /// expires or is collected against the player's body as it stands; the
    /// invulnerability countdown runs. A pause request stops the frame there.
    /// Otherwise the platforms move, the player moves and is kept in the window,
    /// the echo takes the player's position, a contact between the two is
    /// applied, and the survival score grows by `dt`.
    pub fn step_playing(&mut self, input: Input, dt: u32, spawn_at: Pos)
        requires
            old(self).wf(),
            coin_spot(spawn_at),
        ensures
            played(*old(self), *final(self), input, dt, spawn_at),
    {
        let dt64 = dt as u64;
        if self.coin_spawn_timer_ms <= dt64 {
            self.spawn_coin_at(spawn_at);
            self.coin_spawn_timer_ms = COIN_SPAWN_INTERVAL_MS;
        } else {
            self.coin_spawn_timer_ms = self.coin_spawn_timer_ms - dt64;
        }
        let ghost with_new = self.coins@;
        assert(with_new =~= if old(self).coin_spawn_timer_ms <= dt {
            old(self).coins@.push(Coin::new_spec(spawn_at))
        } else {
            old(self).coins@
        });
        let pos = self.world.actor_pos(self.player.collider);
        let body = Rect { x: pos.x, y: pos.y, w: PLAYER_SIZE, h: PLAYER_SIZE };
        let n = update_coins(&mut self.coins, dt64, body);
        self.coin_points = add_points_exec(self.coin_points, n);
        self.hazard.tick(dt64);
        if input.pause {
            self.screen = GameScreen::Paused;
            return;
        }
        let ghost g1 = *self;
        self.update_platforms(dt);
        let ghost g2 = *self;
        self.player.update(&mut self.world, input, dt);
        let ghost g3 = *self;
        let p = self.enforce_bounds();
        assert(g1.world == old(self).world);
        assert(g1.platforms == old(self).platforms);
        assert(g1.player == old(self).player);
        assert(self.world.actors() =~= g2.world.actors().update(
            old(self).player.collider.index as int,
            g3.world.actor_rect(g3.player.collider).at(p.x as int, p.y as int),
        ));
        assert(moved_as_played(*old(self), *self, input, dt));
        self.shadow.advance(p);
        if self.shadow.collides_with_player(p) {
            self.handle_shadow_collision();
        }
        self.score_ms = self.score_ms.saturating_add(dt64);
    }

    /// One frame of play; the place of a coin that appears in it is drawn at
    /// random inside the coin area.
    pub fn update_playing(&mut self, input: Input, dt: u32)
        requires
            old(self).wf(),
        ensures
            final(self).wf(),
            exists|at: Pos| coin_spot(at) && played(*old(self), *final(self), input, dt, at),
    {
        let spawn_at = if self.coin_spawn_timer_ms <= dt as u64 {
            let x = random_between(0, COIN_MAX_X);
            let y = random_between(COIN_MIN_Y, COIN_MAX_Y);
            Pos { x, y }
        } else {
            Pos { x: 0, y: COIN_MIN_Y }
        };
        self.step_playing(input, dt, spawn_at);
        assert(coin_spot(spawn_at) && played(*old(self), *self, input, dt, spawn_at));
    }

    /// While paused, nothing runs; a pause request resumes play.
    pub fn update_paused(&mut self, input: Input)
        ensures
            *final(self) == (GameState {
                screen: if input.pause {
                    GameScreen::Playing
                } else {
                    old(self).screen
                },
                ..*old(self)
            }),
    {
        if input.pause {
            self.screen = GameScreen::Playing;
        }
    }

    /// On the main menu, a confirm starts a fresh episode.
    pub fn update_main_menu(&mut self, input: Input)
        requires
            old(self).wf(),
        ensures
            final(self).wf(),
            input.confirm ==> final(self).screen == GameScreen::Playing && final(self).fresh_episode(
                ROUND_SHADOW_DELAY as nat,
            ) && final(self).high_score_ms == max_score(old(self).high_score_ms, old(self).score_ms),
            !input.confirm ==> *final(self) == *old(self),
    {
        if input.confirm {
            self.reset_game();
            self.screen = GameScreen::Playing;
        }
    }

    /// After the round, a confirm starts a fresh episode and a pause request
    /// goes back to the main menu.
    pub fn update_game_over(&mut self, input: Input)
        requires
            old(self).wf(),
        ensures
            final(self).wf(),
            input.confirm ==> final(self).screen == GameScreen::Playing && final(self).fresh_episode(
                ROUND_SHADOW_DELAY as nat,
            ) && final(self).high_score_ms == max_score(old(self).high_score_ms, old(self).score_ms),
            !input.confirm && input.pause ==> *final(self) == (GameState {
                screen: GameScreen::MainMenu,
                ..*old(self)
            }),
            !input.confirm && !input.pause ==> *final(self) == *old(self),
    {
        if input.confirm {
            self.reset_game();
            self.screen = GameScreen::Playing;
        } else if input.pause {
            self.screen = GameScreen::MainMenu;
        }
    }

    /// One frame of `dt` milliseconds on whichever screen is showing.
    pub fn update(&mut self, input: Input, dt: u32)
        requires
            old(self).wf(),
        ensures
            final(self).wf(),
            old(self).screen == GameScreen::Playing ==> exists|at: Pos|
                coin_spot(at) && played(*old(self), *final(self), input, dt, at),
            old(self).screen == GameScreen::Paused ==> *final(self) == (GameState {
                screen: if input.pause {
                    GameScreen::Playing
                } else {
                    GameScreen::Paused
                },
                ..*old(self)
            }),
            old(self).screen == GameScreen::MainMenu || old(self).screen == GameScreen::GameOver
                ==> {
                &&& input.confirm ==> final(self).screen == GameScreen::Playing
                    && final(self).fresh_episode(ROUND_SHADOW_DELAY as nat)
                    && final(self).high_score_ms == max_score(
                    old(self).high_score_ms,
                    old(self).score_ms,
                )
                &&& !input.confirm && (old(self).screen == GameScreen::MainMenu || !input.pause)
                    ==> *final(self) == *old(self)
                &&& !input.confirm && old(self).screen == GameScreen::GameOver && input.pause
                    ==> *final(self) == (GameState { screen: GameScreen::MainMenu, ..*old(self) })
            },
    {
        match self.screen {
            GameScreen::Playing => self.update_playing(input, dt),
            GameScreen::Paused => self.update_paused(input),
            GameScreen::MainMenu => self.update_main_menu(input),
            GameScreen::GameOver => self.update_game_over(input),
        }
    }

    /// The echo touched the player: a safe player loses a life, and the last
    /// life ends the round.
    pub fn handle_shadow_collision(&mut self)
        ensures
            final(self).hazard == old(self).hazard.after_contact(),
            final(self).screen == if final(self).hazard.phase_spec() == HazardPhase::Depleted {
                GameScreen::GameOver
            } else {
                old(self).screen
            },
            final(self).world == old(self).world,
            final(self).player == old(self).player,
            final(self).shadow == old(self).shadow,
            final(self).platforms == old(self).platforms,
            final(self).coins == old(self).coins,
            final(self).score_ms == old(self).score_ms,
            final(self).high_score_ms == old(self).high_score_ms,
            final(self).coin_spawn_timer_ms == old(self).coin_spawn_timer_ms,
            final(self).coin_points == old(self).coin_points,
    {
        self.hazard.contact();
        if self.hazard.lives == 0 {
            self.screen = GameScreen::GameOver;
        }
    }
}

} // verus!
