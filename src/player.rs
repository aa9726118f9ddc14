use vstd::prelude::*;

use crate::geometry::{Pos, Rect, COORD_LIMIT};
use crate::motion::{integrate, rem_of, rem_ok, speed_ok, step_of, MAX_SPEED};
use crate::world::{abs, sign, slide, step_ok, ActorId, World};

verus! {

/// Side of the player's square body, in pixels.
pub const PLAYER_SIZE: i64 = 48;

/// Where the player appears at the start of a round.
pub const PLAYER_SPAWN_X: i64 = 250;
pub const PLAYER_SPAWN_Y: i64 = 500;

/// Downward acceleration, in milli-pixels per second gained each millisecond
/// (500 pixels per second squared).
pub const GRAVITY_PER_MS: i64 = 500;

/// Horizontal running speed, in milli-pixels per second.
pub const PLAYER_SPEED: i64 = 150_000;

/// Vertical velocity set by a jump, in milli-pixels per second (upward).
pub const JUMP_VELOCITY: i64 = -350_000;

/// What the player asks for in one frame. `jump`, `pause` and `confirm` are
/// edge-triggered: true only in the frame the key went down.
#[derive(Clone, Copy, Debug, PartialEq, Eq, Structural)]
pub struct Input {
    pub left: bool,
    pub right: bool,
    pub jump: bool,
    pub pause: bool,
    pub confirm: bool,
}

/// Horizontal velocity for the keys held: set outright, with no acceleration.
pub open spec fn run_velocity(input: Input) -> i64 {
    if input.right && !input.left {
        PLAYER_SPEED
    } else if input.left && !input.right {
        (-PLAYER_SPEED) as i64
    } else {
        0
    }
}

/// Vertical velocity after one frame: gravity acts while airborne (capped at the
/// largest speed), and a jump is accepted only on the ground.
pub open spec fn fall_velocity(vy: int, on_ground: bool, jump: bool, dt: int) -> int {
    if on_ground && jump {
        JUMP_VELOCITY as int
    } else if on_ground {
        vy
    } else if vy + GRAVITY_PER_MS * dt > MAX_SPEED {
        MAX_SPEED as int
    } else {
        vy + GRAVITY_PER_MS * dt
    }
}

/// Standing on something: one pixel down is blocked.
pub open spec fn grounded(w: World, a: ActorId) -> bool {
    !step_ok(w.solids(), w.actor_rect(a), 0, 1, None)
}

/// The player controller: velocity and the sub-pixel fractions carried between
/// frames, for an actor of the world.
#[derive(Clone, Copy, Debug, PartialEq, Eq, Structural)]
pub struct Player {
    pub collider: ActorId,
    pub vx: i64,
    pub vy: i64,
    pub rem_x: i64,
    pub rem_y: i64,
}

impl Player {
    pub open spec fn wf(self, w: World) -> bool {
        &&& w.has_actor(self.collider)
        &&& speed_ok(self.vx as int)
        &&& speed_ok(self.vy as int)
        &&& rem_ok(self.rem_x as int)
        &&& rem_ok(self.rem_y as int)
    }

    /// Adds the player's body to the world at the spawn point, at rest.
    pub fn new(world: &mut World) -> (p: Player)
        requires
            old(world).wf(),
        ensures
            final(world).wf(),
            final(world).solids() == old(world).solids(),
            final(world).actors() == old(world).actors().push(
                Rect { x: PLAYER_SPAWN_X, y: PLAYER_SPAWN_Y, w: PLAYER_SIZE, h: PLAYER_SIZE },
            ),
            p.collider.index == old(world).actors().len(),
            p.vx == 0 && p.vy == 0 && p.rem_x == 0 && p.rem_y == 0,
            p.wf(*final(world)),
    {
        let collider = world.add_actor(
            Pos { x: PLAYER_SPAWN_X, y: PLAYER_SPAWN_Y },
            PLAYER_SIZE,
            PLAYER_SIZE,
        );
        Player { collider, vx: 0, vy: 0, rem_x: 0, rem_y: 0 }
    }

    /// Whether the player stands on a solid (or on the edge of the world).
    pub fn on_ground(&self, world: &World) -> (b: bool)
        requires
            world.wf(),
            self.wf(*world),
        ensures
            b == grounded(*world, self.collider),
    {
        let p = world.actor_pos(self.collider);
        if p.y >= COORD_LIMIT {
            return true;
        }
        let probe = Pos { x: p.x, y: p.y + 1 };
        world.collide_check(self.collider, probe)
    }

    /// Sets the velocity for this frame from the input and ground contact.
    pub fn handle_movement(&mut self, on_ground: bool, input: Input, dt: u32)
        requires
            speed_ok(old(self).vy as int),
        ensures
            *final(self) == (Player {
                vx: run_velocity(input),
                vy: fall_velocity(old(self).vy as int, on_ground, input.jump, dt as int) as i64,
                ..*old(self)
            }),
            speed_ok(final(self).vx as int),
            speed_ok(final(self).vy as int),
    {
        if !on_ground {
            let v = self.vy + GRAVITY_PER_MS * (dt as i64);
            self.vy = if v > MAX_SPEED {
                MAX_SPEED
            } else {
                v
            };
        }
        self.vx = if input.right && !input.left {
            PLAYER_SPEED
        } else if input.left && !input.right {
            -PLAYER_SPEED
        } else {
            0
        };
        if input.jump && on_ground {
            self.vy = JUMP_VELOCITY;
        }
    }

    /// Moves the body by this frame's velocity: horizontally first, then
    /// vertically, each against the solids.
    pub fn apply_movement(&mut self, world: &mut World, dt: u32)
        requires
            old(world).wf(),
            old(self).wf(*old(world)),
        ensures
            final(world).wf(),
            final(self).wf(*final(world)),
            final(self).collider == old(self).collider,
            final(self).vx == old(self).vx,
            final(self).vy == old(self).vy,
            final(self).rem_x == rem_of(old(self).rem_x as int, old(self).vx as int, dt as int),
            final(self).rem_y == rem_of(old(self).rem_y as int, old(self).vy as int, dt as int),
            final(world).solids() == old(world).solids(),
            final(world).actors() == old(world).actors().update(
                old(self).collider.index as int,
                moved_body(
                    old(world).solids(),
                    old(world).actor_rect(old(self).collider),
                    step_of(old(self).rem_x as int, old(self).vx as int, dt as int),
                    step_of(old(self).rem_y as int, old(self).vy as int, dt as int),
                ),
            ),
    {
        let dx = integrate(&mut self.rem_x, self.vx, dt);
        world.move_h(self.collider, dx);
        let dy = integrate(&mut self.rem_y, self.vy, dt);
        world.move_v(self.collider, dy);
    }

    /// One frame of the controller: read ground contact, set the velocity, move.
    pub fn update(&mut self, world: &mut World, input: Input, dt: u32)
        requires
            old(world).wf(),
            old(self).wf(*old(world)),
        ensures
            final(world).wf(),
            final(self).wf(*final(world)),
            final(self).collider == old(self).collider,
            final(self).vx == run_velocity(input),
            final(self).vy == fall_velocity(
                old(self).vy as int,
                grounded(*old(world), old(self).collider),
                input.jump,
                dt as int,
            ),
            final(self).rem_x == rem_of(old(self).rem_x as int, final(self).vx as int, dt as int),
            final(self).rem_y == rem_of(old(self).rem_y as int, final(self).vy as int, dt as int),
            final(world).solids() == old(world).solids(),
            final(world).actors() == old(world).actors().update(
                old(self).collider.index as int,
                moved_body(
                    old(world).solids(),
                    old(world).actor_rect(old(self).collider),
                    step_of(old(self).rem_x as int, final(self).vx as int, dt as int),
                    step_of(old(self).rem_y as int, final(self).vy as int, dt as int),
                ),
            ),
    {
        let on_ground = self.on_ground(world);
        self.handle_movement(on_ground, input, dt);
        self.apply_movement(world, dt);
    }
}

/// Where a body ends after moving `dx` then `dy` pixels against the solids.
pub open spec fn moved_body(solids: Seq<Rect>, r: Rect, dx: int, dy: int) -> Rect {
    let after_h = slide(solids, r, sign(dx), 0, abs(dx), None);
    slide(solids, after_h, 0, sign(dy), abs(dy), None)
}

} // verus!
