use vstd::prelude::*;

use crate::geometry::{Pos, Rect};
use crate::motion::{integrate, rem_of, rem_ok, speed_ok, step_of};
use crate::random::random_between;
use crate::world::{pushed, SolidId, World};

verus! {

/// Speed of a moving platform, in milli-pixels per second.
pub const PLATFORM_SPEED: i64 = 50_000;

/// A moving platform turns back once it reaches `x >= OSCILLATE_RIGHT` or `x <= OSCILLATE_LEFT`.
pub const OSCILLATE_LEFT: i64 = 150;
pub const OSCILLATE_RIGHT: i64 = 500;

pub const PLATFORM_WIDTH: i64 = 200;
pub const PLATFORM_HEIGHT: i64 = 12;
pub const GROUND_WIDTH: i64 = 800;
pub const GROUND_HEIGHT: i64 = 12;

/// Sizes of the decorative cacti placed on a platform.
pub const CACTUS_MIN: i64 = 36;
pub const CACTUS_MAX: i64 = 60;

/// An oscillating platform's turning points lie within `TURN_BOUND` of the
/// origin; heading right it is never past `TURN_BOUND`, heading left never past
/// `-TURN_BOUND`, so one frame's travel keeps it within `TRAVEL_BOUND`.
pub const TURN_BOUND: i64 = 274_877_906_944;
pub const TRAVEL_BOUND: i64 = 549_755_813_888;

/// How a platform moves.
#[derive(Clone, Copy, Debug, PartialEq, Eq, Structural)]
pub enum Motion {
    Static,
    /// Constant horizontal speed (milli-pixels per second, sign is direction),
    /// turning back at the two bounds.
    Oscillating { speed: i64, left: i64, right: i64 },
}

/// A decorative cactus: its left edge and its size.
#[derive(Clone, Copy, Debug, PartialEq, Eq, Structural)]
pub struct Cactus {
    pub x: i64,
    pub size: i64,
}

pub struct Platform {
    pub collider: SolidId,
    pub motion: Motion,
    pub rem: i64,
    pub w: i64,
    pub h: i64,
    pub cacti: Vec<Cactus>,
}

/// The motion after a move that left the platform at `x`: an oscillating
/// platform turns back when it has reached the bound it was heading for.
pub open spec fn next_motion(m: Motion, x: int) -> Motion {
    match m {
        Motion::Static => m,
        Motion::Oscillating { speed, left, right } => {
            if (speed > 0 && x >= right) || (speed < 0 && x <= left) {
                Motion::Oscillating { speed: -speed as i64, left, right }
            } else {
                m
            }
        },
    }
}

/// The solids and actors after platform `p` has had its frame of `dt`
/// milliseconds: an oscillating platform's solid moves by its step, pushing the
/// actors in its way; a static one changes nothing.
pub open spec fn platform_frame(solids: Seq<Rect>, actors: Seq<Rect>, p: Platform, dt: u32) -> (Seq<Rect>, Seq<Rect>) {
    match p.motion {
        Motion::Static => (solids, actors),
        Motion::Oscillating { speed, .. } => {
            let k = p.collider.index;
            let r = solids[k as int];
            let dx = step_of(p.rem as int, speed as int, dt as int);
            (
                solids.update(k as int, r.at(r.x + dx, r.y as int)),
                Seq::new(actors.len(), |i: int| pushed(solids, k, dx, actors[i])),
            )
        },
    }
}

/// Platform `p` after its frame: the carried fraction advances, and the motion
/// turns back at a bound.
pub open spec fn platform_after(p: Platform, solids: Seq<Rect>, dt: u32) -> Platform {
    match p.motion {
        Motion::Static => p,
        Motion::Oscillating { speed, .. } => {
            let r = solids[p.collider.index as int];
            let dx = step_of(p.rem as int, speed as int, dt as int);
            Platform {
                motion: next_motion(p.motion, r.x + dx),
                rem: rem_of(p.rem as int, speed as int, dt as int) as i64,
                ..p
            }
        },
    }
}

pub open spec fn motion_ok(m: Motion, x: int) -> bool {
    match m {
        Motion::Static => true,
        Motion::Oscillating { speed, left, right } => {
            &&& speed_ok(speed as int)
            &&& -TURN_BOUND <= left <= right <= TURN_BOUND
            &&& -TRAVEL_BOUND <= x <= TRAVEL_BOUND
            &&& speed > 0 ==> x <= TURN_BOUND
            &&& speed < 0 ==> x >= -TURN_BOUND
        },
    }
}

impl Platform {
    pub open spec fn wf(&self, w: World) -> bool {
        &&& w.has_solid(self.collider)
        &&& rem_ok(self.rem as int)
        &&& motion_ok(self.motion, w.solid_rect(self.collider).x as int)
    }

    /// Adds a platform's solid to the world at `pos`, moving or not, with one or
    /// two cacti at random places along it. A moving platform may start anywhere
    /// within `TURN_BOUND` of the origin, past its bounds too: it then travels on
    /// for one frame and turns back, and its path stays within the coordinate limits.
    pub fn new(world: &mut World, pos: Pos, w: i64, h: i64, is_moving: bool) -> (p: Platform)
        requires
            old(world).wf(),
            (Rect { x: pos.x, y: pos.y, w, h }).wf(),
            is_moving ==> -TURN_BOUND <= pos.x <= TURN_BOUND,
        ensures
            final(world).wf(),
            final(world).solids() == old(world).solids().push(Rect { x: pos.x, y: pos.y, w, h }),
            final(world).actors() == old(world).actors(),
            p.collider.index == old(world).solids().len(),
            p.motion == (if is_moving {
                Motion::Oscillating { speed: PLATFORM_SPEED, left: OSCILLATE_LEFT, right: OSCILLATE_RIGHT }
            } else {
                Motion::Static
            }),
            p.rem == 0,
            p.w == w && p.h == h,
            p.wf(*final(world)),
            1 <= p.cacti@.len() <= 2,
            forall|i: int| 0 <= i < p.cacti@.len() ==> cactus_on(#[trigger] p.cacti@[i], pos.x as int, w as int),
    {
        let n = random_between(1, 3);
        let mut cacti: Vec<Cactus> = Vec::new();
        let mut i: i64 = 0;
        while i < n
            invariant
                0 <= i <= n <= 2,
                cacti@.len() == i,
                (Rect { x: pos.x, y: pos.y, w, h }).wf(),
                forall|j: int| 0 <= j < cacti@.len() ==> cactus_on(#[trigger] cacti@[j], pos.x as int, w as int),
            decreases n - i,
        {
            let size = random_between(CACTUS_MIN, CACTUS_MAX);
            let hi = if pos.x + w - size > pos.x {
                pos.x + w - size
            } else {
                pos.x
            };
            let x = random_between(pos.x, hi);
            cacti.push(Cactus { x, size });
            i += 1;
        }
        let collider = world.add_solid(pos, w, h);
        let motion = if is_moving {
            Motion::Oscillating { speed: PLATFORM_SPEED, left: OSCILLATE_LEFT, right: OSCILLATE_RIGHT }
        } else {
            Motion::Static
        };
        Platform { collider, motion, rem: 0, w, h, cacti }
    }

    /// Whether the platform moves.
    pub fn is_moving(&self) -> (b: bool)
        ensures
            b == (self.motion !is Static),
    {
        match self.motion {
            Motion::Static => false,
            Motion::Oscillating { .. } => true,
        }
    }

    /// One frame: an oscillating platform moves by its speed over `dt`
    /// milliseconds, pushing actors in its way, then turns back if it has
    /// reached the bound it was heading for. A static platform does nothing.
    pub fn update(&mut self, world: &mut World, dt: u32)
        requires
            old(world).wf(),
            old(self).wf(*old(world)),
        ensures
            final(world).wf(),
            final(self).wf(*final(world)),
            (final(world).solids(), final(world).actors()) == platform_frame(
                old(world).solids(),
                old(world).actors(),
                *old(self),
                dt,
            ),
            *final(self) == platform_after(*old(self), old(world).solids(), dt),
    {
        match self.motion {
            Motion::Static => {},
            Motion::Oscillating { speed, left, right } => {
                if speed > 0 {
                    assert((speed as int) * (dt as int) >= 0) by (nonlinear_arith)
                        requires speed > 0, dt >= 0;
                } else if speed < 0 {
                    assert((speed as int) * (dt as int) <= 0) by (nonlinear_arith)
                        requires speed < 0, dt >= 0;
                }
                let dx = integrate(&mut self.rem, speed, dt);
                assert(speed > 0 ==> dx >= 0);
                assert(speed < 0 ==> dx <= 0);
                world.solid_move(self.collider, dx, 0);
                let p = world.solid_pos(self.collider);
                if (speed > 0 && p.x >= right) || (speed < 0 && p.x <= left) {
                    self.motion = Motion::Oscillating { speed: -speed, left, right };
                }
                assert(world.actors() =~= Seq::new(
                    old(world).actors().len(),
                    |i: int| pushed(old(world).solids(), self.collider.index, dx as int, old(world).actors()[i]),
                ));
            },
        }
    }
}

/// The level: corner, size and whether it moves, for each platform in order.
pub open spec fn level_layout() -> Seq<(Rect, bool)> {
    seq![
        (Rect { x: 100, y: 100, w: PLATFORM_WIDTH, h: PLATFORM_HEIGHT }, true),
        (Rect { x: 50, y: 200, w: PLATFORM_WIDTH, h: PLATFORM_HEIGHT }, false),
        (Rect { x: 550, y: 200, w: PLATFORM_WIDTH, h: PLATFORM_HEIGHT }, false),
        (Rect { x: 300, y: 300, w: PLATFORM_WIDTH, h: PLATFORM_HEIGHT }, false),
        (Rect { x: 50, y: 400, w: PLATFORM_WIDTH, h: PLATFORM_HEIGHT }, false),
        (Rect { x: 550, y: 400, w: PLATFORM_WIDTH, h: PLATFORM_HEIGHT }, false),
        (Rect { x: 500, y: 500, w: PLATFORM_WIDTH, h: PLATFORM_HEIGHT }, true),
        (Rect { x: 0, y: 585, w: GROUND_WIDTH, h: GROUND_HEIGHT }, false),
    ]
}

/// The platforms `ps` stand for solids `base..` of `w`, in order, each well formed.
pub open spec fn platforms_wf(ps: Seq<Platform>, w: World, base: int) -> bool {
    &&& base + ps.len() <= w.solids().len()
    &&& forall|i: int| 0 <= i < ps.len() ==> (#[trigger] ps[i]).wf(w) && ps[i].collider.index == base + i
}

/// The platforms `ps` were built from the layout entries `0..ps.len()`.
pub open spec fn matches_layout(ps: Seq<Platform>) -> bool {
    forall|i: int| 0 <= i < ps.len() ==> {
        let (r, moving) = #[trigger] level_layout()[i];
        &&& ps[i].w == r.w && ps[i].h == r.h
        &&& ps[i].rem == 0
        &&& ps[i].motion == if moving {
            Motion::Oscillating { speed: PLATFORM_SPEED, left: OSCILLATE_LEFT, right: OSCILLATE_RIGHT }
        } else {
            Motion::Static
        }
    }
}

fn add_platform(world: &mut World, ps: &mut Vec<Platform>, x: i64, y: i64, w: i64, h: i64, moving: bool)
    requires
        old(world).wf(),
        old(ps)@.len() < level_layout().len(),
        level_layout()[old(ps)@.len() as int] == (Rect { x, y, w, h }, moving),
        platforms_wf(old(ps)@, *old(world), old(world).solids().len() - old(ps)@.len()),
        matches_layout(old(ps)@),
    ensures
        final(world).wf(),
        final(world).solids() == old(world).solids().push(Rect { x, y, w, h }),
        final(world).actors() == old(world).actors(),
        final(ps)@.len() == old(ps)@.len() + 1,
        platforms_wf(final(ps)@, *final(world), final(world).solids().len() - final(ps)@.len()),
        matches_layout(final(ps)@),
{
    let ghost base = world.solids().len() - ps@.len();
    let p = Platform::new(world, Pos { x, y }, w, h, moving);
    ps.push(p);
    assert forall|i: int| 0 <= i < ps@.len() implies (#[trigger] ps@[i]).wf(*world) && ps@[i].collider.index == base + i by {
        if i < ps@.len() - 1 {
            assert(ps@[i] == old(ps)@[i]);
            assert(world.solids()[ps@[i].collider.index as int] == old(world).solids()[ps@[i].collider.index as int]);
        }
    }
    assert forall|i: int| 0 <= i < ps@.len() implies {
        let (r, moving) = #[trigger] level_layout()[i];
        &&& ps@[i].w == r.w && ps@[i].h == r.h
        &&& ps@[i].rem == 0
        &&& ps@[i].motion == if moving {
            Motion::Oscillating { speed: PLATFORM_SPEED, left: OSCILLATE_LEFT, right: OSCILLATE_RIGHT }
        } else {
            Motion::Static
        }
    } by {
        if i < ps@.len() - 1 {
            assert(ps@[i] == old(ps)@[i]);
        }
    }
}

/// Builds the level's platforms into `world`, in the order of `level_layout`.
pub fn create_platforms(world: &mut World) -> (ps: Vec<Platform>)
    requires
        old(world).wf(),
    ensures
        final(world).wf(),
        final(world).solids() == old(world).solids() + level_layout().map_values(|e: (Rect, bool)| e.0),
        final(world).actors() == old(world).actors(),
        ps@.len() == level_layout().len(),
        platforms_wf(ps@, *final(world), old(world).solids().len() as int),
        matches_layout(ps@),
{
    let mut ps: Vec<Platform> = Vec::new();
    add_platform(world, &mut ps, 100, 100, PLATFORM_WIDTH, PLATFORM_HEIGHT, true);
    add_platform(world, &mut ps, 50, 200, PLATFORM_WIDTH, PLATFORM_HEIGHT, false);
    add_platform(world, &mut ps, 550, 200, PLATFORM_WIDTH, PLATFORM_HEIGHT, false);
    add_platform(world, &mut ps, 300, 300, PLATFORM_WIDTH, PLATFORM_HEIGHT, false);
    add_platform(world, &mut ps, 50, 400, PLATFORM_WIDTH, PLATFORM_HEIGHT, false);
    add_platform(world, &mut ps, 550, 400, PLATFORM_WIDTH, PLATFORM_HEIGHT, false);
    add_platform(world, &mut ps, 500, 500, PLATFORM_WIDTH, PLATFORM_HEIGHT, true);
    add_platform(world, &mut ps, 0, 585, GROUND_WIDTH, GROUND_HEIGHT, false);
    assert(world.solids() =~= old(world).solids() + level_layout().map_values(|e: (Rect, bool)| e.0));
    ps
}

/// A cactus fits on a platform whose left edge is at `x` and whose width is `w`:
/// it starts on the platform and, where the platform is wide enough, ends on it.
pub open spec fn cactus_on(c: Cactus, x: int, w: int) -> bool {
    &&& CACTUS_MIN <= c.size <= CACTUS_MAX
    &&& x <= c.x
    &&& (c.x == x || c.x + c.size <= x + w)
}

} // verus!
