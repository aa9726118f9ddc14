use vstd::prelude::*;

use crate::geometry::{coord_ok, Pos, Rect};

verus! {

/// A handle to an actor: a dynamic body moved against the solids.
#[derive(Clone, Copy, Debug, PartialEq, Eq, Structural)]
pub struct ActorId {
    pub index: usize,
}

/// A handle to a solid: a static or kinematic body that actors collide against.
#[derive(Clone, Copy, Debug, PartialEq, Eq, Structural)]
pub struct SolidId {
    pub index: usize,
}

/// Whether `r` overlaps a solid of `solids`, leaving out the one at index `skip`.
pub open spec fn hits(solids: Seq<Rect>, r: Rect, skip: Option<usize>) -> bool {
    exists|i: int|
        0 <= i < solids.len() && skip != Some(i as usize) && #[trigger] solids[i].overlaps_spec(
            r,
        )
}

/// `r` moved by one pixel in direction `(sx, sy)`.
pub open spec fn step_rect(r: Rect, sx: int, sy: int) -> Rect {
    r.at(r.x + sx, r.y + sy)
}

/// One pixel in direction `(sx, sy)` stays within the coordinate limits and
/// clear of every solid (but `skip`).
pub open spec fn step_ok(solids: Seq<Rect>, r: Rect, sx: int, sy: int, skip: Option<usize>) -> bool {
    &&& coord_ok(r.x + sx)
    &&& coord_ok(r.y + sy)
    &&& !hits(solids, step_rect(r, sx, sy), skip)
}

/// How many of `n` one-pixel steps in direction `(sx, sy)` are taken before the
/// first one that would overlap a solid.
pub open spec fn free_steps(
    solids: Seq<Rect>,
    r: Rect,
    sx: int,
    sy: int,
    n: nat,
    skip: Option<usize>,
) -> nat
    decreases n,
{
    if n == 0 || !step_ok(solids, r, sx, sy, skip) {
        0
    } else {
        1 + free_steps(solids, step_rect(r, sx, sy), sx, sy, (n - 1) as nat, skip)
    }
}

/// Where `r` ends after moving pixel by pixel `n` times in direction `(sx, sy)`,
/// stopping before the first step that would overlap a solid.
pub open spec fn slide(
    solids: Seq<Rect>,
    r: Rect,
    sx: int,
    sy: int,
    n: nat,
    skip: Option<usize>,
) -> Rect
    decreases n,
{
    if n == 0 || !step_ok(solids, r, sx, sy, skip) {
        r
    } else {
        slide(solids, step_rect(r, sx, sy), sx, sy, (n - 1) as nat, skip)
    }
}

pub open spec fn sign(v: int) -> int {
    if v > 0 {
        1
    } else if v < 0 {
        -1
    } else {
        0
    }
}

pub open spec fn abs(v: int) -> nat {
    if v < 0 {
        (-v) as nat
    } else {
        v as nat
    }
}

pub open spec fn unit(v: int) -> bool {
    -1 <= v <= 1
}

/// Where a solid at index `s` of `solids`, moving `dx` horizontally, leaves
/// actor `r`: pushed along by `dx` against the other solids if the moved solid
/// would overlap it, and in place otherwise.
pub open spec fn pushed(solids: Seq<Rect>, s: usize, dx: int, r: Rect) -> Rect {
    let sr = solids[s as int];
    if sr.at(sr.x + dx, sr.y as int).overlaps_spec(r) {
        slide(solids, r, sign(dx), 0, abs(dx), Some(s))
    } else {
        r
    }
}

/// Distance from `r` to the near face of `s` along direction `(sx, sy)`.
pub open spec fn face_gap(r: Rect, s: Rect, sx: int, sy: int) -> int {
    if sx > 0 {
        s.x - (r.x + r.w)
    } else if sx < 0 {
        r.x - (s.x + s.w)
    } else if sy > 0 {
        s.y - (r.y + r.h)
    } else {
        r.y - (s.y + s.h)
    }
}

/// The projections of `r` and `s` across the direction of travel intersect, so
/// moving far enough along `(sx, sy)` brings `r` into `s`.
pub open spec fn in_lane(r: Rect, s: Rect, sx: int, sy: int) -> bool {
    if sx != 0 {
        s.y <= r.y + r.h && s.y + s.h >= r.y
    } else {
        s.x <= r.x + r.w && s.x + s.w >= r.x
    }
}

/// `(sx, sy)` is one of the four axis directions.
pub open spec fn axis_dir(sx: int, sy: int) -> bool {
    ||| sx == 0 && (sy == 1 || sy == -1)
    ||| sy == 0 && (sx == 1 || sx == -1)
}

/// Sliding keeps a rectangle's size and moves it exactly one pixel per free step.
pub proof fn lemma_slide_offset(
    solids: Seq<Rect>,
    r: Rect,
    sx: int,
    sy: int,
    n: nat,
    skip: Option<usize>,
)
    requires
        r.wf(),
        unit(sx),
        unit(sy),
    ensures
        ({
            let e = slide(solids, r, sx, sy, n, skip);
            let k = free_steps(solids, r, sx, sy, n, skip) as int;
            &&& e.wf()
            &&& e.w == r.w && e.h == r.h
            &&& k <= n
            &&& e.x == r.x + (if sx > 0 { k } else if sx < 0 { -k } else { 0 })
            &&& e.y == r.y + (if sy > 0 { k } else if sy < 0 { -k } else { 0 })
        }),
    decreases n,
{
    if n > 0 && step_ok(solids, r, sx, sy, skip) {
        lemma_slide_offset(solids, step_rect(r, sx, sy), sx, sy, (n - 1) as nat, skip);
    }
}

/// A rectangle that starts clear of the solids is still clear where it stops,
/// and if it stopped short, its next step would overlap a solid or leave the limits.
pub proof fn lemma_slide_stops_clear(
    solids: Seq<Rect>,
    r: Rect,
    sx: int,
    sy: int,
    n: nat,
    skip: Option<usize>,
)
    requires
        !hits(solids, r, skip),
    ensures
        !hits(solids, slide(solids, r, sx, sy, n, skip), skip),
        free_steps(solids, r, sx, sy, n, skip) < n ==> !step_ok(
            solids,
            slide(solids, r, sx, sy, n, skip),
            sx,
            sy,
            skip,
        ),
    decreases n,
{
    if n > 0 && step_ok(solids, r, sx, sy, skip) {
        lemma_slide_stops_clear(solids, step_rect(r, sx, sy), sx, sy, (n - 1) as nat, skip);
    }
}

/// An actor moving along an axis toward a solid whose face is closer than the
/// distance asked for stops short of that face with no overlap left: the move
/// reports that it was blocked, the actor ends clear of every solid, on the near
/// side of the face, and one more pixel would overlap.
pub proof fn lemma_stops_at_face(
    solids: Seq<Rect>,
    r: Rect,
    k: int,
    sx: int,
    sy: int,
    n: nat,
)
    requires
        r.wf(),
        0 <= k < solids.len(),
        solids[k].wf(),
        axis_dir(sx, sy),
        !hits(solids, r, None),
        in_lane(r, solids[k], sx, sy),
        1 <= face_gap(r, solids[k], sx, sy) <= n,
    ensures
        free_steps(solids, r, sx, sy, n, None) < n,
        !hits(solids, slide(solids, r, sx, sy, n, None), None),
        !step_ok(solids, slide(solids, r, sx, sy, n, None), sx, sy, None),
        face_gap(slide(solids, r, sx, sy, n, None), solids[k], sx, sy) >= 1,
    decreases n,
{
    lemma_slide_stops_clear(solids, r, sx, sy, n, None);
    if step_ok(solids, r, sx, sy, None) {
        let next = step_rect(r, sx, sy);
        assert(face_gap(next, solids[k], sx, sy) == face_gap(r, solids[k], sx, sy) - 1);
        if face_gap(next, solids[k], sx, sy) == 0 {
            assert(solids[k].overlaps_spec(next));
            assert(hits(solids, next, None));
        }
        lemma_stops_at_face(solids, next, k, sx, sy, (n - 1) as nat);
    }
}

/// A solid moving `dx` horizontally moves no actor vertically, and moves none by
/// more than `|dx|`; an actor resting on top of it stays where it is.
pub proof fn lemma_push_bounded(solids: Seq<Rect>, s: usize, dx: int, r: Rect)
    requires
        r.wf(),
        s < solids.len(),
    ensures
        pushed(solids, s, dx, r).y == r.y,
        pushed(solids, s, dx, r).w == r.w && pushed(solids, s, dx, r).h == r.h,
        abs(pushed(solids, s, dx, r).x - r.x) <= abs(dx),
        r.y + r.h < solids[s as int].y ==> pushed(solids, s, dx, r) == r,
{
    lemma_slide_offset(solids, r, sign(dx), 0, abs(dx), Some(s));
}

/// The sign of `v` and its magnitude.
pub fn sign_and_abs(v: i64) -> (r: (i64, u64))
    ensures
        r.0 == sign(v as int),
        r.1 == abs(v as int),
{
    if v > 0 {
        (1, v as u64)
    } else if v < 0 {
        (-1, (-(v + 1)) as u64 + 1)
    } else {
        (0, 0)
    }
}

/// The solids and actors of one level. Handles are indices into this world only.
pub struct World {
    solids: Vec<Rect>,
    actors: Vec<Rect>,
}

impl World {
    pub closed spec fn solids(&self) -> Seq<Rect> {
        self.solids@
    }

    pub closed spec fn actors(&self) -> Seq<Rect> {
        self.actors@
    }

    /// Every body lies within the coordinate limits.
    pub open spec fn wf(&self) -> bool {
        &&& forall|i: int| 0 <= i < self.solids().len() ==> (#[trigger] self.solids()[i]).wf()
        &&& forall|i: int| 0 <= i < self.actors().len() ==> (#[trigger] self.actors()[i]).wf()
    }

    pub open spec fn has_actor(&self, a: ActorId) -> bool {
        a.index < self.actors().len()
    }

    pub open spec fn has_solid(&self, s: SolidId) -> bool {
        s.index < self.solids().len()
    }

    pub open spec fn actor_rect(&self, a: ActorId) -> Rect {
        self.actors()[a.index as int]
    }

    pub open spec fn solid_rect(&self, s: SolidId) -> Rect {
        self.solids()[s.index as int]
    }

    pub fn new() -> (w: World)
        ensures
            w.wf(),
            w.solids() == Seq::<Rect>::empty(),
            w.actors() == Seq::<Rect>::empty(),
    {
        World { solids: Vec::new(), actors: Vec::new() }
    }

    pub fn add_solid(&mut self, pos: Pos, w: i64, h: i64) -> (s: SolidId)
        requires
            old(self).wf(),
            (Rect { x: pos.x, y: pos.y, w, h }).wf(),
        ensures
            final(self).wf(),
            final(self).solids() == old(self).solids().push(Rect { x: pos.x, y: pos.y, w, h }),
            final(self).actors() == old(self).actors(),
            s.index == old(self).solids().len(),
    {
        let s = SolidId { index: self.solids.len() };
        self.solids.push(Rect { x: pos.x, y: pos.y, w, h });
        assert forall|i: int| 0 <= i < self.solids().len() implies (#[trigger] self.solids()[i]).wf() by {
            if i < self.solids().len() - 1 {
                assert(self.solids()[i] == old(self).solids()[i]);
            }
        }
        assert(self.actors() == old(self).actors());
        s
    }

    pub fn add_actor(&mut self, pos: Pos, w: i64, h: i64) -> (a: ActorId)
        requires
            old(self).wf(),
            (Rect { x: pos.x, y: pos.y, w, h }).wf(),
        ensures
            final(self).wf(),
            final(self).actors() == old(self).actors().push(Rect { x: pos.x, y: pos.y, w, h }),
            final(self).solids() == old(self).solids(),
            a.index == old(self).actors().len(),
    {
        let a = ActorId { index: self.actors.len() };
        self.actors.push(Rect { x: pos.x, y: pos.y, w, h });
        assert forall|i: int| 0 <= i < self.actors().len() implies (#[trigger] self.actors()[i]).wf() by {
            if i < self.actors().len() - 1 {
                assert(self.actors()[i] == old(self).actors()[i]);
            }
        }
        assert(self.solids() == old(self).solids());
        a
    }

    pub fn actor_pos(&self, a: ActorId) -> (p: Pos)
        requires
            self.has_actor(a),
        ensures
            p == (Pos { x: self.actor_rect(a).x, y: self.actor_rect(a).y }),
    {
        self.actors[a.index].pos()
    }

    pub fn solid_pos(&self, s: SolidId) -> (p: Pos)
        requires
            self.has_solid(s),
        ensures
            p == (Pos { x: self.solid_rect(s).x, y: self.solid_rect(s).y }),
    {
        self.solids[s.index].pos()
    }

    pub fn set_actor_position(&mut self, a: ActorId, pos: Pos)
        requires
            old(self).wf(),
            old(self).has_actor(a),
            pos.wf(),
        ensures
            final(self).wf(),
            final(self).solids() == old(self).solids(),
            final(self).actors() == old(self).actors().update(
                a.index as int,
                old(self).actor_rect(a).at(pos.x as int, pos.y as int),
            ),
    {
        let r = self.actors[a.index];
        self.actors.set(a.index, Rect { x: pos.x, y: pos.y, w: r.w, h: r.h });
        assert forall|i: int| 0 <= i < self.actors().len() implies (#[trigger] self.actors()[i]).wf() by {
            if i != a.index {
                assert(self.actors()[i] == old(self).actors()[i]);
            }
        }
        assert(self.solids() == old(self).solids());
    }

    /// Moves actor `a` pixel by pixel, `n` times in direction `(sx, sy)`, and stops
    /// before the first step that would overlap a solid (but `skip`) or leave the
    /// coordinate limits. Returns whether all `n` steps were taken.
    fn slide_actor(&mut self, a: usize, sx: i64, sy: i64, n: u64, skip: Option<usize>) -> (all: bool)
        requires
            old(self).wf(),
            a < old(self).actors().len(),
            unit(sx as int),
            unit(sy as int),
        ensures
            final(self).wf(),
            final(self).solids() == old(self).solids(),
            final(self).actors() == old(self).actors().update(
                a as int,
                slide(old(self).solids(), old(self).actors()[a as int], sx as int, sy as int, n as nat, skip),
            ),
            all == (free_steps(old(self).solids(), old(self).actors()[a as int], sx as int, sy as int, n as nat, skip) == n),
    {
        let ghost solids = self.solids();
        let ghost r0 = self.actors()[a as int];
        let mut r = self.actors[a];
        let mut i: u64 = 0;
        let mut all = true;
        while i < n
            invariant_except_break
                all,
            invariant
                self.wf(),
                self.solids() == solids,
                self.actors() == old(self).actors(),
                a < self.actors().len(),
                r0 == old(self).actors()[a as int],
                r.wf(),
                r.w == r0.w && r.h == r0.h,
                unit(sx as int),
                unit(sy as int),
                i <= n,
                slide(solids, r0, sx as int, sy as int, n as nat, skip) == slide(solids, r, sx as int, sy as int, (n - i) as nat, skip),
                free_steps(solids, r0, sx as int, sy as int, n as nat, skip) == i + free_steps(solids, r, sx as int, sy as int, (n - i) as nat, skip),
            ensures
                all ==> i == n,
                !all ==> i < n && !step_ok(solids, r, sx as int, sy as int, skip),
            decreases n - i,
        {
            let nx = r.x + sx;
            let ny = r.y + sy;
            if nx < -crate::geometry::COORD_LIMIT || nx > crate::geometry::COORD_LIMIT
                || ny < -crate::geometry::COORD_LIMIT || ny > crate::geometry::COORD_LIMIT {
                all = false;
                break;
            }
            let next = Rect { x: nx, y: ny, w: r.w, h: r.h };
            if self.hits_solid(&next, skip) {
                all = false;
                break;
            }
            r = next;
            i += 1;
        }
        self.actors.set(a, r);
        assert forall|j: int| 0 <= j < self.actors().len() implies (#[trigger] self.actors()[j]).wf() by {
            if j != a {
                assert(self.actors()[j] == old(self).actors()[j]);
            }
        }
        assert(self.solids() == old(self).solids());
        all
    }

    /// Moves the actor `dx` pixels horizontally, stopping at the first solid in
    /// the way. Returns whether the whole distance was covered.
    pub fn move_h(&mut self, a: ActorId, dx: i64) -> (moved: bool)
        requires
            old(self).wf(),
            old(self).has_actor(a),
        ensures
            final(self).wf(),
            final(self).solids() == old(self).solids(),
            final(self).actors() == old(self).actors().update(
                a.index as int,
                slide(old(self).solids(), old(self).actor_rect(a), sign(dx as int), 0, abs(dx as int), None),
            ),
            moved == (free_steps(old(self).solids(), old(self).actor_rect(a), sign(dx as int), 0, abs(dx as int), None) == abs(dx as int)),
    {
        let (s, n) = sign_and_abs(dx);
        self.slide_actor(a.index, s, 0, n, None)
    }

    /// Moves the actor `dy` pixels vertically, stopping at the first solid in
    /// the way. Returns whether the whole distance was covered.
    pub fn move_v(&mut self, a: ActorId, dy: i64) -> (moved: bool)
        requires
            old(self).wf(),
            old(self).has_actor(a),
        ensures
            final(self).wf(),
            final(self).solids() == old(self).solids(),
            final(self).actors() == old(self).actors().update(
                a.index as int,
                slide(old(self).solids(), old(self).actor_rect(a), 0, sign(dy as int), abs(dy as int), None),
            ),
            moved == (free_steps(old(self).solids(), old(self).actor_rect(a), 0, sign(dy as int), abs(dy as int), None) == abs(dy as int)),
    {
        let (s, n) = sign_and_abs(dy);
        self.slide_actor(a.index, 0, s, n, None)
    }

    /// Moves solid `s` by `(dx, dy)`. Each actor that the solid, moved `dx`
    /// horizontally, would overlap is pushed `dx` horizontally against the other
    /// solids. Actors resting on the solid are not carried along.
    pub fn solid_move(&mut self, s: SolidId, dx: i64, dy: i64)
        requires
            old(self).wf(),
            old(self).has_solid(s),
            coord_ok(old(self).solid_rect(s).x + dx),
            coord_ok(old(self).solid_rect(s).y + dy),
        ensures
            final(self).wf(),
            final(self).solids() == old(self).solids().update(
                s.index as int,
                old(self).solid_rect(s).at(old(self).solid_rect(s).x + dx, old(self).solid_rect(s).y + dy),
            ),
            final(self).actors().len() == old(self).actors().len(),
            forall|i: int|
                0 <= i < old(self).actors().len() ==> #[trigger] final(self).actors()[i] == pushed(
                    old(self).solids(),
                    s.index,
                    dx as int,
                    old(self).actors()[i],
                ),
    {
        let ghost solids0 = self.solids();
        let ghost actors0 = self.actors();
        let sr = self.solids[s.index];
        let pusher = Rect { x: sr.x + dx, y: sr.y, w: sr.w, h: sr.h };
        let (sx, n) = sign_and_abs(dx);
        let mut i: usize = 0;
        while i < self.actors.len()
            invariant
                self.wf(),
                self.solids() == solids0,
                self.actors().len() == actors0.len(),
                pusher == solids0[s.index as int].at(solids0[s.index as int].x + dx, solids0[s.index as int].y as int),
                pusher.wf(),
                s.index < solids0.len(),
                sx == sign(dx as int),
                n == abs(dx as int),
                i <= self.actors().len(),
                forall|j: int| 0 <= j < i ==> #[trigger] self.actors()[j] == pushed(solids0, s.index, dx as int, actors0[j]),
                forall|j: int| i <= j < self.actors().len() ==> #[trigger] self.actors()[j] == actors0[j],
            decreases self.actors().len() - i,
        {
            let ar = self.actors[i];
            if pusher.overlaps(&ar) {
                self.slide_actor(i, sx, 0, n, Some(s.index));
            }
            i += 1;
        }
        self.solids.set(s.index, Rect { x: sr.x + dx, y: sr.y + dy, w: sr.w, h: sr.h });
        assert forall|j: int| 0 <= j < self.solids().len() implies (#[trigger] self.solids()[j]).wf() by {
            if j != s.index {
                assert(self.solids()[j] == solids0[j]);
            }
        }
    }

    /// Whether `r` overlaps a solid, leaving out the one at index `skip`.
    fn hits_solid(&self, r: &Rect, skip: Option<usize>) -> (b: bool)
        requires
            self.wf(),
            r.wf(),
        ensures
            b == hits(self.solids(), *r, skip),
    {
        let mut i: usize = 0;
        while i < self.solids.len()
            invariant
                self.wf(),
                r.wf(),
                i <= self.solids().len(),
                forall|j: int|
                    0 <= j < i && skip != Some(j as usize) ==> !(#[trigger] self.solids()[j]).overlaps_spec(*r),
            decreases self.solids().len() - i,
        {
            let skipped = match skip {
                Some(k) => k == i,
                None => false,
            };
            if !skipped && self.solids[i].overlaps(r) {
                return true;
            }
            i += 1;
        }
        false
    }

    /// Whether the actor, with its corner moved to `probe`, would overlap a solid.
    pub fn collide_check(&self, a: ActorId, probe: Pos) -> (b: bool)
        requires
            self.wf(),
            self.has_actor(a),
            probe.wf(),
        ensures
            b == hits(self.solids(), self.actor_rect(a).at(probe.x as int, probe.y as int), None),
    {
        let r = self.actors[a.index];
        self.hits_solid(&Rect { x: probe.x, y: probe.y, w: r.w, h: r.h }, None)
    }
}

} // verus!
