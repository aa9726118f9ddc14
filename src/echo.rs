use vstd::prelude::*;

use crate::geometry::{Pos, Rect};

verus! {

/// Side of the square used for contact between the echo and the player: the
/// sprite's size less its transparent margin.
pub const HITBOX_SIZE: i64 = 32;

/// The contact square of a body standing at `p`.
pub open spec fn hitbox(p: Pos) -> Rect {
    Rect { x: p.x, y: p.y, w: HITBOX_SIZE, h: HITBOX_SIZE }
}

/// The contents of a delay buffer after `ps` have been fed to it in order, one
/// per frame: each feed drops the oldest sample and appends the new one.
pub open spec fn feed(buf: Seq<Pos>, ps: Seq<Pos>) -> Seq<Pos>
    decreases ps.len(),
{
    if ps.len() == 0 {
        buf
    } else {
        feed(buf.drop_first().push(ps[0]), ps.drop_first())
    }
}

/// A fixed-length history of past positions. The oldest sample, the head, is
/// where the echo stands; each frame the oldest sample falls off and the newest
/// is appended, so the echo replays the player's path a fixed number of frames late.
///
/// Stored as a ring: `cursor` indexes the head, and the sample `i` frames after
/// the head sits `i` slots further on, wrapping around.
pub struct DelayBuffer {
    slots: Vec<Pos>,
    cursor: usize,
    last_removed: Pos,
}

impl View for DelayBuffer {
    type V = Seq<Pos>;

    /// The samples from oldest to newest.
    closed spec fn view(&self) -> Seq<Pos> {
        Seq::new(
            self.slots@.len(),
            |i: int|
                if self.cursor + i < self.slots@.len() {
                    self.slots@[self.cursor + i]
                } else {
                    self.slots@[self.cursor + i - self.slots@.len()]
                },
        )
    }
}

impl DelayBuffer {
    /// At least one slot, the cursor on one of them, and every sample within
    /// the coordinate limits.
    pub closed spec fn wf(&self) -> bool {
        &&& self.slots@.len() >= 1
        &&& self.cursor < self.slots@.len()
        &&& forall|i: int| 0 <= i < self.slots@.len() ==> (#[trigger] self.slots@[i]).wf()
    }

    /// The sample that fell off at the last advance.
    pub closed spec fn last_removed_spec(&self) -> Pos {
        self.last_removed
    }

    /// A buffer of `delay` samples, all equal to `initial`.
    pub fn new(delay: usize, initial: Pos) -> (b: DelayBuffer)
        requires
            delay >= 1,
            initial.wf(),
        ensures
            b.wf(),
            b@ == Seq::new(delay as nat, |i: int| initial),
            b.last_removed_spec() == initial,
    {
        let slots = vec![initial; delay];
        let b = DelayBuffer { slots, cursor: 0, last_removed: initial };
        assert(b@ =~= Seq::new(delay as nat, |i: int| initial));
        b
    }

    /// The number of frames by which the echo trails the player.
    pub fn delay(&self) -> (n: usize)
        requires
            self.wf(),
        ensures
            n == self@.len(),
            n >= 1,
    {
        self.slots.len()
    }

    /// The oldest sample: where the echo is now.
    pub fn head(&self) -> (p: Pos)
        requires
            self.wf(),
        ensures
            p == self@[0],
            p.wf(),
    {
        self.slots[self.cursor]
    }

    /// The sample that fell off at the last advance.
    pub fn last_removed(&self) -> (p: Pos)
        ensures
            p == self.last_removed_spec(),
    {
        self.last_removed
    }

    /// Drops the oldest sample, appends `p`, and returns the sample dropped.
    pub fn advance(&mut self, p: Pos) -> (removed: Pos)
        requires
            old(self).wf(),
            p.wf(),
        ensures
            final(self).wf(),
            removed == old(self)@[0],
            final(self)@ == old(self)@.drop_first().push(p),
            final(self).last_removed_spec() == removed,
    {
        let ghost before = self@;
        let removed = self.slots[self.cursor];
        self.slots.set(self.cursor, p);
        if self.cursor == self.slots.len() - 1 {
            self.cursor = 0;
        } else {
            self.cursor = self.cursor + 1;
        }
        self.last_removed = removed;
        assert(self@ =~= before.drop_first().push(p));
        removed
    }

    /// Whether the echo, at the head, touches the player standing at `player`.
    pub fn collides_with_player(&self, player: Pos) -> (b: bool)
        requires
            self.wf(),
            player.wf(),
        ensures
            b == hitbox(self@[0]).overlaps_spec(hitbox(player)),
    {
        let e = self.head();
        let er = Rect { x: e.x, y: e.y, w: HITBOX_SIZE, h: HITBOX_SIZE };
        let pr = Rect { x: player.x, y: player.y, w: HITBOX_SIZE, h: HITBOX_SIZE };
        er.overlaps(&pr)
    }
}

/// Feeding a buffer of `N` samples leaves the last `N` samples of the buffer's
/// contents followed by everything fed.
pub proof fn lemma_feed_window(buf: Seq<Pos>, ps: Seq<Pos>)
    requires
        buf.len() >= 1,
    ensures
        feed(buf, ps) == (buf + ps).subrange(ps.len() as int, (ps.len() + buf.len()) as int),
    decreases ps.len(),
{
    if ps.len() == 0 {
        assert((buf + ps).subrange(0, buf.len() as int) =~= buf);
    } else {
        let next = buf.drop_first().push(ps[0]);
        lemma_feed_window(next, ps.drop_first());
        assert((next + ps.drop_first()).subrange(ps.len() - 1, ps.len() - 1 + next.len())
            =~= (buf + ps).subrange(ps.len() as int, (ps.len() + buf.len()) as int));
    }
}

/// After `K >= N` frames, the head of a buffer of depth `N` is the position fed
/// exactly `N` frames earlier.
pub proof fn lemma_head_trails_by_delay(buf: Seq<Pos>, ps: Seq<Pos>)
    requires
        buf.len() >= 1,
        ps.len() >= buf.len(),
    ensures
        feed(buf, ps).len() == buf.len(),
        feed(buf, ps)[0] == ps[ps.len() - buf.len()],
{
    lemma_feed_window(buf, ps);
}

} // verus!
