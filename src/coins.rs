use vstd::prelude::*;

use crate::geometry::{Pos, Rect};

verus! {

/// Side of a coin's square, in pixels.
pub const COIN_SIZE: i64 = 36;

/// How long a coin stays before it disappears, in milliseconds.
pub const COIN_LIFETIME_MS: u64 = 5000;

/// Time between two coins appearing, in milliseconds.
pub const COIN_SPAWN_INTERVAL_MS: u64 = 3000;

/// Points for picking up a coin.
pub const COIN_POINTS: u64 = 10;

/// A collectible: where it is and how long it has left, in milliseconds.
#[derive(Clone, Copy, Debug, PartialEq, Eq, Structural)]
pub struct Coin {
    pub pos: Pos,
    pub lifetime_ms: u64,
}

/// What becomes of a coin in one frame.
#[derive(Clone, Copy, Debug, PartialEq, Eq, Structural)]
pub enum CoinFate {
    /// Its lifetime ran out: removed, and not collected.
    Expired,
    /// The player touched it while it was still alive: removed, and scored.
    Collected,
    /// It stays, older by the frame's time.
    Kept,
}

pub open spec fn coin_rect(c: Coin) -> Rect {
    Rect { x: c.pos.x, y: c.pos.y, w: COIN_SIZE, h: COIN_SIZE }
}

/// The coin `dt` milliseconds older.
pub open spec fn aged(c: Coin, dt: u64) -> Coin {
    Coin { pos: c.pos, lifetime_ms: if c.lifetime_ms > dt { (c.lifetime_ms - dt) as u64 } else { 0 } }
}

/// Expiry is checked before contact, so a coin whose time is up cannot also be
/// collected in the same frame.
pub open spec fn coin_fate(c: Coin, dt: u64, player: Rect) -> CoinFate {
    if c.lifetime_ms <= dt {
        CoinFate::Expired
    } else if coin_rect(c).overlaps_spec(player) {
        CoinFate::Collected
    } else {
        CoinFate::Kept
    }
}

/// The coins that stay after one frame, in their order, each older by `dt`.
pub open spec fn coins_kept(s: Seq<Coin>, dt: u64, player: Rect) -> Seq<Coin>
    decreases s.len(),
{
    if s.len() == 0 {
        s
    } else {
        let before = coins_kept(s.drop_last(), dt, player);
        if coin_fate(s.last(), dt, player) == CoinFate::Kept {
            before.push(aged(s.last(), dt))
        } else {
            before
        }
    }
}

/// How many coins the player collects in one frame.
pub open spec fn coins_collected(s: Seq<Coin>, dt: u64, player: Rect) -> nat
    decreases s.len(),
{
    if s.len() == 0 {
        0
    } else {
        coins_collected(s.drop_last(), dt, player) + if coin_fate(s.last(), dt, player)
            == CoinFate::Collected {
            1nat
        } else {
            0nat
        }
    }
}

pub open spec fn coins_wf(s: Seq<Coin>) -> bool {
    forall|i: int| 0 <= i < s.len() ==> (#[trigger] s[i]).pos.wf()
}

impl Coin {
    pub open spec fn new_spec(pos: Pos) -> Coin {
        Coin { pos, lifetime_ms: COIN_LIFETIME_MS }
    }

    /// A coin at `pos` with the full lifetime.
    pub fn new(pos: Pos) -> (c: Coin)
        ensures
            c == Coin::new_spec(pos),
    {
        Coin { pos, lifetime_ms: COIN_LIFETIME_MS }
    }

    /// Lets `dt` milliseconds pass; returns whether the coin is still alive.
    pub fn update(&mut self, dt: u64) -> (alive: bool)
        ensures
            *final(self) == aged(*old(self), dt),
            alive == (old(self).lifetime_ms > dt),
    {
        if self.lifetime_ms > dt {
            self.lifetime_ms = self.lifetime_ms - dt;
            true
        } else {
            self.lifetime_ms = 0;
            false
        }
    }

    /// Whether the coin overlaps a player of the given size at `player_pos`.
    pub fn collides_with_player(&self, player_pos: Pos, player_w: i64, player_h: i64) -> (b: bool)
        requires
            self.pos.wf(),
            (Rect { x: player_pos.x, y: player_pos.y, w: player_w, h: player_h }).wf(),
        ensures
            b == coin_rect(*self).overlaps_spec(
                Rect { x: player_pos.x, y: player_pos.y, w: player_w, h: player_h },
            ),
    {
        let cr = Rect { x: self.pos.x, y: self.pos.y, w: COIN_SIZE, h: COIN_SIZE };
        let pr = Rect { x: player_pos.x, y: player_pos.y, w: player_w, h: player_h };
        cr.overlaps(&pr)
    }
}

/// One frame for every coin: expired coins go, coins the player touches go and
/// are counted, the rest age by `dt`. Returns how many were collected.
pub fn update_coins(coins: &mut Vec<Coin>, dt: u64, player: Rect) -> (collected: u64)
    requires
        coins_wf(old(coins)@),
        player.wf(),
    ensures
        final(coins)@ == coins_kept(old(coins)@, dt, player),
        collected == coins_collected(old(coins)@, dt, player),
        coins_wf(final(coins)@),
        collected <= old(coins)@.len(),
{
    let ghost s = coins@;
    let mut kept: Vec<Coin> = Vec::new();
    let mut collected: u64 = 0;
    let mut i: usize = 0;
    while i < coins.len()
        invariant
            coins@ == s,
            coins_wf(s),
            player.wf(),
            i <= s.len(),
            kept@ == coins_kept(s.subrange(0, i as int), dt, player),
            collected == coins_collected(s.subrange(0, i as int), dt, player),
            collected <= i,
            coins_wf(kept@),
        decreases s.len() - i,
    {
        assert(s.subrange(0, i + 1).drop_last() =~= s.subrange(0, i as int));
        let mut c = coins[i];
        let alive = c.update(dt);
        if alive {
            if coins[i].collides_with_player(player.pos(), player.w, player.h) {
                collected = collected + 1;
            } else {
                kept.push(c);
            }
        }
        i += 1;
    }
    assert(s.subrange(0, s.len() as int) =~= s);
    *coins = kept;
    collected
}

/// Total time of a run of frames.
pub open spec fn elapsed(frames: Seq<(u64, Rect)>) -> int
    decreases frames.len(),
{
    if frames.len() == 0 {
        0
    } else {
        frames[0].0 + elapsed(frames.drop_first())
    }
}

/// How a coin leaves over a run of frames, each given by its time and the
/// player's rectangle: the first fate other than `Kept` and the frame it
/// happened in, or `Kept` if it is still there at the end.
pub open spec fn coin_over(c: Coin, frames: Seq<(u64, Rect)>) -> (CoinFate, int)
    decreases frames.len(),
{
    if frames.len() == 0 {
        (CoinFate::Kept, 0)
    } else {
        let f = coin_fate(c, frames[0].0, frames[0].1);
        if f == CoinFate::Kept {
            let rest = coin_over(aged(c, frames[0].0), frames.drop_first());
            (rest.0, rest.1 + 1)
        } else {
            (f, 0)
        }
    }
}

/// A coin with lifetime `T > 0` that the player never touches is removed, as
/// expired and never as collected, in the frame during which the elapsed time
/// reaches `T`.
pub proof fn lemma_untouched_coin_expires(c: Coin, frames: Seq<(u64, Rect)>)
    requires
        c.lifetime_ms > 0,
        c.lifetime_ms <= elapsed(frames),
        forall|i: int| 0 <= i < frames.len() ==> !coin_rect(c).overlaps_spec(#[trigger] frames[i].1),
    ensures
        coin_over(c, frames).0 == CoinFate::Expired,
        0 <= coin_over(c, frames).1 < frames.len(),
        elapsed(frames.take(coin_over(c, frames).1)) < c.lifetime_ms,
        c.lifetime_ms <= elapsed(frames.take(coin_over(c, frames).1 + 1)),
    decreases frames.len(),
{
    assert(frames.len() > 0);
    let dt = frames[0].0;
    let rest = frames.drop_first();
    assert(frames.take(0) =~= Seq::<(u64, Rect)>::empty());
    assert(frames.take(1).drop_first() =~= Seq::<(u64, Rect)>::empty());
    assert(elapsed(Seq::<(u64, Rect)>::empty()) == 0);
    assert(elapsed(frames.take(1)) == dt);
    if c.lifetime_ms > dt {
        assert(coin_rect(aged(c, dt)) == coin_rect(c));
        assert forall|i: int| 0 <= i < rest.len() implies !coin_rect(aged(c, dt)).overlaps_spec(#[trigger] rest[i].1) by {
            assert(rest[i] == frames[i + 1]);
        }
        lemma_untouched_coin_expires(aged(c, dt), rest);
        let k = coin_over(aged(c, dt), rest).1;
        assert(frames.take(k + 1).drop_first() =~= rest.take(k));
        assert(frames.take(k + 2).drop_first() =~= rest.take(k + 1));
        assert(elapsed(frames.take(k + 1)) == dt + elapsed(rest.take(k)));
        assert(elapsed(frames.take(k + 2)) == dt + elapsed(rest.take(k + 1)));
    }
}

/// A coin the player touches while it is alive is collected exactly once in
/// that frame: it adds one to the count and is not among the coins kept.
pub proof fn lemma_collected_once(s: Seq<Coin>, dt: u64, player: Rect, i: int)
    requires
        0 <= i < s.len(),
        coin_fate(s[i], dt, player) == CoinFate::Collected,
    ensures
        coins_collected(s, dt, player) == coins_collected(s.remove(i), dt, player) + 1,
        coins_kept(s, dt, player) == coins_kept(s.remove(i), dt, player),
    decreases s.len(),
{
    if i == s.len() - 1 {
        assert(s.remove(i) =~= s.drop_last());
    } else {
        lemma_collected_once(s.drop_last(), dt, player, i);
        assert(s.remove(i).drop_last() =~= s.drop_last().remove(i));
        assert(s.remove(i).last() == s.last());
    }
}

} // verus!
