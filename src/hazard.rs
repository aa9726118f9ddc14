use vstd::prelude::*;

verus! {

/// Lives at the start of a round.
pub const INITIAL_LIVES: u32 = 3;

/// Length of the invulnerability window that follows a lost life, in milliseconds.
pub const INVULNERABILITY_MS: u64 = 3000;

/// Where the lives counter stands.
#[derive(Clone, Copy, Debug, PartialEq, Eq, Structural)]
pub enum HazardPhase {
    /// Lives left, and the next contact costs one.
    Safe,
    /// A life was just lost; contacts are ignored until the timer runs out.
    Invulnerable,
    /// No lives left: the round is over.
    Depleted,
}

/// Lives and the invulnerability countdown. The player is invulnerable exactly
/// while the timer is above zero.
#[derive(Clone, Copy, Debug, PartialEq, Eq, Structural)]
pub struct Hazard {
    pub lives: u32,
    pub timer_ms: u64,
}

impl Hazard {
    pub open spec fn phase_spec(self) -> HazardPhase {
        if self.lives == 0 {
            HazardPhase::Depleted
        } else if self.timer_ms > 0 {
            HazardPhase::Invulnerable
        } else {
            HazardPhase::Safe
        }
    }

    /// The state after the echo touches the player. Only a safe player loses a
    /// life; the last life ends the round at once, any other opens the
    /// invulnerability window.
    pub open spec fn after_contact(self) -> Hazard {
        if self.phase_spec() != HazardPhase::Safe {
            self
        } else if self.lives == 1 {
            Hazard { lives: 0, timer_ms: 0 }
        } else {
            Hazard { lives: (self.lives - 1) as u32, timer_ms: INVULNERABILITY_MS }
        }
    }

    /// The state after `dt` milliseconds: the countdown runs down, not below zero.
    pub open spec fn after_tick(self, dt: u64) -> Hazard {
        Hazard {
            lives: self.lives,
            timer_ms: if self.timer_ms > dt {
                (self.timer_ms - dt) as u64
            } else {
                0
            },
        }
    }

    /// Full lives, not invulnerable.
    pub fn new() -> (h: Hazard)
        ensures
            h == (Hazard { lives: INITIAL_LIVES, timer_ms: 0 }),
            h.phase_spec() == HazardPhase::Safe,
    {
        Hazard { lives: INITIAL_LIVES, timer_ms: 0 }
    }

    pub fn phase(&self) -> (p: HazardPhase)
        ensures
            p == self.phase_spec(),
    {
        if self.lives == 0 {
            HazardPhase::Depleted
        } else if self.timer_ms > 0 {
            HazardPhase::Invulnerable
        } else {
            HazardPhase::Safe
        }
    }

    pub fn is_invulnerable(&self) -> (b: bool)
        ensures
            b == (self.timer_ms > 0),
    {
        self.timer_ms > 0
    }

    /// Applies a contact with the echo. Returns whether a life was lost.
    pub fn contact(&mut self) -> (lost: bool)
        ensures
            *final(self) == old(self).after_contact(),
            lost == (old(self).phase_spec() == HazardPhase::Safe),
    {
        if self.lives == 0 || self.timer_ms > 0 {
            return false;
        }
        if self.lives == 1 {
            self.lives = 0;
        } else {
            self.lives = self.lives - 1;
            self.timer_ms = INVULNERABILITY_MS;
        }
        true
    }

    /// Lets `dt` milliseconds pass.
    pub fn tick(&mut self, dt: u64)
        ensures
            *final(self) == old(self).after_tick(dt),
    {
        if self.timer_ms > dt {
            self.timer_ms = self.timer_ms - dt;
        } else {
            self.timer_ms = 0;
        }
    }
}

/// From a safe state with more than one life, a contact costs one life and opens
/// the invulnerability window at its full length.
pub proof fn lemma_contact_when_safe(h: Hazard)
    requires
        h.phase_spec() == HazardPhase::Safe,
        h.lives > 1,
    ensures
        h.after_contact() == (Hazard { lives: (h.lives - 1) as u32, timer_ms: INVULNERABILITY_MS }),
        h.after_contact().phase_spec() == HazardPhase::Invulnerable,
{
}

/// While the window is open, contacts change nothing.
pub proof fn lemma_contact_while_invulnerable(h: Hazard)
    requires
        h.timer_ms > 0,
    ensures
        h.after_contact() == h,
{
}

/// Once the window has run out the player is safe again, and the next contact
/// costs another life.
pub proof fn lemma_window_closes(h: Hazard, dt: u64)
    requires
        h.lives > 0,
        dt >= h.timer_ms,
    ensures
        h.after_tick(dt).phase_spec() == HazardPhase::Safe,
        h.after_tick(dt).after_contact().lives == h.lives - 1,
{
}

/// The whole cycle: from `L > 1` lives and safe, a contact leaves `L - 1` lives
/// and the full window; contacts during the window, between ticks that do not
/// close it, leave the lives alone; once ticks close it, the player is safe and
/// the next contact leaves `L - 2`.
pub proof fn lemma_hit_window_cycle(h: Hazard, early: Seq<u64>, late: u64)
    requires
        h.phase_spec() == HazardPhase::Safe,
        h.lives > 1,
        early.len() >= 1,
        sum(early) < INVULNERABILITY_MS,
        late >= INVULNERABILITY_MS - sum(early),
    ensures
        ticks_with_contacts(h.after_contact(), early).lives == h.lives - 1,
        ticks_with_contacts(h.after_contact(), early).timer_ms == INVULNERABILITY_MS - sum(early),
        ticks_with_contacts(h.after_contact(), early).after_tick(late).phase_spec()
            == HazardPhase::Safe,
        ticks_with_contacts(h.after_contact(), early).after_tick(late).after_contact().lives
            == h.lives - 2,
{
    lemma_sum_nonneg(early);
    lemma_ticks_with_contacts(h.after_contact(), early);
}

/// Total of a sequence of frame times.
pub open spec fn sum(ds: Seq<u64>) -> int
    decreases ds.len(),
{
    if ds.len() == 0 {
        0
    } else {
        sum(ds.drop_last()) + ds.last()
    }
}

/// Frames of `ds` milliseconds each, with a contact at the end of every frame.
pub open spec fn ticks_with_contacts(h: Hazard, ds: Seq<u64>) -> Hazard
    decreases ds.len(),
{
    if ds.len() == 0 {
        h
    } else {
        ticks_with_contacts(h, ds.drop_last()).after_tick(ds.last()).after_contact()
    }
}

/// Frames that do not exhaust the window only run its countdown down.
pub proof fn lemma_ticks_with_contacts(h: Hazard, ds: Seq<u64>)
    requires
        h.lives > 0,
        sum(ds) < h.timer_ms,
    ensures
        ticks_with_contacts(h, ds) == (Hazard { lives: h.lives, timer_ms: (h.timer_ms - sum(ds)) as u64 }),
    decreases ds.len(),
{
    if ds.len() > 0 {
        lemma_sum_nonneg(ds.drop_last());
        lemma_ticks_with_contacts(h, ds.drop_last());
    }
}

pub proof fn lemma_sum_nonneg(ds: Seq<u64>)
    ensures
        sum(ds) >= 0,
    decreases ds.len(),
{
    if ds.len() > 0 {
        lemma_sum_nonneg(ds.drop_last());
    }
}

/// From the last life, a contact ends the round at once, with no window.
pub proof fn lemma_last_life(h: Hazard)
    requires
        h.lives == 1,
        h.timer_ms == 0,
    ensures
        h.after_contact() == (Hazard { lives: 0, timer_ms: 0 }),
        h.after_contact().phase_spec() == HazardPhase::Depleted,
{
}

} // verus!
