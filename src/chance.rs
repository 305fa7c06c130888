use vstd::prelude::*;

verus! {

/// Draws are uniform integers in `0..DRAW_SCALE` (two to the fifty-third), the
/// resolution of a uniformly drawn double in `[0, 1)`.
pub const DRAW_SCALE: u64 = 9007199254740992;

/// A probability, held as the number of draws out of `DRAW_SCALE` that hit.
/// A draw `d` hits when `d < ticks`, so the chance is `ticks / DRAW_SCALE`.
#[derive(Clone, Copy, Debug, PartialEq, Eq, Structural)]
pub struct Chance {
    pub ticks: u64,
}

impl Chance {
    /// A valid probability lies in `[0, 1]`.
    pub open spec fn wf(&self) -> bool {
        self.ticks <= DRAW_SCALE
    }

    /// Whether a draw hits.
    pub open spec fn hits(&self, draw: int) -> bool {
        draw < self.ticks
    }

    /// The chance of `ticks` hits out of `DRAW_SCALE`; `None` when that is more
    /// than one.
    pub fn from_ticks(ticks: u64) -> (r: Option<Chance>)
        ensures
            r is Some <==> ticks <= DRAW_SCALE,
            r matches Some(c) ==> c.ticks == ticks && c.wf(),
    {
        if ticks <= DRAW_SCALE {
            Some(Chance { ticks })
        } else {
            None
        }
    }

    /// The chance that never hits.
    pub fn never() -> (r: Chance)
        ensures
            r.ticks == 0,
            r.wf(),
    {
        Chance { ticks: 0 }
    }

    /// Whether `draw` hits.
    pub fn is_hit(&self, draw: u64) -> (r: bool)
        ensures
            r == self.hits(draw as int),
    {
        draw < self.ticks
    }
}

/// Relies on rand::Rng::gen_range on rand::thread_rng: a value of the half-open
/// range `0..bound`, which must not be empty.
#[verifier::external_body]
fn random_below(bound: u64) -> (r: u64)
    requires
        bound > 0,
    ensures
        r < bound,
{
    rand::Rng::gen_range(&mut rand::thread_rng(), 0..bound)
}

/// One uniform draw in `0..DRAW_SCALE`.
pub fn draw() -> (r: u64)
    ensures
        r < DRAW_SCALE,
{
    random_below(DRAW_SCALE)
}

} // verus!
