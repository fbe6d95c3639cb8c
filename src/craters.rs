use vstd::prelude::*;

verus! {

/// A depth value as an exact fraction `num / den`.
#[derive(Clone, Copy, Debug, PartialEq, Eq, Structural)]
pub struct DepthRatio {
    pub num: i64,
    pub den: i64,
}

/// Outer segment of the radial profile (rim fade-out), `(1 - r) / 0.4` at
/// `r = ring / rings`, as a numerator over `2 * rings`.
pub open spec fn outer_segment_num(ring: int, rings: int) -> int {
    5 * (rings - ring)
}

/// Inner segment of the radial profile (floor rising to the central peak),
/// `1 + 3 * (1 - r / 0.6)` at `r = ring / rings`, as a numerator over
/// `2 * rings`.
pub open spec fn inner_segment_num(ring: int, rings: int) -> int {
    8 * rings - 10 * ring
}

/// Radial depth profile of a crater at `r = ring / rings`: the outer segment for
/// `r > 0.6`, the inner one for `r <= 0.6`; a numerator over `2 * rings`.
pub open spec fn depth_profile_num(ring: int, rings: int) -> int {
    if 5 * ring > 3 * rings {
        outer_segment_num(ring, rings)
    } else {
        inner_segment_num(ring, rings)
    }
}

/// Depth profile of ring `ring` out of `rings` concentric rings (ring 0 is the
/// impact centre, normalised radius `ring / rings`): 1 at `r = 0.6`, falling
/// linearly to 0 at the rim `r = 1`, rising linearly to 4 at the centre.
pub fn crater_depth(ring: u32, rings: u32) -> (r: DepthRatio)
    requires
        0 < rings,
        ring <= rings,
    ensures
        r.den == 2 * rings,
        r.num == depth_profile_num(ring as int, rings as int),
{
    let d = ring as i64;
    let n = rings as i64;
    let num = if 5 * d > 3 * n {
        5 * (n - d)
    } else {
        8 * n - 10 * d
    };
    DepthRatio { num, den: 2 * n }
}

/// The two segments of the crater profile meet at `r = 0.6`, where both give
/// depth 1: the profile is continuous there.
pub proof fn lemma_profile_continuous(ring: int, rings: int)
    requires
        rings > 0,
        5 * ring == 3 * rings,
    ensures
        outer_segment_num(ring, rings) == inner_segment_num(ring, rings),
        depth_profile_num(ring, rings) == 2 * rings,
{
}

/// On `(0.6, 1]` the crater profile strictly decreases outwards, reaching 0 at
/// the rim.
pub proof fn lemma_profile_decreasing_outside(a: int, b: int, rings: int)
    requires
        rings > 0,
        3 * rings < 5 * a,
        a < b <= rings,
    ensures
        depth_profile_num(a, rings) > depth_profile_num(b, rings),
        depth_profile_num(rings, rings) == 0,
{
}

/// On `[0, 0.6]` the crater profile strictly increases towards the centre,
/// where it reaches 4.
pub proof fn lemma_profile_increasing_inwards(a: int, b: int, rings: int)
    requires
        rings > 0,
        0 <= a < b,
        5 * b <= 3 * rings,
    ensures
        depth_profile_num(a, rings) > depth_profile_num(b, rings),
        depth_profile_num(0, rings) == 4 * (2 * rings),
{
}

/// Progress of a crater-stamping run: how many candidates have been accepted
/// out of the `target` asked for. Attempts are not capped.
pub struct CraterTally {
    accepted: u32,
    target: u32,
}

impl CraterTally {
    pub closed spec fn accepted_count(&self) -> nat {
        self.accepted as nat
    }

    pub closed spec fn target_count(&self) -> nat {
        self.target as nat
    }

    /// The run is over once `target` craters have been accepted.
    pub open spec fn done(&self) -> bool {
        self.accepted_count() >= self.target_count()
    }

    /// A run that is to accept `count` craters; with `count == 0` it is over
    /// before any candidate is drawn.
    pub fn new(count: u32) -> (r: CraterTally)
        ensures
            r.accepted_count() == 0,
            r.target_count() == count,
            r.done() <==> count == 0,
    {
        CraterTally { accepted: 0, target: count }
    }

    pub fn accepted(&self) -> (r: u32)
        ensures
            r == self.accepted_count(),
    {
        self.accepted
    }

    pub fn is_done(&self) -> (r: bool)
        ensures
            r == self.done(),
    {
        self.accepted >= self.target
    }

    /// Records one candidate whose acceptance roll was compared with the
    /// biome's crater threshold. A roll below the threshold rejects the
    /// candidate, which is not counted; otherwise it is accepted and is to be
    /// stamped. Returns whether to stamp it.
    pub fn record(&mut self, roll_below_threshold: bool) -> (stamp: bool)
        requires
            !old(self).done(),
        ensures
            stamp == !roll_below_threshold,
            final(self).target_count() == old(self).target_count(),
            final(self).accepted_count() == old(self).accepted_count() + if stamp {
                1nat
            } else {
                0nat
            },
    {
        if roll_below_threshold {
            false
        } else {
            self.accepted = self.accepted + 1;
            true
        }
    }
}

} // verus!
