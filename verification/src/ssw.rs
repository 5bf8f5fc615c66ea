//! The seam-shifted-wake activation detector's decisions.
//!
//! Each sub-step the adapter transforms every seam point into the frame whose
//! reference axis is the velocity direction, and measures for the point and
//! its two circular neighbours how far the flow angle sits from straight
//! downstream (pi).  Those transforms are rounding float arithmetic and stay
//! with the adapter; what is decided about the results — which points lie in
//! the activation box, and which of those are still outside separated flow —
//! is exact comparison logic on the resulting bit patterns and is verified
//! here.
use crate::ieee::{abs64, f64_abs, f64_ge, f64_lt, ge64, lt64};
use crate::vec3::DVec3Bits;
use vstd::prelude::*;

verus! {

/// What the adapter measured about one seam point for the current sub-step:
/// the point transformed into the velocity-aligned frame, and the deviations
/// from pi (binary64 bits) of the flow angles toward its previous and next
/// neighbour on the seam curve.
#[derive(Debug, Clone, Copy, PartialEq, Eq, Structural)]
pub struct SeamProbe {
    pub point: DVec3Bits,
    pub dev_down: u64,
    pub dev_up: u64,
}

/// The point lies strictly inside the axis-aligned activation box.
pub open spec fn in_region_spec(point: DVec3Bits, max: DVec3Bits, min: DVec3Bits) -> bool {
    f64_lt(point.x, max.x) && f64_lt(min.x, point.x) && f64_lt(point.y, max.y) && f64_lt(
        min.y,
        point.y,
    ) && f64_lt(point.z, max.z) && f64_lt(min.z, point.z)
}

/// Both flow angles at the point deviate from pi by at least the separated
/// flow range: the point is not already on a separated region of flow.
pub open spec fn outside_flow_spec(dev_down: u64, dev_up: u64, separated_flow_range: u64) -> bool {
    f64_ge(f64_abs(dev_down), separated_flow_range) && f64_ge(
        f64_abs(dev_up),
        separated_flow_range,
    )
}

/// The probe contributes to the seam-shifted-wake force this sub-step.
pub open spec fn probe_active_spec(
    probe: SeamProbe,
    max: DVec3Bits,
    min: DVec3Bits,
    separated_flow_range: u64,
) -> bool {
    in_region_spec(probe.point, max, min) && outside_flow_spec(
        probe.dev_down,
        probe.dev_up,
        separated_flow_range,
    )
}

/// Tests a transformed seam point against the activation box.
pub fn in_activation_region(point: &DVec3Bits, max: &DVec3Bits, min: &DVec3Bits) -> (r: bool)
    ensures
        r == in_region_spec(*point, *max, *min),
{
    lt64(point.x, max.x) && lt64(min.x, point.x) && lt64(point.y, max.y) && lt64(min.y, point.y)
        && lt64(point.z, max.z) && lt64(min.z, point.z)
}

/// Seams already inside a separated region of flow cannot trip the wake
/// again: a point qualifies only when both of its flow angles differ from pi
/// by at least `separated_flow_range`.
pub fn outside_separated_flow(dev_down: u64, dev_up: u64, separated_flow_range: u64) -> (r: bool)
    ensures
        r == outside_flow_spec(dev_down, dev_up, separated_flow_range),
{
    let below: u64 = abs64(dev_down);
    let above: u64 = abs64(dev_up);
    ge64(below, separated_flow_range) && ge64(above, separated_flow_range)
}

/// Picks the indices of the probes that contribute to the seam-shifted-wake
/// force: exactly those inside the activation box whose flow is not already
/// separated, in increasing order.
pub fn find_ssw_seams(
    probes: &Vec<SeamProbe>,
    max: &DVec3Bits,
    min: &DVec3Bits,
    separated_flow_range: u64,
) -> (r: Vec<usize>)
    ensures
        forall|j: int|
            0 <= j < r@.len() ==> r@[j] < probes@.len() && probe_active_spec(
                probes@[r@[j] as int],
                *max,
                *min,
                separated_flow_range,
            ),
        forall|i: int|
            0 <= i < probes@.len() && probe_active_spec(probes@[i], *max, *min, separated_flow_range)
                ==> r@.contains(i as usize),
        forall|j: int, k: int| 0 <= j < k < r@.len() ==> r@[j] < r@[k],
{
    let mut r: Vec<usize> = Vec::new();
    let n: usize = probes.len();
    let mut i: usize = 0;
    while i < n
        invariant
            n == probes@.len(),
            i <= n,
            forall|j: int|
                0 <= j < r@.len() ==> r@[j] < i && probe_active_spec(
                    probes@[r@[j] as int],
                    *max,
                    *min,
                    separated_flow_range,
                ),
            forall|k: int|
                0 <= k < i && probe_active_spec(probes@[k], *max, *min, separated_flow_range)
                    ==> r@.contains(k as usize),
            forall|j: int, k: int| 0 <= j < k < r@.len() ==> r@[j] < r@[k],
        decreases n - i,
    {
        let probe = &probes[i];
        if in_activation_region(&probe.point, max, min) && outside_separated_flow(
            probe.dev_down,
            probe.dev_up,
            separated_flow_range,
        ) {
            let ghost r0 = r@;
            r.push(i);
            proof {
                assert forall|k: int|
                    0 <= k < i + 1 && probe_active_spec(
                        probes@[k],
                        *max,
                        *min,
                        separated_flow_range,
                    ) implies r@.contains(k as usize) by {
                    if k < i {
                        let j = choose|j: int| 0 <= j < r0.len() && r0[j] == k as usize;
                        assert(r@[j] == k as usize);
                    } else {
                        assert(r@[r0.len() as int] == i);
                    }
                }
            }
        }
        i = i + 1;
    }
    r
}

} // verus!
