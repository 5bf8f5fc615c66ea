//! The per-ball trajectory state and its verified transitions.
//!
//! A `BaseballFlightState` owns everything one ball's flight accumulates:
//! kinematics (position, velocity, spin, the 108 world-oriented seam points),
//! the elapsed flight time, the activation flag, the requested recording
//! timestamps with their captured samples, and the two strike-zone capture
//! slots.  All scalars are IEEE-754 binary64 bit patterns (see `ieee`).
//!
//! The rounding float work of one sub-step — rotating the seams, evaluating
//! the force law four times, combining the Runge-Kutta slopes, advancing
//! velocity and position — is the host adapter's.  What this module verifies
//! is every decision taken about those results: the activation and
//! deactivation lifecycle, which recording slot is written when, and when a
//! strike-zone capture slot is overwritten.  Each transition's postcondition
//! pins the new state exactly, so the verified core is bit-for-bit
//! deterministic.
use crate::ieee::{abs64, f64_abs, f64_is_nan, f64_lt, f64_neg, lt64, neg64};
use crate::vec3::DVec3Bits;
use vstd::pervasive::VecAdditionalExecFns;
use vstd::prelude::*;

verus! {

/// Number of sample points on the seam curve.
pub const N_SEAMS: usize = 108;

/// Bit pattern of `0.5f64`: the half-width (feet) of the strike-zone capture
/// window around each plane.
pub const CAPTURE_WINDOW_BITS: u64 = 0x3FE0_0000_0000_0000;

/// Requested sample timestamps are NaN-free and strictly increasing.
pub open spec fn record_times_wf(times: Seq<u64>) -> bool {
    (forall|i: int| 0 <= i < times.len() ==> !f64_is_nan(#[trigger] times[i])) && (forall|i: int|
        0 <= i < times.len() - 1 ==> f64_lt(#[trigger] times[i], times[i + 1]))
}

/// A new sample (with signed downrange distance `dist_new` to a plane)
/// replaces a capture slot holding `dist_stored` exactly when it lies inside
/// the capture window and is strictly closer to the plane than the held one.
pub open spec fn capture_takes(dist_stored: u64, dist_new: u64) -> bool {
    f64_lt(f64_abs(dist_new), CAPTURE_WINDOW_BITS) && f64_lt(
        f64_abs(dist_new),
        f64_abs(dist_stored),
    )
}

/// The recording slots after one sub-step at elapsed time `t`: starting at
/// the write cursor `next`, every slot whose requested time lies strictly
/// below `t` receives the sub-step's position, and the cursor moves past it.
pub open spec fn filled_positions(
    times: Seq<u64>,
    positions: Seq<DVec3Bits>,
    next: int,
    t: u64,
    pos: DVec3Bits,
) -> Seq<DVec3Bits>
    decreases times.len() - next,
    when 0 <= next <= times.len()
{
    if next < times.len() && f64_lt(times[next], t) {
        filled_positions(times, positions.update(next, pos), next + 1, t, pos)
    } else {
        positions
    }
}

/// The write cursor after one sub-step at elapsed time `t`.
pub open spec fn filled_next(times: Seq<u64>, next: int, t: u64) -> int
    decreases times.len() - next,
    when 0 <= next <= times.len()
{
    if next < times.len() && f64_lt(times[next], t) {
        filled_next(times, next + 1, t)
    } else {
        next
    }
}

/// The kinematic state of one ball in flight, in baseball coordinates (feet,
/// seconds; +y downrange), with its recording and strike-zone capture slots.
#[derive(Debug, Clone, PartialEq)]
pub struct BaseballFlightState {
    /// Position of the ball's center, feet.
    pub translation: DVec3Bits,
    /// Velocity, feet per second.
    pub v: DVec3Bits,
    /// Angular velocity: magnitude is the spin rate (radians per second),
    /// direction the spin axis by the right-hand rule.
    pub spin: DVec3Bits,
    /// The 108 world-oriented seam points relative to the ball's center,
    /// re-rotated about the spin axis every sub-step.
    pub seams: Vec<DVec3Bits>,
    /// Seconds since aerodynamics activation; pinned at zero while inactive.
    pub time_elapsed: u64,
    /// Whether aerodynamic forces currently apply to this ball.
    pub active: bool,
    /// Whether position recording is on.
    pub record_on: bool,
    /// Requested sample timestamps, seconds, strictly increasing.
    pub record_times: Vec<u64>,
    /// One captured position per requested timestamp, zero until written.
    pub record_positions: Vec<DVec3Bits>,
    /// Write cursor into `record_positions`: slots below it are final.
    pub next_record_index: usize,
    /// Downrange coordinate of the front strike-zone plane, feet.
    pub strikezone_panel_front_y: u64,
    /// Downrange coordinate of the back strike-zone plane, feet.
    pub strikezone_panel_back_y: u64,
    /// Captured position closest so far to the front plane.
    pub pos_at_panel_front: DVec3Bits,
    /// Captured position closest so far to the back plane.
    pub pos_at_panel_back: DVec3Bits,
    /// Signed downrange distance of the front capture to its plane.
    pub dist_at_panel_front: u64,
    /// Signed downrange distance of the back capture to its plane.
    pub dist_at_panel_back: u64,
}

impl BaseballFlightState {
    /// Structural invariant: 108 seam points, recording slots parallel to the
    /// requested times, the write cursor in range, and the requested times
    /// strictly increasing.
    pub open spec fn wf(self) -> bool {
        self.seams@.len() == N_SEAMS && self.record_positions@.len() == self.record_times@.len()
            && self.next_record_index <= self.record_times@.len() && record_times_wf(
            self.record_times@,
        )
    }

    /// What a state fresh from `from_params` looks like, fieldwise.
    pub open spec fn fresh_from_params(
        self,
        translation: DVec3Bits,
        velocity: DVec3Bits,
        spin: DVec3Bits,
        seams: Seq<DVec3Bits>,
        record_times: Seq<u64>,
        panel_front_y: u64,
        panel_back_y: u64,
    ) -> bool {
        self.translation == translation && self.v == velocity && self.spin == spin
            && self.seams@ == seams && self.time_elapsed == 0 && self.active && !self.record_on
            && self.record_times@ == record_times && self.record_positions@ == Seq::new(
            record_times.len(),
            |i: int| DVec3Bits { x: 0, y: 0, z: 0 },
        ) && self.next_record_index == 0 && self.strikezone_panel_front_y == panel_front_y
            && self.strikezone_panel_back_y == panel_back_y && self.pos_at_panel_front == (DVec3Bits {
            x: 0,
            y: 0,
            z: 0,
        }) && self.pos_at_panel_back == (DVec3Bits { x: 0, y: 0, z: 0 })
            && self.dist_at_panel_front == f64_neg(panel_front_y) && self.dist_at_panel_back
            == f64_neg(panel_back_y)
    }

    /// Builds the state at the moment aerodynamics turns on: the ball's
    /// kinematics and world-oriented seam points, flight clock at zero, every
    /// recording slot zeroed, and the strike-zone captures primed with the
    /// zero position (whose distance to a plane at `p` is exactly `-p`).
    ///
    /// The seam points arrive already generated and oriented; producing them
    /// from the seam curve and the orientation angles is the adapter's
    /// rounding float work.
    pub fn from_params(
        translation: DVec3Bits,
        velocity: DVec3Bits,
        spin: DVec3Bits,
        seams: Vec<DVec3Bits>,
        record_times: Vec<u64>,
        strikezone_panel_front_y: u64,
        strikezone_panel_back_y: u64,
    ) -> (s: Self)
        requires
            seams@.len() == N_SEAMS,
            record_times_wf(record_times@),
        ensures
            s.wf(),
            s.fresh_from_params(
                translation,
                velocity,
                spin,
                seams@,
                record_times@,
                strikezone_panel_front_y,
                strikezone_panel_back_y,
            ),
    {
        let n: usize = record_times.len();
        let mut record_positions: Vec<DVec3Bits> = Vec::new();
        let mut i: usize = 0;
        while i < n
            invariant
                i <= n,
                record_positions@ == Seq::new(i as nat, |k: int| DVec3Bits { x: 0, y: 0, z: 0 }),
            decreases n - i,
        {
            record_positions.push(DVec3Bits::zero());
            proof {
                assert(record_positions@ =~= Seq::new(
                    (i + 1) as nat,
                    |k: int| DVec3Bits { x: 0, y: 0, z: 0 },
                ));
            }
            i = i + 1;
        }
        BaseballFlightState {
            translation,
            v: velocity,
            spin,
            seams,
            time_elapsed: 0,
            active: true,
            record_on: false,
            record_times,
            record_positions,
            next_record_index: 0,
            strikezone_panel_front_y,
            strikezone_panel_back_y,
            pos_at_panel_front: DVec3Bits::zero(),
            pos_at_panel_back: DVec3Bits::zero(),
            dist_at_panel_front: neg64(strikezone_panel_front_y),
            dist_at_panel_back: neg64(strikezone_panel_back_y),
        }
    }

    /// Everything `activate` promises about the state it leaves behind,
    /// given the state it found.
    pub open spec fn activate_post(
        before: Self,
        after: Self,
        translation: DVec3Bits,
        velocity: DVec3Bits,
        spin: DVec3Bits,
        seams: Seq<DVec3Bits>,
        record_times: Seq<u64>,
        panel_front_y: u64,
        panel_back_y: u64,
    ) -> bool {
        after.active && (before.active ==> after == before) && (!before.active ==> after.wf()
            && after.fresh_from_params(
            translation,
            velocity,
            spin,
            seams,
            record_times,
            panel_front_y,
            panel_back_y,
        ))
    }

    /// Turns aerodynamics on, edge-triggered: a state that is already active
    /// passes through untouched; an inactive one is rebuilt from the
    /// parameters.  Either way the state is active afterwards, so a second
    /// activation in a row changes nothing (`lemma_activate_idempotent`).
    pub fn activate(
        &mut self,
        translation: DVec3Bits,
        velocity: DVec3Bits,
        spin: DVec3Bits,
        seams: Vec<DVec3Bits>,
        record_times: Vec<u64>,
        strikezone_panel_front_y: u64,
        strikezone_panel_back_y: u64,
    )
        requires
            seams@.len() == N_SEAMS,
            record_times_wf(record_times@),
        ensures
            Self::activate_post(
                *old(self),
                *final(self),
                translation,
                velocity,
                spin,
                seams@,
                record_times@,
                strikezone_panel_front_y,
                strikezone_panel_back_y,
            ),
    {
        if !self.active {
            *self = Self::from_params(
                translation,
                velocity,
                spin,
                seams,
                record_times,
                strikezone_panel_front_y,
                strikezone_panel_back_y,
            );
        }
    }

    /// The state after deactivation: inert, flight clock zeroed, everything
    /// else kept.
    pub open spec fn deactivate_spec(s: Self) -> Self {
        BaseballFlightState { active: false, time_elapsed: 0, ..s }
    }

    /// Turns aerodynamic forces off and zeroes the flight clock; the rest of
    /// the state is frozen as it stands.
    pub fn deactivate(&mut self)
        ensures
            *final(self) == Self::deactivate_spec(*old(self)),
    {
        self.active = false;
        self.time_elapsed = 0;
    }

    /// The stored strike-zone crossing samples `(front, back)`, in baseball
    /// coordinates; the adapter converts them to host units.
    pub fn get_pos_at_strikezone_panels_z(&self) -> (r: (DVec3Bits, DVec3Bits))
        ensures
            r == (self.pos_at_panel_front, self.pos_at_panel_back),
    {
        (self.pos_at_panel_front, self.pos_at_panel_back)
    }

    /// Applies what one fixed sub-step computed: the new flight clock, the
    /// integrated position and velocity, the rotated seam points, and the
    /// signed downrange distances of the new position to the two strike-zone
    /// planes (`translation.y - plane`, computed by the adapter).  Decides
    /// and performs all recording: slots are written in order, exactly once,
    /// at the first sub-step whose elapsed time exceeds their requested time;
    /// a strike-zone capture is replaced only by a sample inside the capture
    /// window that is strictly closer to its plane.
    pub fn apply_substep(
        &mut self,
        new_time: u64,
        new_translation: DVec3Bits,
        new_velocity: DVec3Bits,
        new_seams: Vec<DVec3Bits>,
        dist_front: u64,
        dist_back: u64,
    )
        requires
            old(self).wf(),
            old(self).active,
            new_seams@.len() == N_SEAMS,
        ensures
            final(self).wf(),
            final(self).time_elapsed == new_time,
            final(self).translation == new_translation,
            final(self).v == new_velocity,
            final(self).seams@ == new_seams@,
            final(self).spin == old(self).spin,
            final(self).active == old(self).active,
            final(self).record_on == old(self).record_on,
            final(self).record_times@ == old(self).record_times@,
            final(self).strikezone_panel_front_y == old(self).strikezone_panel_front_y,
            final(self).strikezone_panel_back_y == old(self).strikezone_panel_back_y,
            old(self).record_on ==> final(self).record_positions@ == filled_positions(
                old(self).record_times@,
                old(self).record_positions@,
                old(self).next_record_index as int,
                new_time,
                new_translation,
            ) && final(self).next_record_index as int == filled_next(
                old(self).record_times@,
                old(self).next_record_index as int,
                new_time,
            ),
            !old(self).record_on ==> final(self).record_positions@ == old(self).record_positions@
                && final(self).next_record_index == old(self).next_record_index,
            final(self).pos_at_panel_front == (if capture_takes(
                old(self).dist_at_panel_front,
                dist_front,
            ) {
                new_translation
            } else {
                old(self).pos_at_panel_front
            }),
            final(self).dist_at_panel_front == (if capture_takes(
                old(self).dist_at_panel_front,
                dist_front,
            ) {
                dist_front
            } else {
                old(self).dist_at_panel_front
            }),
            final(self).pos_at_panel_back == (if capture_takes(
                old(self).dist_at_panel_back,
                dist_back,
            ) {
                new_translation
            } else {
                old(self).pos_at_panel_back
            }),
            final(self).dist_at_panel_back == (if capture_takes(
                old(self).dist_at_panel_back,
                dist_back,
            ) {
                dist_back
            } else {
                old(self).dist_at_panel_back
            }),
    {
        self.time_elapsed = new_time;
        self.translation = new_translation;
        self.v = new_velocity;
        self.seams = new_seams;
        if self.record_on {
            let ghost times0 = self.record_times@;
            let ghost positions0 = self.record_positions@;
            let ghost next0 = self.next_record_index as int;
            let n: usize = self.record_times.len();
            while self.next_record_index < n && lt64(
                self.record_times[self.next_record_index],
                new_time,
            )
                invariant
                    self.record_times@ == times0,
                    n == times0.len(),
                    self.record_positions@.len() == times0.len(),
                    self.next_record_index <= n,
                    filled_positions(
                        times0,
                        self.record_positions@,
                        self.next_record_index as int,
                        new_time,
                        new_translation,
                    ) == filled_positions(times0, positions0, next0, new_time, new_translation),
                    filled_next(times0, self.next_record_index as int, new_time) == filled_next(
                        times0,
                        next0,
                        new_time,
                    ),
                    self.time_elapsed == new_time,
                    self.translation == new_translation,
                    self.v == new_velocity,
                    self.seams@ == new_seams@,
                    self.spin == old(self).spin,
                    self.active == old(self).active,
                    self.record_on == old(self).record_on,
                    self.strikezone_panel_front_y == old(self).strikezone_panel_front_y,
                    self.strikezone_panel_back_y == old(self).strikezone_panel_back_y,
                    self.pos_at_panel_front == old(self).pos_at_panel_front,
                    self.pos_at_panel_back == old(self).pos_at_panel_back,
                    self.dist_at_panel_front == old(self).dist_at_panel_front,
                    self.dist_at_panel_back == old(self).dist_at_panel_back,
                decreases n - self.next_record_index,
            {
                self.record_positions.set(self.next_record_index, new_translation);
                self.next_record_index = self.next_record_index + 1;
            }
        }
        let in_window_front: bool = lt64(abs64(dist_front), CAPTURE_WINDOW_BITS);
        if in_window_front && lt64(abs64(dist_front), abs64(self.dist_at_panel_front)) {
            self.pos_at_panel_front = new_translation;
            self.dist_at_panel_front = dist_front;
        }
        let in_window_back: bool = lt64(abs64(dist_back), CAPTURE_WINDOW_BITS);
        if in_window_back && lt64(abs64(dist_back), abs64(self.dist_at_panel_back)) {
            self.pos_at_panel_back = new_translation;
            self.dist_at_panel_back = dist_back;
        }
    }
}

/// What one sub-step's recording does, exactly: the write cursor never moves
/// back; slots below the old cursor keep their samples; the slots the cursor
/// passes — exactly those whose requested time lies strictly below the new
/// elapsed time — receive the sub-step's position; every slot at or past the
/// new cursor is untouched.  With the cursor only ever growing, each slot is
/// written at most once over a whole flight, at the first sub-step whose
/// elapsed time exceeds its requested time.
pub proof fn lemma_record_written_once(
    times: Seq<u64>,
    positions: Seq<DVec3Bits>,
    next: int,
    t: u64,
    pos: DVec3Bits,
)
    requires
        0 <= next <= times.len(),
        positions.len() == times.len(),
    ensures
        next <= filled_next(times, next, t) <= times.len(),
        filled_positions(times, positions, next, t, pos).len() == positions.len(),
        forall|i: int|
            0 <= i < next ==> filled_positions(times, positions, next, t, pos)[i] == positions[i],
        forall|i: int|
            next <= i < filled_next(times, next, t) ==> filled_positions(
                times,
                positions,
                next,
                t,
                pos,
            )[i] == pos && f64_lt(times[i], t),
        forall|i: int|
            filled_next(times, next, t) <= i < times.len() ==> filled_positions(
                times,
                positions,
                next,
                t,
                pos,
            )[i] == positions[i],
        filled_next(times, next, t) < times.len() ==> !f64_lt(
            times[filled_next(times, next, t)],
            t,
        ),
    decreases times.len() - next,
{
    if next < times.len() && f64_lt(times[next], t) {
        let positions2 = positions.update(next, pos);
        lemma_record_written_once(times, positions2, next + 1, t, pos);
        assert(filled_positions(times, positions, next, t, pos) == filled_positions(
            times,
            positions2,
            next + 1,
            t,
            pos,
        ));
        assert(filled_next(times, next, t) == filled_next(times, next + 1, t));
        assert forall|i: int| 0 <= i < next implies filled_positions(
            times,
            positions,
            next,
            t,
            pos,
        )[i] == positions[i] by {
            assert(positions2[i] == positions[i]);
        }
        assert forall|i: int| next <= i < filled_next(times, next, t) implies filled_positions(
            times,
            positions,
            next,
            t,
            pos,
        )[i] == pos && f64_lt(times[i], t) by {
            if i == next {
                assert(filled_positions(times, positions2, next + 1, t, pos)[next]
                    == positions2[next]);
                assert(positions2[next] == pos);
            }
        }
        assert forall|i: int|
            filled_next(times, next, t) <= i < times.len() implies filled_positions(
            times,
            positions,
            next,
            t,
            pos,
        )[i] == positions[i] by {
            assert(positions2[i] == positions[i]);
        }
    }
}

/// The recording slots and write cursor after a whole run of sub-steps, each
/// bringing an elapsed time and a position.
pub open spec fn record_fold(
    times: Seq<u64>,
    positions: Seq<DVec3Bits>,
    next: int,
    steps: Seq<(u64, DVec3Bits)>,
) -> (Seq<DVec3Bits>, int)
    decreases steps.len(),
    when 0 <= next <= times.len()
{
    if steps.len() == 0 {
        (positions, next)
    } else {
        record_fold(
            times,
            filled_positions(times, positions, next, steps[0].0, steps[0].1),
            filled_next(times, next, steps[0].0),
            steps.drop_first(),
        )
    }
}

/// A recording slot, once written, keeps its sample through every later
/// sub-step: whatever elapsed times and positions the rest of the flight
/// brings, the slots below the write cursor never change again.
pub proof fn lemma_record_slot_stable(
    times: Seq<u64>,
    positions: Seq<DVec3Bits>,
    next: int,
    steps: Seq<(u64, DVec3Bits)>,
)
    requires
        0 <= next <= times.len(),
        positions.len() == times.len(),
    ensures
        next <= record_fold(times, positions, next, steps).1 <= times.len(),
        record_fold(times, positions, next, steps).0.len() == positions.len(),
        forall|i: int|
            0 <= i < next ==> record_fold(times, positions, next, steps).0[i] == positions[i],
    decreases steps.len(),
{
    if steps.len() > 0 {
        lemma_record_written_once(times, positions, next, steps[0].0, steps[0].1);
        lemma_record_slot_stable(
            times,
            filled_positions(times, positions, next, steps[0].0, steps[0].1),
            filled_next(times, next, steps[0].0),
            steps.drop_first(),
        );
    }
}

/// A strike-zone capture slot after a whole run of samples, each bringing a
/// signed distance to the plane and the position it was measured at.
pub open spec fn capture_fold(
    pos0: DVec3Bits,
    dist0: u64,
    samples: Seq<(u64, DVec3Bits)>,
) -> (DVec3Bits, u64)
    decreases samples.len(),
{
    if samples.len() == 0 {
        (pos0, dist0)
    } else {
        let taken = capture_takes(dist0, samples[0].0);
        capture_fold(
            if taken {
                samples[0].1
            } else {
                pos0
            },
            if taken {
                samples[0].0
            } else {
                dist0
            },
            samples.drop_first(),
        )
    }
}

/// Once a capture slot holds a sample at least as close to its plane as
/// every later sample, no later sample overwrites it.
pub proof fn lemma_capture_idempotent(pos0: DVec3Bits, dist0: u64, samples: Seq<(u64, DVec3Bits)>)
    requires
        forall|i: int|
            0 <= i < samples.len() ==> !f64_lt(f64_abs(#[trigger] samples[i].0), f64_abs(dist0)),
    ensures
        capture_fold(pos0, dist0, samples) == (pos0, dist0),
    decreases samples.len(),
{
    if samples.len() > 0 {
        assert(!capture_takes(dist0, samples[0].0));
        assert(forall|i: int|
            0 <= i < samples.drop_first().len() ==> samples.drop_first()[i] == samples[i + 1]);
        lemma_capture_idempotent(pos0, dist0, samples.drop_first());
    }
}

/// Deactivation is idempotent: deactivating twice in a row leaves exactly
/// the state one deactivation leaves.
pub proof fn lemma_deactivate_idempotent(s: BaseballFlightState)
    ensures
        BaseballFlightState::deactivate_spec(BaseballFlightState::deactivate_spec(s))
            == BaseballFlightState::deactivate_spec(s),
{
}

/// Activation is idempotent: whatever two consecutive `activate` calls with
/// the same parameters and no intervening deactivation do — `after_one`
/// satisfying the contract from `before`, `after_two` satisfying it from
/// `after_one` — the second call changes nothing.
pub proof fn lemma_activate_idempotent(
    before: BaseballFlightState,
    after_one: BaseballFlightState,
    after_two: BaseballFlightState,
    translation: DVec3Bits,
    velocity: DVec3Bits,
    spin: DVec3Bits,
    seams: Seq<DVec3Bits>,
    record_times: Seq<u64>,
    panel_front_y: u64,
    panel_back_y: u64,
)
    requires
        BaseballFlightState::activate_post(
            before,
            after_one,
            translation,
            velocity,
            spin,
            seams,
            record_times,
            panel_front_y,
            panel_back_y,
        ),
        BaseballFlightState::activate_post(
            after_one,
            after_two,
            translation,
            velocity,
            spin,
            seams,
            record_times,
            panel_front_y,
            panel_back_y,
        ),
    ensures
        after_two == after_one,
{
}

/// The verified transitions are bit-for-bit deterministic: two states that
/// agree on the recording and capture fields give, for the same sub-step
/// inputs, the same recording and capture results.  With every transition's
/// postcondition pinning the new state exactly, an identical initial state
/// and an identical input sequence reproduce the identical trajectory state.
pub proof fn lemma_substep_deterministic(
    a: BaseballFlightState,
    b: BaseballFlightState,
    new_time: u64,
    new_translation: DVec3Bits,
    dist_front: u64,
    dist_back: u64,
)
    requires
        a.record_times@ == b.record_times@,
        a.record_positions@ == b.record_positions@,
        a.next_record_index == b.next_record_index,
        a.next_record_index <= a.record_times@.len(),
        a.dist_at_panel_front == b.dist_at_panel_front,
        a.dist_at_panel_back == b.dist_at_panel_back,
    ensures
        filled_positions(
            a.record_times@,
            a.record_positions@,
            a.next_record_index as int,
            new_time,
            new_translation,
        ) == filled_positions(
            b.record_times@,
            b.record_positions@,
            b.next_record_index as int,
            new_time,
            new_translation,
        ),
        filled_next(a.record_times@, a.next_record_index as int, new_time) == filled_next(
            b.record_times@,
            b.next_record_index as int,
            new_time,
        ),
        capture_takes(a.dist_at_panel_front, dist_front) == capture_takes(
            b.dist_at_panel_front,
            dist_front,
        ),
        capture_takes(a.dist_at_panel_back, dist_back) == capture_takes(
            b.dist_at_panel_back,
            dist_back,
        ),
{
}

} // verus!
