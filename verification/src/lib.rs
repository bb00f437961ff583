//! Single-step feedback controller for a closed-loop vasopressor infusion
//! device.
//!
//! Each call to [`safety_step`] takes the controller's dosing limits and an
//! optional fresh sample from the upstream estimator, and produces a commanded
//! infusion rate under hard safety limits: the rate stays inside
//! `[min_rate, max_rate]`, moves by at most `max_delta` per step, and falls
//! back to a pre-configured safe rate whenever the sample is missing or
//! untrustworthy.
//!
//! All quantities are fixed-point numbers: an `i64` counts millionths of the
//! physical unit (mcg/kg/min for rates, mmHg for pressures, and a pure
//! fraction for confidence and risk scores), so that [`FIXED_ONE`] stands for
//! 1.0. A measurement that the sensor path could not produce as a finite
//! number arrives as [`Reading::NonFinite`].

use vstd::prelude::*;

verus! {

/// Fixed-point representation of 1.0: all quantities count millionths.
pub const FIXED_ONE: i64 = 1_000_000;

/// Lowest confidence score (inclusive) at which a sample is trusted: 0.5.
pub const MIN_CONFIDENCE: i64 = 500_000;

/// Highest confidence score (inclusive) at which a sample is trusted: 1.0.
pub const MAX_CONFIDENCE: i64 = FIXED_ONE;

/// One measured quantity: either a finite fixed-point value, or the marker
/// that the measurement was not a finite number and must never be trusted.
#[derive(Clone, Copy, Debug, PartialEq, Eq, Structural)]
pub enum Reading {
    /// A finite measurement, in millionths of its physical unit.
    Finite(i64),
    /// A measurement that was not a finite number.
    NonFinite,
}

impl Reading {
    /// True exactly when the reading carries a finite value.
    pub fn is_finite(&self) -> (r: bool)
        ensures
            r == (*self is Finite),
    {
        match self {
            Reading::Finite(_) => true,
            Reading::NonFinite => false,
        }
    }
}

/// The controller's persistent state and its hard safety configuration.
///
/// `current_rate` is the only field a step mutates. The configuration
/// invariants (`min_rate <= max_rate`, `0 <= max_delta`,
/// `min_rate <= fallback_rate <= max_rate`) are the caller's responsibility:
/// `safety_step` does not validate them, it only promises its exact clamp
/// behaviour whatever they are.
#[derive(Clone, Copy, Debug, PartialEq, Eq, Structural)]
pub struct DosingLimits {
    /// The rate commanded by the last tracking step, in millionths of
    /// mcg/kg/min; the controller's only carried state.
    pub current_rate: i64,
    /// Hard lower bound on the commanded rate.
    pub min_rate: i64,
    /// Hard upper bound on the commanded rate.
    pub max_rate: i64,
    /// Largest magnitude of change allowed per step.
    pub max_delta: i64,
    /// Rate commanded whenever the sample is missing or untrustworthy.
    pub fallback_rate: i64,
}

/// One sample from the upstream estimator; validated, never trusted as given.
#[derive(Clone, Copy, Debug, PartialEq, Eq, Structural)]
pub struct ControlInputs {
    /// Predicted mean arterial pressure, in millionths of mmHg.
    pub predicted_map_mmhg: Reading,
    /// Informational hypotension risk score; carried but not consulted by the
    /// control law.
    pub hypotension_risk: Reading,
    /// The estimator's confidence in its prediction, nominally in [0, 1].
    pub confidence: Reading,
    /// Clinician-set target mean arterial pressure, in millionths of mmHg.
    pub clinician_target_map_mmhg: Reading,
}

/// What one step commands: a rate for the actuator and the two alarm signals.
#[derive(Clone, Copy, Debug, PartialEq, Eq, Structural)]
pub struct ControlOutput {
    /// The rate the actuator should apply, in millionths of mcg/kg/min.
    pub commanded_rate: i64,
    /// True when the fallback rate was commanded instead of computed control.
    pub use_fallback_profile: bool,
    /// True when a clinically significant event (missing or invalid sample)
    /// occurred.
    pub trigger_alarm: bool,
}

impl Default for ControlOutput {
    fn default() -> (r: ControlOutput)
        ensures
            r.commanded_rate == 0,
            !r.use_fallback_profile,
            !r.trigger_alarm,
    {
        ControlOutput { commanded_rate: 0, use_fallback_profile: false, trigger_alarm: false }
    }
}

/// The nearest value to `v` that an `i64` can hold.
pub open spec fn sat_i64(v: int) -> int {
    if v > i64::MAX as int {
        i64::MAX as int
    } else if v < i64::MIN as int {
        i64::MIN as int
    } else {
        v
    }
}

/// Clamp in the controller's fixed order: first cap at the ceiling `max`,
/// then floor at `min`. When `min > max` (a caller misconfiguration) the
/// result is therefore `min`.
pub open spec fn clamp_spec(value: int, min: int, max: int) -> int {
    let capped = if value > max {
        max
    } else {
        value
    };
    if capped < min {
        min
    } else {
        capped
    }
}

/// Saturating fixed-point addition.
fn saturating_add(a: i64, b: i64) -> (r: i64)
    ensures
        r == sat_i64(a + b),
{
    if b >= 0 {
        if a <= i64::MAX - b {
            a + b
        } else {
            i64::MAX
        }
    } else {
        if a >= i64::MIN - b {
            a + b
        } else {
            i64::MIN
        }
    }
}

/// Saturating fixed-point subtraction.
fn saturating_sub(a: i64, b: i64) -> (r: i64)
    ensures
        r == sat_i64(a - b),
{
    if b >= 0 {
        if a >= i64::MIN + b {
            a - b
        } else {
            i64::MIN
        }
    } else {
        if a <= i64::MAX + b {
            a - b
        } else {
            i64::MAX
        }
    }
}

/// Clamp `value` to `[min, max]`, capping at the ceiling first.
fn clamp(value: i64, min: i64, max: i64) -> (r: i64)
    ensures
        r == clamp_spec(value as int, min as int, max as int),
{
    let capped: i64 = if value > max {
        max
    } else {
        value
    };
    if capped < min {
        min
    } else {
        capped
    }
}

/// A sample is trusted exactly when its confidence is a finite score in
/// `[MIN_CONFIDENCE, MAX_CONFIDENCE]` (both ends inclusive) and both pressure
/// readings are finite. The risk score is never consulted.
pub open spec fn input_trusted(data: ControlInputs) -> bool {
    &&& data.confidence matches Reading::Finite(c) && MIN_CONFIDENCE <= c <= MAX_CONFIDENCE
    &&& data.predicted_map_mmhg is Finite
    &&& data.clinician_target_map_mmhg is Finite
}

/// The rate a trusted tracking step persists: one full increment of
/// `max_delta` toward the target (up when the predicted pressure is below
/// the target, down otherwise), saturated at the machine range and clamped
/// to `[min_rate, max_rate]` ceiling-first.
pub open spec fn tracking_rate(limits: DosingLimits, data: ControlInputs) -> int
    recommends
        input_trusted(data),
{
    let adjusted = if data.predicted_map_mmhg->0 < data.clinician_target_map_mmhg->0 {
        sat_i64(limits.current_rate + limits.max_delta)
    } else {
        sat_i64(limits.current_rate - limits.max_delta)
    };
    clamp_spec(adjusted, limits.min_rate as int, limits.max_rate as int)
}

/// The output of a step that could not trust its sample: the fallback rate,
/// with both signals raised.
pub open spec fn fallback_output(limits: DosingLimits) -> ControlOutput {
    ControlOutput {
        commanded_rate: limits.fallback_rate,
        use_fallback_profile: true,
        trigger_alarm: true,
    }
}

/// The complete step as a mathematical function: the new limits and the
/// output produced from the old limits and the optional sample.
pub open spec fn step_spec(limits: DosingLimits, inputs: Option<ControlInputs>) -> (
    DosingLimits,
    ControlOutput,
) {
    match inputs {
        Option::None => (limits, fallback_output(limits)),
        Option::Some(data) => if !input_trusted(data) {
            (limits, fallback_output(limits))
        } else {
            let new_rate = tracking_rate(limits, data) as i64;
            (
                DosingLimits { current_rate: new_rate, ..limits },
                ControlOutput {
                    commanded_rate: new_rate,
                    use_fallback_profile: false,
                    trigger_alarm: false,
                },
            )
        },
    }
}

/// The optional sample as a value, for stating contracts over `step_spec`.
pub open spec fn sample_of(inputs: Option<&ControlInputs>) -> Option<ControlInputs> {
    match inputs {
        Option::Some(data) => Option::Some(*data),
        Option::None => Option::None,
    }
}

/// True exactly when `data` may drive the control law.
fn input_is_trusted(data: &ControlInputs) -> (r: bool)
    ensures
        r == input_trusted(*data),
{
    let confidence_ok = match data.confidence {
        Reading::Finite(c) => MIN_CONFIDENCE <= c && c <= MAX_CONFIDENCE,
        Reading::NonFinite => false,
    };
    confidence_ok && data.predicted_map_mmhg.is_finite()
        && data.clinician_target_map_mmhg.is_finite()
}

/// One control step.
///
/// With no sample, or a sample that cannot be trusted, the fallback rate is
/// commanded with both signals raised and `limits` is left unchanged. With a
/// trusted sample the rate moves by exactly `max_delta` toward the target,
/// is clamped to `[min_rate, max_rate]` ceiling-first, persisted into
/// `limits.current_rate` and commanded with both signals low. The function
/// never panics, whatever the configuration holds.
pub fn safety_step(limits: &mut DosingLimits, inputs: Option<&ControlInputs>) -> (output:
    ControlOutput)
    ensures
        (*final(limits), output) == step_spec(*old(limits), sample_of(inputs)),
        inputs matches Some(data) ==> input_trusted(*data) ==> {
            &&& final(limits).current_rate == tracking_rate(*old(limits), *data)
            &&& final(limits).min_rate == old(limits).min_rate
            &&& final(limits).max_rate == old(limits).max_rate
            &&& final(limits).max_delta == old(limits).max_delta
            &&& final(limits).fallback_rate == old(limits).fallback_rate
            &&& output.commanded_rate == final(limits).current_rate
            &&& !output.use_fallback_profile
            &&& !output.trigger_alarm
        },
        inputs is None ==> *final(limits) == *old(limits) && output == fallback_output(
            *old(limits),
        ),
        inputs matches Some(data) ==> !input_trusted(*data) ==> *final(limits) == *old(limits)
            && output == fallback_output(*old(limits)),
        old(limits).min_rate <= old(limits).max_rate && !output.use_fallback_profile
            ==> old(limits).min_rate <= output.commanded_rate <= old(limits).max_rate,
{
    match inputs {
        None => ControlOutput {
            commanded_rate: limits.fallback_rate,
            use_fallback_profile: true,
            trigger_alarm: true,
        },
        Some(data) => {
            if !input_is_trusted(data) {
                ControlOutput {
                    commanded_rate: limits.fallback_rate,
                    use_fallback_profile: true,
                    trigger_alarm: true,
                }
            } else {
                let below_target: bool = match (data.predicted_map_mmhg, data.clinician_target_map_mmhg) {
                    (Reading::Finite(p), Reading::Finite(t)) => p < t,
                    _ => vstd::pervasive::unreached(),
                };
                let adjusted: i64 = if below_target {
                    saturating_add(limits.current_rate, limits.max_delta)
                } else {
                    saturating_sub(limits.current_rate, limits.max_delta)
                };
                let new_rate: i64 = clamp(adjusted, limits.min_rate, limits.max_rate);
                limits.current_rate = new_rate;
                ControlOutput {
                    commanded_rate: new_rate,
                    use_fallback_profile: false,
                    trigger_alarm: false,
                }
            }
        },
    }
}

/// Law: a trusted step is exact bang-bang tracking. Whenever the adjusted
/// rate fits the machine range, the persisted rate equals
/// `clamp(current_rate + max_delta)` when the predicted pressure is below
/// the target, and `clamp(current_rate - max_delta)` otherwise.
pub proof fn lemma_bang_bang_tracking(limits: DosingLimits, data: ControlInputs)
    requires
        input_trusted(data),
        i64::MIN <= limits.current_rate + limits.max_delta <= i64::MAX,
        i64::MIN <= limits.current_rate - limits.max_delta <= i64::MAX,
    ensures
        data.predicted_map_mmhg->0 < data.clinician_target_map_mmhg->0 ==> step_spec(
            limits,
            Some(data),
        ).0.current_rate == clamp_spec(
            limits.current_rate + limits.max_delta,
            limits.min_rate as int,
            limits.max_rate as int,
        ),
        data.predicted_map_mmhg->0 >= data.clinician_target_map_mmhg->0 ==> step_spec(
            limits,
            Some(data),
        ).0.current_rate == clamp_spec(
            limits.current_rate - limits.max_delta,
            limits.min_rate as int,
            limits.max_rate as int,
        ),
{
}

/// Law: under a well-formed bound pair, every non-fallback output commands a
/// rate inside `[min_rate, max_rate]`.
pub proof fn lemma_tracking_within_limits(limits: DosingLimits, data: ControlInputs)
    requires
        limits.min_rate <= limits.max_rate,
        input_trusted(data),
    ensures
        !step_spec(limits, Some(data)).1.use_fallback_profile,
        limits.min_rate <= step_spec(limits, Some(data)).1.commanded_rate <= limits.max_rate,
{
}

/// Law: two consecutive trusted below-target steps accumulate two full
/// increments while the ceiling is not yet reached.
pub proof fn lemma_two_trusted_steps_accumulate(limits: DosingLimits, data: ControlInputs)
    requires
        input_trusted(data),
        data.predicted_map_mmhg->0 < data.clinician_target_map_mmhg->0,
        0 <= limits.max_delta,
        limits.min_rate <= limits.current_rate,
        limits.current_rate + 2 * limits.max_delta <= limits.max_rate,
    ensures
        step_spec(limits, Some(data)).0.current_rate == limits.current_rate + limits.max_delta,
        step_spec(step_spec(limits, Some(data)).0, Some(data)).0.current_rate
            == limits.current_rate + 2 * limits.max_delta,
{
}

/// Law: a step without a trustworthy sample never writes state, so repeating
/// it changes nothing and commands the same output again.
pub proof fn lemma_fallback_is_idempotent(limits: DosingLimits, inputs: Option<ControlInputs>)
    requires
        inputs matches Some(data) ==> !input_trusted(data),
    ensures
        step_spec(limits, inputs).0 == limits,
        step_spec(step_spec(limits, inputs).0, inputs) == step_spec(limits, inputs),
{
}

/// Law: a sample whose confidence is non-finite, below `MIN_CONFIDENCE` or
/// above `MAX_CONFIDENCE`, or whose predicted or target pressure is
/// non-finite, is never trusted: the step leaves the limits unchanged and
/// commands the fallback rate with both signals raised.
pub proof fn lemma_untrusted_sample_falls_back(limits: DosingLimits, data: ControlInputs)
    requires
        ({
            ||| !(data.confidence is Finite)
            ||| data.confidence matches Reading::Finite(c) && c < MIN_CONFIDENCE
            ||| data.confidence matches Reading::Finite(c) && c > MAX_CONFIDENCE
            ||| !(data.predicted_map_mmhg is Finite)
            ||| !(data.clinician_target_map_mmhg is Finite)
        }),
    ensures
        !input_trusted(data),
        step_spec(limits, Some(data)) == (limits, fallback_output(limits)),
{
}

} // verus!
