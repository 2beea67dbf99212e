//! Laws of replays: what holds of the directions that a detection stage or a
//! whole pipeline gives over a sequence of ticks.
//!
//! The energies of a raw measurement and the angle of two energies are found
//! outside this library. The laws take them as functions: `energy_of`, from
//! what the smoothing window holds to the two energies, and `angle_of`, from
//! the vertical and the horizontal energy to their angle.

use crate::analysis::AnalysisState;
use crate::detection::DetectionState;
use crate::quantile::lemma_quantile_of_constant;
use crate::window::{holds_only, lemma_pushed_repeatedly_fills, pushed_repeatedly, repeated};
use vstd::prelude::*;

verus! {

/// `count` ticks' worth of the same pair of energies.
pub open spec fn sustained(x: i32, y: i32, count: nat) -> Seq<(i32, i32)> {
    repeated((x, y), count)
}

/// Replaying inputs keeps a stage well-formed and its thresholds as they
/// were, and gives one direction per input.
pub proof fn lemma_after_keeps_configuration(
    state: DetectionState,
    inputs: Seq<(i32, i32)>,
    angle_of: spec_fn(i32, i32) -> i32,
)
    requires
        state.wf(),
    ensures
        state.after(inputs, angle_of).wf(),
        state.after(inputs, angle_of).window_size == state.window_size,
        state.after(inputs, angle_of).acceleration_threshold == state.acceleration_threshold,
        state.after(inputs, angle_of).angle_low_threshold == state.angle_low_threshold,
        state.after(inputs, angle_of).angle_high_threshold == state.angle_high_threshold,
        state.replay(inputs, angle_of).len() == inputs.len(),
    decreases inputs.len(),
{
    if inputs.len() > 0 {
        lemma_after_keeps_configuration(state, inputs.drop_last(), angle_of);
        let before = state.after(inputs.drop_last(), angle_of);
    }
}

/// A replay is determined by the windows, the thresholds, the inputs and the
/// angles. Two stages that differ at most in the direction they gave last
/// give the same directions for the same inputs, and end with the same
/// windows; once a tick has passed they are the same stage.
pub proof fn lemma_replay_is_determined(
    a: DetectionState,
    b: DetectionState,
    inputs: Seq<(i32, i32)>,
    angle_of: spec_fn(i32, i32) -> i32,
)
    requires
        a.with_direction(None) == b.with_direction(None),
    ensures
        a.replay(inputs, angle_of) == b.replay(inputs, angle_of),
        a.after(inputs, angle_of).with_direction(None) == b.after(inputs, angle_of).with_direction(
            None,
        ),
        inputs.len() > 0 ==> a.after(inputs, angle_of) == b.after(inputs, angle_of),
    decreases inputs.len(),
{
    if inputs.len() > 0 {
        lemma_replay_is_determined(a, b, inputs.drop_last(), angle_of);
    }
}

/// The windows of a stage after the same pair of energies has been given
/// `count` times.
pub proof fn lemma_after_sustained(
    state: DetectionState,
    x: i32,
    y: i32,
    count: nat,
    angle_of: spec_fn(i32, i32) -> i32,
)
    ensures
        state.after(sustained(x, y, count), angle_of).window_size == state.window_size,
        state.after(sustained(x, y, count), angle_of).horizontal == pushed_repeatedly(
            state.horizontal,
            state.window_size,
            x,
            count,
        ),
        state.after(sustained(x, y, count), angle_of).vertical == pushed_repeatedly(
            state.vertical,
            state.window_size,
            y,
            count,
        ),
    decreases count,
{
    if count > 0 {
        lemma_after_sustained(state, x, y, (count - 1) as nat, angle_of);
        assert(sustained(x, y, count).drop_last() =~= sustained(x, y, (count - 1) as nat));
    }
}

/// Once a pair of energies has been sustained for as many ticks as the
/// windows are long, the windows hold nothing else, the denoised energies are
/// that pair, and the direction is the one of that pair.
pub proof fn lemma_sustained_input_settles(
    state: DetectionState,
    x: i32,
    y: i32,
    count: nat,
    angle_of: spec_fn(i32, i32) -> i32,
)
    requires
        state.wf(),
        count >= state.window_size,
    ensures
        state.after(sustained(x, y, count), angle_of).horizontal == repeated(x, state.window_size),
        state.after(sustained(x, y, count), angle_of).vertical == repeated(y, state.window_size),
        state.after(sustained(x, y, count), angle_of).denoised() == (x, y),
        state.replay(sustained(x, y, count), angle_of).last() == state.direction(
            x,
            y,
            angle_of(y, x),
        ),
{
    let inputs = sustained(x, y, count);
    let end = state.after(inputs, angle_of);
    lemma_after_sustained(state, x, y, count, angle_of);
    lemma_pushed_repeatedly_fills(state.horizontal, state.window_size, x, count);
    lemma_pushed_repeatedly_fills(state.vertical, state.window_size, y, count);
    lemma_quantile_of_constant(end.horizontal, x);
    lemma_quantile_of_constant(end.vertical, y);
    lemma_after_keeps_configuration(state, inputs.drop_last(), angle_of);
}

/// A stage with a positive acceleration threshold that is given nothing but
/// zero energies for as many ticks as its windows are long ends with zero
/// denoised energies and reports no movement.
pub proof fn lemma_zero_input_is_no_movement(
    state: DetectionState,
    count: nat,
    angle_of: spec_fn(i32, i32) -> i32,
)
    requires
        state.wf(),
        state.acceleration_threshold > 0,
        count >= state.window_size,
    ensures
        state.after(sustained(0, 0, count), angle_of).denoised() == (0i32, 0i32),
        state.replay(sustained(0, 0, count), angle_of).last() is None,
{
    lemma_sustained_input_settles(state, 0, 0, count, angle_of);
}

/// Replaying inputs keeps a pipeline well-formed and its configuration as it
/// was, and gives one direction per input.
pub proof fn lemma_after_keeps_pipeline<V>(
    state: AnalysisState<V>,
    inputs: Seq<V>,
    energy_of: spec_fn(Seq<V>) -> (i32, i32),
    angle_of: spec_fn(i32, i32) -> i32,
)
    requires
        state.wf(),
    ensures
        state.after(inputs, energy_of, angle_of).wf(),
        state.after(inputs, energy_of, angle_of).smoothing_window_size
            == state.smoothing_window_size,
        state.after(inputs, energy_of, angle_of).detection.window_size
            == state.detection.window_size,
        state.after(inputs, energy_of, angle_of).detection.acceleration_threshold
            == state.detection.acceleration_threshold,
        state.after(inputs, energy_of, angle_of).detection.angle_low_threshold
            == state.detection.angle_low_threshold,
        state.after(inputs, energy_of, angle_of).detection.angle_high_threshold
            == state.detection.angle_high_threshold,
        state.replay(inputs, energy_of, angle_of).len() == inputs.len(),
        inputs.len() > 0 ==> state.after(inputs, energy_of, angle_of).smoothing.len() > 0,
    decreases inputs.len(),
{
    if inputs.len() > 0 {
        lemma_after_keeps_pipeline(state, inputs.drop_last(), energy_of, angle_of);
        let before = state.after(inputs.drop_last(), energy_of, angle_of);
        let energies = energy_of(before.smoothing_with(inputs.last()));
        lemma_after_keeps_configuration(before.detection, seq![energies], angle_of);
    }
}

/// A replay is determined by the configuration, the windows, the inputs and
/// the two functions for energies and angles: two pipelines that differ at
/// most in the direction they gave last give the same directions for the
/// same inputs. Two pipelines made alike are the same pipeline, so they do.
pub proof fn lemma_pipeline_replay_is_determined<V>(
    a: AnalysisState<V>,
    b: AnalysisState<V>,
    inputs: Seq<V>,
    energy_of: spec_fn(Seq<V>) -> (i32, i32),
    angle_of: spec_fn(i32, i32) -> i32,
)
    requires
        a.smoothing == b.smoothing,
        a.smoothing_window_size == b.smoothing_window_size,
        a.detection.with_direction(None) == b.detection.with_direction(None),
    ensures
        a.replay(inputs, energy_of, angle_of) == b.replay(inputs, energy_of, angle_of),
        a.after(inputs, energy_of, angle_of).smoothing == b.after(
            inputs,
            energy_of,
            angle_of,
        ).smoothing,
        a.after(inputs, energy_of, angle_of).smoothing_window_size == b.after(
            inputs,
            energy_of,
            angle_of,
        ).smoothing_window_size,
        a.after(inputs, energy_of, angle_of).detection.with_direction(None) == b.after(
            inputs,
            energy_of,
            angle_of,
        ).detection.with_direction(None),
        inputs.len() > 0 ==> a.after(inputs, energy_of, angle_of) == b.after(
            inputs,
            energy_of,
            angle_of,
        ),
    decreases inputs.len(),
{
    if inputs.len() > 0 {
        lemma_pipeline_replay_is_determined(a, b, inputs.drop_last(), energy_of, angle_of);
        let a_before = a.after(inputs.drop_last(), energy_of, angle_of);
        let b_before = b.after(inputs.drop_last(), energy_of, angle_of);
        let energies = energy_of(a_before.smoothing_with(inputs.last()));
        lemma_replay_is_determined(
            a_before.detection,
            b_before.detection,
            seq![energies],
            angle_of,
        );
    }
}

/// A pipeline with a positive acceleration threshold that is fed nothing but
/// one measurement since it was made, for which `energy_of` finds no energy
/// in a window that holds nothing else, never has energy in its windows and
/// reports no movement at every tick.
pub proof fn lemma_still_input_is_no_movement<V>(
    state: AnalysisState<V>,
    still: V,
    count: nat,
    energy_of: spec_fn(Seq<V>) -> (i32, i32),
    angle_of: spec_fn(i32, i32) -> i32,
)
    requires
        state.wf(),
        state.smoothing.len() == 0,
        state.detection.horizontal.len() == 0,
        state.detection.acceleration_threshold > 0,
        forall|window: Seq<V>|
            window.len() > 0 && holds_only(window, still) ==> #[trigger] energy_of(window) == (
                0i32,
                0i32,
            ),
    ensures
        holds_only(state.after(repeated(still, count), energy_of, angle_of).smoothing, still),
        holds_only(
            state.after(repeated(still, count), energy_of, angle_of).detection.horizontal,
            0i32,
        ),
        holds_only(
            state.after(repeated(still, count), energy_of, angle_of).detection.vertical,
            0i32,
        ),
        count > 0 ==> state.after(repeated(still, count), energy_of, angle_of).detection.denoised()
            == (0i32, 0i32),
        forall|i: int|
            0 <= i < count ==> #[trigger] state.replay(
                repeated(still, count),
                energy_of,
                angle_of,
            )[i] is None,
    decreases count,
{
    if count > 0 {
        let shorter = repeated(still, (count - 1) as nat);
        assert(repeated(still, count).drop_last() =~= shorter);
        lemma_still_input_is_no_movement(state, still, (count - 1) as nat, energy_of, angle_of);
        lemma_after_keeps_pipeline(state, shorter, energy_of, angle_of);
        let detection = state.after(shorter, energy_of, angle_of).detection.with_measurement(0, 0);
        lemma_quantile_of_constant(detection.horizontal, 0);
        lemma_quantile_of_constant(detection.vertical, 0);
    }
}

/// The smoothing window after the same measurement has come in `count`
/// times.
proof fn lemma_smoothing_after_repeated<V>(
    state: AnalysisState<V>,
    still: V,
    count: nat,
    energy_of: spec_fn(Seq<V>) -> (i32, i32),
    angle_of: spec_fn(i32, i32) -> i32,
)
    ensures
        state.after(repeated(still, count), energy_of, angle_of).smoothing == pushed_repeatedly(
            state.smoothing,
            state.smoothing_window_size,
            still,
            count,
        ),
        state.after(repeated(still, count), energy_of, angle_of).smoothing_window_size
            == state.smoothing_window_size,
    decreases count,
{
    if count > 0 {
        lemma_smoothing_after_repeated(state, still, (count - 1) as nat, energy_of, angle_of);
        assert(repeated(still, count).drop_last() =~= repeated(still, (count - 1) as nat));
    }
}

/// Once the smoothing window holds nothing but a measurement without energy,
/// each further tick with that measurement pushes zero energies into the
/// detection windows.
proof fn lemma_detection_after_still<V>(
    state: AnalysisState<V>,
    still: V,
    lead: nat,
    quiet: nat,
    energy_of: spec_fn(Seq<V>) -> (i32, i32),
    angle_of: spec_fn(i32, i32) -> i32,
)
    requires
        state.wf(),
        lead + 1 >= state.smoothing_window_size,
        forall|window: Seq<V>|
            window.len() > 0 && holds_only(window, still) ==> #[trigger] energy_of(window) == (
                0i32,
                0i32,
            ),
    ensures
        state.after(repeated(still, lead + quiet), energy_of, angle_of).detection.horizontal
            == pushed_repeatedly(
            state.after(repeated(still, lead), energy_of, angle_of).detection.horizontal,
            state.detection.window_size,
            0i32,
            quiet,
        ),
        state.after(repeated(still, lead + quiet), energy_of, angle_of).detection.vertical
            == pushed_repeatedly(
            state.after(repeated(still, lead), energy_of, angle_of).detection.vertical,
            state.detection.window_size,
            0i32,
            quiet,
        ),
    decreases quiet,
{
    if quiet > 0 {
        let earlier = (lead + quiet - 1) as nat;
        lemma_detection_after_still(state, still, lead, (quiet - 1) as nat, energy_of, angle_of);
        assert(repeated(still, lead + quiet).drop_last() =~= repeated(still, earlier));
        lemma_after_keeps_pipeline(state, repeated(still, earlier), energy_of, angle_of);
        lemma_smoothing_after_repeated(state, still, lead + quiet, energy_of, angle_of);
        lemma_pushed_repeatedly_fills(
            state.smoothing,
            state.smoothing_window_size,
            still,
            lead + quiet,
        );
    }
}

/// From whatever state: once a measurement without energy has been sustained
/// for one tick less than the two windows are long together, the detection
/// windows hold no energy, the denoised energies are zero, and a pipeline
/// with a positive acceleration threshold reports no movement.
pub proof fn lemma_still_input_settles<V>(
    state: AnalysisState<V>,
    still: V,
    count: nat,
    energy_of: spec_fn(Seq<V>) -> (i32, i32),
    angle_of: spec_fn(i32, i32) -> i32,
)
    requires
        state.wf(),
        state.detection.acceleration_threshold > 0,
        count + 1 >= state.smoothing_window_size + state.detection.window_size,
        forall|window: Seq<V>|
            window.len() > 0 && holds_only(window, still) ==> #[trigger] energy_of(window) == (
                0i32,
                0i32,
            ),
    ensures
        state.after(repeated(still, count), energy_of, angle_of).smoothing == repeated(
            still,
            state.smoothing_window_size,
        ),
        state.after(repeated(still, count), energy_of, angle_of).detection.horizontal == repeated(
            0i32,
            state.detection.window_size,
        ),
        state.after(repeated(still, count), energy_of, angle_of).detection.vertical == repeated(
            0i32,
            state.detection.window_size,
        ),
        state.after(repeated(still, count), energy_of, angle_of).detection.denoised() == (
            0i32,
            0i32,
        ),
        state.replay(repeated(still, count), energy_of, angle_of).last() is None,
{
    let quiet = state.detection.window_size;
    let lead = (count - quiet) as nat;
    let inputs = repeated(still, count);
    let end = state.after(inputs, energy_of, angle_of);
    lemma_smoothing_after_repeated(state, still, count, energy_of, angle_of);
    lemma_pushed_repeatedly_fills(state.smoothing, state.smoothing_window_size, still, count);
    lemma_detection_after_still(state, still, lead, quiet, energy_of, angle_of);
    let middle = state.after(repeated(still, lead), energy_of, angle_of);
    lemma_after_keeps_pipeline(state, repeated(still, lead), energy_of, angle_of);
    lemma_pushed_repeatedly_fills(middle.detection.horizontal, quiet, 0i32, quiet);
    lemma_pushed_repeatedly_fills(middle.detection.vertical, quiet, 0i32, quiet);
    lemma_quantile_of_constant(end.detection.horizontal, 0);
    lemma_quantile_of_constant(end.detection.vertical, 0);
    lemma_after_keeps_pipeline(state, inputs.drop_last(), energy_of, angle_of);
}

} // verus!
