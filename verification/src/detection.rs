//! The movement detection stage: the denoiser for the two energy streams and
//! the classifier that turns the denoised energies and their angle into a
//! direction label.
//!
//! Energies, thresholds and angles are sample keys (see [`crate::sample`]).
//! The angle of a pair of energies is found by the caller, with the vertical
//! energy as the numerator and the horizontal one as the denominator of the
//! arctangent.

use crate::direction::MovementDirection;
use crate::quantile::{quantile, QuantileDenoiser};
use crate::window::pushed;
use vstd::prelude::*;

verus! {

/// The label of an angle between two thresholds: diagonal strictly between
/// them, horizontal at or below the lower one, vertical otherwise.
pub open spec fn classify_angle(angle: i32, low: i32, high: i32) -> MovementDirection {
    if low < angle && angle < high {
        MovementDirection::Diagonal
    } else if angle <= low {
        MovementDirection::Horizontal
    } else {
        MovementDirection::Vertical
    }
}

/// With the thresholds in order, the three labels split the angles into three
/// bands, and each threshold belongs to the band outside the diagonal one.
pub proof fn lemma_classification_bands(angle: i32, low: i32, high: i32)
    requires
        low < high,
    ensures
        classify_angle(angle, low, high) == MovementDirection::Horizontal <==> angle <= low,
        classify_angle(angle, low, high) == MovementDirection::Diagonal <==> low < angle < high,
        classify_angle(angle, low, high) == MovementDirection::Vertical <==> angle >= high,
{
}

/// What a movement detection stage holds: its two windows, its thresholds and
/// the direction it gave last.
pub struct DetectionState {
    pub horizontal: Seq<i32>,
    pub vertical: Seq<i32>,
    pub window_size: nat,
    pub acceleration_threshold: i32,
    pub angle_low_threshold: i32,
    pub angle_high_threshold: i32,
    pub prev_direction: Option<MovementDirection>,
}

impl DetectionState {
    /// The invariant of a stage: windows of one length within a positive
    /// capacity.
    pub open spec fn wf(self) -> bool {
        &&& self.window_size > 0
        &&& self.horizontal.len() <= self.window_size
        &&& self.vertical.len() == self.horizontal.len()
    }

    /// The stage as it is made: empty windows and no direction given yet.
    pub open spec fn fresh(
        window_size: nat,
        acceleration_threshold: i32,
        angle_low_threshold: i32,
        angle_high_threshold: i32,
    ) -> DetectionState {
        DetectionState {
            horizontal: Seq::empty(),
            vertical: Seq::empty(),
            window_size,
            acceleration_threshold,
            angle_low_threshold,
            angle_high_threshold,
            prev_direction: None,
        }
    }

    /// The stage after `x` and `y` have been pushed into its windows.
    pub open spec fn with_measurement(self, x: i32, y: i32) -> DetectionState {
        DetectionState {
            horizontal: pushed(self.horizontal, self.window_size, x),
            vertical: pushed(self.vertical, self.window_size, y),
            ..self
        }
    }

    /// The stage after it gave `direction`.
    pub open spec fn with_direction(self, direction: Option<MovementDirection>) -> DetectionState {
        DetectionState { prev_direction: direction, ..self }
    }

    /// The denoised energies: the quantile of each window.
    pub open spec fn denoised(self) -> (i32, i32) {
        (quantile(self.horizontal), quantile(self.vertical))
    }

    /// Whether both energies are below the acceleration threshold, which
    /// means no movement.
    pub open spec fn below_threshold(self, x_accel: i32, y_accel: i32) -> bool {
        x_accel < self.acceleration_threshold && y_accel < self.acceleration_threshold
    }

    /// The direction for a pair of denoised energies and their angle. The
    /// direction given before has no part in it.
    pub open spec fn direction(self, x_accel: i32, y_accel: i32, angle: i32) -> Option<
        MovementDirection,
    > {
        if self.below_threshold(x_accel, y_accel) {
            None
        } else {
            Some(classify_angle(angle, self.angle_low_threshold, self.angle_high_threshold))
        }
    }

    /// The direction of one tick: `x` and `y` are pushed, the windows are
    /// denoised, and the denoised energies are classified with the angle
    /// that `angle_of` gives for them (vertical energy first).
    pub open spec fn tick_direction(self, x: i32, y: i32, angle_of: spec_fn(i32, i32) -> i32) -> Option<
        MovementDirection,
    > {
        let (h, v) = self.with_measurement(x, y).denoised();
        self.with_measurement(x, y).direction(h, v, angle_of(v, h))
    }

    /// The stage after one tick.
    pub open spec fn tick(self, x: i32, y: i32, angle_of: spec_fn(i32, i32) -> i32) -> DetectionState {
        self.with_measurement(x, y).with_direction(self.tick_direction(x, y, angle_of))
    }

    /// The stage after a tick for each of `inputs`, in order.
    pub open spec fn after(self, inputs: Seq<(i32, i32)>, angle_of: spec_fn(i32, i32) -> i32) -> DetectionState
        decreases inputs.len(),
    {
        if inputs.len() == 0 {
            self
        } else {
            self.after(inputs.drop_last(), angle_of).tick(
                inputs.last().0,
                inputs.last().1,
                angle_of,
            )
        }
    }

    /// The directions given over a tick for each of `inputs`, in order.
    pub open spec fn replay(self, inputs: Seq<(i32, i32)>, angle_of: spec_fn(i32, i32) -> i32) -> Seq<
        Option<MovementDirection>,
    >
        decreases inputs.len(),
    {
        if inputs.len() == 0 {
            Seq::empty()
        } else {
            self.replay(inputs.drop_last(), angle_of).push(
                self.after(inputs.drop_last(), angle_of).tick_direction(
                    inputs.last().0,
                    inputs.last().1,
                    angle_of,
                ),
            )
        }
    }
}

/// Whether the stage `state`, whose windows hold the energies of the tick
/// already, needs the angle of its denoised energies: it does unless both are
/// below the acceleration threshold.
pub open spec fn asks_angle(state: DetectionState) -> bool {
    !state.below_threshold(state.denoised().0, state.denoised().1)
}

/// Whether `direction` is a direction of the stage `state`, whose windows
/// hold the energies of the tick already, when the angle comes from
/// `angle_of`: no movement below the acceleration threshold, and else the
/// label of an angle that `angle_of` gives for the denoised energies, the
/// vertical one first.
pub open spec fn gives_direction<A: Fn(i32, i32) -> i32>(
    state: DetectionState,
    angle_of: A,
    direction: Option<MovementDirection>,
) -> bool {
    let (h, v) = state.denoised();
    if state.below_threshold(h, v) {
        direction is None
    } else {
        exists|angle: i32|
            call_ensures(angle_of, (v, h), angle) && direction == state.direction(h, v, angle)
    }
}

/// Where `angle_of` is a function of the two energies, the direction that a
/// tick gives is the one that `DetectionState::tick_direction` describes for
/// that function.
pub proof fn lemma_direction_of_function<A: Fn(i32, i32) -> i32>(
    state: DetectionState,
    x: i32,
    y: i32,
    angle_of: A,
    direction: Option<MovementDirection>,
    angle: spec_fn(i32, i32) -> i32,
)
    requires
        gives_direction(state.with_measurement(x, y), angle_of, direction),
        forall|v: i32, h: i32, a: i32| call_ensures(angle_of, (v, h), a) ==> a == angle(v, h),
    ensures
        direction == state.tick_direction(x, y, angle),
{
}

/// The movement detection stage.
pub struct MovementDetection {
    movement_computation: QuantileDenoiser,
    acceleration_threshold: i32,
    angle_low_threshold: i32,
    angle_high_threshold: i32,
    prev_direction: Option<MovementDirection>,
}

impl View for MovementDetection {
    type V = DetectionState;

    closed spec fn view(&self) -> DetectionState {
        DetectionState {
            horizontal: self.movement_computation.horizontal(),
            vertical: self.movement_computation.vertical(),
            window_size: self.movement_computation.window_size(),
            acceleration_threshold: self.acceleration_threshold,
            angle_low_threshold: self.angle_low_threshold,
            angle_high_threshold: self.angle_high_threshold,
            prev_direction: self.prev_direction,
        }
    }
}

impl MovementDetection {
    /// The invariant of the stage.
    pub closed spec fn wf(&self) -> bool {
        self.movement_computation.wf()
    }

    /// A well-formed stage has a well-formed view.
    pub proof fn lemma_wf(&self)
        requires
            self.wf(),
        ensures
            self@.wf(),
    {
        self.movement_computation.lemma_wf();
    }

    /// A stage with empty windows of capacity `detection_window_size`.
    pub fn new(
        detection_window_size: usize,
        acceleration_threshold: i32,
        angle_low_threshold: i32,
        angle_high_threshold: i32,
    ) -> (detection: Self)
        requires
            detection_window_size > 0,
        ensures
            detection.wf(),
            detection@ == DetectionState::fresh(
                detection_window_size as nat,
                acceleration_threshold,
                angle_low_threshold,
                angle_high_threshold,
            ),
    {
        MovementDetection {
            movement_computation: QuantileDenoiser::new(detection_window_size),
            acceleration_threshold,
            angle_low_threshold,
            angle_high_threshold,
            prev_direction: None,
        }
    }

    /// The direction given last, or `None` if there was no movement or no
    /// tick yet.
    pub fn prev_direction(&self) -> (direction: Option<MovementDirection>)
        ensures
            direction == self@.prev_direction,
    {
        self.prev_direction
    }

    /// Pushes the energies `x` (horizontal) and `y` (vertical) into their
    /// windows and returns the denoised energies.
    pub fn denoise(&mut self, x: i32, y: i32) -> (denoised: (i32, i32))
        requires
            old(self).wf(),
        ensures
            final(self).wf(),
            final(self)@ == old(self)@.with_measurement(x, y),
            denoised == final(self)@.denoised(),
            final(self)@.horizontal.contains(denoised.0),
            final(self)@.vertical.contains(denoised.1),
    {
        self.movement_computation.add_measurement(x, y)
    }

    /// Whether both energies are below the acceleration threshold.
    pub fn below_acceleration_threshold(&self, x_accel: i32, y_accel: i32) -> (below: bool)
        ensures
            below == self@.below_threshold(x_accel, y_accel),
    {
        x_accel < self.acceleration_threshold && y_accel < self.acceleration_threshold
    }

    /// Classifies a pair of denoised energies with their angle, and keeps the
    /// result as the direction given last. Below the acceleration threshold
    /// the angle is not looked at.
    pub fn next_direction(&mut self, x_accel: i32, y_accel: i32, angle: i32) -> (direction: Option<
        MovementDirection,
    >)
        ensures
            direction == old(self)@.direction(x_accel, y_accel, angle),
            final(self)@ == old(self)@.with_direction(direction),
            final(self).wf() == old(self).wf(),
    {
        let below_thres = self.below_acceleration_threshold(x_accel, y_accel);
        let next_state = if below_thres {
            None
        } else if self.angle_low_threshold < angle && angle < self.angle_high_threshold {
            Some(MovementDirection::Diagonal)
        } else if angle <= self.angle_low_threshold {
            Some(MovementDirection::Horizontal)
        } else {
            Some(MovementDirection::Vertical)
        };
        self.prev_direction = next_state;
        next_state
    }

    /// One tick of the stage: pushes the energies `x` and `y`, denoises, and
    /// classifies the denoised energies. Where there is movement, their angle
    /// is asked of `angle_of`, with the vertical energy first.
    pub fn add_measurement<A: Fn(i32, i32) -> i32>(&mut self, x: i32, y: i32, angle_of: A) -> (direction:
        Option<MovementDirection>)
        requires
            old(self).wf(),
            asks_angle(old(self)@.with_measurement(x, y)) ==> call_requires(
                angle_of,
                (
                    old(self)@.with_measurement(x, y).denoised().1,
                    old(self)@.with_measurement(x, y).denoised().0,
                ),
            ),
        ensures
            final(self).wf(),
            final(self)@ == old(self)@.with_measurement(x, y).with_direction(direction),
            gives_direction(old(self)@.with_measurement(x, y), angle_of, direction),
    {
        let (h, v) = self.denoise(x, y);
        if self.below_acceleration_threshold(h, v) {
            self.prev_direction = None;
            None
        } else {
            let angle = angle_of(v, h);
            self.next_direction(h, v, angle)
        }
    }
}

} // verus!
