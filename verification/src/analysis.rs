//! The pipeline: a smoothing window of raw measurements in front of the
//! movement detection stage.
//!
//! One tick takes a raw measurement to an optional direction. The raw
//! measurement enters the smoothing window; the energies of the smoothed
//! measurement are taken from that window by the caller's `energy_of`; the
//! detection stage denoises and classifies them. The type of a raw
//! measurement is the caller's: the pipeline only stores it.

use crate::detection::{gives_direction, DetectionState, MovementDetection};
pub use crate::direction::MovementDirection;
use crate::window::{pushed, BoundedWindow};
use vstd::prelude::*;

verus! {

/// The smoothing window length of the default pipeline.
pub const DEFAULT_SMOOTHING_WINDOW_SIZE: usize = 100;

/// The detection window length of the default pipeline.
pub const DEFAULT_DETECTION_WINDOW_SIZE: usize = 30;

/// The default acceleration threshold: the key of 0.14, in squared units of
/// acceleration, as the energies are.
pub const DEFAULT_ACCELERATION_THRESHOLD: i32 = 0x3E0F_5C29;

/// The default lower angle threshold: the key of 0.6 times a quarter of pi.
pub const DEFAULT_ANGLE_LOW_THRESHOLD: i32 = 0x3EF1_463B;

/// The default upper angle threshold: the key of 1.2 times a quarter of pi.
pub const DEFAULT_ANGLE_HIGH_THRESHOLD: i32 = 0x3F71_463B;

/// Why a pair of window sizes is refused.
#[derive(Debug, Clone, Copy, PartialEq, Eq, Structural)]
pub enum ConfigError {
    /// The smoothing window has no room.
    EmptySmoothingWindow,
    /// The detection window has no room.
    EmptyDetectionWindow,
    /// The detection window is not shorter than the smoothing window it
    /// follows.
    DetectionWindowNotShorter,
}

/// What is wrong with a pair of window sizes, if anything. Both must be
/// positive, and the detection window the shorter one, so that it reacts
/// faster than the smoothing window.
pub open spec fn window_sizes_error(
    smoothing_window_size: nat,
    detection_window_size: nat,
) -> Option<ConfigError> {
    if smoothing_window_size == 0 {
        Some(ConfigError::EmptySmoothingWindow)
    } else if detection_window_size == 0 {
        Some(ConfigError::EmptyDetectionWindow)
    } else if detection_window_size >= smoothing_window_size {
        Some(ConfigError::DetectionWindowNotShorter)
    } else {
        None
    }
}

/// A pair of window sizes is accepted exactly if the detection window is
/// positive and shorter than the smoothing window.
pub proof fn lemma_window_sizes_accepted(smoothing_window_size: nat, detection_window_size: nat)
    ensures
        window_sizes_error(smoothing_window_size, detection_window_size) is None <==> 0
            < detection_window_size < smoothing_window_size,
{
}

/// What a pipeline holds: the raw measurements in its smoothing window,
/// oldest first, the capacity of that window, and the detection stage.
pub struct AnalysisState<V> {
    pub smoothing: Seq<V>,
    pub smoothing_window_size: nat,
    pub detection: DetectionState,
}

impl<V> AnalysisState<V> {
    /// The invariant of a pipeline: a smoothing window within its capacity, a
    /// well-formed detection stage, and a detection window shorter than the
    /// smoothing window.
    pub open spec fn wf(self) -> bool {
        &&& self.smoothing.len() <= self.smoothing_window_size
        &&& self.detection.wf()
        &&& self.detection.window_size < self.smoothing_window_size
    }

    /// The pipeline as it is made: empty windows and no direction given yet.
    pub open spec fn fresh(
        smoothing_window_size: nat,
        detection_window_size: nat,
        acceleration_threshold: i32,
        angle_low_threshold: i32,
        angle_high_threshold: i32,
    ) -> AnalysisState<V> {
        AnalysisState {
            smoothing: Seq::empty(),
            smoothing_window_size,
            detection: DetectionState::fresh(
                detection_window_size,
                acceleration_threshold,
                angle_low_threshold,
                angle_high_threshold,
            ),
        }
    }

    /// The smoothing window after `raw` has been pushed into it.
    pub open spec fn smoothing_with(self, raw: V) -> Seq<V> {
        pushed(self.smoothing, self.smoothing_window_size, raw)
    }

    /// The direction of one tick: `raw` is pushed into the smoothing window,
    /// `energy_of` gives the energies for that window, and the detection
    /// stage ticks on them, with `angle_of` for the angle.
    pub open spec fn tick_direction(
        self,
        raw: V,
        energy_of: spec_fn(Seq<V>) -> (i32, i32),
        angle_of: spec_fn(i32, i32) -> i32,
    ) -> Option<MovementDirection> {
        let energies = energy_of(self.smoothing_with(raw));
        self.detection.tick_direction(energies.0, energies.1, angle_of)
    }

    /// The pipeline after one tick.
    pub open spec fn tick(
        self,
        raw: V,
        energy_of: spec_fn(Seq<V>) -> (i32, i32),
        angle_of: spec_fn(i32, i32) -> i32,
    ) -> AnalysisState<V> {
        let energies = energy_of(self.smoothing_with(raw));
        AnalysisState {
            smoothing: self.smoothing_with(raw),
            smoothing_window_size: self.smoothing_window_size,
            detection: self.detection.tick(energies.0, energies.1, angle_of),
        }
    }

    /// The pipeline after a tick for each of `inputs`, in order.
    pub open spec fn after(
        self,
        inputs: Seq<V>,
        energy_of: spec_fn(Seq<V>) -> (i32, i32),
        angle_of: spec_fn(i32, i32) -> i32,
    ) -> AnalysisState<V>
        decreases inputs.len(),
    {
        if inputs.len() == 0 {
            self
        } else {
            self.after(inputs.drop_last(), energy_of, angle_of).tick(
                inputs.last(),
                energy_of,
                angle_of,
            )
        }
    }

    /// The directions given over a tick for each of `inputs`, in order.
    pub open spec fn replay(
        self,
        inputs: Seq<V>,
        energy_of: spec_fn(Seq<V>) -> (i32, i32),
        angle_of: spec_fn(i32, i32) -> i32,
    ) -> Seq<Option<MovementDirection>>
        decreases inputs.len(),
    {
        if inputs.len() == 0 {
            Seq::empty()
        } else {
            self.replay(inputs.drop_last(), energy_of, angle_of).push(
                self.after(inputs.drop_last(), energy_of, angle_of).tick_direction(
                    inputs.last(),
                    energy_of,
                    angle_of,
                ),
            )
        }
    }
}

/// The pipeline, for raw measurements of type `V`.
pub struct Analysis<V> {
    smoothing: BoundedWindow<V>,
    movement_detection: MovementDetection,
}

impl<V> View for Analysis<V> {
    type V = AnalysisState<V>;

    closed spec fn view(&self) -> AnalysisState<V> {
        AnalysisState {
            smoothing: self.smoothing@,
            smoothing_window_size: self.smoothing.spec_capacity(),
            detection: self.movement_detection@,
        }
    }
}

/// Whether `direction` and the detection stage `after` are an outcome of one
/// tick on the detection stage `before`, when `energy_of` is asked for the
/// energies of `window` and `angle_of` for the angle of the denoised
/// energies.
pub open spec fn is_tick_outcome<V, E: Fn(&BoundedWindow<V>) -> (i32, i32), A: Fn(i32, i32) -> i32>(
    before: DetectionState,
    window: BoundedWindow<V>,
    energy_of: E,
    angle_of: A,
    after: DetectionState,
    direction: Option<MovementDirection>,
) -> bool {
    exists|energies: (i32, i32)|
        {
            &&& call_ensures(energy_of, (&window,), energies)
            &&& after == before.with_measurement(energies.0, energies.1).with_direction(direction)
            &&& gives_direction(
                before.with_measurement(energies.0, energies.1),
                angle_of,
                direction,
            )
        }
}

impl<V> Analysis<V> {
    /// The smoothing window.
    pub closed spec fn smoothing_window(&self) -> BoundedWindow<V> {
        self.smoothing
    }

    /// The invariant of a pipeline.
    pub closed spec fn wf(&self) -> bool {
        &&& self.smoothing.wf()
        &&& self.movement_detection.wf()
        &&& self.movement_detection@.window_size < self.smoothing.spec_capacity()
    }

    /// A well-formed pipeline has a well-formed view, which holds what the
    /// smoothing window holds.
    pub proof fn lemma_wf(&self)
        requires
            self.wf(),
        ensures
            self@.wf(),
            self.smoothing_window().wf(),
            self.smoothing_window()@ == self@.smoothing,
            self.smoothing_window().spec_capacity() == self@.smoothing_window_size,
    {
        self.movement_detection.lemma_wf();
    }

    /// A pipeline with empty windows, or the reason why the window sizes are
    /// refused.
    pub fn new(
        smoothing_window_size: usize,
        detection_window_size: usize,
        acceleration_threshold: i32,
        angle_low_threshold: i32,
        angle_high_threshold: i32,
    ) -> (made: Result<Self, ConfigError>)
        ensures
            match made {
                Ok(analysis) => {
                    &&& window_sizes_error(
                        smoothing_window_size as nat,
                        detection_window_size as nat,
                    ) is None
                    &&& analysis.wf()
                    &&& analysis@ == AnalysisState::<V>::fresh(
                        smoothing_window_size as nat,
                        detection_window_size as nat,
                        acceleration_threshold,
                        angle_low_threshold,
                        angle_high_threshold,
                    )
                },
                Err(error) => window_sizes_error(
                    smoothing_window_size as nat,
                    detection_window_size as nat,
                ) == Some(error),
            },
    {
        if smoothing_window_size == 0 {
            Err(ConfigError::EmptySmoothingWindow)
        } else if detection_window_size == 0 {
            Err(ConfigError::EmptyDetectionWindow)
        } else if detection_window_size >= smoothing_window_size {
            Err(ConfigError::DetectionWindowNotShorter)
        } else {
            Ok(
                Analysis {
                    smoothing: BoundedWindow::new(smoothing_window_size),
                    movement_detection: MovementDetection::new(
                        detection_window_size,
                        acceleration_threshold,
                        angle_low_threshold,
                        angle_high_threshold,
                    ),
                },
            )
        }
    }

    /// The direction given last.
    pub fn prev_direction(&self) -> (direction: Option<MovementDirection>)
        ensures
            direction == self@.detection.prev_direction,
    {
        self.movement_detection.prev_direction()
    }

    /// One tick of the pipeline. The raw measurement is pushed into the
    /// smoothing window. `energy_of` is then asked for the horizontal and the
    /// vertical energy of the smoothed measurement, which it takes from the
    /// window: the newest item less the mean of all items. The energies go
    /// through one tick of the detection stage, which asks `angle_of` for the
    /// angle of the denoised energies where there is movement.
    pub fn add_measurement<E: Fn(&BoundedWindow<V>) -> (i32, i32), A: Fn(i32, i32) -> i32>(
        &mut self,
        linear_acceleration: V,
        energy_of: E,
        angle_of: A,
    ) -> (direction: Option<MovementDirection>)
        requires
            old(self).wf(),
            forall|window: BoundedWindow<V>|
                window.wf() && window@ == old(self)@.smoothing_with(linear_acceleration)
                    ==> call_requires(energy_of, (&window,)),
            forall|v: i32, h: i32| call_requires(angle_of, (v, h)),
        ensures
            final(self).wf(),
            final(self)@.smoothing_window_size == old(self)@.smoothing_window_size,
            final(self)@.smoothing == old(self)@.smoothing_with(linear_acceleration),
            final(self).smoothing_window()@ == final(self)@.smoothing,
            is_tick_outcome(
                old(self)@.detection,
                final(self).smoothing_window(),
                energy_of,
                angle_of,
                final(self)@.detection,
                direction,
            ),
    {
        self.smoothing.push(linear_acceleration);
        let (horiz, verti) = energy_of(&self.smoothing);
        let direction = self.movement_detection.add_measurement(horiz, verti, angle_of);
        direction
    }
}

/// Where `energy_of` and `angle_of` are functions, of what the window holds
/// and of the two energies, every outcome of a tick is the tick that
/// `AnalysisState::tick` describes for those functions.
pub proof fn lemma_tick_outcome_of_functions<
    V,
    E: Fn(&BoundedWindow<V>) -> (i32, i32),
    A: Fn(i32, i32) -> i32,
>(
    before: AnalysisState<V>,
    raw: V,
    window: BoundedWindow<V>,
    energy_of: E,
    angle_of: A,
    after: DetectionState,
    direction: Option<MovementDirection>,
    energy: spec_fn(Seq<V>) -> (i32, i32),
    angle: spec_fn(i32, i32) -> i32,
)
    requires
        window@ == before.smoothing_with(raw),
        is_tick_outcome(before.detection, window, energy_of, angle_of, after, direction),
        forall|w: BoundedWindow<V>, e: (i32, i32)|
            call_ensures(energy_of, (&w,), e) ==> e == energy(w@),
        forall|v: i32, h: i32, a: i32| call_ensures(angle_of, (v, h), a) ==> a == angle(v, h),
    ensures
        direction == before.tick_direction(raw, energy, angle),
        after == before.tick(raw, energy, angle).detection,
{
}

impl<V> Default for Analysis<V> {
    /// The default pipeline: a smoothing window of 100, a detection window of
    /// 30, and the default thresholds.
    fn default() -> (analysis: Self)
        ensures
            analysis.wf(),
            analysis@ == AnalysisState::<V>::fresh(
                DEFAULT_SMOOTHING_WINDOW_SIZE as nat,
                DEFAULT_DETECTION_WINDOW_SIZE as nat,
                DEFAULT_ACCELERATION_THRESHOLD,
                DEFAULT_ANGLE_LOW_THRESHOLD,
                DEFAULT_ANGLE_HIGH_THRESHOLD,
            ),
    {
        Analysis {
            smoothing: BoundedWindow::new(DEFAULT_SMOOTHING_WINDOW_SIZE),
            movement_detection: MovementDetection::new(
                DEFAULT_DETECTION_WINDOW_SIZE,
                DEFAULT_ACCELERATION_THRESHOLD,
                DEFAULT_ANGLE_LOW_THRESHOLD,
                DEFAULT_ANGLE_HIGH_THRESHOLD,
            ),
        }
    }
}

} // verus!
