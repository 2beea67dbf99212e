use core::f32::consts::PI;
use imu_fusion::FusionVector;
use micromath::F32Ext;
use motion_analysis::analysis::{
    Analysis, ConfigError, DEFAULT_ACCELERATION_THRESHOLD, DEFAULT_ANGLE_HIGH_THRESHOLD,
    DEFAULT_ANGLE_LOW_THRESHOLD, DEFAULT_DETECTION_WINDOW_SIZE, DEFAULT_SMOOTHING_WINDOW_SIZE,
};
use motion_analysis::direction::MovementDirection;
use motion_analysis::sample::{sample_from_bits, sample_to_bits};
use motion_analysis::window::BoundedWindow;

fn key(value: f32) -> i32 {
    sample_from_bits(value.to_bits()).expect("a number")
}

fn value(key: i32) -> f32 {
    f32::from_bits(sample_to_bits(key).expect("a key"))
}

fn angle_of(vertical: i32, horizontal: i32) -> i32 {
    key(F32Ext::atan2(value(vertical), value(horizontal)))
}

/// The newest measurement less the mean of the window.
fn smoothed(window: &BoundedWindow<FusionVector>) -> FusionVector {
    let mut sum_x = 0.0;
    let mut sum_y = 0.0;
    let mut sum_z = 0.0;
    for i in 0..window.len() {
        let m = window.get(i);
        sum_x += m.x;
        sum_y += m.y;
        sum_z += m.z;
    }
    let num_elems = window.len() as f32;
    let mean = FusionVector::new(sum_x / num_elems, sum_y / num_elems, sum_z / num_elems);
    *window.get(window.len() - 1) - mean
}

fn energy_of(window: &BoundedWindow<FusionVector>) -> (i32, i32) {
    let smoothed = smoothed(window);
    let horiz = F32Ext::powi(smoothed.x, 2) + F32Ext::powi(smoothed.y, 2);
    let verti = F32Ext::powi(smoothed.z, 2);
    (key(horiz), key(verti))
}

fn pipeline(
    smoothing: usize,
    detection: usize,
    threshold: f32,
    low: f32,
    high: f32,
) -> Analysis<FusionVector> {
    match Analysis::new(smoothing, detection, key(threshold), key(low), key(high)) {
        Ok(analysis) => analysis,
        Err(error) => panic!("refused: {:?}", error),
    }
}

fn run(analysis: &mut Analysis<FusionVector>, x: f32, y: f32, z: f32) -> Option<MovementDirection> {
    analysis.add_measurement(FusionVector::new(x, y, z), energy_of, angle_of)
}

fn error_of(smoothing: usize, detection: usize) -> Option<ConfigError> {
    match Analysis::<FusionVector>::new(smoothing, detection, key(0.14), key(0.5), key(1.0)) {
        Ok(_) => None,
        Err(error) => Some(error),
    }
}

#[test]
fn detection_window_must_be_shorter() {
    assert_eq!(error_of(10, 10), Some(ConfigError::DetectionWindowNotShorter));
    assert_eq!(error_of(10, 11), Some(ConfigError::DetectionWindowNotShorter));
    assert_eq!(error_of(1, 1), Some(ConfigError::DetectionWindowNotShorter));
    assert_eq!(error_of(10, 9), None);
    assert_eq!(error_of(2, 1), None);
    assert_eq!(error_of(100, 30), None);
}

#[test]
fn windows_must_have_room() {
    assert_eq!(error_of(0, 0), Some(ConfigError::EmptySmoothingWindow));
    assert_eq!(error_of(0, 5), Some(ConfigError::EmptySmoothingWindow));
    assert_eq!(error_of(5, 0), Some(ConfigError::EmptyDetectionWindow));
}

#[test]
fn default_thresholds_are_the_documented_values() {
    assert_eq!(DEFAULT_SMOOTHING_WINDOW_SIZE, 100);
    assert_eq!(DEFAULT_DETECTION_WINDOW_SIZE, 30);
    assert_eq!(DEFAULT_ACCELERATION_THRESHOLD, key(0.14));
    assert_eq!(DEFAULT_ANGLE_LOW_THRESHOLD, key(0.6 * PI / 4.0));
    assert_eq!(DEFAULT_ANGLE_HIGH_THRESHOLD, key(1.2 * PI / 4.0));
}

#[test]
fn default_pipeline_acts_as_one_made_with_the_defaults() {
    let mut by_default: Analysis<FusionVector> = Analysis::default();
    let mut by_hand = pipeline(100, 30, 0.14, 0.6 * PI / 4.0, 1.2 * PI / 4.0);
    assert_eq!(by_default.prev_direction(), None);
    let mut state: u32 = 7;
    for tick in 0..300 {
        state = state.wrapping_mul(1664525).wrapping_add(1013904223);
        let x = ((state >> 20) as f32) / 2048.0 - 1.0;
        state = state.wrapping_mul(1664525).wrapping_add(1013904223);
        let z = if tick % 50 < 25 { ((state >> 20) as f32) / 1024.0 } else { 0.0 };
        assert_eq!(run(&mut by_default, x, 0.0, z), run(&mut by_hand, x, 0.0, z));
    }
}

#[test]
fn zero_input_is_no_movement() {
    let mut analysis = pipeline(8, 3, 0.14, 0.5, 1.0);
    let last_smoothed = std::cell::Cell::new((1.0f32, 1.0f32, 1.0f32));
    let last_energies = std::cell::Cell::new((1, 1));
    let energies = |window: &BoundedWindow<FusionVector>| {
        let s = smoothed(window);
        last_smoothed.set((s.x, s.y, s.z));
        let e = energy_of(window);
        last_energies.set(e);
        e
    };
    for _ in 0..8 {
        let direction =
            analysis.add_measurement(FusionVector::new(0.0, 0.0, 0.0), &energies, angle_of);
        assert_eq!(direction, None);
        assert_eq!(last_smoothed.get(), (0.0, 0.0, 0.0));
        assert_eq!(last_energies.get(), (key(0.0), key(0.0)));
    }
    assert_eq!(analysis.prev_direction(), None);
}

#[test]
fn zero_input_after_movement_settles() {
    let mut analysis = pipeline(4, 2, 0.14, 0.5, 1.0);
    assert_eq!(run(&mut analysis, 0.0, 0.0, 0.0), None);
    assert_eq!(run(&mut analysis, 0.0, 0.0, 4.0), Some(MovementDirection::Vertical));
    // The step stays in the smoothing window for four ticks, and its last
    // energy in the detection window for one tick more.
    for _ in 0..4 {
        assert_eq!(run(&mut analysis, 0.0, 0.0, 0.0), Some(MovementDirection::Vertical));
    }
    assert_eq!(run(&mut analysis, 0.0, 0.0, 0.0), None);
    assert_eq!(run(&mut analysis, 0.0, 0.0, 0.0), None);
}

#[test]
fn constant_input_is_smoothed_away() {
    let mut analysis = pipeline(4, 2, 0.05, 0.3, 1.2);
    for _ in 0..5 {
        assert_eq!(run(&mut analysis, 1.0, 0.0, 0.0), None);
    }
    assert_eq!(analysis.prev_direction(), None);
}

#[test]
fn steps_are_labelled_by_their_plane() {
    let mut analysis = pipeline(4, 2, 0.05, 0.3, 1.2);
    // Window [(2,0,0)]: the mean is the measurement, nothing is left.
    assert_eq!(run(&mut analysis, 2.0, 0.0, 0.0), None);
    // Window [(2,0,0), (0,0,0)]: smoothed (-1,0,0), energies (1, 0).
    assert_eq!(run(&mut analysis, 0.0, 0.0, 0.0), Some(MovementDirection::Horizontal));
    // Window [(2,0,0), (0,0,0), (0,0,3)]: smoothed (-2/3, 0, 2), energies
    // (4/9, 4); denoised over [(1, 0), (4/9, 4)]: (1, 4).
    assert_eq!(run(&mut analysis, 0.0, 0.0, 3.0), Some(MovementDirection::Vertical));
    // Window [.., (0,0,3), (2,0,3)]: means (1, 0, 1.5), smoothed (1, 0, 1.5),
    // energies (1, 2.25); denoised over [(4/9, 4), (1, 2.25)]: (1, 4).
    assert_eq!(run(&mut analysis, 2.0, 0.0, 3.0), Some(MovementDirection::Vertical));
}

#[test]
fn equal_energies_are_diagonal() {
    let mut analysis = pipeline(4, 1, 0.05, 0.3, 1.2);
    assert_eq!(run(&mut analysis, 0.0, 0.0, 0.0), None);
    // Window [(0,0,0), (2,0,2)]: smoothed (1, 0, 1), energies (1, 1).
    assert_eq!(run(&mut analysis, 2.0, 0.0, 2.0), Some(MovementDirection::Diagonal));
    assert_eq!(analysis.prev_direction(), Some(MovementDirection::Diagonal));
}

#[test]
fn smoothing_uses_the_current_length_while_filling() {
    let mut analysis = pipeline(100, 1, 0.05, 0.3, 1.2);
    let lengths = std::cell::RefCell::new(Vec::new());
    let energies = |window: &BoundedWindow<FusionVector>| {
        lengths.borrow_mut().push(window.len());
        energy_of(window)
    };
    // Window [(0,0,0), (0,0,1)]: the mean is half of the newest measurement
    // (not a hundredth of it), so the vertical energy is a quarter.
    analysis.add_measurement(FusionVector::new(0.0, 0.0, 0.0), &energies, angle_of);
    let seen = std::cell::Cell::new((0, 0));
    let record = |v: i32, h: i32| {
        seen.set((v, h));
        angle_of(v, h)
    };
    assert_eq!(
        analysis.add_measurement(FusionVector::new(0.0, 0.0, 1.0), &energies, &record),
        Some(MovementDirection::Vertical)
    );
    assert_eq!(seen.get(), (key(0.25), key(0.0)));
    assert_eq!(*lengths.borrow(), vec![1, 2]);
}

#[test]
fn replay_gives_the_same_directions() {
    let mut inputs = Vec::new();
    let mut state: u32 = 2024;
    for tick in 0..400 {
        let mut next = || {
            state = state.wrapping_mul(1664525).wrapping_add(1013904223);
            ((state >> 20) as f32) / 2048.0 - 1.0
        };
        let scale = if tick % 80 < 40 { 2.0 } else { 0.05 };
        inputs.push((next() * scale, next() * scale, next() * scale));
    }
    let mut first = pipeline(20, 6, 0.14, 0.6 * PI / 4.0, 1.2 * PI / 4.0);
    let mut second = pipeline(20, 6, 0.14, 0.6 * PI / 4.0, 1.2 * PI / 4.0);
    let mut seen = [false; 4];
    for &(x, y, z) in &inputs {
        let a = run(&mut first, x, y, z);
        assert_eq!(a, run(&mut second, x, y, z));
        match a {
            None => seen[0] = true,
            Some(MovementDirection::Horizontal) => seen[1] = true,
            Some(MovementDirection::Vertical) => seen[2] = true,
            Some(MovementDirection::Diagonal) => seen[3] = true,
        }
    }
    let mut third = pipeline(20, 6, 0.14, 0.6 * PI / 4.0, 1.2 * PI / 4.0);
    let replayed: Vec<_> = inputs.iter().map(|&(x, y, z)| run(&mut third, x, y, z)).collect();
    let mut fourth = pipeline(20, 6, 0.14, 0.6 * PI / 4.0, 1.2 * PI / 4.0);
    let again: Vec<_> = inputs.iter().map(|&(x, y, z)| run(&mut fourth, x, y, z)).collect();
    assert_eq!(replayed, again);
    assert!(seen[0] && (seen[1] || seen[2] || seen[3]));
}
