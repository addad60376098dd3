use tilt_matrix::dispatch::{classify, select, Dispatcher, Tilt, DEADZONE};
use tilt_matrix::frame::Rgb;
use tilt_matrix::lis3dh::OrientationSample;

const OFF: Rgb = Rgb { r: 0, g: 0, b: 0 };
const GREEN: Rgb = Rgb { r: 0, g: 64, b: 0 };
const MAGENTA: Rgb = Rgb { r: 64, g: 0, b: 64 };
const BLUE: Rgb = Rgb { r: 0, g: 0, b: 64 };
const YELLOW: Rgb = Rgb { r: 64, g: 64, b: 0 };

/// Nano-g from g.
fn g(value: f64) -> i64 {
    (value * 1e9).round() as i64
}

/// The sample whose board-frame readings are `x` and `y`.
fn board(x: f64, y: f64, z: f64) -> OrientationSample {
    OrientationSample { x: -g(x), y: -g(y), z: g(z) }
}

fn dispatcher() -> Dispatcher {
    let mut heights = [[0i32; 8]; 8];
    for phase in 0..8 {
        for col in 0..8 {
            let wave = (phase as f64 + col as f64 * 0.8) * 0.8;
            heights[phase][col] = (wave.sin() * 3.5 + 3.5).round() as i32;
        }
    }
    let mut radii = [0u16; 16];
    for frame in 0..16 {
        let radius = ((frame as f64 * std::f64::consts::PI / 8.0).sin() * 3.0 + 1.0).abs();
        radii[frame] = (radius * 1000.0).round() as u16;
    }
    Dispatcher::new(heights, radii)
}

fn phases(d: &Dispatcher) -> (usize, bool, u8, u8, u8) {
    (d.right.position(), d.right.ascending(), d.left.phase(), d.forward.frame(), d.backward.frame())
}

#[test]
fn deadzone_is_two_tenths_of_a_g() {
    assert_eq!(DEADZONE, 200_000_000);
    assert_eq!(g(0.2), DEADZONE);
}

#[test]
fn deadzone_boundary_is_exclusive() {
    assert_eq!(classify(g(0.2), 0), Tilt::Level);
    assert_eq!(classify(g(-0.2), 0), Tilt::Level);
    assert_eq!(classify(0, g(0.2)), Tilt::Level);
    assert_eq!(classify(0, g(-0.2)), Tilt::Level);
    assert_eq!(classify(g(0.2), g(0.1)), Tilt::Level);
}

#[test]
fn just_past_the_deadzone_activates() {
    assert_eq!(g(0.2000001), 200_000_100);
    assert_eq!(classify(g(0.2000001), 0), Tilt::Right);
    assert_eq!(classify(g(0.2000001), g(0.2)), Tilt::Right);
    assert_eq!(classify(DEADZONE + 1, 0), Tilt::Right);
    assert_eq!(classify(-DEADZONE - 1, 0), Tilt::Left);
    assert_eq!(classify(0, DEADZONE + 1), Tilt::Forward);
    assert_eq!(classify(0, -DEADZONE - 1), Tilt::Backward);
}

#[test]
fn equal_magnitudes_fall_to_y() {
    assert_eq!(classify(g(0.5), g(-0.5)), Tilt::Backward);
    assert_eq!(classify(g(0.5), g(0.5)), Tilt::Forward);
    assert_eq!(classify(g(-0.5), g(0.5)), Tilt::Forward);
    assert_eq!(classify(g(-0.5), g(-0.5)), Tilt::Backward);
    assert_eq!(classify(0, 0), Tilt::Level);
}

#[test]
fn larger_axis_decides_alone() {
    assert_eq!(classify(g(0.5), g(0.4)), Tilt::Right);
    assert_eq!(classify(g(-0.5), g(0.4)), Tilt::Left);
    assert_eq!(classify(g(0.4), g(0.5)), Tilt::Forward);
    assert_eq!(classify(g(0.4), g(-0.5)), Tilt::Backward);
    assert_eq!(classify(g(0.1), g(0.05)), Tilt::Level);
}

#[test]
fn classify_takes_the_extremes() {
    assert_eq!(classify(i64::MIN, i64::MAX), Tilt::Left);
    assert_eq!(classify(i64::MAX, i64::MIN), Tilt::Backward);
    assert_eq!(classify(i64::MIN, i64::MIN), Tilt::Backward);
    assert_eq!(classify(i64::MAX, i64::MAX), Tilt::Forward);
}

#[test]
fn sensor_axes_are_negated() {
    let s = OrientationSample { x: g(-0.5), y: g(-0.05), z: g(1.0) };
    assert_eq!(select(&s), Tilt::Right);
    let s = OrientationSample { x: g(0.5), y: g(0.05), z: g(1.0) };
    assert_eq!(select(&s), Tilt::Left);
    let s = OrientationSample { x: 0, y: g(-0.5), z: 0 };
    assert_eq!(select(&s), Tilt::Forward);
    let s = OrientationSample { x: 0, y: g(0.5), z: 0 };
    assert_eq!(select(&s), Tilt::Backward);
    let s = OrientationSample { x: i64::MIN, y: 0, z: 0 };
    assert_eq!(select(&s), Tilt::Right);
    assert_eq!(select(&board(0.5, -0.5, 1.0)), Tilt::Backward);
}

#[test]
fn right_tilt_over_eight_ticks() {
    let mut d = dispatcher();
    let mut after = Vec::new();
    for _ in 0..8 {
        let shown = d.right.position();
        let reading: Result<OrientationSample, ()> = Ok(board(0.5, 0.05, 1.0));
        let frame = d.tick(reading).expect("a frame");
        for row in 0..8 {
            for col in 0..8 {
                let want = if col == shown { GREEN } else { OFF };
                assert_eq!(frame[row * 8 + col], want);
            }
        }
        after.push(d.right.position());
    }
    assert_eq!(after, vec![1, 2, 3, 4, 5, 6, 7, 6]);
    assert_eq!((d.left.phase(), d.forward.frame(), d.backward.frame()), (0, 0, 0));
}

#[test]
fn failed_read_skips_the_tick() {
    let mut d = dispatcher();
    let mut writes = 0;
    let mut after_four = None;
    for tick in 1..=10 {
        let reading: Result<OrientationSample, &str> =
            if tick == 5 { Err("bus") } else { Ok(board(0.5, 0.05, 1.0)) };
        let before = phases(&d);
        let out = d.tick(reading);
        if tick == 4 {
            after_four = Some(phases(&d));
        }
        if tick == 5 {
            assert!(out.is_none());
            assert_eq!(phases(&d), before);
            assert_eq!(Some(phases(&d)), after_four);
        } else {
            assert!(out.is_some());
            writes += 1;
        }
        if tick == 6 {
            let frame = out.unwrap();
            assert_eq!(frame[4], GREEN);
            assert_eq!(d.right.position(), 5);
        }
    }
    assert_eq!(writes, 9);
    assert_eq!(phases(&d), (5, false, 0, 0, 0));
}

#[test]
fn level_board_shows_a_blank_frame() {
    let mut d = dispatcher();
    let before = phases(&d);
    let reading: Result<OrientationSample, ()> = Ok(board(0.1, -0.2, 1.0));
    let frame = d.tick(reading).unwrap();
    assert!(frame.iter().all(|c| *c == OFF));
    assert_eq!(phases(&d), before);
    assert!(d.render(Tilt::Level).iter().all(|c| *c == OFF));
    assert_eq!(phases(&d), before);
}

#[test]
fn only_the_selected_animation_advances() {
    let mut d = dispatcher();
    let left = d.render(Tilt::Left);
    assert_eq!(phases(&d), (0, true, 1, 0, 0));
    assert_eq!(left.iter().filter(|c| **c == MAGENTA).count(), 8);
    let forward = d.render(Tilt::Forward);
    assert_eq!(phases(&d), (0, true, 1, 1, 0));
    assert!(forward.iter().all(|c| *c == OFF || *c == BLUE));
    assert_eq!(forward[3 * 8 + 3], BLUE);
    let backward = d.render(Tilt::Backward);
    assert_eq!(phases(&d), (0, true, 1, 1, 1));
    assert_eq!(backward[0], YELLOW);
    let right = d.render(Tilt::Right);
    assert_eq!(phases(&d), (1, true, 1, 1, 1));
    assert_eq!(right[0], GREEN);
}

#[test]
fn switching_away_and_back_resumes_mid_pattern() {
    let mut d = dispatcher();
    for _ in 0..3 {
        d.render(Tilt::Right);
    }
    for _ in 0..5 {
        d.render(Tilt::Backward);
    }
    assert_eq!(d.right.position(), 3);
    let frame = d.render(Tilt::Right);
    assert_eq!(frame[3], GREEN);
    assert_eq!(d.right.position(), 4);
    assert_eq!(d.backward.frame(), 5);
}
