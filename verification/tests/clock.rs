use wavefront::arith::{Fun, Op, Request};
use wavefront::clock::{SimulationClock, DEFAULT_SPEED, MAX_PHASE, STEPS_PER_UNIT};
use wavefront::geometry::Scalar;

#[test]
fn clock_constants() {
    assert_eq!(DEFAULT_SPEED, 150);
    assert_eq!(STEPS_PER_UNIT, 10);
    assert_eq!(MAX_PHASE, 100);
    assert_eq!(DEFAULT_SPEED as f64 / STEPS_PER_UNIT as f64, 15.0);
}

#[test]
fn new_clock_is_at_zero_and_runs() {
    let c = SimulationClock::new();
    assert_eq!(c.elapsed(), 0);
    assert_eq!(c.speed(), 150);
    assert!(!c.is_paused());
}

#[test]
fn tick_adds_one_whatever_the_speed() {
    let mut c = SimulationClock::new();
    c.tick();
    assert_eq!(c.elapsed(), 1);
    c.toggle_pause();
    c.tick();
    c.tick();
    assert_eq!(c.elapsed(), 3);
    assert_eq!(c.speed(), 0);
    for _ in 0..400 {
        c.slower();
    }
    c.tick();
    assert_eq!(c.elapsed(), 4);
    assert_eq!(c.speed(), -400);
}

#[test]
fn reset_zeroes_time_and_keeps_speed() {
    let mut c = SimulationClock::new();
    c.faster();
    for _ in 0..17 {
        c.tick();
    }
    c.reset();
    assert_eq!(c.elapsed(), 0);
    assert_eq!(c.speed(), 151);
}

#[test]
fn speed_moves_one_step_at_a_time() {
    let mut c = SimulationClock::new();
    c.faster();
    assert_eq!(c.speed(), 151);
    c.slower();
    c.slower();
    assert_eq!(c.speed(), 149);
    assert_eq!(c.elapsed(), 0);
}

#[test]
fn speed_can_go_negative() {
    let mut c = SimulationClock::new();
    for _ in 0..151 {
        c.slower();
    }
    assert_eq!(c.speed(), -1);
    assert!(!c.is_paused());
}

#[test]
fn pause_then_resume_restores_speed() {
    let mut c = SimulationClock::new();
    c.slower();
    c.tick();
    c.toggle_pause();
    assert!(c.is_paused());
    assert_eq!(c.speed(), 0);
    assert_eq!(c.elapsed(), 1);
    c.toggle_pause();
    assert!(!c.is_paused());
    assert_eq!(c.speed(), 149);
    assert_eq!(c.elapsed(), 1);
}

#[test]
fn pause_remembers_a_negative_speed() {
    let mut c = SimulationClock::new();
    for _ in 0..160 {
        c.slower();
    }
    assert_eq!(c.speed(), -10);
    c.toggle_pause();
    assert_eq!(c.speed(), 0);
    c.toggle_pause();
    assert_eq!(c.speed(), -10);
}

#[test]
fn slowing_down_to_zero_counts_as_paused() {
    let mut c = SimulationClock::new();
    for _ in 0..150 {
        c.slower();
    }
    assert_eq!(c.speed(), 0);
    assert!(c.is_paused());
    // Nothing was remembered by a pause, so the speed a new clock remembers
    // comes back.
    c.toggle_pause();
    assert_eq!(c.speed(), 150);
}

#[test]
fn resume_after_adjusting_while_paused() {
    let mut c = SimulationClock::new();
    c.toggle_pause();
    c.faster();
    assert_eq!(c.speed(), 1);
    assert!(!c.is_paused());
    c.toggle_pause();
    assert_eq!(c.speed(), 0);
    c.toggle_pause();
    assert_eq!(c.speed(), 1);
}

#[test]
fn clocks_compare_by_what_they_show() {
    let mut a = SimulationClock::new();
    let mut b = SimulationClock::new();
    assert_eq!(a, b);
    a.tick();
    assert_ne!(a, b);
    b.tick();
    assert_eq!(a, b);
    // A paused and resumed clock remembers the same speed as a fresh one.
    a.toggle_pause();
    a.toggle_pause();
    assert_eq!(a, b);
}

fn scalar(value: f64) -> Scalar {
    Scalar::from_bits(value.to_bits())
}

fn value(s: Scalar) -> f64 {
    f64::from_bits(s.to_bits())
}

/// Double-precision arithmetic.
fn float_arith(request: Request) -> Scalar {
    scalar(match request {
        Request::Lift(n) => n as f64,
        Request::Unary(Fun::Neg, a) => -value(a),
        Request::Unary(Fun::Sin, a) => value(a).sin(),
        Request::Unary(Fun::Cos, a) => value(a).cos(),
        Request::Binary(Op::Add, a, b) => value(a) + value(b),
        Request::Binary(Op::Sub, a, b) => value(a) - value(b),
        Request::Binary(Op::Mul, a, b) => value(a) * value(b),
        Request::Binary(Op::Div, a, b) => value(a) / value(b),
    })
}

#[test]
fn step_size_is_zero_at_tick_zero() {
    let c = SimulationClock::new();
    assert_eq!(value(c.step_size(scalar(0.5), &float_arith)), 0.0);
}

#[test]
fn step_size_formula() {
    let mut c = SimulationClock::new();
    for _ in 0..50 {
        c.tick();
    }
    // Fifteen units of speed, a frame of 1/120 s, phase 50 / 100.
    let dt = value(c.step_size(scalar(1.0 / 120.0), &float_arith));
    let expect = 15.0 * (1.0 / 120.0) * (0.5f64).sin();
    assert_eq!(dt.to_bits(), expect.to_bits());
    assert!((dt - 0.059_928_192_325_525_37).abs() < 1e-15);
}

#[test]
fn step_size_follows_the_speed() {
    let mut c = SimulationClock::new();
    for _ in 0..100 {
        c.tick();
    }
    let base = 1.0f64.sin();
    assert_eq!(value(c.step_size(scalar(1.0), &float_arith)), 15.0 * base);
    c.faster();
    assert_eq!(value(c.step_size(scalar(1.0), &float_arith)), 15.1 * base);
    for _ in 0..161 {
        c.slower();
    }
    assert_eq!(c.speed(), -10);
    assert_eq!(value(c.step_size(scalar(1.0), &float_arith)), -1.0 * base);
    assert_eq!(value(c.step_size(scalar(2.0), &float_arith)), -2.0 * base);
}

#[test]
fn step_size_of_a_paused_clock_is_zero() {
    let mut c = SimulationClock::new();
    for _ in 0..37 {
        c.tick();
    }
    c.toggle_pause();
    assert_eq!(value(c.step_size(scalar(0.25), &float_arith)), 0.0);
}

#[test]
fn step_size_swings_with_the_phase() {
    let mut c = SimulationClock::new();
    let mut signs = Vec::new();
    for tick in 1..=700u64 {
        c.tick();
        if tick % 100 == 0 {
            signs.push(value(c.step_size(scalar(1.0), &float_arith)) > 0.0);
        }
    }
    // sin(1), sin(2), sin(3) > 0; sin(4), sin(5), sin(6) < 0; sin(7) > 0.
    assert_eq!(signs, vec![true, true, true, false, false, false, true]);
}
