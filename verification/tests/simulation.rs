use pendulum::Pendulum;
use std::cell::RefCell;

fn demo() -> Pendulum<f32> {
    Pendulum::new(400.0, 0.0, 200.0, 0.95, 1.0, 0.0)
}

fn bits(p: &Pendulum<f32>) -> [u32; 9] {
    [
        p.origin.x.to_bits(),
        p.origin.y.to_bits(),
        p.position.x.to_bits(),
        p.position.y.to_bits(),
        p.angle.to_bits(),
        p.angular_velocity.to_bits(),
        p.angular_acceleration.to_bits(),
        p.arm_length.to_bits(),
        p.gravity.to_bits(),
    ]
}

#[test]
fn new_starts_at_rest() {
    let p = demo();
    assert_eq!((p.origin.x, p.origin.y), (400.0, 0.0));
    assert_eq!((p.position.x, p.position.y), (0.0, 0.0));
    assert_eq!(p.angle, 1.0);
    assert_eq!(p.angular_velocity, 0.0);
    assert_eq!(p.angular_acceleration, 0.0);
    assert_eq!(p.arm_length, 200.0);
    assert_eq!(p.gravity, 0.95);
}

#[test]
fn first_step_follows_the_formulas() {
    let mut p = Pendulum::new(12.5f32, -3.0, 150.0, 0.95, 0.5, 0.0);
    p.update(f32::sin, f32::cos);
    let pull: f32 = -0.95f32 * 0.5f32.sin() / 150.0;
    let speed: f32 = 0.0 + pull;
    let angle: f32 = 0.5 + speed;
    assert_eq!(p.angular_acceleration.to_bits(), pull.to_bits());
    assert_eq!(p.angular_velocity.to_bits(), speed.to_bits());
    assert_eq!(p.angle.to_bits(), angle.to_bits());
    assert_eq!(p.position.x.to_bits(), (150.0 * angle.sin() + 12.5).to_bits());
    assert_eq!(p.position.y.to_bits(), (150.0 * angle.cos() + -3.0).to_bits());
    assert_eq!((p.origin.x, p.origin.y), (12.5, -3.0));
    assert_eq!((p.arm_length, p.gravity), (150.0, 0.95));
}

#[test]
fn first_step_of_the_demo_pendulum() {
    let mut p = demo();
    p.update(f32::sin, f32::cos);
    assert!((p.angular_acceleration - -0.003997).abs() < 1e-6);
    assert!((p.angular_velocity - -0.003997).abs() < 1e-6);
    assert!((p.angle - 0.996003).abs() < 1e-6);
    assert!((p.position.x - 567.861).abs() < 1e-2);
    assert!((p.position.y - 108.732).abs() < 1e-2);
    assert!((p.position.x - 568.30).abs() < 0.5);
    assert!((p.position.y - 108.87).abs() < 0.5);
}

#[test]
fn second_step_builds_on_the_velocity() {
    let mut p = demo();
    p.update(f32::sin, f32::cos);
    let (angle1, speed1) = (p.angle, p.angular_velocity);
    p.update(f32::sin, f32::cos);
    let pull: f32 = -0.95f32 * angle1.sin() / 200.0;
    assert_eq!(p.angular_acceleration.to_bits(), pull.to_bits());
    assert_eq!(p.angular_velocity.to_bits(), (speed1 + pull).to_bits());
    assert_eq!(p.angle.to_bits(), (angle1 + (speed1 + pull)).to_bits());
}

#[test]
fn update_is_swing_then_place() {
    let mut whole = demo();
    let mut parts = demo();
    for _ in 0..50 {
        whole.update(f32::sin, f32::cos);
        let before = parts.angle.sin();
        parts.swing(before);
        let (sin, cos) = (parts.angle.sin(), parts.angle.cos());
        parts.place(sin, cos);
        assert_eq!(bits(&whole), bits(&parts));
    }
}

#[test]
fn swing_leaves_the_ball() {
    let mut p = demo();
    p.swing(1.0f32.sin());
    assert_eq!((p.position.x, p.position.y), (0.0, 0.0));
    assert!((p.angle - 0.996003).abs() < 1e-6);
}

#[test]
fn place_moves_only_the_ball() {
    let mut p = demo();
    p.place(0.5, -0.25);
    assert_eq!((p.position.x, p.position.y), (500.0, -50.0));
    assert_eq!(p.angle, 1.0);
    assert_eq!(p.angular_velocity, 0.0);
    assert_eq!(p.angular_acceleration, 0.0);
}

#[test]
fn update_asks_for_three_readings() {
    let sines: RefCell<Vec<f32>> = RefCell::new(Vec::new());
    let cosines: RefCell<Vec<f32>> = RefCell::new(Vec::new());
    let mut p = demo();
    p.update(
        |a: f32| {
            sines.borrow_mut().push(a);
            a.sin()
        },
        |a: f32| {
            cosines.borrow_mut().push(a);
            a.cos()
        },
    );
    assert_eq!(*sines.borrow(), vec![1.0, p.angle]);
    assert_eq!(*cosines.borrow(), vec![p.angle]);
}

#[test]
fn same_start_same_trajectory() {
    let mut a = demo();
    let mut b = demo();
    for _ in 0..1000 {
        a.update(f32::sin, f32::cos);
        b.update(f32::sin, f32::cos);
        assert_eq!(bits(&a), bits(&b));
    }
}

#[test]
fn trajectory_ignores_ball_and_stored_acceleration() {
    let mut a = demo();
    let mut b = demo();
    b.position.set(-77.0, 1e9);
    b.angular_acceleration = 123.0;
    a.update(f32::sin, f32::cos);
    b.update(f32::sin, f32::cos);
    assert_eq!(bits(&a), bits(&b));
}

#[test]
fn amplitude_stays_bounded() {
    let mut p = demo();
    let mut widest: f32 = 0.0;
    for _ in 0..1000 {
        p.update(f32::sin, f32::cos);
        assert!(p.angle.is_finite());
        widest = widest.max(p.angle.abs());
    }
    assert!(widest <= 1.05);
    assert!(widest >= 0.95);
}

#[test]
fn ball_stays_on_the_arm() {
    let mut p = demo();
    for _ in 0..1000 {
        p.update(f32::sin, f32::cos);
        assert_eq!(p.position.x.to_bits(), (200.0 * p.angle.sin() + 400.0).to_bits());
        assert_eq!(p.position.y.to_bits(), (200.0 * p.angle.cos() + 0.0).to_bits());
        let (dx, dy) = (p.position.x - 400.0, p.position.y);
        assert!(((dx * dx + dy * dy).sqrt() - 200.0).abs() < 1e-2);
    }
}

#[test]
fn hanging_straight_down_it_stays() {
    let mut p = Pendulum::new(400.0f32, 0.0, 200.0, 0.95, 0.0, 0.0);
    for _ in 0..100 {
        p.update(f32::sin, f32::cos);
        assert_eq!(p.angular_acceleration, 0.0);
        assert_eq!(p.angular_velocity, 0.0);
        assert_eq!(p.angle, 0.0);
        assert_eq!((p.position.x, p.position.y), (400.0, 200.0));
    }
}

#[test]
fn pull_is_against_the_angle() {
    let mut right = Pendulum::new(0.0f32, 0.0, 200.0, 0.95, 0.3, 0.0);
    let mut left = Pendulum::new(0.0f32, 0.0, 200.0, 0.95, -0.3, 0.0);
    right.update(f32::sin, f32::cos);
    left.update(f32::sin, f32::cos);
    assert!(right.angular_acceleration < 0.0);
    assert!(left.angular_acceleration > 0.0);
    assert_eq!(right.angular_acceleration, -left.angular_acceleration);
}

#[test]
fn arm_of_no_length_gives_no_number() {
    let mut p = Pendulum::new(0.0f32, 0.0, 0.0, 0.95, 1.0, 0.0);
    p.update(f32::sin, f32::cos);
    assert!(p.angular_acceleration.is_infinite());
    assert!(!p.angle.is_finite());
}

#[test]
fn step_on_integers() {
    let mut p: Pendulum<i32> = Pendulum::new(7i32, 9i32, 2i32, 4i32, 1i32, 0i32);
    p.update(|_: i32| 3i32, |_: i32| 5i32);
    assert_eq!(p.angular_acceleration, -6i32);
    assert_eq!(p.angular_velocity, -6i32);
    assert_eq!(p.angle, -5i32);
    assert_eq!((p.position.x, p.position.y), (13i32, 19i32));
    assert_eq!((p.origin.x, p.origin.y), (7i32, 9i32));
}

#[test]
fn hanging_still_on_integers() {
    let mut p: Pendulum<i32> = Pendulum::new(7i32, 9i32, 2i32, 4i32, 0i32, 0i32);
    for _ in 0..10 {
        p.update(|_: i32| 0i32, |_: i32| 1i32);
        assert_eq!(p.angular_acceleration, 0i32);
        assert_eq!(p.angular_velocity, 0i32);
        assert_eq!(p.angle, 0i32);
        assert_eq!((p.position.x, p.position.y), (7i32, 11i32));
    }
}
