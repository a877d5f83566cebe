use basketball::sim::conv_meters_sec_to_km_hour;
use basketball::sim::position;
use basketball::sim::simulate_trajectory;
use basketball::sim::time_steps;
use basketball::sim::LaunchParameters;
use basketball::sim::Sample;
use basketball::sim::SimulationWindow;
use basketball::sim::Target;
use basketball::sim::GRAVITY_NM_MS2;

fn scenario_launch() -> LaunchParameters {
    // 10 m/s at the angle value 45 handed straight to the trig functions,
    // decomposed into micrometer-per-millisecond components.
    let v0x = (10.0_f64 * f64::cos(45.0) * 1000.0) as i64;
    let v0y = (10.0_f64 * f64::sin(45.0) * 1000.0) as i64;
    LaunchParameters::new(0, 1_500_000, v0x, v0y).unwrap()
}

#[test]
fn window_accepts_three_steps() {
    assert!(SimulationWindow::new(3000, 3).is_some());
}

#[test]
fn window_rejects_two_steps() {
    assert!(SimulationWindow::new(3000, 2).is_none());
}

#[test]
fn window_rejects_nonpositive_duration() {
    assert!(SimulationWindow::new(0, 60).is_none());
    assert!(SimulationWindow::new(-5, 60).is_none());
}

#[test]
fn window_rejects_subtick_resolution() {
    // Two steps would have to share the same millisecond.
    assert!(SimulationWindow::new(1, 3).is_none());
    assert!(SimulationWindow::new(2, 3).is_some());
}

#[test]
fn launch_rejects_zero_velocity() {
    assert!(LaunchParameters::new(0, 0, 0, 0).is_none());
    assert!(LaunchParameters::new(0, 0, 1, 0).is_some());
}

#[test]
fn target_rejects_negative_radius() {
    assert!(Target::new(0, 0, -1).is_none());
    assert!(Target::new(0, 0, 0).is_some());
}

#[test]
fn time_steps_shape() {
    let w = SimulationWindow::new(3000, 60).unwrap();
    let ts = time_steps(&w);
    assert_eq!(ts.len(), 60);
    assert_eq!(ts[0], 0);
    assert_eq!(ts[59], 3000);
    // Interior samples sit on whole multiples of the 50 ms step.
    assert_eq!(ts[1], 50);
    assert_eq!(ts[58], 2900);
    for i in 1..ts.len() {
        assert!(ts[i - 1] < ts[i]);
    }
}

#[test]
fn position_at_launch_instant() {
    let p = scenario_launch();
    let (x, y) = position(&p, GRAVITY_NM_MS2, 0);
    assert_eq!(x, 0);
    assert_eq!(y, 1_500_000);
}

#[test]
fn position_after_one_second() {
    let p = LaunchParameters::new(0, 1_500_000, 5253, 8509).unwrap();
    let (x, y) = position(&p, GRAVITY_NM_MS2, 1000);
    assert_eq!(x, 5_253_000);
    // 1_500_000 + 8_509_000 - 9807 * 1000 * 1000 / 2000
    assert_eq!(y, 5_105_500);
}

#[test]
fn scenario_trajectory() {
    let p = scenario_launch();
    let tgt = Target::new(8_000_000, 3_050_000, 100_000).unwrap();
    let w = SimulationWindow::new(3000, 60).unwrap();
    let traj = simulate_trajectory(&p, &tgt, GRAVITY_NM_MS2, &w);
    assert_eq!(
        traj.samples[0],
        Sample { t_ms: 0, x_um: 0, y_um: 1_500_000, entered: false }
    );
    // The ball dips below the ground between the 1850 ms and 1900 ms
    // samples, so exactly the first 38 of the 60 samples are retained.
    assert_eq!(traj.samples.len(), 38);
    // On the 50 ms grid the closest approach to the basket stays
    // outside the 0.1 m capture radius.
    assert!(!traj.entered);
    for s in &traj.samples {
        assert!(!s.entered);
    }
}

#[test]
fn trajectory_flag_is_or_of_sample_flags() {
    let p = scenario_launch();
    let w = SimulationWindow::new(3000, 60).unwrap();
    // A target sitting exactly on the sample at t = 500 ms.
    let hit_tgt = Target::new(2_626_500, 4_528_625, 100_000).unwrap();
    let t1 = simulate_trajectory(&p, &hit_tgt, GRAVITY_NM_MS2, &w);
    assert!(t1.entered);
    assert!(t1.samples[10].entered);
    assert_eq!(t1.entered, t1.samples.iter().any(|s| s.entered));
    let miss_tgt = Target::new(8_000_000, 3_050_000, 100_000).unwrap();
    let t2 = simulate_trajectory(&p, &miss_tgt, GRAVITY_NM_MS2, &w);
    assert_eq!(t2.entered, t2.samples.iter().any(|s| s.entered));
}

#[test]
fn retained_samples_above_ground() {
    // A throw angled downward from a low position loses most samples.
    let p = LaunchParameters::new(0, 1_000_000, 1000, -5000).unwrap();
    let tgt = Target::new(8_000_000, 3_050_000, 100_000).unwrap();
    let w = SimulationWindow::new(1000, 11).unwrap();
    let traj = simulate_trajectory(&p, &tgt, GRAVITY_NM_MS2, &w);
    assert_eq!(traj.samples.len(), 2);
    for s in &traj.samples {
        assert!(s.y_um >= 0);
    }
}

#[test]
fn simulation_is_deterministic() {
    let p = scenario_launch();
    let tgt = Target::new(8_000_000, 3_050_000, 100_000).unwrap();
    let w = SimulationWindow::new(3000, 60).unwrap();
    let t1 = simulate_trajectory(&p, &tgt, GRAVITY_NM_MS2, &w);
    let t2 = simulate_trajectory(&p, &tgt, GRAVITY_NM_MS2, &w);
    assert_eq!(t1.samples, t2.samples);
    assert_eq!(t1.entered, t2.entered);
}

#[test]
fn speed_conversion() {
    // 10 m/s is 36.00 km/h.
    assert_eq!(conv_meters_sec_to_km_hour(10_000), 3600);
    assert_eq!(conv_meters_sec_to_km_hour(0), 0);
    // 1 mm/s is 0.0036 km/h, which truncates to 0.00.
    assert_eq!(conv_meters_sec_to_km_hour(1), 0);
}
