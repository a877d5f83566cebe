use basketball::plot::scale_centi;
use basketball::plot::try_plot_trajectory_svg;
use basketball::sim::Sample;
use basketball::sim::Trajectory;

fn two_sample_trajectory() -> Trajectory {
    Trajectory {
        samples: vec![
            Sample { t_ms: 0, x_um: 10_000_000, y_um: 5_000_000, entered: false },
            Sample { t_ms: 50, x_um: 2_000_000, y_um: 1_000_000, entered: true },
        ],
        entered: true,
    }
}

#[test]
fn maximum_extent_fills_surface_width() {
    // The larger physical extent lands exactly on the surface width.
    assert_eq!(scale_centi(10_000_000, 500, 10_000_000), 50_000);
    assert_eq!(scale_centi(123_456, 500, 123_456), 50_000);
}

#[test]
fn scaling_is_uniform_and_signed() {
    assert_eq!(scale_centi(5_000_000, 500, 10_000_000), 25_000);
    assert_eq!(scale_centi(-5_000_000, 500, 10_000_000), -25_000);
    assert_eq!(scale_centi(0, 500, 10_000_000), 0);
}

#[test]
fn rendered_document_structure() {
    let traj = two_sample_trajectory();
    let svg = try_plot_trajectory_svg(&traj, 8_000_000, 3_050_000, 500, 300).unwrap();
    let s = svg.to_file_string();
    assert!(s.contains("id=\"motionPath\""));
    assert!(s.contains("id=\"circle\""));
    assert!(s.contains("dur=\"3s\""));
    assert!(s.contains("begin=\"0s\""));
    assert!(s.contains("fill=\"freeze\""));
    assert!(s.contains("repeatCount=\"indefinite\""));
    assert!(s.contains("<mpath xlink:href=\"#motionPath\" />"));
    // The black background of the surface.
    assert!(s.contains("<rect width=\"100%\" height=\"100%\" fill=\"black\" />"));
}

#[test]
fn rendered_elements_exact() {
    let traj = two_sample_trajectory();
    let svg = try_plot_trajectory_svg(&traj, 8_000_000, 3_050_000, 500, 300).unwrap();
    let expected = "<circle cx=\"500.00\" cy=\"50.00\" r=\"2.00\" fill=\"blue\" />\n<circle cx=\"100.00\" cy=\"250.00\" r=\"2.00\" fill=\"green\" />\n<rect x=\"390.00\" y=\"145.50\" width=\"20.00\" height=\"4.00\" style=\"fill:green;stroke:green;stroke-width:1.00\" />\n<path id=\"motionPath\" fill=\"none\" d=\"M500.00,50.00\nL500.00,50.00\nL100.00,250.00\n\" />\n<circle id=\"circle\" cx=\"0.00\" cy=\"0.00\" r=\"3\" fill=\"yellow\" />\n<animateMotion\n    xlink:href=\"#circle\"\n    dur=\"3s\"\n    begin=\"0s\"\n    fill=\"freeze\"\n    repeatCount=\"indefinite\">\n    <mpath xlink:href=\"#motionPath\" />\n</animateMotion>";
    assert_eq!(svg.elem_str_vec.len(), 1);
    assert_eq!(svg.elem_str_vec[0], expected);
}

#[test]
fn empty_trajectory_is_rejected() {
    let traj = Trajectory { samples: vec![], entered: false };
    assert!(try_plot_trajectory_svg(&traj, 0, 0, 500, 300).is_none());
}

#[test]
fn flat_trajectory_at_origin_is_rejected() {
    // The maximum extent must be positive for the scale fit.
    let traj = Trajectory {
        samples: vec![Sample { t_ms: 0, x_um: 0, y_um: 0, entered: false }],
        entered: false,
    };
    assert!(try_plot_trajectory_svg(&traj, 0, 0, 500, 300).is_none());
}

#[test]
fn zero_surface_is_rejected() {
    let traj = two_sample_trajectory();
    assert!(try_plot_trajectory_svg(&traj, 0, 0, 0, 300).is_none());
}
