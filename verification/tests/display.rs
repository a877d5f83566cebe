use basketball::grid::meters_to_cell;
use basketball::grid::DisplayCMD;
use basketball::sim::Sample;
use basketball::sim::Trajectory;

fn blank_surface() -> DisplayCMD {
    DisplayCMD::new(50, 80, 10_000_000, 10_000_000).unwrap()
}

#[test]
fn far_edge_maps_to_last_cell() {
    // A coordinate exactly at the covered extent lands on the last cell.
    assert_eq!(meters_to_cell(10_000_000, 10_000_000, 50), 49);
    assert_eq!(meters_to_cell(10_000_000, 10_000_000, 80), 79);
}

#[test]
fn origin_maps_to_first_cell() {
    assert_eq!(meters_to_cell(0, 10_000_000, 50), 0);
}

#[test]
fn projection_rounds_to_nearest_cell() {
    // 5 m of 10 m over 50 cells: 24.5 rounds up to 25.
    assert_eq!(meters_to_cell(5_000_000, 10_000_000, 50), 25);
}

#[test]
fn surface_rejects_empty_dimensions() {
    assert!(DisplayCMD::new(0, 80, 10_000_000, 10_000_000).is_none());
    assert!(DisplayCMD::new(50, 80, 0, 10_000_000).is_none());
}

#[test]
fn pixel_roundtrip() {
    let mut d = blank_surface();
    assert_eq!(d.get_pixel(3, 4), ' ');
    d.set_pixel('O', 3, 4);
    assert_eq!(d.get_pixel(3, 4), 'O');
    assert_eq!(d.get_pixel(4, 3), ' ');
}

#[test]
fn plot_marks_trace_cell() {
    let mut d = blank_surface();
    let traj = Trajectory {
        samples: vec![Sample { t_ms: 0, x_um: 5_000_000, y_um: 0, entered: false }],
        entered: false,
    };
    assert!(d.plot_trajectory(&traj));
    // col 40 of 80 cells over 10 m; row 0 at the ground.
    assert_eq!(d.get_pixel(0, 40), 'O');
}

#[test]
fn plot_marks_entry_run() {
    let mut d = blank_surface();
    let traj = Trajectory {
        samples: vec![Sample { t_ms: 0, x_um: 5_000_000, y_um: 0, entered: true }],
        entered: true,
    };
    assert!(d.plot_trajectory(&traj));
    assert_eq!(d.get_pixel(0, 38), '=');
    assert_eq!(d.get_pixel(0, 39), '=');
    assert_eq!(d.get_pixel(0, 40), '*');
    assert_eq!(d.get_pixel(0, 41), '=');
    assert_eq!(d.get_pixel(0, 42), '=');
}

#[test]
fn plot_rejects_out_of_bounds_coordinate() {
    let mut d = blank_surface();
    let traj = Trajectory {
        samples: vec![Sample { t_ms: 0, x_um: 10_000_001, y_um: 0, entered: false }],
        entered: false,
    };
    assert!(!d.plot_trajectory(&traj));
    // The surface is left untouched.
    for row in 0..50 {
        for col in 0..80 {
            assert_eq!(d.get_pixel(row, col), ' ');
        }
    }
}

#[test]
fn plot_rejects_negative_coordinate() {
    let mut d = blank_surface();
    let traj = Trajectory {
        samples: vec![Sample { t_ms: 0, x_um: -1, y_um: 0, entered: false }],
        entered: false,
    };
    assert!(!d.plot_trajectory(&traj));
}

#[test]
fn lines_come_out_top_down() {
    let mut d = blank_surface();
    d.set_pixel('G', 0, 7);
    d.set_pixel('T', 49, 2);
    let lines = d.render_lines();
    assert_eq!(lines.len(), 50);
    // Row 0 sits at the ground, so it prints last.
    assert_eq!(lines[49][7], 'G');
    assert_eq!(lines[0][2], 'T');
    for line in &lines {
        assert_eq!(line.len(), 80);
    }
}
