use life::DriverAction;
use life::Session;
use life::session::CELL_SIZE;

#[test]
fn new_session_is_paused_and_dead() {
    let s = Session::new();
    assert!(!s.running);
    assert!(!s.repaint);
    assert!(!s.next);
    assert!(!s.exited);
    assert_eq!(s.cell_size, CELL_SIZE);
    for x in 0..life::grid::WIDTH {
        for y in 0..life::grid::HEIGHT {
            assert_eq!(s.grid.get(x, y), Some(false));
        }
    }
}

#[test]
fn toggle_run_flips_and_labels() {
    let mut s = Session::new();
    assert_eq!(s.run_label(), "Start");
    s.toggle_run();
    assert!(s.running);
    assert_eq!(s.run_label(), "Pause");
    s.toggle_run();
    assert!(!s.running);
    assert_eq!(s.run_label(), "Start");
}

#[test]
fn zoom_out_never_below_initial() {
    let mut s = Session::new();
    for _ in 0..5 {
        s.zoom_out();
        assert_eq!(s.cell_size, CELL_SIZE);
    }
    for _ in 0..3 {
        s.zoom_in();
    }
    assert_eq!(s.cell_size, CELL_SIZE + 3);
    for _ in 0..10 {
        s.zoom_out();
        assert!(s.cell_size >= CELL_SIZE);
    }
    assert_eq!(s.cell_size, CELL_SIZE);
}

#[test]
fn step_while_paused_advances_exactly_once() {
    let mut s = Session::new();
    // A column blinker away from the edges.
    s.paint(20, 19, true);
    s.paint(20, 20, true);
    s.paint(20, 21, true);

    s.step();
    assert!(s.next);
    assert!(s.repaint);

    s.render_tick();
    // Advanced one generation: the blinker is now a row.
    assert_eq!(s.grid.get(19, 20), Some(true));
    assert_eq!(s.grid.get(20, 20), Some(true));
    assert_eq!(s.grid.get(21, 20), Some(true));
    assert_eq!(s.grid.get(20, 19), Some(false));
    assert_eq!(s.grid.get(20, 21), Some(false));
    assert!(!s.next);

    // Paused again: a further render tick changes nothing.
    s.render_tick();
    assert_eq!(s.grid.get(19, 20), Some(true));
    assert_eq!(s.grid.get(20, 19), Some(false));
    assert!(!s.next);
}

#[test]
fn step_while_running_is_cancelled() {
    let mut s = Session::new();
    s.step();
    assert!(s.next);
    s.toggle_run();
    s.step();
    assert!(!s.next);
}

#[test]
fn render_tick_advances_while_running() {
    let mut s = Session::new();
    s.paint(20, 19, true);
    s.paint(20, 20, true);
    s.paint(20, 21, true);
    s.toggle_run();
    s.render_tick();
    assert_eq!(s.grid.get(19, 20), Some(true));
    assert_eq!(s.grid.get(20, 19), Some(false));
    s.render_tick();
    assert_eq!(s.grid.get(20, 19), Some(true));
    assert_eq!(s.grid.get(19, 20), Some(false));
}

#[test]
fn paint_sets_cells_and_ignores_out_of_range() {
    let mut s = Session::new();
    s.paint(3, 4, true);
    assert_eq!(s.grid.get(3, 4), Some(true));
    assert!(s.repaint);
    s.paint(3, 4, false);
    assert_eq!(s.grid.get(3, 4), Some(false));
    s.paint(-1, -1, true);
    s.paint(life::grid::WIDTH, 0, true);
    for x in 0..life::grid::WIDTH {
        for y in 0..life::grid::HEIGHT {
            assert_eq!(s.grid.get(x, y), Some(false));
        }
    }
}

#[test]
fn clear_resets_grid_and_requests_repaint() {
    let mut s = Session::new();
    s.randomize();
    s.clear();
    assert!(s.repaint);
    for x in 0..life::grid::WIDTH {
        for y in 0..life::grid::HEIGHT {
            assert_eq!(s.grid.get(x, y), Some(false));
        }
    }
}

#[test]
fn randomize_requests_repaint_and_keeps_flags() {
    let mut s = Session::new();
    s.randomize();
    assert!(s.repaint);
    assert!(!s.running);
    assert!(!s.next);
    assert!(!s.exited);
    assert_eq!(s.cell_size, CELL_SIZE);
}

#[test]
fn driver_tick_decisions() {
    let mut s = Session::new();
    assert_eq!(s.driver_tick(), DriverAction::Idle);

    s.paint(1, 1, true);
    assert!(s.repaint);
    assert_eq!(s.driver_tick(), DriverAction::Redraw);
    assert!(!s.repaint);
    assert_eq!(s.driver_tick(), DriverAction::Idle);

    s.toggle_run();
    assert_eq!(s.driver_tick(), DriverAction::Redraw);
    assert_eq!(s.driver_tick(), DriverAction::Redraw);

    s.exit();
    assert_eq!(s.driver_tick(), DriverAction::Stop);
}
