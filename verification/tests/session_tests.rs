use just_a_simple_wayland_screenshot_tool::{
    Action, InputEvent, MonitorGeometry, Phase, Point, Region, Session,
};

fn monitor() -> MonitorGeometry {
    MonitorGeometry { x: 1920, y: 0, width: 1920, height: 1080 }
}

fn captures(actions: &[Action]) -> usize {
    actions.iter().filter(|a| matches!(a, Action::Capture(_))).count()
}

#[test]
fn a_fresh_session_is_idle() {
    let s = Session::new(monitor());
    assert_eq!(s.phase(), Phase::Idle);
    assert_eq!(s.monitor(), monitor());
    assert_eq!(s.drag_anchor(), None);
    assert_eq!(s.current_selection(), None);
    assert!(!s.is_dragging());
    assert_eq!(s.committed_region(), None);
}

#[test]
fn press_starts_a_drag() {
    let mut s = Session::new(monitor());
    let a = s.press(Point { x: 10, y: 20 });
    assert_eq!(a, Action::Redraw);
    assert_eq!(s.phase(), Phase::Dragging);
    assert_eq!(s.drag_anchor(), Some(Point { x: 10, y: 20 }));
    assert!(s.is_dragging());
    assert_eq!(s.current_selection(), None);
}

#[test]
fn move_updates_the_preview_while_dragging() {
    let mut s = Session::new(monitor());
    s.press(Point { x: 100, y: 100 });
    assert_eq!(s.move_to(Point { x: 150, y: 90 }), Action::Redraw);
    assert_eq!(s.current_selection(), Some(Region::new(100, 90, 50, 10)));
    assert_eq!(s.move_to(Point { x: 300, y: 250 }), Action::Redraw);
    assert_eq!(s.current_selection(), Some(Region::new(100, 100, 200, 150)));
    assert_eq!(s.phase(), Phase::Dragging);
    assert_eq!(s.drag_anchor(), Some(Point { x: 100, y: 100 }));
}

#[test]
fn move_to_the_same_point_twice_changes_nothing_more() {
    let mut s = Session::new(monitor());
    s.press(Point { x: 1, y: 2 });
    s.move_to(Point { x: 30, y: 40 });
    let once = s.current_selection();
    s.move_to(Point { x: 30, y: 40 });
    assert_eq!(s.current_selection(), once);
}

#[test]
fn move_without_a_drag_is_ignored() {
    let mut s = Session::new(monitor());
    assert_eq!(s.move_to(Point { x: 5, y: 5 }), Action::Ignore);
    assert_eq!(s.phase(), Phase::Idle);
    assert_eq!(s.current_selection(), None);
}

#[test]
fn release_without_a_drag_is_ignored() {
    let mut s = Session::new(monitor());
    assert_eq!(s.release(Point { x: 5, y: 5 }), Action::Ignore);
    assert_eq!(s.phase(), Phase::Idle);
    assert_eq!(s.current_selection(), None);
}

#[test]
fn release_finishes_the_selection() {
    let mut s = Session::new(monitor());
    s.press(Point { x: 300, y: 250 });
    s.move_to(Point { x: 200, y: 200 });
    assert_eq!(s.release(Point { x: 100, y: 100 }), Action::Redraw);
    assert_eq!(s.phase(), Phase::Previewing);
    assert_eq!(s.current_selection(), Some(Region::new(100, 100, 200, 150)));
    assert_eq!(s.drag_anchor(), None);
    assert!(!s.is_dragging());
    assert_eq!(s.committed_region(), None);
}

#[test]
fn release_without_movement_selects_an_empty_region() {
    let mut s = Session::new(monitor());
    s.press(Point { x: 40, y: 50 });
    s.release(Point { x: 40, y: 50 });
    assert_eq!(s.phase(), Phase::Previewing);
    assert_eq!(s.current_selection(), Some(Region::new(40, 50, 0, 0)));
    assert_eq!(s.confirm(), Action::Capture(Region::new(1960, 50, 0, 0)));
}

#[test]
fn press_move_release_requests_no_capture() {
    let mut s = Session::new(monitor());
    let actions = [
        s.press(Point { x: 100, y: 100 }),
        s.move_to(Point { x: 200, y: 200 }),
        s.release(Point { x: 300, y: 250 }),
    ];
    assert_eq!(captures(&actions), 0);
    assert_eq!(s.committed_region(), None);
    assert_eq!(s.phase(), Phase::Previewing);
}

#[test]
fn press_release_confirm_requests_one_capture() {
    let mut s = Session::new(monitor());
    let actions = [
        s.press(Point { x: 100, y: 100 }),
        s.release(Point { x: 300, y: 250 }),
        s.confirm(),
    ];
    assert_eq!(captures(&actions), 1);
    assert_eq!(actions[2], Action::Capture(Region::new(2020, 100, 200, 150)));
    assert_eq!(s.phase(), Phase::Committed);
}

#[test]
fn a_second_confirm_requests_nothing() {
    let mut s = Session::new(monitor());
    s.press(Point { x: 100, y: 100 });
    s.release(Point { x: 300, y: 250 });
    assert!(matches!(s.confirm(), Action::Capture(_)));
    let committed = s.committed_region();
    assert_eq!(s.confirm(), Action::Ignore);
    assert_eq!(s.confirm(), Action::Ignore);
    assert_eq!(s.committed_region(), committed);
    assert_eq!(s.phase(), Phase::Committed);
}

#[test]
fn the_committed_region_is_in_global_coordinates() {
    let mut s = Session::new(monitor());
    s.press(Point { x: 100, y: 100 });
    s.move_to(Point { x: 300, y: 250 });
    s.release(Point { x: 300, y: 250 });
    s.confirm();
    assert_eq!(s.committed_region(), Some(Region::new(2020, 100, 200, 150)));
    assert_eq!(s.current_selection(), Some(Region::new(100, 100, 200, 150)));
}

#[test]
fn confirm_before_any_selection_is_ignored() {
    let mut s = Session::new(monitor());
    assert_eq!(s.confirm(), Action::Ignore);
    assert_eq!(s.phase(), Phase::Idle);
    assert_eq!(s.committed_region(), None);
}

#[test]
fn confirm_during_a_drag_is_ignored() {
    let mut s = Session::new(monitor());
    s.press(Point { x: 1, y: 1 });
    s.move_to(Point { x: 9, y: 9 });
    assert_eq!(s.confirm(), Action::Ignore);
    assert_eq!(s.phase(), Phase::Dragging);
    assert_eq!(s.committed_region(), None);
}

#[test]
fn confirm_is_ignored_where_the_global_position_is_not_representable() {
    let mut s = Session::new(MonitorGeometry { x: 1, y: 0, width: 100, height: 100 });
    s.press(Point { x: i32::MAX, y: 0 });
    s.release(Point { x: i32::MAX, y: 10 });
    assert_eq!(s.confirm(), Action::Ignore);
    assert_eq!(s.phase(), Phase::Previewing);
    assert_eq!(s.committed_region(), None);
}

#[test]
fn cancel_when_idle_closes_without_capture() {
    let mut s = Session::new(monitor());
    assert_eq!(s.cancel(), Action::Close);
    assert_eq!(s.phase(), Phase::Cancelled);
}

#[test]
fn cancel_during_a_drag_drops_everything_pending() {
    let mut s = Session::new(monitor());
    s.press(Point { x: 1, y: 1 });
    s.move_to(Point { x: 9, y: 9 });
    assert_eq!(s.cancel(), Action::Close);
    assert_eq!(s.phase(), Phase::Cancelled);
    assert_eq!(s.drag_anchor(), None);
    assert_eq!(s.current_selection(), None);
    assert!(!s.is_dragging());
    assert_eq!(s.committed_region(), None);
}

#[test]
fn cancel_of_a_preview_drops_the_selection() {
    let mut s = Session::new(monitor());
    s.press(Point { x: 1, y: 1 });
    s.release(Point { x: 9, y: 9 });
    assert_eq!(s.cancel(), Action::Close);
    assert_eq!(s.current_selection(), None);
    assert_eq!(s.confirm(), Action::Ignore);
    assert_eq!(s.committed_region(), None);
}

#[test]
fn nothing_moves_a_cancelled_session() {
    let mut s = Session::new(monitor());
    s.cancel();
    let actions = [
        s.press(Point { x: 1, y: 1 }),
        s.move_to(Point { x: 2, y: 2 }),
        s.release(Point { x: 3, y: 3 }),
        s.confirm(),
        s.cancel(),
    ];
    for a in actions {
        assert_eq!(a, Action::Ignore);
    }
    assert_eq!(s.phase(), Phase::Cancelled);
    assert_eq!(s.committed_region(), None);
}

#[test]
fn cancel_after_commit_has_no_effect() {
    let mut s = Session::new(monitor());
    s.press(Point { x: 100, y: 100 });
    s.release(Point { x: 300, y: 250 });
    s.confirm();
    assert_eq!(s.cancel(), Action::Ignore);
    assert_eq!(s.phase(), Phase::Committed);
    assert_eq!(s.committed_region(), Some(Region::new(2020, 100, 200, 150)));
}

#[test]
fn pointer_input_after_commit_is_ignored() {
    let mut s = Session::new(monitor());
    s.press(Point { x: 100, y: 100 });
    s.release(Point { x: 300, y: 250 });
    s.confirm();
    assert_eq!(s.press(Point { x: 0, y: 0 }), Action::Ignore);
    assert_eq!(s.move_to(Point { x: 5, y: 5 }), Action::Ignore);
    assert_eq!(s.release(Point { x: 5, y: 5 }), Action::Ignore);
    assert_eq!(s.committed_region(), Some(Region::new(2020, 100, 200, 150)));
}

#[test]
fn a_new_press_drops_the_previous_preview() {
    let mut s = Session::new(monitor());
    s.press(Point { x: 1, y: 1 });
    s.release(Point { x: 9, y: 9 });
    assert_eq!(s.press(Point { x: 50, y: 60 }), Action::Redraw);
    assert_eq!(s.phase(), Phase::Dragging);
    assert_eq!(s.current_selection(), None);
    assert_eq!(s.drag_anchor(), Some(Point { x: 50, y: 60 }));
    s.release(Point { x: 70, y: 65 });
    assert_eq!(s.confirm(), Action::Capture(Region::new(1970, 60, 20, 5)));
}

#[test]
fn handle_dispatches_every_event() {
    let mut s = Session::new(monitor());
    assert_eq!(s.handle(InputEvent::Press(Point { x: 100, y: 100 })), Action::Redraw);
    assert_eq!(s.handle(InputEvent::Move(Point { x: 120, y: 130 })), Action::Redraw);
    assert_eq!(s.handle(InputEvent::Release(Point { x: 300, y: 250 })), Action::Redraw);
    assert_eq!(
        s.handle(InputEvent::Confirm),
        Action::Capture(Region::new(2020, 100, 200, 150))
    );
    assert_eq!(s.handle(InputEvent::Cancel), Action::Ignore);
    assert_eq!(s.handle(InputEvent::Confirm), Action::Ignore);
}

#[test]
fn no_sequence_of_inputs_requests_two_captures() {
    let events = [
        InputEvent::Press(Point { x: 3, y: 4 }),
        InputEvent::Move(Point { x: 30, y: 40 }),
        InputEvent::Release(Point { x: 30, y: 40 }),
        InputEvent::Confirm,
        InputEvent::Cancel,
    ];
    // Every sequence of four events over the five kinds.
    for code in 0..625usize {
        let mut s = Session::new(monitor());
        let mut n = code;
        let mut count = 0;
        let mut cancelled_first = false;
        for _ in 0..4 {
            let e = events[n % 5];
            n /= 5;
            let before = s.phase();
            let a = s.handle(e);
            if matches!(a, Action::Capture(_)) {
                count += 1;
                assert_eq!(e, InputEvent::Confirm);
                assert_eq!(before, Phase::Previewing);
            }
            if s.phase() == Phase::Cancelled {
                cancelled_first = true;
            }
            if s.is_dragging() {
                assert!(s.drag_anchor().is_some());
            }
        }
        assert!(count <= 1);
        if cancelled_first {
            assert_eq!(count, 0);
            assert_eq!(s.committed_region(), None);
        }
    }
}
