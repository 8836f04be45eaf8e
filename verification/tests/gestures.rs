use doxle::canvas_gesture::{GestureState, TouchDown, TouchMove, TouchUp};
use doxle::estimate_drawing::{
    adjust_held_scale_point, cancel_segment_start, discard_outline_when_inactive,
    discard_segment_when_inactive, ScaleDraft,
};

fn at_rest(g: &GestureState) -> bool {
    g.touch_ids.is_empty()
        && g.touch_pointer_id.is_none()
        && !g.touch_drag_active
        && !g.is_dragging
        && !g.is_panning
        && !g.hold_active
        && !g.magnifier_visible
}

#[test]
fn a_tap_is_a_click_where_the_finger_lifts() {
    let mut g = GestureState::new();
    assert_eq!(g.touch_down(1, false), TouchDown::Drag { hold_timer: None });
    assert!(g.is_dragging && g.touch_drag_active);
    assert_eq!(g.touch_pointer_id, Some(1));
    assert_eq!(g.touch_up(1, false, false), TouchUp::Click { at_magnifier: false });
    assert!(at_rest(&g));
    assert_eq!(g.hold_token, 1);
}

#[test]
fn a_drag_past_the_threshold_pans_and_is_no_click() {
    let mut g = GestureState::new();
    g.touch_down(3, false);
    assert_eq!(g.touch_move(3, false, false), (TouchMove::Track { panning: false }, false));
    assert_eq!(g.touch_move(3, false, true), (TouchMove::Track { panning: true }, false));
    assert_eq!(g.touch_move(3, false, false), (TouchMove::Track { panning: true }, false));
    assert_eq!(g.touch_up(3, false, false), TouchUp::Done);
    assert!(at_rest(&g));
}

#[test]
fn two_fingers_pinch_and_never_click() {
    let mut g = GestureState::new();
    g.touch_down(1, false);
    assert_eq!(g.touch_down(2, false), TouchDown::Pinch);
    assert!(g.touch_had_multi && g.is_panning && !g.is_dragging);
    assert_eq!(g.touch_move(2, false, false), (TouchMove::Pinch, false));
    assert_eq!(g.touch_up(2, false, false), TouchUp::ContinueWith(1));
    assert_eq!(g.touch_pointer_id, Some(1));
    assert!(g.is_dragging && !g.is_panning);
    assert_eq!(g.touch_up(1, false, false), TouchUp::Done);
    assert!(at_rest(&g));
    assert!(!g.touch_had_multi);
}

#[test]
fn three_fingers_keep_pinching_when_one_lifts() {
    let mut g = GestureState::new();
    g.touch_down(1, false);
    g.touch_down(2, false);
    g.touch_down(3, false);
    assert_eq!(g.touch_ids, vec![1, 2, 3]);
    assert_eq!(g.touch_up(2, false, false), TouchUp::RestartPinch);
    assert_eq!(g.touch_ids, vec![1, 3]);
    assert!(g.is_panning);
}

#[test]
fn the_same_finger_twice_is_counted_once() {
    let mut g = GestureState::new();
    g.touch_down(5, false);
    assert_eq!(g.touch_down(5, false), TouchDown::Drag { hold_timer: None });
    assert_eq!(g.touch_ids, vec![5]);
}

#[test]
fn an_unknown_finger_moving_is_ignored() {
    let mut g = GestureState::new();
    g.touch_down(1, false);
    assert_eq!(g.touch_move(9, true, true), (TouchMove::Ignore, false));
    assert_eq!(g.touch_pointer_id, Some(1));
}

#[test]
fn a_held_finger_places_the_scale_point_at_the_magnifier() {
    let mut g = GestureState::new();
    assert_eq!(g.touch_down(7, true), TouchDown::Drag { hold_timer: Some(1) });
    g.hold_fired(1, 7, true);
    assert!(g.hold_active && g.magnifier_visible);
    assert_eq!(g.touch_move(7, true, true), (TouchMove::HoldAdjust, true));
    assert_eq!(g.touch_up(7, true, true), TouchUp::Click { at_magnifier: true });
    assert!(at_rest(&g));
}

#[test]
fn a_stale_hold_timer_does_nothing() {
    let mut g = GestureState::new();
    g.touch_down(7, true);
    assert_eq!(g.touch_move(7, true, true), (TouchMove::Track { panning: true }, true));
    assert_eq!(g.hold_token, 2);
    g.hold_fired(1, 7, true);
    assert!(!g.hold_active && !g.magnifier_visible);
}

#[test]
fn cancel_and_leave_release_everything() {
    let mut g = GestureState::new();
    g.touch_down(1, false);
    g.touch_down(2, false);
    g.touch_cancel();
    assert!(at_rest(&g) && !g.touch_had_multi);
    g.mouse_down(true);
    g.pointer_leave();
    assert!(at_rest(&g));
}

#[test]
fn mouse_click_and_mouse_pan() {
    let mut g = GestureState::new();
    g.mouse_down(true);
    assert!(!g.mouse_move(false));
    assert!(g.mouse_up(true, false));
    g.mouse_down(true);
    assert!(g.mouse_move(true));
    assert!(!g.mouse_up(true, false));
    g.mouse_down(true);
    assert!(!g.mouse_up(true, true));
    g.mouse_down(false);
    assert!(!g.is_dragging);
    assert!(!g.mouse_up(true, false));
    g.mouse_down(true);
    assert!(!g.mouse_up(false, false));
    assert!(!g.is_dragging);
}

#[test]
fn held_release_moves_the_second_scale_point_on_the_same_page() {
    let mut d = ScaleDraft { points: vec![(1, 1), (5, 5)], page_id: Some("2".to_string()), distance_input: "300".to_string() };
    assert!(adjust_held_scale_point(&mut d, "2", (6, 6)));
    assert_eq!(d.points, vec![(1, 1), (6, 6)]);
    assert_eq!(d.distance_input, "300");
    assert!(!adjust_held_scale_point(&mut d, "3", (7, 7)));
    assert_eq!(d.points, vec![(1, 1), (6, 6)]);
    let mut one = ScaleDraft { points: vec![(1, 1)], page_id: Some("2".to_string()), distance_input: String::new() };
    assert!(!adjust_held_scale_point(&mut one, "2", (7, 7)));
    assert_eq!(one.points, vec![(1, 1)]);
}

#[test]
fn switching_a_tool_off_drops_its_draft() {
    let mut points = vec![(1, 2), (3, 4)];
    let mut page = Some("1".to_string());
    discard_outline_when_inactive(true, &mut points, &mut page);
    assert_eq!(points.len(), 2);
    assert_eq!(page.as_deref(), Some("1"));
    discard_outline_when_inactive(false, &mut points, &mut page);
    assert!(points.is_empty() && page.is_none());

    let mut start = Some((1, 1));
    let mut seg_page = Some("4".to_string());
    discard_segment_when_inactive(true, &mut start, &mut seg_page);
    assert_eq!(start, Some((1, 1)));
    discard_segment_when_inactive(false, &mut start, &mut seg_page);
    assert!(start.is_none() && seg_page.is_none());
}

#[test]
fn right_click_drops_a_segment_start() {
    let mut start = Some((3, 3));
    assert!(cancel_segment_start(&mut start));
    assert!(start.is_none());
    assert!(!cancel_segment_start(&mut start));
}
