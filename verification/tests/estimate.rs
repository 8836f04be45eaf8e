use doxle::estimate_drawing::{
    footprint_save_allowed, handle_cabinetry_click, handle_ewalls_click, handle_footprint_click,
    handle_scale_canvas_click, undo_last_point, ScaleDraft,
};
use doxle::estimate_flow::{
    canvas_cursor_style, draw_hint, files_error_message, is_cancel_drawing_key,
    is_panel_toggle_key, measurement_display, measurement_listed, mobile_shows_next,
    mobile_step_subtitle, mobile_step_title, next_button_label, next_step, panel_shows_next,
    poll_decision, poll_message, step_description, step_indicator, step_title, tool_for_step,
    DrawingTool, Measurement, PollAction, PollOutcome,
};
use doxle::estimate_types::{
    build_page_layouts, canvas_content_bounds, classification_label, classification_rank,
    detect_page_id_from_world_y, find_page_at, first_floor_plan_page, page_sort_key,
    sort_page_ids, PageInfo, PageLayout, PAGE_GAP,
};

fn page(num: usize, key: &str, w: u32, h: u32) -> PageInfo {
    PageInfo {
        page_num: num,
        classification: "floor_plan".to_string(),
        display_key: key.to_string(),
        display_width: w,
        display_height: h,
    }
}

fn layouts() -> Vec<PageLayout> {
    build_page_layouts(
        vec![page(1, "a.png", 800, 600), page(2, "b.png", 1200, 400), page(3, "c.png", 900, 500)],
        "https://cdn.example",
    )
}

#[test]
fn classification_rank_and_label() {
    assert_eq!(classification_rank("floor_plan"), 0);
    assert_eq!(classification_rank("elevation"), 1);
    assert_eq!(classification_rank("electrical"), 2);
    assert_eq!(classification_rank("site_plan"), 3);
    assert_eq!(classification_rank("other"), 4);
    assert_eq!(classification_rank("roof"), 5);
    assert_eq!(classification_label("floor_plan"), "Floor Plan");
    assert_eq!(classification_label("elevation"), "Elevations");
    assert_eq!(classification_label("electrical"), "Electrical");
    assert_eq!(classification_label("site_plan"), "Site Plan");
    assert_eq!(classification_label("other"), "Other");
    assert_eq!(classification_label("whatever"), "Other");
}

#[test]
fn pages_are_stacked_with_gap() {
    let l = layouts();
    assert_eq!(l.len(), 3);
    assert_eq!(l[0].y_offset, 0);
    assert_eq!(l[1].y_offset, 600 + PAGE_GAP);
    assert_eq!(l[2].y_offset, 600 + 150 + 400 + 150);
    assert_eq!(l[1].image_url, "https://cdn.example/cdn/app/b.png");
    assert_eq!(l[2].page_num, 3);
    assert_eq!(l[2].classification, "floor_plan");
    assert_eq!(canvas_content_bounds(&l), (1200, 1300 + 500));
    assert_eq!(canvas_content_bounds(&[]), (0, 0));
    assert_eq!(first_floor_plan_page(&l).map(|p| p.page_num), Some(1));
    assert!(first_floor_plan_page(&[]).is_none());
}

#[test]
fn page_detection_by_row() {
    let l = layouts();
    assert_eq!(detect_page_id_from_world_y(&l, 0), Some("1".to_string()));
    assert_eq!(detect_page_id_from_world_y(&l, 599), Some("1".to_string()));
    assert_eq!(detect_page_id_from_world_y(&l, 600), None);
    assert_eq!(detect_page_id_from_world_y(&l, 749), None);
    assert_eq!(detect_page_id_from_world_y(&l, 750), Some("2".to_string()));
    assert_eq!(detect_page_id_from_world_y(&l, 1799), Some("3".to_string()));
    assert_eq!(detect_page_id_from_world_y(&l, 1800), None);
    assert_eq!(detect_page_id_from_world_y(&l, -1), None);
    assert_eq!(find_page_at(&l, 800), Some(1));
}

#[test]
fn page_sort_keys() {
    assert_eq!(page_sort_key("3"), 3);
    assert_eq!(page_sort_key("12"), 12);
    assert_eq!(page_sort_key("abc"), 999);
    assert_eq!(page_sort_key(&42usize.to_string()), 42);
    let ids: Vec<String> = ["10", "x", "2", "1"].iter().map(|s| s.to_string()).collect();
    assert_eq!(sort_page_ids(&ids), vec!["1", "2", "10", "x"]);
    assert!(sort_page_ids(&vec![]).is_empty());
}

#[test]
fn footprint_click_sequence_closes_polygon() {
    let l = layouts();
    let r = handle_footprint_click(&l, Vec::new(), None, 10, (1, 10), false);
    assert_eq!(r.next_points, vec![(1, 10)]);
    assert_eq!(r.next_page_id.as_deref(), Some("1"));
    let r = handle_footprint_click(&l, r.next_points, Some("1"), 20, (2, 20), false);
    let r = handle_footprint_click(&l, r.next_points, Some("1"), 30, (3, 30), false);
    assert_eq!(r.next_points.len(), 3);
    assert!(r.closed_polygon.is_none());
    let r = handle_footprint_click(&l, r.next_points, Some("1"), 11, (1, 11), true);
    assert!(r.next_points.is_empty());
    assert_eq!(r.next_page_id, None);
    let (page, pts) = r.closed_polygon.unwrap();
    assert_eq!(page, "1");
    assert_eq!(pts, vec![(1, 10), (2, 20), (3, 30)]);
}

#[test]
fn footprint_click_edge_cases() {
    let l = layouts();
    // in the gap between pages: nothing changes
    let r = handle_footprint_click(&l, vec![(0, 0)], Some("1"), 700, (9, 700), false);
    assert_eq!(r.next_points, vec![(0, 0)]);
    assert_eq!(r.next_page_id.as_deref(), Some("1"));
    // another page restarts the outline
    let r = handle_footprint_click(&l, vec![(0, 0), (1, 1)], Some("1"), 800, (5, 800), false);
    assert_eq!(r.next_points, vec![(5, 800)]);
    assert_eq!(r.next_page_id.as_deref(), Some("2"));
    // near the first point but fewer than three points: keeps drawing
    let r = handle_footprint_click(&l, vec![(0, 0), (1, 1)], Some("1"), 2, (0, 2), true);
    assert_eq!(r.next_points, vec![(0, 0), (1, 1), (0, 2)]);
    assert!(r.closed_polygon.is_none());
}

#[test]
fn ewalls_click_follows_the_same_rule() {
    let l = layouts();
    let r = handle_ewalls_click(&l, vec![(0, 0), (1, 1), (2, 2)], Some("2"), 800, (0, 800), true);
    assert_eq!(r.closed_path.map(|(p, v)| (p, v.len())), Some(("2".to_string(), 3)));
    let r = handle_ewalls_click(&l, vec![(0, 0), (1, 1), (2, 2)], Some("1"), 800, (0, 800), true);
    assert!(r.closed_path.is_none());
    assert_eq!(r.next_points, vec![(0, 800)]);
}

#[test]
fn cabinetry_segments() {
    let l = layouts();
    let r = handle_cabinetry_click(&l, None, None, 10, (0, 10), false);
    assert_eq!(r.next_start_point, Some((0, 10)));
    assert_eq!(r.next_page_id.as_deref(), Some("1"));
    let r = handle_cabinetry_click(&l, Some((0, 10)), Some("1"), 20, (5, 20), false);
    assert_eq!(r.next_start_point, None);
    assert_eq!(r.new_segment, Some(("1".to_string(), ((0, 10), (5, 20)))));
    let r = handle_cabinetry_click(&l, Some((0, 10)), Some("1"), 10, (0, 10), true);
    assert!(r.new_segment.is_none());
    assert_eq!(r.next_start_point, None);
    let r = handle_cabinetry_click(&l, Some((0, 10)), Some("1"), 900, (0, 900), false);
    assert_eq!(r.next_start_point, Some((0, 900)));
    assert_eq!(r.next_page_id.as_deref(), Some("2"));
    let r = handle_cabinetry_click(&l, Some((0, 10)), Some("1"), 5000, (0, 5000), false);
    assert_eq!(r.next_start_point, Some((0, 10)));
    assert_eq!(r.next_page_id.as_deref(), Some("1"));
}

#[test]
fn scale_clicks_keep_at_most_two_points() {
    let mut d = ScaleDraft { points: Vec::new(), page_id: None, distance_input: "12".to_string() };
    handle_scale_canvas_click(&mut d, "1".to_string(), (0, 0));
    assert_eq!(d.points, vec![(0, 0)]);
    assert_eq!(d.distance_input, "");
    d.distance_input = "500".to_string();
    handle_scale_canvas_click(&mut d, "1".to_string(), (3, 4));
    assert_eq!(d.points, vec![(0, 0), (3, 4)]);
    assert_eq!(d.distance_input, "500");
    handle_scale_canvas_click(&mut d, "1".to_string(), (9, 9));
    assert_eq!(d.points, vec![(9, 9)]);
    assert_eq!(d.distance_input, "");
    handle_scale_canvas_click(&mut d, "2".to_string(), (1, 1));
    assert_eq!(d.points, vec![(1, 1)]);
    assert_eq!(d.page_id.as_deref(), Some("2"));
}

#[test]
fn undo_and_save_guard() {
    let mut v = vec![1, 2, 3];
    assert!(undo_last_point(&mut v));
    assert_eq!(v, vec![1, 2]);
    let mut e: Vec<i32> = Vec::new();
    assert!(!undo_last_point(&mut e));
    assert!(footprint_save_allowed("a@b.c", 3));
    assert!(!footprint_save_allowed("   ", 5));
    assert!(!footprint_save_allowed("a@b.c", 2));
}

#[test]
fn steps_and_titles() {
    assert_eq!(step_title(1), "Set your scale");
    assert_eq!(step_title(2), "Draw footprint");
    assert_eq!(step_title(3), "Trace external walls");
    assert_eq!(step_title(4), "Trace internal walls");
    assert_eq!(step_title(5), "Trace cabinetry");
    assert_eq!(step_title(6), "Generate budget");
    assert_eq!(mobile_step_title(1, 2), "Enter distance");
    assert_eq!(mobile_step_title(1, 1), "Set Scale");
    assert_eq!(mobile_step_title(3, 2), "Trace external walls");
    assert_eq!(mobile_step_subtitle(1, 0), "Click any 2 points to set scale");
    assert_eq!(mobile_step_subtitle(1, 2), "");
    assert!(!mobile_shows_next(1, 1));
    assert!(mobile_shows_next(1, 2));
    assert!(mobile_shows_next(4, 0));
    assert!(!panel_shows_next(1, 2));
    assert!(panel_shows_next(2, 2));
    assert_eq!(next_button_label(6), "Generate Budget");
    assert_eq!(next_button_label(5), "Next");
    assert_eq!(step_description(3), "");
    assert_eq!(step_description(6), "Review your selections and generate your budget estimate.");
    assert_eq!(draw_hint(2), "Trace the outline of the ground floor area.");
    assert_eq!(draw_hint(1), "");
    assert_eq!(step_indicator(4), "Step 4 of 6");
    assert_eq!(tool_for_step(1), Some(DrawingTool::Scale));
    assert_eq!(tool_for_step(5), Some(DrawingTool::Cabinetry));
    assert_eq!(tool_for_step(6), None);
}

#[test]
fn next_step_walks_to_review() {
    assert_eq!(next_step(1), (2, true));
    assert_eq!(next_step(4), (5, true));
    assert_eq!(next_step(5), (6, false));
    assert_eq!(next_step(6), (6, false));
    let mut s = 1;
    let mut visited = vec![s];
    while s < 6 {
        s = next_step(s).0;
        visited.push(s);
    }
    assert_eq!(visited, vec![1, 2, 3, 4, 5, 6]);
}

#[test]
fn measurements_listed_by_step() {
    assert!(measurement_listed(2, Measurement::Footprint));
    assert!(!measurement_listed(2, Measurement::ExternalWalls));
    assert!(measurement_listed(5, Measurement::Cabinetry));
    assert!(!measurement_listed(6, Measurement::Footprint));
    assert_eq!(measurement_display(true, Some(2.5), 1.0), 2.5);
    assert_eq!(measurement_display(true, None, 1.0), 1.0);
    assert_eq!(measurement_display(false, Some(2.5), 1.0), 1.0);
}

#[test]
fn polling_decisions_and_messages() {
    assert_eq!(poll_message(1), "Processing your plans... (3s)");
    assert_eq!(poll_message(100), "Processing your plans... (300s)");
    assert_eq!(poll_decision(5, PollOutcome::Pages(3)), PollAction::ShowPages);
    assert_eq!(poll_decision(5, PollOutcome::Pages(0)), PollAction::RetryAfterMs(1000));
    assert_eq!(poll_decision(99, PollOutcome::NotReady), PollAction::RetryAfterMs(3000));
    assert_eq!(poll_decision(100, PollOutcome::NotReady), PollAction::GiveUp);
    assert_eq!(files_error_message(Some(404), ""), "Failed to load files (404)");
    assert_eq!(files_error_message(None, "offline"), "Network error: offline");
}

#[test]
fn keys_and_cursor() {
    assert!(is_panel_toggle_key(true, false, "Backslash", ""));
    assert!(is_panel_toggle_key(false, true, "", "\\"));
    assert!(!is_panel_toggle_key(false, false, "Backslash", "\\"));
    assert!(is_cancel_drawing_key("Escape"));
    assert!(!is_cancel_drawing_key("Esc"));
    assert_eq!(canvas_cursor_style(true, false, true), "cursor: grabbing;");
    assert_eq!(canvas_cursor_style(false, true, false), "cursor: grabbing;");
    assert_eq!(canvas_cursor_style(false, true, true), "cursor: none;");
    assert_eq!(canvas_cursor_style(false, false, false), "cursor: grab;");
}
