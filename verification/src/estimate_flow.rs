//! The steps of the estimate page and the polling that waits for the plans
//! to be processed.
use vstd::prelude::*;
use vstd::string::*;
use crate::text::{concat, decimal, push_decimal, str_eq};

verus! {

/// Number of steps of the estimate: scale, footprint, external walls,
/// internal walls, cabinetry, and the final review.
pub const LAST_STEP: u32 = 6;

/// Polls after which processing is reported as taking too long.
pub const MAX_POLLS: u32 = 100;

/// Seconds between two polls of the processing result.
pub const POLL_INTERVAL_SECS: u32 = 3;

/// The drawing tool that a step puts in the user's hand.
#[derive(Clone, Copy, PartialEq, Eq, Debug, Structural)]
pub enum DrawingTool {
    Scale,
    Footprint,
    ExternalWalls,
    InternalWalls,
    Cabinetry,
}

/// Tool that is active during `step`; the review step has none.
pub open spec fn spec_tool_for_step(step: u32) -> Option<DrawingTool> {
    if step == 1 {
        Some(DrawingTool::Scale)
    } else if step == 2 {
        Some(DrawingTool::Footprint)
    } else if step == 3 {
        Some(DrawingTool::ExternalWalls)
    } else if step == 4 {
        Some(DrawingTool::InternalWalls)
    } else if step == 5 {
        Some(DrawingTool::Cabinetry)
    } else {
        None
    }
}

/// Tool that is active during `step`.
pub fn tool_for_step(step: u32) -> (tool: Option<DrawingTool>)
    ensures
        tool == spec_tool_for_step(step),
        step == 1 ==> tool == Some(DrawingTool::Scale),
        step == 2 ==> tool == Some(DrawingTool::Footprint),
        step == 3 ==> tool == Some(DrawingTool::ExternalWalls),
        step == 4 ==> tool == Some(DrawingTool::InternalWalls),
        step == 5 ==> tool == Some(DrawingTool::Cabinetry),
        step < 1 || step > 5 ==> tool is None,
{
    if step == 1 {
        Some(DrawingTool::Scale)
    } else if step == 2 {
        Some(DrawingTool::Footprint)
    } else if step == 3 {
        Some(DrawingTool::ExternalWalls)
    } else if step == 4 {
        Some(DrawingTool::InternalWalls)
    } else if step == 5 {
        Some(DrawingTool::Cabinetry)
    } else {
        None
    }
}

/// Heading of the side panel for `step`.
pub open spec fn spec_step_title(step: u32) -> Seq<char> {
    if step == 1 {
        "Set your scale"@
    } else if step == 2 {
        "Draw footprint"@
    } else if step == 3 {
        "Trace external walls"@
    } else if step == 4 {
        "Trace internal walls"@
    } else if step == 5 {
        "Trace cabinetry"@
    } else {
        "Generate budget"@
    }
}

/// Heading of the side panel for `step`.
pub fn step_title(step: u32) -> (title: &'static str)
    ensures
        title@ == spec_step_title(step),
{
    if step == 1 {
        "Set your scale"
    } else if step == 2 {
        "Draw footprint"
    } else if step == 3 {
        "Trace external walls"
    } else if step == 4 {
        "Trace internal walls"
    } else if step == 5 {
        "Trace cabinetry"
    } else {
        "Generate budget"
    }
}

/// The heading under which a tool is used: what the user is asked to do with it.
pub open spec fn tool_heading(tool: DrawingTool) -> Seq<char> {
    match tool {
        DrawingTool::Scale => "Set your scale"@,
        DrawingTool::Footprint => "Draw footprint"@,
        DrawingTool::ExternalWalls => "Trace external walls"@,
        DrawingTool::InternalWalls => "Trace internal walls"@,
        DrawingTool::Cabinetry => "Trace cabinetry"@,
    }
}

/// Every step hands the user the tool that its heading names, and each tool
/// belongs to exactly one step: scale in step 1, footprint in 2, external
/// walls in 3, internal walls in 4, cabinetry in 5; the review step has none.
pub proof fn lemma_tool_matches_step_title(step: u32, other: u32)
    ensures
        spec_tool_for_step(step) matches Some(t) ==> spec_step_title(step) == tool_heading(t),
        spec_tool_for_step(step) is None <==> (step < 1 || step > 5),
        spec_tool_for_step(2) == Some(DrawingTool::Footprint),
        spec_tool_for_step(3) == Some(DrawingTool::ExternalWalls),
        spec_tool_for_step(4) == Some(DrawingTool::InternalWalls),
        spec_tool_for_step(5) == Some(DrawingTool::Cabinetry),
        spec_tool_for_step(step) is Some && step != other ==> spec_tool_for_step(step)
            != spec_tool_for_step(other),
{
}

/// Whether the phone layout asks for the scale distance: in the scale step,
/// once both reference points are placed.
pub open spec fn spec_mobile_shows_scale_input(step: u32, scale_point_count: nat) -> bool {
    step == 1 && scale_point_count == 2
}

/// Heading of the phone bottom bar.
pub fn mobile_step_title(step: u32, scale_point_count: usize) -> (title: &'static str)
    ensures
        spec_mobile_shows_scale_input(step, scale_point_count as nat) ==> title@
            == "Enter distance"@,
        step == 1 && !spec_mobile_shows_scale_input(step, scale_point_count as nat) ==> title@
            == "Set Scale"@,
        step != 1 ==> title@ == spec_step_title(step),
{
    if step == 1 && scale_point_count == 2 {
        "Enter distance"
    } else if step == 1 {
        "Set Scale"
    } else {
        step_title(step)
    }
}

/// Line under the heading of the phone bottom bar.
pub fn mobile_step_subtitle(step: u32, scale_point_count: usize) -> (subtitle: &'static str)
    ensures
        step == 1 && !spec_mobile_shows_scale_input(step, scale_point_count as nat) ==> subtitle@
            == "Click any 2 points to set scale"@,
        !(step == 1 && !spec_mobile_shows_scale_input(step, scale_point_count as nat))
            ==> subtitle@ == ""@,
{
    if step == 1 && scale_point_count != 2 {
        "Click any 2 points to set scale"
    } else {
        ""
    }
}

/// Whether the phone bottom bar offers the "next" arrow.
pub fn mobile_shows_next(step: u32, scale_point_count: usize) -> (shown: bool)
    ensures
        shown == (step != 1 || spec_mobile_shows_scale_input(step, scale_point_count as nat)),
{
    step != 1 || scale_point_count == 2
}

/// Whether the side panel offers its "next" button: not while the scale
/// distance is being entered.
pub fn panel_shows_next(step: u32, scale_point_count: usize) -> (shown: bool)
    ensures
        shown == !spec_mobile_shows_scale_input(step, scale_point_count as nat),
{
    !(step == 1 && scale_point_count == 2)
}

/// Caption of the side panel's "next" button.
pub fn next_button_label(step: u32) -> (label: &'static str)
    ensures
        step >= LAST_STEP ==> label@ == "Generate Budget"@,
        step < LAST_STEP ==> label@ == "Next"@,
{
    if step >= LAST_STEP {
        "Generate Budget"
    } else {
        "Next"
    }
}

/// Text under the panel heading: only the review step has one.
pub fn step_description(step: u32) -> (description: &'static str)
    ensures
        1 <= step <= 5 ==> description@ == ""@,
        !(1 <= step <= 5) ==> description@
            == "Review your selections and generate your budget estimate."@,
{
    if 1 <= step && step <= 5 {
        ""
    } else {
        "Review your selections and generate your budget estimate."
    }
}

/// Drawing instruction shown in the drawing steps.
pub open spec fn spec_draw_hint(step: u32) -> Seq<char> {
    if step == 2 {
        "Trace the outline of the ground floor area."@
    } else if step == 3 {
        "Trace external walls over the footprint."@
    } else if step == 4 {
        "Add internal wall segments."@
    } else if step == 5 {
        "Add cabinetry segments."@
    } else {
        ""@
    }
}

/// Drawing instruction shown in the drawing steps.
pub fn draw_hint(step: u32) -> (hint: &'static str)
    ensures
        hint@ == spec_draw_hint(step),
{
    if step == 2 {
        "Trace the outline of the ground floor area."
    } else if step == 3 {
        "Trace external walls over the footprint."
    } else if step == 4 {
        "Add internal wall segments."
    } else if step == 5 {
        "Add cabinetry segments."
    } else {
        ""
    }
}

/// Which measurement a drawing step adds to the running list.
#[derive(Clone, Copy, PartialEq, Eq, Debug, Structural)]
pub enum Measurement {
    Footprint,
    ExternalWalls,
    InternalWalls,
    Cabinetry,
}

/// Step from which a measurement is listed.
pub open spec fn spec_first_step_of(m: Measurement) -> u32 {
    match m {
        Measurement::Footprint => 2,
        Measurement::ExternalWalls => 3,
        Measurement::InternalWalls => 4,
        Measurement::Cabinetry => 5,
    }
}

/// Whether `m` is listed in the panel during `step`: in the drawing steps,
/// from the step that draws it on.
pub fn measurement_listed(step: u32, m: Measurement) -> (listed: bool)
    ensures
        listed == (2 <= step <= 5 && step >= spec_first_step_of(m)),
{
    let first: u32 = match m {
        Measurement::Footprint => 2,
        Measurement::ExternalWalls => 3,
        Measurement::InternalWalls => 4,
        Measurement::Cabinetry => 5,
    };
    2 <= step && step <= 5 && step >= first
}

/// Text of the step indicator, "Step N of 6".
pub fn step_indicator(step: u32) -> (text: String)
    ensures
        text@ == "Step "@ + decimal(step as nat) + " of 6"@,
{
    let mut s = String::from_str("Step ");
    push_decimal(&mut s, step as u64);
    s.append(" of 6");
    s
}

/// Where "next" leads: the following step (up to the review step), and
/// whether the canvas should centre on the floor plan for it.
pub open spec fn spec_next_step(step: u32) -> (u32, bool) {
    if step < LAST_STEP {
        ((step + 1) as u32, 2 <= step + 1 <= 5)
    } else {
        (step, false)
    }
}

/// Where "next" leads, and whether the canvas recentres on the floor plan.
pub fn next_step(step: u32) -> (r: (u32, bool))
    ensures
        r == spec_next_step(step),
{
    if step < LAST_STEP {
        let next = step + 1;
        (next, 2 <= next && next <= 5)
    } else {
        (step, false)
    }
}

/// Going forward from the first step visits every step in order and stops
/// at the review step, recentring the canvas for each drawing step.
pub proof fn lemma_steps_advance_to_review(step: u32)
    requires
        1 <= step,
    ensures
        step < LAST_STEP ==> spec_next_step(step).0 == step + 1,
        step >= LAST_STEP ==> spec_next_step(step).0 == step,
        spec_next_step(step).1 <==> spec_tool_for_step(spec_next_step(step).0) is Some
            && spec_next_step(step).0 != 1 && spec_next_step(step).0 != step,
{
}

/// Whether a key press toggles the side panel: Ctrl or Cmd with backslash.
pub fn is_panel_toggle_key(meta: bool, ctrl: bool, code: &str, key: &str) -> (toggle: bool)
    ensures
        toggle == ((meta || ctrl) && (code@ == "Backslash"@ || key@ == "\\"@)),
{
    (meta || ctrl) && (str_eq(code, "Backslash") || str_eq(key, "\\"))
}

/// Whether a key press abandons the drawing in progress.
pub fn is_cancel_drawing_key(key: &str) -> (cancel: bool)
    ensures
        cancel == (key@ == "Escape"@),
{
    str_eq(key, "Escape")
}

/// Message shown while waiting for the plans, on the `count`-th poll.
pub fn poll_message(count: u32) -> (message: String)
    requires
        count * POLL_INTERVAL_SECS <= u32::MAX,
    ensures
        message@ == "Processing your plans... ("@ + decimal((count * POLL_INTERVAL_SECS) as nat)
            + "s)"@,
{
    let mut s = String::from_str("Processing your plans... (");
    push_decimal(&mut s, (count * POLL_INTERVAL_SECS) as u64);
    s.append("s)");
    s
}

/// What the last poll of the processing result found.
#[derive(Clone, Copy, PartialEq, Eq, Debug, Structural)]
pub enum PollOutcome {
    /// The result was read and lists this many pages.
    Pages(usize),
    /// The result is not there yet, or could not be read.
    NotReady,
}

/// What the page does after a poll.
#[derive(Clone, Copy, PartialEq, Eq, Debug, Structural)]
pub enum PollAction {
    /// Show the pages and stop polling.
    ShowPages,
    /// Poll again after this many milliseconds.
    RetryAfterMs(u32),
    /// Stop polling and report that processing takes too long.
    GiveUp,
}

/// After the `count`-th poll: a result with pages ends the wait; an empty
/// result is polled again after a second; otherwise the page waits three
/// seconds, until the hundredth poll, where it gives up.
pub open spec fn spec_poll_decision(count: u32, outcome: PollOutcome) -> PollAction {
    match outcome {
        PollOutcome::Pages(n) => if n > 0 {
            PollAction::ShowPages
        } else {
            PollAction::RetryAfterMs(1000)
        },
        PollOutcome::NotReady => if count >= MAX_POLLS {
            PollAction::GiveUp
        } else {
            PollAction::RetryAfterMs(3000)
        },
    }
}

/// What the page does after the `count`-th poll.
pub fn poll_decision(count: u32, outcome: PollOutcome) -> (action: PollAction)
    ensures
        action == spec_poll_decision(count, outcome),
{
    match outcome {
        PollOutcome::Pages(n) => {
            if n > 0 {
                PollAction::ShowPages
            } else {
                PollAction::RetryAfterMs(1000)
            }
        },
        PollOutcome::NotReady => {
            if count >= MAX_POLLS {
                PollAction::GiveUp
            } else {
                PollAction::RetryAfterMs(3000)
            }
        },
    }
}

/// Message shown when the page gives up waiting.
pub fn poll_timeout_message() -> (message: &'static str)
    ensures
        message@ == "Processing is taking longer than expected. Please refresh."@,
{
    "Processing is taking longer than expected. Please refresh."
}

/// Message shown when the list of uploaded files could not be read;
/// `status` is the HTTP status when there was a response.
pub fn files_error_message(status: Option<u16>, network_error: &str) -> (message: String)
    ensures
        status matches Some(s) ==> message@ == "Failed to load files ("@ + decimal(s as nat)
            + ")"@,
        status is None ==> message@ == "Network error: "@ + network_error@,
{
    match status {
        Some(s) => {
            let mut m = String::from_str("Failed to load files (");
            push_decimal(&mut m, s as u64);
            m.append(")");
            m
        },
        None => concat("Network error: ", network_error),
    }
}

/// Polling never goes on forever: a poll that finds no pages is never
/// answered with a retry once the limit is reached, and a poll that finds
/// pages always ends the wait.
pub proof fn lemma_poll_terminates(count: u32, outcome: PollOutcome)
    ensures
        count >= MAX_POLLS && outcome == PollOutcome::NotReady ==> spec_poll_decision(
            count,
            outcome,
        ) == PollAction::GiveUp,
        (outcome matches PollOutcome::Pages(n) && n > 0) ==> spec_poll_decision(count, outcome)
            == PollAction::ShowPages,
{
}

/// Mouse cursor over the estimate canvas: a closed hand while the plan is
/// dragged, none while a drawing tool shows its own cross-hair, an open
/// hand otherwise.
pub fn canvas_cursor_style(is_panning: bool, is_dragging: bool, drawing_tool_active: bool) -> (style:
    &'static str)
    ensures
        (is_panning || (is_dragging && !drawing_tool_active)) ==> style@ == "cursor: grabbing;"@,
        !(is_panning || (is_dragging && !drawing_tool_active)) && drawing_tool_active ==> style@
            == "cursor: none;"@,
        !(is_panning || (is_dragging && !drawing_tool_active)) && !drawing_tool_active ==> style@
            == "cursor: grab;"@,
{
    if is_panning || (is_dragging && !drawing_tool_active) {
        "cursor: grabbing;"
    } else if drawing_tool_active {
        "cursor: none;"
    } else {
        "cursor: grab;"
    }
}

/// Value shown for a measurement: the live value while it is being drawn
/// (falling back to the saved total when there is none yet), the saved
/// total otherwise.
pub fn measurement_display<T>(drawing_in_progress: bool, live: Option<T>, saved: T) -> (shown: T)
    ensures
        drawing_in_progress && live is Some ==> shown == live->0,
        !(drawing_in_progress && live is Some) ==> shown == saved,
{
    if drawing_in_progress {
        match live {
            Some(v) => v,
            None => saved,
        }
    } else {
        saved
    }
}

} // verus!
