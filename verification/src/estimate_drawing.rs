//! What a click does to the measurement being drawn on the estimate canvas.
//!
//! Points are generic: the rules never look inside a point. The two facts
//! about geometry that they need — the canvas row of the click and whether it
//! landed close enough to the first point to close the outline — are worked
//! out by the caller and handed in.
use vstd::prelude::*;
use vstd::string::*;
use crate::estimate_types::{find_page_at, page_contains_row, PageLayout};
use crate::text::{decimal, decimal_string, str_eq};

verus! {

/// Index of the first page that contains canvas row `y`.
pub open spec fn first_page_at(pages: Seq<PageLayout>, y: int) -> Option<int> {
    if exists|i: int| 0 <= i < pages.len() && page_contains_row(#[trigger] pages[i], y) {
        Some(
            choose|i: int|
                0 <= i < pages.len() && page_contains_row(pages[i], y) && forall|k: int|
                    0 <= k < i ==> !page_contains_row(#[trigger] pages[k], y),
        )
    } else {
        None
    }
}

proof fn lemma_first_page_at(pages: Seq<PageLayout>, y: int, found: Option<usize>)
    requires
        found matches Some(i) ==> {
            &&& i < pages.len()
            &&& page_contains_row(pages[i as int], y)
            &&& forall|k: int| 0 <= k < i ==> !page_contains_row(#[trigger] pages[k], y)
        },
        found is None ==> forall|k: int|
            0 <= k < pages.len() ==> !page_contains_row(#[trigger] pages[k], y),
    ensures
        first_page_at(pages, y) == (match found {
            Some(i) => Some(i as int),
            None => None::<int>,
        }),
{
    if let Some(i) = found {
        assert(0 <= i < pages.len() && page_contains_row(pages[i as int], y));
        let j = choose|j: int|
            0 <= j < pages.len() && page_contains_row(pages[j], y) && forall|k: int|
                0 <= k < j ==> !page_contains_row(#[trigger] pages[k], y);
        if j < i {
            assert(!page_contains_row(pages[j], y));
        }
        if i < j {
            assert(!page_contains_row(pages[i as int], y));
        }
    }
}

/// Page id (decimal page number) of the page hit at row `y`.
pub open spec fn clicked_page_id(pages: Seq<PageLayout>, y: int) -> Option<Seq<char>> {
    match first_page_at(pages, y) {
        Some(i) => Some(decimal(pages[i].page_num as nat)),
        None => None,
    }
}

/// Outline state after a click, for the tools that draw a closed outline
/// point by point (footprint and external walls):
/// `(points, page id, outline that was closed)`.
pub open spec fn spec_path_click<P>(
    clicked: Option<Seq<char>>,
    points: Seq<P>,
    page_id: Option<Seq<char>>,
    click: P,
    near_first_point: bool,
) -> (Seq<P>, Option<Seq<char>>, Option<(Seq<char>, Seq<P>)>) {
    match clicked {
        None => (points, page_id, None),
        Some(id) => if points.len() == 0 {
            (seq![click], Some(id), None)
        } else if page_id != Some(id) {
            (seq![click], Some(id), None)
        } else if points.len() >= 3 && near_first_point {
            (Seq::empty(), None, Some((id, points)))
        } else {
            (points.push(click), Some(id), None)
        },
    }
}

/// Result of a footprint click.
pub struct FootprintClickResult<P> {
    pub next_points: Vec<P>,
    pub next_page_id: Option<String>,
    pub closed_polygon: Option<(String, Vec<P>)>,
}

/// Result of an external-walls click.
pub struct EWallsClickResult<P> {
    pub next_points: Vec<P>,
    pub next_page_id: Option<String>,
    pub closed_path: Option<(String, Vec<P>)>,
}

fn owned_page_id(page_id: Option<&str>) -> (r: Option<String>)
    ensures
        r.deep_view() == page_id.deep_view(),
{
    match page_id {
        Some(s) => Some(String::from_str(s)),
        None => None,
    }
}

fn same_page(page_id: Option<&str>, id: &String) -> (r: bool)
    ensures
        r == (page_id.deep_view() == Some(id@)),
{
    match page_id {
        Some(s) => str_eq(s, id.as_str()),
        None => false,
    }
}

/// Shared rule of the outline tools; see `spec_path_click`.
fn path_click<P>(
    pages: &[PageLayout],
    click_row: i64,
    current_points: Vec<P>,
    current_page_id: Option<&str>,
    click: P,
    near_first_point: bool,
) -> (r: (Vec<P>, Option<String>, Option<(String, Vec<P>)>))
    ensures
        ({
            let s = spec_path_click(
                clicked_page_id(pages@, click_row as int),
                current_points@,
                current_page_id.deep_view(),
                click,
                near_first_point,
            );
            &&& r.0@ == s.0
            &&& r.1.deep_view() == s.1
            &&& (r.2 is None <==> s.2 is None)
            &&& r.2 matches Some(c) ==> s.2 == Some((c.0@, c.1@))
        }),
{
    let found = find_page_at(pages, click_row);
    proof {
        lemma_first_page_at(pages@, click_row as int, found);
    }
    let page_index = match found {
        None => {
            return (current_points, owned_page_id(current_page_id), None);
        },
        Some(i) => i,
    };
    let clicked = decimal_string(pages[page_index].page_num as u64);
    let mut next_points = current_points;
    if next_points.len() == 0 {
        next_points.push(click);
        assert(next_points@ =~= seq![click]);
        return (next_points, Some(clicked), None);
    }
    if !same_page(current_page_id, &clicked) {
        let mut fresh = Vec::new();
        fresh.push(click);
        assert(fresh@ =~= seq![click]);
        return (fresh, Some(clicked), None);
    }
    if next_points.len() >= 3 && near_first_point {
        return (Vec::new(), None, Some((clicked, next_points)));
    }
    next_points.push(click);
    (next_points, Some(clicked), None)
}

/// What a click does while the footprint tool is active. `click_row` is the
/// canvas row of the click and `near_first_point` whether it landed within
/// the snapping distance of the first point.
pub fn handle_footprint_click<P>(
    pages: &[PageLayout],
    current_points: Vec<P>,
    current_page_id: Option<&str>,
    click_row: i64,
    click: P,
    near_first_point: bool,
) -> (r: FootprintClickResult<P>)
    ensures
        ({
            let s = spec_path_click(
                clicked_page_id(pages@, click_row as int),
                current_points@,
                current_page_id.deep_view(),
                click,
                near_first_point,
            );
            &&& r.next_points@ == s.0
            &&& r.next_page_id.deep_view() == s.1
            &&& (r.closed_polygon is None <==> s.2 is None)
            &&& r.closed_polygon matches Some(c) ==> s.2 == Some((c.0@, c.1@))
        }),
{
    let (next_points, next_page_id, closed_polygon) = path_click(
        pages,
        click_row,
        current_points,
        current_page_id,
        click,
        near_first_point,
    );
    FootprintClickResult { next_points, next_page_id, closed_polygon }
}

/// What a click does while the external-walls tool is active; the same rule
/// as the footprint tool.
pub fn handle_ewalls_click<P>(
    pages: &[PageLayout],
    current_points: Vec<P>,
    current_page_id: Option<&str>,
    click_row: i64,
    click: P,
    near_first_point: bool,
) -> (r: EWallsClickResult<P>)
    ensures
        ({
            let s = spec_path_click(
                clicked_page_id(pages@, click_row as int),
                current_points@,
                current_page_id.deep_view(),
                click,
                near_first_point,
            );
            &&& r.next_points@ == s.0
            &&& r.next_page_id.deep_view() == s.1
            &&& (r.closed_path is None <==> s.2 is None)
            &&& r.closed_path matches Some(c) ==> s.2 == Some((c.0@, c.1@))
        }),
{
    let (next_points, next_page_id, closed_path) = path_click(
        pages,
        click_row,
        current_points,
        current_page_id,
        click,
        near_first_point,
    );
    EWallsClickResult { next_points, next_page_id, closed_path }
}

/// Every outline that a click closes has at least three points, and they all
/// lie on the page whose id it carries: the page that both the last click and
/// the ongoing outline are on.
pub proof fn lemma_closed_outline_on_one_page<P>(
    clicked: Option<Seq<char>>,
    points: Seq<P>,
    page_id: Option<Seq<char>>,
    click: P,
    near_first_point: bool,
)
    requires
        spec_path_click(clicked, points, page_id, click, near_first_point).2 is Some,
    ensures
        ({
            let (next, next_page, closed) = spec_path_click(
                clicked,
                points,
                page_id,
                click,
                near_first_point,
            );
            let (closed_page, closed_points) = closed.unwrap();
            &&& closed_points == points
            &&& points.len() >= 3
            &&& clicked == Some(closed_page)
            &&& page_id == Some(closed_page)
            &&& next.len() == 0
            &&& next_page is None
        }),
{
}

/// An outline in progress never mixes pages: after any click all its points
/// were placed while the outline's page was the clicked page, and the number
/// of points grows by one, restarts at one, or (when closing) drops to zero.
pub proof fn lemma_outline_grows_by_one<P>(
    clicked: Option<Seq<char>>,
    points: Seq<P>,
    page_id: Option<Seq<char>>,
    click: P,
    near_first_point: bool,
)
    requires
        clicked is Some,
    ensures
        ({
            let (next, next_page, closed) = spec_path_click(
                clicked,
                points,
                page_id,
                click,
                near_first_point,
            );
            ||| (next.len() == points.len() + 1 && next.last() == click && next_page == clicked
                && page_id == clicked)
            ||| (next == seq![click] && next_page == clicked)
            ||| (next.len() == 0 && next_page is None && closed is Some)
        }),
{
}

/// Result of a cabinetry click.
pub struct CabinetryClickResult<P> {
    pub next_start_point: Option<P>,
    pub next_page_id: Option<String>,
    pub new_segment: Option<(String, (P, P))>,
}

/// Cabinetry is drawn as separate segments: `(start point, page id, new segment)`
/// after a click. `zero_length` says whether the click is where the segment started.
pub open spec fn spec_segment_click<P>(
    clicked: Option<Seq<char>>,
    start: Option<P>,
    page_id: Option<Seq<char>>,
    click: P,
    zero_length: bool,
) -> (Option<P>, Option<Seq<char>>, Option<(Seq<char>, (P, P))>) {
    match clicked {
        None => (start, page_id, None),
        Some(id) => match start {
            None => (Some(click), Some(id), None),
            Some(s) => if page_id != Some(id) {
                (Some(click), Some(id), None)
            } else if zero_length {
                (None, Some(id), None)
            } else {
                (None, Some(id), Some((id, (s, click))))
            },
        },
    }
}

/// What a click does while the cabinetry tool is active. `zero_length` says
/// whether the segment from the current start point to the click has no length.
pub fn handle_cabinetry_click<P>(
    pages: &[PageLayout],
    current_start_point: Option<P>,
    current_page_id: Option<&str>,
    click_row: i64,
    click: P,
    zero_length: bool,
) -> (r: CabinetryClickResult<P>)
    ensures
        ({
            let s = spec_segment_click(
                clicked_page_id(pages@, click_row as int),
                current_start_point,
                current_page_id.deep_view(),
                click,
                zero_length,
            );
            &&& r.next_start_point == s.0
            &&& r.next_page_id.deep_view() == s.1
            &&& (r.new_segment is None <==> s.2 is None)
            &&& r.new_segment matches Some(seg) ==> s.2 == Some((seg.0@, seg.1))
        }),
{
    let found = find_page_at(pages, click_row);
    proof {
        lemma_first_page_at(pages@, click_row as int, found);
    }
    let page_index = match found {
        None => {
            return CabinetryClickResult {
                next_start_point: current_start_point,
                next_page_id: owned_page_id(current_page_id),
                new_segment: None,
            };
        },
        Some(i) => i,
    };
    let clicked = decimal_string(pages[page_index].page_num as u64);
    match current_start_point {
        None => CabinetryClickResult {
            next_start_point: Some(click),
            next_page_id: Some(clicked),
            new_segment: None,
        },
        Some(start) => {
            if !same_page(current_page_id, &clicked) {
                return CabinetryClickResult {
                    next_start_point: Some(click),
                    next_page_id: Some(clicked),
                    new_segment: None,
                };
            }
            if zero_length {
                return CabinetryClickResult {
                    next_start_point: None,
                    next_page_id: Some(clicked),
                    new_segment: None,
                };
            }
            let page_copy = clicked.clone();
            CabinetryClickResult {
                next_start_point: None,
                next_page_id: Some(clicked),
                new_segment: Some((page_copy, (start, click))),
            }
        },
    }
}

/// The two reference points of the scale tool, the page they are on and the
/// distance typed for them.
pub struct ScaleDraft<P> {
    pub points: Vec<P>,
    pub page_id: Option<String>,
    pub distance_input: String,
}

/// Scale draft after a click on page `id`: a third click, a first click or a
/// click on another page starts over with the clicked point (clearing the
/// typed distance); a second click on the same page completes the pair.
pub open spec fn spec_scale_click<P>(
    points: Seq<P>,
    page_id: Option<Seq<char>>,
    input: Seq<char>,
    id: Seq<char>,
    click: P,
) -> (Seq<P>, Option<Seq<char>>, Seq<char>) {
    if points.len() >= 2 || points.len() == 0 || page_id != Some(id) {
        (seq![click], Some(id), Seq::empty())
    } else {
        (points.push(click), page_id, input)
    }
}

/// What a click on page `clicked_page_id` does while the scale tool is active.
pub fn handle_scale_canvas_click<P>(draft: &mut ScaleDraft<P>, clicked_page_id: String, click: P)
    ensures
        ({
            let s = spec_scale_click(
                old(draft).points@,
                old(draft).page_id.deep_view(),
                old(draft).distance_input@,
                clicked_page_id@,
                click,
            );
            &&& final(draft).points@ == s.0
            &&& final(draft).page_id.deep_view() == s.1
            &&& final(draft).distance_input@ == s.2
        }),
{
    let same = match &draft.page_id {
        Some(p) => str_eq(p.as_str(), clicked_page_id.as_str()),
        None => false,
    };
    if draft.points.len() >= 2 || draft.points.len() == 0 || !same {
        let mut fresh = Vec::new();
        fresh.push(click);
        assert(fresh@ =~= seq![click]);
        draft.points = fresh;
        draft.page_id = Some(clicked_page_id);
        draft.distance_input = String::new();
    } else {
        draft.points.push(click);
    }
}

/// A scale draft never holds more than the two points it needs.
pub proof fn lemma_scale_draft_at_most_two<P>(
    points: Seq<P>,
    page_id: Option<Seq<char>>,
    input: Seq<char>,
    id: Seq<char>,
    click: P,
)
    requires
        points.len() <= 2,
    ensures
        1 <= spec_scale_click(points, page_id, input, id, click).0.len() <= 2,
        spec_scale_click(points, page_id, input, id, click).1 == Some(id),
{
}

/// Right-click undo while an outline tool is active: drops the last point.
/// Returns whether there was a point to drop (the click is then consumed).
pub fn undo_last_point<P>(points: &mut Vec<P>) -> (consumed: bool)
    ensures
        consumed == (old(points)@.len() > 0),
        consumed ==> final(points)@ == old(points)@.drop_last(),
        !consumed ==> final(points)@ == old(points)@,
{
    if points.len() == 0 {
        false
    } else {
        let _ = points.pop();
        true
    }
}

/// Whether a footprint may be saved: an owner email that is not blank and
/// an outline of at least three points.
pub fn footprint_save_allowed(email: &str, point_count: usize) -> (allowed: bool)
    ensures
        allowed == (crate::text::trim_seq(email@).len() > 0 && point_count >= 3),
{
    let trimmed = crate::text::trim(email);
    trimmed.as_str().unicode_len() > 0 && point_count >= 3
}

/// Releasing a held finger on the scale tool: when both reference points are
/// already on the clicked page, the held point replaces the second one and
/// nothing else changes. Returns whether it did.
pub fn adjust_held_scale_point<P>(draft: &mut ScaleDraft<P>, clicked_page_id: &str, click: P) -> (adjusted: bool)
    ensures
        adjusted == (old(draft).points@.len() == 2 && old(draft).page_id.deep_view() == Some(
            clicked_page_id@,
        )),
        adjusted ==> final(draft).points@ == old(draft).points@.update(1, click),
        !adjusted ==> final(draft).points@ == old(draft).points@,
        final(draft).page_id.deep_view() == old(draft).page_id.deep_view(),
        final(draft).distance_input@ == old(draft).distance_input@,
{
    let same = match &draft.page_id {
        Some(p) => str_eq(p.as_str(), clicked_page_id),
        None => false,
    };
    if draft.points.len() == 2 && same {
        let _ = draft.points.pop();
        draft.points.push(click);
        assert(draft.points@ =~= old(draft).points@.update(1, click));
        true
    } else {
        false
    }
}

/// Switching an outline tool (or the scale tool) off drops its unfinished
/// points and the page they were on; while it is on they stay.
pub fn discard_outline_when_inactive<P>(
    tool_active: bool,
    points: &mut Vec<P>,
    page_id: &mut Option<String>,
)
    ensures
        !tool_active ==> final(points)@.len() == 0 && *final(page_id) is None,
        tool_active ==> final(points)@ == old(points)@ && final(page_id).deep_view() == old(
            page_id,
        ).deep_view(),
{
    if !tool_active {
        *points = Vec::new();
        *page_id = None;
    }
}

/// Switching a segment tool off drops the start of an unfinished segment
/// and its page; while it is on they stay.
pub fn discard_segment_when_inactive<P>(
    tool_active: bool,
    start: &mut Option<P>,
    page_id: &mut Option<String>,
)
    ensures
        !tool_active ==> *final(start) is None && *final(page_id) is None,
        tool_active ==> *final(start) == *old(start) && final(page_id).deep_view() == old(
            page_id,
        ).deep_view(),
{
    if !tool_active {
        *start = None;
        *page_id = None;
    }
}

/// Right-click while a segment tool is active: drops the start of the
/// unfinished segment. Returns whether there was one (the click is then consumed).
pub fn cancel_segment_start<P>(start: &mut Option<P>) -> (consumed: bool)
    ensures
        consumed == (*old(start) is Some),
        *final(start) is None,
{
    let consumed = start.is_some();
    *start = None;
    consumed
}

} // verus!
