//! Pointer gestures on the estimate canvas: which fingers are down, whether
//! the canvas is being dragged or panned, the press-and-hold magnifier of the
//! scale tool, and when a release counts as a click.
//!
//! Positions and distances are measured by the caller; this module takes
//! the one fact it needs of them, whether the pointer travelled past the
//! click threshold.
use vstd::prelude::*;

verus! {

/// Gesture state of the canvas.
pub struct GestureState {
    /// Touch pointers currently down, in the order they came down.
    pub touch_ids: Vec<i32>,
    /// The touch that drives a one-finger drag.
    pub touch_pointer_id: Option<i32>,
    /// Whether a one-finger drag is under way.
    pub touch_drag_active: bool,
    /// Whether a second finger came down during this touch gesture.
    pub touch_had_multi: bool,
    /// Whether a button or finger is pressed on the canvas.
    pub is_dragging: bool,
    /// Whether the press has turned into panning (or pinching).
    pub is_panning: bool,
    /// Number of the current press-and-hold timer; a timer that fires with
    /// another number is stale.
    pub hold_token: u64,
    /// Whether the finger is held long enough for precise placement.
    pub hold_active: bool,
    /// Whether the magnifier is shown.
    pub magnifier_visible: bool,
}

/// The gesture state as plain values.
pub struct GestureView {
    pub ids: Seq<i32>,
    pub pointer: Option<i32>,
    pub drag_active: bool,
    pub had_multi: bool,
    pub dragging: bool,
    pub panning: bool,
    pub token: nat,
    pub hold: bool,
    pub magnifier: bool,
}

impl View for GestureState {
    type V = GestureView;

    open spec fn view(&self) -> GestureView {
        GestureView {
            ids: self.touch_ids@,
            pointer: self.touch_pointer_id,
            drag_active: self.touch_drag_active,
            had_multi: self.touch_had_multi,
            dragging: self.is_dragging,
            panning: self.is_panning,
            token: self.hold_token as nat,
            hold: self.hold_active,
            magnifier: self.magnifier_visible,
        }
    }
}

/// What a touch coming down starts.
#[derive(Clone, Copy, PartialEq, Eq, Debug, Structural)]
pub enum TouchDown {
    /// Two or more fingers: a pinch begins at their current positions.
    Pinch,
    /// One finger: a drag begins here; on the scale tool of a phone a
    /// press-and-hold timer with this number is to be started.
    Drag { hold_timer: Option<u64> },
}

/// What a touch moving does.
#[derive(Clone, Copy, PartialEq, Eq, Debug, Structural)]
pub enum TouchMove {
    /// The touch is not one of ours.
    Ignore,
    /// Two or more fingers: zoom and pan by the pinch.
    Pinch,
    /// This finger now drives the drag, which starts over from here.
    RestartDrag,
    /// A held finger moves the magnifier only.
    HoldAdjust,
    /// The cursor follows the finger; the canvas pans when `panning` holds.
    Track { panning: bool },
}

/// What a touch lifting does.
#[derive(Clone, Copy, PartialEq, Eq, Debug, Structural)]
pub enum TouchUp {
    /// Two or more fingers remain: the pinch starts over with them.
    RestartPinch,
    /// One finger remains: it drives a new drag.
    ContinueWith(i32),
    /// The gesture is over without a click.
    Done,
    /// The gesture is over and was a click: at the magnifier's point when
    /// `at_magnifier`, else where the finger lifted.
    Click { at_magnifier: bool },
}

/// Adds a touch, once.
pub open spec fn insert_id(ids: Seq<i32>, id: i32) -> Seq<i32> {
    if ids.contains(id) {
        ids
    } else {
        ids.push(id)
    }
}

/// Whether a touch is another one than `id`.
pub open spec fn other_than(id: i32) -> spec_fn(i32) -> bool {
    |x: i32| x != id
}

/// Removes a touch.
pub open spec fn remove_id(ids: Seq<i32>, id: i32) -> Seq<i32> {
    ids.filter(other_than(id))
}

/// No touch listed twice, the drag is driven by a touch that is down, and
/// the magnifier shows exactly while a finger is held during a drag.
pub open spec fn gesture_wf(v: GestureView) -> bool {
    &&& v.ids.no_duplicates()
    &&& (v.pointer matches Some(p) ==> v.ids.contains(p))
    &&& (v.drag_active ==> v.pointer is Some)
    &&& v.hold == v.magnifier
    &&& (v.hold ==> v.drag_active)
}

/// Everything released: no touches, no press, no hold; the timer number moves on.
pub open spec fn spec_reset(v: GestureView) -> GestureView {
    GestureView {
        ids: Seq::empty(),
        pointer: None,
        drag_active: false,
        had_multi: false,
        dragging: false,
        panning: false,
        token: v.token + 1,
        hold: false,
        magnifier: false,
    }
}

/// Two or more fingers: pinching, with no drag and no hold.
pub open spec fn spec_pinching(v: GestureView, ids: Seq<i32>) -> GestureView {
    GestureView {
        ids,
        pointer: None,
        drag_active: false,
        had_multi: true,
        dragging: false,
        panning: true,
        token: v.token + 1,
        hold: false,
        magnifier: false,
    }
}

/// Touch `id` comes down; `mobile_scale` says whether the scale tool is
/// active on a phone.
pub open spec fn spec_touch_down(v: GestureView, id: i32, mobile_scale: bool) -> (
    GestureView,
    TouchDown,
) {
    let ids = insert_id(v.ids, id);
    if ids.len() >= 2 {
        (spec_pinching(v, ids), TouchDown::Pinch)
    } else {
        let token = if mobile_scale {
            v.token + 1
        } else {
            v.token
        };
        (
            GestureView {
                ids,
                pointer: Some(id),
                drag_active: true,
                had_multi: v.had_multi,
                dragging: true,
                panning: false,
                token,
                hold: if mobile_scale {
                    false
                } else {
                    v.hold
                },
                magnifier: if mobile_scale {
                    false
                } else {
                    v.magnifier
                },
            },
            TouchDown::Drag {
                hold_timer: if mobile_scale {
                    Some(token as u64)
                } else {
                    None
                },
            },
        )
    }
}


/// The press-and-hold timer numbered `token`, started for touch `id`, fires:
/// the hold begins only if it is still the current timer and that finger is
/// still dragging alone without panning, on the scale tool of a phone.
pub open spec fn spec_hold_fired(v: GestureView, token: u64, id: i32, mobile_scale: bool) -> GestureView {
    if v.token == token && v.pointer == Some(id) && v.drag_active && mobile_scale && !v.panning
        && !v.had_multi {
        GestureView { hold: true, magnifier: true, ..v }
    } else {
        v
    }
}

/// Touch `id` moves; `travelled_far` says whether it is further than the
/// click threshold from where the drag began. The flag returned says
/// whether the magnifier follows this finger.
pub open spec fn spec_touch_move(v: GestureView, id: i32, mobile_scale: bool, travelled_far: bool) -> (
    GestureView,
    TouchMove,
    bool,
) {
    if !v.ids.contains(id) {
        (v, TouchMove::Ignore, false)
    } else {
        let follow = mobile_scale && v.pointer == Some(id);
        if v.ids.len() >= 2 {
            (spec_pinching(v, v.ids), TouchMove::Pinch, follow)
        } else if v.pointer != Some(id) || !v.drag_active {
            (
                GestureView {
                    pointer: Some(id),
                    drag_active: true,
                    dragging: true,
                    panning: false,
                    ..v
                },
                TouchMove::RestartDrag,
                follow,
            )
        } else if mobile_scale && v.hold {
            (GestureView { panning: false, ..v }, TouchMove::HoldAdjust, follow)
        } else if travelled_far && mobile_scale {
            (
                GestureView {
                    token: v.token + 1,
                    hold: false,
                    magnifier: false,
                    panning: true,
                    ..v
                },
                TouchMove::Track { panning: true },
                follow,
            )
        } else if travelled_far {
            (GestureView { panning: true, ..v }, TouchMove::Track { panning: true }, follow)
        } else {
            (v, TouchMove::Track { panning: v.panning }, follow)
        }
    }
}

/// Touch `id` lifts; `travelled_far` as for a move. A release is a click
/// when this finger was driving the drag and the gesture neither panned nor
/// had a second finger; a held finger's own travel does not count.
pub open spec fn spec_touch_up(v: GestureView, id: i32, mobile_scale: bool, travelled_far: bool) -> (
    GestureView,
    TouchUp,
) {
    let ids = remove_id(v.ids, id);
    let candidate = v.pointer == Some(id) && v.drag_active;
    let held = mobile_scale && v.hold;
    let was_pan = if held {
        v.panning || v.had_multi
    } else {
        travelled_far || v.panning || v.had_multi
    };
    if ids.len() >= 2 {
        (
            GestureView {
                ids,
                pointer: None,
                drag_active: false,
                dragging: false,
                panning: true,
                token: v.token + 1,
                hold: false,
                magnifier: false,
                ..v
            },
            TouchUp::RestartPinch,
        )
    } else if ids.len() == 1 {
        (
            GestureView {
                ids,
                pointer: Some(ids[0]),
                drag_active: true,
                dragging: true,
                panning: false,
                ..v
            },
            TouchUp::ContinueWith(ids[0]),
        )
    } else if !candidate || was_pan {
        (spec_reset(v), TouchUp::Done)
    } else {
        (spec_reset(v), TouchUp::Click { at_magnifier: held })
    }
}

/// A mouse button goes down; only the primary button starts a press.
pub open spec fn spec_mouse_down(v: GestureView, primary: bool) -> GestureView {
    if primary {
        GestureView { dragging: true, panning: false, ..v }
    } else {
        v
    }
}

/// The mouse moves; while pressed, travelling past the threshold turns the
/// press into panning. The flag returned says whether the canvas pans.
pub open spec fn spec_mouse_move(v: GestureView, travelled_far: bool) -> (GestureView, bool) {
    if !v.dragging {
        (v, false)
    } else {
        let panning = travelled_far || v.panning;
        (GestureView { panning, ..v }, panning)
    }
}

/// A mouse button comes up. The flag returned says whether it was a click:
/// the primary button, released without panning and within the threshold.
pub open spec fn spec_mouse_up(v: GestureView, primary: bool, travelled_far: bool) -> (
    GestureView,
    bool,
) {
    if !v.dragging {
        (v, false)
    } else if !primary {
        (GestureView { dragging: false, panning: false, ..v }, false)
    } else {
        (GestureView { dragging: false, panning: false, ..v }, !(travelled_far || v.panning))
    }
}

/// A touch release is a click only when it lifts the last finger, that
/// finger drove the drag, and no second finger took part in the gesture.
pub proof fn lemma_click_needs_single_finger(v: GestureView, id: i32, mobile_scale: bool, travelled_far: bool)
    requires
        gesture_wf(v),
    ensures
        spec_touch_up(v, id, mobile_scale, travelled_far).1 is Click ==> {
            &&& !v.had_multi
            &&& remove_id(v.ids, id).len() == 0
            &&& v.pointer == Some(id)
        },
{
}

/// Lifting the last finger ends the gesture: no touches, no press, no
/// panning and no hold remain.
pub proof fn lemma_last_release_resets(v: GestureView, id: i32, mobile_scale: bool, travelled_far: bool)
    requires
        gesture_wf(v),
        remove_id(v.ids, id).len() == 0,
    ensures
        ({
            let w = spec_touch_up(v, id, mobile_scale, travelled_far).0;
            &&& w.ids.len() == 0
            &&& w.pointer is None
            &&& !w.dragging && !w.panning && !w.hold && !w.magnifier && !w.had_multi
        }),
{
}

/// A press-and-hold timer that is not the current one changes nothing.
pub proof fn lemma_stale_hold_timer(v: GestureView, token: u64, id: i32, mobile_scale: bool)
    requires
        token != v.token,
    ensures
        spec_hold_fired(v, token, id, mobile_scale) == v,
{
}

/// A tap (one finger down and up again without travelling) on a canvas that
/// no finger touches is a click where the finger lifted.
pub proof fn lemma_tap_is_click(v: GestureView, id: i32, mobile_scale: bool)
    requires
        gesture_wf(v),
        v.ids.len() == 0,
        !v.had_multi,
    ensures
        ({
            let w = spec_touch_down(v, id, mobile_scale).0;
            spec_touch_up(w, id, mobile_scale, false).1 == TouchUp::Click { at_magnifier: false }
        }),
{
    let w = spec_touch_down(v, id, mobile_scale).0;
    assert(insert_id(v.ids, id) =~= seq![id]);
    lemma_remove_keeps_wf(w.ids, id);
    assert(remove_id(w.ids, id).len() == 0) by {
        if remove_id(w.ids, id).len() > 0 {
            assert(remove_id(w.ids, id).contains(remove_id(w.ids, id)[0]));
        }
    }
}

/// On the scale tool of a phone, a finger that came down alone and was held
/// until its timer fired places the point at the magnifier when it lifts,
/// however far it travelled while held.
pub proof fn lemma_held_tap_places_at_magnifier(v: GestureView, id: i32, travelled_far: bool)
    requires
        gesture_wf(v),
        v.ids.len() == 0,
        !v.had_multi,
        v.token < u64::MAX,
    ensures
        ({
            let (w, started) = spec_touch_down(v, id, true);
            let token = started->hold_timer->0;
            let h = spec_hold_fired(w, token, id, true);
            &&& h.hold
            &&& spec_touch_up(h, id, true, travelled_far).1 == TouchUp::Click { at_magnifier: true }
        }),
{
    let w = spec_touch_down(v, id, true).0;
    assert(insert_id(v.ids, id) =~= seq![id]);
    lemma_remove_keeps_wf(w.ids, id);
    assert(remove_id(w.ids, id).len() == 0) by {
        if remove_id(w.ids, id).len() > 0 {
            assert(remove_id(w.ids, id).contains(remove_id(w.ids, id)[0]));
        }
    }
}

/// Moving the mouse with no button pressed never pans and changes nothing,
/// however far it goes; while a button is pressed the press stays on, and
/// the canvas pans once the mouse travelled past the threshold or was
/// already panning, and keeps panning.
pub proof fn lemma_hover_never_pans(v: GestureView, travelled_far: bool)
    ensures
        !v.dragging ==> spec_mouse_move(v, travelled_far) == (v, false),
        v.dragging ==> {
            let (w, pans) = spec_mouse_move(v, travelled_far);
            &&& w.dragging
            &&& pans == (travelled_far || v.panning)
            &&& w.panning == pans
            &&& w.ids == v.ids && w.pointer == v.pointer && w.hold == v.hold
        },
        v.dragging && v.panning ==> spec_mouse_move(v, false).1,
{
}

/// A press and release of the primary mouse button is a click exactly when
/// the mouse did not travel past the threshold in between.
pub proof fn lemma_mouse_click_iff_still(v: GestureView, travelled_far: bool)
    ensures
        spec_mouse_up(spec_mouse_down(v, true), true, travelled_far).1 == !travelled_far,
        !spec_mouse_up(spec_mouse_down(v, true), true, travelled_far).0.dragging,
{
}

fn contains_id(ids: &Vec<i32>, id: i32) -> (found: bool)
    ensures
        found == ids@.contains(id),
{
    let mut i: usize = 0;
    while i < ids.len()
        invariant
            i <= ids.len(),
            forall|k: int| 0 <= k < i ==> ids@[k] != id,
        decreases ids.len() - i,
    {
        if ids[i] == id {
            assert(ids@[i as int] == id);
            return true;
        }
        i = i + 1;
    }
    false
}

fn without_id(ids: &Vec<i32>, id: i32) -> (r: Vec<i32>)
    ensures
        r@ == remove_id(ids@, id),
{
    let ghost pred = other_than(id);
    let mut r: Vec<i32> = Vec::new();
    let mut i: usize = 0;
    while i < ids.len()
        invariant
            pred == other_than(id),
            i <= ids.len(),
            r@ == ids@.subrange(0, i as int).filter(pred),
        decreases ids.len() - i,
    {
        proof {
            crate::projects::lemma_filter_step(ids@, i as int, pred);
        }
        if ids[i] != id {
            r.push(ids[i]);
        }
        i = i + 1;
    }
    assert(ids@.subrange(0, ids@.len() as int) =~= ids@);
    r
}

proof fn lemma_insert_keeps_wf(ids: Seq<i32>, id: i32)
    requires
        ids.no_duplicates(),
    ensures
        insert_id(ids, id).no_duplicates(),
        insert_id(ids, id).contains(id),
        forall|x: i32| ids.contains(x) ==> insert_id(ids, id).contains(x),
{
    if !ids.contains(id) {
        let t = ids.push(id);
        assert(t[ids.len() as int] == id);
        assert forall|x: i32| ids.contains(x) implies t.contains(x) by {
            let k = choose|k: int| 0 <= k < ids.len() && ids[k] == x;
            assert(t[k] == x);
        }
    }
}

proof fn lemma_remove_keeps_wf(ids: Seq<i32>, id: i32)
    requires
        ids.no_duplicates(),
    ensures
        remove_id(ids, id).no_duplicates(),
        forall|x: i32| #[trigger] remove_id(ids, id).contains(x) <==> (ids.contains(x) && x != id),
    decreases ids.len(),
{
    reveal_with_fuel(Seq::<_>::filter, 1);
    if ids.len() > 0 {
        let t = ids.drop_last();
        let last = ids.last();
        assert(ids =~= t.push(last));
        assert(t.no_duplicates());
        lemma_remove_keeps_wf(t, id);
        let ft = remove_id(t, id);
        assert(!t.contains(last)) by {
            if t.contains(last) {
                let k = choose|k: int| 0 <= k < t.len() && t[k] == last;
                assert(ids[k] == ids[ids.len() - 1]);
            }
        }
        assert forall|x: i32| ids.contains(x) <==> (t.contains(x) || x == last) by {
            if ids.contains(x) {
                let k = choose|k: int| 0 <= k < ids.len() && ids[k] == x;
                if k < t.len() {
                    assert(t[k] == x);
                }
            }
            if t.contains(x) {
                let k = choose|k: int| 0 <= k < t.len() && t[k] == x;
                assert(ids[k] == x);
            }
            if x == last {
                assert(ids[ids.len() - 1] == x);
            }
        }
        if last != id {
            let r = ft.push(last);
            assert(remove_id(ids, id) == r);
            assert forall|x: i32| r.contains(x) <==> (ft.contains(x) || x == last) by {
                if r.contains(x) {
                    let k = choose|k: int| 0 <= k < r.len() && r[k] == x;
                    if k < ft.len() {
                        assert(ft[k] == x);
                    }
                }
                if ft.contains(x) {
                    let k = choose|k: int| 0 <= k < ft.len() && ft[k] == x;
                    assert(r[k] == x);
                }
                if x == last {
                    assert(r[ft.len() as int] == x);
                }
            }
            assert forall|i: int, j: int|
                0 <= i < r.len() && 0 <= j < r.len() && i != j implies r[i] != r[j] by {
                if i < ft.len() && j == ft.len() {
                    assert(ft.contains(r[i]));
                } else if j < ft.len() && i == ft.len() {
                    assert(ft.contains(r[j]));
                }
            }
        } else {
            assert(remove_id(ids, id) == ft);
        }
    }
}

impl GestureState {
    /// The gesture state of a canvas that nothing has touched.
    pub fn new() -> (g: Self)
        ensures
            gesture_wf(g@),
            g@.ids.len() == 0,
            g@.pointer is None,
            !g@.drag_active && !g@.had_multi && !g@.dragging && !g@.panning,
            g@.token == 0,
            !g@.hold && !g@.magnifier,
    {
        GestureState {
            touch_ids: Vec::new(),
            touch_pointer_id: None,
            touch_drag_active: false,
            touch_had_multi: false,
            is_dragging: false,
            is_panning: false,
            hold_token: 0,
            hold_active: false,
            magnifier_visible: false,
        }
    }

    /// Touch `id` comes down (see `spec_touch_down`).
    pub fn touch_down(&mut self, id: i32, mobile_scale: bool) -> (action: TouchDown)
        requires
            gesture_wf(old(self)@),
            spec_touch_down(old(self)@, id, mobile_scale).0.token <= u64::MAX,
        ensures
            gesture_wf(final(self)@),
            (final(self)@, action) == spec_touch_down(old(self)@, id, mobile_scale),
    {
        proof {
            lemma_insert_keeps_wf(self.touch_ids@, id);
        }
        if !contains_id(&self.touch_ids, id) {
            self.touch_ids.push(id);
        }
        if self.touch_ids.len() >= 2 {
            self.touch_pointer_id = None;
            self.touch_drag_active = false;
            self.touch_had_multi = true;
            self.is_dragging = false;
            self.is_panning = true;
            self.hold_token = self.hold_token + 1;
            self.hold_active = false;
            self.magnifier_visible = false;
            TouchDown::Pinch
        } else {
            self.touch_pointer_id = Some(id);
            self.touch_drag_active = true;
            self.is_dragging = true;
            self.is_panning = false;
            if mobile_scale {
                self.hold_token = self.hold_token + 1;
                self.hold_active = false;
                self.magnifier_visible = false;
                TouchDown::Drag { hold_timer: Some(self.hold_token) }
            } else {
                TouchDown::Drag { hold_timer: None }
            }
        }
    }
    fn reset(&mut self)
        requires
            old(self).hold_token < u64::MAX,
        ensures
            final(self)@ == spec_reset(old(self)@),
            gesture_wf(final(self)@),
    {
        self.touch_ids = Vec::new();
        self.touch_pointer_id = None;
        self.touch_drag_active = false;
        self.touch_had_multi = false;
        self.is_dragging = false;
        self.is_panning = false;
        self.hold_token = self.hold_token + 1;
        self.hold_active = false;
        self.magnifier_visible = false;
        assert(self.touch_ids@ =~= Seq::<i32>::empty());
    }

    /// The press-and-hold timer fires (see `spec_hold_fired`).
    pub fn hold_fired(&mut self, token: u64, id: i32, mobile_scale: bool)
        requires
            gesture_wf(old(self)@),
        ensures
            gesture_wf(final(self)@),
            final(self)@ == spec_hold_fired(old(self)@, token, id, mobile_scale),
    {
        if self.hold_token == token && self.touch_pointer_id == Some(id) && self.touch_drag_active
            && mobile_scale && !self.is_panning && !self.touch_had_multi {
            self.hold_active = true;
            self.magnifier_visible = true;
        }
    }

    /// Touch `id` moves (see `spec_touch_move`).
    pub fn touch_move(&mut self, id: i32, mobile_scale: bool, travelled_far: bool) -> (r: (
        TouchMove,
        bool,
    ))
        requires
            gesture_wf(old(self)@),
            spec_touch_move(old(self)@, id, mobile_scale, travelled_far).0.token <= u64::MAX,
        ensures
            gesture_wf(final(self)@),
            (final(self)@, r.0, r.1) == spec_touch_move(old(self)@, id, mobile_scale, travelled_far),
    {
        if !contains_id(&self.touch_ids, id) {
            return (TouchMove::Ignore, false);
        }
        let follow = mobile_scale && self.touch_pointer_id == Some(id);
        if self.touch_ids.len() >= 2 {
            self.touch_pointer_id = None;
            self.touch_drag_active = false;
            self.touch_had_multi = true;
            self.is_dragging = false;
            self.is_panning = true;
            self.hold_token = self.hold_token + 1;
            self.hold_active = false;
            self.magnifier_visible = false;
            (TouchMove::Pinch, follow)
        } else if self.touch_pointer_id != Some(id) || !self.touch_drag_active {
            self.touch_pointer_id = Some(id);
            self.touch_drag_active = true;
            self.is_dragging = true;
            self.is_panning = false;
            (TouchMove::RestartDrag, follow)
        } else if mobile_scale && self.hold_active {
            self.is_panning = false;
            (TouchMove::HoldAdjust, follow)
        } else {
            if travelled_far {
                if mobile_scale {
                    self.hold_token = self.hold_token + 1;
                    self.hold_active = false;
                    self.magnifier_visible = false;
                }
                self.is_panning = true;
            }
            (TouchMove::Track { panning: self.is_panning }, follow)
        }
    }

    /// Touch `id` lifts (see `spec_touch_up`).
    pub fn touch_up(&mut self, id: i32, mobile_scale: bool, travelled_far: bool) -> (action: TouchUp)
        requires
            gesture_wf(old(self)@),
            spec_touch_up(old(self)@, id, mobile_scale, travelled_far).0.token <= u64::MAX,
        ensures
            gesture_wf(final(self)@),
            (final(self)@, action) == spec_touch_up(old(self)@, id, mobile_scale, travelled_far),
    {
        proof {
            lemma_remove_keeps_wf(self.touch_ids@, id);
        }
        let candidate = self.touch_pointer_id == Some(id) && self.touch_drag_active;
        let held = mobile_scale && self.hold_active;
        let was_pan = if held {
            self.is_panning || self.touch_had_multi
        } else {
            travelled_far || self.is_panning || self.touch_had_multi
        };
        let rest = without_id(&self.touch_ids, id);
        if rest.len() >= 2 {
            self.touch_ids = rest;
            self.touch_pointer_id = None;
            self.touch_drag_active = false;
            self.is_dragging = false;
            self.is_panning = true;
            self.hold_token = self.hold_token + 1;
            self.hold_active = false;
            self.magnifier_visible = false;
            TouchUp::RestartPinch
        } else if rest.len() == 1 {
            let next = rest[0];
            proof {
                assert(rest@.contains(rest@[0]));
            }
            self.touch_ids = rest;
            self.touch_pointer_id = Some(next);
            self.touch_drag_active = true;
            self.is_dragging = true;
            self.is_panning = false;
            TouchUp::ContinueWith(next)
        } else {
            self.reset();
            if !candidate || was_pan {
                TouchUp::Done
            } else {
                TouchUp::Click { at_magnifier: held }
            }
        }
    }

    /// The browser cancels the touches: everything is released.
    pub fn touch_cancel(&mut self)
        requires
            gesture_wf(old(self)@),
            old(self).hold_token < u64::MAX,
        ensures
            gesture_wf(final(self)@),
            final(self)@ == spec_reset(old(self)@),
    {
        self.reset();
    }

    /// The pointer leaves the canvas: everything is released.
    pub fn pointer_leave(&mut self)
        requires
            gesture_wf(old(self)@),
            old(self).hold_token < u64::MAX,
        ensures
            gesture_wf(final(self)@),
            final(self)@ == spec_reset(old(self)@),
    {
        self.reset();
    }

    /// A mouse button goes down (see `spec_mouse_down`).
    pub fn mouse_down(&mut self, primary: bool)
        requires
            gesture_wf(old(self)@),
        ensures
            gesture_wf(final(self)@),
            final(self)@ == spec_mouse_down(old(self)@, primary),
    {
        if primary {
            self.is_dragging = true;
            self.is_panning = false;
        }
    }

    /// The mouse moves (see `spec_mouse_move`).
    pub fn mouse_move(&mut self, travelled_far: bool) -> (pans: bool)
        requires
            gesture_wf(old(self)@),
        ensures
            gesture_wf(final(self)@),
            (final(self)@, pans) == spec_mouse_move(old(self)@, travelled_far),
            !old(self).is_dragging ==> !pans && final(self)@ == old(self)@,
            old(self).is_dragging ==> final(self).is_dragging && pans == final(self).is_panning
                && pans == (travelled_far || old(self).is_panning),
    {
        if !self.is_dragging {
            return false;
        }
        if travelled_far {
            self.is_panning = true;
        }
        self.is_panning
    }

    /// A mouse button comes up (see `spec_mouse_up`).
    pub fn mouse_up(&mut self, primary: bool, travelled_far: bool) -> (click: bool)
        requires
            gesture_wf(old(self)@),
        ensures
            gesture_wf(final(self)@),
            (final(self)@, click) == spec_mouse_up(old(self)@, primary, travelled_far),
    {
        if !self.is_dragging {
            return false;
        }
        let was_pan = travelled_far || self.is_panning;
        self.is_dragging = false;
        self.is_panning = false;
        primary && !was_pan
    }
}

} // verus!
