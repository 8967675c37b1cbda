//! The event translator / dispatcher: from one decoded request to the
//! injection calls that carry it into the compositor, in order.
//!
//! Translation is stateless per request, except that a bind records a virtual
//! device and a disconnect releases the connection: those two run against
//! [`EisState`]. Everything else is a pure function of the request, the
//! validation limits and the snapshot, written out by [`plan_of`].

use vstd::prelude::*;
use crate::capability::{caps_of_mask, DeviceCapability};
use crate::geometry::{sat_add, Point};
use crate::request::{Injection, Request};
use crate::resolve::{
    lemma_find_containing, resolve_output, resolve_touch_target, spec_resolved_output, Snapshot,
};
use crate::state::{binds_device, spec_find_id, EisState};
use crate::validate::{spec_rejection, Limits};

verus! {

/// The pointer position after a relative motion by `(dx, dy)` from `pos`:
/// moved with saturation, resolved to the containing output (or the active
/// output as fallback), and clamped componentwise into that output's
/// rectangle.
pub open spec fn resolved_motion(snap: Snapshot, pos: Point, dx: i64, dy: i64) -> Point {
    let p = Point { x: sat_add(pos.x as int, dx as int) as i64, y: sat_add(pos.y as int, dy as int) as i64 };
    snap.outputs@[spec_resolved_output(snap, p)].spec_clamp(p)
}

/// The output index a relative motion by `(dx, dy)` from `pos` resolves to.
pub open spec fn resolved_motion_output(snap: Snapshot, pos: Point, dx: i64, dy: i64) -> int {
    let p = Point { x: sat_add(pos.x as int, dx as int) as i64, y: sat_add(pos.y as int, dy as int) as i64 };
    spec_resolved_output(snap, p)
}

/// The injection calls one decoded request translates into, in order.
///
/// A request whose field fails validation, or whose event class the seat has
/// no handle for, translates into no calls at all; every pointer- or
/// touch-affecting call is followed by a frame commit; bind, disconnect and
/// the acknowledged-only requests inject nothing.
pub open spec fn plan_of(limits: Limits, snap: Snapshot, req: Request) -> Seq<Injection> {
    match req {
        Request::KeyboardKey { key, pressed } => {
            if key > limits.max_keycode || !snap.has_keyboard {
                Seq::empty()
            } else {
                seq![Injection::Key { code: key, pressed }]
            }
        },
        Request::PointerMotion { dx, dy } => {
            if !snap.has_pointer {
                Seq::empty()
            } else {
                seq![
                    Injection::PointerMotion {
                        position: resolved_motion(snap, snap.pointer_position, dx, dy),
                        output: resolved_motion_output(snap, snap.pointer_position, dx, dy) as usize,
                    },
                    Injection::Frame,
                ]
            }
        },
        Request::PointerMotionAbsolute { x, y } => {
            if !snap.has_pointer {
                Seq::empty()
            } else {
                seq![
                    Injection::PointerMotion {
                        position: Point { x, y },
                        output: spec_resolved_output(snap, Point { x, y }) as usize,
                    },
                    Injection::Frame,
                ]
            }
        },
        Request::Button { button, pressed } => {
            if button > limits.max_button || !snap.has_pointer {
                Seq::empty()
            } else {
                seq![Injection::Button { code: button, pressed }, Injection::Frame]
            }
        },
        Request::ScrollDelta { dx, dy } => {
            if !snap.has_pointer {
                Seq::empty()
            } else {
                seq![
                    Injection::Axis {
                        horizontal: if dx != 0 { Some(dx) } else { None },
                        vertical: if dy != 0 { Some(dy) } else { None },
                    },
                    Injection::Frame,
                ]
            }
        },
        Request::TouchDown { touch_id, x, y } => {
            if touch_id > limits.max_touch_id || !snap.has_touch {
                Seq::empty()
            } else {
                seq![
                    Injection::TouchDown {
                        slot: touch_id,
                        position: Point { x, y },
                        output: spec_resolved_output(snap, Point { x, y }) as usize,
                    },
                    Injection::Frame,
                ]
            }
        },
        Request::TouchMotion { touch_id, x, y } => {
            if touch_id > limits.max_touch_id || !snap.has_touch {
                Seq::empty()
            } else {
                seq![
                    Injection::TouchMotion {
                        slot: touch_id,
                        position: Point { x, y },
                        output: spec_resolved_output(snap, Point { x, y }) as usize,
                    },
                    Injection::Frame,
                ]
            }
        },
        Request::TouchUp { touch_id } => {
            if !snap.has_touch {
                Seq::empty()
            } else {
                seq![Injection::TouchUp { slot: touch_id }, Injection::Frame]
            }
        },
        Request::TouchCancel => {
            if !snap.has_touch {
                Seq::empty()
            } else {
                seq![Injection::TouchCancel, Injection::Frame]
            }
        },
        Request::Bind { .. } => Seq::empty(),
        Request::Disconnect => Seq::empty(),
        Request::DeviceStartEmulating => Seq::empty(),
        Request::DeviceStopEmulating => Seq::empty(),
        Request::Frame => Seq::empty(),
        Request::Unknown => Seq::empty(),
    }
}

/// The keycode gate: a keyboard event whose keycode exceeds the configured
/// bound translates into no injection call at all, and one within the bound
/// (on a seat with a keyboard) into exactly one key injection carrying that
/// keycode.
pub proof fn lemma_keycode_gate(limits: Limits, snap: Snapshot, key: u32, pressed: bool)
    ensures
        key > limits.max_keycode ==> plan_of(limits, snap, Request::KeyboardKey { key, pressed })
            =~= Seq::<Injection>::empty(),
        key <= limits.max_keycode && snap.has_keyboard ==> plan_of(
            limits,
            snap,
            Request::KeyboardKey { key, pressed },
        ) =~= seq![Injection::Key { code: key, pressed }],
{
}

/// The button-code gate: a button event whose code exceeds the configured
/// bound translates into no injection call at all.
pub proof fn lemma_button_gate(limits: Limits, snap: Snapshot, button: u32, pressed: bool)
    ensures
        button > limits.max_button ==> plan_of(limits, snap, Request::Button { button, pressed })
            =~= Seq::<Injection>::empty(),
{
}

/// The touch-slot gate: a touch-down or touch-motion whose slot id exceeds
/// the configured bound translates into no injection call at all.
pub proof fn lemma_touch_id_gate(limits: Limits, snap: Snapshot, touch_id: u32, x: i64, y: i64)
    ensures
        touch_id > limits.max_touch_id ==> plan_of(
            limits,
            snap,
            Request::TouchDown { touch_id, x, y },
        ) =~= Seq::<Injection>::empty(),
        touch_id > limits.max_touch_id ==> plan_of(
            limits,
            snap,
            Request::TouchMotion { touch_id, x, y },
        ) =~= Seq::<Injection>::empty(),
{
}

/// A request rejected by validation is dropped whole: whenever
/// [`spec_rejection`] names a field, the request translates into no injection
/// call at all.
pub proof fn lemma_rejected_request_injects_nothing(limits: Limits, snap: Snapshot, req: Request)
    ensures
        spec_rejection(limits, req) is Some ==> plan_of(limits, snap, req) =~= Seq::<
            Injection,
        >::empty(),
{
}

/// The compositor's batching contract: in every plan, each pointer- or
/// touch-affecting injection is immediately followed by a frame commit.
pub proof fn lemma_frame_follows(limits: Limits, snap: Snapshot, req: Request)
    ensures
        forall|i: int|
            0 <= i < plan_of(limits, snap, req).len() && (#[trigger] plan_of(limits, snap, req)[i]).needs_frame()
                ==> i + 1 < plan_of(limits, snap, req).len() && plan_of(limits, snap, req)[i + 1]
                == Injection::Frame,
{
}

/// A single relative motion always resolves onto a known output: the chosen
/// output index is valid and the clamped position lies inside its rectangle.
pub proof fn lemma_resolved_motion_on_screen(snap: Snapshot, pos: Point, dx: i64, dy: i64)
    requires
        snap.wf(),
    ensures
        0 <= resolved_motion_output(snap, pos, dx, dy) < snap.outputs@.len(),
        snap.outputs@[resolved_motion_output(snap, pos, dx, dy)].spec_contains(
            resolved_motion(snap, pos, dx, dy),
        ),
{
    let p = Point {
        x: sat_add(pos.x as int, dx as int) as i64,
        y: sat_add(pos.y as int, dy as int) as i64,
    };
    lemma_find_containing(snap.outputs@, p);
    crate::geometry::lemma_clamp_in_rect(
        snap.outputs@[spec_resolved_output(snap, p)],
        p,
    );
}

/// The pointer position after a whole sequence of relative motions, each
/// resolved and clamped in turn.
pub open spec fn motion_run(snap: Snapshot, pos: Point, deltas: Seq<(i64, i64)>) -> Point
    decreases deltas.len(),
{
    if deltas.len() == 0 {
        pos
    } else {
        let prev = motion_run(snap, pos, deltas.drop_last());
        resolved_motion(snap, prev, deltas.last().0, deltas.last().1)
    }
}

/// Clamping confines relative motion: with a single output, starting from a
/// position inside its geometry, any sequence of relative deltas leaves the
/// resolved position inside that rectangle, componentwise within
/// `[x, x + w - 1] × [y, y + h - 1]`.
pub proof fn lemma_motion_run_stays_inside(snap: Snapshot, pos: Point, deltas: Seq<(i64, i64)>)
    requires
        snap.wf(),
        snap.outputs@.len() == 1,
        snap.outputs@[0].spec_contains(pos),
    ensures
        snap.outputs@[0].spec_contains(motion_run(snap, pos, deltas)),
        snap.outputs@[0].x <= motion_run(snap, pos, deltas).x <= snap.outputs@[0].x
            + snap.outputs@[0].w - 1,
        snap.outputs@[0].y <= motion_run(snap, pos, deltas).y <= snap.outputs@[0].y
            + snap.outputs@[0].h - 1,
    decreases deltas.len(),
{
    if deltas.len() == 0 {
    } else {
        lemma_motion_run_stays_inside(snap, pos, deltas.drop_last());
        let prev = motion_run(snap, pos, deltas.drop_last());
        lemma_resolved_motion_on_screen(snap, prev, deltas.last().0, deltas.last().1);
        let p = Point {
            x: sat_add(prev.x as int, deltas.last().0 as int) as i64,
            y: sat_add(prev.y as int, deltas.last().1 as int) as i64,
        };
        crate::geometry::lemma_clamp_in_rect(snap.outputs@[spec_resolved_output(snap, p)], p);
    }
}

/// Process one decoded request from connection `conn`.
///
/// Returns the injection calls to make against the compositor, in order —
/// exactly [`plan_of`] — and, for a bind, the capability set to announce back
/// to the client. A bind records a virtual device under `conn`; a disconnect
/// releases `conn` and everything it bound; no other request changes the
/// state.
pub fn process_eis_request(
    state: &mut EisState,
    conn: u64,
    limits: &Limits,
    snap: &Snapshot,
    req: &Request,
) -> (r: (Vec<Injection>, Option<Vec<DeviceCapability>>))
    requires
        old(state).wf(),
        snap.wf(),
    ensures
        r.0@ == plan_of(*limits, *snap, *req),
        final(state).wf(),
        final(state).ceiling == old(state).ceiling,
        match *req {
            Request::Bind { mask } => {
                &&& binds_device(*old(state), *final(state), conn, mask)
                &&& final(state).ids() == old(state).ids()
                &&& match spec_find_id(old(state).ids(), conn) {
                    Some(_) => r.1 matches Some(caps) && caps@ == caps_of_mask(mask),
                    None => r.1 is None,
                }
            },
            Request::Disconnect => {
                &&& r.1 is None
                &&& match spec_find_id(old(state).ids(), conn) {
                    Some(i) => final(state).connections@ == old(state).connections@.remove(i),
                    None => *final(state) == *old(state),
                }
            },
            _ => *final(state) == *old(state) && r.1 is None,
        },
{
    match *req {
        Request::KeyboardKey { key, pressed } => {
            let mut plan: Vec<Injection> = Vec::new();
            if limits.keycode_in_range(key) && snap.has_keyboard {
                plan.push(Injection::Key { code: key, pressed });
            }
            proof {
                assert(plan@ =~= plan_of(*limits, *snap, *req));
            }
            (plan, None)
        },
        Request::PointerMotion { dx, dy } => {
            let mut plan: Vec<Injection> = Vec::new();
            if snap.has_pointer {
                let p = snap.pointer_position.translated(dx, dy);
                let idx = resolve_output(snap, &p);
                let clamped = snap.outputs[idx].clamp(&p);
                plan.push(Injection::PointerMotion { position: clamped, output: idx });
                plan.push(Injection::Frame);
            }
            proof {
                assert(plan@ =~= plan_of(*limits, *snap, *req));
            }
            (plan, None)
        },
        Request::PointerMotionAbsolute { x, y } => {
            let mut plan: Vec<Injection> = Vec::new();
            if snap.has_pointer {
                let p = Point { x, y };
                let idx = resolve_output(snap, &p);
                plan.push(Injection::PointerMotion { position: p, output: idx });
                plan.push(Injection::Frame);
            }
            proof {
                assert(plan@ =~= plan_of(*limits, *snap, *req));
            }
            (plan, None)
        },
        Request::Button { button, pressed } => {
            let mut plan: Vec<Injection> = Vec::new();
            if limits.button_in_range(button) && snap.has_pointer {
                plan.push(Injection::Button { code: button, pressed });
                plan.push(Injection::Frame);
            }
            proof {
                assert(plan@ =~= plan_of(*limits, *snap, *req));
            }
            (plan, None)
        },
        Request::ScrollDelta { dx, dy } => {
            let mut plan: Vec<Injection> = Vec::new();
            if snap.has_pointer {
                let horizontal: Option<i64> = if dx != 0 {
                    Some(dx)
                } else {
                    None
                };
                let vertical: Option<i64> = if dy != 0 {
                    Some(dy)
                } else {
                    None
                };
                plan.push(Injection::Axis { horizontal, vertical });
                plan.push(Injection::Frame);
            }
            proof {
                assert(plan@ =~= plan_of(*limits, *snap, *req));
            }
            (plan, None)
        },
        Request::TouchDown { touch_id, x, y } => {
            let mut plan: Vec<Injection> = Vec::new();
            if limits.touch_id_in_range(touch_id) && snap.has_touch {
                let p = Point { x, y };
                let output = resolve_touch_target(snap, &p);
                plan.push(Injection::TouchDown { slot: touch_id, position: p, output });
                plan.push(Injection::Frame);
            }
            proof {
                assert(plan@ =~= plan_of(*limits, *snap, *req));
            }
            (plan, None)
        },
        Request::TouchMotion { touch_id, x, y } => {
            let mut plan: Vec<Injection> = Vec::new();
            if limits.touch_id_in_range(touch_id) && snap.has_touch {
                let p = Point { x, y };
                let output = resolve_touch_target(snap, &p);
                plan.push(Injection::TouchMotion { slot: touch_id, position: p, output });
                plan.push(Injection::Frame);
            }
            proof {
                assert(plan@ =~= plan_of(*limits, *snap, *req));
            }
            (plan, None)
        },
        Request::TouchUp { touch_id } => {
            let mut plan: Vec<Injection> = Vec::new();
            if snap.has_touch {
                plan.push(Injection::TouchUp { slot: touch_id });
                plan.push(Injection::Frame);
            }
            proof {
                assert(plan@ =~= plan_of(*limits, *snap, *req));
            }
            (plan, None)
        },
        Request::TouchCancel => {
            let mut plan: Vec<Injection> = Vec::new();
            if snap.has_touch {
                plan.push(Injection::TouchCancel);
                plan.push(Injection::Frame);
            }
            proof {
                assert(plan@ =~= plan_of(*limits, *snap, *req));
            }
            (plan, None)
        },
        Request::Bind { mask } => {
            let announced = state.bind_device(conn, mask);
            let plan: Vec<Injection> = Vec::new();
            proof {
                assert(plan@ =~= plan_of(*limits, *snap, *req));
            }
            (plan, announced)
        },
        Request::Disconnect => {
            state.disconnect(conn);
            let plan: Vec<Injection> = Vec::new();
            proof {
                assert(plan@ =~= plan_of(*limits, *snap, *req));
            }
            (plan, None)
        },
        Request::DeviceStartEmulating | Request::DeviceStopEmulating | Request::Frame
        | Request::Unknown => {
            let plan: Vec<Injection> = Vec::new();
            proof {
                assert(plan@ =~= plan_of(*limits, *snap, *req));
            }
            (plan, None)
        },
    }
}

} // verus!
