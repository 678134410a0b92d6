use vstd::prelude::*;
use crate::camera::{pinch_view, rotate_view, yaw_has_room, GameCamera, ROTATE_PER_PIXEL};
use crate::geometry::{dist_sq, Vec2i};
use crate::inputs::{ContactsView, InputAggregator};

verus! {

/// The input that drives a rotate drag, and where it was last seen.
#[derive(Clone, Copy, Debug, PartialEq, Eq, Structural)]
pub struct RotateTrack {
    pub id: u64,
    pub point: Vec2i,
}

/// The two inputs of a pinch, and their last squared distance in pixels.
#[derive(Clone, Copy, Debug, PartialEq, Eq, Structural)]
pub struct PinchTrack {
    pub first: u64,
    pub second: u64,
    pub dist_sq: i128,
}

/// The camera gestures in progress.
#[derive(Clone, Copy, Debug, PartialEq, Eq, Structural)]
pub struct CameraGestures {
    pub rotate: Option<RotateTrack>,
    pub pinch: Option<PinchTrack>,
}

/// One tick of the rotate gesture: its next state, and the drag in pixels to
/// rotate the camera by, if any. A rotate follows the oldest tracked input, or
/// starts from the first input pressed this tick; it is abandoned when that
/// input is released, when more than one input is held, or while a launch
/// drag is open.
pub open spec fn rotate_gesture(
    last: Option<RotateTrack>,
    v: ContactsView,
    just_pressed: Seq<u64>,
    dragging: bool,
) -> (Option<RotateTrack>, Option<(int, int)>) {
    let cand: Option<(u64, Option<Vec2i>)> = match last {
        Some(t) => Some((t.id, Some(t.point))),
        None => if just_pressed.len() > 0 { Some((just_pressed[0], None::<Vec2i>)) } else { None },
    };
    match cand {
        None => (last, None),
        Some((id, lp)) => {
            if v.inputs.just_released.contains(id) || v.inputs.pressed.len() > 1 || dragging {
                (None, None)
            } else if !v.positions.contains_key(id) {
                (last, None)
            } else if v.inputs.just_pressed.contains(id) {
                (Some(RotateTrack { id, point: v.positions[id] }), None)
            } else {
                match lp {
                    None => (last, None),
                    Some(l) => if v.inputs.pressed.contains(id) {
                        (
                            Some(RotateTrack { id, point: v.positions[id] }),
                            Some((v.positions[id].x - l.x, v.positions[id].y - l.y)),
                        )
                    } else {
                        (last, None)
                    },
                }
            }
        },
    }
}

/// One tick of the pinch gesture: its next state, and the change of the
/// squared finger distance to zoom by, if any. A pinch runs only while
/// exactly two inputs are held and no launch drag is open; it follows the
/// two inputs it started with and ends when either is released.
pub open spec fn pinch_gesture(
    last: Option<PinchTrack>,
    v: ContactsView,
    pressed: Seq<u64>,
    dragging: bool,
) -> (Option<PinchTrack>, Option<int>) {
    if dragging || v.inputs.pressed.len() != 2 {
        (None, None)
    } else {
        let cand: Option<PinchTrack> = match last {
            Some(p) => Some(p),
            None => if v.positions.contains_key(pressed[0]) && v.positions.contains_key(pressed[1]) {
                Some(PinchTrack {
                    first: pressed[0],
                    second: pressed[1],
                    dist_sq: dist_sq(v.positions[pressed[0]], v.positions[pressed[1]]) as i128,
                })
            } else {
                None
            },
        };
        match cand {
            None => (None, None),
            Some(p) => {
                if v.inputs.just_released.contains(p.first) || v.inputs.just_released.contains(p.second) {
                    (None, None)
                } else if v.inputs.pressed.contains(p.first) && v.inputs.pressed.contains(p.second) {
                    let now = if v.positions.contains_key(p.first) && v.positions.contains_key(p.second) {
                        dist_sq(v.positions[p.first], v.positions[p.second])
                    } else {
                        p.dist_sq as int
                    };
                    (Some(PinchTrack { dist_sq: now as i128, ..p }), Some(now - p.dist_sq))
                } else {
                    (cand, None)
                }
            },
        }
    }
}

/// Squared distance between two screen points, widened.
pub fn screen_dist_sq(a: Vec2i, b: Vec2i) -> (r: i128)
    ensures
        r == dist_sq(a, b),
        0 <= r <= 0x2_0000_0000_0000_0000,
{
    let dx: i128 = a.x as i128 - b.x as i128;
    let dy: i128 = a.y as i128 - b.y as i128;
    assert(0 <= dx * dx <= 0x1_0000_0000_0000_0000) by (nonlinear_arith)
        requires -0x1_0000_0000 <= dx <= 0x1_0000_0000;
    assert(0 <= dy * dy <= 0x1_0000_0000_0000_0000) by (nonlinear_arith)
        requires -0x1_0000_0000 <= dy <= 0x1_0000_0000;
    dx * dx + dy * dy
}

impl CameraGestures {
    /// A tracked pinch distance is a squared distance between two screen points.
    pub open spec fn wf(&self) -> bool {
        self.pinch matches Some(p) ==> 0 <= p.dist_sq <= 0x2_0000_0000_0000_0000
    }

    pub fn new() -> (r: CameraGestures)
        ensures
            r.wf(),
            r.rotate is None,
            r.pinch is None,
    {
        CameraGestures { rotate: None, pinch: None }
    }

    /// Runs one tick of the rotate gesture on `camera`.
    pub fn rotate_step(&mut self, camera: &mut GameCamera, agg: &InputAggregator, dragging: bool)
        requires
            agg.wf(),
            old(camera).wf(),
            yaw_has_room(old(camera)@),
            old(self).wf(),
        ensures
            final(self).wf(),
            final(self).pinch == old(self).pinch,
            ({
                let (next, drag) = rotate_gesture(old(self).rotate, agg@, agg.inputs.just_pressed_order(), dragging);
                &&& final(self).rotate == next
                &&& final(camera)@ == match drag {
                    Some((dx, dy)) => rotate_view(old(camera)@, dx, dy),
                    None => old(camera)@,
                }
            }),
            final(camera).wf(),
    {
        let ghost jp = agg.inputs.just_pressed_order();
        let (id, last_pos) = match self.rotate {
            Some(t) => (t.id, Some(t.point)),
            None => {
                let ids = agg.inputs.iter_just_pressed();
                if ids.len() == 0 {
                    return;
                }
                (ids[0], None)
            },
        };
        if agg.inputs.just_released(id) || agg.inputs.pressed_count() > 1 || dragging {
            self.rotate = None;
            return;
        }
        let cursor = match agg.position_of(id) {
            Some(p) => p,
            None => {
                return;
            },
        };
        if agg.inputs.just_pressed(id) {
            self.rotate = Some(RotateTrack { id, point: cursor });
            return;
        }
        let last = match last_pos {
            Some(l) => l,
            None => {
                return;
            },
        };
        if agg.inputs.pressed(id) {
            self.rotate = Some(RotateTrack { id, point: cursor });
            assert(-0x8000_0000_0000 < (cursor.x - last.x) * ROTATE_PER_PIXEL < 0x8000_0000_0000) by (nonlinear_arith)
                requires -0x1_0000_0000 < cursor.x - last.x < 0x1_0000_0000, ROTATE_PER_PIXEL == 20_000;
            camera.rotate(cursor.x as i64 - last.x as i64, cursor.y as i64 - last.y as i64);
        }
    }

    /// Runs one tick of the pinch gesture on `camera`.
    pub fn pinch_step(&mut self, camera: &mut GameCamera, agg: &InputAggregator, dragging: bool)
        requires
            agg.wf(),
            old(camera).wf(),
            old(self).wf(),
        ensures
            final(self).wf(),
            final(self).rotate == old(self).rotate,
            ({
                let (next, delta) = pinch_gesture(old(self).pinch, agg@, agg.inputs.pressed_order(), dragging);
                &&& final(self).pinch == next
                &&& final(camera)@ == match delta {
                    Some(d) => pinch_view(old(camera)@, d),
                    None => old(camera)@,
                }
            }),
            final(camera).wf(),
    {
        if dragging || agg.inputs.pressed_count() != 2 {
            self.pinch = None;
            return;
        }
        proof {
            agg.inputs.lemma_orders();
        }
        let p = match self.pinch {
            Some(p) => p,
            None => {
                let ids = agg.inputs.iter_pressed();
                match (agg.position_of(ids[0]), agg.position_of(ids[1])) {
                    (Some(a), Some(b)) => PinchTrack { first: ids[0], second: ids[1], dist_sq: screen_dist_sq(a, b) },
                    _ => {
                        self.pinch = None;
                        return;
                    },
                }
            },
        };
        if agg.inputs.just_released(p.first) || agg.inputs.just_released(p.second) {
            self.pinch = None;
            return;
        }
        if agg.inputs.pressed(p.first) && agg.inputs.pressed(p.second) {
            let now = match (agg.position_of(p.first), agg.position_of(p.second)) {
                (Some(a), Some(b)) => screen_dist_sq(a, b),
                _ => p.dist_sq,
            };
            let delta: i128 = now - p.dist_sq;
            self.pinch = Some(PinchTrack { dist_sq: now, ..p });
            camera.pinch(delta);
        } else {
            self.pinch = Some(p);
        }
    }
}

} // verus!
