use vstd::prelude::*;
use crate::geometry::Vec2i;
use crate::inputs::{ContactsView, InputAggregator};

verus! {

/// The live state of one aim-and-launch gesture.
#[derive(Clone, Copy, Debug, PartialEq, Eq, Structural)]
pub struct DragInfoData {
    /// Where the owning input is now, in screen pixels.
    pub point: Vec2i,
    /// The input that started the gesture.
    pub user_input: u64,
    /// The owning input was released: the launch is to be resolved.
    pub confirmed: bool,
}

#[derive(Clone, Copy, Debug, PartialEq, Eq, Structural)]
pub enum DragError {
    AlreadyDragging,
}

/// The touch target around the player: a circle in the middle of the window
/// whose diameter is the shorter window side divided by 3.5.
#[derive(Clone, Copy, Debug, PartialEq, Eq, Structural)]
pub struct AimCircle {
    pub width: u32,
    pub height: u32,
}

impl AimCircle {
    /// `p` lies in the circle; both sides are doubled so that the window
    /// centre and the radius stay whole.
    pub open spec fn spec_contains(self, p: Vec2i) -> bool {
        let dx = 2 * p.x - self.width;
        let dy = 2 * p.y - self.height;
        let side = if self.width <= self.height { self.width as int } else { self.height as int };
        49 * (dx * dx + dy * dy) <= 4 * (side * side)
    }

    pub fn contains(&self, p: Vec2i) -> (r: bool)
        ensures
            r == self.spec_contains(p),
    {
        let dx: i128 = 2 * p.x as i128 - self.width as i128;
        let dy: i128 = 2 * p.y as i128 - self.height as i128;
        let side: i128 = if self.width <= self.height { self.width as i128 } else { self.height as i128 };
        assert(0 <= dx * dx <= 0x100_0000_0000_0000_0000) by (nonlinear_arith)
            requires -0x10_0000_0000 <= dx <= 0x10_0000_0000;
        assert(0 <= dy * dy <= 0x100_0000_0000_0000_0000) by (nonlinear_arith)
            requires -0x10_0000_0000 <= dy <= 0x10_0000_0000;
        assert(0 <= side * side <= 0x100_0000_0000_0000_0000) by (nonlinear_arith)
            requires 0 <= side <= 0x10_0000_0000;
        49 * (dx * dx + dy * dy) <= 4 * (side * side)
    }
}

/// The first just-pressed input, in order of press, whose position lies in
/// the aim circle; the search stops at an input with no known position.
pub open spec fn aim_candidate(ids: Seq<u64>, positions: Map<u64, Vec2i>, circle: AimCircle) -> Option<(u64, Vec2i)>
    decreases ids.len(),
{
    if ids.len() == 0 {
        None
    } else if !positions.contains_key(ids[0]) {
        None
    } else if circle.spec_contains(positions[ids[0]]) {
        Some((ids[0], positions[ids[0]]))
    } else {
        aim_candidate(ids.subrange(1, ids.len() as int), positions, circle)
    }
}

/// The session after a tick's presses: a new one for the first press in the
/// aim circle (see `aim_candidate`), if none is open and a shot is left.
pub open spec fn started_session(
    s: Option<DragInfoData>,
    just_pressed: Seq<u64>,
    positions: Map<u64, Vec2i>,
    circle: AimCircle,
    shots: u32,
) -> Option<DragInfoData> {
    if s is Some || shots == 0 {
        s
    } else {
        match aim_candidate(just_pressed, positions, circle) {
            Some((id, p)) => Some(DragInfoData { point: p, user_input: id, confirmed: false }),
            None => None,
        }
    }
}

/// The session after one tick of input: cancelled when more than one input is
/// held, else following the owning input's position and confirmed once it is
/// released.
pub open spec fn tracked_session(s: Option<DragInfoData>, v: ContactsView) -> Option<DragInfoData> {
    if v.inputs.pressed.len() > 1 {
        None
    } else {
        match s {
            None => None,
            Some(d) => Some(DragInfoData {
                point: if v.positions.contains_key(d.user_input) { v.positions[d.user_input] } else { d.point },
                user_input: d.user_input,
                confirmed: d.confirmed || v.inputs.just_released.contains(d.user_input),
            }),
        }
    }
}

/// Owns the drag in progress, if any: there is never more than one.
#[derive(Clone, Copy, Debug, PartialEq, Eq, Structural)]
pub struct DragInfo(pub Option<DragInfoData>);

impl DragInfo {
    pub fn new() -> (r: DragInfo)
        ensures
            r.0.is_none(),
    {
        DragInfo(None)
    }

    /// Opens a session for `input_id` at `point`, unless one is open.
    pub fn begin(&mut self, input_id: u64, point: Vec2i) -> (r: Result<(), DragError>)
        ensures
            old(self).0.is_some() ==> r == Err::<(), DragError>(DragError::AlreadyDragging) && *final(self) == *old(self),
            old(self).0.is_none() ==> r is Ok && final(self).0 == Some(
                DragInfoData { point, user_input: input_id, confirmed: false },
            ),
    {
        if self.0.is_some() {
            Err(DragError::AlreadyDragging)
        } else {
            self.0 = Some(DragInfoData { point, user_input: input_id, confirmed: false });
            Ok(())
        }
    }

    /// Drops the session, if any.
    pub fn cancel(&mut self)
        ensures
            final(self).0.is_none(),
    {
        self.0 = None;
    }

    pub fn current(&self) -> (r: Option<DragInfoData>)
        ensures
            r == self.0,
    {
        self.0
    }

    /// Opens a session for the first input pressed this tick inside the aim
    /// circle, provided no session is open and a shot is left.
    pub fn start_aim(&mut self, agg: &InputAggregator, circle: AimCircle, shots: u32)
        requires
            agg.wf(),
        ensures
            final(self).0 == started_session(old(self).0, agg.inputs.just_pressed_order(), agg@.positions, circle, shots),
    {
        if self.0.is_some() || shots == 0 {
            return;
        }
        let ids = agg.inputs.iter_just_pressed();
        let ghost all = ids@;
        let mut i: usize = 0;
        assert(all.subrange(0, all.len() as int) =~= all);
        while i < ids.len()
            invariant
                0 <= i <= ids@.len(),
                ids@ == all,
                all == agg.inputs.just_pressed_order(),
                self.0.is_none(),
                old(self).0.is_none(),
                shots > 0,
                aim_candidate(all, agg@.positions, circle) == aim_candidate(
                    all.subrange(i as int, all.len() as int),
                    agg@.positions,
                    circle,
                ),
            decreases ids@.len() - i,
        {
            let id = ids[i];
            let ghost rest = all.subrange(i as int, all.len() as int);
            assert(rest[0] == id);
            assert(rest.subrange(1, rest.len() as int) =~= all.subrange(i + 1, all.len() as int));
            match agg.position_of(id) {
                None => {
                    return;
                },
                Some(p) => {
                    if circle.contains(p) {
                        let _ = self.begin(id, p);
                        return;
                    }
                },
            }
            i += 1;
        }
        assert(all.subrange(i as int, all.len() as int) =~= Seq::<u64>::empty());
    }

    /// Follows this tick's input: more than one held input cancels the
    /// session; otherwise it tracks the owning input and is confirmed when
    /// that input is released.
    pub fn update(&mut self, agg: &InputAggregator)
        requires
            agg.wf(),
        ensures
            final(self).0 == tracked_session(old(self).0, agg@),
    {
        if agg.inputs.pressed_count() > 1 {
            self.0 = None;
            return;
        }
        if let Some(d) = self.0 {
            let point = match agg.position_of(d.user_input) {
                Some(p) => p,
                None => d.point,
            };
            let confirmed = d.confirmed || agg.inputs.just_released(d.user_input);
            self.0 = Some(DragInfoData { point, user_input: d.user_input, confirmed });
        }
    }
}

} // verus!

verus! {

/// A second held input ends the drag within the same tick, whatever the
/// session was; and a tick never opens a session that was not there.
pub proof fn lemma_single_session(s: Option<DragInfoData>, v: ContactsView)
    ensures
        v.inputs.pressed.len() > 1 ==> tracked_session(s, v) is None,
        s is None ==> tracked_session(s, v) is None,
        tracked_session(s, v) matches Some(d) ==> s matches Some(e) && d.user_input == e.user_input,
{
}

} // verus!
