use vstd::prelude::*;

verus! {

/// Closest the camera may come to the player, in micrometres.
pub const MIN_DISTANCE: i64 = 4_000_000;
/// Farthest the camera may go from the player, in micrometres.
pub const MAX_DISTANCE: i64 = 8_000_000;
/// Starting distance, in micrometres.
pub const DEFAULT_DISTANCE: i64 = 6_000_000;
/// Half a turn, in microradians.
pub const PI_MICRO: i64 = 3_141_593;
/// How far from zero the yaw may stand for a rotate gesture to be taken:
/// one drag across the whole screen range then still fits.
pub const YAW_LIMIT: i64 = 0x7fff_0000_0000_0000;
/// How far the pitch stays from either pole, in microradians.
pub const POLE_MARGIN: i64 = 1_000;
pub const MIN_PITCH: i64 = POLE_MARGIN;
pub const MAX_PITCH: i64 = PI_MICRO - POLE_MARGIN;
/// Starting pitch: a third of a half turn, in microradians.
pub const DEFAULT_PITCH: i64 = 1_047_198;
/// Turn per pixel of a rotate drag, in microradians.
pub const ROTATE_PER_PIXEL: i64 = 20_000;
/// Distance per thousandth of a scroll line, in micrometres.
pub const ZOOM_PER_MILLI_LINE: i64 = 500;
/// Distance per pinch step, in micrometres.
pub const PINCH_STEP: i64 = 250_000;
/// A pinch moves only when the squared finger distance changes by more than this.
pub const PINCH_DEAD_ZONE: i64 = 4;

/// The orbit camera: distance from the player, yaw and pitch.
pub ghost struct CameraView {
    pub distance: int,
    pub yaw: int,
    pub pitch: int,
}

pub open spec fn clamp(v: int, lo: int, hi: int) -> int {
    if v < lo { lo } else if v > hi { hi } else { v }
}

/// Distance and pitch lie within their clamps; yaw is not clamped.
pub open spec fn camera_wf(v: CameraView) -> bool {
    &&& MIN_DISTANCE <= v.distance <= MAX_DISTANCE
    &&& MIN_PITCH <= v.pitch <= MAX_PITCH
}

/// The yaw is far enough from the ends of `i64` for any one rotate drag.
pub open spec fn yaw_has_room(v: CameraView) -> bool {
    -YAW_LIMIT <= v.yaw <= YAW_LIMIT
}

pub open spec fn distance_view(v: CameraView, delta: int) -> CameraView {
    CameraView { distance: clamp(v.distance + delta, MIN_DISTANCE as int, MAX_DISTANCE as int), ..v }
}

/// Adds to the yaw, and to the pitch (kept off the poles).
pub open spec fn offset_view(v: CameraView, dyaw: int, dpitch: int) -> CameraView {
    CameraView {
        distance: v.distance,
        yaw: v.yaw + dyaw,
        pitch: clamp(v.pitch + dpitch, MIN_PITCH as int, MAX_PITCH as int),
    }
}

/// Scrolling by `scroll` thousandths of a line, at most one line either way.
pub open spec fn zoom_view(v: CameraView, scroll: int) -> CameraView {
    distance_view(v, -clamp(scroll, -1000, 1000) * ZOOM_PER_MILLI_LINE)
}

/// A pinch whose squared finger distance changed by `delta`.
pub open spec fn pinch_view(v: CameraView, delta: int) -> CameraView {
    if delta > PINCH_DEAD_ZONE {
        distance_view(v, -PINCH_STEP)
    } else if delta < -PINCH_DEAD_ZONE {
        distance_view(v, PINCH_STEP as int)
    } else {
        v
    }
}

/// A drag of `(dx, dy)` pixels: right turns the yaw, up raises the pitch.
pub open spec fn rotate_view(v: CameraView, dx: int, dy: int) -> CameraView {
    offset_view(v, dx * ROTATE_PER_PIXEL, -dy * ROTATE_PER_PIXEL)
}

#[derive(Clone, Copy, Debug, PartialEq, Eq, Structural)]
pub struct GameCamera {
    distance: i64,
    yaw: i64,
    pitch: i64,
}

impl View for GameCamera {
    type V = CameraView;

    closed spec fn view(&self) -> CameraView {
        CameraView { distance: self.distance as int, yaw: self.yaw as int, pitch: self.pitch as int }
    }
}

impl Default for GameCamera {
    fn default() -> (r: GameCamera)
        ensures
            r@ == (CameraView { distance: DEFAULT_DISTANCE as int, yaw: 0, pitch: DEFAULT_PITCH as int }),
            camera_wf(r@),
    {
        GameCamera { distance: DEFAULT_DISTANCE, yaw: 0, pitch: DEFAULT_PITCH }
    }
}

impl GameCamera {
    pub open spec fn wf(&self) -> bool {
        camera_wf(self@)
    }

    /// Distance from the player, in micrometres.
    pub fn get_distance(&self) -> (r: i64)
        ensures
            r == self@.distance,
    {
        self.distance
    }

    /// Yaw and pitch, in microradians.
    pub fn get_offset(&self) -> (r: (i64, i64))
        ensures
            r.0 == self@.yaw,
            r.1 == self@.pitch,
    {
        (self.yaw, self.pitch)
    }

    fn change_distance(&mut self, delta: i128)
        requires
            camera_wf(old(self)@),
            -0x1_0000_0000_0000_0000 <= delta <= 0x1_0000_0000_0000_0000,
        ensures
            final(self)@ == distance_view(old(self)@, delta as int),
            camera_wf(final(self)@),
    {
        let d: i128 = self.distance as i128 + delta;
        self.distance = if d < MIN_DISTANCE as i128 {
            MIN_DISTANCE
        } else if d > MAX_DISTANCE as i128 {
            MAX_DISTANCE
        } else {
            d as i64
        };
    }

    fn change_offset(&mut self, dyaw: i128, dpitch: i128)
        requires
            camera_wf(old(self)@),
            i64::MIN <= old(self)@.yaw + dyaw <= i64::MAX,
            -0x1_0000_0000_0000_0000_0000 <= dpitch <= 0x1_0000_0000_0000_0000_0000,
        ensures
            final(self)@ == offset_view(old(self)@, dyaw as int, dpitch as int),
            camera_wf(final(self)@),
    {
        self.yaw = (self.yaw as i128 + dyaw) as i64;
        let p: i128 = self.pitch as i128 + dpitch;
        self.pitch = if p < MIN_PITCH as i128 {
            MIN_PITCH
        } else if p > MAX_PITCH as i128 {
            MAX_PITCH
        } else {
            p as i64
        };
    }

    /// Moves the camera `delta` micrometres away from the player, within the
    /// distance clamp.
    pub fn distance(&mut self, delta: i64)
        requires
            old(self).wf(),
        ensures
            final(self)@ == distance_view(old(self)@, delta as int),
            final(self).wf(),
    {
        self.change_distance(delta as i128);
    }

    /// Turns the camera by `dyaw` and `dpitch` microradians.
    pub fn offset(&mut self, dyaw: i64, dpitch: i64)
        requires
            old(self).wf(),
            i64::MIN <= old(self)@.yaw + dyaw <= i64::MAX,
        ensures
            final(self)@ == offset_view(old(self)@, dyaw as int, dpitch as int),
            final(self).wf(),
    {
        self.change_offset(dyaw as i128, dpitch as i128);
    }

    /// Scrolls by `scroll` thousandths of a line; at most one line counts.
    pub fn zoom(&mut self, scroll: i64)
        requires
            old(self).wf(),
        ensures
            final(self)@ == zoom_view(old(self)@, scroll as int),
            final(self).wf(),
    {
        let s: i64 = if scroll < -1000 { -1000 } else if scroll > 1000 { 1000 } else { scroll };
        assert(-1_000_000 <= s * ZOOM_PER_MILLI_LINE <= 1_000_000) by (nonlinear_arith)
            requires -1000 <= s <= 1000, ZOOM_PER_MILLI_LINE == 500;
        let step: i128 = s as i128 * ZOOM_PER_MILLI_LINE as i128;
        self.change_distance(-step);
    }

    /// A pinch whose squared finger distance changed by `delta` square pixels.
    pub fn pinch(&mut self, delta: i128)
        requires
            old(self).wf(),
        ensures
            final(self)@ == pinch_view(old(self)@, delta as int),
            final(self).wf(),
    {
        if delta > PINCH_DEAD_ZONE as i128 {
            self.change_distance(-(PINCH_STEP as i128));
        } else if delta < -(PINCH_DEAD_ZONE as i128) {
            self.change_distance(PINCH_STEP as i128);
        }
    }

    /// A rotate drag of `(dx, dy)` pixels.
    pub fn rotate(&mut self, dx: i64, dy: i64)
        requires
            old(self).wf(),
            i64::MIN <= old(self)@.yaw + dx * ROTATE_PER_PIXEL <= i64::MAX,
        ensures
            final(self)@ == rotate_view(old(self)@, dx as int, dy as int),
            final(self).wf(),
    {
        assert(-0x1_0000_0000_0000_0000_0000 <= dx * ROTATE_PER_PIXEL <= 0x1_0000_0000_0000_0000_0000) by (nonlinear_arith)
            requires i64::MIN <= dx <= i64::MAX, ROTATE_PER_PIXEL == 20_000;
        assert(-0x1_0000_0000_0000_0000_0000 <= dy * ROTATE_PER_PIXEL <= 0x1_0000_0000_0000_0000_0000) by (nonlinear_arith)
            requires i64::MIN <= dy <= i64::MAX, ROTATE_PER_PIXEL == 20_000;
        let dyaw: i128 = dx as i128 * ROTATE_PER_PIXEL as i128;
        let dpitch: i128 = dy as i128 * ROTATE_PER_PIXEL as i128;
        self.change_offset(dyaw, -dpitch);
    }
}

/// Zooming by nothing and rotating by nothing leave the camera as it is, and
/// whatever the input, zooming, pinching and rotating keep distance and pitch
/// within their clamps.
pub proof fn lemma_camera_clamps(v: CameraView, scroll: int, delta: int, dx: int, dy: int)
    requires
        camera_wf(v),
    ensures
        zoom_view(v, 0) == v,
        rotate_view(v, 0, 0) == v,
        camera_wf(zoom_view(v, scroll)),
        camera_wf(pinch_view(v, delta)),
        camera_wf(rotate_view(v, dx, dy)),
        rotate_view(v, dx, dy).yaw == v.yaw + dx * ROTATE_PER_PIXEL,
{
}

} // verus!
