use vstd::prelude::*;
use crate::drag::{DragInfo, DragInfoData};
use crate::geometry::{Vec2i, Vec3i};
use crate::power::{drag_power, power_of, reach_of, FULL_POWER};
use crate::geometry::dist_sq;

verus! {

/// How strongly a full-power launch pushes, in world units of impulse.
pub const IMPULSE_SCALE: u64 = 250;

/// A horizontal direction, scaled by any positive factor.
#[derive(Clone, Copy, Debug, PartialEq, Eq, Structural)]
pub struct Dir2 {
    pub x: i128,
    pub y: i128,
}

/// A ray from the camera through a point of the screen, in world millimetres.
/// Only the direction of `direction` matters.
#[derive(Clone, Copy, Debug, PartialEq, Eq, Structural)]
pub struct Ray {
    pub origin: Vec3i,
    pub direction: Vec3i,
}

pub open spec fn abs_of(a: int) -> int {
    if a < 0 { -a } else { a }
}

/// The ray meets the horizontal plane through `p` ahead of its origin.
pub open spec fn meets_plane(p: Vec3i, ray: Ray) -> bool {
    ray.direction.z != 0 && (p.z - ray.origin.z) * ray.direction.z > 0
}

/// The horizontal offset from the player at `p` to where the ray meets the
/// horizontal plane through `p`, scaled by the positive factor
/// `|direction.z|` so that it stays whole: with `q` the meeting point,
/// `|direction.z| * (q - p)`.
pub open spec fn aim_offset(p: Vec3i, ray: Ray) -> (int, int) {
    let dz = abs_of(ray.direction.z as int);
    let h = abs_of(p.z - ray.origin.z);
    (h * ray.direction.x - dz * (p.x - ray.origin.x), h * ray.direction.y - dz * (p.y - ray.origin.y))
}

/// The direction in which a launch pushes the player at `p` when the drag
/// point's camera ray is `ray`: from the player towards where the ray meets
/// the player's horizontal plane. None when the ray misses the plane, or
/// meets it right at the player.
pub open spec fn aim_direction_of(p: Vec3i, ray: Ray) -> Option<(int, int)> {
    if meets_plane(p, ray) && aim_offset(p, ray) != (0int, 0int) {
        Some(aim_offset(p, ray))
    } else {
        None
    }
}

/// Where the ray meets the horizontal plane through `p`, as an offset from
/// `p` scaled by `direction.z`: `direction.z * (q - p)` for the meeting point
/// `q = origin + t * direction` with `t = (p.z - origin.z) / direction.z`.
pub open spec fn meeting_offset_scaled(p: Vec3i, ray: Ray) -> (int, int) {
    (
        (ray.origin.x - p.x) * ray.direction.z + (p.z - ray.origin.z) * ray.direction.x,
        (ray.origin.y - p.y) * ray.direction.z + (p.z - ray.origin.z) * ray.direction.y,
    )
}

/// The launch direction is a positive multiple of the offset from the player
/// to the ray's meeting point: `direction.z * aim_offset` equals
/// `|direction.z|` times `direction.z * (q - p)`.
pub proof fn lemma_aim_offset_points_at_meeting(p: Vec3i, ray: Ray)
    requires
        meets_plane(p, ray),
    ensures
        aim_offset(p, ray).0 * ray.direction.z == abs_of(ray.direction.z as int) * meeting_offset_scaled(p, ray).0,
        aim_offset(p, ray).1 * ray.direction.z == abs_of(ray.direction.z as int) * meeting_offset_scaled(p, ray).1,
{
    let dz = ray.direction.z as int;
    let hz = p.z - ray.origin.z;
    let (ox, oy) = (p.x - ray.origin.x, p.y - ray.origin.y);
    let (dx, dy) = (ray.direction.x as int, ray.direction.y as int);
    if dz > 0 {
        assert(hz > 0) by (nonlinear_arith)
            requires hz * dz > 0, dz > 0;
        assert((hz * dx - dz * ox) * dz == dz * (-ox * dz + hz * dx)) by (nonlinear_arith);
        assert((hz * dy - dz * oy) * dz == dz * (-oy * dz + hz * dy)) by (nonlinear_arith);
    } else {
        assert(hz < 0) by (nonlinear_arith)
            requires hz * dz > 0, dz < 0;
        assert((-hz * dx - (-dz) * ox) * dz == (-dz) * (-ox * dz + hz * dx)) by (nonlinear_arith);
        assert((-hz * dy - (-dz) * oy) * dz == (-dz) * (-oy * dz + hz * dy)) by (nonlinear_arith);
    }
}

fn abs_i64(a: i64) -> (r: i64)
    requires
        a > i64::MIN,
    ensures
        r == abs_of(a as int),
{
    if a < 0 { -a } else { a }
}

fn plane_is_met(p: Vec3i, ray: Ray) -> (r: bool)
    ensures
        r == meets_plane(p, ray),
{
    let height: i128 = p.z as i128 - ray.origin.z as i128;
    let dz: i128 = ray.direction.z as i128;
    assert(-0x1_0000_0000_0000_0000 <= height * dz <= 0x1_0000_0000_0000_0000) by (nonlinear_arith)
        requires -0x1_0000_0000 <= height <= 0x1_0000_0000, -0x1_0000_0000 <= dz <= 0x1_0000_0000;
    dz != 0 && height * dz > 0
}

/// See `aim_direction_of`.
pub fn aim_direction(p: Vec3i, ray: Ray) -> (r: Option<Dir2>)
    ensures
        r == dir_of(p, ray),
        r matches Some(d) ==> aim_direction_of(p, ray) == Some((d.x as int, d.y as int)),
{
    let dz = abs_i64(ray.direction.z as i64);
    let h = abs_i64(p.z as i64 - ray.origin.z as i64);
    if !plane_is_met(p, ray) {
        return None;
    }
    let ox: i128 = p.x as i128 - ray.origin.x as i128;
    let oy: i128 = p.y as i128 - ray.origin.y as i128;
    let dx: i128 = ray.direction.x as i128;
    let dy: i128 = ray.direction.y as i128;
    let dzw: i128 = dz as i128;
    let hw: i128 = h as i128;
    assert(-0x1_0000_0000_0000_0000 <= dzw * ox <= 0x1_0000_0000_0000_0000) by (nonlinear_arith)
        requires 0 <= dzw <= 0x1_0000_0000, -0x1_0000_0000 <= ox <= 0x1_0000_0000;
    assert(-0x1_0000_0000_0000_0000 <= dzw * oy <= 0x1_0000_0000_0000_0000) by (nonlinear_arith)
        requires 0 <= dzw <= 0x1_0000_0000, -0x1_0000_0000 <= oy <= 0x1_0000_0000;
    assert(-0x1_0000_0000_0000_0000 <= hw * dx <= 0x1_0000_0000_0000_0000) by (nonlinear_arith)
        requires 0 <= hw <= 0x1_0000_0000, -0x1_0000_0000 <= dx <= 0x1_0000_0000;
    assert(-0x1_0000_0000_0000_0000 <= hw * dy <= 0x1_0000_0000_0000_0000) by (nonlinear_arith)
        requires 0 <= hw <= 0x1_0000_0000, -0x1_0000_0000 <= dy <= 0x1_0000_0000;
    let ax = hw * dx - dzw * ox;
    let ay = hw * dy - dzw * oy;
    if ax == 0 && ay == 0 {
        None
    } else {
        Some(Dir2 { x: ax, y: ay })
    }
}

/// What the aim arrow shows: the power in thousandths, and the horizontal
/// direction it points in (the launch direction, see `aim_direction_of`).
#[derive(Clone, Copy, Debug, PartialEq, Eq, Structural)]
pub struct ArrowScene {
    pub power: u64,
    pub direction: Option<Dir2>,
}

/// The horizontal launch direction as stored: see `aim_direction_of`.
pub open spec fn dir_of(p: Vec3i, ray: Ray) -> Option<Dir2> {
    match aim_direction_of(p, ray) {
        Some((x, y)) => Some(Dir2 { x: x as i128, y: y as i128 }),
        None => None,
    }
}

/// The arrow after one tick: hidden (no power, no direction) with no drag or
/// when the drag point's ray misses the player's plane; else the drag's
/// power and direction.
pub open spec fn arrow_after(
    drag: Option<DragInfoData>,
    player_screen: Vec2i,
    height: u32,
    player: Vec3i,
    ray: Ray,
) -> ArrowScene {
    match drag {
        None => ArrowScene { power: 0, direction: None },
        Some(d) => if meets_plane(player, ray) {
            ArrowScene {
                power: power_of(reach_of(dist_sq(player_screen, d.point) as nat, height as nat)) as u64,
                direction: dir_of(player, ray),
            }
        } else {
            ArrowScene { power: 0, direction: None }
        },
    }
}

impl ArrowScene {
    pub fn new() -> (r: ArrowScene)
        ensures
            r.power == 0,
            r.direction is None,
    {
        ArrowScene { power: 0, direction: None }
    }

    /// The arrow is drawn only while a launch would have some power.
    pub fn visible(&self) -> (r: bool)
        ensures
            r == (self.power > 0),
    {
        self.power > 0
    }

    /// Refreshes the arrow from the drag in progress. With no drag, or when
    /// the drag point's ray misses the player's plane, it is hidden;
    /// otherwise it takes the drag's power and direction.
    pub fn update(&mut self, drag: Option<DragInfoData>, player_screen: Vec2i, height: u32, player: Vec3i, ray: Ray)
        requires
            height > 0,
        ensures
            *final(self) == arrow_after(drag, player_screen, height, player, ray),
    {
        match drag {
            None => {
                *self = ArrowScene::new();
            },
            Some(d) => {
                if !plane_is_met(player, ray) {
                    *self = ArrowScene::new();
                    return;
                }
                let direction = aim_direction(player, ray);
                self.power = drag_power(player_screen, d.point, height);
                self.direction = direction;
            },
        }
    }
}

/// A launch: push the player horizontally along `direction` (only its
/// direction counts) with a strength of `magnitude_milli` thousandths of a
/// world unit of impulse.
#[derive(Clone, Copy, Debug, PartialEq, Eq, Structural)]
pub struct Impulse {
    pub direction: Dir2,
    pub magnitude_milli: u64,
}

/// A launch is owed: the drag was confirmed, it has power, the ray meets the
/// player's plane off the player, and a shot is left.
pub open spec fn launch_owed(d: DragInfoData, power: int, player: Vec3i, ray: Ray, shots: int) -> bool {
    d.confirmed && power > 0 && aim_direction_of(player, ray) is Some && shots > 0
}

/// Turns a confirmed drag into a launch. A launch uses up one shot; when no
/// launch is owed nothing changes.
pub fn resolve(d: &DragInfoData, power: u64, player: Vec3i, ray: Ray, shots: &mut u32) -> (r: Option<Impulse>)
    requires
        power <= FULL_POWER,
    ensures
        launch_owed(*d, power as int, player, ray, *old(shots) as int) == r is Some,
        r is Some ==> *final(shots) == *old(shots) - 1,
        r is None ==> *final(shots) == *old(shots),
        r matches Some(i) ==> {
            &&& aim_direction_of(player, ray) == Some((i.direction.x as int, i.direction.y as int))
            &&& i.magnitude_milli == power * IMPULSE_SCALE
        },
{
    if !d.confirmed || power == 0 || *shots == 0 {
        return None;
    }
    match aim_direction(player, ray) {
        None => None,
        Some(direction) => {
            *shots = *shots - 1;
            Some(Impulse { direction, magnitude_milli: power * IMPULSE_SCALE })
        },
    }
}

/// Consumes a confirmed drag: resolves it into a launch, if one is owed, and
/// closes the session either way. An unconfirmed drag is left as it is.
pub fn fire_player(drag: &mut DragInfo, power: u64, player: Vec3i, ray: Ray, shots: &mut u32) -> (r: Option<Impulse>)
    requires
        power <= FULL_POWER,
    ensures
        match old(drag).0 {
            Some(d) if d.confirmed => {
                &&& final(drag).0 is None
                &&& launch_owed(d, power as int, player, ray, *old(shots) as int) == r is Some
                &&& (r is Some ==> *final(shots) == *old(shots) - 1)
                &&& (r is None ==> *final(shots) == *old(shots))
                &&& (r matches Some(i) ==> aim_direction_of(player, ray) == Some((i.direction.x as int, i.direction.y as int))
                    && i.magnitude_milli == power * IMPULSE_SCALE)
            },
            _ => *final(drag) == *old(drag) && *final(shots) == *old(shots) && r is None,
        },
{
    match drag.0 {
        Some(d) => {
            if d.confirmed {
                let r = resolve(&d, power, player, ray, shots);
                drag.0 = None;
                r
            } else {
                None
            }
        },
        None => None,
    }
}

} // verus!
