//! What the keys ask of the camera in one tick.
//!
//! Lengths are counted in billionths of a unit and angles in billionths of a
//! radian, times in nanoseconds: a speed of 8 units per second moves the
//! camera by 8 billionths of a unit each nanosecond. The trigonometry that
//! turns the new angles into a view basis is the caller's.

use vstd::prelude::*;
use crate::input::{key_pressed, KeyCode, KeyState, State};
use crate::math::{Vec2, Vec3};

verus! {

/// The speed of movement, in units per second.
pub const MOVE_SPEED: u32 = 8;

/// The speed of turning, in radians per second.
pub const TURN_SPEED: u32 = 2;

/// An axis no longer than one part in this many of a full deflection counts
/// as no input.
pub const DEAD_ZONE_INVERSE: u64 = 100;

/// Half a turn in billionths of a radian, rounded down.
pub const HALF_TURN: i64 = 3_141_592_653;

/// How far the azimuth stays from the two poles, in billionths of a radian.
pub const AZIMUTH_MARGIN: i64 = 10_000_000;

/// The least azimuth that a turn leaves.
pub const AZIMUTH_MIN: i64 = AZIMUTH_MARGIN;

/// The greatest azimuth that a turn leaves.
pub const AZIMUTH_MAX: i64 = HALF_TURN - AZIMUTH_MARGIN;

/// The deflection of an axis that two opposing keys drive: 1 where only the
/// first is down, -1 where only the second is, 0 otherwise.
pub open spec fn spec_axis(positive: bool, negative: bool) -> int {
    (if positive {
        1int
    } else {
        0int
    }) - (if negative {
        1int
    } else {
        0int
    })
}

/// The deflection of an axis that two opposing keys drive.
pub fn axis(positive: bool, negative: bool) -> (r: i32)
    ensures
        r == spec_axis(positive, negative),
{
    let up: i32 = if positive {
        1
    } else {
        0
    };
    let down: i32 = if negative {
        1
    } else {
        0
    };
    up - down
}

/// The movement that the keys ask for, along the camera's own axes: to the
/// right by D against A, up by R against F, forward by W against S.
pub open spec fn spec_move_axis(keys: Map<KeyCode, KeyState>) -> Vec3<i32> {
    Vec3 {
        x: spec_axis(key_pressed(keys, KeyCode::KeyD), key_pressed(keys, KeyCode::KeyA)) as i32,
        y: spec_axis(key_pressed(keys, KeyCode::KeyR), key_pressed(keys, KeyCode::KeyF)) as i32,
        z: spec_axis(key_pressed(keys, KeyCode::KeyW), key_pressed(keys, KeyCode::KeyS)) as i32,
    }
}

/// The turn that the keys ask for: `x` of the elevation, by the right arrow
/// against the left one; `y` of the azimuth, by the down arrow against the up
/// arrow.
pub open spec fn spec_rotate_axis(keys: Map<KeyCode, KeyState>) -> Vec2<i32> {
    Vec2 {
        x: spec_axis(
            key_pressed(keys, KeyCode::ArrowRight),
            key_pressed(keys, KeyCode::ArrowLeft),
        ) as i32,
        y: spec_axis(
            key_pressed(keys, KeyCode::ArrowDown),
            key_pressed(keys, KeyCode::ArrowUp),
        ) as i32,
    }
}

/// The movement that the keys ask for.
pub fn move_axis(input: &State) -> (r: Vec3<i32>)
    ensures
        r == spec_move_axis(input@),
{
    Vec3 {
        x: axis(input.is_key_pressed(KeyCode::KeyD), input.is_key_pressed(KeyCode::KeyA)),
        y: axis(input.is_key_pressed(KeyCode::KeyR), input.is_key_pressed(KeyCode::KeyF)),
        z: axis(input.is_key_pressed(KeyCode::KeyW), input.is_key_pressed(KeyCode::KeyS)),
    }
}

/// The turn that the keys ask for.
pub fn rotate_axis(input: &State) -> (r: Vec2<i32>)
    ensures
        r == spec_rotate_axis(input@),
{
    Vec2 {
        x: axis(
            input.is_key_pressed(KeyCode::ArrowRight),
            input.is_key_pressed(KeyCode::ArrowLeft),
        ),
        y: axis(input.is_key_pressed(KeyCode::ArrowDown), input.is_key_pressed(KeyCode::ArrowUp)),
    }
}

/// An axis of this squared length is inside the dead zone: its length is at
/// most one part in `DEAD_ZONE_INVERSE`.
pub open spec fn spec_in_dead_zone(length2: int) -> bool {
    length2 * DEAD_ZONE_INVERSE * DEAD_ZONE_INVERSE <= 1
}

/// Whether an axis of this squared length is inside the dead zone.
pub fn in_dead_zone(length2: u64) -> (r: bool)
    ensures
        r == spec_in_dead_zone(length2 as int),
{
    let inverse: u128 = DEAD_ZONE_INVERSE as u128;
    assert(length2 * inverse * inverse == length2 * 10000) by (nonlinear_arith)
        requires
            inverse == 100,
    ;
    let scaled: u128 = length2 as u128 * inverse * inverse;
    scaled <= 1
}

/// The motion of the camera in one tick: the two axes, and the time for
/// which they are applied.
#[derive(Copy, Clone, Debug, PartialEq, Eq)]
pub struct CameraMotion {
    /// Along the camera's right, up and forward.
    pub move_axis: Vec3<i32>,
    /// `x` turns the elevation, `y` the azimuth.
    pub rotate_axis: Vec2<i32>,
    /// The length of the tick in nanoseconds.
    pub delta_time: u64,
}

/// The motion that the keys ask for over `delta_time` nanoseconds: none
/// where both axes are inside the dead zone.
pub open spec fn spec_camera_motion(keys: Map<KeyCode, KeyState>, delta_time: u64) -> Option<
    CameraMotion,
> {
    let move_axis = spec_move_axis(keys);
    let rotate_axis = spec_rotate_axis(keys);
    if spec_in_dead_zone(move_axis.spec_length2()) && spec_in_dead_zone(
        rotate_axis.spec_length2(),
    ) {
        None
    } else {
        Some(CameraMotion { move_axis, rotate_axis, delta_time })
    }
}

/// The motion that the keys ask for over `delta_time` nanoseconds.
pub fn camera_motion(input: &State, delta_time: u64) -> (r: Option<CameraMotion>)
    ensures
        r == spec_camera_motion(input@, delta_time),
{
    let move_axis = move_axis(input);
    let rotate_axis = rotate_axis(input);
    if in_dead_zone(move_axis.length2()) && in_dead_zone(rotate_axis.length2()) {
        None
    } else {
        Some(CameraMotion { move_axis, rotate_axis, delta_time })
    }
}

/// The keys ask for a motion exactly when one of the two axes is deflected.
pub proof fn lemma_motion_iff_deflected(keys: Map<KeyCode, KeyState>, delta_time: u64)
    ensures
        spec_camera_motion(keys, delta_time) is None <==> (spec_move_axis(keys) == (Vec3::<i32> {
            x: 0,
            y: 0,
            z: 0,
        }) && spec_rotate_axis(keys) == (Vec2::<i32> { x: 0, y: 0 })),
{
    let m = spec_move_axis(keys);
    let r = spec_rotate_axis(keys);
    lemma_dead_zone_is_zero(m.x as int, m.y as int, m.z as int);
    lemma_dead_zone_is_zero(r.x as int, r.y as int, 0);
}

/// A vector of whole numbers is inside the dead zone only where it is zero.
pub proof fn lemma_dead_zone_is_zero(x: int, y: int, z: int)
    ensures
        spec_in_dead_zone(x * x + y * y + z * z) <==> (x == 0 && y == 0 && z == 0),
{
    let inverse: int = DEAD_ZONE_INVERSE as int;
    assert(x * x >= 0 && (x != 0 ==> x * x >= 1)) by (nonlinear_arith);
    assert(y * y >= 0 && (y != 0 ==> y * y >= 1)) by (nonlinear_arith);
    assert(z * z >= 0 && (z != 0 ==> z * z >= 1)) by (nonlinear_arith);
    let length2 = x * x + y * y + z * z;
    assert(length2 * inverse * inverse == length2 * 10000) by (nonlinear_arith)
        requires
            inverse == 100,
    ;
}

/// A deflection applied for a time at a speed.
pub open spec fn spec_scaled(deflection: i32, delta_time: u64, speed: u32) -> int {
    deflection * delta_time * speed
}

/// A deflection applied for a time at a speed.
pub fn scaled(deflection: i32, delta_time: u64, speed: u32) -> (r: i128)
    ensures
        r == spec_scaled(deflection, delta_time, speed),
        -0x8000_0000_0000_0000_0000_0000 * speed <= r <= 0x8000_0000_0000_0000_0000_0000 * speed,
{
    let a: i128 = deflection as i128;
    let d: i128 = delta_time as i128;
    let s: i128 = speed as i128;
    assert(-0x8000_0000 * 0x1_0000_0000_0000_0000 <= a * d <= 0x8000_0000
        * 0x1_0000_0000_0000_0000) by (nonlinear_arith)
        requires
            -0x8000_0000 <= a <= 0x8000_0000,
            0 <= d <= 0x1_0000_0000_0000_0000,
    ;
    let ad: i128 = a * d;
    assert(-0x8000_0000_0000_0000_0000_0000 * s <= ad * s <= 0x8000_0000_0000_0000_0000_0000 * s)
        by (nonlinear_arith)
        requires
            -0x8000_0000_0000_0000_0000_0000 <= ad <= 0x8000_0000_0000_0000_0000_0000,
            0 <= s,
    ;
    ad * s
}

/// An azimuth turned by `turn` and kept off the poles.
pub open spec fn spec_turned_azimuth(azimuth: int, turn: int) -> int {
    if azimuth + turn < AZIMUTH_MIN {
        AZIMUTH_MIN as int
    } else if azimuth + turn > AZIMUTH_MAX {
        AZIMUTH_MAX as int
    } else {
        azimuth + turn
    }
}

/// The azimuth after one turn for each element of `turns`, in their order.
pub open spec fn azimuth_after(azimuth: int, turns: Seq<int>) -> int
    decreases turns.len(),
{
    if turns.len() == 0 {
        azimuth
    } else {
        spec_turned_azimuth(azimuth_after(azimuth, turns.drop_last()), turns.last())
    }
}

/// However often and however far the azimuth is turned, it never reaches a
/// pole: after at least one turn it lies within the margin from 0 and from
/// half a turn.
pub proof fn lemma_azimuth_stays_off_poles(azimuth: int, turns: Seq<int>)
    requires
        turns.len() > 0,
    ensures
        0 < AZIMUTH_MIN <= azimuth_after(azimuth, turns) <= AZIMUTH_MAX < HALF_TURN,
{
}

impl CameraMotion {
    /// How far the camera moves along its right, up and forward, in
    /// billionths of a unit.
    pub open spec fn spec_translation(&self) -> Vec3<i128> {
        Vec3 {
            x: spec_scaled(self.move_axis.x, self.delta_time, MOVE_SPEED) as i128,
            y: spec_scaled(self.move_axis.y, self.delta_time, MOVE_SPEED) as i128,
            z: spec_scaled(self.move_axis.z, self.delta_time, MOVE_SPEED) as i128,
        }
    }

    /// By how much the elevation (`x`) and the azimuth (`y`) turn, in
    /// billionths of a radian.
    pub open spec fn spec_rotation(&self) -> Vec2<i128> {
        Vec2 {
            x: spec_scaled(self.rotate_axis.x, self.delta_time, TURN_SPEED) as i128,
            y: spec_scaled(self.rotate_axis.y, self.delta_time, TURN_SPEED) as i128,
        }
    }

    /// How far the camera moves along its right, up and forward, in
    /// billionths of a unit. The location and the look-at point move
    /// together.
    pub fn translation(&self) -> (r: Vec3<i128>)
        ensures
            r == self.spec_translation(),
            r.x == self.move_axis.x * self.delta_time * MOVE_SPEED,
            r.y == self.move_axis.y * self.delta_time * MOVE_SPEED,
            r.z == self.move_axis.z * self.delta_time * MOVE_SPEED,
    {
        Vec3 {
            x: scaled(self.move_axis.x, self.delta_time, MOVE_SPEED),
            y: scaled(self.move_axis.y, self.delta_time, MOVE_SPEED),
            z: scaled(self.move_axis.z, self.delta_time, MOVE_SPEED),
        }
    }

    /// By how much the elevation (`x`) and the azimuth (`y`) turn, in
    /// billionths of a radian.
    pub fn rotation(&self) -> (r: Vec2<i128>)
        ensures
            r == self.spec_rotation(),
            r.x == self.rotate_axis.x * self.delta_time * TURN_SPEED,
            r.y == self.rotate_axis.y * self.delta_time * TURN_SPEED,
    {
        Vec2 {
            x: scaled(self.rotate_axis.x, self.delta_time, TURN_SPEED),
            y: scaled(self.rotate_axis.y, self.delta_time, TURN_SPEED),
        }
    }

    /// The azimuth after this motion, in billionths of a radian: the old one
    /// turned, and kept within the margin from the two poles.
    pub fn turned_azimuth(&self, azimuth: i64) -> (r: i64)
        ensures
            r == spec_turned_azimuth(azimuth as int, self.spec_rotation().y as int),
            AZIMUTH_MIN <= r <= AZIMUTH_MAX,
    {
        let turn: i128 = scaled(self.rotate_axis.y, self.delta_time, TURN_SPEED);
        let turned: i128 = azimuth as i128 + turn;
        if turned < AZIMUTH_MIN as i128 {
            AZIMUTH_MIN
        } else if turned > AZIMUTH_MAX as i128 {
            AZIMUTH_MAX
        } else {
            turned as i64
        }
    }

    /// The elevation after this motion, in billionths of a radian: the old
    /// one turned. The elevation has no bounds.
    pub fn turned_elevation(&self, elevation: i64) -> (r: i128)
        ensures
            r == elevation + self.spec_rotation().x,
    {
        let turn: i128 = scaled(self.rotate_axis.x, self.delta_time, TURN_SPEED);
        elevation as i128 + turn
    }
}

} // verus!
