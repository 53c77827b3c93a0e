//! First-person controller: avatar pose, look input, movement intent,
//! cursor capture, and the camera that copies the avatar's pose.
//!
//! Angles are fixed-point, in microradians. Positions and velocities are
//! fixed-point, in micro-units ([`crate::UNIT`] per world unit).

use vstd::prelude::*;

use crate::BodyKind;
use crate::UNIT;
use crate::geom::Trig;
use crate::geom::Vec3I;
use crate::geom::lemma_abs_mul_le;
use crate::geom::orient_x;
use crate::geom::orient_y;
use crate::geom::orient_z;
use crate::geom::trig_ok;
use crate::geom::apply_orientation;
use crate::input::MotionBuffer;
use crate::input::lemma_sum_prefix;
use crate::input::sum_dx;
use crate::input::sum_dy;

verus! {

/// Pitch never leaves `[-PITCH_LIMIT, PITCH_LIMIT]` microradians
/// (about +/-88 degrees), which keeps the look direction away from the
/// poles and so free of gimbal flips.
pub const PITCH_LIMIT: i64 = 1_540_000;

/// Largest per-event pointer delta magnitude the look update accepts.
pub const DELTA_BOUND: i64 = 1_000_000;

/// Largest sensitivity value the look update accepts, in microradians
/// per raw delta unit per viewport-scale unit.
pub const SENS_BOUND: i64 = 1_000_000;

/// Largest viewport scale factor the look update accepts. The caller
/// passes the smaller of viewport width and height, which keeps
/// horizontal and vertical look sensitivity visually equal.
pub const SCALE_BOUND: i64 = 1_000_000;

/// Acceleration applied per unit of movement intent, in world units.
pub const ACCEL_FACTOR: i64 = 10;

/// Upward velocity added by one jump, in micro-units.
pub const JUMP_IMPULSE: i64 = 1_000_000;

/// The avatar's look orientation: yaw about the world up axis and pitch
/// about the local right axis, both in microradians. The rotation it
/// names is yaw composed after pitch, in that fixed order.
#[derive(Clone, Copy, PartialEq, Eq, Structural, Debug)]
pub struct Orientation {
    pub yaw: i64,
    pub pitch: i64,
}

/// A world pose: position in micro-units and look orientation.
#[derive(Clone, Copy, PartialEq, Eq, Structural, Debug)]
pub struct Pose {
    pub position: Vec3I,
    pub orientation: Orientation,
}

/// The look accumulators: yaw and pitch in microradians, owned by the
/// controller and mutated only by [`player_look_system`].
#[derive(Clone, Copy, PartialEq, Eq, Structural, Debug)]
pub struct InputState {
    pub yaw: i64,
    pub pitch: i64,
}

impl InputState {
    /// The pitch accumulator always stays inside the clamp range.
    pub open spec fn wf(self) -> bool {
        -PITCH_LIMIT <= self.pitch <= PITCH_LIMIT
    }

    pub fn new() -> (s: InputState)
        ensures
            s.wf(),
            s.yaw == 0,
            s.pitch == 0,
    {
        InputState { yaw: 0, pitch: 0 }
    }
}

/// The value `v` clamped into `[lo, hi]`.
pub open spec fn clip(v: int, lo: int, hi: int) -> int {
    if v < lo {
        lo
    } else if v > hi {
        hi
    } else {
        v
    }
}

/// Every unread event's deltas are bounded by [`DELTA_BOUND`].
pub open spec fn deltas_bounded(s: Seq<crate::input::MotionDelta>) -> bool {
    forall|i: int|
        0 <= i < s.len() ==> -DELTA_BOUND <= #[trigger] s[i].dx <= DELTA_BOUND
            && -DELTA_BOUND <= s[i].dy <= DELTA_BOUND
}

/// Consumes every buffered pointer-motion event (in arrival order, none
/// dropped, none replayed), and, while the cursor is captured, turns them
/// into look-angle changes: each event decrements yaw by
/// `dx * sensitivity * window_scale` and pitch by
/// `dy * sensitivity * window_scale`; after all events, pitch is clamped
/// to `[-PITCH_LIMIT, PITCH_LIMIT]` and the avatar orientation is set to
/// the accumulators. While uncaptured, the events are still drained but
/// the accumulators and the orientation do not move.
pub fn player_look_system(
    state: &mut InputState,
    buffer: &mut MotionBuffer,
    captured: bool,
    sensitivity: i64,
    window_scale: i64,
    orientation: &mut Orientation,
) -> (consumed: usize)
    requires
        old(state).wf(),
        old(buffer).wf(),
        0 <= sensitivity <= SENS_BOUND,
        0 <= window_scale <= SCALE_BOUND,
        deltas_bounded(old(buffer).unread()),
    ensures
        final(state).wf(),
        -PITCH_LIMIT <= final(state).pitch <= PITCH_LIMIT,
        final(buffer).wf(),
        final(buffer).events@ == old(buffer).events@,
        final(buffer).cursor == final(buffer).events@.len(),
        consumed == old(buffer).unread().len(),
        captured ==> final(state).pitch == clip(
            old(state).pitch - sensitivity * window_scale * sum_dy(old(buffer).unread()),
            -PITCH_LIMIT as int,
            PITCH_LIMIT as int,
        ),
        captured ==> final(state).yaw == clip(
            old(state).yaw - sensitivity * window_scale * sum_dx(old(buffer).unread()),
            i64::MIN as int,
            i64::MAX as int,
        ),
        !captured ==> *final(state) == *old(state),
        captured ==> *final(orientation) == (Orientation {
            yaw: final(state).yaw,
            pitch: final(state).pitch,
        }),
        !captured ==> *final(orientation) == *old(orientation),
{
    let evs = buffer.drain();
    let n = evs.len();
    if !captured {
        return n;
    }
    let mut sdx: i128 = 0;
    let mut sdy: i128 = 0;
    let mut i: usize = 0;
    while i < n
        invariant
            n == evs@.len(),
            i <= n,
            deltas_bounded(evs@),
            sdx == sum_dx(evs@.subrange(0, i as int)),
            sdy == sum_dy(evs@.subrange(0, i as int)),
            -(i as int) * DELTA_BOUND <= sdx <= (i as int) * DELTA_BOUND,
            -(i as int) * DELTA_BOUND <= sdy <= (i as int) * DELTA_BOUND,
        decreases n - i,
    {
        let ev = evs[i];
        proof {
            lemma_sum_prefix(evs@, i as int);
        }
        sdx = sdx + ev.dx as i128;
        sdy = sdy + ev.dy as i128;
        i = i + 1;
    }
    proof {
        assert(evs@.subrange(0, n as int) =~= evs@);
    }
    assert(0 <= sensitivity * window_scale <= 1_000_000_000_000) by (nonlinear_arith)
        requires
            0 <= sensitivity <= SENS_BOUND,
            0 <= window_scale <= SCALE_BOUND,
    ;
    let factor: i64 = sensitivity * window_scale;
    proof {
        let smax = u64::MAX * (DELTA_BOUND as int);
        lemma_abs_mul_le(factor as int, sdx as int, 1_000_000_000_000, smax);
        lemma_abs_mul_le(factor as int, sdy as int, 1_000_000_000_000, smax);
    }
    let tdx: i128 = (factor as i128) * sdx;
    let tdy: i128 = (factor as i128) * sdy;
    let rp: i128 = (state.pitch as i128) - tdy;
    let ry: i128 = (state.yaw as i128) - tdx;
    state.pitch = if rp < -PITCH_LIMIT as i128 {
        -PITCH_LIMIT
    } else if rp > PITCH_LIMIT as i128 {
        PITCH_LIMIT
    } else {
        rp as i64
    };
    state.yaw = if ry < i64::MIN as i128 {
        i64::MIN
    } else if ry > i64::MAX as i128 {
        i64::MAX
    } else {
        ry as i64
    };
    orientation.yaw = state.yaw;
    orientation.pitch = state.pitch;
    n
}

/// The raw directional keys read each tick.
#[derive(Clone, Copy, PartialEq, Eq, Structural, Debug)]
pub struct KeyInput {
    pub forward: bool,
    pub back: bool,
    pub left: bool,
    pub right: bool,
    pub jump: bool,
}

/// Rightward movement intent: +1 for the strafe-right key, -1 for the
/// strafe-left key; independent keys combine and opposite keys cancel.
pub open spec fn intent_x(k: KeyInput) -> int {
    (if k.right {
        1int
    } else {
        0int
    }) - (if k.left {
        1int
    } else {
        0int
    })
}

/// Backward movement intent: +1 for the back key, -1 for the forward key
/// (forward is the negative z direction).
pub open spec fn intent_z(k: KeyInput) -> int {
    (if k.back {
        1int
    } else {
        0int
    }) - (if k.forward {
        1int
    } else {
        0int
    })
}

/// The local-space movement intent scaled by [`ACCEL_FACTOR`]. Diagonal
/// intent is deliberately not normalized.
pub open spec fn intent_scaled(k: KeyInput) -> Vec3I {
    Vec3I {
        x: (ACCEL_FACTOR * intent_x(k)) as i64,
        y: 0,
        z: (ACCEL_FACTOR * intent_z(k)) as i64,
    }
}

/// Composes the local-space intent vector from the pressed keys:
/// magnitude one per active axis, axes independent, unnormalized.
pub fn intent_vector(k: &KeyInput) -> (v: Vec3I)
    ensures
        v.x == intent_x(*k),
        v.y == 0,
        v.z == intent_z(*k),
{
    let mut v = Vec3I::zero();
    if k.forward {
        v.z = v.z - 1;
    }
    if k.back {
        v.z = v.z + 1;
    }
    if k.right {
        v.x = v.x + 1;
    }
    if k.left {
        v.x = v.x - 1;
    }
    v
}

/// One movement tick: composes the intent vector from the keys, scales it
/// by [`ACCEL_FACTOR`], rotates it by the avatar's orientation into world
/// space, and returns it as the acceleration for the physics body (at a
/// scale of `TRIG_ONE * TRIG_ONE` micro-units). A pressed jump key adds
/// [`JUMP_IMPULSE`] to the vertical velocity directly; nothing else moves
/// the velocity.
pub fn player_controls_system(
    keys: &KeyInput,
    yaw: Trig,
    pitch: Trig,
    velocity: &mut Vec3I,
) -> (accel: Vec3I)
    requires
        trig_ok(yaw),
        trig_ok(pitch),
        old(velocity).y + JUMP_IMPULSE <= i64::MAX,
    ensures
        accel.x == orient_x(yaw, pitch, intent_scaled(*keys)),
        accel.y == orient_y(yaw, pitch, intent_scaled(*keys)),
        accel.z == orient_z(yaw, pitch, intent_scaled(*keys)),
        final(velocity).x == old(velocity).x,
        final(velocity).z == old(velocity).z,
        keys.jump ==> final(velocity).y == old(velocity).y + JUMP_IMPULSE,
        !keys.jump ==> final(velocity).y == old(velocity).y,
{
    let intent = intent_vector(keys);
    let scaled = Vec3I { x: ACCEL_FACTOR * intent.x, y: 0, z: ACCEL_FACTOR * intent.z };
    assert(scaled == intent_scaled(*keys));
    if keys.jump {
        velocity.y = velocity.y + JUMP_IMPULSE;
    }
    apply_orientation(yaw, pitch, scaled)
}

/// Each frame the camera copies the avatar's pose verbatim; eye offsets
/// or smoothing would layer on top of this copy, not replace it.
pub fn camera_follow_system(player: &Pose, camera: &mut Pose)
    ensures
        *final(camera) == *player,
{
    *camera = *player;
}

/// OS cursor state: whether pointer motion is captured for look input,
/// and whether the cursor is visible.
#[derive(Clone, Copy, PartialEq, Eq, Structural, Debug)]
pub struct CursorState {
    pub locked: bool,
    pub visible: bool,
}

impl CursorState {
    /// At process start the cursor is free and visible.
    pub fn new() -> (c: CursorState)
        ensures
            !c.locked,
            c.visible,
    {
        CursorState { locked: false, visible: true }
    }
}

/// Grabs or releases the cursor: capture and visibility both flip.
pub fn toggle_grab_cursor(window: &mut CursorState)
    ensures
        final(window).locked == !old(window).locked,
        final(window).visible == !old(window).visible,
{
    window.locked = !window.locked;
    window.visible = !window.visible;
}

/// Grabs the cursor when the simulation first starts.
pub fn initial_grab_cursor(window: &mut CursorState)
    requires
        !old(window).locked,
        old(window).visible,
    ensures
        final(window).locked,
        !final(window).visible,
{
    toggle_grab_cursor(window);
}

/// The capture toggle: flips the cursor state when the dedicated key was
/// just pressed, and otherwise leaves it alone.
pub fn cursor_grab_system(toggle_pressed: bool, window: &mut CursorState)
    ensures
        toggle_pressed ==> final(window).locked == !old(window).locked
            && final(window).visible == !old(window).visible,
        !toggle_pressed ==> *final(window) == *old(window),
{
    if toggle_pressed {
        toggle_grab_cursor(window);
    }
}

/// Everything needed to spawn the avatar and register it with the
/// physics engine.
#[derive(Clone, Copy, PartialEq, Eq, Structural, Debug)]
pub struct PlayerSpawn {
    pub pose: Pose,
    pub velocity: Vec3I,
    pub acceleration: Vec3I,
    pub half_extents: Vec3I,
    pub body: BodyKind,
}

/// Half extent of the avatar's collision cuboid along x and z, micro-units.
pub const PLAYER_HALF_X: i64 = 1_600_000;

/// Half extent of the avatar's collision cuboid along y, micro-units.
pub const PLAYER_HALF_Y: i64 = 1_000_000;

/// Builds the avatar's spawn descriptor: a dynamic body a little to the
/// side of the origin at the configured eye height, at rest, looking
/// straight ahead.
pub fn spawn_player(center_y: i64) -> (s: PlayerSpawn)
    requires
        -9_000_000_000_000 <= center_y <= 9_000_000_000_000,
    ensures
        s.pose.position.x == -2 * UNIT,
        s.pose.position.y == center_y * UNIT,
        s.pose.position.z == 5 * UNIT,
        s.pose.orientation == (Orientation { yaw: 0, pitch: 0 }),
        s.velocity == Vec3I::zero_spec(),
        s.acceleration == Vec3I::zero_spec(),
        s.half_extents == (Vec3I { x: PLAYER_HALF_X, y: PLAYER_HALF_Y, z: PLAYER_HALF_X }),
        s.body == BodyKind::Dynamic,
{
    PlayerSpawn {
        pose: Pose {
            position: Vec3I { x: -2 * UNIT, y: center_y * UNIT, z: 5 * UNIT },
            orientation: Orientation { yaw: 0, pitch: 0 },
        },
        velocity: Vec3I::zero(),
        acceleration: Vec3I::zero(),
        half_extents: Vec3I { x: PLAYER_HALF_X, y: PLAYER_HALF_Y, z: PLAYER_HALF_X },
        body: BodyKind::Dynamic,
    }
}

} // verus!
