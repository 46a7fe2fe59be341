use vstd::prelude::*;

verus! {

use vstd::arithmetic::power2::pow2;
use vstd::arithmetic::power2::lemma2_to64;

/// The live scene as the virtual machine sees it: plain values standing
/// for what the host renders. Positions are in milli-units (one
/// thousandth of a world unit) and bounded by `MAX_COORD_MU`; the
/// embedder syncs this model with its scene graph between frames.
pub const MAX_COORD_MU: i64 = 1_000_000_000;

/// The largest step a single movement tick may take, in milli-units.
pub const MAX_STEP_MU: i64 = 200_000_000;

#[derive(Clone, Copy, Debug, PartialEq, Eq, Structural)]
pub struct Pos {
    pub x: i64,
    pub y: i64,
    pub z: i64,
}

pub open spec fn pos_bounded(p: Pos) -> bool {
    -MAX_COORD_MU <= p.x <= MAX_COORD_MU && -MAX_COORD_MU <= p.y <= MAX_COORD_MU && -MAX_COORD_MU
        <= p.z <= MAX_COORD_MU
}

/// What animation a role currently plays.
#[derive(Clone, Copy, Debug, PartialEq, Eq, Structural)]
pub enum RoleAnim {
    Standing,
    Running,
    Acting,
}

#[derive(Clone, Debug, PartialEq)]
pub struct Role {
    pub id: i32,
    pub pos: Pos,
    pub face_dir: i32,
    /// Raw bit pattern of a turn angle the script set.
    pub turn_deg_bits: u32,
    pub look_target: Option<Pos>,
    pub active: bool,
    pub controlled: bool,
    pub auto_idle: bool,
    pub anim: RoleAnim,
    pub action_name: String,
    pub action_repeat: i32,
    /// Set by the host when a non-looping animation has finished.
    pub anim_done: bool,
}

/// Where the camera was last sent. Parameters that only the renderer
/// reads are kept as the raw bit patterns the script carried.
#[derive(Clone, Copy, Debug, PartialEq, Eq, Structural)]
pub enum CameraPose {
    Initial,
    Default { unknown: i32 },
    Placed { y_rot_bits: u32, x_rot_bits: u32, unknown_bits: u32, x_bits: u32, y_bits: u32, z_bits: u32 },
    MovedTo { x_bits: u32, y_bits: u32, z_bits: u32, u1_bits: u32, u2_bits: u32 },
    Flying { x_bits: u32, y_bits: u32, z_bits: u32 },
}

/// The dialog surface between the script and the host. The script shows
/// text or options; the host answers by moving the state to
/// `TextDismissed` or `SelectionMade` between frames.
#[derive(Clone, Debug, PartialEq)]
pub enum DialogState {
    Idle,
    ShowingText { text: String },
    TextDismissed,
    ShowingSelection { options: Vec<String> },
    SelectionMade { index: i32 },
}

#[derive(Clone, Debug, PartialEq)]
pub struct SceneModel {
    pub roles: Vec<Role>,
    pub dialog: DialogState,
    /// Music now playing, if any.
    pub music: Option<(String, i32)>,
    /// A log of the sound effects requested, oldest first.
    pub sounds: Vec<(String, i32)>,
    /// A log of object activation changes, oldest first: the latest
    /// entry for an id is its state.
    pub object_log: Vec<(i32, i32)>,
    pub camera: CameraPose,
    /// Set by `LoadScene`; the embedder consumes it and resets the VM.
    pub scene_request: Option<(String, String)>,
    pub input_enabled: bool,
    /// World height the navigation mesh reports, in milli-units.
    pub nav_y_mu: i64,
}

impl SceneModel {
    pub open spec fn wf(&self) -> bool {
        (forall|i: int| 0 <= i < self.roles@.len() ==> pos_bounded(#[trigger] self.roles@[i].pos))
            && -MAX_COORD_MU <= self.nav_y_mu <= MAX_COORD_MU
    }

    pub fn new() -> (r: SceneModel)
        ensures
            r.wf(),
            r.roles@.len() == 0,
            r.dialog == DialogState::Idle,
            r.music == Option::<(String, i32)>::None,
            r.sounds@.len() == 0,
            r.object_log@.len() == 0,
            r.camera == CameraPose::Initial,
            r.scene_request == Option::<(String, String)>::None,
            r.input_enabled == true,
            r.nav_y_mu == 0,
    {
        SceneModel {
            roles: Vec::new(),
            dialog: DialogState::Idle,
            music: None,
            sounds: Vec::new(),
            object_log: Vec::new(),
            camera: CameraPose::Initial,
            scene_request: None,
            input_enabled: true,
            nav_y_mu: 0,
        }
    }

    /// Index of the first role with this id.
    pub fn find_role(&self, id: i32) -> (r: Option<usize>)
        ensures
            match r {
                Some(i) => i < self.roles@.len() && self.roles@[i as int].id == id && (forall|j: int|
                    0 <= j < i ==> self.roles@[j].id != id),
                None => forall|j: int| 0 <= j < self.roles@.len() ==> self.roles@[j].id != id,
            },
    {
        let mut i: usize = 0;
        while i < self.roles.len()
            invariant
                i <= self.roles@.len(),
                forall|j: int| 0 <= j < i ==> self.roles@[j].id != id,
            decreases self.roles@.len() - i,
        {
            if self.roles[i].id == id {
                return Some(i);
            }
            i = i + 1;
        }
        None
    }

    /// Navigation coordinates translated to world space: the plane
    /// coordinates in milli-units, clamped to the world bound, at the
    /// mesh height.
    pub open spec fn spec_nav_to_world(&self, nav_x: i32, nav_z: i32) -> Pos {
        Pos { x: clamp_coord(nav_x as int * 1000), y: self.nav_y_mu, z: clamp_coord(nav_z as int * 1000) }
    }

    pub fn nav_to_world(&self, nav_x: i32, nav_z: i32) -> (r: Pos)
        requires
            self.wf(),
        ensures
            r == self.spec_nav_to_world(nav_x, nav_z),
            pos_bounded(r),
    {
        Pos { x: clamp_coord_exec(nav_x as i64 * 1000), y: self.nav_y_mu, z: clamp_coord_exec(
            nav_z as i64 * 1000,
        ) }
    }
}

pub open spec fn clamp_coord(v: int) -> i64 {
    if v > MAX_COORD_MU {
        MAX_COORD_MU
    } else if v < -MAX_COORD_MU {
        (-MAX_COORD_MU) as i64
    } else {
        v as i64
    }
}

pub fn clamp_coord_exec(v: i64) -> (r: i64)
    ensures
        r == clamp_coord(v as int),
        -MAX_COORD_MU <= r <= MAX_COORD_MU,
{
    if v > MAX_COORD_MU {
        MAX_COORD_MU
    } else if v < -MAX_COORD_MU {
        -MAX_COORD_MU
    } else {
        v
    }
}

/// The nonnegative square root, rounded down.
pub open spec fn spec_isqrt(n: int) -> int {
    choose|r: int| r >= 0 && #[trigger] (r * r) <= n < (r + 1) * (r + 1)
}

pub proof fn lemma_isqrt_unique(n: int, r: int)
    requires
        r >= 0,
        r * r <= n,
        n < (r + 1) * (r + 1),
    ensures
        spec_isqrt(n) == r,
{
    assert(r >= 0 && r * r <= n < (r + 1) * (r + 1));
    let w = choose|w: int| w >= 0 && #[trigger] (w * w) <= n < (w + 1) * (w + 1);
    if w < r {
        assert((w + 1) * (w + 1) <= r * r) by (nonlinear_arith)
            requires
                0 <= w,
                w + 1 <= r,
        ;
    }
    if r < w {
        assert((r + 1) * (r + 1) <= w * w) by (nonlinear_arith)
            requires
                0 <= r,
                r + 1 <= w,
        ;
    }
}

/// Square root on u64, rounded down, by bisection.
pub fn isqrt_u64(n: u64) -> (r: u64)
    ensures
        r * r <= n < (r + 1) * (r + 1),
        r as int == spec_isqrt(n as int),
{
    proof {
        lemma2_to64();
    }
    let mut lo: u64 = 0;
    let mut hi: u64 = 0x1_0000_0000;
    proof {
        vstd::arithmetic::power2::lemma_pow2_adds(32, 32);
        vstd::arithmetic::power2::lemma2_to64_rest();
        assert((0x1_0000_0000 as int) * (0x1_0000_0000 as int) == pow2(64));
        assert(n < pow2(64));
    }
    while lo + 1 < hi
        invariant
            lo < hi <= 0x1_0000_0000,
            lo * lo <= n,
            (hi as int) * (hi as int) > n,
        decreases hi - lo,
    {
        let mid = lo + (hi - lo) / 2;
        proof {
            assert(mid * mid <= 0x1_0000_0000 * 0x1_0000_0000) by (nonlinear_arith)
                requires
                    0 <= mid <= 0x1_0000_0000,
            ;
        }
        let sq: u128 = (mid as u128) * (mid as u128);
        if sq <= n as u128 {
            lo = mid;
        } else {
            hi = mid;
        }
    }
    proof {
        assert(lo + 1 == hi);
        lemma_isqrt_unique(n as int, lo as int);
    }
    lo
}

/// Division of a magnitude, truncated toward zero, applied with sign.
pub open spec fn move_component(p: int, d: int, step: int, norm: int) -> int {
    if d >= 0 {
        p + (d * step) / norm
    } else {
        p - ((-d) * step) / norm
    }
}

/// One movement tick toward a target: the squared remaining distance is
/// compared with the step; within reach the position snaps to the
/// target and the walk is done, otherwise the position advances `step`
/// milli-units along the line to the target, components rounded toward
/// the start.
pub open spec fn spec_move_step(pos: Pos, target: Pos, step: int) -> (Pos, bool) {
    let dx = target.x - pos.x;
    let dy = target.y - pos.y;
    let dz = target.z - pos.z;
    let d2 = dx * dx + dy * dy + dz * dz;
    if d2 <= step * step {
        (target, true)
    } else {
        let norm = spec_isqrt(d2);
        (
            Pos {
                x: move_component(pos.x as int, dx, step, norm) as i64,
                y: move_component(pos.y as int, dy, step, norm) as i64,
                z: move_component(pos.z as int, dz, step, norm) as i64,
            },
            false,
        )
    }
}

/// The absolute difference of two bounded coordinates.
fn abs_diff(a: i64, b: i64) -> (r: u64)
    requires
        -MAX_COORD_MU <= a <= MAX_COORD_MU,
        -MAX_COORD_MU <= b <= MAX_COORD_MU,
    ensures
        r == if b >= a { b - a } else { a - b },
        r <= 2 * MAX_COORD_MU,
{
    if b >= a {
        (b - a) as u64
    } else {
        (a - b) as u64
    }
}

/// Executes `spec_move_step` on bounded positions.
pub fn move_step(pos: Pos, target: Pos, step: i64) -> (r: (Pos, bool))
    requires
        pos_bounded(pos),
        pos_bounded(target),
        0 <= step <= MAX_STEP_MU,
    ensures
        r == spec_move_step(pos, target, step as int),
        pos_bounded(r.0),
{
    let ax = abs_diff(pos.x, target.x);
    let ay = abs_diff(pos.y, target.y);
    let az = abs_diff(pos.z, target.z);
    let ghost dx = target.x - pos.x;
    let ghost dy = target.y - pos.y;
    let ghost dz = target.z - pos.z;
    proof {
        assert(ax * ax == dx * dx && ay * ay == dy * dy && az * az == dz * dz) by (nonlinear_arith)
            requires
                ax == if dx >= 0 { dx } else { -dx },
                ay == if dy >= 0 { dy } else { -dy },
                az == if dz >= 0 { dz } else { -dz },
        ;
        assert(ax * ax <= (2 * MAX_COORD_MU) * (2 * MAX_COORD_MU)) by (nonlinear_arith)
            requires
                0 <= ax <= 2 * MAX_COORD_MU,
        ;
        assert(ay * ay <= (2 * MAX_COORD_MU) * (2 * MAX_COORD_MU)) by (nonlinear_arith)
            requires
                0 <= ay <= 2 * MAX_COORD_MU,
        ;
        assert(az * az <= (2 * MAX_COORD_MU) * (2 * MAX_COORD_MU)) by (nonlinear_arith)
            requires
                0 <= az <= 2 * MAX_COORD_MU,
        ;
        assert(step * step <= MAX_STEP_MU * MAX_STEP_MU) by (nonlinear_arith)
            requires
                0 <= step <= MAX_STEP_MU,
        ;
    }
    let d2: u128 = (ax as u128) * (ax as u128) + (ay as u128) * (ay as u128) + (az as u128) * (
    az as u128);
    let s2: u128 = (step as u128) * (step as u128);
    if d2 <= s2 {
        (target, true)
    } else {
        let d2u: u64 = d2 as u64;
        let norm: u64 = isqrt_u64(d2u);
        proof {
            assert(norm >= 1) by {
                if norm == 0 {
                    assert(d2u < (0 + 1) * (0 + 1));
                }
            }
            let stepi = step as int;
            assert(stepi <= norm) by (nonlinear_arith)
                requires
                    stepi >= 0,
                    norm >= 0,
                    stepi * stepi < d2u,
                    d2u < (norm + 1) * (norm + 1),
            ;
            assert(ax * stepi <= (2 * MAX_COORD_MU) * MAX_STEP_MU) by (nonlinear_arith)
                requires
                    0 <= ax <= 2 * MAX_COORD_MU,
                    0 <= stepi <= MAX_STEP_MU,
            ;
            assert(ay * stepi <= (2 * MAX_COORD_MU) * MAX_STEP_MU) by (nonlinear_arith)
                requires
                    0 <= ay <= 2 * MAX_COORD_MU,
                    0 <= stepi <= MAX_STEP_MU,
            ;
            assert(az * stepi <= (2 * MAX_COORD_MU) * MAX_STEP_MU) by (nonlinear_arith)
                requires
                    0 <= az <= 2 * MAX_COORD_MU,
                    0 <= stepi <= MAX_STEP_MU,
            ;
        }
        let mx = ax * (step as u64) / norm;
        let my = ay * (step as u64) / norm;
        let mz = az * (step as u64) / norm;
        proof {
            assert(mx <= ax && my <= ay && mz <= az) by (nonlinear_arith)
                requires
                    mx == ax * (step as int) / (norm as int),
                    my == ay * (step as int) / (norm as int),
                    mz == az * (step as int) / (norm as int),
                    0 <= ax,
                    0 <= ay,
                    0 <= az,
                    0 <= step <= norm,
                    1 <= norm,
            ;
        }
        let nx = if target.x >= pos.x {
            pos.x + mx as i64
        } else {
            pos.x - mx as i64
        };
        let ny = if target.y >= pos.y {
            pos.y + my as i64
        } else {
            pos.y - my as i64
        };
        let nz = if target.z >= pos.z {
            pos.z + mz as i64
        } else {
            pos.z - mz as i64
        };
        (Pos { x: nx, y: ny, z: nz }, false)
    }
}


/// A role of this id exists.
pub open spec fn has_role(s: Seq<Role>, id: i32) -> bool {
    exists|i: int| 0 <= i < s.len() && s[i].id == id
}

/// `i` is the first index holding a role of this id.
pub open spec fn first_role_at(s: Seq<Role>, id: i32, i: int) -> bool {
    0 <= i < s.len() && s[i].id == id && (forall|j: int| 0 <= j < i ==> s[j].id != id)
}

/// The first index holding a role of this id.
pub open spec fn the_role(s: Seq<Role>, id: i32) -> int {
    choose|i: int| first_role_at(s, id, i)
}

pub proof fn lemma_first_role_unique(s: Seq<Role>, id: i32, i: int)
    requires
        first_role_at(s, id, i),
    ensures
        the_role(s, id) == i,
        has_role(s, id),
{
    assert(has_role(s, id));
    let w = the_role(s, id);
    assert(first_role_at(s, id, w));
    if w < i {
        assert(s[w].id != id);
    }
    if i < w {
        assert(s[i].id != id);
    }
}

} // verus!

