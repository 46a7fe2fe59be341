use vstd::prelude::*;

verus! {

/// A role walk toward a navigation-mesh target. Distances are held in
/// milli-units (one thousandth of a world unit); the walk advances at
/// `MOVE_SPEED_MU_PER_MS` milli-units per millisecond.
#[derive(Clone, Debug, PartialEq, Eq)]
pub struct SceCommandRoleMoveTo {
    pub role_id: i32,
    pub nav_x: i32,
    pub nav_z: i32,
    pub unknown: i32,
}

impl SceCommandRoleMoveTo {
    pub fn new(role_id: i32, nav_x: i32, nav_z: i32, unknown: i32) -> (r: Self)
        ensures
            r == (SceCommandRoleMoveTo { role_id, nav_x, nav_z, unknown }),
    {
        SceCommandRoleMoveTo { role_id, nav_x, nav_z, unknown }
    }
}

/// A one-shot backward translation of a role along its local depth
/// axis; the distance is in milli-units and the command finishes on the
/// tick that applies it.
#[derive(Clone, Debug, PartialEq, Eq)]
pub struct SceCommandRoleMoveBack {
    pub role_id: i32,
    pub speed_mu: i64,
}

impl SceCommandRoleMoveBack {
    pub fn new(role_id: i32, speed_mu: i64) -> (r: Self)
        ensures
            r == (SceCommandRoleMoveBack { role_id, speed_mu }),
    {
        SceCommandRoleMoveBack { role_id, speed_mu }
    }
}

/// Which comparison a compare-and-set opcode performs between a local
/// variable and an immediate value.
#[derive(Clone, Copy, Debug, PartialEq, Eq, Structural)]
pub enum CmpKind {
    Gt,
    Ls,
    Eq,
    Neq,
    Geq,
    Leq,
}

/// One dispatched opcode with its arguments bound, plus the progress a
/// durative command accumulates across ticks. Opcodes the table decodes
/// but does not act on become `Nop`. Bit patterns of single-precision
/// arguments that only parameterise the camera are kept raw (`*_bits`);
/// durations and speeds are read as thousandths (see `fixp`).
#[derive(Clone, Debug, PartialEq)]
pub enum SceCommand {
    Nop,
    Idle { length_ms: i64, elapsed_ms: i64 },
    SetRunMode { mode: i32 },
    Goto { offset: u32 },
    Fop { op: i32 },
    Cmp { kind: CmpKind, var: i16, value: i32 },
    TestGoto { offset: u32 },
    Let { var: i16, value: i32 },
    Call { proc_id: u32 },
    Rnd { var: i16, upper: i32 },
    RolePathTo(SceCommandRoleMoveTo),
    RoleSetPos { role_id: i32, nav_x: i32, nav_z: i32 },
    RoleShowAction { role_id: i32, action_name: String, repeat_mode: i32 },
    RoleSetFace { role_id: i32, direction: i32 },
    RoleTurnFace { role_id: i32, degree_bits: u32 },
    RoleInput { enable_input: i32 },
    RoleActive { role_id: i32, active: i32 },
    CameraMove { x_bits: u32, y_bits: u32, z_bits: u32, u1_bits: u32, u2_bits: u32 },
    CameraSet { y_rot_bits: u32, x_rot_bits: u32, unknown_bits: u32, x_bits: u32, y_bits: u32, z_bits: u32 },
    CameraDefault { unknown: i32 },
    Dlg { text: String },
    LoadScene { name: String, sub_name: String },
    DlgSel { options: Vec<String> },
    GetDlgSel { var: i16 },
    HaveItem { item_id: i32 },
    PlaySound { name: String, repeat: i32 },
    ObjectActive { object_id: i32, active: i32 },
    HyFly { x_bits: u32, y_bits: u32, z_bits: u32 },
    GetAppr { var: i16 },
    Music { name: String, unknown: i32 },
    StopMusic,
    RolePathOut(SceCommandRoleMoveTo),
    RoleCtrl { role_id: i32 },
    RoleActAutoStand { role_id: i32, auto_play_idle: i32 },
    RoleMoveBack(SceCommandRoleMoveBack),
    RoleFaceRole { role_id: i32, role_id2: i32 },
    RoleMoveTo(SceCommandRoleMoveTo),
}

impl SceCommand {
    /// The progress a command accumulates stays within its own bounds.
    pub open spec fn wf(&self) -> bool {
        match *self {
            SceCommand::Idle { length_ms, elapsed_ms } => 0 <= elapsed_ms
                && (elapsed_ms > 0 ==> elapsed_ms < length_ms),
            _ => true,
        }
    }
}

} // verus!
