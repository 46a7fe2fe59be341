use vstd::prelude::*;

verus! {

use crate::SceError;
use crate::command::{SceCommand, CmpKind};
use crate::frame::SceProcContext;
use crate::scene::{
    SceneModel, Role, RoleAnim, CameraPose, DialogState, Pos, has_role, the_role,
    first_role_at, lemma_first_role_unique, move_step, spec_move_step, pos_bounded,
    clamp_coord, MAX_COORD_MU,
};
use crate::state::{SceState, lcg_next, rnd_value, spec_has_item};

/// Walk speed of a role, in milli-units per millisecond (175 world
/// units per second).
pub const MOVE_SPEED_MU_PER_MS: i64 = 175;

/// What a comparison opcode tests between a local and its immediate.
pub open spec fn spec_cmp(kind: CmpKind, lhs: i32, value: i32) -> bool {
    match kind {
        CmpKind::Gt => lhs > value,
        CmpKind::Ls => lhs < value,
        CmpKind::Eq => lhs == value,
        CmpKind::Neq => lhs != value,
        CmpKind::Geq => lhs >= value,
        CmpKind::Leq => lhs <= value,
    }
}

/// A local read by a comparison: an unset slot reads as zero.
pub open spec fn local_or_zero(f: SceProcContext, var: i16) -> i32 {
    match f.spec_local(var) {
        Some(v) => v,
        None => 0,
    }
}

/// Only the roles of the scene differ.
pub open spec fn only_roles(a: SceneModel, b: SceneModel) -> bool {
    b == (SceneModel { roles: b.roles, ..a })
}

/// The first role of this id took the given value; without such a role
/// nothing moved.
pub open spec fn role_set(olds: Seq<Role>, news: Seq<Role>, id: i32, upd: Role) -> bool {
    if has_role(olds, id) {
        news == olds.update(the_role(olds, id), upd)
    } else {
        news == olds
    }
}

/// Only the context of the state differs.
pub open spec fn only_context(a: SceState, b: SceState) -> bool {
    b == (SceState { context: b.context, ..a })
}

/// Only the frame stack of the context differs: same file.
pub open spec fn only_stack(a: SceState, b: SceState) -> bool {
    only_context(a, b) && b.context.sce == a.context.sce
}

/// The stacks agree but the top frame, which gained one local binding.
pub open spec fn stack_local_set(
    a: Seq<SceProcContext>,
    b: Seq<SceProcContext>,
    var: i16,
    value: i32,
) -> bool {
    b.len() == a.len() && b.drop_last() == a.drop_last() && b.last().spec_local(var) == Some(value)
        && (forall|v: i16| v != var ==> b.last().spec_local(v) == a.last().spec_local(v))
        && b.last().program_counter == a.last().program_counter && b.last().dlgsel
        == a.last().dlgsel && b.last().proc_id == a.last().proc_id && b.last().proc_idx
        == a.last().proc_idx
}

/// Only the top frame differs, and only in its locals.
pub open spec fn top_local_set(a: SceState, b: SceState, var: i16, value: i32) -> bool {
    only_stack(a, b) && stack_local_set(a.context.proc_stack@, b.context.proc_stack@, var, value)
}

/// Only the top frame's program counter differs.
pub open spec fn top_jumped(a: SceState, b: SceState, addr: u32) -> bool {
    only_stack(a, b) && b.context.proc_stack.len() == a.context.proc_stack.len()
        && b.context.proc_stack@.drop_last() == a.context.proc_stack@.drop_last()
        && b.context.proc_stack@.last() == (SceProcContext {
        program_counter: addr as usize,
        ..a.context.proc_stack@.last()
    })
}

/// Only the dialog surface of the scene differs.
pub open spec fn only_dialog(a: SceneModel, b: SceneModel) -> bool {
    b == (SceneModel { dialog: b.dialog, ..a })
}

impl SceCommand {
    /// One-time setup on the frame a command is first dispatched: a walk
    /// starts its run animation; everything else needs none.
    pub fn initialize(&mut self, scene: &mut SceneModel, state: &mut SceState)
        requires
            old(scene).wf(),
        ensures
            *final(self) == *old(self),
            *final(state) == *old(state),
            final(scene).wf(),
            only_roles(*old(scene), *final(scene)),
            match *old(self) {
                SceCommand::RoleMoveTo(m) => role_set(
                    old(scene).roles@,
                    final(scene).roles@,
                    m.role_id,
                    (Role {
                        anim: RoleAnim::Running,
                        ..old(scene).roles@[the_role(old(scene).roles@, m.role_id)]
                    }),
                ),
                SceCommand::RolePathTo(m) => role_set(
                    old(scene).roles@,
                    final(scene).roles@,
                    m.role_id,
                    (Role {
                        anim: RoleAnim::Running,
                        ..old(scene).roles@[the_role(old(scene).roles@, m.role_id)]
                    }),
                ),
                SceCommand::RolePathOut(m) => role_set(
                    old(scene).roles@,
                    final(scene).roles@,
                    m.role_id,
                    (Role {
                        anim: RoleAnim::Running,
                        ..old(scene).roles@[the_role(old(scene).roles@, m.role_id)]
                    }),
                ),
                _ => final(scene).roles@ == old(scene).roles@,
            },
    {
        let role_id: i32 = match self {
            SceCommand::RoleMoveTo(m) => m.role_id,
            SceCommand::RolePathTo(m) => m.role_id,
            SceCommand::RolePathOut(m) => m.role_id,
            _ => {
                return ;
            },
        };
        match scene.find_role(role_id) {
            Some(i) => {
                proof {
                    lemma_first_role_unique(scene.roles@, role_id, i as int);
                }
                let role = &mut scene.roles[i];
                role.anim = RoleAnim::Running;
                proof {
                    assert(scene.wf());
                }
            },
            None => {},
        }
    }
}


/// Copies a list of strings.
fn clone_strings(v: &Vec<String>) -> (r: Vec<String>)
    ensures
        r.deep_view() == v.deep_view(),
{
    let mut r: Vec<String> = Vec::new();
    let mut i: usize = 0;
    while i < v.len()
        invariant
            i <= v@.len(),
            r.deep_view() =~= v.deep_view().take(i as int),
        decreases v@.len() - i,
    {
        let ghost pre = r.deep_view();
        r.push(v[i].clone());
        proof {
            assert(r.deep_view() =~= pre.push(v@[i as int]@));
            assert(r.deep_view() =~= v.deep_view().take(i as int + 1));
        }
        i = i + 1;
    }
    proof {
        assert(v.deep_view().take(v@.len() as int) =~= v.deep_view());
    }
    r
}

/// What one tick of a command does, for every command: the relation
/// between the command, the scene and the state before and after, and
/// the returned completion.
pub open spec fn update_post(
    c0: SceCommand,
    c1: SceCommand,
    s0: SceneModel,
    s1: SceneModel,
    t0: SceState,
    t1: SceState,
    delta_ms: i64,
    r: Result<bool, SceError>,
) -> bool {
            match c0 {
                SceCommand::Nop => r == Ok::<bool, SceError>(true) && c1 == c0
                    && s1 == s0 && t1 == t0,
                // The operator table of the register opcode is not given
                // by the source format description; it decodes its
                // argument and is kept as a no-op.
                SceCommand::Fop { op } => r == Ok::<bool, SceError>(true) && c1 == c0 && s1 == s0 && t1 == t0,
                SceCommand::Idle { length_ms, elapsed_ms } => {
                    &&& s1 == s0
                    &&& t1 == t0
                    &&& if delta_ms >= length_ms - elapsed_ms {
                        r == Ok::<bool, SceError>(true) && c1 == c0
                    } else {
                        r == Ok::<bool, SceError>(false) && c1 == (SceCommand::Idle {
                            length_ms,
                            elapsed_ms: (elapsed_ms + delta_ms) as i64,
                        })
                    }
                },
                SceCommand::SetRunMode { mode } => r == Ok::<bool, SceError>(true) && c1
                    == c0 && s1 == s0 && t1 == (SceState {
                    run_mode: mode,
                    ..t0
                }),
                SceCommand::Goto { offset } => if t0.context.proc_stack@.len() == 0 {
                    r == Ok::<bool, SceError>(true) && c1 == c0 && s1 == s0 && t1 == t0
                } else {
                    r == Ok::<bool, SceError>(true) && c1 == c0 && s1 == s0 && top_jumped(
                        t0,
                        t1,
                        offset,
                    )
                },
                SceCommand::Cmp { kind, var, value } => if t0.context.proc_stack@.len() == 0 {
                    r == Ok::<bool, SceError>(true) && c1 == c0 && s1 == s0 && t1 == t0
                } else {
                    r == Ok::<bool, SceError>(true) && c1 == c0 && s1 == s0 && t1 == (SceState {
                        cmp_flag: spec_cmp(
                            kind,
                            local_or_zero(t0.context.proc_stack@.last(), var),
                            value,
                        ),
                        context: t1.context,
                        ..t0
                    }) && t1.context.sce == t0.context.sce && t1.context.proc_stack@
                        == t0.context.proc_stack@
                },
                SceCommand::TestGoto { offset } => if t0.context.proc_stack@.len() == 0 {
                    r == Ok::<bool, SceError>(true) && c1 == c0 && s1 == s0 && t1 == t0
                } else {
                    r == Ok::<bool, SceError>(true) && c1 == c0 && s1 == s0 && if t0.cmp_flag {
                        top_jumped(t0, t1, offset)
                    } else {
                        t1 == t0
                    }
                },
                SceCommand::Let { var, value } => if t0.context.proc_stack@.len() == 0 {
                    r == Ok::<bool, SceError>(true) && c1 == c0 && s1 == s0 && t1 == t0
                } else {
                    r == Ok::<bool, SceError>(true) && c1 == c0 && s1 == s0 && top_local_set(
                        t0,
                        t1,
                        var,
                        value,
                    )
                },
                SceCommand::Call { proc_id } => {
                    &&& c1 == c0
                    &&& s1 == s0
                    &&& if t0.context.sce.spec_has_proc(proc_id) {
                        &&& r == Ok::<bool, SceError>(true)
                        &&& only_stack(t0, t1)
                        &&& t1.context.proc_stack@.len() == t0.context.proc_stack@.len() + 1
                        &&& t1.context.proc_stack@.drop_last() == t0.context.proc_stack@
                        &&& t1.context.proc_stack@.last().spec_fresh(proc_id)
                    } else {
                        r == Err::<bool, SceError>(SceError::ProcMissing(proc_id)) && t1
                            == t0
                    }
                },
                SceCommand::Rnd { var, upper } => if t0.context.proc_stack@.len() == 0 {
                    r == Ok::<bool, SceError>(true) && c1 == c0 && s1 == s0 && t1 == t0
                } else {
                    &&& r == Ok::<bool, SceError>(true)
                    &&& c1 == c0
                    &&& s1 == s0
                    &&& t1 == (SceState {
                        context: t1.context,
                        rng: lcg_next(t0.rng),
                        ..t0
                    })
                    &&& t1.context.sce == t0.context.sce
                    &&& stack_local_set(
                        t0.context.proc_stack@,
                        t1.context.proc_stack@,
                        var,
                        rnd_value(t0.rng, upper),
                    )
                },
                SceCommand::GetDlgSel { var } => if t0.context.proc_stack@.len() == 0 {
                    r == Ok::<bool, SceError>(true) && c1 == c0 && s1 == s0 && t1 == t0
                } else {
                    r == Ok::<bool, SceError>(true) && c1 == c0 && s1 == s0 && top_local_set(
                        t0,
                        t1,
                        var,
                        t0.context.proc_stack@.last().dlgsel,
                    )
                },
                SceCommand::GetAppr { var } => if t0.context.proc_stack@.len() == 0 {
                    r == Ok::<bool, SceError>(true) && c1 == c0 && s1 == s0 && t1 == t0
                } else {
                    r == Ok::<bool, SceError>(true) && c1 == c0 && s1 == s0 && top_local_set(
                        t0,
                        t1,
                        var,
                        t0.global_state.appearance,
                    )
                },
                SceCommand::HaveItem { item_id } => r == Ok::<bool, SceError>(true) && c1
                    == c0 && s1 == s0 && t1 == (SceState {
                    cmp_flag: spec_has_item(t0.global_state.items@, item_id),
                    ..t0
                }),
                SceCommand::Dlg { text } => {
                    &&& c1 == c0
                    &&& t1 == t0
                    &&& only_dialog(s0, s1)
                    &&& match s0.dialog {
                        DialogState::Idle => ({
                            &&& r == Ok::<bool, SceError>(false)
                            &&& s1.dialog matches DialogState::ShowingText { text: t }
                                && t@ == text@
                        }),
                        DialogState::TextDismissed => r == Ok::<bool, SceError>(true) && s1.dialog == DialogState::Idle,
                        _ => r == Ok::<bool, SceError>(false) && s1 == s0,
                    }
                },
                SceCommand::DlgSel { options } => {
                    &&& c1 == c0
                    &&& only_dialog(s0, s1)
                    &&& match s0.dialog {
                        DialogState::Idle => ({
                            &&& r == Ok::<bool, SceError>(false)
                            &&& t1 == t0
                            &&& s1.dialog matches DialogState::ShowingSelection {
                                options: o,
                            } && o.deep_view() == options.deep_view()
                        }),
                        DialogState::SelectionMade { index } => if t0.context.proc_stack@.len()
                            == 0 {
                            r == Ok::<bool, SceError>(true) && s1.dialog == DialogState::Idle && t1
                                == t0
                        } else {
                            r == Ok::<bool, SceError>(true) && s1.dialog == DialogState::Idle
                                && only_stack(t0, t1) && t1.context.proc_stack@.len()
                                == t0.context.proc_stack@.len()
                                && t1.context.proc_stack@.drop_last()
                                == t0.context.proc_stack@.drop_last()
                                && t1.context.proc_stack@.last() == (SceProcContext {
                                dlgsel: index,
                                ..t0.context.proc_stack@.last()
                            })
                        },
                        _ => r == Ok::<bool, SceError>(false) && s1 == s0
                            && t1 == t0,
                    }
                },
                SceCommand::LoadScene { name, sub_name } => {
                    &&& r == Ok::<bool, SceError>(true)
                    &&& c1 == c0
                    &&& t1 == t0
                    &&& s1 == (SceneModel {
                        scene_request: s1.scene_request,
                        ..s0
                    })
                    &&& s1.scene_request matches Some((n, sb)) && n@ == name@ && sb@
                        == sub_name@
                },
                SceCommand::Music { name, unknown } => {
                    &&& r == Ok::<bool, SceError>(true)
                    &&& c1 == c0
                    &&& t1 == t0
                    &&& s1 == (SceneModel { music: s1.music, ..s0 })
                    &&& s1.music matches Some((n, f)) && n@ == name@ && f == unknown
                },
                SceCommand::StopMusic => r == Ok::<bool, SceError>(true) && c1 == c0 && t1 == t0 && s1 == (SceneModel {
                    music: Option::<(String, i32)>::None,
                    ..s0
                }),
                SceCommand::PlaySound { name, repeat } => r == Ok::<bool, SceError>(true) && c1 == c0 && t1 == t0 && s1 == (SceneModel {
                    sounds: s1.sounds,
                    ..s0
                }) && s1.sounds@.len() == s0.sounds@.len() + 1 && s1.sounds@.drop_last() == s0.sounds@ && s1.sounds@.last().0@
                    == name@ && s1.sounds@.last().1 == repeat,
                SceCommand::ObjectActive { object_id, active } => r == Ok::<bool, SceError>(true)
                    && c1 == c0 && t1 == t0 && s1
                    == (SceneModel { object_log: s1.object_log, ..s0 }) && s1.object_log@ == s0.object_log@.push((object_id, active)),
                SceCommand::CameraMove { x_bits, y_bits, z_bits, u1_bits, u2_bits } => r == Ok::<
                    bool,
                    SceError,
                >(true) && c1 == c0 && t1 == t0 && s1 == (SceneModel {
                    camera: CameraPose::MovedTo { x_bits, y_bits, z_bits, u1_bits, u2_bits },
                    ..s0
                }),
                SceCommand::CameraSet {
                    y_rot_bits,
                    x_rot_bits,
                    unknown_bits,
                    x_bits,
                    y_bits,
                    z_bits,
                } => r == Ok::<bool, SceError>(true) && c1 == c0 && t1
                    == t0 && s1 == (SceneModel {
                    camera: CameraPose::Placed {
                        y_rot_bits,
                        x_rot_bits,
                        unknown_bits,
                        x_bits,
                        y_bits,
                        z_bits,
                    },
                    ..s0
                }),
                SceCommand::CameraDefault { unknown } => r == Ok::<bool, SceError>(true) && c1 == c0 && t1 == t0 && s1 == (SceneModel {
                    camera: CameraPose::Default { unknown },
                    ..s0
                }),
                SceCommand::HyFly { x_bits, y_bits, z_bits } => r == Ok::<bool, SceError>(true)
                    && c1 == c0 && t1 == t0 && s1
                    == (SceneModel {
                    camera: CameraPose::Flying { x_bits, y_bits, z_bits },
                    ..s0
                }),
                SceCommand::RoleInput { enable_input } => r == Ok::<bool, SceError>(true) && c1 == c0 && t1 == t0 && s1 == (SceneModel {
                    input_enabled: enable_input != 0,
                    ..s0
                }),
                SceCommand::RoleSetPos { role_id, nav_x, nav_z } => {
                    let olds = s0.roles@;
                    &&& r == Ok::<bool, SceError>(true)
                    &&& c1 == c0
                    &&& t1 == t0
                    &&& only_roles(s0, s1)
                    &&& role_set(olds, s1.roles@, role_id, (Role {
                        pos: s0.spec_nav_to_world(nav_x, nav_z),
                        ..olds[the_role(olds, role_id)]
                    }))
                },
                SceCommand::RoleSetFace { role_id, direction } => {
                    let olds = s0.roles@;
                    &&& r == Ok::<bool, SceError>(true)
                    &&& c1 == c0
                    &&& t1 == t0
                    &&& only_roles(s0, s1)
                    &&& role_set(olds, s1.roles@, role_id, (Role {
                        face_dir: direction,
                        ..olds[the_role(olds, role_id)]
                    }))
                },
                SceCommand::RoleTurnFace { role_id, degree_bits } => {
                    let olds = s0.roles@;
                    &&& r == Ok::<bool, SceError>(true)
                    &&& c1 == c0
                    &&& t1 == t0
                    &&& only_roles(s0, s1)
                    &&& role_set(olds, s1.roles@, role_id, (Role {
                        turn_deg_bits: degree_bits,
                        ..olds[the_role(olds, role_id)]
                    }))
                },
                SceCommand::RoleActive { role_id, active } => {
                    let olds = s0.roles@;
                    &&& r == Ok::<bool, SceError>(true)
                    &&& c1 == c0
                    &&& t1 == t0
                    &&& only_roles(s0, s1)
                    &&& role_set(olds, s1.roles@, role_id, (Role {
                        active: active != 0,
                        ..olds[the_role(olds, role_id)]
                    }))
                },
                SceCommand::RoleCtrl { role_id } => {
                    let olds = s0.roles@;
                    &&& r == Ok::<bool, SceError>(true)
                    &&& c1 == c0
                    &&& t1 == t0
                    &&& only_roles(s0, s1)
                    &&& role_set(olds, s1.roles@, role_id, (Role {
                        controlled: true,
                        ..olds[the_role(olds, role_id)]
                    }))
                },
                SceCommand::RoleActAutoStand { role_id, auto_play_idle } => {
                    let olds = s0.roles@;
                    &&& r == Ok::<bool, SceError>(true)
                    &&& c1 == c0
                    &&& t1 == t0
                    &&& only_roles(s0, s1)
                    &&& role_set(olds, s1.roles@, role_id, (Role {
                        auto_idle: auto_play_idle != 0,
                        ..olds[the_role(olds, role_id)]
                    }))
                },
                SceCommand::RoleFaceRole { role_id, role_id2 } => {
                    let olds = s0.roles@;
                    &&& r == Ok::<bool, SceError>(true)
                    &&& c1 == c0
                    &&& t1 == t0
                    &&& only_roles(s0, s1)
                    &&& if has_role(olds, role_id2) {
                        role_set(olds, s1.roles@, role_id, (Role {
                            look_target: Some(olds[the_role(olds, role_id2)].pos),
                            ..olds[the_role(olds, role_id)]
                        }))
                    } else {
                        s1.roles@ == olds
                    }
                },
                SceCommand::RoleMoveBack(mb) => {
                    let olds = s0.roles@;
                    let i = the_role(olds, mb.role_id);
                    &&& r == Ok::<bool, SceError>(true)
                    &&& c1 == c0
                    &&& t1 == t0
                    &&& only_roles(s0, s1)
                    &&& role_set(olds, s1.roles@, mb.role_id, (Role {
                        pos: (Pos {
                            z: clamp_coord(olds[i].pos.z + mb.speed_mu),
                            ..olds[i].pos
                        }),
                        ..olds[i]
                    }))
                },
                SceCommand::RoleShowAction { role_id, action_name, repeat_mode } => {
                    let olds = s0.roles@;
                    let i = the_role(olds, role_id);
                    &&& c1 == c0
                    &&& t1 == t0
                    &&& only_roles(s0, s1)
                    &&& if has_role(olds, role_id) {
                        &&& r == Ok::<bool, SceError>(repeat_mode != 0 || olds[i].anim_done)
                        &&& s1.roles@.len() == olds.len()
                        &&& s1.roles@ == olds.update(i, s1.roles@[i])
                        &&& s1.roles@[i].anim == RoleAnim::Acting
                        &&& s1.roles@[i].action_name@ == action_name@
                        &&& s1.roles@[i].action_repeat == repeat_mode
                        &&& s1.roles@[i] == (Role {
                            anim: RoleAnim::Acting,
                            action_name: s1.roles@[i].action_name,
                            action_repeat: repeat_mode,
                            ..olds[i]
                        })
                    } else {
                        r == Ok::<bool, SceError>(true) && s1.roles@ == olds
                    }
                },
                SceCommand::RoleMoveTo(m) => move_post(
                    s0,
                    s1,
                    t0,
                    t1,
                    c0,
                    c1,
                    m.role_id,
                    m.nav_x,
                    m.nav_z,
                    delta_ms,
                    r,
                ),
                SceCommand::RolePathTo(m) => move_post(
                    s0,
                    s1,
                    t0,
                    t1,
                    c0,
                    c1,
                    m.role_id,
                    m.nav_x,
                    m.nav_z,
                    delta_ms,
                    r,
                ),
                SceCommand::RolePathOut(m) => move_post(
                    s0,
                    s1,
                    t0,
                    t1,
                    c0,
                    c1,
                    m.role_id,
                    m.nav_x,
                    m.nav_z,
                    delta_ms,
                    r,
                ),
            }
}

/// Commands that only touch the state and the command itself.
pub open spec fn is_flow_cmd(c: SceCommand) -> bool {
    match c {
        SceCommand::Nop => true,
        SceCommand::Fop { .. } => true,
        SceCommand::Idle { .. } => true,
        SceCommand::SetRunMode { .. } => true,
        SceCommand::Goto { .. } => true,
        SceCommand::Cmp { .. } => true,
        SceCommand::TestGoto { .. } => true,
        SceCommand::Let { .. } => true,
        SceCommand::Call { .. } => true,
        SceCommand::Rnd { .. } => true,
        SceCommand::GetDlgSel { .. } => true,
        SceCommand::GetAppr { .. } => true,
        SceCommand::HaveItem { .. } => true,
        _ => false,
    }
}

/// Commands that act on a role of the scene.
pub open spec fn is_role_cmd(c: SceCommand) -> bool {
    match c {
        SceCommand::RoleSetPos { .. } => true,
        SceCommand::RoleSetFace { .. } => true,
        SceCommand::RoleTurnFace { .. } => true,
        SceCommand::RoleActive { .. } => true,
        SceCommand::RoleCtrl { .. } => true,
        SceCommand::RoleActAutoStand { .. } => true,
        SceCommand::RoleFaceRole { .. } => true,
        SceCommand::RoleMoveBack(..) => true,
        SceCommand::RoleShowAction { .. } => true,
        SceCommand::RoleMoveTo(..) => true,
        SceCommand::RolePathTo(..) => true,
        SceCommand::RolePathOut(..) => true,
        SceCommand::RoleInput { .. } => true,
        _ => false,
    }
}

/// The durative or motion commands on a role.
pub open spec fn is_motion_cmd(c: SceCommand) -> bool {
    match c {
        SceCommand::RoleMoveBack(..) => true,
        SceCommand::RoleShowAction { .. } => true,
        SceCommand::RoleMoveTo(..) => true,
        SceCommand::RolePathTo(..) => true,
        SceCommand::RolePathOut(..) => true,
        _ => false,
    }
}

/// The role commands that set a position, a facing or the input flag.
pub open spec fn is_pose_cmd(c: SceCommand) -> bool {
    match c {
        SceCommand::RoleSetPos { .. } => true,
        SceCommand::RoleSetFace { .. } => true,
        SceCommand::RoleTurnFace { .. } => true,
        SceCommand::RoleInput { .. } => true,
        _ => false,
    }
}

impl SceCommand {
    /// Runs one frame of this command against the scene and the state;
    /// `Ok(true)` means the command has completed. Host failures are
    /// absorbed: a role the scene does not hold leaves the scene as it
    /// is and the command finishes, so the script can advance. The one
    /// error is a call to a procedure the file does not hold.
    pub fn update(&mut self, scene: &mut SceneModel, state: &mut SceState, delta_ms: i64) -> (r:
        Result<bool, SceError>)
        requires
            old(self).wf(),
            old(scene).wf(),
            old(state).wf(),
            0 <= delta_ms <= 1_000_000,

        ensures
            final(self).wf(),
            final(scene).wf(),
            final(state).wf(),
            final(state).context.sce == old(state).context.sce,
            final(state).global_state == old(state).global_state,
            final(state).context.proc_stack@.len() >= old(state).context.proc_stack@.len(),
            update_post(
                *old(self),
                *final(self),
                *old(scene),
                *final(scene),
                *old(state),
                *final(state),
                delta_ms,
                r,
            ),
    {
        if self.is_flow() {
            self.update_flow(scene, state, delta_ms)
        } else {
            self.update_scene(scene, state, delta_ms)
        }
    }

    fn is_flow(&self) -> (r: bool)
        ensures
            r == is_flow_cmd(*self),
    {
        match self {
            SceCommand::Nop => true,
            SceCommand::Fop { .. } => true,
            SceCommand::Idle { .. } => true,
            SceCommand::SetRunMode { .. } => true,
            SceCommand::Goto { .. } => true,
            SceCommand::Cmp { .. } => true,
            SceCommand::TestGoto { .. } => true,
            SceCommand::Let { .. } => true,
            SceCommand::Call { .. } => true,
            SceCommand::Rnd { .. } => true,
            SceCommand::GetDlgSel { .. } => true,
            SceCommand::GetAppr { .. } => true,
            SceCommand::HaveItem { .. } => true,
            _ => false,
        }
    }

    #[verifier::rlimit(100)]
    fn update_flow(&mut self, scene: &mut SceneModel, state: &mut SceState, delta_ms: i64) -> (r:
        Result<bool, SceError>)
        requires
            old(self).wf(),
            old(scene).wf(),
            old(state).wf(),
            0 <= delta_ms <= 1_000_000,
            is_flow_cmd(*old(self)),

        ensures
            final(self).wf(),
            final(scene).wf(),
            final(state).wf(),
            final(state).context.sce == old(state).context.sce,
            final(state).global_state == old(state).global_state,
            final(state).context.proc_stack@.len() >= old(state).context.proc_stack@.len(),
            update_post(
                *old(self),
                *final(self),
                *old(scene),
                *final(scene),
                *old(state),
                *final(state),
                delta_ms,
                r,
            ),
    {
        match self {

            SceCommand::Nop => Ok(true),
            SceCommand::Fop { op } => Ok(true),
            SceCommand::Idle { length_ms, elapsed_ms } => {
                let len = *length_ms;
                let el = *elapsed_ms;
                if delta_ms >= len - el {
                    Ok(true)
                } else {
                    *elapsed_ms = el + delta_ms;
                    Ok(false)
                }
            },
            SceCommand::SetRunMode { mode } => {
                state.run_mode = *mode;
                Ok(true)
            },
            SceCommand::Goto { offset } => {
                if state.context.proc_stack.len() == 0 {
                    return Ok(true);
                }
                state.context.jump_to(*offset);
                Ok(true)
            },
            SceCommand::Cmp { kind, var, value } => {
                if state.context.proc_stack.len() == 0 {
                    return Ok(true);
                }
                let lhs = match state.context.get_local(*var) {
                    Some(v) => v,
                    None => 0,
                };
                let flag = match kind {
                    CmpKind::Gt => lhs > *value,
                    CmpKind::Ls => lhs < *value,
                    CmpKind::Eq => lhs == *value,
                    CmpKind::Neq => lhs != *value,
                    CmpKind::Geq => lhs >= *value,
                    CmpKind::Leq => lhs <= *value,
                };
                state.cmp_flag = flag;
                Ok(true)
            },
            SceCommand::TestGoto { offset } => {
                if state.context.proc_stack.len() == 0 {
                    return Ok(true);
                }
                if state.cmp_flag {
                    state.context.jump_to(*offset);
                }
                Ok(true)
            },
            SceCommand::Let { var, value } => {
                if state.context.proc_stack.len() == 0 {
                    return Ok(true);
                }
                state.context.set_local(*var, *value);
                Ok(true)
            },
            SceCommand::Call { proc_id } => {
                match state.context.call_proc(*proc_id) {
                    Ok(()) => Ok(true),
                    Err(e) => Err(e),
                }
            },
            SceCommand::Rnd { var, upper } => {
                if state.context.proc_stack.len() == 0 {
                    return Ok(true);
                }
                let v = state.rnd_next(*upper);
                state.context.set_local(*var, v);
                Ok(true)
            },
            SceCommand::GetDlgSel { var } => {
                if state.context.proc_stack.len() == 0 {
                    return Ok(true);
                }
                let v = state.context.get_dlgsel();
                state.context.set_local(*var, v);
                Ok(true)
            },
            SceCommand::GetAppr { var } => {
                if state.context.proc_stack.len() == 0 {
                    return Ok(true);
                }
                let v = state.global_state.appearance;
                state.context.set_local(*var, v);
                Ok(true)
            },
            SceCommand::HaveItem { item_id } => {
                let f = state.global_state.have_item(*item_id);
                state.cmp_flag = f;
                Ok(true)
            },
            _ => Ok(true),
        }
    }

    fn update_scene(&mut self, scene: &mut SceneModel, state: &mut SceState, delta_ms: i64) -> (r:
        Result<bool, SceError>)
        requires
            old(self).wf(),
            old(scene).wf(),
            old(state).wf(),
            0 <= delta_ms <= 1_000_000,
            !is_flow_cmd(*old(self)),
        ensures
            final(self).wf(),
            final(scene).wf(),
            final(state).wf(),
            final(state).context.sce == old(state).context.sce,
            final(state).global_state == old(state).global_state,
            final(state).context.proc_stack@.len() >= old(state).context.proc_stack@.len(),
            update_post(
                *old(self),
                *final(self),
                *old(scene),
                *final(scene),
                *old(state),
                *final(state),
                delta_ms,
                r,
            ),
    {
        if self.is_role() {
            self.update_role(scene, state, delta_ms)
        } else {
            self.update_misc(scene, state, delta_ms)
        }
    }

    fn is_role(&self) -> (r: bool)
        ensures
            r == is_role_cmd(*self),
    {
        match self {
            SceCommand::RoleSetPos { .. } => true,
            SceCommand::RoleSetFace { .. } => true,
            SceCommand::RoleTurnFace { .. } => true,
            SceCommand::RoleActive { .. } => true,
            SceCommand::RoleCtrl { .. } => true,
            SceCommand::RoleActAutoStand { .. } => true,
            SceCommand::RoleFaceRole { .. } => true,
            SceCommand::RoleMoveBack(..) => true,
            SceCommand::RoleShowAction { .. } => true,
            SceCommand::RoleMoveTo(..) => true,
            SceCommand::RolePathTo(..) => true,
            SceCommand::RolePathOut(..) => true,
            SceCommand::RoleInput { .. } => true,
            _ => false,
        }
    }

    fn update_role(&mut self, scene: &mut SceneModel, state: &mut SceState, delta_ms: i64) -> (r:
        Result<bool, SceError>)
        requires
            old(self).wf(),
            old(scene).wf(),
            old(state).wf(),
            0 <= delta_ms <= 1_000_000,
            is_role_cmd(*old(self)),
            !is_flow_cmd(*old(self)),
        ensures
            final(self).wf(),
            final(scene).wf(),
            final(state).wf(),
            final(state).context.sce == old(state).context.sce,
            final(state).global_state == old(state).global_state,
            final(state).context.proc_stack@.len() >= old(state).context.proc_stack@.len(),
            update_post(
                *old(self),
                *final(self),
                *old(scene),
                *final(scene),
                *old(state),
                *final(state),
                delta_ms,
                r,
            ),
    {
        if self.is_motion() {
            self.update_motion(scene, state, delta_ms)
        } else {
            self.update_role_setter(scene, state, delta_ms)
        }
    }

    fn is_motion(&self) -> (r: bool)
        ensures
            r == is_motion_cmd(*self),
    {
        match self {
            SceCommand::RoleMoveBack(..) => true,
            SceCommand::RoleShowAction { .. } => true,
            SceCommand::RoleMoveTo(..) => true,
            SceCommand::RolePathTo(..) => true,
            SceCommand::RolePathOut(..) => true,
            _ => false,
        }
    }

    fn update_role_setter(&mut self, scene: &mut SceneModel, state: &mut SceState, delta_ms: i64) -> (r:
        Result<bool, SceError>)
        requires
            old(self).wf(),
            old(scene).wf(),
            old(state).wf(),
            0 <= delta_ms <= 1_000_000,
            is_role_cmd(*old(self)),
            !is_flow_cmd(*old(self)),
            !is_motion_cmd(*old(self)),
        ensures
            final(self).wf(),
            final(scene).wf(),
            final(state).wf(),
            final(state).context.sce == old(state).context.sce,
            final(state).global_state == old(state).global_state,
            final(state).context.proc_stack@.len() >= old(state).context.proc_stack@.len(),
            update_post(
                *old(self),
                *final(self),
                *old(scene),
                *final(scene),
                *old(state),
                *final(state),
                delta_ms,
                r,
            ),
    {
        if self.is_pose_setter() {
            self.update_role_pose(scene, state, delta_ms)
        } else {
            self.update_role_flags(scene, state, delta_ms)
        }
    }

    fn is_pose_setter(&self) -> (r: bool)
        ensures
            r == is_pose_cmd(*self),
    {
        match self {
            SceCommand::RoleSetPos { .. } => true,
            SceCommand::RoleSetFace { .. } => true,
            SceCommand::RoleTurnFace { .. } => true,
            SceCommand::RoleInput { .. } => true,
            _ => false,
        }
    }

    #[verifier::rlimit(100)]
    fn update_role_pose(&mut self, scene: &mut SceneModel, state: &mut SceState, delta_ms: i64) -> (r:
        Result<bool, SceError>)
        requires
            old(self).wf(),
            old(scene).wf(),
            old(state).wf(),
            0 <= delta_ms <= 1_000_000,
            is_role_cmd(*old(self)),
            !is_flow_cmd(*old(self)),
            !is_motion_cmd(*old(self)),
            is_pose_cmd(*old(self)),
        ensures
            final(self).wf(),
            final(scene).wf(),
            final(state).wf(),
            final(state).context.sce == old(state).context.sce,
            final(state).global_state == old(state).global_state,
            final(state).context.proc_stack@.len() >= old(state).context.proc_stack@.len(),
            update_post(
                *old(self),
                *final(self),
                *old(scene),
                *final(scene),
                *old(state),
                *final(state),
                delta_ms,
                r,
            ),
    {
        match self {


            SceCommand::RoleInput { enable_input } => {
                scene.input_enabled = *enable_input != 0;
                Ok(true)
            },
            SceCommand::RoleSetPos { role_id, nav_x, nav_z } => {
                let p = scene.nav_to_world(*nav_x, *nav_z);
                let id = *role_id;
                match scene.find_role(id) {
                    Some(i) => {
                        proof {
                            lemma_first_role_unique(scene.roles@, id, i as int);
                        }
                        let role = &mut scene.roles[i];
                        role.pos = p;
                    },
                    None => {},
                }
                Ok(true)
            },
            SceCommand::RoleSetFace { role_id, direction } => {
                let id = *role_id;
                let d = *direction;
                match scene.find_role(id) {
                    Some(i) => {
                        proof {
                            lemma_first_role_unique(scene.roles@, id, i as int);
                        }
                        let role = &mut scene.roles[i];
                        role.face_dir = d;
                    },
                    None => {},
                }
                Ok(true)
            },
            SceCommand::RoleTurnFace { role_id, degree_bits } => {
                let id = *role_id;
                let d = *degree_bits;
                match scene.find_role(id) {
                    Some(i) => {
                        proof {
                            lemma_first_role_unique(scene.roles@, id, i as int);
                        }
                        let role = &mut scene.roles[i];
                        role.turn_deg_bits = d;
                    },
                    None => {},
                }
                Ok(true)
            },
            _ => Ok(true),
        }
    }

    #[verifier::rlimit(100)]
    fn update_role_flags(&mut self, scene: &mut SceneModel, state: &mut SceState, delta_ms: i64) -> (r:
        Result<bool, SceError>)
        requires
            old(self).wf(),
            old(scene).wf(),
            old(state).wf(),
            0 <= delta_ms <= 1_000_000,
            is_role_cmd(*old(self)),
            !is_flow_cmd(*old(self)),
            !is_motion_cmd(*old(self)),
            !is_pose_cmd(*old(self)),
        ensures
            final(self).wf(),
            final(scene).wf(),
            final(state).wf(),
            final(state).context.sce == old(state).context.sce,
            final(state).global_state == old(state).global_state,
            final(state).context.proc_stack@.len() >= old(state).context.proc_stack@.len(),
            update_post(
                *old(self),
                *final(self),
                *old(scene),
                *final(scene),
                *old(state),
                *final(state),
                delta_ms,
                r,
            ),
    {
        match self {
            SceCommand::RoleActive { role_id, active } => {
                let id = *role_id;
                let a = *active != 0;
                match scene.find_role(id) {
                    Some(i) => {
                        proof {
                            lemma_first_role_unique(scene.roles@, id, i as int);
                        }
                        let role = &mut scene.roles[i];
                        role.active = a;
                    },
                    None => {},
                }
                Ok(true)
            },
            SceCommand::RoleCtrl { role_id } => {
                let id = *role_id;
                match scene.find_role(id) {
                    Some(i) => {
                        proof {
                            lemma_first_role_unique(scene.roles@, id, i as int);
                        }
                        let role = &mut scene.roles[i];
                        role.controlled = true;
                    },
                    None => {},
                }
                Ok(true)
            },
            SceCommand::RoleActAutoStand { role_id, auto_play_idle } => {
                let id = *role_id;
                let a = *auto_play_idle != 0;
                match scene.find_role(id) {
                    Some(i) => {
                        proof {
                            lemma_first_role_unique(scene.roles@, id, i as int);
                        }
                        let role = &mut scene.roles[i];
                        role.auto_idle = a;
                    },
                    None => {},
                }
                Ok(true)
            },
            SceCommand::RoleFaceRole { role_id, role_id2 } => {
                let id = *role_id;
                let id2 = *role_id2;
                match scene.find_role(id2) {
                    Some(j) => {
                        proof {
                            lemma_first_role_unique(scene.roles@, id2, j as int);
                        }
                        let target = scene.roles[j].pos;
                        match scene.find_role(id) {
                            Some(i) => {
                                proof {
                                    lemma_first_role_unique(scene.roles@, id, i as int);
                                }
                                let role = &mut scene.roles[i];
                                role.look_target = Some(target);
                            },
                            None => {},
                        }
                    },
                    None => {},
                }
                Ok(true)
            },
            _ => Ok(true),
        }
    }

    #[verifier::rlimit(100)]
    fn update_motion(&mut self, scene: &mut SceneModel, state: &mut SceState, delta_ms: i64) -> (r:
        Result<bool, SceError>)
        requires
            old(self).wf(),
            old(scene).wf(),
            old(state).wf(),
            0 <= delta_ms <= 1_000_000,
            is_motion_cmd(*old(self)),
        ensures
            final(self).wf(),
            final(scene).wf(),
            final(state).wf(),
            final(state).context.sce == old(state).context.sce,
            final(state).global_state == old(state).global_state,
            final(state).context.proc_stack@.len() >= old(state).context.proc_stack@.len(),
            update_post(
                *old(self),
                *final(self),
                *old(scene),
                *final(scene),
                *old(state),
                *final(state),
                delta_ms,
                r,
            ),
    {
        match self {
            SceCommand::RoleMoveBack(mb) => {
                let id = mb.role_id;
                let speed = mb.speed_mu;
                match scene.find_role(id) {
                    Some(i) => {
                        proof {
                            lemma_first_role_unique(scene.roles@, id, i as int);
                        }
                        let z0 = scene.roles[i].pos.z;
                        let sum: i128 = z0 as i128 + speed as i128;
                        let nz: i64 = if sum > MAX_COORD_MU as i128 {
                            MAX_COORD_MU
                        } else if sum < -MAX_COORD_MU as i128 {
                            -MAX_COORD_MU
                        } else {
                            sum as i64
                        };
                        let role = &mut scene.roles[i];
                        role.pos = Pos { x: role.pos.x, y: role.pos.y, z: nz };
                    },
                    None => {},
                }
                Ok(true)
            },
            SceCommand::RoleShowAction { role_id, action_name, repeat_mode } => {
                let id = *role_id;
                let rm = *repeat_mode;
                let nm = action_name.clone();
                match scene.find_role(id) {
                    Some(i) => {
                        proof {
                            lemma_first_role_unique(scene.roles@, id, i as int);
                        }
                        let done_now = rm != 0 || scene.roles[i].anim_done;
                        let role = &mut scene.roles[i];
                        role.anim = RoleAnim::Acting;
                        role.action_name = nm;
                        role.action_repeat = rm;
                        Ok(done_now)
                    },
                    None => Ok(true),
                }
            },
            SceCommand::RoleMoveTo(m) => {
                let (role_id, nav_x, nav_z) = (m.role_id, m.nav_x, m.nav_z);
                move_tick(scene, role_id, nav_x, nav_z, delta_ms)
            },
            SceCommand::RolePathTo(m) => {
                let (role_id, nav_x, nav_z) = (m.role_id, m.nav_x, m.nav_z);
                move_tick(scene, role_id, nav_x, nav_z, delta_ms)
            },
            SceCommand::RolePathOut(m) => {
                let (role_id, nav_x, nav_z) = (m.role_id, m.nav_x, m.nav_z);
                move_tick(scene, role_id, nav_x, nav_z, delta_ms)
            },
            _ => Ok(true),
        }
    }

    #[verifier::rlimit(100)]
    fn update_misc(&mut self, scene: &mut SceneModel, state: &mut SceState, delta_ms: i64) -> (r:
        Result<bool, SceError>)
        requires
            old(self).wf(),
            old(scene).wf(),
            old(state).wf(),
            0 <= delta_ms <= 1_000_000,
            !is_role_cmd(*old(self)),
            !is_flow_cmd(*old(self)),
        ensures
            final(self).wf(),
            final(scene).wf(),
            final(state).wf(),
            final(state).context.sce == old(state).context.sce,
            final(state).global_state == old(state).global_state,
            final(state).context.proc_stack@.len() >= old(state).context.proc_stack@.len(),
            update_post(
                *old(self),
                *final(self),
                *old(scene),
                *final(scene),
                *old(state),
                *final(state),
                delta_ms,
                r,
            ),
    {
        match self {

            SceCommand::Dlg { text } => {
                match &scene.dialog {
                    DialogState::Idle => {
                        scene.dialog = DialogState::ShowingText { text: text.clone() };
                        Ok(false)
                    },
                    DialogState::TextDismissed => {
                        scene.dialog = DialogState::Idle;
                        Ok(true)
                    },
                    _ => Ok(false),
                }
            },
            SceCommand::DlgSel { options } => {
                let sel: Option<i32> = match &scene.dialog {
                    DialogState::Idle => {
                        scene.dialog = DialogState::ShowingSelection {
                            options: clone_strings(options),
                        };
                        None
                    },
                    DialogState::SelectionMade { index } => Some(*index),
                    _ => None,
                };
                match sel {
                    Some(k) => {
                        scene.dialog = DialogState::Idle;
                        if state.context.proc_stack.len() > 0 {
                            state.context.set_dlgsel(k);
                        }
                        Ok(true)
                    },
                    None => Ok(false),
                }
            },
            SceCommand::LoadScene { name, sub_name } => {
                scene.scene_request = Some((name.clone(), sub_name.clone()));
                Ok(true)
            },
            SceCommand::Music { name, unknown } => {
                scene.music = Some((name.clone(), *unknown));
                Ok(true)
            },
            SceCommand::StopMusic => {
                scene.music = None;
                Ok(true)
            },
            SceCommand::PlaySound { name, repeat } => {
                let ghost pre = scene.sounds@;
                scene.sounds.push((name.clone(), *repeat));
                proof {
                    assert(scene.sounds@.drop_last() =~= pre);
                }
                Ok(true)
            },
            SceCommand::ObjectActive { object_id, active } => {
                scene.object_log.push((*object_id, *active));
                Ok(true)
            },
            SceCommand::CameraMove { x_bits, y_bits, z_bits, u1_bits, u2_bits } => {
                scene.camera = CameraPose::MovedTo {
                    x_bits: *x_bits,
                    y_bits: *y_bits,
                    z_bits: *z_bits,
                    u1_bits: *u1_bits,
                    u2_bits: *u2_bits,
                };
                Ok(true)
            },
            SceCommand::CameraSet { y_rot_bits, x_rot_bits, unknown_bits, x_bits, y_bits, z_bits } => {
                scene.camera = CameraPose::Placed {
                    y_rot_bits: *y_rot_bits,
                    x_rot_bits: *x_rot_bits,
                    unknown_bits: *unknown_bits,
                    x_bits: *x_bits,
                    y_bits: *y_bits,
                    z_bits: *z_bits,
                };
                Ok(true)
            },
            SceCommand::CameraDefault { unknown } => {
                scene.camera = CameraPose::Default { unknown: *unknown };
                Ok(true)
            },
            SceCommand::HyFly { x_bits, y_bits, z_bits } => {
                scene.camera = CameraPose::Flying {
                    x_bits: *x_bits,
                    y_bits: *y_bits,
                    z_bits: *z_bits,
                };
                Ok(true)
            },
            _ => Ok(true),
        }
    }
}


/// What one movement tick does: without the role the scene is unchanged
/// and the walk finishes; otherwise the role steps toward the target as
/// `spec_move_step` says, looks at it, and runs until arrival.
pub open spec fn move_post(
    s0: SceneModel,
    s1: SceneModel,
    t0: SceState,
    t1: SceState,
    c0: SceCommand,
    c1: SceCommand,
    role_id: i32,
    nav_x: i32,
    nav_z: i32,
    delta_ms: i64,
    r: Result<bool, SceError>,
) -> bool {
    let olds = s0.roles@;
    let i = the_role(olds, role_id);
    let target = s0.spec_nav_to_world(nav_x, nav_z);
    let stepped = spec_move_step(olds[i].pos, target, MOVE_SPEED_MU_PER_MS * delta_ms);
    &&& c1 == c0
    &&& t1 == t0
    &&& only_roles(s0, s1)
    &&& if has_role(olds, role_id) {
        &&& r == Ok::<bool, SceError>(stepped.1)
        &&& s1.roles@ == olds.update(i, (Role {
            pos: stepped.0,
            look_target: Some(target),
            anim: if stepped.1 {
                RoleAnim::Standing
            } else {
                RoleAnim::Running
            },
            ..olds[i]
        }))
    } else {
        r == Ok::<bool, SceError>(true) && s1.roles@ == olds
    }
}

/// One movement tick toward a navigation target.
fn move_tick(scene: &mut SceneModel, role_id: i32, nav_x: i32, nav_z: i32, delta_ms: i64) -> (r:
    Result<bool, SceError>)
    requires
        old(scene).wf(),
        0 <= delta_ms <= 1_000_000,
    ensures
        final(scene).wf(),
        ({
            let olds = old(scene).roles@;
            let i = the_role(olds, role_id);
            let target = old(scene).spec_nav_to_world(nav_x, nav_z);
            let stepped = spec_move_step(olds[i].pos, target, MOVE_SPEED_MU_PER_MS * delta_ms);
            &&& only_roles(*old(scene), *final(scene))
            &&& if has_role(olds, role_id) {
                r == Ok::<bool, SceError>(stepped.1) && final(scene).roles@ == olds.update(i, (Role {
                    pos: stepped.0,
                    look_target: Some(target),
                    anim: if stepped.1 {
                        RoleAnim::Standing
                    } else {
                        RoleAnim::Running
                    },
                    ..olds[i]
                }))
            } else {
                r == Ok::<bool, SceError>(true) && final(scene).roles@ == olds
            }
        }),
{
    let target = scene.nav_to_world(nav_x, nav_z);
    match scene.find_role(role_id) {
        Some(i) => {
            proof {
                lemma_first_role_unique(scene.roles@, role_id, i as int);
            }
            let step = MOVE_SPEED_MU_PER_MS * delta_ms;
            let pos = scene.roles[i].pos;
            let (p2, done) = move_step(pos, target, step);
            let role = &mut scene.roles[i];
            role.pos = p2;
            role.look_target = Some(target);
            role.anim = if done {
                RoleAnim::Standing
            } else {
                RoleAnim::Running
            };
            Ok(done)
        },
        None => Ok(true),
    }
}

} // verus!

