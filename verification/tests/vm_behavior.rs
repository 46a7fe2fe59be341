use sce_vm::command::{CmpKind, SceCommand};
use sce_vm::fixp::milli_of_bits;
use sce_vm::dispatch::decode_cmd;
use sce_vm::scefile::{SceFile, SceProc, SceProcHeader};
use sce_vm::scene::{DialogState, Pos, Role, RoleAnim, SceneModel};
use sce_vm::state::{GlobalState, SceState};
use sce_vm::vm::SceVm;
use sce_vm::SceError;

fn push_u16(b: &mut Vec<u8>, v: u16) {
    b.extend_from_slice(&v.to_le_bytes());
}

fn push_i16(b: &mut Vec<u8>, v: i16) {
    b.extend_from_slice(&v.to_le_bytes());
}

fn push_u32(b: &mut Vec<u8>, v: u32) {
    b.extend_from_slice(&v.to_le_bytes());
}

fn push_i32(b: &mut Vec<u8>, v: i32) {
    b.extend_from_slice(&v.to_le_bytes());
}

fn push_f32(b: &mut Vec<u8>, v: f32) {
    push_u32(b, v.to_bits());
}

/// A string argument: u16 length counting the trailing NUL, the bytes,
/// then the NUL.
fn push_str(b: &mut Vec<u8>, s: &str) {
    push_u16(b, (s.len() + 1) as u16);
    b.extend_from_slice(s.as_bytes());
    b.push(0);
}

fn one_proc_file(inst: Vec<u8>) -> SceFile {
    SceFile {
        proc_headers: vec![SceProcHeader { id: 1, name: String::from("main"), offset: 0 }],
        procs: vec![SceProc { id: 1, inst }],
    }
}

fn test_role(id: i32) -> Role {
    Role {
        id,
        pos: Pos { x: 0, y: 0, z: 0 },
        face_dir: 0,
        turn_deg_bits: 0,
        look_target: None,
        active: true,
        controlled: false,
        auto_idle: false,
        anim: RoleAnim::Standing,
        action_name: String::new(),
        action_repeat: 0,
        anim_done: false,
    }
}

fn run_all(state: &mut SceState, scene: &mut SceneModel) {
    loop {
        match state.context.get_next_cmd() {
            Ok(Some(mut cmd)) => {
                cmd.initialize(scene, state);
                let mut done = cmd.update(scene, state, 16).unwrap();
                while !done {
                    done = cmd.update(scene, state, 16).unwrap();
                }
            }
            Ok(None) => break,
            Err(e) => panic!("script error: {:?}", e),
        }
    }
}

#[test]
fn milli_of_bits_reads_thousandths() {
    assert_eq!(milli_of_bits(0.5f32.to_bits()), 500);
    assert_eq!(milli_of_bits(1.0f32.to_bits()), 1000);
    assert_eq!(milli_of_bits(175.0f32.to_bits()), 175_000);
    assert_eq!(milli_of_bits((-2.5f32).to_bits()), -2500);
    assert_eq!(milli_of_bits(0.0f32.to_bits()), 0);
    assert_eq!(milli_of_bits(f32::INFINITY.to_bits()), 0);
    assert_eq!(milli_of_bits(0.1f32.to_bits()), 100);
}

#[test]
fn decode_binds_arguments_in_order() {
    let mut b = Vec::new();
    push_u32(&mut b, 13);
    push_i16(&mut b, 4);
    push_i32(&mut b, -9);
    let (cmd, w) = decode_cmd(&b, 0).unwrap();
    assert_eq!(cmd, SceCommand::Let { var: 4, value: -9 });
    assert_eq!(w, 10);
}

#[test]
fn decode_alias_matches_base_form() {
    let mut b1 = Vec::new();
    push_u32(&mut b1, 6);
    push_i16(&mut b1, 2);
    push_i32(&mut b1, 33);
    let mut b2 = Vec::new();
    push_u32(&mut b2, 6 | 0x10000);
    push_i16(&mut b2, 2);
    push_i32(&mut b2, 33);
    let (c1, w1) = decode_cmd(&b1, 0).unwrap();
    let (c2, w2) = decode_cmd(&b2, 0).unwrap();
    assert_eq!(c1, c2);
    assert_eq!(w1, w2);
    assert_eq!(c1, SceCommand::Cmp { kind: CmpKind::Gt, var: 2, value: 33 });
}

#[test]
fn decode_truncated_buffer_fails() {
    let mut b = Vec::new();
    push_u32(&mut b, 13);
    b.push(1);
    assert_eq!(decode_cmd(&b, 0), Err(SceError::Truncated));
}

#[test]
fn decode_gbk_text() {
    // GBK bytes 0xC4 0xE3 decode to one CJK character.
    let mut b = Vec::new();
    push_u32(&mut b, 62);
    push_u16(&mut b, 3);
    b.extend_from_slice(&[0xC4, 0xE3, 0x00]);
    let (cmd, w) = decode_cmd(&b, 0).unwrap();
    assert_eq!(cmd, SceCommand::Dlg { text: String::from("\u{4f60}") });
    assert_eq!(w, b.len());
}

#[test]
fn unknown_opcode_leaves_pc_untouched() {
    let mut b = Vec::new();
    push_u32(&mut b, 0xDEAD_DEAD);
    push_u32(&mut b, 0);
    push_u32(&mut b, 0);
    let sce = one_proc_file(b);
    let mut state = SceState::new(sce, GlobalState::new());
    state.context.call_proc(1).unwrap();
    let r = state.context.get_next_cmd();
    assert_eq!(r, Err(SceError::UnknownOpcode(0xDEAD_DEADu32 as i32)));
    // The program counter is back at the offending word: the same error
    // comes again.
    let r2 = state.context.get_next_cmd();
    assert_eq!(r2, Err(SceError::UnknownOpcode(0xDEAD_DEADu32 as i32)));
}

#[test]
fn goto_skips_code() {
    let mut b = Vec::new();
    push_u32(&mut b, 13); // Let slot 0 := 0
    push_i16(&mut b, 0);
    push_i32(&mut b, 0);
    push_u32(&mut b, 3); // Goto 40
    push_u32(&mut b, 40);
    push_u32(&mut b, 13); // Let slot 0 := 99 (skipped)
    push_i16(&mut b, 0);
    push_i32(&mut b, 99);
    while b.len() < 40 {
        b.push(0);
    }
    push_u32(&mut b, 13); // @40: Let slot 1 := 7
    push_i16(&mut b, 1);
    push_i32(&mut b, 7);
    let sce = one_proc_file(b);
    let mut state = SceState::new(sce, GlobalState::new());
    let mut scene = SceneModel::new();
    state.context.call_proc(1).unwrap();
    // Run the three decoded commands, stopping before the frame drains.
    for _ in 0..3 {
        let mut cmd = state.context.get_next_cmd().unwrap().unwrap();
        assert!(cmd.update(&mut scene, &mut state, 16).unwrap());
    }
    assert_eq!(state.context.get_local(1), Some(7));
    assert_ne!(state.context.get_local(0), Some(99));
    assert_eq!(state.context.get_next_cmd(), Ok(None));
}

#[test]
fn testgoto_taken_on_true_comparison() {
    let mut b = Vec::new();
    push_u32(&mut b, 13); // Let slot 0 := 5
    push_i16(&mut b, 0);
    push_i32(&mut b, 5);
    push_u32(&mut b, 6); // Gt slot 0 > 3
    push_i16(&mut b, 0);
    push_i32(&mut b, 3);
    push_u32(&mut b, 12); // TestGoto 38 (the end)
    push_u32(&mut b, 38);
    push_u32(&mut b, 13); // Let slot 1 := 1 (skipped)
    push_i16(&mut b, 1);
    push_i32(&mut b, 1);
    assert_eq!(b.len(), 38);
    let sce = one_proc_file(b);
    let mut state = SceState::new(sce, GlobalState::new());
    let mut scene = SceneModel::new();
    state.context.call_proc(1).unwrap();
    for _ in 0..3 {
        let mut cmd = state.context.get_next_cmd().unwrap().unwrap();
        assert!(cmd.update(&mut scene, &mut state, 16).unwrap());
    }
    assert!(state.cmp_flag);
    assert_eq!(state.context.get_local(1), None);
    assert_eq!(state.context.get_next_cmd(), Ok(None));
}

#[test]
fn frame_isolation_and_completion_drain() {
    let mut main_inst = Vec::new();
    push_u32(&mut main_inst, 13); // Let slot 3 := 7
    push_i16(&mut main_inst, 3);
    push_i32(&mut main_inst, 7);
    push_u32(&mut main_inst, 16); // Call proc 2
    push_u32(&mut main_inst, 2);
    push_u32(&mut main_inst, 13); // Let slot 4 := 1
    push_i16(&mut main_inst, 4);
    push_i32(&mut main_inst, 1);
    let mut callee_inst = Vec::new();
    push_u32(&mut callee_inst, 13); // Let slot 3 := 99, callee-scoped
    push_i16(&mut callee_inst, 3);
    push_i32(&mut callee_inst, 99);
    let sce = SceFile {
        proc_headers: vec![
            SceProcHeader { id: 1, name: String::from("main"), offset: 0 },
            SceProcHeader { id: 2, name: String::from("sub"), offset: 0 },
        ],
        procs: vec![SceProc { id: 1, inst: main_inst }, SceProc { id: 2, inst: callee_inst }],
    };
    let mut state = SceState::new(sce, GlobalState::new());
    let mut scene = SceneModel::new();
    state.context.call_proc(1).unwrap();
    // Let 3 := 7, then Call.
    for _ in 0..2 {
        let mut cmd = state.context.get_next_cmd().unwrap().unwrap();
        assert!(cmd.update(&mut scene, &mut state, 16).unwrap());
    }
    // The callee writes its own slot 3.
    let mut cmd = state.context.get_next_cmd().unwrap().unwrap();
    assert_eq!(cmd, SceCommand::Let { var: 3, value: 99 });
    assert!(cmd.update(&mut scene, &mut state, 16).unwrap());
    assert_eq!(state.context.get_local(3), Some(99));
    // The callee ran off its end: the next command comes from the
    // caller's frame, whose slot 3 still holds 7.
    let mut cmd = state.context.get_next_cmd().unwrap().unwrap();
    assert_eq!(cmd, SceCommand::Let { var: 4, value: 1 });
    assert!(cmd.update(&mut scene, &mut state, 16).unwrap());
    assert_eq!(state.context.get_local(3), Some(7));
    assert_eq!(state.context.get_local(4), Some(1));
}

#[test]
fn sequential_idle_then_set_pos() {
    let mut b = Vec::new();
    push_u32(&mut b, 1); // Idle 0.5 s
    push_f32(&mut b, 0.5);
    push_u32(&mut b, 21); // RoleSetPos role 1 nav (10, 20)
    push_i32(&mut b, 1);
    push_i32(&mut b, 10);
    push_i32(&mut b, 20);
    let sce = one_proc_file(b);
    let mut vm = SceVm::new(sce, GlobalState::new());
    let mut scene = SceneModel::new();
    scene.roles.push(test_role(1));
    vm.call_proc(1).unwrap();
    assert_eq!(vm.update(&mut scene, 250), Ok(false));
    assert_eq!(vm.active_commands.len(), 1);
    // The idle finishes on this tick; the position command runs on the
    // next decode frame.
    assert_eq!(vm.update(&mut scene, 250), Ok(false));
    assert_eq!(vm.active_commands.len(), 0);
    assert_eq!(vm.update(&mut scene, 250), Ok(true));
    assert_eq!(scene.roles[0].pos, Pos { x: 10_000, y: 0, z: 20_000 });
}

#[test]
fn role_move_to_terminates_in_two_ticks() {
    let mut b = Vec::new();
    push_u32(&mut b, 214); // RoleMoveTo role 1 nav (0, 350)
    push_i32(&mut b, 1);
    push_i32(&mut b, 0);
    push_i32(&mut b, 350);
    push_i32(&mut b, 0);
    let sce = one_proc_file(b);
    let mut vm = SceVm::new(sce, GlobalState::new());
    let mut scene = SceneModel::new();
    scene.roles.push(test_role(1));
    vm.call_proc(1).unwrap();
    // First tick of one second: 175 units of the 350.
    assert_eq!(vm.update(&mut scene, 1000), Ok(false));
    assert_eq!(vm.active_commands.len(), 1);
    assert_eq!(scene.roles[0].pos, Pos { x: 0, y: 0, z: 175_000 });
    assert_eq!(scene.roles[0].anim, RoleAnim::Running);
    // Second tick arrives exactly.
    assert_eq!(vm.update(&mut scene, 1000), Ok(false));
    assert_eq!(vm.active_commands.len(), 0);
    assert_eq!(scene.roles[0].pos, Pos { x: 0, y: 0, z: 350_000 });
    assert_eq!(scene.roles[0].anim, RoleAnim::Standing);
}

#[test]
fn dlgsel_round_trip_binds_selection() {
    let mut b = Vec::new();
    push_u32(&mut b, 65); // DlgSel ["Yes", "No"]
    push_u16(&mut b, 2);
    b.push(0);
    push_str(&mut b, "Yes");
    b.push(0);
    push_str(&mut b, "No");
    push_u32(&mut b, 66); // GetDlgSel slot 5
    push_i16(&mut b, 5);
    let sce = one_proc_file(b);
    let mut state = SceState::new(sce, GlobalState::new());
    let mut scene = SceneModel::new();
    state.context.call_proc(1).unwrap();
    let mut sel = state.context.get_next_cmd().unwrap().unwrap();
    assert!(!sel.update(&mut scene, &mut state, 16).unwrap());
    match &scene.dialog {
        DialogState::ShowingSelection { options } => {
            assert_eq!(options, &vec![String::from("Yes"), String::from("No")]);
        }
        other => panic!("dialog not showing options: {:?}", other),
    }
    // The host answers with index 1.
    scene.dialog = DialogState::SelectionMade { index: 1 };
    assert!(sel.update(&mut scene, &mut state, 16).unwrap());
    assert_eq!(scene.dialog, DialogState::Idle);
    let mut get = state.context.get_next_cmd().unwrap().unwrap();
    assert!(get.update(&mut scene, &mut state, 16).unwrap());
    assert_eq!(state.context.get_local(5), Some(1));
}

#[test]
fn run_mode_zero_interleaves_run_mode_one_blocks() {
    // Strict-sequential: decoding stops at the first unfinished command.
    let mut b = Vec::new();
    push_u32(&mut b, 1);
    push_f32(&mut b, 1.0);
    push_u32(&mut b, 1);
    push_f32(&mut b, 1.0);
    let sce = one_proc_file(b.clone());
    let mut vm = SceVm::new(sce, GlobalState::new());
    let mut scene = SceneModel::new();
    vm.call_proc(1).unwrap();
    assert_eq!(vm.update(&mut scene, 100), Ok(false));
    assert_eq!(vm.active_commands.len(), 1);
    // Interleaved: decoding runs past unfinished commands to the end.
    let mut b2 = Vec::new();
    push_u32(&mut b2, 2);
    push_i32(&mut b2, 0);
    b2.extend_from_slice(&b);
    let sce2 = one_proc_file(b2);
    let mut vm2 = SceVm::new(sce2, GlobalState::new());
    vm2.call_proc(1).unwrap();
    assert_eq!(vm2.update(&mut scene, 100), Ok(true));
    assert_eq!(vm2.active_commands.len(), 2);
}

#[test]
fn music_sound_and_items() {
    let mut b = Vec::new();
    push_u32(&mut b, 79); // PlaySound "pop" 1
    push_str(&mut b, "pop");
    push_i32(&mut b, 1);
    push_u32(&mut b, 133); // Music "theme" 0
    push_str(&mut b, "theme");
    push_i32(&mut b, 0);
    push_u32(&mut b, 78); // HaveItem 42
    push_i32(&mut b, 42);
    push_u32(&mut b, 134); // StopMusic
    let sce = one_proc_file(b);
    let mut global = GlobalState::new();
    global.add_item(42);
    let mut state = SceState::new(sce, global);
    let mut scene = SceneModel::new();
    state.context.call_proc(1).unwrap();
    run_all(&mut state, &mut scene);
    assert_eq!(scene.sounds, vec![(String::from("pop"), 1)]);
    assert_eq!(scene.music, None);
    assert!(state.cmp_flag);
}

#[test]
fn rnd_draws_in_range_and_deterministically() {
    let mut s1 = SceState::new(one_proc_file(Vec::new()), GlobalState::new());
    let mut s2 = SceState::new(one_proc_file(Vec::new()), GlobalState::new());
    for _ in 0..32 {
        let a = s1.rnd_next(10);
        let b = s2.rnd_next(10);
        assert_eq!(a, b);
        assert!((0..10).contains(&a));
    }
    assert_eq!(s1.rnd_next(0), 0);
    assert_eq!(s1.rnd_next(-5), 0);
}

#[test]
fn call_missing_procedure_reports_id() {
    let sce = one_proc_file(Vec::new());
    let mut vm = SceVm::new(sce, GlobalState::new());
    assert_eq!(vm.call_proc(9), Err(SceError::ProcMissing(9)));
}

#[test]
fn call_by_name_is_best_effort() {
    let sce = one_proc_file(Vec::new());
    let mut state = SceState::new(sce, GlobalState::new());
    state.context.try_call_proc_by_name(&String::from("nowhere"));
    assert_eq!(state.context.get_next_cmd(), Ok(None));
    state.context.try_call_proc_by_name(&String::from("main"));
    assert_eq!(state.context.get_next_cmd(), Ok(None));
}
