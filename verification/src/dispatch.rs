use vstd::prelude::*;

verus! {

use crate::SceError;
use crate::bytes_le::{le_u16, le_u32, le_i16, le_i32, read_u16, read_u32, read_i16, read_i32};
use crate::command::{SceCommand, SceCommandRoleMoveTo, SceCommandRoleMoveBack, CmpKind};
use crate::fixp::spec_milli_of_bits;
use crate::gbk::{gbk_of, gbk_decode};
use vstd::slice::slice_subrange;

pub type DecodeResult = Result<(SceCommand, usize), SceError>;

/// An opcode and the same opcode with bit 16 set decode identically:
/// the high bit marks an indirect argument form in the source format,
/// which this layer does not distinguish.
pub open spec fn canon_op(code: u32) -> u32 {
    if code == 65542 {
        6
    } else if code == 65543 {
        7
    } else if code == 65544 {
        8
    } else if code == 65545 {
        9
    } else if code == 65546 {
        10
    } else if code == 65547 {
        11
    } else if code == 65549 {
        13
    } else if code == 65553 {
        17
    } else if code == 65602 {
        66
    } else if code == 65644 {
        108
    } else {
        code
    }
}

/// A length-prefixed string argument: u16 length, then that many bytes
/// of GBK text whose trailing NUL byte is stripped. Yields the text and
/// the position just past the argument.
pub open spec fn spec_read_str(b: Seq<u8>, pos: int) -> Option<(Seq<char>, int)> {
    if pos + 2 > b.len() {
        None
    } else {
        let l = le_u16(b, pos) as int;
        if pos + 2 + l > b.len() {
            None
        } else if l == 0 {
            Some((Seq::<char>::empty(), pos + 2))
        } else {
            Some((gbk_of(b.subrange(pos + 2, pos + 2 + l - 1)), pos + 2 + l))
        }
    }
}

pub open spec fn end_after_str(b: Seq<u8>, pos: int) -> Option<int> {
    match spec_read_str(b, pos) {
        None => None,
        Some((s, e)) => Some(e),
    }
}

/// The items of a length-prefixed string list: each one is a discarded
/// tag byte followed by a string argument.
pub open spec fn spec_read_list_items(b: Seq<u8>, pos: int, n: nat) -> Option<
    (Seq<Seq<char>>, int),
>
    decreases n,
{
    if n == 0 {
        Some((Seq::<Seq<char>>::empty(), pos))
    } else if pos + 1 > b.len() {
        None
    } else {
        match spec_read_str(b, pos + 1) {
            None => None,
            Some((s, p2)) => match spec_read_list_items(b, p2, (n - 1) as nat) {
                None => None,
                Some((rest, p3)) => Some((seq![s] + rest, p3)),
            },
        }
    }
}

pub open spec fn spec_read_list(b: Seq<u8>, pos: int) -> Option<(Seq<Seq<char>>, int)> {
    if pos + 2 > b.len() {
        None
    } else {
        spec_read_list_items(b, pos + 2, le_u16(b, pos) as nat)
    }
}

/// What decoding a fixed-width opcode must yield: the given command and
/// a program counter moved past the opcode word and `need` argument
/// bytes, or `Truncated` when the buffer is too short.
pub open spec fn post_fixed(b: Seq<u8>, pc: int, need: int, c: SceCommand, r: DecodeResult) -> bool {
    if pc + 4 + need <= b.len() {
        r == Ok::<(SceCommand, usize), SceError>((c, (pc + 4 + need) as usize))
    } else {
        r == Err::<(SceCommand, usize), SceError>(SceError::Truncated)
    }
}

pub open spec fn post_nop_end(b: Seq<u8>, r: DecodeResult, end: Option<int>) -> bool {
    match end {
        None => r == Err::<(SceCommand, usize), SceError>(SceError::Truncated),
        Some(e) => r == Ok::<(SceCommand, usize), SceError>((SceCommand::Nop, e as usize)),
    }
}

pub open spec fn post_dlg(b: Seq<u8>, pc: int, r: DecodeResult) -> bool {
    match spec_read_str(b, pc + 4) {
        None => r == Err::<(SceCommand, usize), SceError>(SceError::Truncated),
        Some((s, e)) => r matches Ok((c, w)) && c matches SceCommand::Dlg { text } && text@ == s
            && w == e,
    }
}

pub open spec fn post_load_scene(b: Seq<u8>, pc: int, r: DecodeResult) -> bool {
    match spec_read_str(b, pc + 4) {
        None => r == Err::<(SceCommand, usize), SceError>(SceError::Truncated),
        Some((s1, e1)) => match spec_read_str(b, e1) {
            None => r == Err::<(SceCommand, usize), SceError>(SceError::Truncated),
            Some((s2, e2)) => r matches Ok((c, w)) && c matches SceCommand::LoadScene {
                name,
                sub_name,
            } && name@ == s1 && sub_name@ == s2 && w == e2,
        },
    }
}

pub open spec fn post_dlg_sel(b: Seq<u8>, pc: int, r: DecodeResult) -> bool {
    match spec_read_list(b, pc + 4) {
        None => r == Err::<(SceCommand, usize), SceError>(SceError::Truncated),
        Some((items, e)) => r matches Ok((c, w)) && c matches SceCommand::DlgSel { options }
            && options.deep_view() == items && w == e,
    }
}

pub open spec fn post_role_show_action(b: Seq<u8>, pc: int, r: DecodeResult) -> bool {
    if pc + 8 > b.len() {
        r == Err::<(SceCommand, usize), SceError>(SceError::Truncated)
    } else {
        match spec_read_str(b, pc + 8) {
            None => r == Err::<(SceCommand, usize), SceError>(SceError::Truncated),
            Some((s, e)) => if e + 4 > b.len() {
                r == Err::<(SceCommand, usize), SceError>(SceError::Truncated)
            } else {
                r matches Ok((c, w)) && c matches SceCommand::RoleShowAction {
                    role_id,
                    action_name,
                    repeat_mode,
                } && role_id == le_i32(b, pc + 4) && action_name@ == s && repeat_mode == le_i32(
                    b,
                    e,
                ) && w == e + 4
            },
        }
    }
}

pub open spec fn post_play_sound(b: Seq<u8>, pc: int, r: DecodeResult) -> bool {
    match spec_read_str(b, pc + 4) {
        None => r == Err::<(SceCommand, usize), SceError>(SceError::Truncated),
        Some((s, e)) => if e + 4 > b.len() {
            r == Err::<(SceCommand, usize), SceError>(SceError::Truncated)
        } else {
            r matches Ok((c, w)) && c matches SceCommand::PlaySound { name, repeat } && name@ == s
                && repeat == le_i32(b, e) && w == e + 4
        },
    }
}

pub open spec fn post_music(b: Seq<u8>, pc: int, r: DecodeResult) -> bool {
    match spec_read_str(b, pc + 4) {
        None => r == Err::<(SceCommand, usize), SceError>(SceError::Truncated),
        Some((s, e)) => if e + 4 > b.len() {
            r == Err::<(SceCommand, usize), SceError>(SceError::Truncated)
        } else {
            r matches Ok((c, w)) && c matches SceCommand::Music { name, unknown } && name@ == s
                && unknown == le_i32(b, e) && w == e + 4
        },
    }
}

/// End position of a discarded `(str, i32)` argument pair.
pub open spec fn end_str_i32(b: Seq<u8>, pos: int) -> Option<int> {
    match end_after_str(b, pos) {
        None => None,
        Some(e) => if e + 4 > b.len() {
            None
        } else {
            Some(e + 4)
        },
    }
}

/// End position of a discarded `(i32, str)` argument pair.
pub open spec fn end_i32_str(b: Seq<u8>, pos: int) -> Option<int> {
    if pos + 4 > b.len() {
        None
    } else {
        end_after_str(b, pos + 4)
    }
}

/// End position of a discarded `(i32, str, i32)` argument triple.
pub open spec fn end_i32_str_i32(b: Seq<u8>, pos: int) -> Option<int> {
    if pos + 4 > b.len() {
        None
    } else {
        end_str_i32(b, pos + 4)
    }
}

/// The dispatch table, as a relation between a buffer position and the
/// decoder's result: for every opcode it pins the command variant, each
/// argument read positionally in declaration order, and the exact
/// position just past the record; for a short buffer it pins
/// `Truncated`, and for an unlisted opcode `UnknownOpcode` with the
/// offending word. The table is split in three tiers by opcode value.
pub open spec fn decode_post(b: Seq<u8>, pc: int, r: DecodeResult) -> bool {
    if pc + 4 > b.len() {
        r == Err::<(SceCommand, usize), SceError>(SceError::Truncated)
    } else {
        let op = canon_op(le_u32(b, pc));
        if op <= 17 {
            decode_post_flow(b, pc, op, r)
        } else if op <= 103 {
            decode_post_role(b, pc, op, r)
        } else {
            decode_post_misc(b, pc, op, r)
        }
    }
}

/// Tier of the flow and comparison opcodes (canonical id up to 17).
pub open spec fn decode_post_flow(b: Seq<u8>, pc: int, op: u32, r: DecodeResult) -> bool {
    let a = pc + 4;
    if op == 1 {
            post_fixed(b, pc, 4, SceCommand::Idle {
                length_ms: spec_milli_of_bits(le_u32(b, a)),
                elapsed_ms: 0,
            }, r)
        } else if op == 2 {
            post_fixed(b, pc, 4, SceCommand::SetRunMode { mode: le_i32(b, a) }, r)
        } else if op == 3 {
            post_fixed(b, pc, 4, SceCommand::Goto { offset: le_u32(b, a) }, r)
        } else if op == 5 {
            post_fixed(b, pc, 4, SceCommand::Fop { op: le_i32(b, a) }, r)
        } else if op == 6 {
            post_fixed(b, pc, 6, SceCommand::Cmp {
                kind: CmpKind::Gt,
                var: le_i16(b, a),
                value: le_i32(b, a + 2),
            }, r)
        } else if op == 7 {
            post_fixed(b, pc, 6, SceCommand::Cmp {
                kind: CmpKind::Ls,
                var: le_i16(b, a),
                value: le_i32(b, a + 2),
            }, r)
        } else if op == 8 {
            post_fixed(b, pc, 6, SceCommand::Cmp {
                kind: CmpKind::Eq,
                var: le_i16(b, a),
                value: le_i32(b, a + 2),
            }, r)
        } else if op == 9 {
            post_fixed(b, pc, 6, SceCommand::Cmp {
                kind: CmpKind::Neq,
                var: le_i16(b, a),
                value: le_i32(b, a + 2),
            }, r)
        } else if op == 10 {
            post_fixed(b, pc, 6, SceCommand::Cmp {
                kind: CmpKind::Geq,
                var: le_i16(b, a),
                value: le_i32(b, a + 2),
            }, r)
        } else if op == 11 {
            post_fixed(b, pc, 6, SceCommand::Cmp {
                kind: CmpKind::Leq,
                var: le_i16(b, a),
                value: le_i32(b, a + 2),
            }, r)
        } else if op == 12 {
            post_fixed(b, pc, 4, SceCommand::TestGoto { offset: le_u32(b, a) }, r)
        } else if op == 13 {
            post_fixed(b, pc, 6, SceCommand::Let { var: le_i16(b, a), value: le_i32(b, a + 2) }, r)
        } else if op == 16 {
            post_fixed(b, pc, 4, SceCommand::Call { proc_id: le_u32(b, a) }, r)
        } else if op == 17 {
            post_fixed(b, pc, 6, SceCommand::Rnd { var: le_i16(b, a), upper: le_i32(b, a + 2) }, r)
        } else {
        r == Err::<(SceCommand, usize), SceError>(SceError::UnknownOpcode(le_i32(b, pc)))
    }
}

/// Tier of the role, camera and dialog opcodes (canonical ids 18 to 103).
pub open spec fn decode_post_role(b: Seq<u8>, pc: int, op: u32, r: DecodeResult) -> bool {
    let a = pc + 4;
    if op == 20 {
            post_fixed(b, pc, 16, SceCommand::RolePathTo(SceCommandRoleMoveTo {
                role_id: le_i32(b, a),
                nav_x: le_i32(b, a + 4),
                nav_z: le_i32(b, a + 8),
                unknown: le_i32(b, a + 12),
            }), r)
        } else if op == 21 {
            post_fixed(b, pc, 12, SceCommand::RoleSetPos {
                role_id: le_i32(b, a),
                nav_x: le_i32(b, a + 4),
                nav_z: le_i32(b, a + 8),
            }, r)
        } else if op == 22 {
            post_role_show_action(b, pc, r)
        } else if op == 23 {
            post_fixed(b, pc, 8, SceCommand::RoleSetFace {
                role_id: le_i32(b, a),
                direction: le_i32(b, a + 4),
            }, r)
        } else if op == 24 {
            post_fixed(b, pc, 8, SceCommand::RoleTurnFace {
                role_id: le_i32(b, a),
                degree_bits: le_u32(b, a + 4),
            }, r)
        } else if op == 27 {
            post_fixed(b, pc, 4, SceCommand::RoleInput { enable_input: le_i32(b, a) }, r)
        } else if op == 28 {
            post_fixed(b, pc, 8, SceCommand::RoleActive {
                role_id: le_i32(b, a),
                active: le_i32(b, a + 4),
            }, r)
        } else if op == 32 {
            post_fixed(b, pc, 12, SceCommand::Nop, r)
        } else if op == 33 {
            post_fixed(b, pc, 16, SceCommand::Nop, r)
        } else if op == 34 {
            post_fixed(b, pc, 20, SceCommand::CameraMove {
                x_bits: le_u32(b, a),
                y_bits: le_u32(b, a + 4),
                z_bits: le_u32(b, a + 8),
                u1_bits: le_u32(b, a + 12),
                u2_bits: le_u32(b, a + 16),
            }, r)
        } else if op == 35 {
            post_fixed(b, pc, 16, SceCommand::Nop, r)
        } else if op == 36 {
            post_fixed(b, pc, 24, SceCommand::CameraSet {
                y_rot_bits: le_u32(b, a),
                x_rot_bits: le_u32(b, a + 4),
                unknown_bits: le_u32(b, a + 8),
                x_bits: le_u32(b, a + 12),
                y_bits: le_u32(b, a + 16),
                z_bits: le_u32(b, a + 20),
            }, r)
        } else if op == 37 {
            post_fixed(b, pc, 4, SceCommand::CameraDefault { unknown: le_i32(b, a) }, r)
        } else if op == 46 {
            post_fixed(b, pc, 8, SceCommand::Nop, r)
        } else if op == 62 {
            post_dlg(b, pc, r)
        } else if op == 63 {
            post_load_scene(b, pc, r)
        } else if op == 65 {
            post_dlg_sel(b, pc, r)
        } else if op == 66 {
            post_fixed(b, pc, 2, SceCommand::GetDlgSel { var: le_i16(b, a) }, r)
        } else if op == 67 {
            post_nop_end(b, r, end_i32_str_i32(b, a))
        } else if op == 68 {
            post_nop_end(b, r, end_after_str(b, a))
        } else if op == 69 || op == 70 {
            post_fixed(b, pc, 0, SceCommand::Nop, r)
        } else if op == 71 {
            post_fixed(b, pc, 4, SceCommand::Nop, r)
        } else if op == 72 {
            post_fixed(b, pc, 8, SceCommand::Nop, r)
        } else if op == 78 {
            post_fixed(b, pc, 4, SceCommand::HaveItem { item_id: le_i32(b, a) }, r)
        } else if op == 79 {
            post_play_sound(b, pc, r)
        } else if op == 85 {
            post_fixed(b, pc, 8, SceCommand::ObjectActive {
                object_id: le_i32(b, a),
                active: le_i32(b, a + 4),
            }, r)
        } else if op == 86 {
            post_nop_end(b, r, end_str_i32(b, a))
        } else if op == 87 || op == 88 {
            post_fixed(b, pc, 4, SceCommand::Nop, r)
        } else if op == 89 {
            post_fixed(b, pc, 12, SceCommand::HyFly {
                x_bits: le_u32(b, a),
                y_bits: le_u32(b, a + 4),
                z_bits: le_u32(b, a + 8),
            }, r)
        } else if op == 90 {
            post_fixed(b, pc, 20, SceCommand::Nop, r)
        } else {
        r == Err::<(SceCommand, usize), SceError>(SceError::UnknownOpcode(le_i32(b, pc)))
    }
}

/// Tier of the remaining opcodes (canonical ids 104 and up).
pub open spec fn decode_post_misc(b: Seq<u8>, pc: int, op: u32, r: DecodeResult) -> bool {
    let a = pc + 4;
    if op == 104 {
            post_fixed(b, pc, 0, SceCommand::Nop, r)
        } else if op == 108 {
            post_fixed(b, pc, 2, SceCommand::GetAppr { var: le_i16(b, a) }, r)
        } else if op == 115 {
            post_nop_end(b, r, end_after_str(b, a))
        } else if op == 116 {
            post_nop_end(b, r, end_i32_str(b, a))
        } else if op == 118 {
            post_fixed(b, pc, 8, SceCommand::Nop, r)
        } else if op == 124 {
            post_fixed(b, pc, 4, SceCommand::Nop, r)
        } else if op == 133 {
            post_music(b, pc, r)
        } else if op == 134 {
            post_fixed(b, pc, 0, SceCommand::StopMusic, r)
        } else if op == 142 {
            post_fixed(b, pc, 12, SceCommand::Nop, r)
        } else if op == 143 || op == 148 {
            post_fixed(b, pc, 4, SceCommand::Nop, r)
        } else if op == 150 {
            post_nop_end(b, r, end_i32_str(b, a))
        } else if op == 201 {
            post_fixed(b, pc, 16, SceCommand::RolePathOut(SceCommandRoleMoveTo {
                role_id: le_i32(b, a),
                nav_x: le_i32(b, a + 4),
                nav_z: le_i32(b, a + 8),
                unknown: le_i32(b, a + 12),
            }), r)
        } else if op == 202 {
            post_fixed(b, pc, 8, SceCommand::Nop, r)
        } else if op == 204 {
            post_fixed(b, pc, 4, SceCommand::RoleCtrl { role_id: le_i32(b, a) }, r)
        } else if op == 207 {
            post_fixed(b, pc, 8, SceCommand::RoleActAutoStand {
                role_id: le_i32(b, a),
                auto_play_idle: le_i32(b, a + 4),
            }, r)
        } else if op == 208 {
            post_fixed(b, pc, 8, SceCommand::RoleMoveBack(SceCommandRoleMoveBack {
                role_id: le_i32(b, a),
                speed_mu: spec_milli_of_bits(le_u32(b, a + 4)),
            }), r)
        } else if op == 209 {
            post_fixed(b, pc, 8, SceCommand::RoleFaceRole {
                role_id: le_i32(b, a),
                role_id2: le_i32(b, a + 4),
            }, r)
        } else if op == 210 {
            post_fixed(b, pc, 8, SceCommand::RoleSetFace {
                role_id: le_i32(b, a),
                direction: le_i32(b, a + 4),
            }, r)
        } else if op == 211 || op == 212 {
            post_fixed(b, pc, 0, SceCommand::Nop, r)
        } else if op == 214 {
            post_fixed(b, pc, 16, SceCommand::RoleMoveTo(SceCommandRoleMoveTo {
                role_id: le_i32(b, a),
                nav_x: le_i32(b, a + 4),
                nav_z: le_i32(b, a + 8),
                unknown: le_i32(b, a + 12),
            }), r)
        } else if op == 221 || op == 250 {
            post_fixed(b, pc, 4, SceCommand::Nop, r)
        } else {
            r == Err::<(SceCommand, usize), SceError>(SceError::UnknownOpcode(le_i32(b, pc)))
        }
}


/// Reads a string argument, advancing past its length prefix and bytes.
pub fn read_str(inst: &[u8], pos: usize) -> (r: Result<(String, usize), SceError>)
    ensures
        match spec_read_str(inst@, pos as int) {
            None => r == Err::<(String, usize), SceError>(SceError::Truncated),
            Some((s, e)) => r matches Ok((t, w)) && t@ == s && w == e,
        },
        r matches Ok((t, w)) ==> pos < w <= inst@.len(),
{
    let (l16, p2) = read_u16(inst, pos)?;
    let l = l16 as usize;
    if l > inst.len() - p2 {
        return Err(SceError::Truncated);
    }
    if l == 0 {
        return Ok((String::new(), p2));
    }
    let content = slice_subrange(inst, p2, p2 + l - 1);
    Ok((gbk_decode(content), p2 + l))
}

/// Reads a string-list argument: u16 count, then per item one discarded
/// tag byte and a string.
pub fn read_list(inst: &[u8], pos: usize) -> (r: Result<(Vec<String>, usize), SceError>)
    ensures
        spec_read_list(inst@, pos as int) is None ==> r == Err::<(Vec<String>, usize), SceError>(
            SceError::Truncated,
        ),
        spec_read_list(inst@, pos as int) matches Some((ss, e)) ==> r matches Ok((v, w))
            && v.deep_view() == ss && w == e,
        r matches Ok((v, w)) ==> pos < w <= inst@.len(),
{
    let (n16, start) = read_u16(inst, pos)?;
    let n = n16 as usize;
    proof {
        assert(start == pos + 2);
        assert(n16 == le_u16(inst@, pos as int));
        assert(spec_read_list(inst@, pos as int) == spec_read_list_items(
            inst@,
            start as int,
            n as nat,
        ));
    }
    let mut acc: Vec<String> = Vec::new();
    let mut cur: usize = start;
    let mut i: usize = 0;
    proof {
        let whole = spec_read_list_items(inst@, start as int, n as nat);
        if whole is Some {
            assert(whole->Some_0.0 =~= acc.deep_view() + whole->Some_0.0);
        }
    }
    while i < n
        invariant
            i <= n,
            pos + 2 <= inst@.len(),
            start == pos + 2,
            n == le_u16(inst@, pos as int) as usize,
            start <= cur,
            cur <= inst@.len(),
            ({
                let whole = spec_read_list_items(inst@, start as int, n as nat);
                let rem = spec_read_list_items(inst@, cur as int, (n - i) as nat);
                match rem {
                    None => whole is None,
                    Some((rest, e)) => whole matches Some((full, e2)) && full == acc.deep_view()
                        + rest && e2 == e,
                }
            }),
        decreases n - i,
    {
        if cur >= inst.len() {
            proof {
                assert(spec_read_list_items(inst@, cur as int, (n - i) as nat) is None);
            }
            return Err(SceError::Truncated);
        }
        let item_pos = cur + 1;
        match read_str(inst, item_pos) {
            Ok((s, p2)) => {
                proof {
                    let rem = spec_read_list_items(inst@, cur as int, (n - i) as nat);
                    let tail = spec_read_list_items(inst@, p2 as int, (n - i - 1) as nat);
                    match tail {
                        None => {
                            assert(rem is None);
                        },
                        Some((r3, e3)) => {
                            assert(rem == Some((seq![s@] + r3, e3)));
                            assert(acc.deep_view() + (seq![s@] + r3) =~= acc.deep_view().push(s@)
                                + r3);
                        },
                    }
                }
                let ghost prev_acc = acc.deep_view();
                acc.push(s);
                proof {
                    assert(acc.deep_view() =~= prev_acc.push(s@));
                }
                cur = p2;
                i = i + 1;
            },
            Err(e) => {
                proof {
                    assert(spec_read_str(inst@, cur + 1) is None);
                    assert(spec_read_list_items(inst@, cur as int, (n - i) as nat) is None);
                }
                return Err(e);
            },
        }
    }
    proof {
        assert(spec_read_list_items(inst@, cur as int, 0) == Some((
            Seq::<Seq<char>>::empty(),
            cur as int,
        )));
        assert(acc.deep_view() + Seq::<Seq<char>>::empty() =~= acc.deep_view());
        let whole = spec_read_list_items(inst@, start as int, n as nat);
        assert(whole matches Some((full, e2)) && full == acc.deep_view() && e2 == cur as int);
    }
    Ok((acc, cur))
}

/// Decodes the flow and comparison opcodes (canonical id up to 17).
fn decode_flow(inst: &[u8], pc: usize, op: u32, a: usize) -> (r: DecodeResult)
    requires
        pc + 4 <= inst@.len(),
        a == pc + 4,
        op == le_u32(inst@, pc as int),
        op == 1 || op == 2 || op == 3 || op == 5 || op == 6 || op == 7 || op == 8 || op == 9 || op == 10 || op == 11 || op == 12 || op == 13 || op == 16 || op == 17 || op == 65542 || op == 65543 || op == 65544 || op == 65545 || op == 65546 || op == 65547 || op == 65549 || op == 65553,
    ensures
        decode_post(inst@, pc as int, r),
        r matches Ok((c, w)) ==> pc < w <= inst@.len() && c.wf(),
{
    match op {
        1 => {
            let (bits, p) = read_u32(inst, a)?;
            Ok((SceCommand::Idle { length_ms: crate::fixp::milli_of_bits(bits), elapsed_ms: 0 }, p))
        },
        2 => {
            let (mode, p) = read_i32(inst, a)?;
            Ok((SceCommand::SetRunMode { mode }, p))
        },
        3 => {
            let (offset, p) = read_u32(inst, a)?;
            Ok((SceCommand::Goto { offset }, p))
        },
        5 => {
            let (fop, p) = read_i32(inst, a)?;
            Ok((SceCommand::Fop { op: fop }, p))
        },
        6 | 65542 => {
            let (var, p1) = read_i16(inst, a)?;
            let (value, p) = read_i32(inst, p1)?;
            Ok((SceCommand::Cmp { kind: CmpKind::Gt, var, value }, p))
        },
        7 | 65543 => {
            let (var, p1) = read_i16(inst, a)?;
            let (value, p) = read_i32(inst, p1)?;
            Ok((SceCommand::Cmp { kind: CmpKind::Ls, var, value }, p))
        },
        8 | 65544 => {
            let (var, p1) = read_i16(inst, a)?;
            let (value, p) = read_i32(inst, p1)?;
            Ok((SceCommand::Cmp { kind: CmpKind::Eq, var, value }, p))
        },
        9 | 65545 => {
            let (var, p1) = read_i16(inst, a)?;
            let (value, p) = read_i32(inst, p1)?;
            Ok((SceCommand::Cmp { kind: CmpKind::Neq, var, value }, p))
        },
        10 | 65546 => {
            let (var, p1) = read_i16(inst, a)?;
            let (value, p) = read_i32(inst, p1)?;
            Ok((SceCommand::Cmp { kind: CmpKind::Geq, var, value }, p))
        },
        11 | 65547 => {
            let (var, p1) = read_i16(inst, a)?;
            let (value, p) = read_i32(inst, p1)?;
            Ok((SceCommand::Cmp { kind: CmpKind::Leq, var, value }, p))
        },
        12 => {
            let (offset, p) = read_u32(inst, a)?;
            Ok((SceCommand::TestGoto { offset }, p))
        },
        13 | 65549 => {
            let (var, p1) = read_i16(inst, a)?;
            let (value, p) = read_i32(inst, p1)?;
            Ok((SceCommand::Let { var, value }, p))
        },
        16 => {
            let (proc_id, p) = read_u32(inst, a)?;
            Ok((SceCommand::Call { proc_id }, p))
        },
        17 | 65553 => {
            let (var, p1) = read_i16(inst, a)?;
            let (upper, p) = read_i32(inst, p1)?;
            Ok((SceCommand::Rnd { var, upper }, p))
        },
        _ => Err(SceError::UnknownOpcode(op as i32)),
    }
}

/// Decodes the role, camera and dialog opcodes (canonical ids 18 to 103).
fn decode_role(inst: &[u8], pc: usize, op: u32, a: usize) -> (r: DecodeResult)
    requires
        pc + 4 <= inst@.len(),
        a == pc + 4,
        op == le_u32(inst@, pc as int),
        op == 20 || op == 21 || op == 22 || op == 23 || op == 24 || op == 27 || op == 28 || op == 32 || op == 33 || op == 34 || op == 35 || op == 36 || op == 37 || op == 46 || op == 62 || op == 63 || op == 65 || op == 66 || op == 67 || op == 68 || op == 69 || op == 70 || op == 71 || op == 72 || op == 78 || op == 79 || op == 85 || op == 86 || op == 87 || op == 88 || op == 89 || op == 90 || op == 65602,
    ensures
        decode_post(inst@, pc as int, r),
        r matches Ok((c, w)) ==> pc < w <= inst@.len() && c.wf(),
{
    match op {
        20 => {
            let (role_id, p1) = read_i32(inst, a)?;
            let (nav_x, p2) = read_i32(inst, p1)?;
            let (nav_z, p3) = read_i32(inst, p2)?;
            let (unknown, p) = read_i32(inst, p3)?;
            Ok((
                SceCommand::RolePathTo(SceCommandRoleMoveTo { role_id, nav_x, nav_z, unknown }),
                p,
            ))
        },
        21 => {
            let (role_id, p1) = read_i32(inst, a)?;
            let (nav_x, p2) = read_i32(inst, p1)?;
            let (nav_z, p) = read_i32(inst, p2)?;
            Ok((SceCommand::RoleSetPos { role_id, nav_x, nav_z }, p))
        },
        22 => {
            let (role_id, p1) = read_i32(inst, a)?;
            let (action_name, p2) = read_str(inst, p1)?;
            let (repeat_mode, p) = read_i32(inst, p2)?;
            Ok((SceCommand::RoleShowAction { role_id, action_name, repeat_mode }, p))
        },
        23 => {
            let (role_id, p1) = read_i32(inst, a)?;
            let (direction, p) = read_i32(inst, p1)?;
            Ok((SceCommand::RoleSetFace { role_id, direction }, p))
        },
        24 => {
            let (role_id, p1) = read_i32(inst, a)?;
            let (degree_bits, p) = read_u32(inst, p1)?;
            Ok((SceCommand::RoleTurnFace { role_id, degree_bits }, p))
        },
        27 => {
            let (enable_input, p) = read_i32(inst, a)?;
            Ok((SceCommand::RoleInput { enable_input }, p))
        },
        28 => {
            let (role_id, p1) = read_i32(inst, a)?;
            let (active, p) = read_i32(inst, p1)?;
            Ok((SceCommand::RoleActive { role_id, active }, p))
        },
        32 => {
            let (_x, p1) = read_u32(inst, a)?;
            let (_y, p2) = read_u32(inst, p1)?;
            let (_z, p) = read_i32(inst, p2)?;
            Ok((SceCommand::Nop, p))
        },
        33 | 35 => {
            let (_x, p1) = read_u32(inst, a)?;
            let (_y, p2) = read_u32(inst, p1)?;
            let (_z, p3) = read_u32(inst, p2)?;
            let (_w, p) = read_i32(inst, p3)?;
            Ok((SceCommand::Nop, p))
        },
        34 => {
            let (x_bits, p1) = read_u32(inst, a)?;
            let (y_bits, p2) = read_u32(inst, p1)?;
            let (z_bits, p3) = read_u32(inst, p2)?;
            let (u1_bits, p4) = read_u32(inst, p3)?;
            let (u2_bits, p) = read_u32(inst, p4)?;
            Ok((SceCommand::CameraMove { x_bits, y_bits, z_bits, u1_bits, u2_bits }, p))
        },
        36 => {
            let (y_rot_bits, p1) = read_u32(inst, a)?;
            let (x_rot_bits, p2) = read_u32(inst, p1)?;
            let (unknown_bits, p3) = read_u32(inst, p2)?;
            let (x_bits, p4) = read_u32(inst, p3)?;
            let (y_bits, p5) = read_u32(inst, p4)?;
            let (z_bits, p) = read_u32(inst, p5)?;
            Ok((
                SceCommand::CameraSet {
                    y_rot_bits,
                    x_rot_bits,
                    unknown_bits,
                    x_bits,
                    y_bits,
                    z_bits,
                },
                p,
            ))
        },
        37 => {
            let (unknown, p) = read_i32(inst, a)?;
            Ok((SceCommand::CameraDefault { unknown }, p))
        },
        46 | 72 => {
            let (_x, p1) = read_i32(inst, a)?;
            let (_y, p) = read_i32(inst, p1)?;
            Ok((SceCommand::Nop, p))
        },
        71 | 87 | 88 => {
            let (_x, p) = read_i32(inst, a)?;
            Ok((SceCommand::Nop, p))
        },
        78 => {
            let (item_id, p) = read_i32(inst, a)?;
            Ok((SceCommand::HaveItem { item_id }, p))
        },
        85 => {
            let (object_id, p1) = read_i32(inst, a)?;
            let (active, p) = read_i32(inst, p1)?;
            Ok((SceCommand::ObjectActive { object_id, active }, p))
        },
        89 => {
            let (x_bits, p1) = read_u32(inst, a)?;
            let (y_bits, p2) = read_u32(inst, p1)?;
            let (z_bits, p) = read_u32(inst, p2)?;
            Ok((SceCommand::HyFly { x_bits, y_bits, z_bits }, p))
        },
        90 => {
            let (_o, p1) = read_i32(inst, a)?;
            let (_x, p2) = read_u32(inst, p1)?;
            let (_y, p3) = read_u32(inst, p2)?;
            let (_z, p4) = read_u32(inst, p3)?;
            let (_w, p) = read_u32(inst, p4)?;
            Ok((SceCommand::Nop, p))
        },
        62 => {
            let (text, p) = read_str(inst, a)?;
            Ok((SceCommand::Dlg { text }, p))
        },
        63 => {
            let (name, p1) = read_str(inst, a)?;
            let (sub_name, p) = read_str(inst, p1)?;
            Ok((SceCommand::LoadScene { name, sub_name }, p))
        },
        65 => {
            let (options, p) = read_list(inst, a)?;
            Ok((SceCommand::DlgSel { options }, p))
        },
        66 | 65602 => {
            let (var, p) = read_i16(inst, a)?;
            Ok((SceCommand::GetDlgSel { var }, p))
        },
        67 => {
            let (_x, p1) = read_i32(inst, a)?;
            let (_s, p2) = read_str(inst, p1)?;
            let (_y, p) = read_i32(inst, p2)?;
            Ok((SceCommand::Nop, p))
        },
        68 => {
            let (_s, p) = read_str(inst, a)?;
            Ok((SceCommand::Nop, p))
        },
        69 | 70 => Ok((SceCommand::Nop, a)),
        79 => {
            let (name, p1) = read_str(inst, a)?;
            let (repeat, p) = read_i32(inst, p1)?;
            Ok((SceCommand::PlaySound { name, repeat }, p))
        },
        86 => {
            let (_s, p1) = read_str(inst, a)?;
            let (_x, p) = read_i32(inst, p1)?;
            Ok((SceCommand::Nop, p))
        },
        _ => Err(SceError::UnknownOpcode(op as i32)),
    }
}

/// Decodes the remaining opcodes (canonical ids 104 and up).
fn decode_misc(inst: &[u8], pc: usize, op: u32, a: usize) -> (r: DecodeResult)
    requires
        pc + 4 <= inst@.len(),
        a == pc + 4,
        op == le_u32(inst@, pc as int),
        op == 104 || op == 108 || op == 115 || op == 116 || op == 118 || op == 124 || op == 133 || op == 134 || op == 142 || op == 143 || op == 148 || op == 150 || op == 201 || op == 202 || op == 204 || op == 207 || op == 208 || op == 209 || op == 210 || op == 211 || op == 212 || op == 214 || op == 221 || op == 250 || op == 65644,
    ensures
        decode_post(inst@, pc as int, r),
        r matches Ok((c, w)) ==> pc < w <= inst@.len() && c.wf(),
{
    match op {
        210 => {
            let (role_id, p1) = read_i32(inst, a)?;
            let (direction, p) = read_i32(inst, p1)?;
            Ok((SceCommand::RoleSetFace { role_id, direction }, p))
        },
        202 => {
            let (_x, p1) = read_i32(inst, a)?;
            let (_y, p) = read_i32(inst, p1)?;
            Ok((SceCommand::Nop, p))
        },
        124 | 143 | 148 | 221 | 250 => {
            let (_x, p) = read_i32(inst, a)?;
            Ok((SceCommand::Nop, p))
        },
        118 => {
            let (_x, p1) = read_u32(inst, a)?;
            let (_y, p) = read_u32(inst, p1)?;
            Ok((SceCommand::Nop, p))
        },
        115 => {
            let (_s, p) = read_str(inst, a)?;
            Ok((SceCommand::Nop, p))
        },
        104 | 211 | 212 => Ok((SceCommand::Nop, a)),
        108 | 65644 => {
            let (var, p) = read_i16(inst, a)?;
            Ok((SceCommand::GetAppr { var }, p))
        },
        116 | 150 => {
            let (_x, p1) = read_i32(inst, a)?;
            let (_s, p) = read_str(inst, p1)?;
            Ok((SceCommand::Nop, p))
        },
        133 => {
            let (name, p1) = read_str(inst, a)?;
            let (unknown, p) = read_i32(inst, p1)?;
            Ok((SceCommand::Music { name, unknown }, p))
        },
        134 => Ok((SceCommand::StopMusic, a)),
        142 => {
            let (_x, p1) = read_u32(inst, a)?;
            let (_y, p2) = read_u32(inst, p1)?;
            let (_z, p) = read_u32(inst, p2)?;
            Ok((SceCommand::Nop, p))
        },
        201 => {
            let (role_id, p1) = read_i32(inst, a)?;
            let (nav_x, p2) = read_i32(inst, p1)?;
            let (nav_z, p3) = read_i32(inst, p2)?;
            let (unknown, p) = read_i32(inst, p3)?;
            Ok((
                SceCommand::RolePathOut(SceCommandRoleMoveTo { role_id, nav_x, nav_z, unknown }),
                p,
            ))
        },
        204 => {
            let (role_id, p) = read_i32(inst, a)?;
            Ok((SceCommand::RoleCtrl { role_id }, p))
        },
        207 => {
            let (role_id, p1) = read_i32(inst, a)?;
            let (auto_play_idle, p) = read_i32(inst, p1)?;
            Ok((SceCommand::RoleActAutoStand { role_id, auto_play_idle }, p))
        },
        208 => {
            let (role_id, p1) = read_i32(inst, a)?;
            let (bits, p) = read_u32(inst, p1)?;
            Ok((
                SceCommand::RoleMoveBack(SceCommandRoleMoveBack {
                    role_id,
                    speed_mu: crate::fixp::milli_of_bits(bits),
                }),
                p,
            ))
        },
        209 => {
            let (role_id, p1) = read_i32(inst, a)?;
            let (role_id2, p) = read_i32(inst, p1)?;
            Ok((SceCommand::RoleFaceRole { role_id, role_id2 }, p))
        },
        214 => {
            let (role_id, p1) = read_i32(inst, a)?;
            let (nav_x, p2) = read_i32(inst, p1)?;
            let (nav_z, p3) = read_i32(inst, p2)?;
            let (unknown, p) = read_i32(inst, p3)?;
            Ok((
                SceCommand::RoleMoveTo(SceCommandRoleMoveTo { role_id, nav_x, nav_z, unknown }),
                p,
            ))
        },
        _ => Err(SceError::UnknownOpcode(op as i32)),
    }
}

/// Decodes the opcode record at `pc`: the command with its arguments
/// bound in declaration order, and the position just past the record.
/// On `Truncated` or `UnknownOpcode` the buffer position is not moved.
pub fn decode_cmd(inst: &[u8], pc: usize) -> (r: DecodeResult)
    ensures
        decode_post(inst@, pc as int, r),
        r matches Ok((c, w)) ==> pc < w <= inst@.len() && c.wf(),
{
    let (op, a) = read_u32(inst, pc)?;
    match op {
        1 | 2 | 3 | 5 | 6 | 7 | 8 | 9 | 10 | 11 | 12 | 13 | 16 | 17 | 65542 | 65543 | 65544 | 65545 | 65546 | 65547 | 65549 | 65553 => decode_flow(inst, pc, op, a),
        20 | 21 | 22 | 23 | 24 | 27 | 28 | 32 | 33 | 34 | 35 | 36 | 37 | 46 | 62 | 63 | 65 | 66 | 67 | 68 | 69 | 70 | 71 | 72 | 78 | 79 | 85 | 86 | 87 | 88 | 89 | 90 | 65602 => decode_role(inst, pc, op, a),
        104 | 108 | 115 | 116 | 118 | 124 | 133 | 134 | 142 | 143 | 148 | 150 | 201 | 202 | 204 | 207 | 208 | 209 | 210 | 211 | 212 | 214 | 221 | 250 | 65644 => decode_misc(inst, pc, op, a),
        _ => Err(SceError::UnknownOpcode(op as i32)),
    }
}

} // verus!
