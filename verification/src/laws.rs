use vstd::prelude::*;

verus! {

use crate::bytes_le::{le_u16, le_u32, le_i16, le_i32};
use crate::context::spec_drain;
use crate::dispatch::{decode_post, DecodeResult, canon_op};
use crate::frame::SceProcContext;
use crate::scefile::SceFile;
use crate::ticks::stack_local_set;

/// An opcode with bit 16 set decodes to the same command, with the same
/// arguments, as its base form: two buffers holding the two forms of one
/// instruction with equal argument bytes yield equal commands, advanced
/// by the same number of bytes. One lemma covers the slot-and-immediate
/// family, the other the slot readers.
/// Equal argument bytes read as equal slot and immediate values.
proof fn lemma_arg_bytes_eq(b1: Seq<u8>, pc1: int, b2: Seq<u8>, pc2: int)
    requires
        0 <= pc1,
        0 <= pc2,
        pc1 + 10 <= b1.len(),
        pc2 + 10 <= b2.len(),
        b1.subrange(pc1 + 4, pc1 + 10) == b2.subrange(pc2 + 4, pc2 + 10),
    ensures
        le_i16(b1, pc1 + 4) == le_i16(b2, pc2 + 4),
        le_i32(b1, pc1 + 6) == le_i32(b2, pc2 + 6),
{
    assert(b1[pc1 + 4] == b1.subrange(pc1 + 4, pc1 + 10)[0]);
    assert(b1[pc1 + 5] == b1.subrange(pc1 + 4, pc1 + 10)[1]);
    assert(b1[pc1 + 6] == b1.subrange(pc1 + 4, pc1 + 10)[2]);
    assert(b1[pc1 + 7] == b1.subrange(pc1 + 4, pc1 + 10)[3]);
    assert(b1[pc1 + 8] == b1.subrange(pc1 + 4, pc1 + 10)[4]);
    assert(b1[pc1 + 9] == b1.subrange(pc1 + 4, pc1 + 10)[5]);
    assert(b2[pc2 + 4] == b2.subrange(pc2 + 4, pc2 + 10)[0]);
    assert(b2[pc2 + 5] == b2.subrange(pc2 + 4, pc2 + 10)[1]);
    assert(b2[pc2 + 6] == b2.subrange(pc2 + 4, pc2 + 10)[2]);
    assert(b2[pc2 + 7] == b2.subrange(pc2 + 4, pc2 + 10)[3]);
    assert(b2[pc2 + 8] == b2.subrange(pc2 + 4, pc2 + 10)[4]);
    assert(b2[pc2 + 9] == b2.subrange(pc2 + 4, pc2 + 10)[5]);
    assert(le_u16(b1, pc1 + 4) == le_u16(b2, pc2 + 4));
    assert(le_u32(b1, pc1 + 6) == le_u32(b2, pc2 + 6));
}

#[verifier::rlimit(100)]
pub proof fn lemma_alias_equivalence_cmp(
    b1: Seq<u8>,
    pc1: int,
    r1: DecodeResult,
    b2: Seq<u8>,
    pc2: int,
    r2: DecodeResult,
    base: u32,
)
    requires
        base == 6 || base == 7 || base == 8 || base == 9 || base == 10 || base == 11 || base == 13
            || base == 17,
        0 <= pc1,
        0 <= pc2,
        pc1 + 10 <= b1.len() <= usize::MAX,
        pc2 + 10 <= b2.len() <= usize::MAX,
        le_u32(b1, pc1) == base,
        le_u32(b2, pc2) == base + 0x10000,
        b1.subrange(pc1 + 4, pc1 + 10) == b2.subrange(pc2 + 4, pc2 + 10),
        decode_post(b1, pc1, r1),
        decode_post(b2, pc2, r2),
    ensures
        r1 matches Ok((c1, w1)) && r2 matches Ok((c2, w2)) && c1 == c2 && w1 - pc1 == w2 - pc2,
{
    lemma_arg_bytes_eq(b1, pc1, b2, pc2);
    if base == 6 {
        lemma_alias_cmp_6(b1, pc1, r1, b2, pc2, r2);
    } else if base == 7 {
        lemma_alias_cmp_7(b1, pc1, r1, b2, pc2, r2);
    } else if base == 8 {
        lemma_alias_cmp_8(b1, pc1, r1, b2, pc2, r2);
    } else if base == 9 {
        lemma_alias_cmp_9(b1, pc1, r1, b2, pc2, r2);
    } else if base == 10 {
        lemma_alias_cmp_10(b1, pc1, r1, b2, pc2, r2);
    } else if base == 11 {
        lemma_alias_cmp_11(b1, pc1, r1, b2, pc2, r2);
    } else if base == 13 {
        lemma_alias_cmp_13(b1, pc1, r1, b2, pc2, r2);
    } else {
        lemma_alias_cmp_17(b1, pc1, r1, b2, pc2, r2);
    }
}

#[verifier::rlimit(100)]
proof fn lemma_alias_cmp_6(b1: Seq<u8>, pc1: int, r1: DecodeResult, b2: Seq<u8>, pc2: int, r2: DecodeResult)
    requires
        0 <= pc1,
        0 <= pc2,
        pc1 + 10 <= b1.len() <= usize::MAX,
        pc2 + 10 <= b2.len() <= usize::MAX,
        le_u32(b1, pc1) == 6,
        le_u32(b2, pc2) == 6 + 0x10000,
        le_i16(b1, pc1 + 4) == le_i16(b2, pc2 + 4),
        le_i32(b1, pc1 + 6) == le_i32(b2, pc2 + 6),
        decode_post(b1, pc1, r1),
        decode_post(b2, pc2, r2),
    ensures
        r1 matches Ok((c1, w1)) && r2 matches Ok((c2, w2)) && c1 == c2 && w1 - pc1 == w2 - pc2,
{
    assert(canon_op(le_u32(b2, pc2)) == 6);
}

#[verifier::rlimit(100)]
proof fn lemma_alias_cmp_7(b1: Seq<u8>, pc1: int, r1: DecodeResult, b2: Seq<u8>, pc2: int, r2: DecodeResult)
    requires
        0 <= pc1,
        0 <= pc2,
        pc1 + 10 <= b1.len() <= usize::MAX,
        pc2 + 10 <= b2.len() <= usize::MAX,
        le_u32(b1, pc1) == 7,
        le_u32(b2, pc2) == 7 + 0x10000,
        le_i16(b1, pc1 + 4) == le_i16(b2, pc2 + 4),
        le_i32(b1, pc1 + 6) == le_i32(b2, pc2 + 6),
        decode_post(b1, pc1, r1),
        decode_post(b2, pc2, r2),
    ensures
        r1 matches Ok((c1, w1)) && r2 matches Ok((c2, w2)) && c1 == c2 && w1 - pc1 == w2 - pc2,
{
    assert(canon_op(le_u32(b2, pc2)) == 7);
}

#[verifier::rlimit(100)]
proof fn lemma_alias_cmp_8(b1: Seq<u8>, pc1: int, r1: DecodeResult, b2: Seq<u8>, pc2: int, r2: DecodeResult)
    requires
        0 <= pc1,
        0 <= pc2,
        pc1 + 10 <= b1.len() <= usize::MAX,
        pc2 + 10 <= b2.len() <= usize::MAX,
        le_u32(b1, pc1) == 8,
        le_u32(b2, pc2) == 8 + 0x10000,
        le_i16(b1, pc1 + 4) == le_i16(b2, pc2 + 4),
        le_i32(b1, pc1 + 6) == le_i32(b2, pc2 + 6),
        decode_post(b1, pc1, r1),
        decode_post(b2, pc2, r2),
    ensures
        r1 matches Ok((c1, w1)) && r2 matches Ok((c2, w2)) && c1 == c2 && w1 - pc1 == w2 - pc2,
{
    assert(canon_op(le_u32(b2, pc2)) == 8);
}

#[verifier::rlimit(100)]
proof fn lemma_alias_cmp_9(b1: Seq<u8>, pc1: int, r1: DecodeResult, b2: Seq<u8>, pc2: int, r2: DecodeResult)
    requires
        0 <= pc1,
        0 <= pc2,
        pc1 + 10 <= b1.len() <= usize::MAX,
        pc2 + 10 <= b2.len() <= usize::MAX,
        le_u32(b1, pc1) == 9,
        le_u32(b2, pc2) == 9 + 0x10000,
        le_i16(b1, pc1 + 4) == le_i16(b2, pc2 + 4),
        le_i32(b1, pc1 + 6) == le_i32(b2, pc2 + 6),
        decode_post(b1, pc1, r1),
        decode_post(b2, pc2, r2),
    ensures
        r1 matches Ok((c1, w1)) && r2 matches Ok((c2, w2)) && c1 == c2 && w1 - pc1 == w2 - pc2,
{
    assert(canon_op(le_u32(b2, pc2)) == 9);
}

#[verifier::rlimit(100)]
proof fn lemma_alias_cmp_10(b1: Seq<u8>, pc1: int, r1: DecodeResult, b2: Seq<u8>, pc2: int, r2: DecodeResult)
    requires
        0 <= pc1,
        0 <= pc2,
        pc1 + 10 <= b1.len() <= usize::MAX,
        pc2 + 10 <= b2.len() <= usize::MAX,
        le_u32(b1, pc1) == 10,
        le_u32(b2, pc2) == 10 + 0x10000,
        le_i16(b1, pc1 + 4) == le_i16(b2, pc2 + 4),
        le_i32(b1, pc1 + 6) == le_i32(b2, pc2 + 6),
        decode_post(b1, pc1, r1),
        decode_post(b2, pc2, r2),
    ensures
        r1 matches Ok((c1, w1)) && r2 matches Ok((c2, w2)) && c1 == c2 && w1 - pc1 == w2 - pc2,
{
    assert(canon_op(le_u32(b2, pc2)) == 10);
}

#[verifier::rlimit(100)]
proof fn lemma_alias_cmp_11(b1: Seq<u8>, pc1: int, r1: DecodeResult, b2: Seq<u8>, pc2: int, r2: DecodeResult)
    requires
        0 <= pc1,
        0 <= pc2,
        pc1 + 10 <= b1.len() <= usize::MAX,
        pc2 + 10 <= b2.len() <= usize::MAX,
        le_u32(b1, pc1) == 11,
        le_u32(b2, pc2) == 11 + 0x10000,
        le_i16(b1, pc1 + 4) == le_i16(b2, pc2 + 4),
        le_i32(b1, pc1 + 6) == le_i32(b2, pc2 + 6),
        decode_post(b1, pc1, r1),
        decode_post(b2, pc2, r2),
    ensures
        r1 matches Ok((c1, w1)) && r2 matches Ok((c2, w2)) && c1 == c2 && w1 - pc1 == w2 - pc2,
{
    assert(canon_op(le_u32(b2, pc2)) == 11);
}

#[verifier::rlimit(100)]
proof fn lemma_alias_cmp_13(b1: Seq<u8>, pc1: int, r1: DecodeResult, b2: Seq<u8>, pc2: int, r2: DecodeResult)
    requires
        0 <= pc1,
        0 <= pc2,
        pc1 + 10 <= b1.len() <= usize::MAX,
        pc2 + 10 <= b2.len() <= usize::MAX,
        le_u32(b1, pc1) == 13,
        le_u32(b2, pc2) == 13 + 0x10000,
        le_i16(b1, pc1 + 4) == le_i16(b2, pc2 + 4),
        le_i32(b1, pc1 + 6) == le_i32(b2, pc2 + 6),
        decode_post(b1, pc1, r1),
        decode_post(b2, pc2, r2),
    ensures
        r1 matches Ok((c1, w1)) && r2 matches Ok((c2, w2)) && c1 == c2 && w1 - pc1 == w2 - pc2,
{
    assert(canon_op(le_u32(b2, pc2)) == 13);
}

#[verifier::rlimit(100)]
proof fn lemma_alias_cmp_17(b1: Seq<u8>, pc1: int, r1: DecodeResult, b2: Seq<u8>, pc2: int, r2: DecodeResult)
    requires
        0 <= pc1,
        0 <= pc2,
        pc1 + 10 <= b1.len() <= usize::MAX,
        pc2 + 10 <= b2.len() <= usize::MAX,
        le_u32(b1, pc1) == 17,
        le_u32(b2, pc2) == 17 + 0x10000,
        le_i16(b1, pc1 + 4) == le_i16(b2, pc2 + 4),
        le_i32(b1, pc1 + 6) == le_i32(b2, pc2 + 6),
        decode_post(b1, pc1, r1),
        decode_post(b2, pc2, r2),
    ensures
        r1 matches Ok((c1, w1)) && r2 matches Ok((c2, w2)) && c1 == c2 && w1 - pc1 == w2 - pc2,
{
    assert(canon_op(le_u32(b2, pc2)) == 17);
}

#[verifier::rlimit(100)]
pub proof fn lemma_alias_equivalence_slot(
    b1: Seq<u8>,
    pc1: int,
    r1: DecodeResult,
    b2: Seq<u8>,
    pc2: int,
    r2: DecodeResult,
    base: u32,
)
    requires
        base == 66 || base == 108,
        0 <= pc1,
        0 <= pc2,
        pc1 + 6 <= b1.len() <= usize::MAX,
        pc2 + 6 <= b2.len() <= usize::MAX,
        le_u32(b1, pc1) == base,
        le_u32(b2, pc2) == base + 0x10000,
        b1.subrange(pc1 + 4, pc1 + 6) == b2.subrange(pc2 + 4, pc2 + 6),
        decode_post(b1, pc1, r1),
        decode_post(b2, pc2, r2),
    ensures
        r1 matches Ok((c1, w1)) && r2 matches Ok((c2, w2)) && c1 == c2 && w1 - pc1 == w2 - pc2,
{
    assert(canon_op(le_u32(b2, pc2)) == base);
    assert(b1.subrange(pc1 + 4, pc1 + 6)[0] == b1[pc1 + 4]);
    assert(b2.subrange(pc2 + 4, pc2 + 6)[0] == b2[pc2 + 4]);
    assert(b1.subrange(pc1 + 4, pc1 + 6)[1] == b1[pc1 + 5]);
    assert(b2.subrange(pc2 + 4, pc2 + 6)[1] == b2[pc2 + 5]);
    assert(le_i16(b1, pc1 + 4) == le_i16(b2, pc2 + 4));
}

/// Frame isolation: after a call pushes a fresh frame and the callee
/// writes a local, every frame of the caller's stack, locals included,
/// is exactly what it was.
pub proof fn lemma_frame_isolation(
    s0: Seq<SceProcContext>,
    s1: Seq<SceProcContext>,
    s2: Seq<SceProcContext>,
    callee: SceProcContext,
    var: i16,
    value: i32,
    j: int,
)
    requires
        s1 == s0.push(callee),
        stack_local_set(s1, s2, var, value),
        0 <= j < s0.len(),
    ensures
        s2[j] == s0[j],
{
    assert(s1.drop_last() =~= s0);
    assert(s2.drop_last()[j] == s0[j]);
    assert(s2[j] == s2.drop_last()[j]);
}

/// Completion drain: when the top activation has run off its end and
/// the one beneath has not, draining pops exactly the spent one, so the
/// next command comes from the caller's frame.
pub proof fn lemma_completion_drain(stack: Seq<SceProcContext>, sce: &SceFile)
    requires
        stack.len() >= 2,
        stack.last().spec_completed(sce),
        !stack.drop_last().last().spec_completed(sce),
    ensures
        spec_drain(stack, sce) == stack.drop_last(),
{
    assert(spec_drain(stack, sce) == spec_drain(stack.drop_last(), sce));
}

/// Dialog round trip: a selection command completing with index `k`
/// stores `k` in the top frame's selection slot, and the read that
/// follows binds its local to that very `k`.
pub proof fn lemma_dlg_round_trip(
    a: Seq<SceProcContext>,
    b: Seq<SceProcContext>,
    c: Seq<SceProcContext>,
    k: i32,
    var: i16,
)
    requires
        a.len() > 0,
        b.len() == a.len(),
        b.drop_last() == a.drop_last(),
        b.last() == (SceProcContext { dlgsel: k, ..a.last() }),
        stack_local_set(b, c, var, b.last().dlgsel),
    ensures
        c.last().spec_local(var) == Some(k),
{
}

} // verus!
