use vstd::prelude::*;

verus! {

/// Little-endian readers for the primitive widths the instruction
/// stream uses. Each exec reader returns the decoded value together
/// with the position just past the bytes it consumed, or
/// `SceError::Truncated` when the read would pass the end of the buffer.
use crate::SceError;

pub open spec fn le_u16(b: Seq<u8>, pos: int) -> u16 {
    (b[pos] + b[pos + 1] * 0x100) as u16
}

pub open spec fn le_u32(b: Seq<u8>, pos: int) -> u32 {
    (b[pos] + b[pos + 1] * 0x100 + b[pos + 2] * 0x10000 + b[pos + 3] * 0x1000000) as u32
}

/// The i16 read: the same bytes as `le_u16`, reinterpreted as two's complement.
pub open spec fn le_i16(b: Seq<u8>, pos: int) -> i16 {
    le_u16(b, pos) as i16
}

/// The i32 read: the same bytes as `le_u32`, reinterpreted as two's complement.
pub open spec fn le_i32(b: Seq<u8>, pos: int) -> i32 {
    le_u32(b, pos) as i32
}

pub fn read_u16(inst: &[u8], pos: usize) -> (r: Result<(u16, usize), SceError>)
    ensures
        r matches Ok((v, p)) ==> pos + 2 <= inst@.len() && v == le_u16(inst@, pos as int) && p
            == pos + 2,
        pos + 2 > inst@.len() ==> r == Err::<(u16, usize), SceError>(SceError::Truncated),
        pos + 2 <= inst@.len() ==> r is Ok,
{
    if pos < inst.len() && inst.len() - pos >= 2 {
        let b0 = inst[pos] as u16;
        let b1 = inst[pos + 1] as u16;
        Ok((b0 + b1 * 0x100, pos + 2))
    } else {
        Err(SceError::Truncated)
    }
}

pub fn read_u32(inst: &[u8], pos: usize) -> (r: Result<(u32, usize), SceError>)
    ensures
        r matches Ok((v, p)) ==> pos + 4 <= inst@.len() && v == le_u32(inst@, pos as int) && p
            == pos + 4,
        pos + 4 > inst@.len() ==> r == Err::<(u32, usize), SceError>(SceError::Truncated),
        pos + 4 <= inst@.len() ==> r is Ok,
{
    if pos < inst.len() && inst.len() - pos >= 4 {
        let b0 = inst[pos] as u32;
        let b1 = inst[pos + 1] as u32;
        let b2 = inst[pos + 2] as u32;
        let b3 = inst[pos + 3] as u32;
        Ok((b0 + b1 * 0x100 + b2 * 0x10000 + b3 * 0x1000000, pos + 4))
    } else {
        Err(SceError::Truncated)
    }
}

pub fn read_i16(inst: &[u8], pos: usize) -> (r: Result<(i16, usize), SceError>)
    ensures
        r matches Ok((v, p)) ==> pos + 2 <= inst@.len() && v == le_i16(inst@, pos as int) && p
            == pos + 2,
        pos + 2 > inst@.len() ==> r == Err::<(i16, usize), SceError>(SceError::Truncated),
        pos + 2 <= inst@.len() ==> r is Ok,
{
    match read_u16(inst, pos) {
        Ok((v, p)) => Ok((v as i16, p)),
        Err(e) => Err(e),
    }
}

pub fn read_i32(inst: &[u8], pos: usize) -> (r: Result<(i32, usize), SceError>)
    ensures
        r matches Ok((v, p)) ==> pos + 4 <= inst@.len() && v == le_i32(inst@, pos as int) && p
            == pos + 4,
        pos + 4 > inst@.len() ==> r == Err::<(i32, usize), SceError>(SceError::Truncated),
        pos + 4 <= inst@.len() ==> r is Ok,
{
    match read_u32(inst, pos) {
        Ok((v, p)) => Ok((v as i32, p)),
        Err(e) => Err(e),
    }
}

} // verus!
