use vstd::prelude::*;

verus! {

/// What GBK decoding yields on a byte sequence, with undecodable bytes
/// skipped. The mapping is a pure function of the bytes; the contracts
/// of the string readers speak of it by this name.
pub uninterp spec fn gbk_of(bytes: Seq<u8>) -> Seq<char>;

/// Relies on encoding::all::GBK and Encoding::decode with
/// DecoderTrap::Ignore: the decoded text depends on the input bytes
/// alone, undecodable bytes are skipped rather than failing, and empty
/// input decodes to the empty string.
#[verifier::external_body]
pub fn gbk_decode(bytes: &[u8]) -> (r: String)
    ensures
        r@ == gbk_of(bytes@),
        bytes@.len() == 0 ==> r@.len() == 0,
{
    encoding::types::Encoding::decode(
        encoding::all::GBK,
        bytes,
        encoding::DecoderTrap::Ignore,
    ).unwrap_or_default()
}

} // verus!
