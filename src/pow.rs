use vstd::prelude::*;

use crate::block::Header;
use crate::error::EquihashError;

verus! {

/// Equihash width parameter of the Zcash proof of work.
pub const EQUIHASH_N: u32 = 200;

/// Equihash length parameter of the Zcash proof of work.
pub const EQUIHASH_K: u32 = 9;

#[verifier::external_type_specification]
#[verifier::external_body]
pub struct ExEquihashVerifyError(equihash::Error);

/// Whether the Equihash verifier with parameters `(n, k)` accepts `solution`
/// for the puzzle given by `input` and `nonce`.
pub uninterp spec fn equihash_accepts(
    n: u32,
    k: u32,
    input: Seq<u8>,
    nonce: Seq<u8>,
    solution: Seq<u8>,
) -> bool;

/// Relies on `equihash::is_valid_solution`: `Ok` exactly when `solution` solves the
/// puzzle of `(input, nonce)`, a pure function of its arguments. With `n = 200`
/// and `k = 9` it answers an error, and does not panic, on a solution of any length.
#[verifier::external_body]
fn is_valid_solution(n: u32, k: u32, input: &Vec<u8>, nonce: &[u8; 32], solution: &Vec<u8>) -> (r:
    Result<(), equihash::Error>)
    requires
        n == EQUIHASH_N,
        k == EQUIHASH_K,
    ensures
        r is Ok <==> equihash_accepts(n, k, input@, nonce@, solution@),
{
    equihash::is_valid_solution(n, k, input, nonce, solution)
}

/// The four little-endian bytes of `x`.
pub open spec fn le_bytes(x: u32) -> Seq<u8> {
    seq![
        (x % 0x100) as u8,
        (x / 0x100 % 0x100) as u8,
        (x / 0x1_0000 % 0x100) as u8,
        (x / 0x100_0000) as u8,
    ]
}

/// The serialized header up to, and without, the nonce: the part of the
/// Equihash input that stays fixed while a miner searches.
pub open spec fn equihash_input(h: Header) -> Seq<u8> {
    le_bytes(h.version) + h.previous_block_hash@ + h.merkle_root@ + h.commitment_bytes@
        + le_bytes(h.time) + le_bytes(h.difficulty_threshold)
}

/// The header's Equihash solution solves the puzzle given by its other fields.
pub open spec fn solution_is_valid(h: Header) -> bool {
    equihash_accepts(EQUIHASH_N, EQUIHASH_K, equihash_input(h), h.nonce@, h.solution@)
}

fn push_le_bytes(out: &mut Vec<u8>, x: u32)
    ensures
        final(out)@ == old(out)@ + le_bytes(x),
{
    out.push((x % 0x100) as u8);
    out.push((x / 0x100 % 0x100) as u8);
    out.push((x / 0x1_0000 % 0x100) as u8);
    out.push((x / 0x100_0000) as u8);
    assert(final(out)@ =~= old(out)@ + le_bytes(x));
}

fn push_bytes(out: &mut Vec<u8>, bytes: &[u8; 32])
    ensures
        final(out)@ == old(out)@ + bytes@,
{
    let mut i: usize = 0;
    while i < 32
        invariant
            i <= 32,
            bytes@.len() == 32,
            out@ == old(out)@ + bytes@.subrange(0, i as int),
        decreases 32 - i,
    {
        out.push(bytes[i]);
        assert(bytes@.subrange(0, i + 1) =~= bytes@.subrange(0, i as int).push(bytes@[i as int]));
        i += 1;
    }
    assert(bytes@.subrange(0, 32) =~= bytes@);
}

impl Header {
    /// The bytes that the Equihash solution of this header is checked against,
    /// besides the nonce.
    pub fn equihash_input(&self) -> (r: Vec<u8>)
        ensures
            r@ == equihash_input(*self),
    {
        let mut out: Vec<u8> = Vec::new();
        push_le_bytes(&mut out, self.version);
        push_bytes(&mut out, &self.previous_block_hash);
        push_bytes(&mut out, &self.merkle_root);
        push_bytes(&mut out, &self.commitment_bytes);
        push_le_bytes(&mut out, self.time);
        push_le_bytes(&mut out, self.difficulty_threshold);
        assert(out@ =~= equihash_input(*self));
        out
    }
}

/// Checks that the header's Equihash solution solves the puzzle that the rest of
/// the header defines.
pub fn equihash_solution_is_valid(header: &Header) -> (r: Result<(), EquihashError>)
    ensures
        r is Ok <==> solution_is_valid(*header),
        r is Err ==> r == Err::<(), EquihashError>(EquihashError::InvalidSolution),
{
    let input = header.equihash_input();
    match is_valid_solution(EQUIHASH_N, EQUIHASH_K, &input, &header.nonce, &header.solution) {
        Ok(()) => Ok(()),
        Err(_) => Err(EquihashError::InvalidSolution),
    }
}

} // verus!
