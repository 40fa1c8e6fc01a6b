use vstd::prelude::*;

use crate::state::{Pubkey, PUBKEY_LENGTH};

verus! {

/// The record address and capability seed that the host ledger's addressing
/// scheme derives from a program identity and a record id (together with the
/// fixed namespace tag), or nothing in the statistically improbable case
/// that no capability seed yields a valid address. The derivation is a pure
/// function of these two inputs: it is a fixed sequence of hashes and curve
/// checks, so the same inputs always give the same outcome.
pub uninterp spec fn derived_record_address(program_id: Seq<u8>, id: u8) -> Option<(Seq<u8>, u8)>;

/// Relies on solana_program::pubkey::Pubkey::try_find_program_address, called
/// with the fixed namespace tag, the program identity and the single id byte
/// as seeds: it returns a 32-byte address with no corresponding signing key
/// plus the bump seed, deterministically in its inputs, or None when no bump
/// seed yields such an address.
#[verifier::external_body]
pub(crate) fn try_find_record_address(program_id: &Pubkey, id: u8) -> (r: Option<(Pubkey, u8)>)
    requires
        program_id.wf(),
    ensures
        match r {
            Some(p) => derived_record_address(program_id@, id) == Some((p.0@, p.1)) && p.0@.len()
                == PUBKEY_LENGTH,
            None => derived_record_address(program_id@, id) is None,
        },
{
    let mut arr = [0u8; 32];
    arr.copy_from_slice(program_id.bytes.as_slice());
    let pid = solana_program::pubkey::Pubkey::new_from_array(arr);
    let seeds: &[&[u8]] = &[b"alloy", pid.as_ref(), &[id]];
    match solana_program::pubkey::Pubkey::try_find_program_address(seeds, &pid) {
        Some((key, bump)) => Some((Pubkey { bytes: key.to_bytes().to_vec() }, bump)),
        None => None,
    }
}

/// Derive the record address and capability seed for `id` under this
/// program's identity. Every handler re-derives this and rejects a supplied
/// account that does not match; the capability seed authorizes the program
/// to write at the derived address.
pub fn derive_record_address(program_id: &Pubkey, id: u8) -> (r: Option<(Pubkey, u8)>)
    requires
        program_id.wf(),
    ensures
        match r {
            Some(p) => derived_record_address(program_id@, id) == Some((p.0@, p.1)) && p.0@.len()
                == PUBKEY_LENGTH,
            None => derived_record_address(program_id@, id) is None,
        },
{
    try_find_record_address(program_id, id)
}

/// Determinism of the derivation: any two outcomes obtained for the same
/// program identity and id are the same address and the same capability
/// seed.
pub proof fn lemma_derivation_deterministic(
    program_id: Seq<u8>,
    id: u8,
    r1: Option<(Seq<u8>, u8)>,
    r2: Option<(Seq<u8>, u8)>,
)
    requires
        r1 == derived_record_address(program_id, id),
        r2 == derived_record_address(program_id, id),
    ensures
        r1 == r2,
{
}

} // verus!
