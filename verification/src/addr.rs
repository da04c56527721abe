use vstd::prelude::*;

use crate::constants::{message_seed, message_seed_bytes, profile_seed, profile_seed_bytes};
use crate::errors::ErrorCode;
use vstd::bytes::{spec_u64_to_le_bytes, u64_to_le_bytes};

verus! {

/// What program-derived-address search returns for the given seeds and
/// program id: the first candidate address outside the signable keyspace,
/// found by trying disambiguation bytes 255 down to 0, together with the
/// winning byte; `None` when no candidate qualifies or the seeds break
/// the deriver's length limits. The result is a deterministic function of
/// the two arguments alone.
pub uninterp spec fn pda_of(seeds: Seq<Seq<u8>>, program_id: Seq<u8>) -> Option<(Seq<u8>, u8)>;

/// Relies on Pubkey::try_find_program_address (re-exported by anchor_lang):
/// a deterministic one-way derivation from the seeds and the program id,
/// searching bump bytes 255 down to 0 and returning `None` only when the
/// search is exhausted or a seed is over the deriver's length limits.
#[verifier::external_body]
fn find_pda(seeds: &Vec<Vec<u8>>, program_id: &Vec<u8>) -> (r: Option<(Vec<u8>, u8)>)
    requires
        program_id@.len() == 32,
    ensures
        (match r {
            Some((addr, bump)) => pda_of(
                seeds@.map_values(|s: Vec<u8>| s@),
                program_id@,
            ) == Some((addr@, bump)) && addr@.len() == 32,
            None => pda_of(seeds@.map_values(|s: Vec<u8>| s@), program_id@) is None,
        }),
{
    let refs: Vec<&[u8]> = seeds.iter().map(|s| s.as_slice()).collect();
    let pid = anchor_lang::prelude::Pubkey::new_from_array(
        program_id.as_slice().try_into().unwrap(),
    );
    anchor_lang::prelude::Pubkey::try_find_program_address(&refs, &pid)
        .map(|(addr, bump)| (addr.to_bytes().to_vec(), bump))
}

/// Copies a byte vector.
pub fn copy_bytes(v: &Vec<u8>) -> (r: Vec<u8>)
    ensures
        r@ == v@,
{
    let mut out: Vec<u8> = Vec::new();
    let mut i: usize = 0;
    while i < v.len()
        invariant
            i <= v.len(),
            out@ =~= v@.subrange(0, i as int),
        decreases v.len() - i,
    {
        out.push(v[i]);
        i = i + 1;
    }
    proof {
        assert(out@ =~= v@);
    }
    out
}

/// Compares two byte vectors for equality of their contents.
pub fn bytes_eq(a: &Vec<u8>, b: &Vec<u8>) -> (r: bool)
    ensures
        r == (a@ == b@),
{
    if a.len() != b.len() {
        proof {
            assert(a@ != b@);
        }
        return false;
    }
    let mut i: usize = 0;
    while i < a.len()
        invariant
            i <= a.len(),
            a@.len() == b@.len(),
            forall|j: int| 0 <= j < i ==> a@[j] == b@[j],
        decreases a.len() - i,
    {
        if a[i] != b[i] {
            proof {
                assert(a@ != b@);
            }
            return false;
        }
        i = i + 1;
    }
    proof {
        assert(a@ =~= b@);
    }
    true
}

/// Derives the storage address and disambiguation byte for the given
/// seeds under the given program id, failing with `DerivationExhausted`
/// when the search finds no address outside the signable keyspace.
/// Same seeds and program id always yield the same result.
pub fn derive_address(seeds: &Vec<Vec<u8>>, program_id: &Vec<u8>) -> (r: Result<
    (Vec<u8>, u8),
    ErrorCode,
>)
    requires
        program_id@.len() == 32,
    ensures
        (match r {
            Ok((addr, bump)) => pda_of(
                seeds@.map_values(|s: Vec<u8>| s@),
                program_id@,
            ) == Some((addr@, bump)) && addr@.len() == 32,
            Err(e) => e == ErrorCode::DerivationExhausted && pda_of(
                seeds@.map_values(|s: Vec<u8>| s@),
                program_id@,
            ) is None,
        }),
{
    match find_pda(seeds, program_id) {
        Some((addr, bump)) => Ok((addr, bump)),
        None => Err(ErrorCode::DerivationExhausted),
    }
}

/// The seeds from which a recipient's profile address is derived.
pub open spec fn profile_seeds(owner: Seq<u8>) -> Seq<Seq<u8>> {
    seq![profile_seed(), owner]
}

/// The seeds from which an escrow message address is derived.
pub open spec fn message_seeds(recipient: Seq<u8>, sender: Seq<u8>, nonce: u64) -> Seq<Seq<u8>> {
    seq![message_seed(), recipient, sender, spec_u64_to_le_bytes(nonce)]
}

/// Address of the profile record owned by `owner`.
pub open spec fn profile_pda(owner: Seq<u8>, program_id: Seq<u8>) -> Option<(Seq<u8>, u8)> {
    pda_of(profile_seeds(owner), program_id)
}

/// Address of the escrow message record for `(recipient, sender, nonce)`.
pub open spec fn message_pda(
    recipient: Seq<u8>,
    sender: Seq<u8>,
    nonce: u64,
    program_id: Seq<u8>,
) -> Option<(Seq<u8>, u8)> {
    pda_of(message_seeds(recipient, sender, nonce), program_id)
}

/// Derives the profile address for `owner`.
pub fn derive_profile_address(owner: &Vec<u8>, program_id: &Vec<u8>) -> (r: Result<
    (Vec<u8>, u8),
    ErrorCode,
>)
    requires
        program_id@.len() == 32,
    ensures
        (match r {
            Ok((addr, bump)) => profile_pda(owner@, program_id@) == Some((addr@, bump))
                && addr@.len() == 32,
            Err(e) => e == ErrorCode::DerivationExhausted && profile_pda(
                owner@,
                program_id@,
            ) is None,
        }),
{
    let mut seeds: Vec<Vec<u8>> = Vec::new();
    seeds.push(profile_seed_bytes());
    seeds.push(copy_bytes(owner));
    proof {
        assert(seeds@.map_values(|s: Vec<u8>| s@) =~= profile_seeds(owner@));
    }
    derive_address(&seeds, program_id)
}

/// Derives the escrow message address for `(recipient, sender, nonce)`.
pub fn derive_message_address(
    recipient: &Vec<u8>,
    sender: &Vec<u8>,
    nonce: u64,
    program_id: &Vec<u8>,
) -> (r: Result<(Vec<u8>, u8), ErrorCode>)
    requires
        program_id@.len() == 32,
    ensures
        (match r {
            Ok((addr, bump)) => message_pda(recipient@, sender@, nonce, program_id@) == Some(
                (addr@, bump),
            ) && addr@.len() == 32,
            Err(e) => e == ErrorCode::DerivationExhausted && message_pda(
                recipient@,
                sender@,
                nonce,
                program_id@,
            ) is None,
        }),
{
    let mut seeds: Vec<Vec<u8>> = Vec::new();
    seeds.push(message_seed_bytes());
    seeds.push(copy_bytes(recipient));
    seeds.push(copy_bytes(sender));
    seeds.push(u64_to_le_bytes(nonce));
    proof {
        assert(seeds@.map_values(|s: Vec<u8>| s@) =~= message_seeds(recipient@, sender@, nonce));
    }
    derive_address(&seeds, program_id)
}

} // verus!
