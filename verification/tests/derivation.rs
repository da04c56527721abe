use pay2msg::addr::{derive_address, derive_message_address, derive_profile_address};
use pay2msg::errors::ErrorCode;

fn pid() -> Vec<u8> {
    vec![3u8; 32]
}

/// A small deterministic pseudorandom generator for the property test.
struct Lcg(u64);

impl Lcg {
    fn next_u64(&mut self) -> u64 {
        self.0 = self.0.wrapping_mul(6364136223846793005).wrapping_add(1442695040888963407);
        self.0
    }

    fn bytes(&mut self, n: usize) -> Vec<u8> {
        let mut out = Vec::with_capacity(n);
        while out.len() < n {
            let w = self.next_u64().to_le_bytes();
            for b in w.iter() {
                if out.len() < n {
                    out.push(*b);
                }
            }
        }
        out
    }
}

#[test]
fn derivation_is_deterministic() {
    let owner = vec![5u8; 32];
    let a = derive_profile_address(&owner, &pid()).unwrap();
    let b = derive_profile_address(&owner, &pid()).unwrap();
    assert_eq!(a, b);
    let c = derive_message_address(&owner, &vec![6u8; 32], 77, &pid()).unwrap();
    let d = derive_message_address(&owner, &vec![6u8; 32], 77, &pid()).unwrap();
    assert_eq!(c, d);
    assert_ne!(a.0, c.0);
}

#[test]
fn derived_address_is_not_an_input() {
    let owner = vec![8u8; 32];
    let (addr, _bump) = derive_profile_address(&owner, &pid()).unwrap();
    assert_eq!(addr.len(), 32);
    assert_ne!(addr, owner);
    assert_ne!(addr, pid());
}

#[test]
fn derivation_matches_host_deriver() {
    // The same derivation, made directly against the host's address
    // deriver, must agree with the library's wrapper.
    let owner = vec![11u8; 32];
    let tag: &[u8] = b"profile";
    let program = solana_pubkey::Pubkey::new_from_array([3u8; 32]);
    let (expect, expect_bump) =
        solana_pubkey::Pubkey::find_program_address(&[tag, owner.as_slice()], &program);
    let (addr, bump) = derive_profile_address(&owner, &pid()).unwrap();
    assert_eq!(addr, expect.to_bytes().to_vec());
    assert_eq!(bump, expect_bump);
}

#[test]
fn stored_bump_replays_the_derivation() {
    // The winning bump byte re-creates the same address in one step, as
    // a handler re-verifying a claimed address does.
    let recipient = vec![13u8; 32];
    let sender = vec![14u8; 32];
    let nonce: u64 = 9;
    let (addr, bump) = derive_message_address(&recipient, &sender, nonce, &pid()).unwrap();
    let program = solana_pubkey::Pubkey::new_from_array([3u8; 32]);
    let replay = solana_pubkey::Pubkey::create_program_address(
        &[
            b"message",
            recipient.as_slice(),
            sender.as_slice(),
            nonce.to_le_bytes().as_slice(),
            &[bump],
        ],
        &program,
    )
    .unwrap();
    assert_eq!(addr, replay.to_bytes().to_vec());
}

#[test]
fn derivation_exhausted_on_oversized_seeds() {
    // A seed over the deriver's length limit leaves no viable candidate,
    // so the bump search comes back empty.
    let seeds = vec![vec![1u8; 33]];
    assert_eq!(derive_address(&seeds, &pid()).unwrap_err(), ErrorCode::DerivationExhausted);
    // So does a seed list at the deriver's count limit.
    let many: Vec<Vec<u8>> = (0..16).map(|i| vec![i as u8; 4]).collect();
    assert_eq!(derive_address(&many, &pid()).unwrap_err(), ErrorCode::DerivationExhausted);
}

#[test]
fn derivation_collision_free_over_random_triples() {
    // 10,000 pseudorandom (tag, identity, nonce) triples: every derived
    // address is unique, and deriving twice gives the same address.
    let mut rng = Lcg(0x00c0ffee);
    let program = rng.bytes(32);
    let mut addrs: Vec<Vec<u8>> = Vec::with_capacity(10_000);
    for i in 0..10_000u64 {
        let tag = rng.bytes(4);
        let identity = rng.bytes(32);
        let nonce = rng.next_u64().to_le_bytes().to_vec();
        let seeds = vec![tag, identity, nonce];
        let (addr, bump) = derive_address(&seeds, &program).unwrap();
        if i % 1000 == 0 {
            let (again, bump_again) = derive_address(&seeds, &program).unwrap();
            assert_eq!(addr, again);
            assert_eq!(bump, bump_again);
        }
        addrs.push(addr);
    }
    let n = addrs.len();
    addrs.sort();
    addrs.dedup();
    assert_eq!(addrs.len(), n);
}
