use vstd::prelude::*;

verus! {

/// Upper bound on the byte length of a message's content.
pub const MAX_CONTENT_LEN: usize = 256;

/// Maximum storage footprint of a message record: discriminator, sender,
/// recipient, amount, timestamp, read flag, bump, length prefix, content.
pub const MESSAGE_MAX_SPACE: usize = 8 + 32 + 32 + 8 + 8 + 1 + 1 + 4 + MAX_CONTENT_LEN;

/// The seed tag under which a profile record's address is derived:
/// the bytes of the ASCII string "profile".
pub open spec fn profile_seed() -> Seq<u8> {
    seq![112u8, 114u8, 111u8, 102u8, 105u8, 108u8, 101u8]
}

/// The seed tag under which a message record's address is derived:
/// the bytes of the ASCII string "message".
pub open spec fn message_seed() -> Seq<u8> {
    seq![109u8, 101u8, 115u8, 115u8, 97u8, 103u8, 101u8]
}

/// Builds the profile seed tag as a byte vector.
pub fn profile_seed_bytes() -> (r: Vec<u8>)
    ensures
        r@ == profile_seed(),
{
    let mut v: Vec<u8> = Vec::new();
    v.push(112u8);
    v.push(114u8);
    v.push(111u8);
    v.push(102u8);
    v.push(105u8);
    v.push(108u8);
    v.push(101u8);
    proof {
        assert(v@ =~= profile_seed());
    }
    v
}

/// Builds the message seed tag as a byte vector.
pub fn message_seed_bytes() -> (r: Vec<u8>)
    ensures
        r@ == message_seed(),
{
    let mut v: Vec<u8> = Vec::new();
    v.push(109u8);
    v.push(101u8);
    v.push(115u8);
    v.push(115u8);
    v.push(97u8);
    v.push(103u8);
    v.push(101u8);
    proof {
        assert(v@ =~= message_seed());
    }
    v
}

} // verus!
