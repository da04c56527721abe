use vstd::prelude::*;

use crate::constants::MAX_CONTENT_LEN;
use crate::errors::ErrorCode;

verus! {

/// Mathematical value of a profile record.
#[verifier::ext_equal]
pub ghost struct UserProfileView {
    pub owner: Seq<u8>,
    pub price_lamports: u64,
    pub inbox_count: u64,
    pub received_total: u64,
    pub created_at: i64,
    pub bump: u8,
}

/// One profile record per registered recipient identity.
///
/// `owner` is set once at registration and never changes; `inbox_count`
/// and `received_total` never decrease; `bump` is the disambiguation byte
/// found when the record's address was derived, kept for re-verification.
#[derive(Debug)]
pub struct UserProfile {
    pub owner: Vec<u8>,
    pub price_lamports: u64,
    pub inbox_count: u64,
    pub received_total: u64,
    pub created_at: i64,
    pub bump: u8,
}

impl View for UserProfile {
    type V = UserProfileView;

    open spec fn view(&self) -> UserProfileView {
        UserProfileView {
            owner: self.owner@,
            price_lamports: self.price_lamports,
            inbox_count: self.inbox_count,
            received_total: self.received_total,
            created_at: self.created_at,
            bump: self.bump,
        }
    }
}

impl UserProfile {
    /// Storage footprint of a profile record's fields.
    pub const SPACE: usize = 32 + 8 + 8 + 8 + 8 + 1;
}

/// Mathematical value of an escrow message record.
#[verifier::ext_equal]
pub ghost struct MessageView {
    pub sender: Seq<u8>,
    pub recipient: Seq<u8>,
    pub amount_lamports: u64,
    pub created_at: i64,
    pub read: bool,
    pub content: Seq<u8>,
    pub bump: u8,
}

/// One escrow message record per (recipient, sender, nonce) triple.
///
/// All fields but `read` are set once at creation; the deposited funds are
/// held at the record's own address until the recipient claims them, which
/// destroys the record.
#[derive(Debug)]
pub struct Message {
    pub sender: Vec<u8>,
    pub recipient: Vec<u8>,
    pub amount_lamports: u64,
    pub created_at: i64,
    pub read: bool,
    pub content: Vec<u8>,
    pub bump: u8,
}

impl View for Message {
    type V = MessageView;

    open spec fn view(&self) -> MessageView {
        MessageView {
            sender: self.sender@,
            recipient: self.recipient@,
            amount_lamports: self.amount_lamports,
            created_at: self.created_at,
            read: self.read,
            content: self.content@,
            bump: self.bump,
        }
    }
}

impl Message {
    /// Storage footprint of a message record's fixed fields.
    pub const SPACE_PREFIX: usize = 32 + 32 + 8 + 8 + 1 + 1;

    /// Storage footprint of a message record whose content may grow up to
    /// `max_len` bytes: discriminator, fixed fields, length prefix, payload.
    pub fn space_with_content(max_len: usize) -> (r: usize)
        requires
            max_len <= usize::MAX - 94,
        ensures
            r == 8 + Message::SPACE_PREFIX + 4 + max_len,
    {
        8 + Message::SPACE_PREFIX + 4 + max_len
    }

    /// Creates an unread message record, rejecting content over the
    /// capacity bound.
    pub fn new(
        sender: Vec<u8>,
        recipient: Vec<u8>,
        amount_lamports: u64,
        created_at: i64,
        content: Vec<u8>,
        bump: u8,
    ) -> (r: Result<Message, ErrorCode>)
        ensures
            content@.len() > MAX_CONTENT_LEN ==> r == Err::<Message, ErrorCode>(
                ErrorCode::CapacityExceeded,
            ),
            content@.len() <= MAX_CONTENT_LEN ==> (r matches Ok(m) && m@ == (MessageView {
                sender: sender@,
                recipient: recipient@,
                amount_lamports,
                created_at,
                read: false,
                content: content@,
                bump,
            })),
    {
        if content.len() > MAX_CONTENT_LEN {
            return Err(ErrorCode::CapacityExceeded);
        }
        Ok(Message { sender, recipient, amount_lamports, created_at, read: false, content, bump })
    }
}

} // verus!
