use vstd::prelude::*;

use crate::constants::MAX_CONTENT_LEN;
use crate::errors::ErrorCode;
use crate::handlers::{
    read_and_claim_spec, register_user_spec, send_message_spec, update_price_spec,
};
use crate::store::LedgerView;

verus! {

/// A successful registration creates, at the claimed address, a profile
/// owned by the registrant with the published price, both counters zero
/// and the given creation time — so a load at that address returns
/// exactly that profile — and touches no message or balance.
pub proof fn lemma_register_creates_fresh_profile(
    l: LedgerView,
    owner: Seq<u8>,
    claimed: Seq<u8>,
    price: u64,
    now: i64,
)
    requires
        register_user_spec(l, owner, claimed, price, now).0 is Ok,
    ensures
        ({
            let l2 = register_user_spec(l, owner, claimed, price, now).1;
            &&& l2.profiles.contains_key(claimed)
            &&& l2.profiles[claimed].owner == owner
            &&& l2.profiles[claimed].price_lamports == price
            &&& l2.profiles[claimed].inbox_count == 0
            &&& l2.profiles[claimed].received_total == 0
            &&& l2.profiles[claimed].created_at == now
            &&& l2.messages == l.messages
            &&& l2.balances == l.balances
            &&& l2.program_id == l.program_id
        }),
{
}

/// Registering the same owner a second time, at the same claimed
/// address, fails `AlreadyRegistered` and leaves the whole ledger — the
/// existing profile included — exactly as it was.
pub proof fn lemma_register_twice(
    l: LedgerView,
    owner: Seq<u8>,
    claimed: Seq<u8>,
    price1: u64,
    now1: i64,
    price2: u64,
    now2: i64,
)
    requires
        register_user_spec(l, owner, claimed, price1, now1).0 is Ok,
    ensures
        ({
            let l2 = register_user_spec(l, owner, claimed, price1, now1).1;
            &&& register_user_spec(l2, owner, claimed, price2, now2).0 == Err::<
                (),
                ErrorCode,
            >(ErrorCode::AlreadyRegistered)
            &&& register_user_spec(l2, owner, claimed, price2, now2).1 == l2
        }),
{
}

/// `update_price` from an identity that does not own the profile at the
/// claimed address fails `Unauthorized` and changes nothing, so the
/// price stays as it was.
pub proof fn lemma_update_price_unauthorized(
    l: LedgerView,
    caller: Seq<u8>,
    claimed: Seq<u8>,
    new_price: u64,
)
    requires
        l.profiles.contains_key(claimed),
        l.profiles[claimed].owner != caller,
    ensures
        update_price_spec(l, caller, claimed, new_price).0 == Err::<(), ErrorCode>(
            ErrorCode::Unauthorized,
        ),
        update_price_spec(l, caller, claimed, new_price).1 == l,
{
}

/// `send_message` with a deposit below the recipient's published price
/// fails `Underpriced`: no message record is created and no funds move.
pub proof fn lemma_send_message_underpriced(
    l: LedgerView,
    sender: Seq<u8>,
    recipient: Seq<u8>,
    claimed_profile: Seq<u8>,
    claimed_message: Seq<u8>,
    nonce: u64,
    amount: u64,
    content: Seq<u8>,
    now: i64,
)
    requires
        content.len() <= MAX_CONTENT_LEN,
        l.profiles.contains_key(claimed_profile),
        amount < l.profiles[claimed_profile].price_lamports,
    ensures
        send_message_spec(
            l,
            sender,
            recipient,
            claimed_profile,
            claimed_message,
            nonce,
            amount,
            content,
            now,
        ).0 == Err::<(), ErrorCode>(ErrorCode::Underpriced),
        send_message_spec(
            l,
            sender,
            recipient,
            claimed_profile,
            claimed_message,
            nonce,
            amount,
            content,
            now,
        ).1 == l,
{
}

/// `send_message` with content over the bound fails `ContentTooLong`
/// before anything else is examined, and changes nothing.
pub proof fn lemma_send_message_content_too_long(
    l: LedgerView,
    sender: Seq<u8>,
    recipient: Seq<u8>,
    claimed_profile: Seq<u8>,
    claimed_message: Seq<u8>,
    nonce: u64,
    amount: u64,
    content: Seq<u8>,
    now: i64,
)
    requires
        content.len() > MAX_CONTENT_LEN,
    ensures
        send_message_spec(
            l,
            sender,
            recipient,
            claimed_profile,
            claimed_message,
            nonce,
            amount,
            content,
            now,
        ).0 == Err::<(), ErrorCode>(ErrorCode::ContentTooLong),
        send_message_spec(
            l,
            sender,
            recipient,
            claimed_profile,
            claimed_message,
            nonce,
            amount,
            content,
            now,
        ).1 == l,
{
}

/// A nonce reused with the same (recipient, sender) pair derives the
/// same escrow address, so a second send with that triple fails
/// `AlreadyExists` and changes nothing.
pub proof fn lemma_send_message_nonce_reuse(
    l: LedgerView,
    sender: Seq<u8>,
    recipient: Seq<u8>,
    claimed_profile: Seq<u8>,
    claimed_message: Seq<u8>,
    nonce: u64,
    amount1: u64,
    content1: Seq<u8>,
    now1: i64,
    amount2: u64,
    content2: Seq<u8>,
    now2: i64,
)
    requires
        send_message_spec(
            l,
            sender,
            recipient,
            claimed_profile,
            claimed_message,
            nonce,
            amount1,
            content1,
            now1,
        ).0 is Ok,
        content2.len() <= MAX_CONTENT_LEN,
        amount2 >= l.profiles[claimed_profile].price_lamports,
    ensures
        ({
            let l2 = send_message_spec(
                l,
                sender,
                recipient,
                claimed_profile,
                claimed_message,
                nonce,
                amount1,
                content1,
                now1,
            ).1;
            &&& send_message_spec(
                l2,
                sender,
                recipient,
                claimed_profile,
                claimed_message,
                nonce,
                amount2,
                content2,
                now2,
            ).0 == Err::<(), ErrorCode>(ErrorCode::AlreadyExists)
            &&& send_message_spec(
                l2,
                sender,
                recipient,
                claimed_profile,
                claimed_message,
                nonce,
                amount2,
                content2,
                now2,
            ).1 == l2
        }),
{
}

/// Two successful sends from one sender to one recipient occupy two
/// distinct escrow addresses — their nonces necessarily differ — and
/// both records are live afterwards, each holding its own deposit.
pub proof fn lemma_send_message_independent(
    l: LedgerView,
    sender: Seq<u8>,
    recipient: Seq<u8>,
    claimed_profile: Seq<u8>,
    claimed_message1: Seq<u8>,
    nonce1: u64,
    amount1: u64,
    content1: Seq<u8>,
    now1: i64,
    claimed_message2: Seq<u8>,
    nonce2: u64,
    amount2: u64,
    content2: Seq<u8>,
    now2: i64,
)
    requires
        send_message_spec(
            l,
            sender,
            recipient,
            claimed_profile,
            claimed_message1,
            nonce1,
            amount1,
            content1,
            now1,
        ).0 is Ok,
        ({
            let l2 = send_message_spec(
                l,
                sender,
                recipient,
                claimed_profile,
                claimed_message1,
                nonce1,
                amount1,
                content1,
                now1,
            ).1;
            send_message_spec(
                l2,
                sender,
                recipient,
                claimed_profile,
                claimed_message2,
                nonce2,
                amount2,
                content2,
                now2,
            ).0 is Ok
        }),
    ensures
        claimed_message1 != claimed_message2,
        ({
            let l2 = send_message_spec(
                l,
                sender,
                recipient,
                claimed_profile,
                claimed_message1,
                nonce1,
                amount1,
                content1,
                now1,
            ).1;
            let l3 = send_message_spec(
                l2,
                sender,
                recipient,
                claimed_profile,
                claimed_message2,
                nonce2,
                amount2,
                content2,
                now2,
            ).1;
            &&& l3.messages.contains_key(claimed_message1)
            &&& l3.messages.contains_key(claimed_message2)
            &&& l3.messages[claimed_message1].amount_lamports == amount1
            &&& l3.messages[claimed_message2].amount_lamports == amount2
        }),
{
}

/// A successful send moves the deposit and nothing more: the sender pays
/// exactly the amount, the escrow record's address holds exactly that
/// much more, the record is created unread with the deposited amount,
/// and the recipient's inbox counter grows by one.
pub proof fn lemma_send_message_moves_deposit(
    l: LedgerView,
    sender: Seq<u8>,
    recipient: Seq<u8>,
    claimed_profile: Seq<u8>,
    claimed_message: Seq<u8>,
    nonce: u64,
    amount: u64,
    content: Seq<u8>,
    now: i64,
)
    requires
        send_message_spec(
            l,
            sender,
            recipient,
            claimed_profile,
            claimed_message,
            nonce,
            amount,
            content,
            now,
        ).0 is Ok,
        sender != claimed_message,
    ensures
        ({
            let l2 = send_message_spec(
                l,
                sender,
                recipient,
                claimed_profile,
                claimed_message,
                nonce,
                amount,
                content,
                now,
            ).1;
            &&& l2.bal(sender) == l.bal(sender) - amount
            &&& l2.bal(claimed_message) == l.bal(claimed_message) + amount
            &&& l2.messages.contains_key(claimed_message)
            &&& l2.messages[claimed_message].sender == sender
            &&& l2.messages[claimed_message].recipient == recipient
            &&& l2.messages[claimed_message].amount_lamports == amount
            &&& l2.messages[claimed_message].read == false
            &&& l2.messages[claimed_message].content == content
            &&& l2.profiles[claimed_profile].inbox_count == l.profiles[claimed_profile].inbox_count
                + 1
        }),
{
}

/// A successful claim moves the whole escrowed balance to the recipient
/// in the same step that destroys the record, and grows the recipient's
/// running total by the deposited amount.
pub proof fn lemma_claim_moves_escrow(
    l: LedgerView,
    recipient: Seq<u8>,
    claimed_profile: Seq<u8>,
    claimed_message: Seq<u8>,
)
    requires
        read_and_claim_spec(l, recipient, claimed_profile, claimed_message).0 is Ok,
        recipient != claimed_message,
    ensures
        ({
            let l2 = read_and_claim_spec(l, recipient, claimed_profile, claimed_message).1;
            &&& l2.bal(recipient) == l.bal(recipient) + l.bal(claimed_message)
            &&& l2.bal(claimed_message) == 0
            &&& !l2.messages.contains_key(claimed_message)
            &&& l2.profiles[claimed_profile].received_total == l.profiles[
                claimed_profile
            ].received_total + l.messages[claimed_message].amount_lamports
        }),
{
}

/// A successful claim destroys the record: its address holds no message
/// afterwards, so a second claim there — by anyone — fails `NotFound`
/// and changes nothing.
pub proof fn lemma_claim_is_final(
    l: LedgerView,
    recipient: Seq<u8>,
    claimed_profile: Seq<u8>,
    claimed_message: Seq<u8>,
    recipient2: Seq<u8>,
    claimed_profile2: Seq<u8>,
)
    requires
        read_and_claim_spec(l, recipient, claimed_profile, claimed_message).0 is Ok,
    ensures
        ({
            let l2 = read_and_claim_spec(l, recipient, claimed_profile, claimed_message).1;
            &&& !l2.messages.contains_key(claimed_message)
            &&& read_and_claim_spec(l2, recipient2, claimed_profile2, claimed_message).0 == Err::<
                (),
                ErrorCode,
            >(ErrorCode::NotFound)
            &&& read_and_claim_spec(l2, recipient2, claimed_profile2, claimed_message).1 == l2
        }),
{
}

/// `register_user` never touches a profile that already exists.
pub proof fn lemma_register_preserves_existing_profiles(
    l: LedgerView,
    owner: Seq<u8>,
    claimed: Seq<u8>,
    price: u64,
    now: i64,
    k: Seq<u8>,
)
    requires
        l.profiles.contains_key(k),
    ensures
        ({
            let l2 = register_user_spec(l, owner, claimed, price, now).1;
            &&& l2.profiles.contains_key(k)
            &&& l2.profiles[k] == l.profiles[k]
        }),
{
}

/// `update_price` changes nothing of any profile but the price: the
/// owner, both counters, the creation time and the bump stay as they
/// were.
pub proof fn lemma_update_price_changes_only_price(
    l: LedgerView,
    caller: Seq<u8>,
    claimed: Seq<u8>,
    new_price: u64,
    k: Seq<u8>,
)
    requires
        l.profiles.contains_key(k),
    ensures
        ({
            let l2 = update_price_spec(l, caller, claimed, new_price).1;
            &&& l2.profiles.contains_key(k)
            &&& l2.profiles[k].owner == l.profiles[k].owner
            &&& l2.profiles[k].inbox_count == l.profiles[k].inbox_count
            &&& l2.profiles[k].received_total == l.profiles[k].received_total
            &&& l2.profiles[k].created_at == l.profiles[k].created_at
            &&& l2.profiles[k].bump == l.profiles[k].bump
            &&& k != claimed ==> l2.profiles[k] == l.profiles[k]
            &&& l2.messages == l.messages
            &&& l2.balances == l.balances
        }),
{
}

/// A send touches only the addresses it names: every other message
/// record, profile and balance is exactly as it was. Deposits to
/// distinct escrow addresses are independent.
pub proof fn lemma_send_message_frame(
    l: LedgerView,
    sender: Seq<u8>,
    recipient: Seq<u8>,
    claimed_profile: Seq<u8>,
    claimed_message: Seq<u8>,
    nonce: u64,
    amount: u64,
    content: Seq<u8>,
    now: i64,
)
    ensures
        ({
            let l2 = send_message_spec(
                l,
                sender,
                recipient,
                claimed_profile,
                claimed_message,
                nonce,
                amount,
                content,
                now,
            ).1;
            &&& forall|k: Seq<u8>|
                k != claimed_message ==> l2.messages.contains_key(k) == l.messages.contains_key(k)
            &&& forall|k: Seq<u8>|
                k != claimed_message && l.messages.contains_key(k) ==> l2.messages[k]
                    == l.messages[k]
            &&& forall|k: Seq<u8>|
                k != claimed_profile && l.profiles.contains_key(k) ==> l2.profiles[k]
                    == l.profiles[k]
            &&& forall|k: Seq<u8>| k != sender && k != claimed_message ==> l2.bal(k) == l.bal(k)
        }),
{
}

/// A claim touches only the addresses it names: every other message
/// record, profile and balance is exactly as it was. Claims of distinct
/// escrow records are independent.
pub proof fn lemma_claim_frame(
    l: LedgerView,
    recipient: Seq<u8>,
    claimed_profile: Seq<u8>,
    claimed_message: Seq<u8>,
)
    ensures
        ({
            let l2 = read_and_claim_spec(l, recipient, claimed_profile, claimed_message).1;
            &&& forall|k: Seq<u8>|
                k != claimed_message ==> l2.messages.contains_key(k) == l.messages.contains_key(k)
            &&& forall|k: Seq<u8>|
                k != claimed_message && l.messages.contains_key(k) ==> l2.messages[k]
                    == l.messages[k]
            &&& forall|k: Seq<u8>|
                k != claimed_profile && l.profiles.contains_key(k) ==> l2.profiles[k]
                    == l.profiles[k]
            &&& forall|k: Seq<u8>| k != recipient && k != claimed_message ==> l2.bal(k) == l.bal(k)
        }),
{
}

/// A send leaves every profile's owner and price alone and never
/// decreases its counters.
pub proof fn lemma_send_message_profile_monotonic(
    l: LedgerView,
    sender: Seq<u8>,
    recipient: Seq<u8>,
    claimed_profile: Seq<u8>,
    claimed_message: Seq<u8>,
    nonce: u64,
    amount: u64,
    content: Seq<u8>,
    now: i64,
    k: Seq<u8>,
)
    requires
        l.profiles.contains_key(k),
    ensures
        ({
            let l2 = send_message_spec(
                l,
                sender,
                recipient,
                claimed_profile,
                claimed_message,
                nonce,
                amount,
                content,
                now,
            ).1;
            &&& l2.profiles.contains_key(k)
            &&& l2.profiles[k].owner == l.profiles[k].owner
            &&& l2.profiles[k].price_lamports == l.profiles[k].price_lamports
            &&& l2.profiles[k].inbox_count >= l.profiles[k].inbox_count
            &&& l2.profiles[k].received_total == l.profiles[k].received_total
        }),
{
}

/// A claim leaves every profile's owner and price alone and never
/// decreases its counters.
pub proof fn lemma_claim_profile_monotonic(
    l: LedgerView,
    recipient: Seq<u8>,
    claimed_profile: Seq<u8>,
    claimed_message: Seq<u8>,
    k: Seq<u8>,
)
    requires
        l.profiles.contains_key(k),
    ensures
        ({
            let l2 = read_and_claim_spec(l, recipient, claimed_profile, claimed_message).1;
            &&& l2.profiles.contains_key(k)
            &&& l2.profiles[k].owner == l.profiles[k].owner
            &&& l2.profiles[k].price_lamports == l.profiles[k].price_lamports
            &&& l2.profiles[k].inbox_count == l.profiles[k].inbox_count
            &&& l2.profiles[k].received_total >= l.profiles[k].received_total
        }),
{
}

} // verus!
