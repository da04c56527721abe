use vstd::prelude::*;

use crate::addr::{
    bytes_eq, copy_bytes, derive_message_address, derive_profile_address, message_pda, profile_pda,
};
use crate::constants::MAX_CONTENT_LEN;
use crate::errors::ErrorCode;
use crate::state::{Message, MessageView, UserProfile, UserProfileView};
use crate::store::{Ledger, LedgerView};

verus! {

// Each handler takes the claimed addresses and the caller's identity keys
// in a context struct. The identity keys are taken as authenticated: the
// host environment has already verified that the caller controls them.
// The claimed addresses are not trusted: every handler re-derives the
// expected address from the identity material and rejects a substituted
// one with `AddressMismatch`.

/// Accounts handed to `register_user`: the registering identity (the
/// caller) and the claimed address of the profile record to create.
pub struct RegisterUser {
    pub owner: Vec<u8>,
    pub profile: Vec<u8>,
}

/// Accounts handed to `update_price`: the calling identity and the
/// claimed address of the profile record to reprice.
pub struct UpdatePrice {
    pub owner: Vec<u8>,
    pub profile: Vec<u8>,
}

/// Accounts handed to `send_message`: the paying sender (the caller), the
/// recipient identity, and the claimed addresses of the recipient's
/// profile record and of the escrow message record to create.
pub struct SendMessage {
    pub sender: Vec<u8>,
    pub recipient: Vec<u8>,
    pub recipient_profile: Vec<u8>,
    pub message: Vec<u8>,
}

/// Accounts handed to `read_and_claim`: the claiming recipient (the
/// caller) and the claimed addresses of the recipient's profile record
/// and of the escrow message record to claim.
pub struct ReadAndClaim {
    pub recipient: Vec<u8>,
    pub recipient_profile: Vec<u8>,
    pub message: Vec<u8>,
}

/// What `register_user` returns and how it changes the ledger, as one
/// mathematical step.
pub open spec fn register_user_spec(
    l: LedgerView,
    owner: Seq<u8>,
    claimed_profile: Seq<u8>,
    price_lamports: u64,
    now: i64,
) -> (Result<(), ErrorCode>, LedgerView) {
    match profile_pda(owner, l.program_id) {
        None => (Err(ErrorCode::DerivationExhausted), l),
        Some((addr, bump)) => if addr != claimed_profile {
            (Err(ErrorCode::AddressMismatch), l)
        } else if l.profiles.contains_key(addr) {
            (Err(ErrorCode::AlreadyRegistered), l)
        } else {
            (
                Ok(()),
                LedgerView {
                    profiles: l.profiles.insert(
                        addr,
                        UserProfileView {
                            owner,
                            price_lamports,
                            inbox_count: 0,
                            received_total: 0,
                            created_at: now,
                            bump,
                        },
                    ),
                    ..l
                },
            )
        },
    }
}

/// Registers a profile for `ctx.owner` at its derived address, publishing
/// `price_lamports` as the minimum deposit, with both counters zero.
/// Fails with `AddressMismatch` when the claimed profile address is not
/// the derived one, and with `AlreadyRegistered` when a profile already
/// lives there; on any failure the ledger is unchanged.
pub fn register_user(
    ledger: &mut Ledger,
    ctx: &RegisterUser,
    price_lamports: u64,
    now: i64,
) -> (r: Result<(), ErrorCode>)
    requires
        old(ledger).wf(),
    ensures
        final(ledger).wf(),
        r == register_user_spec(old(ledger)@, ctx.owner@, ctx.profile@, price_lamports, now).0,
        final(ledger)@ == register_user_spec(
            old(ledger)@,
            ctx.owner@,
            ctx.profile@,
            price_lamports,
            now,
        ).1,
{
    let pid = ledger.program_id_bytes();
    let (addr, bump) = match derive_profile_address(&ctx.owner, &pid) {
        Ok(ab) => ab,
        Err(e) => {
            return Err(e);
        },
    };
    if !bytes_eq(&addr, &ctx.profile) {
        return Err(ErrorCode::AddressMismatch);
    }
    if ledger.load_profile(&addr).is_ok() {
        return Err(ErrorCode::AlreadyRegistered);
    }
    let profile = UserProfile {
        owner: copy_bytes(&ctx.owner),
        price_lamports,
        inbox_count: 0,
        received_total: 0,
        created_at: now,
        bump,
    };
    ledger.put_profile(&addr, profile);
    proof {
        assert(ledger@ =~= register_user_spec(
            old(ledger)@,
            ctx.owner@,
            ctx.profile@,
            price_lamports,
            now,
        ).1);
    }
    Ok(())
}

/// What `update_price` returns and how it changes the ledger.
pub open spec fn update_price_spec(
    l: LedgerView,
    caller: Seq<u8>,
    claimed_profile: Seq<u8>,
    new_price: u64,
) -> (Result<(), ErrorCode>, LedgerView) {
    if !l.profiles.contains_key(claimed_profile) {
        (Err(ErrorCode::NotFound), l)
    } else {
        let p = l.profiles[claimed_profile];
        if p.owner != caller {
            (Err(ErrorCode::Unauthorized), l)
        } else {
            match profile_pda(p.owner, l.program_id) {
                None => (Err(ErrorCode::DerivationExhausted), l),
                Some((addr, bump)) => if addr != claimed_profile || bump != p.bump {
                    (Err(ErrorCode::AddressMismatch), l)
                } else {
                    (
                        Ok(()),
                        LedgerView {
                            profiles: l.profiles.insert(
                                claimed_profile,
                                UserProfileView { price_lamports: new_price, ..p },
                            ),
                            ..l
                        },
                    )
                },
            }
        }
    }
}

/// Sets the published price of the caller's profile. Fails with
/// `Unauthorized` when the profile at the claimed address is not owned by
/// the caller, and with `AddressMismatch` when the record's address or
/// stored bump disagree with re-derivation; no other field changes, and
/// on any failure the ledger is unchanged.
pub fn update_price(ledger: &mut Ledger, ctx: &UpdatePrice, new_price: u64) -> (r: Result<
    (),
    ErrorCode,
>)
    requires
        old(ledger).wf(),
    ensures
        final(ledger).wf(),
        r == update_price_spec(old(ledger)@, ctx.owner@, ctx.profile@, new_price).0,
        final(ledger)@ == update_price_spec(old(ledger)@, ctx.owner@, ctx.profile@, new_price).1,
{
    let pid = ledger.program_id_bytes();
    let (p_owner, p_inbox, p_received, p_created, p_bump) = match ledger.load_profile(
        &ctx.profile,
    ) {
        Ok(p) => {
            if !bytes_eq(&p.owner, &ctx.owner) {
                return Err(ErrorCode::Unauthorized);
            }
            (copy_bytes(&p.owner), p.inbox_count, p.received_total, p.created_at, p.bump)
        },
        Err(e) => {
            return Err(e);
        },
    };
    let (addr, bump) = match derive_profile_address(&p_owner, &pid) {
        Ok(ab) => ab,
        Err(e) => {
            return Err(e);
        },
    };
    if !bytes_eq(&addr, &ctx.profile) || bump != p_bump {
        return Err(ErrorCode::AddressMismatch);
    }
    let profile = UserProfile {
        owner: p_owner,
        price_lamports: new_price,
        inbox_count: p_inbox,
        received_total: p_received,
        created_at: p_created,
        bump: p_bump,
    };
    ledger.put_profile(&ctx.profile, profile);
    proof {
        assert(ledger@ =~= update_price_spec(old(ledger)@, ctx.owner@, ctx.profile@, new_price).1);
    }
    Ok(())
}

/// The all-or-nothing tail of `send_message`, once the content, the
/// recipient's profile and the derived message address `(maddr, mbump)`
/// have been validated: the deposit moves from the sender to the new
/// escrow record's address, the record is created unread, and the
/// recipient's inbox counter grows by one.
pub open spec fn send_message_apply(
    l: LedgerView,
    sender: Seq<u8>,
    recipient: Seq<u8>,
    profile_addr: Seq<u8>,
    maddr: Seq<u8>,
    mbump: u8,
    claimed_message: Seq<u8>,
    amount_lamports: u64,
    content: Seq<u8>,
    now: i64,
) -> (Result<(), ErrorCode>, LedgerView) {
    if maddr != claimed_message {
        (Err(ErrorCode::AddressMismatch), l)
    } else if l.messages.contains_key(maddr) {
        (Err(ErrorCode::AlreadyExists), l)
    } else if l.bal(sender) < amount_lamports {
        (Err(ErrorCode::InsufficientFunds), l)
    } else if l.profiles[profile_addr].inbox_count == u64::MAX {
        (Err(ErrorCode::CounterOverflow), l)
    } else {
        let sender_after = (l.bal(sender) - amount_lamports) as u64;
        let escrow_base = if maddr == sender {
            sender_after
        } else {
            l.bal(maddr)
        };
        if escrow_base + amount_lamports > u64::MAX {
            (Err(ErrorCode::CounterOverflow), l)
        } else {
            let p = l.profiles[profile_addr];
            (
                Ok(()),
                LedgerView {
                    profiles: l.profiles.insert(
                        profile_addr,
                        UserProfileView { inbox_count: (p.inbox_count + 1) as u64, ..p },
                    ),
                    messages: l.messages.insert(
                        maddr,
                        MessageView {
                            sender,
                            recipient,
                            amount_lamports,
                            created_at: now,
                            read: false,
                            content,
                            bump: mbump,
                        },
                    ),
                    balances: l.balances.insert(sender, sender_after).insert(
                        maddr,
                        (escrow_base + amount_lamports) as u64,
                    ),
                    ..l
                },
            )
        }
    }
}

/// What `send_message` returns and how it changes the ledger.
pub open spec fn send_message_spec(
    l: LedgerView,
    sender: Seq<u8>,
    recipient: Seq<u8>,
    claimed_profile: Seq<u8>,
    claimed_message: Seq<u8>,
    nonce: u64,
    amount_lamports: u64,
    content: Seq<u8>,
    now: i64,
) -> (Result<(), ErrorCode>, LedgerView) {
    if content.len() > MAX_CONTENT_LEN {
        (Err(ErrorCode::ContentTooLong), l)
    } else if !l.profiles.contains_key(claimed_profile) {
        (Err(ErrorCode::NotFound), l)
    } else {
        let p = l.profiles[claimed_profile];
        if amount_lamports < p.price_lamports {
            (Err(ErrorCode::Underpriced), l)
        } else {
            match profile_pda(recipient, l.program_id) {
                None => (Err(ErrorCode::DerivationExhausted), l),
                Some((paddr, pbump)) => if paddr != claimed_profile || pbump != p.bump {
                    (Err(ErrorCode::AddressMismatch), l)
                } else {
                    match message_pda(recipient, sender, nonce, l.program_id) {
                        None => (Err(ErrorCode::DerivationExhausted), l),
                        Some((maddr, mbump)) => send_message_apply(
                            l,
                            sender,
                            recipient,
                            claimed_profile,
                            maddr,
                            mbump,
                            claimed_message,
                            amount_lamports,
                            content,
                            now,
                        ),
                    }
                },
            }
        }
    }
}

/// Deposits `amount_lamports` from `ctx.sender` into a fresh escrow
/// message record for `(ctx.recipient, ctx.sender, nonce)`. The deposit,
/// the record creation and the inbox-counter increment happen as one
/// unit: on any failure (content too long, missing or substituted
/// profile, underpriced deposit, reused nonce, short balance, counter
/// overflow) the ledger is unchanged.
pub fn send_message(
    ledger: &mut Ledger,
    ctx: &SendMessage,
    nonce: u64,
    amount_lamports: u64,
    content: Vec<u8>,
    now: i64,
) -> (r: Result<(), ErrorCode>)
    requires
        old(ledger).wf(),
    ensures
        final(ledger).wf(),
        r == send_message_spec(
            old(ledger)@,
            ctx.sender@,
            ctx.recipient@,
            ctx.recipient_profile@,
            ctx.message@,
            nonce,
            amount_lamports,
            content@,
            now,
        ).0,
        final(ledger)@ == send_message_spec(
            old(ledger)@,
            ctx.sender@,
            ctx.recipient@,
            ctx.recipient_profile@,
            ctx.message@,
            nonce,
            amount_lamports,
            content@,
            now,
        ).1,
{
    if content.len() > MAX_CONTENT_LEN {
        return Err(ErrorCode::ContentTooLong);
    }
    let pid = ledger.program_id_bytes();
    let (p_owner, p_price, p_inbox, p_received, p_created, p_bump) = match ledger.load_profile(
        &ctx.recipient_profile,
    ) {
        Ok(p) => (
            copy_bytes(&p.owner),
            p.price_lamports,
            p.inbox_count,
            p.received_total,
            p.created_at,
            p.bump,
        ),
        Err(e) => {
            return Err(e);
        },
    };
    if amount_lamports < p_price {
        return Err(ErrorCode::Underpriced);
    }
    let (paddr, pbump) = match derive_profile_address(&ctx.recipient, &pid) {
        Ok(ab) => ab,
        Err(e) => {
            return Err(e);
        },
    };
    if !bytes_eq(&paddr, &ctx.recipient_profile) || pbump != p_bump {
        return Err(ErrorCode::AddressMismatch);
    }
    let (maddr, mbump) = match derive_message_address(&ctx.recipient, &ctx.sender, nonce, &pid) {
        Ok(ab) => ab,
        Err(e) => {
            return Err(e);
        },
    };
    if !bytes_eq(&maddr, &ctx.message) {
        return Err(ErrorCode::AddressMismatch);
    }
    if ledger.load_message(&maddr).is_ok() {
        return Err(ErrorCode::AlreadyExists);
    }
    let sender_bal = ledger.balance_of(&ctx.sender);
    if sender_bal < amount_lamports {
        return Err(ErrorCode::InsufficientFunds);
    }
    if p_inbox == u64::MAX {
        return Err(ErrorCode::CounterOverflow);
    }
    let sender_after = sender_bal - amount_lamports;
    let escrow_base = if bytes_eq(&maddr, &ctx.sender) {
        sender_after
    } else {
        ledger.balance_of(&maddr)
    };
    if amount_lamports > u64::MAX - escrow_base {
        return Err(ErrorCode::CounterOverflow);
    }
    ledger.set_balance(&ctx.sender, sender_after);
    ledger.set_balance(&maddr, escrow_base + amount_lamports);
    let msg = Message {
        sender: copy_bytes(&ctx.sender),
        recipient: copy_bytes(&ctx.recipient),
        amount_lamports,
        created_at: now,
        read: false,
        content,
        bump: mbump,
    };
    ledger.put_message(&maddr, msg);
    let profile = UserProfile {
        owner: p_owner,
        price_lamports: p_price,
        inbox_count: p_inbox + 1,
        received_total: p_received,
        created_at: p_created,
        bump: p_bump,
    };
    ledger.put_profile(&ctx.recipient_profile, profile);
    proof {
        assert(ledger@ =~= send_message_spec(
            old(ledger)@,
            ctx.sender@,
            ctx.recipient@,
            ctx.recipient_profile@,
            ctx.message@,
            nonce,
            amount_lamports,
            content@,
            now,
        ).1);
    }
    Ok(())
}

/// What `read_and_claim` returns and how it changes the ledger.
pub open spec fn read_and_claim_spec(
    l: LedgerView,
    recipient: Seq<u8>,
    claimed_profile: Seq<u8>,
    claimed_message: Seq<u8>,
) -> (Result<(), ErrorCode>, LedgerView) {
    if !l.messages.contains_key(claimed_message) {
        (Err(ErrorCode::NotFound), l)
    } else {
        let m = l.messages[claimed_message];
        if m.recipient != recipient {
            (Err(ErrorCode::Unauthorized), l)
        } else if m.read {
            (Err(ErrorCode::AlreadyClaimed), l)
        } else if !l.profiles.contains_key(claimed_profile) {
            (Err(ErrorCode::NotFound), l)
        } else {
            let p = l.profiles[claimed_profile];
            match profile_pda(recipient, l.program_id) {
                None => (Err(ErrorCode::DerivationExhausted), l),
                Some((paddr, pbump)) => if paddr != claimed_profile || pbump != p.bump {
                    (Err(ErrorCode::AddressMismatch), l)
                } else if l.bal(claimed_message) < m.amount_lamports {
                    (Err(ErrorCode::InsufficientFunds), l)
                } else if p.received_total + m.amount_lamports > u64::MAX {
                    (Err(ErrorCode::CounterOverflow), l)
                } else {
                    let escrow = l.bal(claimed_message);
                    let base = if recipient == claimed_message {
                        0u64
                    } else {
                        l.bal(recipient)
                    };
                    if base + escrow > u64::MAX {
                        (Err(ErrorCode::CounterOverflow), l)
                    } else {
                        (
                            Ok(()),
                            LedgerView {
                                profiles: l.profiles.insert(
                                    claimed_profile,
                                    UserProfileView {
                                        received_total: (p.received_total
                                            + m.amount_lamports) as u64,
                                        ..p
                                    },
                                ),
                                messages: l.messages.remove(claimed_message),
                                balances: l.balances.insert(claimed_message, 0).insert(
                                    recipient,
                                    (base + escrow) as u64,
                                ),
                                ..l
                            },
                        )
                    }
                },
            }
        }
    }
}

/// Claims the escrowed funds of one message for its recipient: the whole
/// balance held at the record's address moves to the recipient, the
/// recipient's running total grows by the deposited amount, and the
/// record is destroyed, so a later load at its address fails `NotFound`.
/// All of it happens as one unit; on any failure (wrong recipient,
/// already-claimed or missing record, substituted profile, overflow) the
/// ledger is unchanged.
pub fn read_and_claim(ledger: &mut Ledger, ctx: &ReadAndClaim) -> (r: Result<(), ErrorCode>)
    requires
        old(ledger).wf(),
    ensures
        final(ledger).wf(),
        r == read_and_claim_spec(
            old(ledger)@,
            ctx.recipient@,
            ctx.recipient_profile@,
            ctx.message@,
        ).0,
        final(ledger)@ == read_and_claim_spec(
            old(ledger)@,
            ctx.recipient@,
            ctx.recipient_profile@,
            ctx.message@,
        ).1,
{
    let pid = ledger.program_id_bytes();
    let (m_read, m_amount) = match ledger.load_message(&ctx.message) {
        Ok(m) => {
            if !bytes_eq(&m.recipient, &ctx.recipient) {
                return Err(ErrorCode::Unauthorized);
            }
            (m.read, m.amount_lamports)
        },
        Err(e) => {
            return Err(e);
        },
    };
    if m_read {
        return Err(ErrorCode::AlreadyClaimed);
    }
    let (p_owner, p_price, p_inbox, p_received, p_created, p_bump) = match ledger.load_profile(
        &ctx.recipient_profile,
    ) {
        Ok(p) => (
            copy_bytes(&p.owner),
            p.price_lamports,
            p.inbox_count,
            p.received_total,
            p.created_at,
            p.bump,
        ),
        Err(e) => {
            return Err(e);
        },
    };
    let (paddr, pbump) = match derive_profile_address(&ctx.recipient, &pid) {
        Ok(ab) => ab,
        Err(e) => {
            return Err(e);
        },
    };
    if !bytes_eq(&paddr, &ctx.recipient_profile) || pbump != p_bump {
        return Err(ErrorCode::AddressMismatch);
    }
    let escrow = ledger.balance_of(&ctx.message);
    if escrow < m_amount {
        return Err(ErrorCode::InsufficientFunds);
    }
    if m_amount > u64::MAX - p_received {
        return Err(ErrorCode::CounterOverflow);
    }
    let base = if bytes_eq(&ctx.recipient, &ctx.message) {
        0
    } else {
        ledger.balance_of(&ctx.recipient)
    };
    if escrow > u64::MAX - base {
        return Err(ErrorCode::CounterOverflow);
    }
    ledger.set_balance(&ctx.message, 0);
    ledger.set_balance(&ctx.recipient, base + escrow);
    let profile = UserProfile {
        owner: p_owner,
        price_lamports: p_price,
        inbox_count: p_inbox,
        received_total: p_received + m_amount,
        created_at: p_created,
        bump: p_bump,
    };
    ledger.put_profile(&ctx.recipient_profile, profile);
    ledger.remove_message(&ctx.message);
    proof {
        assert(ledger@ =~= read_and_claim_spec(
            old(ledger)@,
            ctx.recipient@,
            ctx.recipient_profile@,
            ctx.message@,
        ).1);
    }
    Ok(())
}

} // verus!
