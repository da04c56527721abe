use pay2msg::addr::{derive_message_address, derive_profile_address};
use pay2msg::constants::{MAX_CONTENT_LEN, MESSAGE_MAX_SPACE};
use pay2msg::errors::ErrorCode;
use pay2msg::handlers::{
    read_and_claim, register_user, send_message, update_price, ReadAndClaim, RegisterUser,
    SendMessage, UpdatePrice,
};
use pay2msg::state::{Message, UserProfile};
use pay2msg::store::Ledger;

fn key(b: u8) -> Vec<u8> {
    vec![b; 32]
}

fn pid() -> Vec<u8> {
    vec![7u8; 32]
}

fn new_ledger() -> Ledger {
    Ledger::new(pid())
}

fn profile_addr(owner: &Vec<u8>) -> (Vec<u8>, u8) {
    derive_profile_address(owner, &pid()).unwrap()
}

fn message_addr(recipient: &Vec<u8>, sender: &Vec<u8>, nonce: u64) -> (Vec<u8>, u8) {
    derive_message_address(recipient, sender, nonce, &pid()).unwrap()
}

fn register(ledger: &mut Ledger, owner: &Vec<u8>, price: u64, now: i64) -> Vec<u8> {
    let (addr, _bump) = profile_addr(owner);
    let ctx = RegisterUser { owner: owner.clone(), profile: addr.clone() };
    register_user(ledger, &ctx, price, now).unwrap();
    addr
}

#[test]
fn register_then_load() {
    let mut ledger = new_ledger();
    let owner = key(1);
    let (addr, bump) = profile_addr(&owner);
    let ctx = RegisterUser { owner: owner.clone(), profile: addr.clone() };
    assert_eq!(register_user(&mut ledger, &ctx, 250, 1700), Ok(()));
    let p = ledger.load_profile(&addr).unwrap();
    assert_eq!(p.owner, owner);
    assert_eq!(p.price_lamports, 250);
    assert_eq!(p.inbox_count, 0);
    assert_eq!(p.received_total, 0);
    assert_eq!(p.created_at, 1700);
    assert_eq!(p.bump, bump);
}

#[test]
fn register_twice_fails() {
    let mut ledger = new_ledger();
    let owner = key(2);
    let addr = register(&mut ledger, &owner, 100, 1);
    let ctx = RegisterUser { owner: owner.clone(), profile: addr.clone() };
    assert_eq!(register_user(&mut ledger, &ctx, 999, 2), Err(ErrorCode::AlreadyRegistered));
    let p = ledger.load_profile(&addr).unwrap();
    assert_eq!(p.price_lamports, 100);
    assert_eq!(p.created_at, 1);
}

#[test]
fn register_rejects_substituted_address() {
    let mut ledger = new_ledger();
    let owner = key(3);
    let (addr, _) = profile_addr(&owner);
    let wrong = key(4);
    let ctx = RegisterUser { owner: owner.clone(), profile: wrong };
    assert_eq!(register_user(&mut ledger, &ctx, 10, 1), Err(ErrorCode::AddressMismatch));
    assert_eq!(ledger.load_profile(&addr).unwrap_err(), ErrorCode::NotFound);
}

#[test]
fn update_price_by_owner() {
    let mut ledger = new_ledger();
    let owner = key(5);
    let addr = register(&mut ledger, &owner, 100, 1);
    let ctx = UpdatePrice { owner: owner.clone(), profile: addr.clone() };
    assert_eq!(update_price(&mut ledger, &ctx, 777), Ok(()));
    let p = ledger.load_profile(&addr).unwrap();
    assert_eq!(p.price_lamports, 777);
    assert_eq!(p.owner, owner);
    assert_eq!(p.inbox_count, 0);
    assert_eq!(p.received_total, 0);
    assert_eq!(p.created_at, 1);
}

#[test]
fn update_price_unauthorized() {
    let mut ledger = new_ledger();
    let owner = key(6);
    let addr = register(&mut ledger, &owner, 100, 1);
    let intruder = key(7);
    let ctx = UpdatePrice { owner: intruder, profile: addr.clone() };
    assert_eq!(update_price(&mut ledger, &ctx, 1), Err(ErrorCode::Unauthorized));
    assert_eq!(ledger.load_profile(&addr).unwrap().price_lamports, 100);
}

#[test]
fn update_price_unregistered() {
    let mut ledger = new_ledger();
    let owner = key(8);
    let (addr, _) = profile_addr(&owner);
    let ctx = UpdatePrice { owner, profile: addr };
    assert_eq!(update_price(&mut ledger, &ctx, 1), Err(ErrorCode::NotFound));
}

#[test]
fn send_message_underpriced() {
    let mut ledger = new_ledger();
    let recipient = key(10);
    let paddr = register(&mut ledger, &recipient, 100, 1);
    let sender = key(11);
    ledger.credit(&sender, 1000).unwrap();
    let (maddr, _) = message_addr(&recipient, &sender, 1);
    let ctx = SendMessage {
        sender: sender.clone(),
        recipient: recipient.clone(),
        recipient_profile: paddr.clone(),
        message: maddr.clone(),
    };
    let r = send_message(&mut ledger, &ctx, 1, 50, vec![1, 2, 3], 5);
    assert_eq!(r, Err(ErrorCode::Underpriced));
    assert_eq!(ledger.load_message(&maddr).unwrap_err(), ErrorCode::NotFound);
    assert_eq!(ledger.balance_of(&sender), 1000);
    assert_eq!(ledger.balance_of(&maddr), 0);
    assert_eq!(ledger.load_profile(&paddr).unwrap().inbox_count, 0);
}

#[test]
fn send_message_content_too_long() {
    let mut ledger = new_ledger();
    let recipient = key(12);
    let paddr = register(&mut ledger, &recipient, 100, 1);
    let sender = key(13);
    ledger.credit(&sender, 1000).unwrap();
    let (maddr, _) = message_addr(&recipient, &sender, 1);
    let ctx = SendMessage {
        sender: sender.clone(),
        recipient,
        recipient_profile: paddr,
        message: maddr.clone(),
    };
    let long = vec![0u8; 257];
    let r = send_message(&mut ledger, &ctx, 1, 150, long, 5);
    assert_eq!(r, Err(ErrorCode::ContentTooLong));
    assert_eq!(ledger.load_message(&maddr).unwrap_err(), ErrorCode::NotFound);
    assert_eq!(ledger.balance_of(&sender), 1000);
}

#[test]
fn send_message_insufficient_funds() {
    let mut ledger = new_ledger();
    let recipient = key(14);
    let paddr = register(&mut ledger, &recipient, 10, 1);
    let sender = key(15);
    ledger.credit(&sender, 5).unwrap();
    let (maddr, _) = message_addr(&recipient, &sender, 1);
    let ctx = SendMessage {
        sender: sender.clone(),
        recipient,
        recipient_profile: paddr,
        message: maddr.clone(),
    };
    let r = send_message(&mut ledger, &ctx, 1, 10, vec![], 5);
    assert_eq!(r, Err(ErrorCode::InsufficientFunds));
    assert_eq!(ledger.balance_of(&sender), 5);
    assert_eq!(ledger.load_message(&maddr).unwrap_err(), ErrorCode::NotFound);
}

#[test]
fn send_message_rejects_substituted_message_address() {
    let mut ledger = new_ledger();
    let recipient = key(16);
    let paddr = register(&mut ledger, &recipient, 10, 1);
    let sender = key(17);
    ledger.credit(&sender, 100).unwrap();
    let ctx = SendMessage {
        sender: sender.clone(),
        recipient,
        recipient_profile: paddr,
        message: key(18),
    };
    let r = send_message(&mut ledger, &ctx, 1, 10, vec![], 5);
    assert_eq!(r, Err(ErrorCode::AddressMismatch));
    assert_eq!(ledger.balance_of(&sender), 100);
}

#[test]
fn end_to_end_register_send_claim() {
    let mut ledger = new_ledger();
    let recipient = key(20);
    let paddr = register(&mut ledger, &recipient, 100, 1);
    let sender = key(21);
    ledger.credit(&sender, 500).unwrap();

    let (maddr, mbump) = message_addr(&recipient, &sender, 1);
    let send_ctx = SendMessage {
        sender: sender.clone(),
        recipient: recipient.clone(),
        recipient_profile: paddr.clone(),
        message: maddr.clone(),
    };
    assert_eq!(send_message(&mut ledger, &send_ctx, 1, 150, vec![42u8; 16], 9), Ok(()));

    assert_eq!(ledger.balance_of(&sender), 350);
    assert_eq!(ledger.balance_of(&maddr), 150);
    let p = ledger.load_profile(&paddr).unwrap();
    assert_eq!(p.inbox_count, 1);
    assert_eq!(p.received_total, 0);
    let m = ledger.load_message(&maddr).unwrap();
    assert_eq!(m.sender, sender);
    assert_eq!(m.recipient, recipient);
    assert_eq!(m.amount_lamports, 150);
    assert_eq!(m.created_at, 9);
    assert!(!m.read);
    assert_eq!(m.content, vec![42u8; 16]);
    assert_eq!(m.bump, mbump);

    let claim_ctx = ReadAndClaim {
        recipient: recipient.clone(),
        recipient_profile: paddr.clone(),
        message: maddr.clone(),
    };
    assert_eq!(read_and_claim(&mut ledger, &claim_ctx), Ok(()));
    assert_eq!(ledger.balance_of(&recipient), 150);
    assert_eq!(ledger.balance_of(&maddr), 0);
    let p = ledger.load_profile(&paddr).unwrap();
    assert_eq!(p.inbox_count, 1);
    assert_eq!(p.received_total, 150);
    assert_eq!(ledger.load_message(&maddr).unwrap_err(), ErrorCode::NotFound);

    // A second claim at the dead address fails NotFound.
    assert_eq!(read_and_claim(&mut ledger, &claim_ctx), Err(ErrorCode::NotFound));
    assert_eq!(ledger.balance_of(&recipient), 150);
}

#[test]
fn claim_by_non_recipient_unauthorized() {
    let mut ledger = new_ledger();
    let recipient = key(22);
    let paddr = register(&mut ledger, &recipient, 10, 1);
    let sender = key(23);
    ledger.credit(&sender, 100).unwrap();
    let (maddr, _) = message_addr(&recipient, &sender, 1);
    let send_ctx = SendMessage {
        sender: sender.clone(),
        recipient: recipient.clone(),
        recipient_profile: paddr.clone(),
        message: maddr.clone(),
    };
    assert_eq!(send_message(&mut ledger, &send_ctx, 1, 10, vec![], 2), Ok(()));

    let intruder = key(24);
    let (iaddr, _) = profile_addr(&intruder);
    let claim_ctx =
        ReadAndClaim { recipient: intruder, recipient_profile: iaddr, message: maddr.clone() };
    assert_eq!(read_and_claim(&mut ledger, &claim_ctx), Err(ErrorCode::Unauthorized));
    assert_eq!(ledger.balance_of(&maddr), 10);
    assert!(ledger.load_message(&maddr).is_ok());
}

#[test]
fn distinct_nonces_distinct_addresses() {
    let mut ledger = new_ledger();
    let recipient = key(30);
    let paddr = register(&mut ledger, &recipient, 10, 1);
    let sender = key(31);
    ledger.credit(&sender, 1000).unwrap();

    let (maddr1, _) = message_addr(&recipient, &sender, 1);
    let (maddr2, _) = message_addr(&recipient, &sender, 2);
    assert_ne!(maddr1, maddr2);

    let ctx1 = SendMessage {
        sender: sender.clone(),
        recipient: recipient.clone(),
        recipient_profile: paddr.clone(),
        message: maddr1.clone(),
    };
    let ctx2 = SendMessage {
        sender: sender.clone(),
        recipient: recipient.clone(),
        recipient_profile: paddr.clone(),
        message: maddr2.clone(),
    };
    assert_eq!(send_message(&mut ledger, &ctx1, 1, 10, vec![1], 2), Ok(()));
    assert_eq!(send_message(&mut ledger, &ctx2, 2, 20, vec![2], 3), Ok(()));
    assert_eq!(ledger.load_message(&maddr1).unwrap().amount_lamports, 10);
    assert_eq!(ledger.load_message(&maddr2).unwrap().amount_lamports, 20);
    assert_eq!(ledger.load_profile(&paddr).unwrap().inbox_count, 2);

    // Reusing a (recipient, sender, nonce) triple is rejected.
    assert_eq!(send_message(&mut ledger, &ctx1, 1, 30, vec![3], 4), Err(ErrorCode::AlreadyExists));
    assert_eq!(ledger.load_message(&maddr1).unwrap().amount_lamports, 10);
    assert_eq!(ledger.balance_of(&sender), 970);
}

#[test]
fn credit_overflow() {
    let mut ledger = new_ledger();
    let addr = key(40);
    ledger.credit(&addr, u64::MAX).unwrap();
    assert_eq!(ledger.credit(&addr, 1), Err(ErrorCode::CounterOverflow));
    assert_eq!(ledger.balance_of(&addr), u64::MAX);
}

#[test]
fn message_capacity() {
    let over = Message::new(key(1), key(2), 5, 1, vec![0u8; MAX_CONTENT_LEN + 1], 255);
    assert_eq!(over.unwrap_err(), ErrorCode::CapacityExceeded);
    let fit = Message::new(key(1), key(2), 5, 1, vec![0u8; MAX_CONTENT_LEN], 255).unwrap();
    assert_eq!(fit.content.len(), MAX_CONTENT_LEN);
    assert!(!fit.read);
}

#[test]
fn record_space() {
    assert_eq!(UserProfile::SPACE, 32 + 8 + 8 + 8 + 8 + 1);
    assert_eq!(Message::SPACE_PREFIX, 32 + 32 + 8 + 8 + 1 + 1);
    assert_eq!(Message::space_with_content(MAX_CONTENT_LEN), MESSAGE_MAX_SPACE);
    assert_eq!(Message::space_with_content(0), 8 + Message::SPACE_PREFIX + 4);
}
