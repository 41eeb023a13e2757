use anchor_lang::prelude::Pubkey;
use cryptopayly::address::{payment_link_address, profile_address};
use cryptopayly::key::Key;
use cryptopayly::program::{
    create_payment_link, create_user_profile, get_payment_link, get_user_profile, remove_payment_link,
    update_payment_link, CreatePaymentLink, CreateUserProfile, PaymentLinkCreateInput, RemovePaymentLink,
    UpdatePaymentLink, UpdatePaymentLinkInput,
};
use cryptopayly::state::{AccountData, Currency, PaymentLinkAccount, ProgramError, UserProfileAccount};
use cryptopayly::store::AccountStore;

fn key(b: u8) -> Key {
    Key::new([b; 32])
}

fn program() -> Key {
    key(200)
}

fn new_store() -> AccountStore {
    AccountStore::new(program())
}

fn profile_ctx(owner: Key) -> CreateUserProfile {
    CreateUserProfile { authority: owner, lamports: 1_000 }
}

fn link_ctx(owner: Key) -> CreatePaymentLink {
    CreatePaymentLink { authority: owner, lamports: 2_000 }
}

fn input(amount: u64, currency: Currency, reference: Key) -> PaymentLinkCreateInput {
    PaymentLinkCreateInput { amount, currency, reference }
}

fn same(a: &Key, b: &Key) -> bool {
    a.bytes == b.bytes
}

#[test]
fn profile_address_matches_anchor_derivation() {
    let owner = key(1);
    let pid = program();
    let got = profile_address(&pid, &owner).unwrap();
    let (expected, _) =
        Pubkey::find_program_address(&[b"user".as_ref(), owner.bytes.as_ref()], &Pubkey::new_from_array(pid.bytes));
    assert_eq!(got.bytes, expected.to_bytes());
    assert_ne!(got.bytes, owner.bytes);
    assert_eq!(profile_address(&pid, &owner).unwrap().bytes, got.bytes);
}

#[test]
fn payment_link_address_matches_anchor_derivation() {
    let owner = key(1);
    let pid = program();
    let got = payment_link_address(&pid, &owner, 3).unwrap();
    let (expected, _) = Pubkey::find_program_address(
        &[b"payment_link".as_ref(), owner.bytes.as_ref(), &[3u8]],
        &Pubkey::new_from_array(pid.bytes),
    );
    assert_eq!(got.bytes, expected.to_bytes());
    let other = payment_link_address(&pid, &owner, 4).unwrap();
    assert_ne!(got.bytes, other.bytes);
    let other_owner = payment_link_address(&pid, &key(2), 3).unwrap();
    assert_ne!(got.bytes, other_owner.bytes);
}

#[test]
fn profile_created_once() {
    let mut store = new_store();
    let owner = key(1);
    assert_eq!(create_user_profile(&mut store, profile_ctx(owner)), Ok(()));
    let p = get_user_profile(&store, &owner).unwrap();
    assert!(same(&p.authority, &owner));
    assert_eq!(p.last_payment_link, 0);
    assert_eq!(create_user_profile(&mut store, profile_ctx(owner)), Err(ProgramError::AddressAlreadyInUse));
    assert_eq!(get_user_profile(&store, &owner).unwrap().last_payment_link, 0);
    // another owner still gets a profile of its own
    assert_eq!(create_user_profile(&mut store, profile_ctx(key(2))), Ok(()));
}

#[test]
fn link_needs_profile() {
    let mut store = new_store();
    let owner = key(1);
    assert_eq!(
        create_payment_link(&mut store, link_ctx(owner), input(5, Currency::Sol, key(9))),
        Err(ProgramError::RecordNotFound)
    );
    assert_eq!(get_payment_link(&store, &owner, 0).err(), Some(ProgramError::RecordNotFound));
}

#[test]
fn links_take_successive_indices() {
    let mut store = new_store();
    let owner = key(1);
    create_user_profile(&mut store, profile_ctx(owner)).unwrap();
    for i in 0u8..5 {
        let before = get_user_profile(&store, &owner).unwrap().last_payment_link;
        assert_eq!(before, i);
        let amount = 100 + i as u64;
        assert_eq!(create_payment_link(&mut store, link_ctx(owner), input(amount, Currency::Usdc, key(i))), Ok(()));
        let link = get_payment_link(&store, &owner, i).unwrap();
        assert_eq!(link.idx, before);
        assert_eq!(link.amount, amount);
        assert_eq!(link.currency, Currency::Usdc);
        assert!(same(&link.reference, &key(i)));
        assert!(same(&link.authority, &owner));
        assert_eq!(get_user_profile(&store, &owner).unwrap().last_payment_link, i + 1);
    }
}

#[test]
fn update_amount_only_keeps_currency() {
    let mut store = new_store();
    let owner = key(1);
    create_user_profile(&mut store, profile_ctx(owner)).unwrap();
    create_payment_link(&mut store, link_ctx(owner), input(10, Currency::Usdc, key(9))).unwrap();
    let upd = UpdatePaymentLinkInput { amount: Some(42), currency: None };
    assert_eq!(update_payment_link(&mut store, UpdatePaymentLink { authority: owner }, 0, upd), Ok(()));
    let link = get_payment_link(&store, &owner, 0).unwrap();
    assert_eq!(link.amount, 42);
    assert_eq!(link.currency, Currency::Usdc);
    assert!(same(&link.reference, &key(9)));
    assert_eq!(link.idx, 0);
}

#[test]
fn update_currency_only_keeps_amount() {
    let mut store = new_store();
    let owner = key(1);
    create_user_profile(&mut store, profile_ctx(owner)).unwrap();
    create_payment_link(&mut store, link_ctx(owner), input(10, Currency::Usdc, key(9))).unwrap();
    let upd = UpdatePaymentLinkInput { amount: None, currency: Some(Currency::Sol) };
    assert_eq!(update_payment_link(&mut store, UpdatePaymentLink { authority: owner }, 0, upd), Ok(()));
    let link = get_payment_link(&store, &owner, 0).unwrap();
    assert_eq!(link.amount, 10);
    assert_eq!(link.currency, Currency::Sol);
}

#[test]
fn update_with_nothing_set_succeeds_and_changes_nothing() {
    let mut store = new_store();
    let owner = key(1);
    create_user_profile(&mut store, profile_ctx(owner)).unwrap();
    create_payment_link(&mut store, link_ctx(owner), input(10, Currency::Usdc, key(9))).unwrap();
    let upd = UpdatePaymentLinkInput { amount: None, currency: None };
    assert_eq!(update_payment_link(&mut store, UpdatePaymentLink { authority: owner }, 0, upd), Ok(()));
    let link = get_payment_link(&store, &owner, 0).unwrap();
    assert_eq!(link.amount, 10);
    assert_eq!(link.currency, Currency::Usdc);
    assert!(same(&link.reference, &key(9)));
}

#[test]
fn update_missing_link_fails() {
    let mut store = new_store();
    let owner = key(1);
    create_user_profile(&mut store, profile_ctx(owner)).unwrap();
    let upd = UpdatePaymentLinkInput { amount: Some(1), currency: None };
    assert_eq!(
        update_payment_link(&mut store, UpdatePaymentLink { authority: owner }, 0, upd),
        Err(ProgramError::RecordNotFound)
    );
}

#[test]
fn remove_then_read_fails_and_index_is_not_reused() {
    let mut store = new_store();
    let owner = key(1);
    create_user_profile(&mut store, profile_ctx(owner)).unwrap();
    create_payment_link(&mut store, link_ctx(owner), input(10, Currency::Sol, key(9))).unwrap();
    create_payment_link(&mut store, link_ctx(owner), input(11, Currency::Sol, key(8))).unwrap();
    assert_eq!(remove_payment_link(&mut store, RemovePaymentLink { authority: owner }, 0), Ok(2_000));
    assert_eq!(get_payment_link(&store, &owner, 0).err(), Some(ProgramError::RecordNotFound));
    assert_eq!(get_payment_link(&store, &owner, 1).unwrap().amount, 11);
    assert_eq!(get_user_profile(&store, &owner).unwrap().last_payment_link, 2);
    create_payment_link(&mut store, link_ctx(owner), input(12, Currency::Usdc, key(7))).unwrap();
    assert_eq!(get_payment_link(&store, &owner, 2).unwrap().idx, 2);
    assert_eq!(get_payment_link(&store, &owner, 0).err(), Some(ProgramError::RecordNotFound));
    assert_eq!(
        remove_payment_link(&mut store, RemovePaymentLink { authority: owner }, 0),
        Err(ProgramError::RecordNotFound)
    );
}

#[test]
fn remove_needs_profile() {
    let mut store = new_store();
    assert_eq!(
        remove_payment_link(&mut store, RemovePaymentLink { authority: key(1) }, 0),
        Err(ProgramError::RecordNotFound)
    );
}

#[test]
fn foreign_link_update_and_remove_are_unauthorized() {
    let mut store = new_store();
    let owner = key(1);
    let intruder = key(2);
    create_user_profile(&mut store, profile_ctx(intruder)).unwrap();
    // a record of `owner` placed where the intruder's link 0 would live
    let addr = payment_link_address(&store.program_id(), &intruder, 0).unwrap();
    let foreign = PaymentLinkAccount { authority: owner, amount: 7, currency: Currency::Sol, reference: key(5), idx: 0 };
    store.create(&addr, AccountData::PaymentLink(foreign), 3).unwrap();
    let upd = UpdatePaymentLinkInput { amount: Some(99), currency: Some(Currency::Usdc) };
    assert_eq!(
        update_payment_link(&mut store, UpdatePaymentLink { authority: intruder }, 0, upd),
        Err(ProgramError::Unauthorized)
    );
    assert_eq!(
        remove_payment_link(&mut store, RemovePaymentLink { authority: intruder }, 0),
        Err(ProgramError::Unauthorized)
    );
    let kept = get_payment_link(&store, &intruder, 0).unwrap();
    assert_eq!(kept.amount, 7);
    assert_eq!(kept.currency, Currency::Sol);
    assert!(same(&kept.authority, &owner));
}

#[test]
fn other_identity_cannot_reach_owner_link() {
    let mut store = new_store();
    let owner = key(1);
    let other = key(2);
    create_user_profile(&mut store, profile_ctx(owner)).unwrap();
    create_user_profile(&mut store, profile_ctx(other)).unwrap();
    create_payment_link(&mut store, link_ctx(owner), input(10, Currency::Sol, key(9))).unwrap();
    let upd = UpdatePaymentLinkInput { amount: Some(99), currency: None };
    assert!(update_payment_link(&mut store, UpdatePaymentLink { authority: other }, 0, upd).is_err());
    assert!(remove_payment_link(&mut store, RemovePaymentLink { authority: other }, 0).is_err());
    assert_eq!(get_payment_link(&store, &owner, 0).unwrap().amount, 10);
}

#[test]
fn wrong_record_type_is_a_mismatch() {
    let mut store = new_store();
    let owner = key(1);
    create_user_profile(&mut store, profile_ctx(owner)).unwrap();
    let addr = payment_link_address(&store.program_id(), &owner, 0).unwrap();
    let profile = UserProfileAccount { authority: owner, last_payment_link: 0 };
    store.create(&addr, AccountData::Profile(profile), 1).unwrap();
    let upd = UpdatePaymentLinkInput { amount: Some(1), currency: None };
    assert_eq!(
        update_payment_link(&mut store, UpdatePaymentLink { authority: owner }, 0, upd),
        Err(ProgramError::TypeMismatch)
    );
    assert_eq!(get_payment_link(&store, &owner, 0).err(), Some(ProgramError::TypeMismatch));
    // the occupied address also stops link creation at index 0
    assert_eq!(
        create_payment_link(&mut store, link_ctx(owner), input(1, Currency::Sol, key(3))),
        Err(ProgramError::AddressAlreadyInUse)
    );
    assert_eq!(get_user_profile(&store, &owner).unwrap().last_payment_link, 0);
}

#[test]
fn counter_stops_at_255() {
    let mut store = new_store();
    let owner = key(1);
    create_user_profile(&mut store, profile_ctx(owner)).unwrap();
    for i in 0u16..255 {
        assert_eq!(
            create_payment_link(&mut store, link_ctx(owner), input(i as u64, Currency::Sol, key(3))),
            Ok(()),
            "link {}",
            i
        );
    }
    assert_eq!(get_user_profile(&store, &owner).unwrap().last_payment_link, 255);
    assert_eq!(get_payment_link(&store, &owner, 254).unwrap().idx, 254);
    assert_eq!(
        create_payment_link(&mut store, link_ctx(owner), input(1, Currency::Sol, key(3))),
        Err(ProgramError::CounterOverflow)
    );
    assert_eq!(
        create_payment_link(&mut store, link_ctx(owner), input(2, Currency::Sol, key(3))),
        Err(ProgramError::CounterOverflow)
    );
    assert_eq!(get_user_profile(&store, &owner).unwrap().last_payment_link, 255);
    assert_eq!(get_payment_link(&store, &owner, 255).err(), Some(ProgramError::RecordNotFound));
}

#[test]
fn end_to_end_lifecycle() {
    let mut store = new_store();
    let a = key(1);
    let r1 = key(42);
    assert_eq!(create_user_profile(&mut store, profile_ctx(a)), Ok(()));
    assert_eq!(create_payment_link(&mut store, link_ctx(a), input(1000, Currency::Sol, r1)), Ok(()));
    assert_eq!(get_payment_link(&store, &a, 0).unwrap().idx, 0);
    let upd = UpdatePaymentLinkInput { amount: Some(2000), currency: None };
    assert_eq!(update_payment_link(&mut store, UpdatePaymentLink { authority: a }, 0, upd), Ok(()));
    let link = get_payment_link(&store, &a, 0).unwrap();
    assert_eq!(link.amount, 2000);
    assert_eq!(link.currency, Currency::Sol);
    assert!(same(&link.reference, &r1));
    assert_eq!(remove_payment_link(&mut store, RemovePaymentLink { authority: a }, 0), Ok(2_000));
    assert_eq!(get_payment_link(&store, &a, 0).err(), Some(ProgramError::RecordNotFound));
    assert_eq!(create_payment_link(&mut store, link_ctx(a), input(5, Currency::Usdc, key(43))), Ok(()));
    assert_eq!(get_payment_link(&store, &a, 1).unwrap().idx, 1);
    assert_eq!(get_payment_link(&store, &a, 0).err(), Some(ProgramError::RecordNotFound));
}

#[test]
fn store_create_read_write_close() {
    let mut store = new_store();
    let addr = key(77);
    let p = UserProfileAccount { authority: key(1), last_payment_link: 3 };
    assert_eq!(store.create(&addr, AccountData::Profile(p), 500), Ok(()));
    assert_eq!(store.create(&addr, AccountData::Profile(p), 600), Err(ProgramError::AddressAlreadyInUse));
    assert_eq!(store.open_profile(&addr).unwrap().last_payment_link, 3);
    assert_eq!(store.open_payment_link(&addr).err(), Some(ProgramError::TypeMismatch));
    let q = UserProfileAccount { authority: key(1), last_payment_link: 4 };
    store.write(&addr, AccountData::Profile(q));
    assert_eq!(store.open_profile(&addr).unwrap().last_payment_link, 4);
    assert_eq!(store.close(&addr), Some(500));
    assert_eq!(store.close(&addr), None);
    assert!(store.read(&addr).is_none());
    assert_eq!(store.open_profile(&addr).err(), Some(ProgramError::RecordNotFound));
}

#[test]
fn key_comparison_and_bytes() {
    let a = key(1);
    let mut bytes = [1u8; 32];
    assert!(a.same_as(&Key::new(bytes)));
    bytes[31] = 2;
    assert!(!a.same_as(&Key::new(bytes)));
    assert_eq!(a.to_vec(), vec![1u8; 32]);
}
