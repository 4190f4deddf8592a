use escrow::contract::Escrow;
use escrow::fee::{fee_payout, net_vendor_payout};
use escrow::types::{Address, DataKey, EscrowError, EscrowState, StoredValue};

fn addr(s: &str) -> Address {
    Address::from_strkey(s.as_bytes().to_vec())
}

fn admin() -> Address {
    addr("GADMINAAAAAAAAAAAAAAAAAAAAAAAAAAAAAAAAAAAAAAAAAAAAAAAAAA")
}

fn seller() -> Address {
    addr("GSELLERAAAAAAAAAAAAAAAAAAAAAAAAAAAAAAAAAAAAAAAAAAAAAAAAA")
}

fn buyer() -> Address {
    addr("GBUYERAAAAAAAAAAAAAAAAAAAAAAAAAAAAAAAAAAAAAAAAAAAAAAAAAA")
}

fn resolver() -> Address {
    addr("GRESOLVERAAAAAAAAAAAAAAAAAAAAAAAAAAAAAAAAAAAAAAAAAAAAAAA")
}

fn token() -> Address {
    addr("CTOKENAAAAAAAAAAAAAAAAAAAAAAAAAAAAAAAAAAAAAAAAAAAAAAAAAA")
}

#[test]
fn test_fee_change_does_not_affect_funded_escrow() {
    let mut contract = Escrow::new();
    let admin = admin();

    // 1% base fee
    contract.initialize(admin.duplicate(), 100).unwrap();

    let escrow_amount = 1_000_000_i128;
    let escrow_id = contract
        .create_escrow(seller(), resolver(), token(), escrow_amount, 604800, 1_000)
        .unwrap();
    contract.fund_escrow(escrow_id, buyer(), 1_001).unwrap();

    // the admin raises the default fee to 3% while the escrow is open
    contract.set_fee(&admin, 300).unwrap();

    let net_payout = contract.confirm_delivery(escrow_id).unwrap();
    assert_eq!(net_payout, 990_000);

    let escrow_state = contract.get_escrow(escrow_id).unwrap();
    assert_eq!(escrow_state.fee_bps, 100);
}

#[test]
fn test_initialize_sets_entries() {
    let mut contract = Escrow::new();
    assert!(contract.get(&DataKey::Admin).is_none());
    contract.initialize(admin(), 250).unwrap();
    match contract.get(&DataKey::Admin) {
        Some(StoredValue::Address(a)) => assert!(a.same(&admin())),
        _ => panic!("admin entry missing"),
    }
    assert!(matches!(contract.get(&DataKey::DefaultFeeBps), Some(StoredValue::U32(250))));
    assert!(matches!(contract.get(&DataKey::EscrowCounter), Some(StoredValue::U32(1))));
}

#[test]
fn test_initialize_twice_rejected() {
    let mut contract = Escrow::new();
    contract.initialize(admin(), 100).unwrap();
    assert_eq!(contract.initialize(seller(), 500), Err(EscrowError::AlreadyInitialized));
    // nothing changed: the fee is still the first one
    assert!(matches!(contract.get(&DataKey::DefaultFeeBps), Some(StoredValue::U32(100))));
    match contract.get(&DataKey::Admin) {
        Some(StoredValue::Address(a)) => assert!(a.same(&admin())),
        _ => panic!("admin entry missing"),
    }
}

#[test]
fn test_set_fee_errors() {
    let mut contract = Escrow::new();
    assert_eq!(contract.set_fee(&admin(), 300), Err(EscrowError::NotInitialized));
    contract.initialize(admin(), 100).unwrap();
    assert_eq!(contract.set_fee(&seller(), 300), Err(EscrowError::Unauthorized));
    assert!(matches!(contract.get(&DataKey::DefaultFeeBps), Some(StoredValue::U32(100))));
    contract.set_fee(&admin(), 300).unwrap();
    assert!(matches!(contract.get(&DataKey::DefaultFeeBps), Some(StoredValue::U32(300))));
}

#[test]
fn test_new_fee_applies_to_new_escrows() {
    let mut contract = Escrow::new();
    contract.initialize(admin(), 100).unwrap();
    let first = contract.create_escrow(seller(), resolver(), token(), 10_000, 60, 1).unwrap();
    contract.set_fee(&admin(), 300).unwrap();
    let second = contract.create_escrow(seller(), resolver(), token(), 10_000, 60, 2).unwrap();
    assert_eq!(contract.get_escrow(first).unwrap().fee_bps, 100);
    assert_eq!(contract.get_escrow(second).unwrap().fee_bps, 300);
}

#[test]
fn test_ids_are_consecutive() {
    let mut contract = Escrow::new();
    contract.initialize(admin(), 0).unwrap();
    let a = contract.create_escrow(seller(), resolver(), token(), 1, 1, 1).unwrap();
    let b = contract.create_escrow(seller(), resolver(), token(), 2, 1, 1).unwrap();
    let c = contract.create_escrow(seller(), resolver(), token(), 3, 1, 1).unwrap();
    assert_eq!((a, b, c), (1, 2, 3));
    assert!(matches!(contract.get(&DataKey::EscrowCounter), Some(StoredValue::U32(4))));
}

#[test]
fn test_create_before_initialize_uses_defaults() {
    let mut contract = Escrow::new();
    let id = contract.create_escrow(seller(), resolver(), token(), 500, 86400, 77).unwrap();
    assert_eq!(id, 1);
    let record = contract.get_escrow(id).unwrap();
    assert_eq!(record.fee_bps, 0);
    assert_eq!(record.state, EscrowState::Pending);
    assert_eq!(record.created_at, 77);
    assert_eq!(record.funded_at, 0);
    assert_eq!(record.shipped_at, 0);
    assert_eq!(record.shipping_window, 86400);
    assert_eq!(record.amount, 500);
    assert!(record.buyer.is_none());
    assert!(record.seller.same(&seller()));
    assert!(record.resolver.same(&resolver()));
    assert!(record.token.same(&token()));
}

#[test]
fn test_counter_overflow_rejected() {
    let mut contract = Escrow::new();
    contract.put(DataKey::EscrowCounter, StoredValue::U32(u32::MAX)).unwrap();
    assert_eq!(
        contract.create_escrow(seller(), resolver(), token(), 1, 1, 1),
        Err(EscrowError::CounterOverflow)
    );
    assert!(contract.get(&DataKey::Escrow(u32::MAX)).is_none());
}

#[test]
fn test_fund_escrow_flow() {
    let mut contract = Escrow::new();
    contract.initialize(admin(), 100).unwrap();
    assert_eq!(contract.fund_escrow(9, buyer(), 5), Err(EscrowError::EscrowNotFound));
    let id = contract.create_escrow(seller(), resolver(), token(), 1000, 60, 3).unwrap();
    contract.fund_escrow(id, buyer(), 5).unwrap();
    let record = contract.get_escrow(id).unwrap();
    assert_eq!(record.state, EscrowState::Funded);
    assert_eq!(record.funded_at, 5);
    assert!(record.buyer.unwrap().same(&buyer()));
    assert_eq!(contract.fund_escrow(id, seller(), 6), Err(EscrowError::NotPending));
    assert_eq!(contract.get_escrow(id).unwrap().funded_at, 5);
}

#[test]
fn test_confirm_delivery_errors() {
    let mut contract = Escrow::new();
    contract.initialize(admin(), 100).unwrap();
    assert_eq!(contract.confirm_delivery(3), Err(EscrowError::EscrowNotFound));
    let id = contract.create_escrow(seller(), resolver(), token(), 1000, 60, 3).unwrap();
    assert!(matches!(contract.confirm_delivery_authorizer(id), Err(EscrowError::NoBuyer)));
    assert_eq!(contract.confirm_delivery(id), Err(EscrowError::NoBuyer));
    assert_eq!(contract.get_escrow(id).unwrap().state, EscrowState::Pending);
}

#[test]
fn test_confirm_delivery_authorizer_is_buyer() {
    let mut contract = Escrow::new();
    contract.initialize(admin(), 100).unwrap();
    let id = contract.create_escrow(seller(), resolver(), token(), 1000, 60, 3).unwrap();
    contract.fund_escrow(id, buyer(), 4).unwrap();
    let who = contract.confirm_delivery_authorizer(id).unwrap();
    assert!(who.same(&buyer()));
    assert!(!who.same(&seller()));
}

#[test]
fn test_confirm_delivery_completes_and_pays() {
    let mut contract = Escrow::new();
    contract.initialize(admin(), 250).unwrap();
    let id = contract.create_escrow(seller(), resolver(), token(), 12_345, 60, 3).unwrap();
    contract.fund_escrow(id, buyer(), 4).unwrap();
    // fee = 12345 * 250 / 10000 = 308 (rounded down)
    assert_eq!(contract.confirm_delivery(id), Ok(12_037));
    assert_eq!(contract.get_escrow(id).unwrap().state, EscrowState::Completed);
}

#[test]
fn test_confirm_delivery_fee_overflow() {
    let mut contract = Escrow::new();
    contract.initialize(admin(), 2).unwrap();
    let id = contract.create_escrow(seller(), resolver(), token(), i128::MAX, 60, 3).unwrap();
    contract.fund_escrow(id, buyer(), 4).unwrap();
    assert_eq!(contract.confirm_delivery(id), Err(EscrowError::FeeOverflow));
    assert_eq!(contract.get_escrow(id).unwrap().state, EscrowState::Funded);
}

#[test]
fn test_get_escrow_missing() {
    let contract = Escrow::new();
    assert!(matches!(contract.get_escrow(1), Err(EscrowError::EscrowNotFound)));
}

#[test]
fn test_put_rejects_mismatched_entry() {
    let mut contract = Escrow::new();
    assert_eq!(contract.put(DataKey::Admin, StoredValue::U32(7)), Err(EscrowError::MismatchedEntry));
    assert!(contract.get(&DataKey::Admin).is_none());
    assert_eq!(
        contract.put(DataKey::Escrow(1), StoredValue::Address(buyer())),
        Err(EscrowError::MismatchedEntry)
    );
    assert!(contract.get(&DataKey::Escrow(1)).is_none());
}

#[test]
fn test_read_after_write() {
    let mut source = Escrow::new();
    source.initialize(admin(), 100).unwrap();
    let id = source.create_escrow(seller(), resolver(), token(), 900, 60, 8).unwrap();
    let record = source.get_escrow(id).unwrap();

    let mut copy = Escrow::new();
    copy.put(DataKey::Escrow(id), StoredValue::Escrow(record)).unwrap();
    copy.put(DataKey::DefaultFeeBps, StoredValue::U32(42)).unwrap();
    let back = copy.get_escrow(id).unwrap();
    assert_eq!(back.amount, 900);
    assert_eq!(back.created_at, 8);
    assert!(back.seller.same(&seller()));
    assert!(matches!(copy.get(&DataKey::DefaultFeeBps), Some(StoredValue::U32(42))));
    assert!(copy.get(&DataKey::Admin).is_none());
    assert!(copy.get(&DataKey::EscrowCounter).is_none());
}

#[test]
fn test_fee_arithmetic() {
    assert_eq!(fee_payout(1_000_000, 100), Some(10_000));
    assert_eq!(net_vendor_payout(1_000_000, 100), Some(990_000));
    assert_eq!(fee_payout(12_345, 250), Some(308));
    assert_eq!(fee_payout(0, 10_000), Some(0));
    assert_eq!(net_vendor_payout(5_000, 10_000), Some(0));
    // a negative product rounds toward zero
    assert_eq!(fee_payout(-15_001, 1), Some(-1));
    assert_eq!(net_vendor_payout(-15_001, 1), Some(-15_000));
    assert_eq!(fee_payout(i128::MAX, 2), None);
    assert_eq!(net_vendor_payout(i128::MIN, 3), None);
}

#[test]
fn test_payout_and_fee_add_up() {
    for (amount, bps) in [(7_i128, 3_u32), (99_999, 9_999), (123_456_789, 10_000), (1, 0)] {
        let fee = fee_payout(amount, bps).unwrap();
        let net = net_vendor_payout(amount, bps).unwrap();
        assert_eq!(fee + net, amount);
        assert!(0 <= fee && fee <= amount);
        assert!(0 <= net && net <= amount);
    }
}

#[test]
fn test_address_same() {
    assert!(admin().same(&admin()));
    assert!(!admin().same(&seller()));
    assert!(!addr("GA").same(&addr("GAB")));
    assert!(addr("").same(&addr("")));
    let a = buyer();
    assert!(a.duplicate().same(&a));
}

#[test]
fn test_initialize_after_create_restarts_counter() {
    // An escrow created before initialization takes id 1; initialization
    // then stores a counter of 1 again, so the next escrow reuses id 1.
    let mut contract = Escrow::new();
    let early = contract.create_escrow(seller(), resolver(), token(), 10, 60, 1).unwrap();
    assert_eq!(early, 1);
    contract.initialize(admin(), 100).unwrap();
    assert!(matches!(contract.get(&DataKey::EscrowCounter), Some(StoredValue::U32(1))));
    let later = contract.create_escrow(seller(), resolver(), token(), 20, 60, 2).unwrap();
    assert_eq!(later, 1);
    assert_eq!(contract.get_escrow(1).unwrap().amount, 20);
}
