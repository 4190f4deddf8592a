use crate::contract::{
    confirm_delivery_authorizer_spec, confirm_delivery_spec, create_escrow_spec, entry, entry_fits,
    current_fee, fund_escrow_spec, initialize_spec, next_id, outcome_value, set_fee_spec, with_entry,
    EscrowStorage,
};
use crate::fee::{fee_computable, fee_of, net_of, BPS_DENOMINATOR};
use crate::types::{DataKey, EscrowError, EscrowState, StoredValueView};
use vstd::prelude::*;

verus! {

/// Every stored escrow id is below the id that the next escrow will get.
pub open spec fn ids_below_counter(s: EscrowStorage) -> bool {
    forall|id: u32| #[trigger] s.escrows.contains_key(id) ==> id < next_id(s)
}

/// A fee change leaves every escrow record as it was, and the payout that
/// confirming any escrow yields is the same after the change as before it:
/// an escrow keeps the fee of the moment it was created.
pub proof fn lemma_fee_change_keeps_existing_escrows(
    s: EscrowStorage,
    admin: Seq<u8>,
    new_fee_bps: u32,
    escrow_id: u32,
)
    requires
        set_fee_spec(s, admin, new_fee_bps) is Ok,
    ensures
        ({
            let s2 = set_fee_spec(s, admin, new_fee_bps)->Ok_0.0;
            &&& s2.escrows == s.escrows
            &&& outcome_value(confirm_delivery_spec(s2, escrow_id)) == outcome_value(
                confirm_delivery_spec(s, escrow_id),
            )
        }),
{
}

/// Once initialized, the contract refuses a second initialization.
pub proof fn lemma_initialize_only_once(
    s: EscrowStorage,
    admin: Seq<u8>,
    default_fee_bps: u32,
    other_admin: Seq<u8>,
    other_fee_bps: u32,
)
    requires
        initialize_spec(s, admin, default_fee_bps) is Ok,
    ensures
        initialize_spec(
            initialize_spec(s, admin, default_fee_bps)->Ok_0.0,
            other_admin,
            other_fee_bps,
        ) == Err::<(EscrowStorage, ()), EscrowError>(EscrowError::AlreadyInitialized),
{
}

/// The fee can be set by the stored admin and by no one else.
pub proof fn lemma_only_admin_sets_fee(s: EscrowStorage, caller: Seq<u8>, new_fee_bps: u32)
    ensures
        set_fee_spec(s, caller, new_fee_bps) is Ok <==> s.admin == Some(caller),
{
}

/// A fee set by the admin is the fee that escrows created after it take.
pub proof fn lemma_new_fee_applies_to_new_escrows(
    s: EscrowStorage,
    admin: Seq<u8>,
    new_fee_bps: u32,
    seller: Seq<u8>,
    resolver: Seq<u8>,
    token: Seq<u8>,
    amount: i128,
    shipping_window: u64,
    now: u64,
)
    requires
        set_fee_spec(s, admin, new_fee_bps) is Ok,
        create_escrow_spec(
            set_fee_spec(s, admin, new_fee_bps)->Ok_0.0,
            seller,
            resolver,
            token,
            amount,
            shipping_window,
            now,
        ) is Ok,
    ensures
        ({
            let s2 = set_fee_spec(s, admin, new_fee_bps)->Ok_0.0;
            let (s3, id) = create_escrow_spec(
                s2,
                seller,
                resolver,
                token,
                amount,
                shipping_window,
                now,
            )->Ok_0;
            s3.escrows[id].fee_bps == new_fee_bps
        }),
{
}

/// Two escrows created one after the other get consecutive ids.
pub proof fn lemma_consecutive_ids(
    s: EscrowStorage,
    seller: Seq<u8>,
    resolver: Seq<u8>,
    token: Seq<u8>,
    amount: i128,
    shipping_window: u64,
    now: u64,
    seller2: Seq<u8>,
    resolver2: Seq<u8>,
    token2: Seq<u8>,
    amount2: i128,
    shipping_window2: u64,
    now2: u64,
)
    requires
        create_escrow_spec(s, seller, resolver, token, amount, shipping_window, now) is Ok,
        create_escrow_spec(
            create_escrow_spec(s, seller, resolver, token, amount, shipping_window, now)->Ok_0.0,
            seller2,
            resolver2,
            token2,
            amount2,
            shipping_window2,
            now2,
        ) is Ok,
    ensures
        ({
            let (s2, id1) = create_escrow_spec(
                s,
                seller,
                resolver,
                token,
                amount,
                shipping_window,
                now,
            )->Ok_0;
            let (_, id2) = create_escrow_spec(
                s2,
                seller2,
                resolver2,
                token2,
                amount2,
                shipping_window2,
                now2,
            )->Ok_0;
            id2 == id1 + 1
        }),
{
}

/// Storage with no entry has no escrow id at or above the counter.
pub proof fn lemma_empty_storage_ids_below_counter(s: EscrowStorage)
    requires
        s.escrows == Map::<u32, crate::types::EscrowDataView>::empty(),
    ensures
        ids_below_counter(s),
{
}

/// Where every stored id is below the counter, `create_escrow` takes an id
/// that no record holds (it overwrites nothing), and the property still
/// holds afterwards.
pub proof fn lemma_create_uses_fresh_id(
    s: EscrowStorage,
    seller: Seq<u8>,
    resolver: Seq<u8>,
    token: Seq<u8>,
    amount: i128,
    shipping_window: u64,
    now: u64,
)
    requires
        ids_below_counter(s),
        create_escrow_spec(s, seller, resolver, token, amount, shipping_window, now) is Ok,
    ensures
        ({
            let (s2, id) = create_escrow_spec(
                s,
                seller,
                resolver,
                token,
                amount,
                shipping_window,
                now,
            )->Ok_0;
            &&& !s.escrows.contains_key(id)
            &&& s2.escrows.dom() == s.escrows.dom().insert(id)
            &&& ids_below_counter(s2)
        }),
{
    let (s2, id) = create_escrow_spec(s, seller, resolver, token, amount, shipping_window, now)->Ok_0;
    assert(s2.escrows.dom() =~= s.escrows.dom().insert(id));
}

/// Setting the fee, funding and confirming keep every stored id below the
/// counter; so does initializing storage that holds no escrow.
pub proof fn lemma_operations_keep_ids_below_counter(
    s: EscrowStorage,
    admin: Seq<u8>,
    fee_bps: u32,
    escrow_id: u32,
    buyer: Seq<u8>,
    now: u64,
)
    requires
        ids_below_counter(s),
    ensures
        s.escrows.is_empty() && initialize_spec(s, admin, fee_bps) is Ok ==> ids_below_counter(
            initialize_spec(s, admin, fee_bps)->Ok_0.0,
        ),
        set_fee_spec(s, admin, fee_bps) is Ok ==> ids_below_counter(
            set_fee_spec(s, admin, fee_bps)->Ok_0.0,
        ),
        fund_escrow_spec(s, escrow_id, buyer, now) is Ok ==> ids_below_counter(
            fund_escrow_spec(s, escrow_id, buyer, now)->Ok_0.0,
        ),
        confirm_delivery_spec(s, escrow_id) is Ok ==> ids_below_counter(
            confirm_delivery_spec(s, escrow_id)->Ok_0.0,
        ),
{
    if s.escrows.is_empty() && initialize_spec(s, admin, fee_bps) is Ok {
        let s2 = initialize_spec(s, admin, fee_bps)->Ok_0.0;
        assert forall|id: u32| #[trigger] s2.escrows.contains_key(id) implies id < next_id(s2) by {
            assert(s.escrows.dom().contains(id));
        }
    }
}

/// A newly created escrow has no buyer: it cannot be confirmed, and no one
/// can authorize its confirmation, until it is funded.
pub proof fn lemma_unfunded_escrow_cannot_be_confirmed(
    s: EscrowStorage,
    seller: Seq<u8>,
    resolver: Seq<u8>,
    token: Seq<u8>,
    amount: i128,
    shipping_window: u64,
    now: u64,
)
    requires
        create_escrow_spec(s, seller, resolver, token, amount, shipping_window, now) is Ok,
    ensures
        ({
            let (s2, id) = create_escrow_spec(
                s,
                seller,
                resolver,
                token,
                amount,
                shipping_window,
                now,
            )->Ok_0;
            &&& s2.escrows[id].state == EscrowState::Pending
            &&& confirm_delivery_spec(s2, id) == Err::<(EscrowStorage, i128), EscrowError>(
                EscrowError::NoBuyer,
            )
            &&& confirm_delivery_authorizer_spec(s2, id) == Err::<Seq<u8>, EscrowError>(
                EscrowError::NoBuyer,
            )
        }),
{
}

/// Funding makes the buyer the one who confirms delivery, and an escrow
/// can be funded only once.
pub proof fn lemma_fund_once_and_buyer_confirms(
    s: EscrowStorage,
    escrow_id: u32,
    buyer: Seq<u8>,
    now: u64,
    other_buyer: Seq<u8>,
    later: u64,
)
    requires
        fund_escrow_spec(s, escrow_id, buyer, now) is Ok,
    ensures
        ({
            let s2 = fund_escrow_spec(s, escrow_id, buyer, now)->Ok_0.0;
            &&& s2.escrows[escrow_id].state == EscrowState::Funded
            &&& confirm_delivery_authorizer_spec(s2, escrow_id) == Ok::<Seq<u8>, EscrowError>(buyer)
            &&& fund_escrow_spec(s2, escrow_id, other_buyer, later) == Err::<
                (EscrowStorage, ()),
                EscrowError,
            >(EscrowError::NotPending)
        }),
{
}

/// The seller's payout and the fee add up to the escrowed amount; for a
/// non-negative amount and a fee of at most 10000 bps, both lie between 0
/// and the amount.
pub proof fn lemma_payout_splits_amount(amount: int, fee_bps: int)
    requires
        0 <= fee_bps,
    ensures
        net_of(amount, fee_bps) + fee_of(amount, fee_bps) == amount,
        0 <= amount && fee_bps <= BPS_DENOMINATOR ==> 0 <= fee_of(amount, fee_bps) <= amount,
        0 <= amount && fee_bps <= BPS_DENOMINATOR ==> 0 <= net_of(amount, fee_bps) <= amount,
{
    if 0 <= amount && fee_bps <= BPS_DENOMINATOR {
        assert(0 <= amount * fee_bps <= amount * 10000) by (nonlinear_arith)
            requires
                0 <= amount,
                0 <= fee_bps <= 10000,
        ;
        assert((amount * 10000) / 10000 == amount) by (nonlinear_arith);
        assert(0 <= (amount * fee_bps) / 10000 <= (amount * 10000) / 10000) by (nonlinear_arith)
            requires
                0 <= amount * fee_bps <= amount * 10000,
        ;
    }
}

/// Reading a key after writing a fitting value under it gives that value;
/// every other key reads as before.
pub proof fn lemma_read_after_write(
    s: EscrowStorage,
    key: DataKey,
    value: StoredValueView,
    other: DataKey,
)
    requires
        entry_fits(key, value),
    ensures
        entry(with_entry(s, key, value), key) == Some(value),
        other != key ==> entry(with_entry(s, key, value), other) == entry(s, other),
{
}

/// An escrow that is created, funded, and confirmed after the admin has
/// changed the default fee pays the seller its amount less the fee that was
/// the default when the escrow was created.
pub proof fn lemma_payout_uses_fee_at_creation(
    s: EscrowStorage,
    seller: Seq<u8>,
    resolver: Seq<u8>,
    token: Seq<u8>,
    amount: i128,
    shipping_window: u64,
    created: u64,
    buyer: Seq<u8>,
    funded: u64,
    admin: Seq<u8>,
    new_fee_bps: u32,
)
    requires
        create_escrow_spec(s, seller, resolver, token, amount, shipping_window, created) is Ok,
        set_fee_spec(
            fund_escrow_spec(
                create_escrow_spec(
                    s,
                    seller,
                    resolver,
                    token,
                    amount,
                    shipping_window,
                    created,
                )->Ok_0.0,
                create_escrow_spec(
                    s,
                    seller,
                    resolver,
                    token,
                    amount,
                    shipping_window,
                    created,
                )->Ok_0.1,
                buyer,
                funded,
            )->Ok_0.0,
            admin,
            new_fee_bps,
        ) is Ok,
        fee_computable(amount, current_fee(s)),
    ensures
        ({
            let (s2, id) = create_escrow_spec(
                s,
                seller,
                resolver,
                token,
                amount,
                shipping_window,
                created,
            )->Ok_0;
            let s3 = fund_escrow_spec(s2, id, buyer, funded)->Ok_0.0;
            let s4 = set_fee_spec(s3, admin, new_fee_bps)->Ok_0.0;
            &&& fund_escrow_spec(s2, id, buyer, funded) is Ok
            &&& outcome_value(confirm_delivery_spec(s4, id)) == Ok::<i128, EscrowError>(
                net_of(amount as int, current_fee(s) as int) as i128,
            )
        }),
{
}

} // verus!
