//! What each operation does to storage, field by field, in terms of its
//! arguments: which records and entries change, to what, and which stay.
use crate::contract::{
    confirm_delivery_authorizer_spec, confirm_delivery_spec, create_escrow_spec, entry, entry_fits,
    fund_escrow_spec, initialize_spec, realizes, set_fee_spec, with_entry, EscrowStorage, Outcome,
};
use crate::fee::{fee_of, net_of};
use crate::types::{DataKey, EscrowDataView, EscrowError, EscrowState, StoredValueView};
use vstd::prelude::*;

verus! {

/// Every record other than the one under `id` is the same in `a` as in `b`,
/// and `a` holds a record under exactly the ids (other than `id`) that `b` does.
pub open spec fn other_records_unchanged(a: EscrowStorage, b: EscrowStorage, id: u32) -> bool {
    forall|k: u32|
        k != id ==> (#[trigger] a.escrows.contains_key(k) == b.escrows.contains_key(k)) && (
        b.escrows.contains_key(k) ==> a.escrows[k] == b.escrows[k])
}

/// The terms of an agreement that no lifecycle step touches: the parties,
/// the token, the amount, the shipping window, the fee fixed at creation,
/// the shipping time and the creation time.
pub open spec fn same_terms(a: EscrowDataView, b: EscrowDataView) -> bool {
    &&& a.seller == b.seller
    &&& a.resolver == b.resolver
    &&& a.token == b.token
    &&& a.amount == b.amount
    &&& a.shipping_window == b.shipping_window
    &&& a.fee_bps == b.fee_bps
    &&& a.shipped_at == b.shipped_at
    &&& a.created_at == b.created_at
}

/// `initialize` succeeds exactly on storage without an admin; it then
/// stores the given admin, the given default fee (whatever its value) and a
/// counter of 1, and touches no escrow record.
pub proof fn lemma_initialize_effect(s: EscrowStorage, admin: Seq<u8>, default_fee_bps: u32)
    ensures
        initialize_spec(s, admin, default_fee_bps) is Ok <==> s.admin is None,
        s.admin is Some ==> initialize_spec(s, admin, default_fee_bps) == Err::<
            (EscrowStorage, ()),
            EscrowError,
        >(EscrowError::AlreadyInitialized),
        initialize_spec(s, admin, default_fee_bps) is Ok ==> ({
            let s2 = initialize_spec(s, admin, default_fee_bps)->Ok_0.0;
            &&& s2.admin == Some(admin)
            &&& s2.default_fee_bps == Some(default_fee_bps)
            &&& s2.escrow_counter == Some(1u32)
            &&& s2.escrows == s.escrows
        }),
{
}

/// `set_fee` succeeds exactly when the caller is the stored admin; it then
/// stores the given fee as the default (zero included) and changes nothing
/// else: not the admin, not the counter, not any escrow record.
pub proof fn lemma_set_fee_effect(s: EscrowStorage, caller: Seq<u8>, new_fee_bps: u32)
    ensures
        set_fee_spec(s, caller, new_fee_bps) is Ok <==> s.admin == Some(caller),
        s.admin is None ==> set_fee_spec(s, caller, new_fee_bps) == Err::<
            (EscrowStorage, ()),
            EscrowError,
        >(EscrowError::NotInitialized),
        s.admin is Some && s.admin != Some(caller) ==> set_fee_spec(s, caller, new_fee_bps)
            == Err::<(EscrowStorage, ()), EscrowError>(EscrowError::Unauthorized),
        set_fee_spec(s, caller, new_fee_bps) is Ok ==> ({
            let s2 = set_fee_spec(s, caller, new_fee_bps)->Ok_0.0;
            &&& s2.default_fee_bps == Some(new_fee_bps)
            &&& s2.admin == s.admin
            &&& s2.escrow_counter == s.escrow_counter
            &&& s2.escrows == s.escrows
        }),
{
}

/// `create_escrow` takes the stored counter as the id (1 if none is
/// stored), is refused only when that id is `u32::MAX`, and otherwise stores
/// under that id a pending record built from its arguments: the given
/// seller, resolver and token in their own places, the given amount and
/// window, no buyer, the stored default fee (0 if none), created at `now`.
/// It advances the counter by one and touches no other record, nor the
/// admin or the default fee.
pub proof fn lemma_create_escrow_effect(
    s: EscrowStorage,
    seller: Seq<u8>,
    resolver: Seq<u8>,
    token: Seq<u8>,
    amount: i128,
    shipping_window: u64,
    now: u64,
)
    ensures
        ({
            let id: u32 = match s.escrow_counter {
                Some(c) => c,
                None => 1u32,
            };
            let fee: u32 = match s.default_fee_bps {
                Some(f) => f,
                None => 0u32,
            };
            let o = create_escrow_spec(s, seller, resolver, token, amount, shipping_window, now);
            &&& (o is Ok <==> id != u32::MAX)
            &&& (id == u32::MAX ==> o == Err::<(EscrowStorage, u32), EscrowError>(
                EscrowError::CounterOverflow,
            ))
            &&& (o is Ok ==> {
                let (s2, r) = o->Ok_0;
                let d = s2.escrows[id];
                &&& r == id
                &&& s2.escrows.contains_key(id)
                &&& d.seller == seller
                &&& d.resolver == resolver
                &&& d.token == token
                &&& d.amount == amount
                &&& d.shipping_window == shipping_window
                &&& d.buyer == None::<Seq<u8>>
                &&& d.fee_bps == fee
                &&& d.funded_at == 0
                &&& d.shipped_at == 0
                &&& d.created_at == now
                &&& d.state == EscrowState::Pending
                &&& s2.escrow_counter == Some((id + 1) as u32)
                &&& s2.admin == s.admin
                &&& s2.default_fee_bps == s.default_fee_bps
                &&& other_records_unchanged(s2, s, id)
            })
        }),
{
}

/// `fund_escrow` succeeds exactly on a stored pending record; it then sets
/// that record's buyer, state (funded) and funding time and nothing else of
/// it, so the fee fixed at creation stays, whatever the default fee is now.
/// No other record and no instance entry changes.
pub proof fn lemma_fund_escrow_effect(s: EscrowStorage, escrow_id: u32, buyer: Seq<u8>, now: u64)
    ensures
        ({
            let o = fund_escrow_spec(s, escrow_id, buyer, now);
            &&& (o is Ok <==> s.escrows.contains_key(escrow_id) && s.escrows[escrow_id].state
                == EscrowState::Pending)
            &&& (!s.escrows.contains_key(escrow_id) ==> o == Err::<(EscrowStorage, ()), EscrowError>(
                EscrowError::EscrowNotFound,
            ))
            &&& (s.escrows.contains_key(escrow_id) && s.escrows[escrow_id].state
                != EscrowState::Pending ==> o == Err::<(EscrowStorage, ()), EscrowError>(
                EscrowError::NotPending,
            ))
            &&& (o is Ok ==> {
                let s2 = o->Ok_0.0;
                let before = s.escrows[escrow_id];
                let after = s2.escrows[escrow_id];
                &&& s2.escrows.contains_key(escrow_id)
                &&& same_terms(after, before)
                &&& after.buyer == Some(buyer)
                &&& after.state == EscrowState::Funded
                &&& after.funded_at == now
                &&& other_records_unchanged(s2, s, escrow_id)
                &&& s2.admin == s.admin
                &&& s2.default_fee_bps == s.default_fee_bps
                &&& s2.escrow_counter == s.escrow_counter
            })
        }),
{
}

/// The one who must authorize a delivery confirmation is the stored
/// buyer of the record.
pub proof fn lemma_confirm_delivery_authorizer_effect(s: EscrowStorage, escrow_id: u32)
    ensures
        !s.escrows.contains_key(escrow_id) ==> confirm_delivery_authorizer_spec(s, escrow_id)
            == Err::<Seq<u8>, EscrowError>(EscrowError::EscrowNotFound),
        s.escrows.contains_key(escrow_id) ==> match s.escrows[escrow_id].buyer {
            Some(b) => confirm_delivery_authorizer_spec(s, escrow_id) == Ok::<Seq<u8>, EscrowError>(
                b,
            ),
            None => confirm_delivery_authorizer_spec(s, escrow_id) == Err::<Seq<u8>, EscrowError>(
                EscrowError::NoBuyer,
            ),
        },
{
}

/// `confirm_delivery` succeeds exactly on a stored record that has a buyer
/// and whose `amount * fee_bps` fits in an `i128`. It then returns the
/// amount less `amount * fee_bps / 10000` (rounded toward zero), marks the
/// record completed whatever its fee (zero included), keeps every other
/// field of the record, and changes no other record or instance entry.
pub proof fn lemma_confirm_delivery_effect(s: EscrowStorage, escrow_id: u32)
    ensures
        ({
            let o = confirm_delivery_spec(s, escrow_id);
            let d = s.escrows[escrow_id];
            let p: int = d.amount * d.fee_bps;
            &&& (o is Ok <==> s.escrows.contains_key(escrow_id) && d.buyer is Some && i128::MIN
                <= p <= i128::MAX)
            &&& (!s.escrows.contains_key(escrow_id) ==> o == Err::<(EscrowStorage, i128), EscrowError>(
                EscrowError::EscrowNotFound,
            ))
            &&& (s.escrows.contains_key(escrow_id) && d.buyer is None ==> o == Err::<
                (EscrowStorage, i128),
                EscrowError,
            >(EscrowError::NoBuyer))
            &&& (s.escrows.contains_key(escrow_id) && d.buyer is Some && !(i128::MIN <= p
                <= i128::MAX) ==> o == Err::<(EscrowStorage, i128), EscrowError>(
                EscrowError::FeeOverflow,
            ))
            &&& (o is Ok ==> {
                let (s2, v) = o->Ok_0;
                let after = s2.escrows[escrow_id];
                &&& (p >= 0 ==> v == d.amount - p / 10000)
                &&& (p < 0 ==> v == d.amount + (-p) / 10000)
                &&& s2.escrows.contains_key(escrow_id)
                &&& after.state == EscrowState::Completed
                &&& same_terms(after, d)
                &&& after.buyer == d.buyer
                &&& after.funded_at == d.funded_at
                &&& other_records_unchanged(s2, s, escrow_id)
                &&& s2.admin == s.admin
                &&& s2.default_fee_bps == s.default_fee_bps
                &&& s2.escrow_counter == s.escrow_counter
            })
        }),
{
    let o = confirm_delivery_spec(s, escrow_id);
    if o is Ok {
        let d = s.escrows[escrow_id];
        let p: int = d.amount * d.fee_bps;
        assert(d.fee_bps >= 0);
        if d.amount >= 0 {
            assert(p >= 0) by (nonlinear_arith)
                requires
                    p == d.amount * d.fee_bps,
                    d.amount >= 0,
                    d.fee_bps >= 0,
            ;
            assert(0 <= p / 10000 <= p);
        } else {
            assert(p <= 0) by (nonlinear_arith)
                requires
                    p == d.amount * d.fee_bps,
                    d.amount < 0,
                    d.fee_bps >= 0,
            ;
            assert(0 <= (-p) / 10000 <= -p);
        }
        assert(net_of(d.amount as int, d.fee_bps as int) == if p >= 0 {
            d.amount - p / 10000
        } else {
            d.amount + (-p) / 10000
        });
    }
}

/// Funding after a fee change still settles at the fee of creation: if the
/// admin changes the default fee between creating and funding an escrow,
/// confirming it pays the amount less the fee that was the default at
/// creation (0 if none was stored).
pub proof fn lemma_fee_change_before_funding_keeps_payout(
    s: EscrowStorage,
    seller: Seq<u8>,
    resolver: Seq<u8>,
    token: Seq<u8>,
    amount: i128,
    shipping_window: u64,
    created: u64,
    admin: Seq<u8>,
    new_fee_bps: u32,
    buyer: Seq<u8>,
    funded: u64,
)
    requires
        create_escrow_spec(s, seller, resolver, token, amount, shipping_window, created) is Ok,
    ensures
        ({
            let (s2, id) = create_escrow_spec(
                s,
                seller,
                resolver,
                token,
                amount,
                shipping_window,
                created,
            )->Ok_0;
            let fee: u32 = match s.default_fee_bps {
                Some(f) => f,
                None => 0u32,
            };
            let p: int = amount * fee;
            set_fee_spec(s2, admin, new_fee_bps) is Ok && i128::MIN <= p <= i128::MAX ==> {
                let s3 = set_fee_spec(s2, admin, new_fee_bps)->Ok_0.0;
                let s4 = fund_escrow_spec(s3, id, buyer, funded)->Ok_0.0;
                let o = confirm_delivery_spec(s4, id);
                &&& fund_escrow_spec(s3, id, buyer, funded) is Ok
                &&& s4.escrows[id].fee_bps == fee
                &&& o is Ok
                &&& (p >= 0 ==> o->Ok_0.1 == amount - p / 10000)
                &&& (p < 0 ==> o->Ok_0.1 == amount + (-p) / 10000)
            }
        }),
{
    let (s2, id) = create_escrow_spec(s, seller, resolver, token, amount, shipping_window, created)->Ok_0;
    lemma_create_escrow_effect(s, seller, resolver, token, amount, shipping_window, created);
    if set_fee_spec(s2, admin, new_fee_bps) is Ok {
        lemma_set_fee_effect(s2, admin, new_fee_bps);
        let s3 = set_fee_spec(s2, admin, new_fee_bps)->Ok_0.0;
        lemma_fund_escrow_effect(s3, id, buyer, funded);
        let s4 = fund_escrow_spec(s3, id, buyer, funded)->Ok_0.0;
        lemma_confirm_delivery_effect(s4, id);
    }
}

/// A call realizes an outcome only by returning its value and leaving the
/// state it describes, or by returning its error with storage untouched.
pub proof fn lemma_realizes_effect<T>(
    expected: Outcome<T>,
    before: EscrowStorage,
    after: EscrowStorage,
    r: Result<T, EscrowError>,
)
    requires
        realizes(expected, before, after, r),
    ensures
        expected is Ok ==> after == expected->Ok_0.0 && r == Ok::<T, EscrowError>(expected->Ok_0.1),
        expected is Err ==> after == before && r == Err::<T, EscrowError>(expected->Err_0),
{
}

/// The fee on `amount` at `fee_bps` is `amount * fee_bps / 10000` with the
/// quotient rounded toward zero, and the seller's share is the rest.
pub proof fn lemma_fee_effect(amount: int, fee_bps: int)
    ensures
        amount * fee_bps >= 0 ==> fee_of(amount, fee_bps) == (amount * fee_bps) / 10000,
        amount * fee_bps < 0 ==> fee_of(amount, fee_bps) == -((-(amount * fee_bps)) / 10000),
        net_of(amount, fee_bps) == amount - fee_of(amount, fee_bps),
{
}

/// Writing an entry changes exactly the entry under its key: an address
/// under `Admin`, a number under `DefaultFeeBps` or `EscrowCounter`, a
/// record under `Escrow(id)`; everything else stays.
pub proof fn lemma_with_entry_effect(s: EscrowStorage, key: DataKey, value: StoredValueView)
    requires
        entry_fits(key, value),
    ensures
        ({
            let s2 = with_entry(s, key, value);
            match (key, value) {
                (DataKey::Admin, StoredValueView::Address(a)) => s2.admin == Some(a)
                    && s2.default_fee_bps == s.default_fee_bps && s2.escrow_counter
                    == s.escrow_counter && s2.escrows == s.escrows,
                (DataKey::DefaultFeeBps, StoredValueView::U32(f)) => s2.admin == s.admin
                    && s2.default_fee_bps == Some(f) && s2.escrow_counter == s.escrow_counter
                    && s2.escrows == s.escrows,
                (DataKey::EscrowCounter, StoredValueView::U32(c)) => s2.admin == s.admin
                    && s2.default_fee_bps == s.default_fee_bps && s2.escrow_counter == Some(c)
                    && s2.escrows == s.escrows,
                (DataKey::Escrow(id), StoredValueView::Escrow(d)) => s2.admin == s.admin
                    && s2.default_fee_bps == s.default_fee_bps && s2.escrow_counter
                    == s.escrow_counter && s2.escrows.contains_key(id) && s2.escrows[id] == d
                    && other_records_unchanged(s2, s, id),
                _ => false,
            }
        }),
{
}

/// Reading storage gives each instance entry as stored and each record
/// under its id, and nothing where nothing is stored.
pub proof fn lemma_entry_effect(s: EscrowStorage, id: u32)
    ensures
        s.admin is Some <==> entry(s, DataKey::Admin) is Some,
        s.admin is Some ==> entry(s, DataKey::Admin) == Some(StoredValueView::Address(s.admin->0)),
        s.default_fee_bps is Some <==> entry(s, DataKey::DefaultFeeBps) is Some,
        s.default_fee_bps is Some ==> entry(s, DataKey::DefaultFeeBps) == Some(
            StoredValueView::U32(s.default_fee_bps->0),
        ),
        s.escrow_counter is Some <==> entry(s, DataKey::EscrowCounter) is Some,
        s.escrow_counter is Some ==> entry(s, DataKey::EscrowCounter) == Some(
            StoredValueView::U32(s.escrow_counter->0),
        ),
        s.escrows.contains_key(id) <==> entry(s, DataKey::Escrow(id)) is Some,
        s.escrows.contains_key(id) ==> entry(s, DataKey::Escrow(id)) == Some(
            StoredValueView::Escrow(s.escrows[id]),
        ),
{
}

} // verus!
