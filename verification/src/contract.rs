use crate::fee::{fee_computable, net_of, net_vendor_payout};
use crate::types::{
    opt_view, Address, DataKey, EscrowData, EscrowDataView, EscrowError,
    EscrowState, StoredValue, StoredValueView,
};
use std::collections::HashMap;
use vstd::prelude::*;

verus! {

broadcast use vstd::std_specs::hash::group_hash_axioms;

/// The contract's storage: the instance entries (admin, default fee,
/// escrow counter) and the persistent escrow records, keyed by id.
pub struct EscrowStorage {
    pub admin: Option<Seq<u8>>,
    pub default_fee_bps: Option<u32>,
    pub escrow_counter: Option<u32>,
    pub escrows: Map<u32, EscrowDataView>,
}

/// The escrow contract's state. Each operation is a transition of the
/// storage that the contract keeps under `DataKey`.
pub struct Escrow {
    admin: Option<Address>,
    default_fee_bps: Option<u32>,
    escrow_counter: Option<u32>,
    escrows: HashMap<u32, EscrowData>,
}

impl View for Escrow {
    type V = EscrowStorage;

    closed spec fn view(&self) -> EscrowStorage {
        EscrowStorage {
            admin: opt_view(self.admin),
            default_fee_bps: self.default_fee_bps,
            escrow_counter: self.escrow_counter,
            escrows: Map::new(
                |id: u32| self.escrows@.contains_key(id),
                |id: u32| self.escrows@[id]@,
            ),
        }
    }
}

/// The entry that storage holds under `key`, if any.
pub open spec fn entry(s: EscrowStorage, key: DataKey) -> Option<StoredValueView> {
    match key {
        DataKey::Admin => match s.admin {
            Some(a) => Some(StoredValueView::Address(a)),
            None => None,
        },
        DataKey::DefaultFeeBps => match s.default_fee_bps {
            Some(f) => Some(StoredValueView::U32(f)),
            None => None,
        },
        DataKey::EscrowCounter => match s.escrow_counter {
            Some(c) => Some(StoredValueView::U32(c)),
            None => None,
        },
        DataKey::Escrow(id) => if s.escrows.contains_key(id) {
            Some(StoredValueView::Escrow(s.escrows[id]))
        } else {
            None
        },
    }
}

/// Whether `value` is the kind of value that the contract keeps under `key`.
pub open spec fn entry_fits(key: DataKey, value: StoredValueView) -> bool {
    match key {
        DataKey::Admin => value is Address,
        DataKey::DefaultFeeBps => value is U32,
        DataKey::EscrowCounter => value is U32,
        DataKey::Escrow(_) => value is Escrow,
    }
}

/// Storage with `value` written under `key` (which must fit it).
pub open spec fn with_entry(s: EscrowStorage, key: DataKey, value: StoredValueView) -> EscrowStorage {
    match (key, value) {
        (DataKey::Admin, StoredValueView::Address(a)) => EscrowStorage { admin: Some(a), ..s },
        (DataKey::DefaultFeeBps, StoredValueView::U32(f)) => EscrowStorage {
            default_fee_bps: Some(f),
            ..s
        },
        (DataKey::EscrowCounter, StoredValueView::U32(c)) => EscrowStorage {
            escrow_counter: Some(c),
            ..s
        },
        (DataKey::Escrow(id), StoredValueView::Escrow(d)) => EscrowStorage {
            escrows: s.escrows.insert(id, d),
            ..s
        },
        _ => s,
    }
}

/// The state that stands after an operation, with the value it returns; or
/// the error that refuses it.
pub type Outcome<T> = Result<(EscrowStorage, T), EscrowError>;

/// Whether a call that returned `r`, taking storage from `before` to `after`,
/// did what `expected` says: on success the state and the value match; on
/// refusal the error matches and storage is left as it was.
pub open spec fn realizes<T>(
    expected: Outcome<T>,
    before: EscrowStorage,
    after: EscrowStorage,
    r: Result<T, EscrowError>,
) -> bool {
    match expected {
        Ok((s, v)) => after == s && r == Ok::<T, EscrowError>(v),
        Err(e) => after == before && r == Err::<T, EscrowError>(e),
    }
}

/// The value an outcome returns, or its error.
pub open spec fn outcome_value<T>(o: Outcome<T>) -> Result<T, EscrowError> {
    match o {
        Ok((_, v)) => Ok(v),
        Err(e) => Err(e),
    }
}

/// First use of the contract: stores the admin, the default fee and an
/// escrow counter of 1. Refused once an admin is stored.
pub open spec fn initialize_spec(s: EscrowStorage, admin: Seq<u8>, default_fee_bps: u32) -> Outcome<()> {
    if s.admin is Some {
        Err(EscrowError::AlreadyInitialized)
    } else {
        Ok(
            (
                EscrowStorage {
                    admin: Some(admin),
                    default_fee_bps: Some(default_fee_bps),
                    escrow_counter: Some(1),
                    ..s
                },
                (),
            ),
        )
    }
}

/// The admin replaces the default fee; escrows already created keep theirs.
pub open spec fn set_fee_spec(s: EscrowStorage, admin: Seq<u8>, new_fee_bps: u32) -> Outcome<()> {
    match s.admin {
        None => Err(EscrowError::NotInitialized),
        Some(current) => if current != admin {
            Err(EscrowError::Unauthorized)
        } else {
            Ok((EscrowStorage { default_fee_bps: Some(new_fee_bps), ..s }, ()))
        },
    }
}

/// The record that `create_escrow` stores: pending, with no buyer, and with
/// the default fee of that moment.
pub open spec fn new_escrow_record(
    seller: Seq<u8>,
    resolver: Seq<u8>,
    token: Seq<u8>,
    amount: i128,
    shipping_window: u64,
    fee_bps: u32,
    now: u64,
) -> EscrowDataView {
    EscrowDataView {
        seller,
        buyer: None,
        resolver,
        token,
        amount,
        shipping_window,
        fee_bps,
        funded_at: 0,
        shipped_at: 0,
        created_at: now,
        state: EscrowState::Pending,
    }
}

/// The id that the next escrow gets: the stored counter, or 1 if none is stored.
pub open spec fn next_id(s: EscrowStorage) -> u32 {
    match s.escrow_counter {
        Some(c) => c,
        None => 1,
    }
}

/// The fee that a new escrow takes: the stored default, or 0 if none is stored.
pub open spec fn current_fee(s: EscrowStorage) -> u32 {
    match s.default_fee_bps {
        Some(f) => f,
        None => 0,
    }
}

/// Stores a new pending escrow under the next id and advances the counter.
pub open spec fn create_escrow_spec(
    s: EscrowStorage,
    seller: Seq<u8>,
    resolver: Seq<u8>,
    token: Seq<u8>,
    amount: i128,
    shipping_window: u64,
    now: u64,
) -> Outcome<u32> {
    let id = next_id(s);
    if id == u32::MAX {
        Err(EscrowError::CounterOverflow)
    } else {
        Ok(
            (
                EscrowStorage {
                    escrows: s.escrows.insert(
                        id,
                        new_escrow_record(
                            seller,
                            resolver,
                            token,
                            amount,
                            shipping_window,
                            current_fee(s),
                            now,
                        ),
                    ),
                    escrow_counter: Some((id + 1) as u32),
                    ..s
                },
                id,
            ),
        )
    }
}

/// A pending escrow takes its buyer and becomes funded at `now`.
pub open spec fn fund_escrow_spec(s: EscrowStorage, escrow_id: u32, buyer: Seq<u8>, now: u64) -> Outcome<()> {
    if !s.escrows.contains_key(escrow_id) {
        Err(EscrowError::EscrowNotFound)
    } else {
        let d = s.escrows[escrow_id];
        if d.state != EscrowState::Pending {
            Err(EscrowError::NotPending)
        } else {
            Ok(
                (
                    EscrowStorage {
                        escrows: s.escrows.insert(
                            escrow_id,
                            EscrowDataView {
                                buyer: Some(buyer),
                                state: EscrowState::Funded,
                                funded_at: now,
                                ..d
                            },
                        ),
                        ..s
                    },
                    (),
                ),
            )
        }
    }
}

/// Who must authorize the delivery confirmation of an escrow: its buyer.
pub open spec fn confirm_delivery_authorizer_spec(s: EscrowStorage, escrow_id: u32) -> Result<
    Seq<u8>,
    EscrowError,
> {
    if !s.escrows.contains_key(escrow_id) {
        Err(EscrowError::EscrowNotFound)
    } else {
        match s.escrows[escrow_id].buyer {
            None => Err(EscrowError::NoBuyer),
            Some(b) => Ok(b),
        }
    }
}

/// Completes an escrow that has a buyer and returns the seller's payout, the
/// amount less the fee fixed at creation.
pub open spec fn confirm_delivery_spec(s: EscrowStorage, escrow_id: u32) -> Outcome<i128> {
    if !s.escrows.contains_key(escrow_id) {
        Err(EscrowError::EscrowNotFound)
    } else {
        let d = s.escrows[escrow_id];
        if d.buyer is None {
            Err(EscrowError::NoBuyer)
        } else if !fee_computable(d.amount, d.fee_bps) {
            Err(EscrowError::FeeOverflow)
        } else {
            Ok(
                (
                    EscrowStorage {
                        escrows: s.escrows.insert(
                            escrow_id,
                            EscrowDataView { state: EscrowState::Completed, ..d },
                        ),
                        ..s
                    },
                    net_of(d.amount as int, d.fee_bps as int) as i128,
                ),
            )
        }
    }
}

impl Escrow {
    /// Storage with no entry at all: the contract before any call.
    pub fn new() -> (e: Escrow)
        ensures
            e@.admin is None,
            e@.default_fee_bps is None,
            e@.escrow_counter is None,
            e@.escrows == Map::<u32, EscrowDataView>::empty(),
    {
        let e = Escrow {
            admin: None,
            default_fee_bps: None,
            escrow_counter: None,
            escrows: HashMap::new(),
        };
        assert(e@.escrows =~= Map::<u32, EscrowDataView>::empty());
        e
    }

    /// Sets the admin and default fee and starts the escrow counter at 1.
    pub fn initialize(&mut self, admin: Address, default_fee_bps: u32) -> (r: Result<(), EscrowError>)
        ensures
            realizes(initialize_spec(old(self)@, admin@, default_fee_bps), old(self)@, final(self)@, r),
    {
        if self.admin.is_some() {
            return Err(EscrowError::AlreadyInitialized);
        }
        self.admin = Some(admin);
        self.default_fee_bps = Some(default_fee_bps);
        self.escrow_counter = Some(1);
        Ok(())
    }

    /// The admin replaces the default fee for escrows created from now on.
    pub fn set_fee(&mut self, admin: &Address, new_fee_bps: u32) -> (r: Result<(), EscrowError>)
        ensures
            realizes(set_fee_spec(old(self)@, admin@, new_fee_bps), old(self)@, final(self)@, r),
    {
        match &self.admin {
            None => Err(EscrowError::NotInitialized),
            Some(current) => {
                if !admin.same(current) {
                    return Err(EscrowError::Unauthorized);
                }
                self.default_fee_bps = Some(new_fee_bps);
                Ok(())
            },
        }
    }
    /// Stores a new pending escrow under the next id, with the default fee of
    /// this moment fixed in it, and advances the counter. Returns the id.
    pub fn create_escrow(
        &mut self,
        seller: Address,
        resolver: Address,
        token: Address,
        amount: i128,
        shipping_window: u64,
        now: u64,
    ) -> (r: Result<u32, EscrowError>)
        ensures
            realizes(
                create_escrow_spec(
                    old(self)@,
                    seller@,
                    resolver@,
                    token@,
                    amount,
                    shipping_window,
                    now,
                ),
                old(self)@,
                final(self)@,
                r,
            ),
    {
        let counter: u32 = match self.escrow_counter {
            Some(c) => c,
            None => 1,
        };
        let global_fee_bps: u32 = match self.default_fee_bps {
            Some(f) => f,
            None => 0,
        };
        if counter == u32::MAX {
            return Err(EscrowError::CounterOverflow);
        }
        let escrow_data = EscrowData {
            seller,
            buyer: None,
            resolver,
            token,
            amount,
            shipping_window,
            fee_bps: global_fee_bps,
            funded_at: 0,
            shipped_at: 0,
            created_at: now,
            state: EscrowState::Pending,
        };
        let ghost before = self@;
        self.escrows.insert(counter, escrow_data);
        self.escrow_counter = Some(counter + 1);
        proof {
            let expected = create_escrow_spec(
                before,
                seller@,
                resolver@,
                token@,
                amount,
                shipping_window,
                now,
            );
            assert(self@.escrows =~= expected->Ok_0.0.escrows);
        }
        Ok(counter)
    }

    /// A pending escrow takes its buyer and becomes funded at `now`.
    pub fn fund_escrow(&mut self, escrow_id: u32, buyer: Address, now: u64) -> (r: Result<(), EscrowError>)
        ensures
            realizes(fund_escrow_spec(old(self)@, escrow_id, buyer@, now), old(self)@, final(self)@, r),
    {
        let mut escrow = match self.get_escrow(escrow_id) {
            Ok(d) => d,
            Err(e) => return Err(e),
        };
        if escrow.state != EscrowState::Pending {
            return Err(EscrowError::NotPending);
        }
        let ghost before = self@;
        escrow.buyer = Some(buyer);
        escrow.state = EscrowState::Funded;
        escrow.funded_at = now;
        self.escrows.insert(escrow_id, escrow);
        proof {
            let expected = fund_escrow_spec(before, escrow_id, buyer@, now);
            assert(self@.escrows =~= expected->Ok_0.0.escrows);
        }
        Ok(())
    }

    /// The address whose authorization `confirm_delivery` needs: the buyer.
    pub fn confirm_delivery_authorizer(&self, escrow_id: u32) -> (r: Result<Address, EscrowError>)
        ensures
            match confirm_delivery_authorizer_spec(self@, escrow_id) {
                Ok(b) => r is Ok && r->Ok_0@ == b,
                Err(e) => r == Err::<Address, EscrowError>(e),
            },
    {
        match self.escrows.get(&escrow_id) {
            None => Err(EscrowError::EscrowNotFound),
            Some(d) => match &d.buyer {
                None => Err(EscrowError::NoBuyer),
                Some(b) => Ok(b.duplicate()),
            },
        }
    }

    /// Completes an escrow that has a buyer and returns what the seller
    /// receives: the amount less the fee fixed when the escrow was created.
    pub fn confirm_delivery(&mut self, escrow_id: u32) -> (r: Result<i128, EscrowError>)
        ensures
            realizes(confirm_delivery_spec(old(self)@, escrow_id), old(self)@, final(self)@, r),
    {
        let mut escrow = match self.get_escrow(escrow_id) {
            Ok(d) => d,
            Err(e) => return Err(e),
        };
        if escrow.buyer.is_none() {
            return Err(EscrowError::NoBuyer);
        }
        let net = match net_vendor_payout(escrow.amount, escrow.fee_bps) {
            Some(n) => n,
            None => return Err(EscrowError::FeeOverflow),
        };
        let ghost before = self@;
        escrow.state = EscrowState::Completed;
        self.escrows.insert(escrow_id, escrow);
        proof {
            let expected = confirm_delivery_spec(before, escrow_id);
            assert(self@.escrows =~= expected->Ok_0.0.escrows);
        }
        Ok(net)
    }

    /// The escrow record stored under `escrow_id`.
    pub fn get_escrow(&self, escrow_id: u32) -> (r: Result<EscrowData, EscrowError>)
        ensures
            self@.escrows.contains_key(escrow_id) ==> r is Ok && r->Ok_0@ == self@.escrows[escrow_id],
            !self@.escrows.contains_key(escrow_id) ==> r == Err::<EscrowData, EscrowError>(
                EscrowError::EscrowNotFound,
            ),
    {
        match self.escrows.get(&escrow_id) {
            Some(d) => Ok(d.duplicate()),
            None => Err(EscrowError::EscrowNotFound),
        }
    }
    /// The entry stored under `key`, if any.
    pub fn get(&self, key: &DataKey) -> (r: Option<StoredValue>)
        ensures
            match entry(self@, *key) {
                Some(v) => r is Some && r->0@ == v,
                None => r is None,
            },
    {
        match key {
            DataKey::Admin => match &self.admin {
                Some(a) => Some(StoredValue::Address(a.duplicate())),
                None => None,
            },
            DataKey::DefaultFeeBps => match self.default_fee_bps {
                Some(f) => Some(StoredValue::U32(f)),
                None => None,
            },
            DataKey::EscrowCounter => match self.escrow_counter {
                Some(c) => Some(StoredValue::U32(c)),
                None => None,
            },
            DataKey::Escrow(id) => match self.escrows.get(id) {
                Some(d) => Some(StoredValue::Escrow(d.duplicate())),
                None => None,
            },
        }
    }

    /// Writes `value` under `key`. Refused when the key holds another kind
    /// of value (an address under `Admin`, a number under `DefaultFeeBps`
    /// and `EscrowCounter`, a record under `Escrow(id)`).
    pub fn put(&mut self, key: DataKey, value: StoredValue) -> (r: Result<(), EscrowError>)
        ensures
            entry_fits(key, value@) ==> r is Ok && final(self)@ == with_entry(old(self)@, key, value@),
            !entry_fits(key, value@) ==> r == Err::<(), EscrowError>(EscrowError::MismatchedEntry)
                && final(self)@ == old(self)@,
    {
        let ghost before = self@;
        match (key, value) {
            (DataKey::Admin, StoredValue::Address(a)) => {
                self.admin = Some(a);
                Ok(())
            },
            (DataKey::DefaultFeeBps, StoredValue::U32(f)) => {
                self.default_fee_bps = Some(f);
                Ok(())
            },
            (DataKey::EscrowCounter, StoredValue::U32(c)) => {
                self.escrow_counter = Some(c);
                Ok(())
            },
            (DataKey::Escrow(id), StoredValue::Escrow(d)) => {
                let ghost dv = d@;
                self.escrows.insert(id, d);
                assert(self@.escrows =~= before.escrows.insert(id, dv));
                Ok(())
            },
            _ => Err(EscrowError::MismatchedEntry),
        }
    }
}

} // verus!
