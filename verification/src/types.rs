use vstd::prelude::*;

verus! {

/// A ledger address (an account or a contract), held as the bytes of its
/// strkey text form (for example `G...` or `C...`).
#[derive(Clone, Debug)]
pub struct Address {
    pub strkey: Vec<u8>,
}

impl View for Address {
    type V = Seq<u8>;

    open spec fn view(&self) -> Seq<u8> {
        self.strkey@
    }
}

impl Address {
    /// Builds an address from the bytes of its strkey.
    pub fn from_strkey(strkey: Vec<u8>) -> (a: Address)
        ensures
            a@ == strkey@,
    {
        Address { strkey }
    }

    /// A second address value with the same strkey.
    pub fn duplicate(&self) -> (a: Address)
        ensures
            a@ == self@,
    {
        let copy = self.strkey.clone();
        assert(copy@ =~= self.strkey@);
        Address { strkey: copy }
    }

    /// Whether two addresses are the same address (byte-wise equal strkeys).
    pub fn same(&self, other: &Address) -> (b: bool)
        ensures
            b == (self@ == other@),
    {
        let n = self.strkey.len();
        if n != other.strkey.len() {
            return false;
        }
        let mut i: usize = 0;
        while i < n
            invariant
                n == self.strkey@.len(),
                n == other.strkey@.len(),
                i <= n,
                forall|j: int| 0 <= j < i ==> self.strkey@[j] == other.strkey@[j],
            decreases n - i,
        {
            if self.strkey[i] != other.strkey[i] {
                return false;
            }
            i = i + 1;
        }
        assert(self.strkey@ =~= other.strkey@);
        true
    }
}

/// A copy of an optional address that keeps its view.
pub fn duplicate_opt(a: &Option<Address>) -> (r: Option<Address>)
    ensures
        opt_view(r) == opt_view(*a),
{
    match a {
        Some(x) => Some(x.duplicate()),
        None => None,
    }
}

/// The view of an optional address.
pub open spec fn opt_view(a: Option<Address>) -> Option<Seq<u8>> {
    match a {
        Some(x) => Some(x@),
        None => None,
    }
}

/// Where an escrow stands in its lifecycle.
#[derive(Clone, Copy, Debug, PartialEq, Eq, Structural)]
pub enum EscrowState {
    Pending,
    Funded,
    Shipped,
    Completed,
    Disputed,
    Refunded,
    Cancelled,
}

/// The keys under which the contract keeps its storage entries.
#[derive(Clone, Copy, Debug, PartialEq, Eq, Structural)]
pub enum DataKey {
    Admin,
    DefaultFeeBps,
    EscrowCounter,
    Escrow(u32),
}

/// What an operation refuses, and why.
#[derive(Clone, Copy, Debug, PartialEq, Eq, Structural)]
pub enum EscrowError {
    /// `initialize` was called on a contract that already has an admin.
    AlreadyInitialized,
    /// `set_fee` was called before any admin was stored.
    NotInitialized,
    /// `set_fee` was called by an address that is not the stored admin.
    Unauthorized,
    /// No escrow is stored under the requested id.
    EscrowNotFound,
    /// `fund_escrow` was called on an escrow that is not pending.
    NotPending,
    /// `confirm_delivery` was called on an escrow that has no buyer.
    NoBuyer,
    /// The escrow counter cannot be advanced past `u32::MAX`.
    CounterOverflow,
    /// `amount * fee_bps` does not fit in an `i128`.
    FeeOverflow,
    /// A storage value was offered under a key that holds another kind of value.
    MismatchedEntry,
}

/// One escrow agreement, as the contract stores it.
#[derive(Clone, Debug)]
pub struct EscrowData {
    pub seller: Address,
    pub buyer: Option<Address>,
    pub resolver: Address,
    pub token: Address,
    pub amount: i128,
    pub shipping_window: u64,
    /// The fee in basis points, fixed when the escrow is created.
    pub fee_bps: u32,
    pub funded_at: u64,
    pub shipped_at: u64,
    pub created_at: u64,
    pub state: EscrowState,
}

/// The mathematical value of an `EscrowData`: addresses become byte sequences.
pub struct EscrowDataView {
    pub seller: Seq<u8>,
    pub buyer: Option<Seq<u8>>,
    pub resolver: Seq<u8>,
    pub token: Seq<u8>,
    pub amount: i128,
    pub shipping_window: u64,
    pub fee_bps: u32,
    pub funded_at: u64,
    pub shipped_at: u64,
    pub created_at: u64,
    pub state: EscrowState,
}

impl View for EscrowData {
    type V = EscrowDataView;

    open spec fn view(&self) -> EscrowDataView {
        EscrowDataView {
            seller: self.seller@,
            buyer: opt_view(self.buyer),
            resolver: self.resolver@,
            token: self.token@,
            amount: self.amount,
            shipping_window: self.shipping_window,
            fee_bps: self.fee_bps,
            funded_at: self.funded_at,
            shipped_at: self.shipped_at,
            created_at: self.created_at,
            state: self.state,
        }
    }
}

impl EscrowData {
    /// A second record with the same contents.
    pub fn duplicate(&self) -> (d: EscrowData)
        ensures
            d@ == self@,
    {
        EscrowData {
            seller: self.seller.duplicate(),
            buyer: duplicate_opt(&self.buyer),
            resolver: self.resolver.duplicate(),
            token: self.token.duplicate(),
            amount: self.amount,
            shipping_window: self.shipping_window,
            fee_bps: self.fee_bps,
            funded_at: self.funded_at,
            shipped_at: self.shipped_at,
            created_at: self.created_at,
            state: self.state,
        }
    }
}

/// A value as it stands in one storage entry.
#[derive(Clone, Debug)]
pub enum StoredValue {
    Address(Address),
    U32(u32),
    Escrow(EscrowData),
}

/// The mathematical value of a storage entry.
pub enum StoredValueView {
    Address(Seq<u8>),
    U32(u32),
    Escrow(EscrowDataView),
}

impl View for StoredValue {
    type V = StoredValueView;

    open spec fn view(&self) -> StoredValueView {
        match self {
            StoredValue::Address(a) => StoredValueView::Address(a@),
            StoredValue::U32(x) => StoredValueView::U32(*x),
            StoredValue::Escrow(d) => StoredValueView::Escrow(d@),
        }
    }
}

} // verus!
