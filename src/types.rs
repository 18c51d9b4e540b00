use vstd::prelude::*;

verus! {

/// Lifecycle of one escrow: it starts `Active` and settles exactly once.
#[derive(Clone, Copy, Debug, PartialEq, Eq, Structural)]
pub enum HTLCState {
    Active,
    Withdrawn,
    Refunded,
}

/// Why an operation on the ledger was refused.
#[derive(Clone, Copy, Debug, PartialEq, Eq, Structural)]
pub enum HtlcError {
    InvalidAmount,
    InvalidTimelock,
    InvalidHashlockLength,
    NotFound,
    InvalidState,
    InvalidPreimage,
    TimelockNotExpired,
    Unauthorized,
    TransferFailed,
}

/// A principal or an asset, identified by the bytes of its textual form.
#[derive(Clone, Debug, PartialEq, Eq)]
pub struct Address {
    pub strkey: Vec<u8>,
}

impl View for Address {
    type V = Seq<u8>;

    open spec fn view(&self) -> Seq<u8> {
        self.strkey@
    }
}

impl Address {
    pub fn new(strkey: Vec<u8>) -> (r: Address)
        ensures
            r@ == strkey@,
    {
        Address { strkey }
    }

    pub fn duplicate(&self) -> (r: Address)
        ensures
            r@ == self@,
    {
        Address { strkey: copy_bytes(&self.strkey) }
    }

    pub fn same_as(&self, other: &Address) -> (r: bool)
        ensures
            r == (self@ == other@),
    {
        bytes_equal(&self.strkey, &other.strkey)
    }
}

/// The stored record of one escrow.
#[derive(Clone, Debug, PartialEq, Eq)]
pub struct HTLCData {
    pub sender: Address,
    pub receiver: Address,
    pub token: Address,
    pub amount: i128,
    pub hashlock: Vec<u8>,
    pub timelock: u64,
    pub state: HTLCState,
    pub preimage: Option<Vec<u8>>,
}

/// The mathematical content of an `HTLCData`.
pub struct HtlcRecord {
    pub sender: Seq<u8>,
    pub receiver: Seq<u8>,
    pub token: Seq<u8>,
    pub amount: i128,
    pub hashlock: Seq<u8>,
    pub timelock: u64,
    pub state: HTLCState,
    pub preimage: Option<Seq<u8>>,
}

pub open spec fn opt_bytes_view(o: Option<Vec<u8>>) -> Option<Seq<u8>> {
    match o {
        Some(v) => Some(v@),
        None => None,
    }
}

impl View for HTLCData {
    type V = HtlcRecord;

    open spec fn view(&self) -> HtlcRecord {
        HtlcRecord {
            sender: self.sender@,
            receiver: self.receiver@,
            token: self.token@,
            amount: self.amount,
            hashlock: self.hashlock@,
            timelock: self.timelock,
            state: self.state,
            preimage: opt_bytes_view(self.preimage),
        }
    }
}

impl HtlcRecord {
    /// A record just created: active, with no secret revealed.
    pub open spec fn fresh(
        sender: Seq<u8>,
        receiver: Seq<u8>,
        token: Seq<u8>,
        amount: i128,
        hashlock: Seq<u8>,
        timelock: u64,
    ) -> HtlcRecord {
        HtlcRecord {
            sender,
            receiver,
            token,
            amount,
            hashlock,
            timelock,
            state: HTLCState::Active,
            preimage: None,
        }
    }

    /// The record after the receiver claimed it with `preimage`.
    pub open spec fn withdrawn(self, preimage: Seq<u8>) -> HtlcRecord {
        HtlcRecord { state: HTLCState::Withdrawn, preimage: Some(preimage), ..self }
    }

    /// The record after the sender took the deposit back.
    pub open spec fn refunded(self) -> HtlcRecord {
        HtlcRecord { state: HTLCState::Refunded, ..self }
    }
}

impl HTLCData {
    pub fn duplicate(&self) -> (r: HTLCData)
        ensures
            r@ == self@,
    {
        let preimage = match &self.preimage {
            Some(p) => Some(copy_bytes(p)),
            None => None,
        };
        HTLCData {
            sender: self.sender.duplicate(),
            receiver: self.receiver.duplicate(),
            token: self.token.duplicate(),
            amount: self.amount,
            hashlock: copy_bytes(&self.hashlock),
            timelock: self.timelock,
            state: self.state,
            preimage,
        }
    }
}

/// A transfer out of the escrow's custody that a settlement asks the host to make.
#[derive(Clone, Debug, PartialEq, Eq)]
pub struct Payout {
    pub token: Address,
    pub to: Address,
    pub amount: i128,
}

pub fn copy_bytes(v: &Vec<u8>) -> (r: Vec<u8>)
    ensures
        r@ == v@,
{
    let mut r: Vec<u8> = Vec::new();
    let mut i: usize = 0;
    while i < v.len()
        invariant
            i <= v@.len(),
            r@ == v@.subrange(0, i as int),
        decreases v@.len() - i,
    {
        r.push(v[i]);
        i = i + 1;
        assert(r@ =~= v@.subrange(0, i as int));
    }
    assert(r@ =~= v@);
    r
}

pub fn bytes_equal(a: &Vec<u8>, b: &Vec<u8>) -> (r: bool)
    ensures
        r == (a@ == b@),
{
    if a.len() != b.len() {
        return false;
    }
    let mut i: usize = 0;
    while i < a.len()
        invariant
            i <= a@.len(),
            a@.len() == b@.len(),
            forall|j: int| 0 <= j < i ==> a@[j] == b@[j],
        decreases a@.len() - i,
    {
        if a[i] != b[i] {
            return false;
        }
        i = i + 1;
    }
    assert(a@ =~= b@);
    true
}

} // verus!
