use crate::host::{keccak256, keccak256_of, ledger_timestamp};
use crate::ident::{be_bytes, id_input};
use crate::types::{copy_bytes, opt_bytes_view, Address, HTLCData, HTLCState, HtlcError, HtlcRecord, Payout};
use soroban_sdk::Env;
use vstd::prelude::*;

verus! {

/// Whether `p` is among the principals that authorized the call.
pub open spec fn authorized(signers: Seq<Address>, p: Seq<u8>) -> bool {
    exists|i: int| 0 <= i < signers.len() && #[trigger] signers[i]@ == p
}

/// Why `create` refuses its arguments at clock reading `now`, checked in order;
/// `None` when it goes through.
pub open spec fn create_error(
    signers: Seq<Address>,
    sender: Seq<u8>,
    amount: i128,
    now: u64,
    timelock: u64,
    hashlock: Seq<u8>,
) -> Option<HtlcError> {
    if !authorized(signers, sender) {
        Some(HtlcError::Unauthorized)
    } else if amount <= 0 {
        Some(HtlcError::InvalidAmount)
    } else if timelock <= now {
        Some(HtlcError::InvalidTimelock)
    } else if hashlock.len() != 32 {
        Some(HtlcError::InvalidHashlockLength)
    } else {
        None
    }
}

/// Why a withdrawal of escrow `id` whose preimage hashes to `digest` is
/// refused, checked in order; `None` when it goes through.
pub open spec fn withdraw_error(
    records: Map<Seq<u8>, HtlcRecord>,
    id: Seq<u8>,
    digest: Seq<u8>,
    signers: Seq<Address>,
) -> Option<HtlcError> {
    if !records.contains_key(id) {
        Some(HtlcError::NotFound)
    } else if records[id].state != HTLCState::Active {
        Some(HtlcError::InvalidState)
    } else if digest != records[id].hashlock {
        Some(HtlcError::InvalidPreimage)
    } else if !authorized(signers, records[id].receiver) {
        Some(HtlcError::Unauthorized)
    } else {
        None
    }
}

/// Why a refund of escrow `id` at clock reading `now` is refused, checked in
/// order; `None` when it goes through.
pub open spec fn refund_error(
    records: Map<Seq<u8>, HtlcRecord>,
    id: Seq<u8>,
    now: u64,
    signers: Seq<Address>,
) -> Option<HtlcError> {
    if !records.contains_key(id) {
        Some(HtlcError::NotFound)
    } else if records[id].state != HTLCState::Active {
        Some(HtlcError::InvalidState)
    } else if now < records[id].timelock {
        Some(HtlcError::TimelockNotExpired)
    } else if !authorized(signers, records[id].sender) {
        Some(HtlcError::Unauthorized)
    } else {
        None
    }
}

/// The records after a successful withdrawal of `id` with `preimage`.
pub open spec fn after_withdraw(
    records: Map<Seq<u8>, HtlcRecord>,
    id: Seq<u8>,
    preimage: Seq<u8>,
) -> Map<Seq<u8>, HtlcRecord> {
    records.insert(id, records[id].withdrawn(preimage))
}

/// The records after a successful refund of `id`.
pub open spec fn after_refund(records: Map<Seq<u8>, HtlcRecord>, id: Seq<u8>) -> Map<
    Seq<u8>,
    HtlcRecord,
> {
    records.insert(id, records[id].refunded())
}

/// The outcome of an operation with its payout left out.
pub open spec fn error_of<T>(r: Result<T, HtlcError>) -> Option<HtlcError> {
    match r {
        Ok(_) => None,
        Err(e) => Some(e),
    }
}

pub open spec fn pays(p: Payout, token: Seq<u8>, to: Seq<u8>, amount: i128) -> bool {
    p.token@ == token && p.to@ == to && p.amount == amount
}

/// The records that a list of stored entries describes, a later entry
/// replacing an earlier one under the same identifier.
pub open spec fn records_of(entries: Seq<(Vec<u8>, HTLCData)>) -> Map<Seq<u8>, HtlcRecord>
    decreases entries.len(),
{
    if entries.len() == 0 {
        Map::empty()
    } else {
        let last = entries.last();
        records_of(entries.drop_last()).insert(last.0@, last.1@)
    }
}

struct Entry {
    id: Vec<u8>,
    data: HTLCData,
}

/// The ledger of escrows, keyed by identifier, with the creation counter.
pub struct SynapPayStellarHTLC {
    entries: Vec<Entry>,
    counter: u64,
    records: Ghost<Map<Seq<u8>, HtlcRecord>>,
}

impl SynapPayStellarHTLC {
    /// Every escrow ever created, by identifier.
    pub closed spec fn records(&self) -> Map<Seq<u8>, HtlcRecord> {
        self.records@
    }

    /// How many escrows have been created.
    pub closed spec fn counter(&self) -> u64 {
        self.counter
    }

    /// Each stored entry agrees with the record map, every record has an
    /// entry, and no identifier is stored twice.
    pub closed spec fn wf(&self) -> bool {
        &&& forall|i: int|
            0 <= i < self.entries@.len() ==> {
                &&& self.records@.contains_key(#[trigger] self.entries@[i].id@)
                &&& self.records@[self.entries@[i].id@] == self.entries@[i].data@
            }
        &&& forall|k: Seq<u8>|
            #[trigger] self.records@.contains_key(k) ==> exists|i: int|
                0 <= i < self.entries@.len() && #[trigger] self.entries@[i].id@ == k
        &&& forall|i: int, j: int|
            0 <= i < self.entries@.len() && 0 <= j < self.entries@.len() && i != j
                ==> #[trigger] self.entries@[i].id@ != #[trigger] self.entries@[j].id@
    }

    /// An empty ledger.
    pub fn new() -> (r: SynapPayStellarHTLC)
        ensures
            r.wf(),
            r.records() == Map::<Seq<u8>, HtlcRecord>::empty(),
            r.counter() == 0,
    {
        SynapPayStellarHTLC { entries: Vec::new(), counter: 0, records: Ghost(Map::empty()) }
    }

    /// A ledger holding the given records, whose creation counter stands at
    /// `counter`.
    pub fn restore(counter: u64, entries: Vec<(Vec<u8>, HTLCData)>) -> (r: SynapPayStellarHTLC)
        ensures
            r.wf(),
            r.records() == records_of(entries@),
            r.counter() == counter,
    {
        let mut ledger = SynapPayStellarHTLC::new();
        ledger.counter = counter;
        let mut rest = entries;
        let ghost all = rest@;
        let mut i: usize = 0;
        let n = rest.len();
        while i < n
            invariant
                n == all.len(),
                i <= n,
                rest@ == all.subrange(i as int, n as int),
                ledger.wf(),
                ledger.counter() == counter,
                ledger.records() == records_of(all.subrange(0, i as int)),
            decreases n - i,
        {
            let (id, data) = rest.remove(0);
            proof {
                assert(all.subrange(0, i + 1).drop_last() =~= all.subrange(0, i as int));
                assert(rest@ =~= all.subrange(i + 1, n as int));
            }
            ledger.store(id, data);
            i = i + 1;
        }
        assert(all.subrange(0, n as int) =~= all);
        ledger
    }

    /// How many escrows this ledger has created.
    pub fn created_count(&self) -> (r: u64)
        ensures
            r == self.counter(),
    {
        self.counter
    }

    /// Whether another escrow can still be given a counter value.
    pub fn has_capacity(&self) -> (r: bool)
        ensures
            r == (self.counter() < u64::MAX),
    {
        self.counter < u64::MAX
    }

    fn find(&self, id: &Vec<u8>) -> (r: Option<usize>)
        requires
            self.wf(),
        ensures
            match r {
                Some(i) => i < self.entries@.len() && self.entries@[i as int].id@ == id@,
                None => !self.records().contains_key(id@),
            },
    {
        let mut i: usize = 0;
        while i < self.entries.len()
            invariant
                self.wf(),
                i <= self.entries@.len(),
                forall|j: int| 0 <= j < i ==> self.entries@[j].id@ != id@,
            decreases self.entries@.len() - i,
        {
            if crate::types::bytes_equal(&self.entries[i].id, id) {
                return Some(i);
            }
            i = i + 1;
        }
        None
    }

    /// Puts `data` under `id`, replacing what stood there.
    fn store(&mut self, id: Vec<u8>, data: HTLCData)
        requires
            old(self).wf(),
        ensures
            final(self).wf(),
            final(self).records() == old(self).records().insert(id@, data@),
            final(self).counter() == old(self).counter(),
    {
        let ghost key = id@;
        let ghost rec = data@;
        match self.find(&id) {
            Some(i) => {
                self.entries.set(i, Entry { id, data });
            },
            None => {
                self.entries.push(Entry { id, data });
            },
        }
        self.records = Ghost(self.records@.insert(key, rec));
        assert forall|k: Seq<u8>| #[trigger] self.records@.contains_key(k) implies exists|i: int|
            0 <= i < self.entries@.len() && #[trigger] self.entries@[i].id@ == k by {
            if k != key {
                let i = choose|i: int|
                    0 <= i < old(self).entries@.len() && #[trigger] old(self).entries@[i].id@ == k;
                assert(self.entries@[i].id@ == k);
            } else {
                let n = self.entries@.len() - 1;
                if old(self).records@.contains_key(key) {
                    let i = choose|i: int|
                        0 <= i < old(self).entries@.len() && #[trigger] old(self).entries@[i].id@
                            == key;
                    assert(self.entries@[i].id@ == k);
                } else {
                    assert(self.entries@[n].id@ == k);
                }
            }
        }
    }

    /// Settles escrow `contract_id` to its receiver, given the digest of `preimage`.
    pub fn withdraw_with_digest(
        &mut self,
        contract_id: &Vec<u8>,
        preimage: Vec<u8>,
        digest: &Vec<u8>,
        signers: &Vec<Address>,
    ) -> (r: Result<Payout, HtlcError>)
        requires
            old(self).wf(),
        ensures
            final(self).wf(),
            error_of(r) == withdraw_error(old(self).records(), contract_id@, digest@, signers@),
            r is Err ==> final(self).records() == old(self).records(),
            r is Ok ==> final(self).records() == after_withdraw(
                old(self).records(),
                contract_id@,
                preimage@,
            ),
            r is Ok ==> pays(
                r->Ok_0,
                old(self).records()[contract_id@].token,
                old(self).records()[contract_id@].receiver,
                old(self).records()[contract_id@].amount,
            ),
            final(self).counter() == old(self).counter(),
    {
        let i = match self.find(contract_id) {
            Some(i) => i,
            None => return Err(HtlcError::NotFound),
        };
        let d = &self.entries[i].data;
        if d.state != HTLCState::Active {
            return Err(HtlcError::InvalidState);
        }
        if !crate::types::bytes_equal(digest, &d.hashlock) {
            return Err(HtlcError::InvalidPreimage);
        }
        if !is_authorized(signers, &d.receiver) {
            return Err(HtlcError::Unauthorized);
        }
        let mut updated = d.duplicate();
        updated.state = HTLCState::Withdrawn;
        updated.preimage = Some(preimage);
        let payout = Payout {
            token: d.token.duplicate(),
            to: d.receiver.duplicate(),
            amount: d.amount,
        };
        let id = copy_bytes(contract_id);
        self.store(id, updated);
        assert(self.records() =~= after_withdraw(old(self).records(), contract_id@, preimage@));
        Ok(payout)
    }

    /// Settles escrow `contract_id` to its receiver when `preimage` hashes to
    /// its hashlock, and records the preimage.
    pub fn withdraw(
        &mut self,
        env: &Env,
        contract_id: &Vec<u8>,
        preimage: Vec<u8>,
        signers: &Vec<Address>,
    ) -> (r: Result<Payout, HtlcError>)
        requires
            old(self).wf(),
            preimage@.len() <= u32::MAX,
        ensures
            final(self).wf(),
            error_of(r) == withdraw_error(
                old(self).records(),
                contract_id@,
                keccak256_of(preimage@),
                signers@,
            ),
            r is Err ==> final(self).records() == old(self).records(),
            r is Ok ==> final(self).records() == after_withdraw(
                old(self).records(),
                contract_id@,
                preimage@,
            ),
            r is Ok ==> pays(
                r->Ok_0,
                old(self).records()[contract_id@].token,
                old(self).records()[contract_id@].receiver,
                old(self).records()[contract_id@].amount,
            ),
            final(self).counter() == old(self).counter(),
    {
        let digest = keccak256(env, &preimage);
        self.withdraw_with_digest(contract_id, preimage, &digest, signers)
    }

    /// Returns escrow `contract_id` to its sender, the clock reading `now`.
    pub fn refund_at(&mut self, now: u64, contract_id: &Vec<u8>, signers: &Vec<Address>) -> (r:
        Result<Payout, HtlcError>)
        requires
            old(self).wf(),
        ensures
            final(self).wf(),
            error_of(r) == refund_error(old(self).records(), contract_id@, now, signers@),
            r is Err ==> final(self).records() == old(self).records(),
            r is Ok ==> final(self).records() == after_refund(old(self).records(), contract_id@),
            r is Ok ==> pays(
                r->Ok_0,
                old(self).records()[contract_id@].token,
                old(self).records()[contract_id@].sender,
                old(self).records()[contract_id@].amount,
            ),
            final(self).counter() == old(self).counter(),
    {
        let i = match self.find(contract_id) {
            Some(i) => i,
            None => return Err(HtlcError::NotFound),
        };
        let d = &self.entries[i].data;
        if d.state != HTLCState::Active {
            return Err(HtlcError::InvalidState);
        }
        if now < d.timelock {
            return Err(HtlcError::TimelockNotExpired);
        }
        if !is_authorized(signers, &d.sender) {
            return Err(HtlcError::Unauthorized);
        }
        let mut updated = d.duplicate();
        updated.state = HTLCState::Refunded;
        let payout = Payout { token: d.token.duplicate(), to: d.sender.duplicate(), amount: d.amount };
        let id = copy_bytes(contract_id);
        self.store(id, updated);
        assert(self.records() =~= after_refund(old(self).records(), contract_id@));
        Ok(payout)
    }

    /// Returns escrow `contract_id` to its sender once the ledger's clock has
    /// reached its timelock.
    pub fn refund(&mut self, env: &Env, contract_id: &Vec<u8>, signers: &Vec<Address>) -> (r:
        Result<Payout, HtlcError>)
        requires
            old(self).wf(),
        ensures
            final(self).wf(),
            exists|now: u64|
                error_of(r) == #[trigger] refund_error(
                    old(self).records(),
                    contract_id@,
                    now,
                    signers@,
                ),
            r is Err ==> final(self).records() == old(self).records(),
            r is Ok ==> final(self).records() == after_refund(old(self).records(), contract_id@),
            r is Ok ==> pays(
                r->Ok_0,
                old(self).records()[contract_id@].token,
                old(self).records()[contract_id@].sender,
                old(self).records()[contract_id@].amount,
            ),
            final(self).counter() == old(self).counter(),
    {
        let now = ledger_timestamp(env);
        let r = self.refund_at(now, contract_id, signers);
        assert(error_of(r) == refund_error(old(self).records(), contract_id@, now, signers@));
        r
    }

    /// Opens an escrow at clock reading `now`, named by the Keccak-256 digest
    /// of its hashlock, parties and the incremented counter.
    pub fn new_contract_at(
        &mut self,
        env: &Env,
        now: u64,
        sender: Address,
        receiver: Address,
        token: Address,
        amount: i128,
        hashlock: Vec<u8>,
        timelock: u64,
        signers: &Vec<Address>,
    ) -> (r: Result<Vec<u8>, HtlcError>)
        requires
            old(self).wf(),
            old(self).counter() < u64::MAX,
            sender@.len() + receiver@.len() + 40 <= u32::MAX,
        ensures
            final(self).wf(),
            error_of(r) == create_error(signers@, sender@, amount, now, timelock, hashlock@),
            r is Err ==> final(self).records() == old(self).records() && final(self).counter()
                == old(self).counter(),
            r is Ok ==> r->Ok_0@ == keccak256_of(
                id_input(hashlock@, sender@, receiver@, (old(self).counter() + 1) as u64),
            ),
            r is Ok ==> final(self).records() == old(self).records().insert(
                r->Ok_0@,
                HtlcRecord::fresh(sender@, receiver@, token@, amount, hashlock@, timelock),
            ),
            r is Ok ==> final(self).counter() == old(self).counter() + 1,
    {
        if !is_authorized(signers, &sender) {
            return Err(HtlcError::Unauthorized);
        }
        if amount <= 0 {
            return Err(HtlcError::InvalidAmount);
        }
        if timelock <= now {
            return Err(HtlcError::InvalidTimelock);
        }
        if hashlock.len() != 32 {
            return Err(HtlcError::InvalidHashlockLength);
        }
        let counter = self.counter + 1;
        let mut input = copy_bytes(&hashlock);
        let mut s = copy_bytes(&sender.strkey);
        input.append(&mut s);
        let mut rc = copy_bytes(&receiver.strkey);
        input.append(&mut rc);
        let mut cb = be_bytes(counter);
        input.append(&mut cb);
        assert(input@ =~= id_input(hashlock@, sender@, receiver@, counter));
        let id = keccak256(env, &input);
        let data = HTLCData {
            sender,
            receiver,
            token,
            amount,
            hashlock,
            timelock,
            state: HTLCState::Active,
            preimage: None,
        };
        self.store(copy_bytes(&id), data);
        self.counter = counter;
        Ok(id)
    }

    /// Opens an escrow at the ledger's current clock reading.
    pub fn new_contract(
        &mut self,
        env: &Env,
        sender: Address,
        receiver: Address,
        token: Address,
        amount: i128,
        hashlock: Vec<u8>,
        timelock: u64,
        signers: &Vec<Address>,
    ) -> (r: Result<Vec<u8>, HtlcError>)
        requires
            old(self).wf(),
            old(self).counter() < u64::MAX,
            sender@.len() + receiver@.len() + 40 <= u32::MAX,
        ensures
            final(self).wf(),
            exists|now: u64|
                error_of(r) == #[trigger] create_error(
                    signers@,
                    sender@,
                    amount,
                    now,
                    timelock,
                    hashlock@,
                ),
            r is Err ==> final(self).records() == old(self).records() && final(self).counter()
                == old(self).counter(),
            r is Ok ==> r->Ok_0@ == keccak256_of(
                id_input(hashlock@, sender@, receiver@, (old(self).counter() + 1) as u64),
            ),
            r is Ok ==> final(self).records() == old(self).records().insert(
                r->Ok_0@,
                HtlcRecord::fresh(sender@, receiver@, token@, amount, hashlock@, timelock),
            ),
            r is Ok ==> final(self).counter() == old(self).counter() + 1,
    {
        let now = ledger_timestamp(env);
        let ghost (ss, rs, ts, hs) = (sender@, receiver@, token@, hashlock@);
        let r = self.new_contract_at(env, now, sender, receiver, token, amount, hashlock, timelock, signers);
        assert(error_of(r) == create_error(signers@, ss, amount, now, timelock, hs));
        r
    }

    /// The record of escrow `contract_id`.
    pub fn get_contract(&self, contract_id: &Vec<u8>) -> (r: Result<HTLCData, HtlcError>)
        requires
            self.wf(),
        ensures
            r is Ok <==> self.records().contains_key(contract_id@),
            r is Ok ==> r->Ok_0@ == self.records()[contract_id@],
            r is Err ==> r == Err::<HTLCData, HtlcError>(HtlcError::NotFound),
    {
        match self.find(contract_id) {
            Some(i) => Ok(self.entries[i].data.duplicate()),
            None => Err(HtlcError::NotFound),
        }
    }

    /// Whether escrow `contract_id` exists.
    pub fn has_contract(&self, contract_id: &Vec<u8>) -> (r: bool)
        requires
            self.wf(),
        ensures
            r == self.records().contains_key(contract_id@),
    {
        match self.find(contract_id) {
            Some(_) => true,
            None => false,
        }
    }

    /// The lifecycle state of escrow `contract_id`.
    pub fn get_state(&self, contract_id: &Vec<u8>) -> (r: Result<HTLCState, HtlcError>)
        requires
            self.wf(),
        ensures
            r is Ok <==> self.records().contains_key(contract_id@),
            r is Ok ==> r->Ok_0 == self.records()[contract_id@].state,
            r is Err ==> r == Err::<HTLCState, HtlcError>(HtlcError::NotFound),
    {
        match self.get_contract(contract_id) {
            Ok(d) => Ok(d.state),
            Err(e) => Err(e),
        }
    }

    /// The secret revealed by the withdrawal of escrow `contract_id`, if any.
    pub fn get_preimage(&self, contract_id: &Vec<u8>) -> (r: Result<Option<Vec<u8>>, HtlcError>)
        requires
            self.wf(),
        ensures
            r is Ok <==> self.records().contains_key(contract_id@),
            r is Ok ==> opt_bytes_view(r->Ok_0) == self.records()[contract_id@].preimage,
            r is Err ==> r == Err::<Option<Vec<u8>>, HtlcError>(HtlcError::NotFound),
    {
        match self.get_contract(contract_id) {
            Ok(d) => Ok(d.preimage),
            Err(e) => Err(e),
        }
    }
}

/// Whether `p` is among `signers`.
pub fn is_authorized(signers: &Vec<Address>, p: &Address) -> (r: bool)
    ensures
        r == authorized(signers@, p@),
{
    let mut i: usize = 0;
    while i < signers.len()
        invariant
            i <= signers@.len(),
            forall|j: int| 0 <= j < i ==> signers@[j]@ != p@,
        decreases signers@.len() - i,
    {
        if signers[i].same_as(p) {
            return true;
        }
        i = i + 1;
    }
    false
}

} // verus!
