use crate::host::keccak256_of;
use crate::ident::{id_input, lemma_id_input_distinct};
use crate::ledger::{after_refund, after_withdraw, authorized, refund_error, withdraw_error};
use crate::types::{Address, HTLCState, HtlcError, HtlcRecord};
use vstd::prelude::*;

verus! {

/// A record stored by a successful `create` reads back active, with no
/// preimage, and with exactly the fields it was created with.
pub proof fn lemma_created_record_reads_back(
    records: Map<Seq<u8>, HtlcRecord>,
    id: Seq<u8>,
    sender: Seq<u8>,
    receiver: Seq<u8>,
    token: Seq<u8>,
    amount: i128,
    hashlock: Seq<u8>,
    timelock: u64,
)
    ensures
        ({
            let after = records.insert(
                id,
                HtlcRecord::fresh(sender, receiver, token, amount, hashlock, timelock),
            );
            &&& after.contains_key(id)
            &&& after[id].state == HTLCState::Active
            &&& after[id].preimage is None
            &&& after[id].sender == sender
            &&& after[id].receiver == receiver
            &&& after[id].token == token
            &&& after[id].amount == amount
            &&& after[id].hashlock == hashlock
            &&& after[id].timelock == timelock
        }),
{
}

/// No operation ever removes a record: every identifier present before a
/// successful create, withdraw or refund is still present after it (and a
/// failed operation leaves the records as they were).
pub proof fn lemma_records_never_removed(
    records: Map<Seq<u8>, HtlcRecord>,
    k: Seq<u8>,
    id: Seq<u8>,
    preimage: Seq<u8>,
    created: HtlcRecord,
)
    requires
        records.contains_key(k),
    ensures
        records.insert(id, created).contains_key(k),
        after_withdraw(records, id, preimage).contains_key(k),
        after_refund(records, id).contains_key(k),
{
}

/// Once a withdrawal has succeeded, both a refund and another withdrawal of
/// the same escrow fail with `InvalidState`, whatever their arguments.
pub proof fn lemma_withdraw_settles_once(
    records: Map<Seq<u8>, HtlcRecord>,
    id: Seq<u8>,
    preimage: Seq<u8>,
    digest: Seq<u8>,
    signers: Seq<Address>,
    now: u64,
    later_digest: Seq<u8>,
    later_signers: Seq<Address>,
)
    requires
        withdraw_error(records, id, digest, signers) is None,
    ensures
        refund_error(after_withdraw(records, id, preimage), id, now, later_signers) == Some(
            HtlcError::InvalidState,
        ),
        withdraw_error(after_withdraw(records, id, preimage), id, later_digest, later_signers)
            == Some(HtlcError::InvalidState),
{
}

/// Once a refund has succeeded, both a withdrawal and another refund of the
/// same escrow fail with `InvalidState`, whatever their arguments.
pub proof fn lemma_refund_settles_once(
    records: Map<Seq<u8>, HtlcRecord>,
    id: Seq<u8>,
    now: u64,
    signers: Seq<Address>,
    later_now: u64,
    later_digest: Seq<u8>,
    later_signers: Seq<Address>,
)
    requires
        refund_error(records, id, now, signers) is None,
    ensures
        withdraw_error(after_refund(records, id), id, later_digest, later_signers) == Some(
            HtlcError::InvalidState,
        ),
        refund_error(after_refund(records, id), id, later_now, later_signers) == Some(
            HtlcError::InvalidState,
        ),
{
}

/// On an active escrow whose receiver signed, a withdrawal succeeds exactly
/// when the preimage's digest equals the hashlock, and otherwise fails with
/// `InvalidPreimage`.
pub proof fn lemma_withdraw_needs_matching_digest(
    records: Map<Seq<u8>, HtlcRecord>,
    id: Seq<u8>,
    digest: Seq<u8>,
    signers: Seq<Address>,
)
    requires
        records.contains_key(id),
        records[id].state == HTLCState::Active,
        authorized(signers, records[id].receiver),
    ensures
        withdraw_error(records, id, digest, signers) is None <==> digest == records[id].hashlock,
        digest != records[id].hashlock ==> withdraw_error(records, id, digest, signers) == Some(
            HtlcError::InvalidPreimage,
        ),
{
}

/// On an active escrow whose sender signed, a refund succeeds exactly when
/// the clock has reached the timelock: one tick earlier it fails with
/// `TimelockNotExpired`, at the timelock itself it succeeds.
pub proof fn lemma_refund_boundary(
    records: Map<Seq<u8>, HtlcRecord>,
    id: Seq<u8>,
    now: u64,
    signers: Seq<Address>,
)
    requires
        records.contains_key(id),
        records[id].state == HTLCState::Active,
        authorized(signers, records[id].sender),
    ensures
        refund_error(records, id, now, signers) is None <==> now >= records[id].timelock,
        records[id].timelock > 0 ==> refund_error(
            records,
            id,
            (records[id].timelock - 1) as u64,
            signers,
        ) == Some(HtlcError::TimelockNotExpired),
        refund_error(records, id, records[id].timelock, signers) is None,
{
}

/// Two creations with the same hashlock, sender and receiver, one after the
/// other, hash different bytes, since the counter has moved on; where those
/// digests differ, both escrows stand side by side, each with its own record.
pub proof fn lemma_two_creations_distinct(
    records: Map<Seq<u8>, HtlcRecord>,
    counter: u64,
    hashlock: Seq<u8>,
    sender: Seq<u8>,
    receiver: Seq<u8>,
    first: HtlcRecord,
    second: HtlcRecord,
)
    requires
        counter < u64::MAX - 1,
        keccak256_of(id_input(hashlock, sender, receiver, (counter + 1) as u64)) != keccak256_of(
            id_input(hashlock, sender, receiver, (counter + 2) as u64),
        ),
    ensures
        id_input(hashlock, sender, receiver, (counter + 1) as u64) != id_input(
            hashlock,
            sender,
            receiver,
            (counter + 2) as u64,
        ),
        ({
            let id1 = keccak256_of(id_input(hashlock, sender, receiver, (counter + 1) as u64));
            let id2 = keccak256_of(id_input(hashlock, sender, receiver, (counter + 2) as u64));
            let after = records.insert(id1, first).insert(id2, second);
            &&& after.contains_key(id1) && after[id1] == first
            &&& after.contains_key(id2) && after[id2] == second
        }),
{
    lemma_id_input_distinct(hashlock, sender, receiver, (counter + 1) as u64, (counter + 2) as u64);
}

} // verus!
