use soroban_sdk::{Bytes, Env};
use vstd::prelude::*;

verus! {

#[verifier::external_type_specification]
#[verifier::external_body]
pub struct ExEnv(Env);

/// The Keccak-256 digest of a byte string.
pub uninterp spec fn keccak256_of(data: Seq<u8>) -> Seq<u8>;

/// Relies on soroban_sdk's `Crypto::keccak256`: the 32-byte Keccak-256 digest
/// of the bytes, which `Bytes::from_slice` copies into the host.
#[verifier::external_body]
pub(crate) fn keccak256(env: &Env, data: &Vec<u8>) -> (r: Vec<u8>)
    requires
        data@.len() <= u32::MAX,
    ensures
        r@ == keccak256_of(data@),
        r@.len() == 32,
{
    env.crypto().keccak256(&Bytes::from_slice(env, data.as_slice())).to_array().to_vec()
}

/// Relies on soroban_sdk's `Ledger::timestamp`: the close time of the current
/// ledger, which nothing here predicts. The host panics when it has no
/// ledger information, as outside a contract invocation.
#[verifier::external_body]
pub(crate) fn ledger_timestamp(env: &Env) -> (r: u64) {
    env.ledger().timestamp()
}

} // verus!
