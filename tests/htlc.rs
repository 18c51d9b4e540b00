use soroban_sdk::{Bytes, Env};
use synappay_htlc::ident::be_bytes;
use synappay_htlc::{Address, HTLCState, HtlcError, Payout, SynapPayStellarHTLC};

fn addr(s: &str) -> Address {
    Address::new(s.as_bytes().to_vec())
}

fn keccak(env: &Env, data: &[u8]) -> Vec<u8> {
    env.crypto().keccak256(&Bytes::from_slice(env, data)).to_array().to_vec()
}

struct Setup {
    env: Env,
    ledger: SynapPayStellarHTLC,
    sender: Address,
    receiver: Address,
    token: Address,
    secret: Vec<u8>,
    hashlock: Vec<u8>,
}

fn setup() -> Setup {
    let env = Env::default();
    let secret = vec![1u8; 32];
    let hashlock = keccak(&env, &secret);
    Setup {
        env,
        ledger: SynapPayStellarHTLC::new(),
        sender: addr("GSENDER"),
        receiver: addr("GRECEIVER"),
        token: addr("CTOKEN"),
        secret,
        hashlock,
    }
}

fn create(s: &mut Setup, amount: i128, timelock: u64) -> Result<Vec<u8>, HtlcError> {
    let signers = vec![s.sender.clone()];
    s.ledger.new_contract_at(
        &s.env,
        0,
        s.sender.clone(),
        s.receiver.clone(),
        s.token.clone(),
        amount,
        s.hashlock.clone(),
        timelock,
        &signers,
    )
}

#[test]
fn test_htlc_flow() {
    let mut s = setup();
    let amount = 1000i128;
    let timelock = 3600u64;
    let htlc_id = create(&mut s, amount, timelock).unwrap();
    assert_eq!(htlc_id.len(), 32);
    assert!(s.ledger.has_contract(&htlc_id));

    let htlc_data = s.ledger.get_contract(&htlc_id).unwrap();
    assert_eq!(htlc_data.sender, s.sender);
    assert_eq!(htlc_data.receiver, s.receiver);
    assert_eq!(htlc_data.amount, amount);
    assert_eq!(htlc_data.state, HTLCState::Active);

    let signers = vec![s.receiver.clone()];
    s.ledger.withdraw(&s.env, &htlc_id, s.secret.clone(), &signers).unwrap();

    let updated_data = s.ledger.get_contract(&htlc_id).unwrap();
    assert_eq!(updated_data.state, HTLCState::Withdrawn);
    assert_eq!(updated_data.preimage, Some(s.secret.clone()));
}

#[test]
fn created_record_holds_inputs() {
    let mut s = setup();
    let id = create(&mut s, 250, 99).unwrap();
    let d = s.ledger.get_contract(&id).unwrap();
    assert_eq!(d.sender, s.sender);
    assert_eq!(d.receiver, s.receiver);
    assert_eq!(d.token, s.token);
    assert_eq!(d.amount, 250);
    assert_eq!(d.hashlock, s.hashlock);
    assert_eq!(d.timelock, 99);
    assert_eq!(d.state, HTLCState::Active);
    assert_eq!(d.preimage, None);
    assert_eq!(s.ledger.get_state(&id), Ok(HTLCState::Active));
    assert_eq!(s.ledger.get_preimage(&id), Ok(None));
}

#[test]
fn record_kept_after_settlement() {
    let mut s = setup();
    let a = create(&mut s, 10, 100).unwrap();
    let b = create(&mut s, 10, 100).unwrap();
    let signers = vec![s.receiver.clone()];
    s.ledger.withdraw(&s.env, &a, s.secret.clone(), &signers).unwrap();
    let signers = vec![s.sender.clone()];
    s.ledger.refund_at(100, &b, &signers).unwrap();
    assert!(s.ledger.has_contract(&a));
    assert!(s.ledger.has_contract(&b));
    assert_eq!(s.ledger.get_state(&a), Ok(HTLCState::Withdrawn));
    assert_eq!(s.ledger.get_state(&b), Ok(HTLCState::Refunded));
}

#[test]
fn withdraw_then_refund_is_invalid_state() {
    let mut s = setup();
    let id = create(&mut s, 1000, 3600).unwrap();
    let both = vec![s.sender.clone(), s.receiver.clone()];
    assert!(s.ledger.withdraw(&s.env, &id, s.secret.clone(), &both).is_ok());
    assert_eq!(s.ledger.refund_at(5000, &id, &both), Err(HtlcError::InvalidState));
    assert_eq!(
        s.ledger.withdraw(&s.env, &id, s.secret.clone(), &both),
        Err(HtlcError::InvalidState)
    );
}

#[test]
fn refund_then_withdraw_is_invalid_state() {
    let mut s = setup();
    let id = create(&mut s, 1000, 3600).unwrap();
    let both = vec![s.sender.clone(), s.receiver.clone()];
    assert!(s.ledger.refund_at(3600, &id, &both).is_ok());
    assert_eq!(
        s.ledger.withdraw(&s.env, &id, s.secret.clone(), &both),
        Err(HtlcError::InvalidState)
    );
    assert_eq!(s.ledger.refund_at(3601, &id, &both), Err(HtlcError::InvalidState));
}

#[test]
fn wrong_preimage_is_rejected_and_record_stays_active() {
    let mut s = setup();
    let id = create(&mut s, 1000, 3600).unwrap();
    let signers = vec![s.receiver.clone()];
    assert_eq!(
        s.ledger.withdraw(&s.env, &id, vec![2u8; 32], &signers),
        Err(HtlcError::InvalidPreimage)
    );
    // the hashlock itself is not a preimage of itself
    assert_eq!(
        s.ledger.withdraw(&s.env, &id, s.hashlock.clone(), &signers),
        Err(HtlcError::InvalidPreimage)
    );
    assert_eq!(s.ledger.get_state(&id), Ok(HTLCState::Active));
    assert_eq!(s.ledger.get_preimage(&id), Ok(None));
}

#[test]
fn withdraw_with_digest_decides_on_digest() {
    let mut s = setup();
    let id = create(&mut s, 1000, 3600).unwrap();
    let signers = vec![s.receiver.clone()];
    let wrong = vec![0u8; 32];
    assert_eq!(
        s.ledger.withdraw_with_digest(&id, vec![7u8], &wrong, &signers),
        Err(HtlcError::InvalidPreimage)
    );
    let digest = s.hashlock.clone();
    assert!(s.ledger.withdraw_with_digest(&id, vec![7u8], &digest, &signers).is_ok());
    assert_eq!(s.ledger.get_preimage(&id), Ok(Some(vec![7u8])));
}

#[test]
fn keccak_of_empty_preimage_unlocks() {
    let env = Env::default();
    let mut ledger = SynapPayStellarHTLC::new();
    let hashlock = vec![
        0xc5, 0xd2, 0x46, 0x01, 0x86, 0xf7, 0x23, 0x3c, 0x92, 0x7e, 0x7d, 0xb2, 0xdc, 0xc7, 0x03,
        0xc0, 0xe5, 0x00, 0xb6, 0x53, 0xca, 0x82, 0x27, 0x3b, 0x7b, 0xfa, 0xd8, 0x04, 0x5d, 0x85,
        0xa4, 0x70,
    ];
    let sender = addr("GA");
    let receiver = addr("GB");
    let id = ledger
        .new_contract_at(&env, 0, sender.clone(), receiver.clone(), addr("CT"), 1, hashlock, 1, &vec![sender])
        .unwrap();
    assert_eq!(ledger.withdraw(&env, &id, Vec::new(), &vec![receiver]).map(|p| p.amount), Ok(1));
}

#[test]
fn refund_boundary_is_inclusive() {
    let mut s = setup();
    let id = create(&mut s, 1000, 3600).unwrap();
    let signers = vec![s.sender.clone()];
    assert_eq!(s.ledger.refund_at(3599, &id, &signers), Err(HtlcError::TimelockNotExpired));
    assert_eq!(s.ledger.get_state(&id), Ok(HTLCState::Active));
    assert!(s.ledger.refund_at(3600, &id, &signers).is_ok());
    assert_eq!(s.ledger.get_state(&id), Ok(HTLCState::Refunded));
}

#[test]
fn identical_creations_get_distinct_ids() {
    let mut s = setup();
    let a = create(&mut s, 5, 10).unwrap();
    let b = create(&mut s, 7, 10).unwrap();
    assert_ne!(a, b);
    assert_eq!(s.ledger.get_contract(&a).unwrap().amount, 5);
    assert_eq!(s.ledger.get_contract(&b).unwrap().amount, 7);
}

#[test]
fn id_is_digest_of_hashlock_parties_and_counter() {
    let mut s = setup();
    let id = create(&mut s, 5, 10).unwrap();
    let mut input = s.hashlock.clone();
    input.extend_from_slice(b"GSENDER");
    input.extend_from_slice(b"GRECEIVER");
    input.extend_from_slice(&1u64.to_be_bytes());
    assert_eq!(id, keccak(&s.env, &input));
}

#[test]
fn big_endian_counter_bytes() {
    assert_eq!(be_bytes(1), vec![0, 0, 0, 0, 0, 0, 0, 1]);
    assert_eq!(be_bytes(0x0102030405060708), vec![1, 2, 3, 4, 5, 6, 7, 8]);
    assert_eq!(be_bytes(u64::MAX), vec![0xff; 8]);
}

#[test]
fn scenario_receiver_withdraws() {
    let mut s = setup();
    let id = create(&mut s, 1000, 3600).unwrap();
    let r_signers = vec![s.receiver.clone()];
    let payout = s.ledger.withdraw(&s.env, &id, s.secret.clone(), &r_signers).unwrap();
    assert_eq!(
        payout,
        Payout { token: s.token.clone(), to: s.receiver.clone(), amount: 1000 }
    );
    assert_eq!(s.ledger.get_state(&id), Ok(HTLCState::Withdrawn));
    assert_eq!(s.ledger.get_preimage(&id), Ok(Some(s.secret.clone())));
    let s_signers = vec![s.sender.clone()];
    assert_eq!(s.ledger.refund_at(7200, &id, &s_signers), Err(HtlcError::InvalidState));
}

#[test]
fn scenario_sender_refunds() {
    let mut s = setup();
    let id = create(&mut s, 1000, 3600).unwrap();
    let s_signers = vec![s.sender.clone()];
    let payout = s.ledger.refund_at(3601, &id, &s_signers).unwrap();
    assert_eq!(payout, Payout { token: s.token.clone(), to: s.sender.clone(), amount: 1000 });
    assert_eq!(s.ledger.get_state(&id), Ok(HTLCState::Refunded));
    let r_signers = vec![s.receiver.clone()];
    assert_eq!(
        s.ledger.withdraw(&s.env, &id, s.secret.clone(), &r_signers),
        Err(HtlcError::InvalidState)
    );
    assert_eq!(
        s.ledger.withdraw(&s.env, &id, vec![9u8; 32], &r_signers),
        Err(HtlcError::InvalidState)
    );
}

#[test]
fn scenario_zero_amount_creates_nothing() {
    let mut s = setup();
    assert_eq!(create(&mut s, 0, 3600), Err(HtlcError::InvalidAmount));
    let mut input = s.hashlock.clone();
    input.extend_from_slice(b"GSENDER");
    input.extend_from_slice(b"GRECEIVER");
    input.extend_from_slice(&1u64.to_be_bytes());
    let would_be = keccak(&s.env, &input);
    assert!(!s.ledger.has_contract(&would_be));
    // the counter was not consumed: the next creation takes that very id
    assert_eq!(create(&mut s, 1, 3600), Ok(would_be));
}

#[test]
fn create_errors_in_order() {
    let mut s = setup();
    let sender = s.sender.clone();
    let env = s.env.clone();
    let mut go = |signers: Vec<Address>, amount: i128, hashlock: Vec<u8>, timelock: u64| {
        s.ledger.new_contract_at(
            &env,
            100,
            sender.clone(),
            addr("GRECEIVER"),
            addr("CTOKEN"),
            amount,
            hashlock,
            timelock,
            &signers,
        )
    };
    let ok_lock = vec![3u8; 32];
    assert_eq!(go(vec![], 0, vec![], 0), Err(HtlcError::Unauthorized));
    assert_eq!(go(vec![addr("GRECEIVER")], 10, ok_lock.clone(), 200), Err(HtlcError::Unauthorized));
    assert_eq!(go(vec![sender.clone()], -5, vec![], 0), Err(HtlcError::InvalidAmount));
    assert_eq!(go(vec![sender.clone()], 10, vec![], 100), Err(HtlcError::InvalidTimelock));
    assert_eq!(go(vec![sender.clone()], 10, vec![3u8; 31], 101), Err(HtlcError::InvalidHashlockLength));
    assert!(go(vec![sender.clone()], 10, ok_lock, 101).is_ok());
}

#[test]
fn settlement_needs_the_right_signer() {
    let mut s = setup();
    let id = create(&mut s, 1000, 3600).unwrap();
    let only_sender = vec![s.sender.clone()];
    assert_eq!(
        s.ledger.withdraw(&s.env, &id, s.secret.clone(), &only_sender),
        Err(HtlcError::Unauthorized)
    );
    let only_receiver = vec![s.receiver.clone()];
    assert_eq!(s.ledger.refund_at(4000, &id, &only_receiver), Err(HtlcError::Unauthorized));
    assert_eq!(s.ledger.get_state(&id), Ok(HTLCState::Active));
}

#[test]
fn unknown_id_is_not_found() {
    let s = setup();
    let mut ledger = s.ledger;
    let id = vec![0u8; 32];
    let signers = vec![s.sender.clone(), s.receiver.clone()];
    assert!(!ledger.has_contract(&id));
    assert_eq!(ledger.get_contract(&id), Err(HtlcError::NotFound));
    assert_eq!(ledger.get_state(&id), Err(HtlcError::NotFound));
    assert_eq!(ledger.get_preimage(&id), Err(HtlcError::NotFound));
    assert_eq!(ledger.withdraw(&s.env, &id, s.secret.clone(), &signers), Err(HtlcError::NotFound));
    assert_eq!(ledger.refund_at(10, &id, &signers), Err(HtlcError::NotFound));
    assert!(ledger.has_capacity());
}

#[test]
fn restore_rebuilds_records_and_counter() {
    let mut s = setup();
    let id = create(&mut s, 42, 100).unwrap();
    assert_eq!(s.ledger.created_count(), 1);
    let data = s.ledger.get_contract(&id).unwrap();
    let mut newer = data.clone();
    newer.amount = 43;
    let other = vec![5u8; 32];
    let restored = SynapPayStellarHTLC::restore(
        7,
        vec![(id.clone(), data.clone()), (other.clone(), data.clone()), (id.clone(), newer)],
    );
    assert_eq!(restored.created_count(), 7);
    assert_eq!(restored.get_contract(&id).unwrap().amount, 43);
    assert_eq!(restored.get_contract(&other), Ok(data));
    assert!(!restored.has_contract(&vec![6u8; 32]));
}

#[test]
fn fresh_ledger_is_empty() {
    let ledger = SynapPayStellarHTLC::new();
    assert_eq!(ledger.created_count(), 0);
    assert!(ledger.has_capacity());
    assert!(!SynapPayStellarHTLC::restore(u64::MAX, Vec::new()).has_capacity());
}
