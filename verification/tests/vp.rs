use namada_airdrop::address::Address;
use namada_airdrop::claim::{Action, AirdropClaimData, Amount};
use namada_airdrop::error::VpError;
use namada_airdrop::storage::{init_storage, reveal_nullifier, Storage};
use namada_airdrop::storage_key::{
    airdrop_nullifier_key, sapling_note_commitment_root_key, sapling_nullifier_gap_root_key,
    sapling_value_commitment_scheme_key, sapling_verifying_key, DbKeySeg, Key,
};
use namada_airdrop::tx::Ctx;
use namada_airdrop::vp::{
    is_revealed_before, is_revealed_now, keys_read, was_committed, AirdropVp, VpStep,
};
use namada_airdrop::zkproof::{ProofStatement, SaplingConfiguration, ValueCommitmentScheme};

fn verifying_key() -> Vec<u8> {
    let g1 = bls12_381::G1Affine::generator().to_uncompressed();
    let g2 = bls12_381::G2Affine::generator().to_uncompressed();
    let mut bytes = Vec::new();
    bytes.extend_from_slice(&g1);
    bytes.extend_from_slice(&g1);
    bytes.extend_from_slice(&g2);
    bytes.extend_from_slice(&g2);
    bytes.extend_from_slice(&g1);
    bytes.extend_from_slice(&g2);
    bytes.extend_from_slice(&1u32.to_be_bytes());
    bytes.extend_from_slice(&g1);
    bytes
}

/// A chain state with the sapling parameters on record.
fn genesis(scheme: ValueCommitmentScheme) -> Storage {
    let mut storage = Storage::new();
    init_storage(
        &mut storage,
        SaplingConfiguration {
            verifying_key: verifying_key(),
            note_commitment_root: [0x11; 32],
            nullifier_gap_root: [0x22; 32],
            value_commitment_scheme: scheme,
        },
    );
    storage
}

fn account(name: &str) -> Address {
    Address::Other(name.to_string())
}

fn claim_data(nullifier: u8) -> AirdropClaimData {
    AirdropClaimData {
        zkproof: [0x33; 192],
        rk: [0x44; 32],
        cv: Some([0x66; 32]),
        cv_sha256: None,
        airdrop_nullifier: [nullifier; 32],
    }
}

fn claim(target: &str, nullifier: u8) -> Action {
    Action::Claim { target: account(target), claim_data: claim_data(nullifier) }
}

fn amount() -> Amount {
    Amount { raw: [100, 0, 0, 0] }
}

fn used(nullifier: u8) -> VpError {
    VpError::NullifierAlreadyUsed(hex::encode([nullifier; 32]))
}

/// What a validation looks at.
struct Tx {
    pre: Storage,
    post: Storage,
    actions: Vec<Action>,
    keys_changed: Vec<Key>,
    verifiers: Vec<Address>,
}

/// The transaction that starts in `pre` and makes the given claims through
/// the claim operation.
fn execute(pre: &Storage, claims: &[(&str, u8)]) -> Tx {
    let mut ctx = Ctx::new(pre.clone());
    for (target, nullifier) in claims {
        ctx.claim_airdrop(&account(target), &account("token"), amount(), claim_data(*nullifier));
    }
    Tx {
        pre: pre.clone(),
        post: ctx.storage,
        actions: ctx.actions,
        keys_changed: ctx.keys_changed,
        verifiers: ctx.verifiers,
    }
}

fn start(tx: &Tx) -> VpStep {
    AirdropVp::validate_tx(&tx.pre, &tx.post, &tx.actions, &tx.keys_changed, &tx.verifiers)
}

/// Runs the predicate to its end, answering every proof with `answer`, and
/// says how many proofs were asked for.
fn run(tx: &Tx, answer: fn(&ProofStatement) -> Result<(), String>) -> (Result<(), VpError>, usize) {
    let mut step = start(tx);
    let mut asked = 0;
    loop {
        match step {
            VpStep::Accept => return (Ok(()), asked),
            VpStep::Reject(e) => return (Err(e), asked),
            VpStep::VerifyProof(state, statement) => {
                asked += 1;
                step = state.proof_checked(
                    answer(&statement),
                    &tx.pre,
                    &tx.post,
                    &tx.actions,
                    &tx.keys_changed,
                    &tx.verifiers,
                );
            }
        }
    }
}

fn holds(_: &ProofStatement) -> Result<(), String> {
    Ok(())
}

fn refused(_: &ProofStatement) -> Result<(), String> {
    Err("invalid proof".to_string())
}

#[test]
fn a_claim_is_accepted_and_its_resubmission_rejected() {
    let chain = genesis(ValueCommitmentScheme::Native);
    let tx = execute(&chain, &[("alice", 0xa1)]);
    assert_eq!(tx.post.read_bytes(&airdrop_nullifier_key(&[0xa1; 32])), Some(vec![]));
    assert_eq!(run(&tx, holds), (Ok(()), 1));

    // The transaction is applied; the identical one comes again.
    let chain = tx.post;
    let again = execute(&chain, &[("alice", 0xa1)]);
    assert_eq!(run(&again, holds), (Err(used(0xa1)), 0));
}

#[test]
fn the_statement_of_a_claim_is_handed_out() {
    let tx = execute(&genesis(ValueCommitmentScheme::Native), &[("alice", 0xa1)]);
    match start(&tx) {
        VpStep::VerifyProof(_, statement) => {
            assert_eq!(
                statement,
                ProofStatement {
                    verifying_key: verifying_key(),
                    zkproof: [0x33; 192],
                    scheme: ValueCommitmentScheme::Native,
                    rk: [0x44; 32],
                    commitment: [0x66; 32],
                    note_commitment_root: [0x11; 32],
                    airdrop_nullifier: [0xa1; 32],
                    nullifier_gap_root: [0x22; 32],
                }
            );
        }
        other => panic!("expected a proof to check, got {:?}", other),
    }
}

#[test]
fn a_nullifier_stays_used_however_much_later() {
    let mut chain = genesis(ValueCommitmentScheme::Native);
    let first = execute(&chain, &[("alice", 0xa1)]);
    assert_eq!(run(&first, holds), (Ok(()), 1));
    chain = first.post;
    for nullifier in 1..20u8 {
        let tx = execute(&chain, &[("bob", nullifier)]);
        assert_eq!(run(&tx, holds), (Ok(()), 1));
        chain = tx.post;
    }
    let late = execute(&chain, &[("carol", 0xa1)]);
    assert_eq!(run(&late, holds), (Err(used(0xa1)), 0));
    let mixed = execute(&chain, &[("carol", 0xc1), ("carol", 0xa1)]);
    assert_eq!(run(&mixed, holds), (Err(used(0xa1)), 1));
}

#[test]
fn two_claims_with_one_nullifier_are_rejected() {
    let tx = execute(&genesis(ValueCommitmentScheme::Native), &[("alice", 0xa1), ("bob", 0xa1)]);
    assert!(!is_revealed_before(&tx.pre, &[0xa1; 32]));
    assert_eq!(run(&tx, holds), (Err(used(0xa1)), 1));
}

#[test]
fn two_claims_with_two_nullifiers_are_accepted() {
    let tx = execute(&genesis(ValueCommitmentScheme::Native), &[("alice", 0xa1), ("bob", 0xb2)]);
    assert_eq!(tx.keys_changed.len(), 2);
    assert_eq!(run(&tx, holds), (Ok(()), 2));
}

#[test]
fn a_nullifier_key_without_a_claim_is_rejected() {
    let mut tx = execute(&genesis(ValueCommitmentScheme::Native), &[("alice", 0xa1)]);
    reveal_nullifier(&mut tx.post, &[0xee; 32]);
    tx.keys_changed.push(airdrop_nullifier_key(&[0xee; 32]));
    assert_eq!(
        run(&tx, holds),
        (Err(VpError::UnexpectedNullifierKey(airdrop_nullifier_key(&[0xee; 32]))), 1)
    );
}

#[test]
fn the_first_unexpected_key_is_reported() {
    let mut tx = execute(&genesis(ValueCommitmentScheme::Native), &[("alice", 0xa1)]);
    tx.keys_changed = vec![
        sapling_verifying_key(),
        airdrop_nullifier_key(&[0xa1; 32]),
        airdrop_nullifier_key(&[0xe2; 32]),
        airdrop_nullifier_key(&[0xe1; 32]),
    ];
    assert_eq!(
        run(&tx, holds),
        (Err(VpError::UnexpectedNullifierKey(airdrop_nullifier_key(&[0xe2; 32]))), 1)
    );
}

#[test]
fn a_nullifier_shaped_key_that_is_no_hex_is_unexpected() {
    let mut tx = execute(&genesis(ValueCommitmentScheme::Native), &[("alice", 0xa1)]);
    let forged = Key {
        segments: vec![
            DbKeySeg::AddressSeg(Address::Airdrop),
            DbKeySeg::StringSeg("nullifiers".to_string()),
            DbKeySeg::StringSeg("A1".repeat(32)),
        ],
    };
    tx.keys_changed.push(forged.clone());
    assert_eq!(run(&tx, holds), (Err(VpError::UnexpectedNullifierKey(forged)), 1));
}

#[test]
fn other_changed_keys_are_no_concern() {
    let mut tx = execute(&genesis(ValueCommitmentScheme::Native), &[("alice", 0xa1)]);
    tx.keys_changed.push(sapling_note_commitment_root_key());
    tx.keys_changed.push(Key { segments: vec![DbKeySeg::StringSeg("balance".to_string())] });
    tx.keys_changed.push(Key {
        segments: vec![
            DbKeySeg::AddressSeg(account("elsewhere")),
            DbKeySeg::StringSeg("nullifiers".to_string()),
            DbKeySeg::StringSeg("ff".repeat(32)),
        ],
    });
    assert_eq!(run(&tx, holds), (Ok(()), 1));
}

#[test]
fn a_claim_whose_key_is_not_among_the_changed_is_still_accepted() {
    let mut tx = execute(&genesis(ValueCommitmentScheme::Native), &[("alice", 0xa1)]);
    tx.keys_changed.clear();
    assert_eq!(run(&tx, holds), (Ok(()), 1));
}

#[test]
fn no_claim_is_no_action() {
    let chain = genesis(ValueCommitmentScheme::Native);
    let tx = execute(&chain, &[]);
    assert_eq!(run(&tx, holds), (Err(VpError::NoAction), 0));
}

#[test]
fn no_claim_is_no_action_whatever_changed() {
    let mut tx = execute(&genesis(ValueCommitmentScheme::Native), &[]);
    tx.actions = vec![Action::Other, Action::Other];
    reveal_nullifier(&mut tx.post, &[0xee; 32]);
    tx.keys_changed = vec![airdrop_nullifier_key(&[0xee; 32]), sapling_verifying_key()];
    tx.verifiers = vec![account("alice")];
    assert_eq!(run(&tx, holds), (Err(VpError::NoAction), 0));
    let empty = Tx {
        pre: Storage::new(),
        post: Storage::new(),
        actions: vec![],
        keys_changed: vec![],
        verifiers: vec![],
    };
    assert_eq!(run(&empty, holds), (Err(VpError::NoAction), 0));
}

#[test]
fn other_actions_are_passed_over() {
    let mut tx = execute(&genesis(ValueCommitmentScheme::Native), &[("alice", 0xa1)]);
    tx.actions =
        vec![Action::Other, claim("alice", 0xa1), Action::Other, Action::Other];
    assert_eq!(run(&tx, holds), (Ok(()), 1));
}

#[test]
fn a_target_that_did_not_consent_is_unauthorized() {
    let mut tx = execute(&genesis(ValueCommitmentScheme::Native), &[("alice", 0xa1)]);
    tx.verifiers = vec![Address::Airdrop, account("bob")];
    assert_eq!(run(&tx, holds), (Err(VpError::Unauthorized(account("alice"))), 0));
    tx.verifiers = vec![];
    assert_eq!(run(&tx, holds), (Err(VpError::Unauthorized(account("alice"))), 0));
}

#[test]
fn consent_is_asked_before_the_nullifier_is_looked_at() {
    let mut chain = genesis(ValueCommitmentScheme::Native);
    reveal_nullifier(&mut chain, &[0xa1; 32]);
    let mut tx = execute(&chain, &[("alice", 0xa1)]);
    tx.verifiers = vec![Address::Airdrop];
    assert_eq!(run(&tx, holds), (Err(VpError::Unauthorized(account("alice"))), 0));
}

#[test]
fn a_nullifier_that_was_not_recorded_is_not_committed() {
    let chain = genesis(ValueCommitmentScheme::Native);
    let mut tx = execute(&chain, &[("alice", 0xa1)]);
    tx.post = chain.clone();
    assert_eq!(run(&tx, holds), (Err(VpError::NullifierNotCommitted), 0));
}

#[test]
fn a_nullifier_recorded_with_a_payload_is_not_committed() {
    let mut tx = execute(&genesis(ValueCommitmentScheme::Native), &[("alice", 0xa1)]);
    tx.post.write_bytes(airdrop_nullifier_key(&[0xa1; 32]), vec![0]);
    assert_eq!(run(&tx, holds), (Err(VpError::NullifierNotCommitted), 0));
}

#[test]
fn a_used_nullifier_is_reported_before_a_missing_record() {
    let mut chain = genesis(ValueCommitmentScheme::Native);
    reveal_nullifier(&mut chain, &[0xa1; 32]);
    let mut tx = execute(&chain, &[("alice", 0xa1)]);
    tx.post.write_bytes(airdrop_nullifier_key(&[0xa1; 32]), vec![1, 2, 3]);
    assert_eq!(run(&tx, holds), (Err(used(0xa1)), 0));
}

#[test]
fn a_proof_that_does_not_hold_rejects() {
    let tx = execute(&genesis(ValueCommitmentScheme::Native), &[("alice", 0xa1)]);
    assert_eq!(
        run(&tx, refused),
        (Err(VpError::ZkProofVerificationFailed("invalid proof".to_string())), 1)
    );
}

#[test]
fn nothing_is_asked_after_a_proof_that_does_not_hold() {
    let tx = execute(&genesis(ValueCommitmentScheme::Native), &[("alice", 0xa1), ("bob", 0xb2)]);
    assert_eq!(
        run(&tx, refused),
        (Err(VpError::ZkProofVerificationFailed("invalid proof".to_string())), 1)
    );
}

#[test]
fn the_second_proof_decides_too() {
    let tx = execute(&genesis(ValueCommitmentScheme::Native), &[("alice", 0xa1), ("bob", 0xb2)]);
    fn second_fails(statement: &ProofStatement) -> Result<(), String> {
        if statement.airdrop_nullifier == [0xb2; 32] {
            Err("no".to_string())
        } else {
            Ok(())
        }
    }
    assert_eq!(
        run(&tx, second_fails),
        (Err(VpError::ZkProofVerificationFailed("no".to_string())), 2)
    );
}

#[test]
fn the_checks_come_before_the_proof() {
    let mut tx = execute(&Storage::new(), &[("alice", 0xa1)]);
    // No parameters on record: the claim passes the guard and fails at the
    // parameters, before any proof is asked for.
    assert_eq!(run(&tx, holds), (Err(VpError::MissingVerifyingKey), 0));
    tx.verifiers.clear();
    assert_eq!(run(&tx, holds), (Err(VpError::Unauthorized(account("alice"))), 0));
}

#[test]
fn parameters_are_read_from_the_state_after_the_transaction() {
    let chain = genesis(ValueCommitmentScheme::Native);
    let mut tx = execute(&Storage::new(), &[("alice", 0xa1)]);
    reveal_nullifier(&mut tx.pre, &[0x01; 32]);
    let mut post = chain.clone();
    reveal_nullifier(&mut post, &[0xa1; 32]);
    tx.post = post;
    assert_eq!(run(&tx, holds), (Ok(()), 1));
}

#[test]
fn sha256_on_record_rejects_a_claim_with_only_cv() {
    let tx = execute(&genesis(ValueCommitmentScheme::Sha256), &[("alice", 0xa1)]);
    assert_eq!(
        run(&tx, holds),
        (
            Err(VpError::ZkProofVerificationFailed(
                "missing SHA-256 value commitment (cv_sha256)".to_string()
            )),
            0
        )
    );
}

#[test]
fn native_on_record_rejects_a_claim_with_only_cv_sha256() {
    let mut tx = execute(&genesis(ValueCommitmentScheme::Native), &[("alice", 0xa1)]);
    let mut data = claim_data(0xa1);
    data.cv = None;
    data.cv_sha256 = Some([0x77; 32]);
    tx.actions = vec![Action::Claim { target: account("alice"), claim_data: data }];
    assert_eq!(
        run(&tx, holds),
        (
            Err(VpError::ZkProofVerificationFailed(
                "missing native value commitment (cv)".to_string()
            )),
            0
        )
    );
}

#[test]
fn sha256_on_record_accepts_a_claim_with_cv_sha256() {
    let mut tx = execute(&genesis(ValueCommitmentScheme::Sha256), &[("alice", 0xa1)]);
    let mut data = claim_data(0xa1);
    data.cv = None;
    data.cv_sha256 = Some([0x77; 32]);
    tx.actions = vec![Action::Claim { target: account("alice"), claim_data: data }];
    assert_eq!(run(&tx, holds), (Ok(()), 1));
}

#[test]
fn an_earlier_error_hides_a_later_one() {
    let mut tx =
        execute(&genesis(ValueCommitmentScheme::Native), &[("alice", 0xa1), ("bob", 0xa1)]);
    tx.verifiers = vec![account("bob")];
    assert_eq!(run(&tx, holds), (Err(VpError::Unauthorized(account("alice"))), 0));
}

#[test]
fn guard_checks_one_by_one() {
    let mut pre = Storage::new();
    assert!(!is_revealed_before(&pre, &[1; 32]));
    reveal_nullifier(&mut pre, &[1; 32]);
    assert!(is_revealed_before(&pre, &[1; 32]));
    assert!(!is_revealed_before(&pre, &[2; 32]));

    assert!(!is_revealed_now(&[1; 32], &vec![]));
    assert!(is_revealed_now(&[1; 32], &vec![[0; 32], [1; 32]]));
    assert!(!is_revealed_now(&[2; 32], &vec![[0; 32], [1; 32]]));
    let mut near = [1u8; 32];
    near[31] = 0;
    assert!(!is_revealed_now(&near, &vec![[1; 32]]));

    let mut post = Storage::new();
    assert!(!was_committed(&post, &[1; 32]));
    reveal_nullifier(&mut post, &[1; 32]);
    assert!(was_committed(&post, &[1; 32]));
    post.write_bytes(airdrop_nullifier_key(&[1; 32]), vec![0]);
    assert!(!was_committed(&post, &[1; 32]));
}

#[test]
fn keys_read_are_the_parameters_and_the_claimed_nullifiers() {
    assert_eq!(
        keys_read(&vec![]),
        vec![
            sapling_verifying_key(),
            sapling_note_commitment_root_key(),
            sapling_nullifier_gap_root_key(),
            sapling_value_commitment_scheme_key(),
        ]
    );
    assert_eq!(
        keys_read(&vec![claim("alice", 2), Action::Other, claim("bob", 1), claim("carol", 2)]),
        vec![
            sapling_verifying_key(),
            sapling_note_commitment_root_key(),
            sapling_nullifier_gap_root_key(),
            sapling_value_commitment_scheme_key(),
            airdrop_nullifier_key(&[2; 32]),
            airdrop_nullifier_key(&[1; 32]),
            airdrop_nullifier_key(&[2; 32]),
        ]
    );
}

/// The transaction with only the records under the keys read: presence
/// before, the record after.
fn narrowed(tx: &Tx) -> Tx {
    let mut pre = Storage::new();
    let mut post = Storage::new();
    for key in keys_read(&tx.actions) {
        if tx.pre.has_key(&key) {
            pre.write_bytes(key.clone(), vec![]);
        }
        if let Some(value) = tx.post.read_bytes(&key) {
            post.write_bytes(key, value);
        }
    }
    Tx {
        pre,
        post,
        actions: tx.actions.clone(),
        keys_changed: tx.keys_changed.clone(),
        verifiers: tx.verifiers.clone(),
    }
}

#[test]
fn the_records_under_the_keys_read_decide() {
    let mut chain = genesis(ValueCommitmentScheme::Native);
    chain.write_bytes(Key { segments: vec![DbKeySeg::StringSeg("else".to_string())] }, vec![1]);
    reveal_nullifier(&mut chain, &[0x0d; 32]);

    let accepted = execute(&chain, &[("alice", 0xa1), ("bob", 0xb2)]);
    assert_eq!(run(&accepted, holds), (Ok(()), 2));
    assert_eq!(run(&narrowed(&accepted), holds), (Ok(()), 2));
    assert_eq!(start(&narrowed(&accepted)), start(&accepted));

    let used_before = execute(&chain, &[("alice", 0xa1), ("bob", 0x0d)]);
    assert_eq!(run(&used_before, holds), (Err(used(0x0d)), 1));
    assert_eq!(run(&narrowed(&used_before), holds), (Err(used(0x0d)), 1));

    let mut uncommitted = execute(&chain, &[("alice", 0xa1)]);
    uncommitted.post.write_bytes(airdrop_nullifier_key(&[0xa1; 32]), vec![9]);
    assert_eq!(run(&uncommitted, holds), (Err(VpError::NullifierNotCommitted), 0));
    assert_eq!(run(&narrowed(&uncommitted), holds), (Err(VpError::NullifierNotCommitted), 0));

    let bare = execute(&Storage::new(), &[("alice", 0xa1)]);
    assert_eq!(run(&narrowed(&bare), holds), run(&bare, holds));
}

#[test]
fn a_nullifier_key_with_an_address_as_third_segment_is_unexpected() {
    let mut tx = execute(&genesis(ValueCommitmentScheme::Native), &[("alice", 0xa1)]);
    let forged = Key {
        segments: vec![
            DbKeySeg::AddressSeg(Address::Airdrop),
            DbKeySeg::StringSeg("nullifiers".to_string()),
            DbKeySeg::AddressSeg(account("alice")),
        ],
    };
    tx.post.write_bytes(forged.clone(), vec![]);
    tx.keys_changed.push(forged.clone());
    assert_eq!(run(&tx, holds), (Err(VpError::UnexpectedNullifierKey(forged)), 1));
}

#[test]
fn a_scheme_value_of_two_bytes_rejects_the_claim() {
    let mut chain = genesis(ValueCommitmentScheme::Native);
    chain.write_bytes(sapling_value_commitment_scheme_key(), vec![1, 0]);
    let tx = execute(&chain, &[("alice", 0xa1)]);
    assert_eq!(
        run(&tx, holds),
        (Err(VpError::InvalidValueCommitmentScheme("expected 1 bytes, got 2".to_string())), 0)
    );
}
