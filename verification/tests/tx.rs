use namada_airdrop::address::Address;
use namada_airdrop::claim::{Action, AirdropClaimData, Amount, ClaimAirdrop};
use namada_airdrop::error::VpError;
use namada_airdrop::storage::Storage;
use namada_airdrop::storage_key::{airdrop_nullifier_key, DbKeySeg, Key};
use namada_airdrop::tx::{Ctx, Mint};
use namada_airdrop::zkproof::{ProofStatement, SaplingConfiguration, ValueCommitmentScheme};

fn account(name: &str) -> Address {
    Address::Other(name.to_string())
}

fn units(n: u64) -> Amount {
    Amount { raw: [n, 0, 0, 0] }
}

fn claim_data(nullifier: u8) -> AirdropClaimData {
    AirdropClaimData {
        zkproof: [0x33; 192],
        rk: [0x44; 32],
        cv: Some([0x66; 32]),
        cv_sha256: None,
        airdrop_nullifier: [nullifier; 32],
    }
}

#[test]
fn a_new_transaction_has_done_nothing() {
    let ctx = Ctx::new(Storage::new());
    assert!(ctx.keys_changed.is_empty());
    assert!(ctx.actions.is_empty());
    assert!(ctx.verifiers.is_empty());
    assert!(ctx.mints.is_empty());
}

#[test]
fn a_claim_has_three_effects_and_asks_for_consent() {
    let mut ctx = Ctx::new(Storage::new());
    let claim = ClaimAirdrop {
        target: account("alice"),
        token: account("nam"),
        amount: units(5),
        claim_data: claim_data(0xa1),
    };
    ctx.claim_airdrop(&claim.target, &claim.token, claim.amount, claim.claim_data);

    assert_eq!(ctx.verifiers, vec![Address::Airdrop, account("alice")]);
    assert_eq!(ctx.storage.read_bytes(&airdrop_nullifier_key(&[0xa1; 32])), Some(vec![]));
    assert_eq!(ctx.keys_changed, vec![airdrop_nullifier_key(&[0xa1; 32])]);
    assert_eq!(
        ctx.actions,
        vec![Action::Claim { target: account("alice"), claim_data: claim_data(0xa1) }]
    );
    assert_eq!(
        ctx.mints,
        vec![Mint {
            minter: Address::Airdrop,
            token: account("nam"),
            target: account("alice"),
            amount: units(5),
        }]
    );
}

#[test]
fn claims_add_up_in_order() {
    let mut ctx = Ctx::new(Storage::new());
    ctx.claim_airdrop(&account("alice"), &account("nam"), units(1), claim_data(1));
    ctx.claim_airdrop(&account("bob"), &account("nam"), units(2), claim_data(2));
    ctx.claim_airdrop(&account("alice"), &account("nam"), units(3), claim_data(3));
    assert_eq!(ctx.verifiers, vec![Address::Airdrop, account("alice"), account("bob")]);
    assert_eq!(
        ctx.keys_changed,
        vec![
            airdrop_nullifier_key(&[1; 32]),
            airdrop_nullifier_key(&[2; 32]),
            airdrop_nullifier_key(&[3; 32])
        ]
    );
    assert_eq!(ctx.actions.len(), 3);
    assert_eq!(ctx.mints.len(), 3);
    assert_eq!(ctx.mints[1].target, account("bob"));
    assert_eq!(ctx.mints[2].amount, units(3));
}

#[test]
fn the_same_nullifier_twice_changes_one_key() {
    let mut ctx = Ctx::new(Storage::new());
    ctx.claim_airdrop(&account("alice"), &account("nam"), units(1), claim_data(1));
    ctx.claim_airdrop(&account("bob"), &account("nam"), units(1), claim_data(1));
    assert_eq!(ctx.keys_changed, vec![airdrop_nullifier_key(&[1; 32])]);
    assert_eq!(ctx.actions.len(), 2);
}

#[test]
fn a_claim_for_the_airdrop_account_asks_it_once() {
    let mut ctx = Ctx::new(Storage::new());
    ctx.claim_airdrop(&Address::Airdrop, &account("nam"), units(1), claim_data(1));
    assert_eq!(ctx.verifiers, vec![Address::Airdrop]);
}

#[test]
fn a_claim_keeps_what_was_in_storage() {
    let mut storage = Storage::new();
    let key = Key { segments: vec![DbKeySeg::StringSeg("kept".to_string())] };
    storage.write_bytes(key.clone(), vec![1, 2]);
    let mut ctx = Ctx::new(storage);
    ctx.claim_airdrop(&account("alice"), &account("nam"), units(1), claim_data(1));
    assert_eq!(ctx.storage.read_bytes(&key), Some(vec![1, 2]));
}

#[test]
fn insert_verifier_adds_each_account_once() {
    let mut ctx = Ctx::new(Storage::new());
    ctx.insert_verifier(&account("alice"));
    ctx.insert_verifier(&account("bob"));
    ctx.insert_verifier(&account("alice"));
    assert_eq!(ctx.verifiers, vec![account("alice"), account("bob")]);
}

#[test]
fn push_action_appends() {
    let mut ctx = Ctx::new(Storage::new());
    ctx.push_action(Action::Other);
    ctx.push_action(Action::Claim { target: account("alice"), claim_data: claim_data(1) });
    assert_eq!(
        ctx.actions,
        vec![Action::Other, Action::Claim { target: account("alice"), claim_data: claim_data(1) }]
    );
}

#[test]
fn copies_are_equal_to_what_they_copy() {
    let claim = ClaimAirdrop {
        target: account("alice"),
        token: account("nam"),
        amount: units(5),
        claim_data: claim_data(0xa1),
    };
    assert_eq!(claim.clone(), claim);

    let action = Action::Claim { target: account("alice"), claim_data: claim_data(1) };
    assert_eq!(action.clone(), action);
    assert_eq!(Action::Other.clone(), Action::Other);

    let mint = Mint {
        minter: Address::Airdrop,
        token: account("nam"),
        target: account("alice"),
        amount: units(7),
    };
    assert_eq!(mint.clone(), mint);

    let config = SaplingConfiguration {
        verifying_key: vec![1, 2, 3],
        note_commitment_root: [4; 32],
        nullifier_gap_root: [5; 32],
        value_commitment_scheme: ValueCommitmentScheme::Sha256,
    };
    assert_eq!(config.clone(), config);

    let statement = ProofStatement {
        verifying_key: vec![1, 2, 3],
        zkproof: [6; 192],
        scheme: ValueCommitmentScheme::Native,
        rk: [7; 32],
        commitment: [8; 32],
        note_commitment_root: [4; 32],
        airdrop_nullifier: [9; 32],
        nullifier_gap_root: [5; 32],
    };
    assert_eq!(statement.clone(), statement);

    let errors = vec![
        VpError::Unauthorized(account("alice")),
        VpError::NoAction,
        VpError::NullifierAlreadyUsed("ab".to_string()),
        VpError::NullifierNotCommitted,
        VpError::UnexpectedNullifierKey(airdrop_nullifier_key(&[1; 32])),
        VpError::ZkProofVerificationFailed("no".to_string()),
        VpError::MissingVerifyingKey,
        VpError::MissingNoteCommitmentRoot,
        VpError::MissingNullifierGapRoot,
        VpError::MissingValueCommitmentScheme,
        VpError::InvalidHex("zz".to_string()),
        VpError::InvalidValueCommitmentScheme("7".to_string()),
    ];
    for (i, error) in errors.iter().enumerate() {
        assert_eq!(&error.clone(), error);
        for (j, other) in errors.iter().enumerate() {
            assert_eq!(error == other, i == j);
        }
    }
}
