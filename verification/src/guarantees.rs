//! What the validity predicate guarantees, proved of the verdict of
//! [`crate::verdict`] for every transaction and every proof verifier.

use vstd::prelude::*;
use crate::address::AddressView;
use crate::claim::{ActionView, AirdropClaimData, AirdropClaimDataView, Amount};
use crate::encoding::hex_encoding;
use crate::error::VpErrorView;
use crate::storage::{spec_init_storage, StorageView};
use crate::storage_key::{
    lemma_nullifier_key_injective, lemma_nullifier_key_shape,
    lemma_sapling_key_is_no_nullifier_key, lemma_sapling_keys_distinct,
    spec_airdrop_nullifier_key, spec_is_airdrop_nullifier_key, spec_sapling_key, KeyView,
    NOTE_COMMITMENT_ROOT_KEY, NULLIFIER_GAP_ROOT_KEY, VALUE_COMMITMENT_SCHEME_KEY,
    VERIFYING_KEY_KEY,
};
use crate::tx::{spec_claim_airdrop, spec_with, CtxView};
use crate::verdict::{spec_decision, spec_validate_from, spec_validate_tx, Verifier};
use crate::vp::{
    spec_accounted, spec_advance, spec_finish, spec_first_orphan, spec_guard, spec_keys_read,
    spec_keys_read_before, spec_orphan, TxView,
};
use crate::zkproof::{
    spec_proof_statement, spec_proof_verdict, spec_read_configuration, spec_scheme_tag,
    spec_selected_commitment, verifying_key_error, ProofStatementView, SaplingConfigurationView,
    ValueCommitmentScheme,
};

verus! {

/// The nullifiers of the claims among the first `n` entries of an action
/// log, in log order.
pub open spec fn spec_claimed_before(actions: Seq<ActionView>, n: nat) -> Seq<Seq<u8>>
    decreases n,
{
    if n == 0 || n > actions.len() {
        Seq::empty()
    } else {
        match actions[n - 1] {
            ActionView::Claim { claim_data, .. } => spec_claimed_before(
                actions,
                (n - 1) as nat,
            ).push(claim_data.airdrop_nullifier),
            ActionView::Other => spec_claimed_before(actions, (n - 1) as nat),
        }
    }
}

/// The nullifiers of all the claims of a transaction, in log order.
pub open spec fn spec_claimed(tx: TxView) -> Seq<Seq<u8>> {
    spec_claimed_before(tx.actions, tx.actions.len())
}

/// What entry `i` of the action log comes to on its own, with every claim
/// before it accepted: `Ok` for an entry that is no claim and for a claim
/// that passes every check and whose proof holds, else the claim's error.
pub open spec fn spec_claim_verdict(tx: TxView, verifier: Verifier, i: nat) -> Result<
    (),
    VpErrorView,
> {
    match tx.actions[i as int] {
        ActionView::Other => Ok(()),
        ActionView::Claim { target, claim_data } => match spec_guard(
            tx.pre,
            tx.post,
            tx.verifiers,
            target,
            claim_data,
            spec_claimed_before(tx.actions, i),
        ) {
            Err(e) => Err(e),
            Ok(statement) => spec_proof_verdict(verifier(statement)),
        },
    }
}

/// The first entry at or after `from` that fails, if one does.
pub open spec fn spec_first_failure(tx: TxView, verifier: Verifier, from: nat) -> Option<nat>
    decreases tx.actions.len() - from,
{
    if from >= tx.actions.len() {
        None
    } else if spec_claim_verdict(tx, verifier, from) is Err {
        Some(from)
    } else {
        spec_first_failure(tx, verifier, from + 1)
    }
}

/// A transaction is accepted exactly if every claim passes, there is a claim,
/// and every nullifier key that changed belongs to a claim.
pub open spec fn spec_accepted(tx: TxView, verifier: Verifier) -> bool {
    &&& forall|i: nat|
        i < tx.actions.len() ==> #[trigger] spec_claim_verdict(tx, verifier, i) is Ok
    &&& spec_claimed(tx).len() > 0
    &&& forall|k: int|
        0 <= k < tx.keys_changed.len() ==> !spec_orphan(
            #[trigger] tx.keys_changed[k],
            spec_claimed(tx),
        )
}

/// The first failure is a failure, and nothing fails before it; where there
/// is none, nothing fails.
pub proof fn lemma_first_failure(tx: TxView, verifier: Verifier, from: nat)
    ensures
        match spec_first_failure(tx, verifier, from) {
            Some(fail) => {
                &&& from <= fail < tx.actions.len()
                &&& spec_claim_verdict(tx, verifier, fail) is Err
                &&& forall|i: nat|
                    from <= i < fail ==> #[trigger] spec_claim_verdict(tx, verifier, i) is Ok
            },
            None => forall|i: nat|
                from <= i < tx.actions.len() ==> #[trigger] spec_claim_verdict(tx, verifier, i)
                    is Ok,
        },
    decreases tx.actions.len() - from,
{
    if from < tx.actions.len() && spec_claim_verdict(tx, verifier, from) is Ok {
        lemma_first_failure(tx, verifier, from + 1);
    }
}

/// The verdict on the rest of the log is the error of the first claim that
/// fails; with none failing it is what the end of the log decides.
pub proof fn lemma_validate_from(tx: TxView, verifier: Verifier, from: nat)
    requires
        from <= tx.actions.len(),
    ensures
        spec_validate_from(tx, verifier, from, spec_claimed_before(tx.actions, from)) == (
        match spec_first_failure(tx, verifier, from) {
            Some(fail) => spec_claim_verdict(tx, verifier, fail),
            None => spec_decision(spec_finish(tx, spec_claimed(tx))),
        }),
    decreases tx.actions.len() - from,
{
    if from < tx.actions.len() {
        let claimed = spec_claimed_before(tx.actions, from);
        match tx.actions[from as int] {
            ActionView::Other => {
                lemma_validate_from(tx, verifier, from + 1);
            },
            ActionView::Claim { target, claim_data } => {
                match spec_guard(tx.pre, tx.post, tx.verifiers, target, claim_data, claimed) {
                    Err(_) => {},
                    Ok(statement) => {
                        if verifier(statement) is Ok {
                            lemma_validate_from(tx, verifier, from + 1);
                        }
                    },
                }
            },
        }
    }
}

/// The earliest error wins: where entry `fail` is turned down and every
/// entry before it passes, the transaction is rejected with the error of
/// that entry.
pub proof fn theorem_first_failure_decides(tx: TxView, verifier: Verifier, fail: nat)
    requires
        fail < tx.actions.len(),
        spec_claim_verdict(tx, verifier, fail) is Err,
        forall|i: nat| i < fail ==> #[trigger] spec_claim_verdict(tx, verifier, i) is Ok,
    ensures
        spec_validate_tx(tx, verifier) == spec_claim_verdict(tx, verifier, fail),
{
    lemma_first_failure(tx, verifier, 0);
    lemma_validate_from(tx, verifier, 0);
}

/// A transaction with a claim that fails is rejected, whatever else it
/// holds.
pub proof fn theorem_failing_claim_rejects(tx: TxView, verifier: Verifier, i: nat)
    requires
        i < tx.actions.len(),
        spec_claim_verdict(tx, verifier, i) is Err,
    ensures
        spec_validate_tx(tx, verifier) is Err,
{
    lemma_first_failure(tx, verifier, 0);
    lemma_validate_from(tx, verifier, 0);
}

/// No orphan from `from` on means no first orphan, and the first orphan is
/// an orphan with none before it.
pub proof fn lemma_first_orphan(keys: Seq<KeyView>, claimed: Seq<Seq<u8>>, from: nat)
    ensures
        match spec_first_orphan(keys, claimed, from) {
            Some(key) => exists|k: int|
                {
                    &&& from <= k < keys.len()
                    &&& #[trigger] keys[k] == key
                    &&& spec_orphan(key, claimed)
                    &&& forall|j: int| from <= j < k ==> !spec_orphan(#[trigger] keys[j], claimed)
                },
            None => forall|k: int|
                from <= k < keys.len() ==> !spec_orphan(#[trigger] keys[k], claimed),
        },
    decreases keys.len() - from,
{
    if from < keys.len() && !spec_orphan(keys[from as int], claimed) {
        lemma_first_orphan(keys, claimed, from + 1);
    }
}

/// The verdict is `Ok` exactly on the transactions that are accepted: every
/// claim passes, there is at least one, and every nullifier key that changed
/// belongs to one of them.
pub proof fn theorem_accepted_exactly(tx: TxView, verifier: Verifier)
    ensures
        spec_validate_tx(tx, verifier) is Ok <==> spec_accepted(tx, verifier),
{
    lemma_first_failure(tx, verifier, 0);
    lemma_validate_from(tx, verifier, 0);
    lemma_first_orphan(tx.keys_changed, spec_claimed(tx), 0);
}

/// Whether `action` is a claim that reveals `nullifier`.
pub open spec fn spec_is_claim_for(action: ActionView, nullifier: Seq<u8>) -> bool {
    action matches ActionView::Claim { claim_data, .. } && claim_data.airdrop_nullifier
        == nullifier
}

/// Whether one of the first `n` entries of an action log is a claim that
/// reveals `nullifier`.
pub open spec fn spec_claims(actions: Seq<ActionView>, n: nat, nullifier: Seq<u8>) -> bool {
    exists|i: int| 0 <= i < n && spec_is_claim_for(#[trigger] actions[i], nullifier)
}

/// The nullifiers claimed before entry `n` are those that the claims among
/// the first `n` entries reveal, and no others.
pub proof fn lemma_claimed_before(actions: Seq<ActionView>, n: nat, nullifier: Seq<u8>)
    requires
        n <= actions.len(),
    ensures
        spec_claimed_before(actions, n).contains(nullifier) <==> spec_claims(
            actions,
            n,
            nullifier,
        ),
    decreases n,
{
    if n > 0 {
        let before = spec_claimed_before(actions, (n - 1) as nat);
        let now = spec_claimed_before(actions, n);
        lemma_claimed_before(actions, (n - 1) as nat, nullifier);
        if spec_is_claim_for(actions[n - 1], nullifier) {
            assert(now[now.len() - 1] == nullifier);
        } else if before.contains(nullifier) {
            let j = choose|j: int| 0 <= j < before.len() && before[j] == nullifier;
            assert(now[j] == nullifier);
        }
    }
}

/// What acceptance says of each claim: in an accepted transaction the target
/// of every claim consented, its nullifier was not on record before the
/// transaction and is on record after it with an empty value, and its proof
/// holds of the statement gathered for it.
pub proof fn theorem_accepted_claim(tx: TxView, verifier: Verifier, i: nat)
    requires
        spec_validate_tx(tx, verifier) is Ok,
        i < tx.actions.len(),
        tx.actions[i as int] is Claim,
    ensures
        ({
            let target = tx.actions[i as int]->Claim_target;
            let claim = tx.actions[i as int]->Claim_claim_data;
            let key = spec_airdrop_nullifier_key(claim.airdrop_nullifier);
            &&& tx.verifiers.contains(target)
            &&& !tx.pre.dom().contains(key)
            &&& !spec_claimed_before(tx.actions, i).contains(claim.airdrop_nullifier)
            &&& tx.post.dom().contains(key)
            &&& tx.post[key].len() == 0
            &&& spec_proof_statement(tx.post, claim) matches Ok(statement)
            &&& verifier(statement) is Ok
        }),
{
    theorem_accepted_exactly(tx, verifier);
    assert(spec_claim_verdict(tx, verifier, i) is Ok);
}

/// No double-spend: once a transaction with a claim for a nullifier has been
/// accepted and applied, every later transaction with a claim for the same
/// nullifier is rejected, however much later it comes. Where the later
/// claim's target consented and every entry before it passes, the reason is
/// that the nullifier was already used.
///
/// "Applied" means that no record that the first transaction left behind is
/// missing from the state in which the second one starts.
pub proof fn theorem_no_double_spend(
    first: TxView,
    first_verifier: Verifier,
    i: nat,
    later: TxView,
    later_verifier: Verifier,
    j: nat,
    nullifier: Seq<u8>,
)
    requires
        spec_validate_tx(first, first_verifier) is Ok,
        i < first.actions.len(),
        spec_is_claim_for(first.actions[i as int], nullifier),
        forall|key: KeyView| first.post.dom().contains(key) ==> later.pre.dom().contains(key),
        j < later.actions.len(),
        spec_is_claim_for(later.actions[j as int], nullifier),
    ensures
        spec_validate_tx(later, later_verifier) is Err,
        later.verifiers.contains(later.actions[j as int]->Claim_target) && (forall|k: nat|
            k < j ==> #[trigger] spec_claim_verdict(later, later_verifier, k) is Ok)
            ==> spec_validate_tx(later, later_verifier) == Err::<(), VpErrorView>(
            VpErrorView::NullifierAlreadyUsed(hex_encoding(nullifier)),
        ),
{
    theorem_accepted_claim(first, first_verifier, i);
    theorem_failing_claim_rejects(later, later_verifier, j);
    if later.verifiers.contains(later.actions[j as int]->Claim_target) && (forall|k: nat|
        k < j ==> #[trigger] spec_claim_verdict(later, later_verifier, k) is Ok) {
        theorem_first_failure_decides(later, later_verifier, j);
    }
}

/// No double-spend within a transaction: a transaction with two claims for
/// the same nullifier is rejected, though the nullifier was not revealed
/// before it. Where the second claim's target consented and every entry
/// before it passes, the reason is that the nullifier was already used.
pub proof fn theorem_no_double_spend_within(
    tx: TxView,
    verifier: Verifier,
    i: nat,
    j: nat,
    nullifier: Seq<u8>,
)
    requires
        i < j < tx.actions.len(),
        spec_is_claim_for(tx.actions[i as int], nullifier),
        spec_is_claim_for(tx.actions[j as int], nullifier),
    ensures
        spec_validate_tx(tx, verifier) is Err,
        tx.verifiers.contains(tx.actions[j as int]->Claim_target) && (forall|k: nat|
            k < j ==> #[trigger] spec_claim_verdict(tx, verifier, k) is Ok) ==> spec_validate_tx(
            tx,
            verifier,
        ) == Err::<(), VpErrorView>(VpErrorView::NullifierAlreadyUsed(hex_encoding(nullifier))),
{
    lemma_claimed_before(tx.actions, j, nullifier);
    theorem_failing_claim_rejects(tx, verifier, j);
    if tx.verifiers.contains(tx.actions[j as int]->Claim_target) && (forall|k: nat|
        k < j ==> #[trigger] spec_claim_verdict(tx, verifier, k) is Ok) {
        theorem_first_failure_decides(tx, verifier, j);
    }
}

/// A nullifier key that is the key of no claim of the transaction is an
/// orphan.
pub proof fn lemma_unclaimed_key_is_orphan(tx: TxView, key: KeyView)
    requires
        spec_is_airdrop_nullifier_key(key),
        forall|i: int|
            0 <= i < tx.actions.len() ==> (#[trigger] tx.actions[i] matches ActionView::Claim {
                claim_data,
                ..
            } ==> spec_airdrop_nullifier_key(claim_data.airdrop_nullifier) != key),
    ensures
        spec_orphan(key, spec_claimed(tx)),
{
    let claimed = spec_claimed(tx);
    if spec_accounted(key, claimed) {
        let j = choose|j: int|
            0 <= j < claimed.len() && spec_airdrop_nullifier_key(#[trigger] claimed[j]) == key;
        assert(claimed.contains(claimed[j]));
        lemma_claimed_before(tx.actions, tx.actions.len(), claimed[j]);
    }
}

/// No silent nullifier writes: a transaction that changed a nullifier key
/// which is the key of none of its claims is rejected. Where every entry of
/// the action log passes and there is a claim, the reason is an unexpected
/// nullifier key, and the key reported is the first such key among those
/// that changed.
pub proof fn theorem_no_silent_nullifier_write(tx: TxView, verifier: Verifier, k: nat)
    requires
        k < tx.keys_changed.len(),
        spec_is_airdrop_nullifier_key(tx.keys_changed[k as int]),
        forall|i: int|
            0 <= i < tx.actions.len() ==> (#[trigger] tx.actions[i] matches ActionView::Claim {
                claim_data,
                ..
            } ==> spec_airdrop_nullifier_key(claim_data.airdrop_nullifier)
                != tx.keys_changed[k as int]),
    ensures
        spec_validate_tx(tx, verifier) is Err,
        spec_claimed(tx).len() > 0 && (forall|i: nat|
            i < tx.actions.len() ==> #[trigger] spec_claim_verdict(tx, verifier, i) is Ok) ==> {
            &&& spec_first_orphan(tx.keys_changed, spec_claimed(tx), 0) matches Some(orphan)
            &&& spec_validate_tx(tx, verifier) == Err::<(), VpErrorView>(
                VpErrorView::UnexpectedNullifierKey(orphan),
            )
            &&& (forall|j: int|
                0 <= j < k ==> !spec_orphan(#[trigger] tx.keys_changed[j], spec_claimed(tx)))
                ==> orphan == tx.keys_changed[k as int]
        },
{
    lemma_unclaimed_key_is_orphan(tx, tx.keys_changed[k as int]);
    theorem_accepted_exactly(tx, verifier);
    lemma_first_orphan(tx.keys_changed, spec_claimed(tx), 0);
    lemma_first_failure(tx, verifier, 0);
    lemma_validate_from(tx, verifier, 0);
}

/// A log without a claim has no claimed nullifier.
pub proof fn lemma_no_claim_nothing_claimed(actions: Seq<ActionView>, n: nat)
    requires
        n <= actions.len(),
        forall|i: int| 0 <= i < actions.len() ==> #[trigger] actions[i] is Other,
    ensures
        spec_claimed_before(actions, n).len() == 0,
    decreases n,
{
    if n > 0 {
        lemma_no_claim_nothing_claimed(actions, (n - 1) as nat);
    }
}

/// Empty-action rejection: a transaction without a claim is rejected because
/// it holds no action, whatever it changed in storage.
pub proof fn theorem_no_claim_no_action(tx: TxView, verifier: Verifier)
    requires
        forall|i: int| 0 <= i < tx.actions.len() ==> #[trigger] tx.actions[i] is Other,
    ensures
        spec_validate_tx(tx, verifier) == Err::<(), VpErrorView>(VpErrorView::NoAction),
{
    lemma_no_claim_nothing_claimed(tx.actions, tx.actions.len());
    lemma_first_failure(tx, verifier, 0);
    lemma_validate_from(tx, verifier, 0);
}

/// Scheme selection: the configured scheme alone selects the commitment. A
/// claim that lacks the commitment of the scheme on record gets no
/// statement, whatever it supplies in the other field: with SHA-256 on
/// record a claim that supplies only `cv` is turned down, and with the
/// native scheme one that supplies only `cv_sha256`.
pub proof fn theorem_scheme_selects_commitment(
    post: StorageView,
    scheme: ValueCommitmentScheme,
    claim: AirdropClaimDataView,
)
    requires
        post.dom().contains(spec_sapling_key(VALUE_COMMITMENT_SCHEME_KEY@)),
        post[spec_sapling_key(VALUE_COMMITMENT_SCHEME_KEY@)] == seq![spec_scheme_tag(scheme)],
        spec_selected_commitment(scheme, claim) is None,
    ensures
        spec_proof_statement(post, claim) is Err,
        spec_read_configuration(post) is Ok ==> spec_proof_statement(post, claim)
            is Err && spec_proof_statement(post, claim)->Err_0 is ZkProofVerificationFailed,
{
}

/// A transaction with a claim that lacks the commitment of the scheme on
/// record is rejected.
pub proof fn theorem_wrong_commitment_rejects(
    tx: TxView,
    verifier: Verifier,
    i: nat,
    scheme: ValueCommitmentScheme,
)
    requires
        i < tx.actions.len(),
        tx.actions[i as int] is Claim,
        tx.post.dom().contains(spec_sapling_key(VALUE_COMMITMENT_SCHEME_KEY@)),
        tx.post[spec_sapling_key(VALUE_COMMITMENT_SCHEME_KEY@)] == seq![spec_scheme_tag(scheme)],
        spec_selected_commitment(scheme, tx.actions[i as int]->Claim_claim_data) is None,
    ensures
        spec_validate_tx(tx, verifier) is Err,
{
    theorem_scheme_selects_commitment(tx.post, scheme, tx.actions[i as int]->Claim_claim_data);
    theorem_failing_claim_rejects(tx, verifier, i);
}

/// The statement binds the claim: the proof, `rk`, the selected commitment
/// and the nullifier go into the statement as they are, so two claims that
/// differ in one of them never come before the verifier as the same
/// statement.
pub proof fn theorem_statement_binds_claim(
    post: StorageView,
    a: AirdropClaimDataView,
    b: AirdropClaimDataView,
)
    requires
        spec_proof_statement(post, a) is Ok,
        spec_proof_statement(post, a) == spec_proof_statement(post, b),
    ensures
        a.zkproof == b.zkproof,
        a.rk == b.rk,
        a.airdrop_nullifier == b.airdrop_nullifier,
        spec_read_configuration(post) matches Ok(config) && spec_selected_commitment(
            config.value_commitment_scheme,
            a,
        ) == spec_selected_commitment(config.value_commitment_scheme, b),
{
}

/// Recording a nullifier leaves the sapling parameters as they were.
pub proof fn lemma_reveal_keeps_configuration(storage: StorageView, nullifier: Seq<u8>)
    ensures
        spec_read_configuration(
            storage.insert(spec_airdrop_nullifier_key(nullifier), Seq::empty()),
        ) == spec_read_configuration(storage),
{
    lemma_nullifier_key_shape(nullifier);
    lemma_sapling_key_is_no_nullifier_key(VERIFYING_KEY_KEY@);
    lemma_sapling_key_is_no_nullifier_key(NOTE_COMMITMENT_ROOT_KEY@);
    lemma_sapling_key_is_no_nullifier_key(NULLIFIER_GAP_ROOT_KEY@);
    lemma_sapling_key_is_no_nullifier_key(VALUE_COMMITMENT_SCHEME_KEY@);
}

/// What was recorded at genesis is what every validation reads: after
/// [`crate::storage::init_storage`] the parameters read back as they were
/// given, provided the verifying key is one; a verifying key that is none is
/// reported when it is read.
pub proof fn theorem_init_then_read(storage: StorageView, config: SaplingConfigurationView)
    requires
        config.note_commitment_root.len() == 32,
        config.nullifier_gap_root.len() == 32,
    ensures
        verifying_key_error(config.verifying_key) is None ==> spec_read_configuration(
            spec_init_storage(storage, config),
        ) == Ok::<SaplingConfigurationView, VpErrorView>(config),
        verifying_key_error(config.verifying_key) matches Some(text) ==> spec_read_configuration(
            spec_init_storage(storage, config),
        ) == Err::<SaplingConfigurationView, VpErrorView>(
            VpErrorView::ZkProofVerificationFailed("VK deserialization: "@ + text),
        ),
{
    lemma_sapling_keys_distinct();
}

/// A claim made by the claim operation alone is accepted: a transaction that
/// starts in a state where the nullifier is not on record, does nothing but
/// [`crate::tx::Ctx::claim_airdrop`], and whose proof holds of the statement
/// gathered for it, is accepted.
pub proof fn theorem_claim_is_accepted(
    pre: StorageView,
    target: AddressView,
    token: AddressView,
    amount: Amount,
    claim_data: AirdropClaimData,
    verifier: Verifier,
)
    requires
        !pre.dom().contains(spec_airdrop_nullifier_key(claim_data.airdrop_nullifier@)),
        spec_proof_statement(pre, claim_data@) matches Ok(statement) && verifier(statement) is Ok,
    ensures
        ({
            let start = CtxView {
                storage: pre,
                keys_changed: Seq::empty(),
                actions: Seq::empty(),
                verifiers: Seq::empty(),
                mints: Seq::empty(),
            };
            let done = spec_claim_airdrop(start, target, token, amount, claim_data);
            let tx = TxView {
                pre,
                post: done.storage,
                actions: done.actions,
                keys_changed: done.keys_changed,
                verifiers: done.verifiers,
            };
            spec_validate_tx(tx, verifier) is Ok
        }),
{
    let start = CtxView {
        storage: pre,
        keys_changed: Seq::empty(),
        actions: Seq::empty(),
        verifiers: Seq::empty(),
        mints: Seq::empty(),
    };
    let done = spec_claim_airdrop(start, target, token, amount, claim_data);
    let tx = TxView {
        pre,
        post: done.storage,
        actions: done.actions,
        keys_changed: done.keys_changed,
        verifiers: done.verifiers,
    };
    let nullifier = claim_data.airdrop_nullifier@;
    lemma_reveal_keeps_configuration(pre, nullifier);
    let consent = spec_with(Seq::<AddressView>::empty(), AddressView::Airdrop);
    assert(tx.verifiers.contains(target)) by {
        if !consent.contains(target) {
            assert(tx.verifiers[tx.verifiers.len() - 1] == target);
        }
    }
    let claimed = Seq::<Seq<u8>>::empty().push(nullifier);
    assert(spec_validate_tx(tx, verifier) == spec_validate_from(tx, verifier, 1, claimed));
    assert(claimed[0] == nullifier);
    assert(spec_first_orphan(tx.keys_changed, claimed, 1) is None);
}

/// While every entry passes, no nullifier is claimed twice.
pub proof fn lemma_passing_claims_distinct(tx: TxView, verifier: Verifier, n: nat)
    requires
        n <= tx.actions.len(),
        forall|i: nat| i < n ==> #[trigger] spec_claim_verdict(tx, verifier, i) is Ok,
    ensures
        spec_claimed_before(tx.actions, n).no_duplicates(),
    decreases n,
{
    if n > 0 {
        lemma_passing_claims_distinct(tx, verifier, (n - 1) as nat);
        let before = spec_claimed_before(tx.actions, (n - 1) as nat);
        assert(spec_claim_verdict(tx, verifier, (n - 1) as nat) is Ok);
        if tx.actions[n - 1] is Claim {
            let nullifier = tx.actions[n - 1]->Claim_claim_data.airdrop_nullifier;
            let now = before.push(nullifier);
            assert forall|i: int, j: int|
                0 <= i < now.len() && 0 <= j < now.len() && i != j implies now[i] != now[j] by {
                assert(i < before.len() ==> now[i] == before[i]);
                assert(j < before.len() ==> now[j] == before[j]);
            }
        }
    }
}

/// In an accepted transaction every nullifier key belongs to exactly one
/// claim: no two claims share a nullifier, and so no two of them account for
/// the same key.
pub proof fn theorem_accepted_claims_distinct(tx: TxView, verifier: Verifier, a: int, b: int)
    requires
        spec_validate_tx(tx, verifier) is Ok,
        0 <= a < spec_claimed(tx).len(),
        0 <= b < spec_claimed(tx).len(),
        spec_airdrop_nullifier_key(spec_claimed(tx)[a]) == spec_airdrop_nullifier_key(
            spec_claimed(tx)[b],
        ),
    ensures
        a == b,
{
    theorem_accepted_exactly(tx, verifier);
    lemma_passing_claims_distinct(tx, verifier, tx.actions.len());
    lemma_nullifier_key_injective(spec_claimed(tx)[a], spec_claimed(tx)[b]);
}

/// Whether two states hold the same under `key`: a record in both or in
/// neither, and the same value where there is one.
pub open spec fn spec_same_record(a: StorageView, b: StorageView, key: KeyView) -> bool {
    &&& a.dom().contains(key) == b.dom().contains(key)
    &&& a.dom().contains(key) ==> a[key] == b[key]
}

/// Whether two transactions are the same in all that a validation looks at:
/// the same action log, changed keys and consenting accounts, and under
/// every key that is read a record before the transaction in both or in
/// neither, and the same record after it.
pub open spec fn spec_same_reads(a: TxView, b: TxView) -> bool {
    &&& a.actions == b.actions
    &&& a.keys_changed == b.keys_changed
    &&& a.verifiers == b.verifiers
    &&& forall|key: KeyView| #[trigger]
        spec_keys_read(a.actions).contains(key) ==> {
            &&& a.pre.dom().contains(key) == b.pre.dom().contains(key)
            &&& spec_same_record(a.post, b.post, key)
        }
}

/// The keys read hold the four sapling parameters and the nullifier key of
/// every claim.
pub proof fn lemma_keys_read(actions: Seq<ActionView>, n: nat)
    requires
        n <= actions.len(),
    ensures
        spec_keys_read_before(actions, n).contains(spec_sapling_key(VERIFYING_KEY_KEY@)),
        spec_keys_read_before(actions, n).contains(spec_sapling_key(NOTE_COMMITMENT_ROOT_KEY@)),
        spec_keys_read_before(actions, n).contains(spec_sapling_key(NULLIFIER_GAP_ROOT_KEY@)),
        spec_keys_read_before(actions, n).contains(
            spec_sapling_key(VALUE_COMMITMENT_SCHEME_KEY@),
        ),
        forall|i: int|
            0 <= i < n ==> (#[trigger] actions[i] matches ActionView::Claim { claim_data, .. }
                ==> spec_keys_read_before(actions, n).contains(
                spec_airdrop_nullifier_key(claim_data.airdrop_nullifier),
            )),
    decreases n,
{
    let now = spec_keys_read_before(actions, n);
    if n > 0 {
        let before = spec_keys_read_before(actions, (n - 1) as nat);
        lemma_keys_read(actions, (n - 1) as nat);
        assert forall|key: KeyView| before.contains(key) implies now.contains(key) by {
            let j = choose|j: int| 0 <= j < before.len() && before[j] == key;
            assert(now[j] == key);
        }
        if actions[n - 1] is Claim {
            assert(now[now.len() - 1] == spec_airdrop_nullifier_key(
                actions[n - 1]->Claim_claim_data.airdrop_nullifier,
            ));
        }
    }
}

/// Transactions that are the same in all that is read have each claim face
/// the same checks.
pub proof fn lemma_same_reads_same_guard(a: TxView, b: TxView, i: nat, claimed: Seq<Seq<u8>>)
    requires
        spec_same_reads(a, b),
        i < a.actions.len(),
        a.actions[i as int] is Claim,
    ensures
        spec_guard(
            a.pre,
            a.post,
            a.verifiers,
            a.actions[i as int]->Claim_target,
            a.actions[i as int]->Claim_claim_data,
            claimed,
        ) == spec_guard(
            b.pre,
            b.post,
            b.verifiers,
            a.actions[i as int]->Claim_target,
            a.actions[i as int]->Claim_claim_data,
            claimed,
        ),
{
    lemma_keys_read(a.actions, a.actions.len());
    let read = spec_keys_read(a.actions);
    let claim = a.actions[i as int]->Claim_claim_data;
    assert(read.contains(spec_sapling_key(VERIFYING_KEY_KEY@)));
    assert(read.contains(spec_sapling_key(NOTE_COMMITMENT_ROOT_KEY@)));
    assert(read.contains(spec_sapling_key(NULLIFIER_GAP_ROOT_KEY@)));
    assert(read.contains(spec_sapling_key(VALUE_COMMITMENT_SCHEME_KEY@)));
    assert(read.contains(spec_airdrop_nullifier_key(claim.airdrop_nullifier)));
}

/// Transactions that are the same in all that is read are dealt with alike
/// from every place in the action log.
pub proof fn lemma_same_reads_same_step(a: TxView, b: TxView, from: nat, claimed: Seq<Seq<u8>>)
    requires
        spec_same_reads(a, b),
    ensures
        spec_advance(a, from, claimed) == spec_advance(b, from, claimed),
    decreases a.actions.len() - from,
{
    if from < a.actions.len() {
        if a.actions[from as int] is Other {
            lemma_same_reads_same_step(a, b, from + 1, claimed);
        } else {
            lemma_same_reads_same_guard(a, b, from, claimed);
        }
    }
}

/// Transactions that are the same in all that is read get the same verdict
/// on the rest of the action log from every place in it.
pub proof fn lemma_same_reads_same_verdict(
    a: TxView,
    b: TxView,
    verifier: Verifier,
    from: nat,
    claimed: Seq<Seq<u8>>,
)
    requires
        spec_same_reads(a, b),
    ensures
        spec_validate_from(a, verifier, from, claimed) == spec_validate_from(
            b,
            verifier,
            from,
            claimed,
        ),
    decreases a.actions.len() - from,
{
    if from < a.actions.len() {
        match a.actions[from as int] {
            ActionView::Other => {
                lemma_same_reads_same_verdict(a, b, verifier, from + 1, claimed);
            },
            ActionView::Claim { target, claim_data } => {
                lemma_same_reads_same_guard(a, b, from, claimed);
                lemma_same_reads_same_verdict(
                    a,
                    b,
                    verifier,
                    from + 1,
                    claimed.push(claim_data.airdrop_nullifier),
                );
            },
        }
    }
}

/// The predicate looks at nothing but the records under the keys of
/// [`crate::vp::keys_read`]: two transactions that are the same in those, in
/// their action log, changed keys and consenting accounts get the same
/// verdict, and the predicate asks for the same proofs on the way.
pub proof fn theorem_reads_decide(a: TxView, b: TxView, verifier: Verifier)
    requires
        spec_same_reads(a, b),
    ensures
        spec_validate_tx(a, verifier) == spec_validate_tx(b, verifier),
        spec_advance(a, 0, Seq::empty()) == spec_advance(b, 0, Seq::empty()),
{
    lemma_same_reads_same_verdict(a, b, verifier, 0, Seq::empty());
    lemma_same_reads_same_step(a, b, 0, Seq::empty());
}

} // verus!
