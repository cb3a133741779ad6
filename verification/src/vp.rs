//! Airdrop VP
//!
//! The validity predicate runs over the action log of an executed
//! transaction. For every claim it checks, in this order, that the target
//! consented, that the nullifier was never revealed before, that the
//! transaction recorded it, and that the proof holds. The last check is made
//! by the caller: the predicate stops with the statement to check and goes on
//! when it is told the verdict. When the log is exhausted it demands at least
//! one claim and accounts for every nullifier key that changed.

use vstd::prelude::*;
use crate::address::{Address, AddressView};
use crate::claim::{actions_view, Action, ActionView, AirdropClaimData, AirdropClaimDataView};
use crate::encoding::{hex_encode, hex_encoding};
use crate::error::{VpError, VpErrorView};
use crate::storage::{is_nullifier_revealed, Storage, StorageView};
use crate::storage_key::{
    airdrop_nullifier_key, is_airdrop_nullifier_key, sapling_note_commitment_root_key,
    sapling_nullifier_gap_root_key, sapling_value_commitment_scheme_key, sapling_verifying_key,
    spec_airdrop_nullifier_key, spec_is_airdrop_nullifier_key, spec_sapling_key, Key, KeyView,
    NOTE_COMMITMENT_ROOT_KEY, NULLIFIER_GAP_ROOT_KEY, VALUE_COMMITMENT_SCHEME_KEY,
    VERIFYING_KEY_KEY,
};
use crate::zkproof::{proof_statement, spec_proof_statement, ProofStatement, ProofStatementView};

verus! {

/// Mathematical model of what the predicate is given: the state before and
/// after the transaction, its action log, the keys it changed and the
/// accounts that consented to it.
pub struct TxView {
    pub pre: StorageView,
    pub post: StorageView,
    pub actions: Seq<ActionView>,
    pub keys_changed: Seq<KeyView>,
    pub verifiers: Seq<AddressView>,
}

/// The models of a list of keys, in order.
pub open spec fn keys_view(keys: Seq<Key>) -> Seq<KeyView> {
    Seq::new(keys.len(), |i: int| keys[i]@)
}

/// The models of a list of addresses, in order.
pub open spec fn addresses_view(addresses: Seq<Address>) -> Seq<AddressView> {
    Seq::new(addresses.len(), |i: int| addresses[i]@)
}

/// The bytes of a list of nullifiers, in order.
pub open spec fn nullifiers_view(nullifiers: Seq<[u8; 32]>) -> Seq<Seq<u8>> {
    Seq::new(nullifiers.len(), |i: int| nullifiers[i]@)
}

/// The model of the arguments of one validation.
pub open spec fn tx_view(
    pre: &Storage,
    post: &Storage,
    actions: &Vec<Action>,
    keys_changed: &Vec<Key>,
    verifiers: &Vec<Address>,
) -> TxView {
    TxView {
        pre: pre@,
        post: post@,
        actions: actions_view(actions@),
        keys_changed: keys_view(keys_changed@),
        verifiers: addresses_view(verifiers@),
    }
}

/// The checks that a claim has to pass before its proof is looked at, and
/// the statement to check if it passes them. `claimed` holds the nullifiers
/// of the claims accepted earlier in the same transaction.
pub open spec fn spec_guard(
    pre: StorageView,
    post: StorageView,
    verifiers: Seq<AddressView>,
    target: AddressView,
    claim: AirdropClaimDataView,
    claimed: Seq<Seq<u8>>,
) -> Result<ProofStatementView, VpErrorView> {
    let nullifier = claim.airdrop_nullifier;
    let key = spec_airdrop_nullifier_key(nullifier);
    if !verifiers.contains(target) {
        Err(VpErrorView::Unauthorized(target))
    } else if pre.dom().contains(key) || claimed.contains(nullifier) {
        Err(VpErrorView::NullifierAlreadyUsed(hex_encoding(nullifier)))
    } else if !post.dom().contains(key) || post[key].len() != 0 {
        Err(VpErrorView::NullifierNotCommitted)
    } else {
        spec_proof_statement(post, claim)
    }
}

/// Whether `key` is the key of one of the nullifiers in `claimed`.
pub open spec fn spec_accounted(key: KeyView, claimed: Seq<Seq<u8>>) -> bool {
    exists|j: int|
        0 <= j < claimed.len() && spec_airdrop_nullifier_key(#[trigger] claimed[j]) == key
}

/// Whether `key` is a nullifier key that no nullifier in `claimed` accounts
/// for.
pub open spec fn spec_orphan(key: KeyView, claimed: Seq<Seq<u8>>) -> bool {
    spec_is_airdrop_nullifier_key(key) && !spec_accounted(key, claimed)
}

/// The first key at or after `from` that is an orphan, if there is one.
pub open spec fn spec_first_orphan(keys: Seq<KeyView>, claimed: Seq<Seq<u8>>, from: nat) -> Option<
    KeyView,
>
    decreases keys.len() - from,
{
    if from >= keys.len() {
        None
    } else if spec_orphan(keys[from as int], claimed) {
        Some(keys[from as int])
    } else {
        spec_first_orphan(keys, claimed, from + 1)
    }
}

/// Mathematical model of an [`AirdropVp`].
pub struct AirdropVpView {
    /// How many entries of the action log have been dealt with, the claim
    /// whose proof is pending among them.
    pub next: nat,
    /// The nullifiers of the claims accepted so far, in log order.
    pub claimed: Seq<Seq<u8>>,
    /// The nullifier of the claim whose proof is pending.
    pub pending: Seq<u8>,
}

/// Mathematical model of a [`VpStep`].
pub enum VpStepView {
    VerifyProof(AirdropVpView, ProofStatementView),
    Accept,
    Reject(VpErrorView),
}

/// The verdict once the action log is exhausted: a transaction without a
/// claim is turned down, and so is one that changed a nullifier key for
/// which no accepted claim accounts.
pub open spec fn spec_finish(tx: TxView, claimed: Seq<Seq<u8>>) -> VpStepView {
    if claimed.len() == 0 {
        VpStepView::Reject(VpErrorView::NoAction)
    } else {
        match spec_first_orphan(tx.keys_changed, claimed, 0) {
            Some(key) => VpStepView::Reject(VpErrorView::UnexpectedNullifierKey(key)),
            None => VpStepView::Accept,
        }
    }
}

/// Where the predicate gets to when it goes on from entry `from` of the
/// action log with the nullifiers `claimed` accepted: the first claim at or
/// after `from` either fails a check, which ends the validation, or awaits
/// its proof; with no claim left the validation finishes.
pub open spec fn spec_advance(tx: TxView, from: nat, claimed: Seq<Seq<u8>>) -> VpStepView
    decreases tx.actions.len() - from,
{
    if from >= tx.actions.len() {
        spec_finish(tx, claimed)
    } else {
        match tx.actions[from as int] {
            ActionView::Other => spec_advance(tx, from + 1, claimed),
            ActionView::Claim { target, claim_data } => match spec_guard(
                tx.pre,
                tx.post,
                tx.verifiers,
                target,
                claim_data,
                claimed,
            ) {
                Err(e) => VpStepView::Reject(e),
                Ok(statement) => VpStepView::VerifyProof(
                    AirdropVpView {
                        next: from + 1,
                        claimed,
                        pending: claim_data.airdrop_nullifier,
                    },
                    statement,
                ),
            },
        }
    }
}

/// Where the predicate gets to when it is told the verdict on the pending
/// proof: a proof that does not hold ends the validation; one that holds has
/// the claim accepted, and the predicate goes on with the next entry.
pub open spec fn spec_proof_checked(
    tx: TxView,
    state: AirdropVpView,
    verdict: Result<(), Seq<char>>,
) -> VpStepView {
    match verdict {
        Err(text) => VpStepView::Reject(VpErrorView::ZkProofVerificationFailed(text)),
        Ok(_) => spec_advance(tx, state.next, state.claimed.push(state.pending)),
    }
}

/// The keys that a validation of the first `n` entries of an action log
/// looks at: the four sapling parameters, then the nullifier key of every
/// claim, in log order.
pub open spec fn spec_keys_read_before(actions: Seq<ActionView>, n: nat) -> Seq<KeyView>
    decreases n,
{
    if n == 0 || n > actions.len() {
        seq![
            spec_sapling_key(VERIFYING_KEY_KEY@),
            spec_sapling_key(NOTE_COMMITMENT_ROOT_KEY@),
            spec_sapling_key(NULLIFIER_GAP_ROOT_KEY@),
            spec_sapling_key(VALUE_COMMITMENT_SCHEME_KEY@),
        ]
    } else {
        match actions[n - 1] {
            ActionView::Claim { claim_data, .. } => spec_keys_read_before(
                actions,
                (n - 1) as nat,
            ).push(spec_airdrop_nullifier_key(claim_data.airdrop_nullifier)),
            ActionView::Other => spec_keys_read_before(actions, (n - 1) as nat),
        }
    }
}

/// The keys that the validation of a transaction with this action log looks
/// at.
pub open spec fn spec_keys_read(actions: Seq<ActionView>) -> Seq<KeyView> {
    spec_keys_read_before(actions, actions.len())
}

/// Airdrop VP: a validation that waits for the verdict on a proof.
#[derive(Debug, PartialEq, Eq)]
pub struct AirdropVp {
    next: usize,
    claimed: Vec<[u8; 32]>,
    pending: [u8; 32],
}

impl View for AirdropVp {
    type V = AirdropVpView;

    closed spec fn view(&self) -> AirdropVpView {
        AirdropVpView {
            next: self.next as nat,
            claimed: nullifiers_view(self.claimed@),
            pending: self.pending@,
        }
    }
}

/// What the predicate asks for, or decides.
#[derive(Debug, PartialEq, Eq)]
pub enum VpStep {
    /// The statement has to be put before the proof verifier, and the verdict
    /// handed to [`AirdropVp::proof_checked`].
    VerifyProof(AirdropVp, ProofStatement),
    /// The transaction is accepted.
    Accept,
    /// The transaction is rejected.
    Reject(VpError),
}

impl View for VpStep {
    type V = VpStepView;

    open spec fn view(&self) -> VpStepView {
        match self {
            VpStep::VerifyProof(state, statement) => VpStepView::VerifyProof(state@, statement@),
            VpStep::Accept => VpStepView::Accept,
            VpStep::Reject(e) => VpStepView::Reject(e@),
        }
    }
}

/// The characters of a verdict's refusal, if it refuses.
pub open spec fn verdict_view(verdict: Result<(), String>) -> Result<(), Seq<char>> {
    match verdict {
        Ok(_) => Ok(()),
        Err(text) => Err(text@),
    }
}

/// Whether two nullifiers are the same.
fn same_nullifier(a: &[u8; 32], b: &[u8; 32]) -> (same: bool)
    ensures
        same == (a@ == b@),
{
    let mut i: usize = 0;
    while i < 32
        invariant
            i <= 32,
            forall|j: int| 0 <= j < i ==> a@[j] == b@[j],
        decreases 32 - i,
    {
        if a[i] != b[i] {
            return false;
        }
        i += 1;
    }
    assert(a@ =~= b@);
    true
}

/// Whether `target` is among `verifiers`.
fn is_verifier(verifiers: &Vec<Address>, target: &Address) -> (found: bool)
    ensures
        found == addresses_view(verifiers@).contains(target@),
{
    let mut i: usize = 0;
    while i < verifiers.len()
        invariant
            i <= verifiers@.len(),
            forall|j: int| 0 <= j < i ==> addresses_view(verifiers@)[j] != target@,
        decreases verifiers@.len() - i,
    {
        if verifiers[i].same(target) {
            assert(addresses_view(verifiers@)[i as int] == target@);
            return true;
        }
        i += 1;
    }
    false
}

/// Whether `nullifier` was revealed earlier in the transaction being
/// validated, that is, whether it is among `claimed`.
pub fn is_revealed_now(nullifier: &[u8; 32], claimed: &Vec<[u8; 32]>) -> (found: bool)
    ensures
        found == nullifiers_view(claimed@).contains(nullifier@),
{
    let mut i: usize = 0;
    while i < claimed.len()
        invariant
            i <= claimed@.len(),
            forall|j: int| 0 <= j < i ==> nullifiers_view(claimed@)[j] != nullifier@,
        decreases claimed@.len() - i,
    {
        if same_nullifier(&claimed[i], nullifier) {
            assert(nullifiers_view(claimed@)[i as int] == nullifier@);
            return true;
        }
        i += 1;
    }
    false
}

/// Whether `nullifier` was revealed by an earlier transaction, that is,
/// whether the state before the transaction holds a record under its key.
pub fn is_revealed_before(pre: &Storage, nullifier: &[u8; 32]) -> (found: bool)
    ensures
        found == pre@.dom().contains(spec_airdrop_nullifier_key(nullifier@)),
{
    is_nullifier_revealed(pre, nullifier)
}

/// Whether the transaction recorded `nullifier` as it must: an empty value
/// under the nullifier's key in the state after the transaction. A record
/// with anything in it does not count.
pub fn was_committed(post: &Storage, nullifier: &[u8; 32]) -> (committed: bool)
    ensures
        committed == (post@.dom().contains(spec_airdrop_nullifier_key(nullifier@))
            && post@[spec_airdrop_nullifier_key(nullifier@)].len() == 0),
{
    match post.read_bytes(&airdrop_nullifier_key(nullifier)) {
        Some(value) => value.len() == 0,
        None => false,
    }
}

/// Makes the checks that come before the proof, and gathers the statement.
fn guard(
    pre: &Storage,
    post: &Storage,
    verifiers: &Vec<Address>,
    target: &Address,
    claim_data: &AirdropClaimData,
    claimed: &Vec<[u8; 32]>,
) -> (r: Result<ProofStatement, VpError>)
    ensures
        match r {
            Ok(statement) => spec_guard(
                pre@,
                post@,
                addresses_view(verifiers@),
                target@,
                claim_data@,
                nullifiers_view(claimed@),
            ) == Ok::<ProofStatementView, VpErrorView>(statement@),
            Err(e) => spec_guard(
                pre@,
                post@,
                addresses_view(verifiers@),
                target@,
                claim_data@,
                nullifiers_view(claimed@),
            ) == Err::<ProofStatementView, VpErrorView>(e@),
        },
{
    if !is_verifier(verifiers, target) {
        return Err(VpError::Unauthorized(target.clone()));
    }
    let nullifier = &claim_data.airdrop_nullifier;
    // Check if nullifier has already been used before.
    if is_revealed_before(pre, nullifier) {
        return Err(VpError::NullifierAlreadyUsed(hex_encode(nullifier.as_slice())));
    }
    // Check if nullifier has already been used in this transaction.
    if is_revealed_now(nullifier, claimed) {
        return Err(VpError::NullifierAlreadyUsed(hex_encode(nullifier.as_slice())));
    }
    if !was_committed(post, nullifier) {
        return Err(VpError::NullifierNotCommitted);
    }
    proof_statement(post, claim_data)
}

/// Whether one of the nullifiers in `claimed` has the key `key`.
fn is_accounted(key: &Key, claimed: &Vec<[u8; 32]>) -> (found: bool)
    ensures
        found == spec_accounted(key@, nullifiers_view(claimed@)),
{
    let mut j: usize = 0;
    while j < claimed.len()
        invariant
            j <= claimed@.len(),
            forall|k: int|
                0 <= k < j ==> spec_airdrop_nullifier_key(#[trigger] nullifiers_view(claimed@)[k])
                    != key@,
        decreases claimed@.len() - j,
    {
        if airdrop_nullifier_key(&claimed[j]).same(key) {
            assert(spec_airdrop_nullifier_key(nullifiers_view(claimed@)[j as int]) == key@);
            return true;
        }
        j += 1;
    }
    false
}

/// The first of the changed keys that is a nullifier key for which no
/// accepted claim accounts.
fn first_orphan(keys_changed: &Vec<Key>, claimed: &Vec<[u8; 32]>) -> (orphan: Option<Key>)
    ensures
        match orphan {
            Some(key) => spec_first_orphan(keys_view(keys_changed@), nullifiers_view(claimed@), 0)
                == Some(key@),
            None => spec_first_orphan(keys_view(keys_changed@), nullifiers_view(claimed@), 0)
                is None,
        },
{
    let ghost keys = keys_view(keys_changed@);
    let ghost nullifiers = nullifiers_view(claimed@);
    let mut i: usize = 0;
    while i < keys_changed.len()
        invariant
            i <= keys_changed@.len(),
            keys == keys_view(keys_changed@),
            nullifiers == nullifiers_view(claimed@),
            spec_first_orphan(keys, nullifiers, 0) == spec_first_orphan(keys, nullifiers, i as nat),
        decreases keys_changed@.len() - i,
    {
        let key = &keys_changed[i];
        if is_airdrop_nullifier_key(key) && !is_accounted(key, claimed) {
            return Some(key.clone());
        }
        i += 1;
    }
    None
}

/// Goes on from entry `from` of the action log.
fn advance(
    pre: &Storage,
    post: &Storage,
    actions: &Vec<Action>,
    keys_changed: &Vec<Key>,
    verifiers: &Vec<Address>,
    from: usize,
    claimed: Vec<[u8; 32]>,
) -> (step: VpStep)
    ensures
        step@ == spec_advance(
            tx_view(pre, post, actions, keys_changed, verifiers),
            from as nat,
            nullifiers_view(claimed@),
        ),
{
    let ghost tx = tx_view(pre, post, actions, keys_changed, verifiers);
    let ghost nullifiers = nullifiers_view(claimed@);
    let mut i: usize = from;
    while i < actions.len()
        invariant
            tx == tx_view(pre, post, actions, keys_changed, verifiers),
            nullifiers == nullifiers_view(claimed@),
            from <= i,
            spec_advance(tx, from as nat, nullifiers) == spec_advance(tx, i as nat, nullifiers),
        decreases actions@.len() - i,
    {
        match &actions[i] {
            Action::Other => {},
            Action::Claim { target, claim_data } => {
                return match guard(pre, post, verifiers, target, claim_data, &claimed) {
                    Err(e) => VpStep::Reject(e),
                    Ok(statement) => VpStep::VerifyProof(
                        AirdropVp { next: i + 1, claimed, pending: claim_data.airdrop_nullifier },
                        statement,
                    ),
                };
            },
        }
        i += 1;
    }
    if claimed.len() == 0 {
        return VpStep::Reject(VpError::NoAction);
    }
    match first_orphan(keys_changed, &claimed) {
        Some(key) => VpStep::Reject(VpError::UnexpectedNullifierKey(key)),
        None => VpStep::Accept,
    }
}

/// The keys whose records the validation of a transaction with this action
/// log looks at, in either state, and no others: a caller that holds the
/// states elsewhere has to bring these records and nothing more.
pub fn keys_read(actions: &Vec<Action>) -> (keys: Vec<Key>)
    ensures
        keys_view(keys@) == spec_keys_read(actions_view(actions@)),
{
    let ghost log = actions_view(actions@);
    let mut keys: Vec<Key> = Vec::new();
    keys.push(sapling_verifying_key());
    keys.push(sapling_note_commitment_root_key());
    keys.push(sapling_nullifier_gap_root_key());
    keys.push(sapling_value_commitment_scheme_key());
    let mut i: usize = 0;
    while i < actions.len()
        invariant
            log == actions_view(actions@),
            i <= actions@.len(),
            keys_view(keys@) == spec_keys_read_before(log, i as nat),
        decreases actions@.len() - i,
    {
        match &actions[i] {
            Action::Other => {},
            Action::Claim { claim_data, .. } => {
                keys.push(airdrop_nullifier_key(&claim_data.airdrop_nullifier));
            },
        }
        i += 1;
    }
    keys
}

impl AirdropVp {
    /// Run the validity predicate.
    ///
    /// `pre` and `post` are the state before and after the transaction,
    /// `actions` its action log, `keys_changed` the keys whose value it
    /// changed, in the order in which they are to be looked at, and
    /// `verifiers` the accounts that consented to it.
    ///
    /// The predicate runs until it has a verdict or a proof to check. Where
    /// every proof it asks for is answered by one verifier, it ends as
    /// `spec_validate_tx` of [`crate::verdict`] says for that verifier.
    pub fn validate_tx(
        pre: &Storage,
        post: &Storage,
        actions: &Vec<Action>,
        keys_changed: &Vec<Key>,
        verifiers: &Vec<Address>,
    ) -> (step: VpStep)
        ensures
            step@ == spec_advance(
                tx_view(pre, post, actions, keys_changed, verifiers),
                0,
                Seq::empty(),
            ),
    {
        let claimed: Vec<[u8; 32]> = Vec::new();
        assert(nullifiers_view(claimed@) =~= Seq::<Seq<u8>>::empty());
        advance(pre, post, actions, keys_changed, verifiers, 0, claimed)
    }

    /// Goes on with the validation once the pending proof has been checked.
    ///
    /// `verdict` is what the proof verifier said of the statement that came
    /// with this state: `Ok` if the proof holds, else its refusal. The other
    /// arguments are those of [`AirdropVp::validate_tx`].
    pub fn proof_checked(
        self,
        verdict: Result<(), String>,
        pre: &Storage,
        post: &Storage,
        actions: &Vec<Action>,
        keys_changed: &Vec<Key>,
        verifiers: &Vec<Address>,
    ) -> (step: VpStep)
        ensures
            step@ == spec_proof_checked(
                tx_view(pre, post, actions, keys_changed, verifiers),
                self@,
                verdict_view(verdict),
            ),
    {
        match verdict {
            Err(text) => VpStep::Reject(VpError::ZkProofVerificationFailed(text)),
            Ok(_) => {
                let ghost before = nullifiers_view(self.claimed@);
                let mut claimed = self.claimed;
                claimed.push(self.pending);
                assert(nullifiers_view(claimed@) =~= before.push(self.pending@));
                advance(pre, post, actions, keys_changed, verifiers, self.next, claimed)
            },
        }
    }
}

} // verus!
