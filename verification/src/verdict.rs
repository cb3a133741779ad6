//! The verdict on a whole transaction.
//!
//! The predicate in [`crate::vp`] stops whenever a proof has to be checked.
//! Here the verifier is a function from statements to answers, and the
//! verdict is what the predicate decides when every answer comes from it.

use vstd::prelude::*;
use crate::claim::ActionView;
use crate::error::VpErrorView;
use crate::vp::{
    spec_advance, spec_finish, spec_guard, spec_proof_checked, AirdropVpView, TxView, VpStepView,
};
use crate::zkproof::ProofStatementView;

verus! {

/// A proof verifier: what it says of each statement, `Ok` if the proof holds
/// and else its refusal.
pub type Verifier = spec_fn(ProofStatementView) -> Result<(), Seq<char>>;

/// The verdict that a finished validation stands for.
pub open spec fn spec_decision(step: VpStepView) -> Result<(), VpErrorView> {
    match step {
        VpStepView::Reject(e) => Err(e),
        _ => Ok(()),
    }
}

/// The verdict on the entries of the action log from `from` on, with the
/// nullifiers `claimed` accepted before them.
///
/// Every claim makes the checks of [`spec_guard`] and then has its proof
/// checked; the first check that fails decides the error. With all claims
/// accepted, the transaction must hold at least one, and every nullifier key
/// that changed must belong to one of them.
pub open spec fn spec_validate_from(
    tx: TxView,
    verifier: Verifier,
    from: nat,
    claimed: Seq<Seq<u8>>,
) -> Result<(), VpErrorView>
    decreases tx.actions.len() - from,
{
    if from >= tx.actions.len() {
        spec_decision(spec_finish(tx, claimed))
    } else {
        match tx.actions[from as int] {
            ActionView::Other => spec_validate_from(tx, verifier, from + 1, claimed),
            ActionView::Claim { target, claim_data } => match spec_guard(
                tx.pre,
                tx.post,
                tx.verifiers,
                target,
                claim_data,
                claimed,
            ) {
                Err(e) => Err(e),
                Ok(statement) => match verifier(statement) {
                    Err(text) => Err(VpErrorView::ZkProofVerificationFailed(text)),
                    Ok(_) => spec_validate_from(
                        tx,
                        verifier,
                        from + 1,
                        claimed.push(claim_data.airdrop_nullifier),
                    ),
                },
            },
        }
    }
}

/// The verdict on a transaction: `Ok` if it is accepted, else the reason for
/// which it is rejected.
pub open spec fn spec_validate_tx(tx: TxView, verifier: Verifier) -> Result<(), VpErrorView> {
    spec_validate_from(tx, verifier, 0, Seq::empty())
}

/// How many more proofs the predicate can ask for at most.
pub open spec fn spec_steps_left(tx: TxView, step: VpStepView) -> nat {
    match step {
        VpStepView::VerifyProof(state, _) => if state.next <= tx.actions.len() {
            (tx.actions.len() - state.next + 1) as nat
        } else {
            1
        },
        _ => 0,
    }
}

/// A validation that stops for a proof has moved on in the action log, and
/// has accepted no claim on the way.
pub proof fn lemma_advance_progress(tx: TxView, from: nat, claimed: Seq<Seq<u8>>)
    ensures
        spec_advance(tx, from, claimed) matches VpStepView::VerifyProof(state, _) ==> {
            &&& from < state.next <= tx.actions.len()
            &&& state.claimed == claimed
            &&& tx.actions[state.next - 1] matches ActionView::Claim { claim_data, .. }
            &&& claim_data.airdrop_nullifier == state.pending
        },
    decreases tx.actions.len() - from,
{
    if from < tx.actions.len() {
        if tx.actions[from as int] is Other {
            lemma_advance_progress(tx, from + 1, claimed);
        }
    }
}

/// The verdict that the predicate reaches from `step` when each proof it asks
/// for is answered by `verifier`.
pub open spec fn spec_drive(tx: TxView, verifier: Verifier, step: VpStepView) -> Result<
    (),
    VpErrorView,
>
    decreases spec_steps_left(tx, step),
{
    match step {
        VpStepView::Accept => Ok(()),
        VpStepView::Reject(e) => Err(e),
        VpStepView::VerifyProof(state, statement) => {
            proof {
                lemma_advance_progress(tx, state.next, state.claimed.push(state.pending));
            }
            spec_drive(tx, verifier, spec_proof_checked(tx, state, verifier(statement)))
        },
    }
}

/// Going on from any place in the action log and answering each proof by
/// `verifier` reaches the verdict on the rest of the log.
pub proof fn lemma_drive_from(tx: TxView, verifier: Verifier, from: nat, claimed: Seq<Seq<u8>>)
    ensures
        spec_drive(tx, verifier, spec_advance(tx, from, claimed)) == spec_validate_from(
            tx,
            verifier,
            from,
            claimed,
        ),
    decreases tx.actions.len() - from,
{
    let step = spec_advance(tx, from, claimed);
    if from < tx.actions.len() {
        match tx.actions[from as int] {
            ActionView::Other => {
                lemma_drive_from(tx, verifier, from + 1, claimed);
            },
            ActionView::Claim { target, claim_data } => {
                match spec_guard(tx.pre, tx.post, tx.verifiers, target, claim_data, claimed) {
                    Err(_) => {},
                    Ok(statement) => {
                        let state = AirdropVpView {
                            next: from + 1,
                            claimed,
                            pending: claim_data.airdrop_nullifier,
                        };
                        let next = spec_proof_checked(tx, state, verifier(statement));
                        assert(spec_drive(tx, verifier, step) == spec_drive(tx, verifier, next));
                        if verifier(statement) is Ok {
                            lemma_drive_from(
                                tx,
                                verifier,
                                from + 1,
                                claimed.push(claim_data.airdrop_nullifier),
                            );
                        }
                    },
                }
            },
        }
    }
}

/// Stopping for each proof and going on with the verifier's answer decides
/// as the verdict says: running [`crate::vp::AirdropVp::validate_tx`] and
/// handing each statement's answer to
/// [`crate::vp::AirdropVp::proof_checked`] ends in the verdict on the
/// transaction.
pub proof fn theorem_drive_is_verdict(tx: TxView, verifier: Verifier)
    ensures
        spec_drive(tx, verifier, spec_advance(tx, 0, Seq::empty())) == spec_validate_tx(
            tx,
            verifier,
        ),
{
    lemma_drive_from(tx, verifier, 0, Seq::empty());
}

} // verus!
