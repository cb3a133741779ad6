//! The reasons for which the validity predicate turns a transaction down.

use vstd::prelude::*;
use crate::address::{Address, AddressView};
use crate::storage_key::{Key, KeyView};

verus! {

/// Mathematical model of a [`VpError`].
pub enum VpErrorView {
    Unauthorized(AddressView),
    NoAction,
    NullifierAlreadyUsed(Seq<char>),
    NullifierNotCommitted,
    UnexpectedNullifierKey(KeyView),
    ZkProofVerificationFailed(Seq<char>),
    MissingVerifyingKey,
    MissingNoteCommitmentRoot,
    MissingNullifierGapRoot,
    MissingValueCommitmentScheme,
    InvalidHex(Seq<char>),
    InvalidValueCommitmentScheme(Seq<char>),
}

/// Why a transaction is rejected. Every error ends the validation.
#[derive(Debug, PartialEq, Eq)]
pub enum VpError {
    /// A claim's target is not among the accounts that consented to the
    /// transaction.
    Unauthorized(Address),
    /// The transaction holds no claim at all.
    NoAction,
    /// The nullifier, given in hexadecimal, was revealed before, in an
    /// earlier transaction or earlier in this one.
    NullifierAlreadyUsed(String),
    /// The claim's nullifier was not recorded by the transaction as an empty
    /// value under its key.
    NullifierNotCommitted,
    /// A nullifier key changed that no accepted claim accounts for.
    UnexpectedNullifierKey(Key),
    /// The proof was not accepted; the text says at which point.
    ZkProofVerificationFailed(String),
    /// No verifying key in storage.
    MissingVerifyingKey,
    /// No note commitment root in storage.
    MissingNoteCommitmentRoot,
    /// No nullifier gap root in storage.
    MissingNullifierGapRoot,
    /// No value commitment scheme in storage.
    MissingValueCommitmentScheme,
    /// A fixed-length field is malformed; the text names it or says how.
    InvalidHex(String),
    /// The stored scheme tag, given in decimal, is none that is known.
    InvalidValueCommitmentScheme(String),
}

impl View for VpError {
    type V = VpErrorView;

    open spec fn view(&self) -> VpErrorView {
        match self {
            VpError::Unauthorized(a) => VpErrorView::Unauthorized(a@),
            VpError::NoAction => VpErrorView::NoAction,
            VpError::NullifierAlreadyUsed(s) => VpErrorView::NullifierAlreadyUsed(s@),
            VpError::NullifierNotCommitted => VpErrorView::NullifierNotCommitted,
            VpError::UnexpectedNullifierKey(k) => VpErrorView::UnexpectedNullifierKey(k@),
            VpError::ZkProofVerificationFailed(s) => VpErrorView::ZkProofVerificationFailed(s@),
            VpError::MissingVerifyingKey => VpErrorView::MissingVerifyingKey,
            VpError::MissingNoteCommitmentRoot => VpErrorView::MissingNoteCommitmentRoot,
            VpError::MissingNullifierGapRoot => VpErrorView::MissingNullifierGapRoot,
            VpError::MissingValueCommitmentScheme => VpErrorView::MissingValueCommitmentScheme,
            VpError::InvalidHex(s) => VpErrorView::InvalidHex(s@),
            VpError::InvalidValueCommitmentScheme(s) => VpErrorView::InvalidValueCommitmentScheme(
                s@,
            ),
        }
    }
}

impl Clone for VpError {
    fn clone(&self) -> (r: VpError)
        ensures
            r@ == self@,
    {
        match self {
            VpError::Unauthorized(a) => VpError::Unauthorized(a.clone()),
            VpError::NoAction => VpError::NoAction,
            VpError::NullifierAlreadyUsed(s) => VpError::NullifierAlreadyUsed(s.clone()),
            VpError::NullifierNotCommitted => VpError::NullifierNotCommitted,
            VpError::UnexpectedNullifierKey(k) => VpError::UnexpectedNullifierKey(k.clone()),
            VpError::ZkProofVerificationFailed(s) => VpError::ZkProofVerificationFailed(s.clone()),
            VpError::MissingVerifyingKey => VpError::MissingVerifyingKey,
            VpError::MissingNoteCommitmentRoot => VpError::MissingNoteCommitmentRoot,
            VpError::MissingNullifierGapRoot => VpError::MissingNullifierGapRoot,
            VpError::MissingValueCommitmentScheme => VpError::MissingValueCommitmentScheme,
            VpError::InvalidHex(s) => VpError::InvalidHex(s.clone()),
            VpError::InvalidValueCommitmentScheme(s) => VpError::InvalidValueCommitmentScheme(
                s.clone(),
            ),
        }
    }
}

} // verus!
