//! Gathering what the proof verifier needs.
//!
//! The sapling parameters are read from the state after the transaction. The
//! pairing check itself is not made here: [`proof_statement`] hands out the
//! statement that remains to be checked, and the validity predicate takes the
//! verdict back.

use vstd::prelude::*;
use vstd::string::StringExecFns;
use crate::claim::{AirdropClaimData, AirdropClaimDataView};
use crate::encoding::{decimal, decimal_text, length_text, spec_length_text, to_array};
use crate::error::{VpError, VpErrorView};
use crate::storage::{Storage, StorageView};
use crate::storage_key::{
    sapling_note_commitment_root_key, sapling_nullifier_gap_root_key,
    sapling_value_commitment_scheme_key, sapling_verifying_key, spec_sapling_key,
    NOTE_COMMITMENT_ROOT_KEY, NULLIFIER_GAP_ROOT_KEY, VALUE_COMMITMENT_SCHEME_KEY,
    VERIFYING_KEY_KEY,
};

verus! {

/// Which of the two encodings of the value commitment the chain asks for.
#[derive(Debug, Clone, Copy, PartialEq, Eq, Structural)]
pub enum ValueCommitmentScheme {
    /// The commitment on the curve, `cv`.
    Native,
    /// The SHA-256 commitment, `cv_sha256`.
    Sha256,
}

/// The byte that stands for a scheme in storage.
pub open spec fn spec_scheme_tag(scheme: ValueCommitmentScheme) -> u8 {
    match scheme {
        ValueCommitmentScheme::Native => 0,
        ValueCommitmentScheme::Sha256 => 1,
    }
}

/// The scheme that a stored byte stands for, if any.
pub open spec fn spec_scheme_of_tag(tag: u8) -> Option<ValueCommitmentScheme> {
    if tag == 0 {
        Some(ValueCommitmentScheme::Native)
    } else if tag == 1 {
        Some(ValueCommitmentScheme::Sha256)
    } else {
        None
    }
}

impl ValueCommitmentScheme {
    /// The byte that stands for this scheme in storage.
    pub fn tag(self) -> (tag: u8)
        ensures
            tag == spec_scheme_tag(self),
    {
        match self {
            ValueCommitmentScheme::Native => 0,
            ValueCommitmentScheme::Sha256 => 1,
        }
    }

    /// The scheme that a stored byte stands for, if any.
    pub fn of_tag(tag: u8) -> (scheme: Option<ValueCommitmentScheme>)
        ensures
            scheme == spec_scheme_of_tag(tag),
    {
        match tag {
            0 => Some(ValueCommitmentScheme::Native),
            1 => Some(ValueCommitmentScheme::Sha256),
            _ => None,
        }
    }
}

/// The sapling parameters of the airdrop, set once at genesis.
#[derive(Debug, PartialEq, Eq)]
pub struct SaplingConfiguration {
    /// The Groth16 verifying key, in its serialised form.
    pub verifying_key: Vec<u8>,
    /// Root of the snapshotted note commitment tree.
    pub note_commitment_root: [u8; 32],
    /// Root of the nullifier gap tree.
    pub nullifier_gap_root: [u8; 32],
    /// The encoding of the value commitment that claims must supply.
    pub value_commitment_scheme: ValueCommitmentScheme,
}

/// Mathematical model of a [`SaplingConfiguration`].
pub struct SaplingConfigurationView {
    pub verifying_key: Seq<u8>,
    pub note_commitment_root: Seq<u8>,
    pub nullifier_gap_root: Seq<u8>,
    pub value_commitment_scheme: ValueCommitmentScheme,
}

impl View for SaplingConfiguration {
    type V = SaplingConfigurationView;

    open spec fn view(&self) -> SaplingConfigurationView {
        SaplingConfigurationView {
            verifying_key: self.verifying_key@,
            note_commitment_root: self.note_commitment_root@,
            nullifier_gap_root: self.nullifier_gap_root@,
            value_commitment_scheme: self.value_commitment_scheme,
        }
    }
}

impl Clone for SaplingConfiguration {
    fn clone(&self) -> (r: SaplingConfiguration)
        ensures
            r@ == self@,
    {
        let verifying_key = self.verifying_key.clone();
        SaplingConfiguration {
            verifying_key,
            note_commitment_root: self.note_commitment_root,
            nullifier_gap_root: self.nullifier_gap_root,
            value_commitment_scheme: self.value_commitment_scheme,
        }
    }
}

/// What reading `bytes` as a Groth16 verifying key over BLS12-381 complains
/// of, if it complains.
pub uninterp spec fn verifying_key_error(bytes: Seq<u8>) -> Option<Seq<char>>;

/// Calls `bellman::groth16::VerifyingKey::read`, for the engine
/// `bls12_381::Bls12`, on a reader over `bytes`.
///
/// Trusted: whether the bytes hold a verifying key, and the words of the
/// error if they do not, depend on the bytes alone. The key that was read is
/// dropped; whoever makes the pairing check reads it again.
#[verifier::external_body]
fn read_verifying_key(bytes: &[u8]) -> (r: Result<(), String>)
    ensures
        match r {
            Ok(_) => verifying_key_error(bytes@) is None,
            Err(text) => verifying_key_error(bytes@) == Some(text@),
        },
{
    bellman::groth16::VerifyingKey::<bls12_381::Bls12>::read(bytes)
        .map(|_| ())
        .map_err(|e| e.to_string())
}

/// What the value stored for the scheme stands for.
///
/// The tag is a single byte, `0` for the native scheme and `1` for SHA-256.
/// Nothing stored is no scheme at all; more than one byte, and a byte that
/// is neither tag, is no scheme that is known.
pub open spec fn spec_stored_scheme(value: Seq<u8>) -> Result<ValueCommitmentScheme, VpErrorView> {
    if value.len() == 0 {
        Err(VpErrorView::MissingValueCommitmentScheme)
    } else if value.len() > 1 {
        Err(VpErrorView::InvalidValueCommitmentScheme(spec_length_text(1, value.len())))
    } else {
        match spec_scheme_of_tag(value[0]) {
            None => Err(VpErrorView::InvalidValueCommitmentScheme(decimal_text(value[0] as nat))),
            Some(scheme) => Ok(scheme),
        }
    }
}

/// Reads the scheme out of the value stored for it.
pub fn stored_scheme(value: &Vec<u8>) -> (r: Result<ValueCommitmentScheme, VpError>)
    ensures
        match r {
            Ok(scheme) => spec_stored_scheme(value@) == Ok::<ValueCommitmentScheme, VpErrorView>(
                scheme,
            ),
            Err(e) => spec_stored_scheme(value@) == Err::<ValueCommitmentScheme, VpErrorView>(e@),
        },
{
    if value.len() == 0 {
        return Err(VpError::MissingValueCommitmentScheme);
    }
    if value.len() > 1 {
        return Err(VpError::InvalidValueCommitmentScheme(length_text(1, value.len())));
    }
    let tag = value[0];
    match ValueCommitmentScheme::of_tag(tag) {
        Some(scheme) => Ok(scheme),
        None => Err(VpError::InvalidValueCommitmentScheme(decimal(tag as usize))),
    }
}

/// What reading `bytes` as a verifying key says: `Ok` if they hold one, else
/// the words of the refusal.
pub open spec fn spec_key_read(bytes: Seq<u8>) -> Result<(), Seq<char>> {
    match verifying_key_error(bytes) {
        None => Ok(()),
        Some(text) => Err(text),
    }
}

/// What the sapling parameters come to once the verifying key has been taken
/// from the state and read: `verifying_key` are its bytes and `key_read` is
/// what reading them said.
///
/// A key that could not be read decides first. Then the note commitment
/// root, the nullifier gap root and the scheme are looked at in this order,
/// and the first that is absent or malformed decides the error.
pub open spec fn spec_configuration_after_key_read(
    storage: StorageView,
    verifying_key: Seq<u8>,
    key_read: Result<(), Seq<char>>,
) -> Result<SaplingConfigurationView, VpErrorView> {
    let ncr_key = spec_sapling_key(NOTE_COMMITMENT_ROOT_KEY@);
    let ngr_key = spec_sapling_key(NULLIFIER_GAP_ROOT_KEY@);
    let vcs_key = spec_sapling_key(VALUE_COMMITMENT_SCHEME_KEY@);
    if key_read is Err {
        Err(VpErrorView::ZkProofVerificationFailed("VK deserialization: "@ + key_read->Err_0))
    } else if !storage.dom().contains(ncr_key) {
        Err(VpErrorView::MissingNoteCommitmentRoot)
    } else if storage[ncr_key].len() != 32 {
        Err(VpErrorView::InvalidHex(NOTE_COMMITMENT_ROOT_KEY@))
    } else if !storage.dom().contains(ngr_key) {
        Err(VpErrorView::MissingNullifierGapRoot)
    } else if storage[ngr_key].len() != 32 {
        Err(VpErrorView::InvalidHex(NULLIFIER_GAP_ROOT_KEY@))
    } else if !storage.dom().contains(vcs_key) {
        Err(VpErrorView::MissingValueCommitmentScheme)
    } else {
        match spec_stored_scheme(storage[vcs_key]) {
            Err(e) => Err(e),
            Ok(scheme) => Ok(
                SaplingConfigurationView {
                    verifying_key,
                    note_commitment_root: storage[ncr_key],
                    nullifier_gap_root: storage[ngr_key],
                    value_commitment_scheme: scheme,
                },
            ),
        }
    }
}

/// What reading the sapling parameters from a state gives.
///
/// A state without a verifying key has none of them. Else the key is read,
/// and the rest follows as [`spec_configuration_after_key_read`] says.
pub open spec fn spec_read_configuration(storage: StorageView) -> Result<
    SaplingConfigurationView,
    VpErrorView,
> {
    let vk_key = spec_sapling_key(VERIFYING_KEY_KEY@);
    if !storage.dom().contains(vk_key) {
        Err(VpErrorView::MissingVerifyingKey)
    } else {
        spec_configuration_after_key_read(storage, storage[vk_key], spec_key_read(storage[vk_key]))
    }
}

/// The characters of what a key read said.
pub open spec fn key_read_view(key_read: Result<(), String>) -> Result<(), Seq<char>> {
    match key_read {
        Ok(_) => Ok(()),
        Err(text) => Err(text@),
    }
}

/// Gathers the sapling parameters once the verifying key has been taken from
/// `storage` and read: `verifying_key` are its bytes and `key_read` is what
/// reading them said, `Ok` if they hold a key and else the words of the
/// refusal.
pub fn configuration_after_key_read(
    storage: &Storage,
    verifying_key: Vec<u8>,
    key_read: Result<(), String>,
) -> (r: Result<SaplingConfiguration, VpError>)
    ensures
        match r {
            Ok(config) => spec_configuration_after_key_read(
                storage@,
                verifying_key@,
                key_read_view(key_read),
            ) == Ok::<SaplingConfigurationView, VpErrorView>(config@),
            Err(e) => spec_configuration_after_key_read(
                storage@,
                verifying_key@,
                key_read_view(key_read),
            ) == Err::<SaplingConfigurationView, VpErrorView>(e@),
        },
{
    match key_read {
        Ok(_) => {},
        Err(text) => {
            let mut message = "VK deserialization: ".to_owned();
            message.append(text.as_str());
            return Err(VpError::ZkProofVerificationFailed(message));
        },
    }
    let note_commitment_root = match storage.read_bytes(&sapling_note_commitment_root_key()) {
        Some(bytes) => match to_array::<32>(&bytes) {
            Some(root) => root,
            None => {
                return Err(VpError::InvalidHex(NOTE_COMMITMENT_ROOT_KEY.to_owned()));
            },
        },
        None => {
            return Err(VpError::MissingNoteCommitmentRoot);
        },
    };
    let nullifier_gap_root = match storage.read_bytes(&sapling_nullifier_gap_root_key()) {
        Some(bytes) => match to_array::<32>(&bytes) {
            Some(root) => root,
            None => {
                return Err(VpError::InvalidHex(NULLIFIER_GAP_ROOT_KEY.to_owned()));
            },
        },
        None => {
            return Err(VpError::MissingNullifierGapRoot);
        },
    };
    let value_commitment_scheme = match storage.read_bytes(&sapling_value_commitment_scheme_key()) {
        Some(bytes) => match stored_scheme(&bytes) {
            Ok(scheme) => scheme,
            Err(e) => {
                return Err(e);
            },
        },
        None => {
            return Err(VpError::MissingValueCommitmentScheme);
        },
    };
    Ok(
        SaplingConfiguration {
            verifying_key,
            note_commitment_root,
            nullifier_gap_root,
            value_commitment_scheme,
        },
    )
}

/// Reads the sapling parameters from `storage`.
pub fn read_configuration(storage: &Storage) -> (r: Result<SaplingConfiguration, VpError>)
    ensures
        match r {
            Ok(config) => spec_read_configuration(storage@) == Ok::<
                SaplingConfigurationView,
                VpErrorView,
            >(config@),
            Err(e) => spec_read_configuration(storage@) == Err::<
                SaplingConfigurationView,
                VpErrorView,
            >(e@),
        },
{
    let verifying_key = match storage.read_bytes(&sapling_verifying_key()) {
        Some(bytes) => bytes,
        None => {
            return Err(VpError::MissingVerifyingKey);
        },
    };
    let key_read = read_verifying_key(verifying_key.as_slice());
    configuration_after_key_read(storage, verifying_key, key_read)
}

/// What is put before the proof verifier for one claim: the verifying key,
/// the proof, and the public inputs in the order `rk`, commitment, note
/// commitment root, nullifier, nullifier gap root.
#[derive(Debug, PartialEq, Eq)]
pub struct ProofStatement {
    /// The Groth16 verifying key, in its serialised form.
    pub verifying_key: Vec<u8>,
    /// The Groth16 proof.
    pub zkproof: [u8; 192],
    /// The scheme of `commitment`.
    pub scheme: ValueCommitmentScheme,
    /// The re-randomized spend verification key.
    pub rk: [u8; 32],
    /// The value commitment that the configured scheme selects.
    pub commitment: [u8; 32],
    /// Root of the snapshotted note commitment tree.
    pub note_commitment_root: [u8; 32],
    /// The airdrop nullifier.
    pub airdrop_nullifier: [u8; 32],
    /// Root of the nullifier gap tree.
    pub nullifier_gap_root: [u8; 32],
}

/// Mathematical model of a [`ProofStatement`].
pub struct ProofStatementView {
    pub verifying_key: Seq<u8>,
    pub zkproof: Seq<u8>,
    pub scheme: ValueCommitmentScheme,
    pub rk: Seq<u8>,
    pub commitment: Seq<u8>,
    pub note_commitment_root: Seq<u8>,
    pub airdrop_nullifier: Seq<u8>,
    pub nullifier_gap_root: Seq<u8>,
}

impl View for ProofStatement {
    type V = ProofStatementView;

    open spec fn view(&self) -> ProofStatementView {
        ProofStatementView {
            verifying_key: self.verifying_key@,
            zkproof: self.zkproof@,
            scheme: self.scheme,
            rk: self.rk@,
            commitment: self.commitment@,
            note_commitment_root: self.note_commitment_root@,
            airdrop_nullifier: self.airdrop_nullifier@,
            nullifier_gap_root: self.nullifier_gap_root@,
        }
    }
}

impl Clone for ProofStatement {
    fn clone(&self) -> (r: ProofStatement)
        ensures
            r@ == self@,
    {
        let verifying_key = self.verifying_key.clone();
        ProofStatement {
            verifying_key,
            zkproof: self.zkproof,
            scheme: self.scheme,
            rk: self.rk,
            commitment: self.commitment,
            note_commitment_root: self.note_commitment_root,
            airdrop_nullifier: self.airdrop_nullifier,
            nullifier_gap_root: self.nullifier_gap_root,
        }
    }
}

/// The commitment that `scheme` selects from a claim: `cv` for the native
/// scheme, `cv_sha256` for SHA-256. The other field is not looked at.
pub open spec fn spec_selected_commitment(
    scheme: ValueCommitmentScheme,
    claim: AirdropClaimDataView,
) -> Option<Seq<u8>> {
    match scheme {
        ValueCommitmentScheme::Native => claim.cv,
        ValueCommitmentScheme::Sha256 => claim.cv_sha256,
    }
}

/// What a claim that lacks the selected commitment is told.
pub open spec fn spec_missing_commitment_text(scheme: ValueCommitmentScheme) -> Seq<char> {
    match scheme {
        ValueCommitmentScheme::Native => "missing native value commitment (cv)"@,
        ValueCommitmentScheme::Sha256 => "missing SHA-256 value commitment (cv_sha256)"@,
    }
}

/// The statement to check for `claim` under the parameters `config`, or the
/// reason why there is nothing to check: a claim that lacks the commitment
/// which the configured scheme selects is turned down.
pub open spec fn spec_statement_from(
    config: SaplingConfigurationView,
    claim: AirdropClaimDataView,
) -> Result<ProofStatementView, VpErrorView> {
    match spec_selected_commitment(config.value_commitment_scheme, claim) {
        None => Err(
            VpErrorView::ZkProofVerificationFailed(
                spec_missing_commitment_text(config.value_commitment_scheme),
            ),
        ),
        Some(commitment) => Ok(
            ProofStatementView {
                verifying_key: config.verifying_key,
                zkproof: claim.zkproof,
                scheme: config.value_commitment_scheme,
                rk: claim.rk,
                commitment,
                note_commitment_root: config.note_commitment_root,
                airdrop_nullifier: claim.airdrop_nullifier,
                nullifier_gap_root: config.nullifier_gap_root,
            },
        ),
    }
}

/// The statement to check for `claim` against the parameters in `post`, or
/// the reason why there is nothing to check.
pub open spec fn spec_proof_statement(post: StorageView, claim: AirdropClaimDataView) -> Result<
    ProofStatementView,
    VpErrorView,
> {
    match spec_read_configuration(post) {
        Err(e) => Err(e),
        Ok(config) => spec_statement_from(config, claim),
    }
}

/// Gathers the statement for a claim under parameters that have been read:
/// selects the claim's commitment by the configured scheme and puts the
/// public inputs in their order.
pub fn statement_from(config: SaplingConfiguration, claim_data: &AirdropClaimData) -> (r: Result<
    ProofStatement,
    VpError,
>)
    ensures
        match r {
            Ok(statement) => spec_statement_from(config@, claim_data@) == Ok::<
                ProofStatementView,
                VpErrorView,
            >(statement@),
            Err(e) => spec_statement_from(config@, claim_data@) == Err::<
                ProofStatementView,
                VpErrorView,
            >(e@),
        },
{
    let selected = match config.value_commitment_scheme {
        ValueCommitmentScheme::Native => claim_data.cv,
        ValueCommitmentScheme::Sha256 => claim_data.cv_sha256,
    };
    match selected {
        None => {
            let message = match config.value_commitment_scheme {
                ValueCommitmentScheme::Native => "missing native value commitment (cv)",
                ValueCommitmentScheme::Sha256 => "missing SHA-256 value commitment (cv_sha256)",
            };
            Err(VpError::ZkProofVerificationFailed(message.to_owned()))
        },
        Some(commitment) => Ok(
            ProofStatement {
                verifying_key: config.verifying_key,
                zkproof: claim_data.zkproof,
                scheme: config.value_commitment_scheme,
                rk: claim_data.rk,
                commitment,
                note_commitment_root: config.note_commitment_root,
                airdrop_nullifier: claim_data.airdrop_nullifier,
                nullifier_gap_root: config.nullifier_gap_root,
            },
        ),
    }
}

/// Gathers the statement that the proof verifier has to check for a claim.
///
/// Reads the verifying key, the two roots and the scheme from `post`, the
/// state after the transaction, and selects the claim's commitment by the
/// configured scheme. A parameter that is absent or malformed, and a claim
/// that lacks the selected commitment, give a typed error.
pub fn proof_statement(post: &Storage, claim_data: &AirdropClaimData) -> (r: Result<
    ProofStatement,
    VpError,
>)
    ensures
        match r {
            Ok(statement) => spec_proof_statement(post@, claim_data@) == Ok::<
                ProofStatementView,
                VpErrorView,
            >(statement@),
            Err(e) => spec_proof_statement(post@, claim_data@) == Err::<
                ProofStatementView,
                VpErrorView,
            >(e@),
        },
{
    match read_configuration(post) {
        Ok(config) => statement_from(config, claim_data),
        Err(e) => Err(e),
    }
}

/// What the verifier's verdict on a statement makes of the claim: a proof
/// that was turned down, or could not be checked, is a failed verification
/// with the verifier's own words.
pub open spec fn spec_proof_verdict(verdict: Result<(), Seq<char>>) -> Result<(), VpErrorView> {
    match verdict {
        Ok(_) => Ok(()),
        Err(text) => Err(VpErrorView::ZkProofVerificationFailed(text)),
    }
}

} // verus!
