//! What a claimant submits, and what the executed transaction says it did.

use vstd::prelude::*;
use crate::address::{Address, AddressView};
use crate::encoding::{hex_decode, hex_encoding, lemma_hex_decode_round_trip, spec_hex_decode};
use crate::error::{VpError, VpErrorView};

verus! {

/// A token amount: 256 bits, least significant word first.
#[derive(Debug, Clone, Copy, PartialEq, Eq)]
pub struct Amount {
    pub raw: [u64; 4],
}

/// Airdrop claim data containing ZK proof information.
#[derive(Debug, Clone, Copy, PartialEq, Eq)]
pub struct AirdropClaimData {
    /// The Groth16 proof (192 bytes)
    pub zkproof: [u8; 192],
    /// The re-randomized spend verification key (rk)
    pub rk: [u8; 32],
    /// The native value commitment (cv), if the scheme is `native`.
    pub cv: Option<[u8; 32]>,
    /// The SHA-256 value commitment (`cv_sha256`), if the scheme is `sha256`.
    pub cv_sha256: Option<[u8; 32]>,
    /// The airdrop nullifier (airdrop-specific nullifier for double-claim
    /// prevention).
    pub airdrop_nullifier: [u8; 32],
}

/// Mathematical model of an [`AirdropClaimData`]: every field by its bytes.
pub struct AirdropClaimDataView {
    pub zkproof: Seq<u8>,
    pub rk: Seq<u8>,
    pub cv: Option<Seq<u8>>,
    pub cv_sha256: Option<Seq<u8>>,
    pub airdrop_nullifier: Seq<u8>,
}

/// The bytes of a field that may be absent.
pub open spec fn option_bytes(field: Option<[u8; 32]>) -> Option<Seq<u8>> {
    match field {
        Some(bytes) => Some(bytes@),
        None => None,
    }
}

impl View for AirdropClaimData {
    type V = AirdropClaimDataView;

    open spec fn view(&self) -> AirdropClaimDataView {
        AirdropClaimDataView {
            zkproof: self.zkproof@,
            rk: self.rk@,
            cv: option_bytes(self.cv),
            cv_sha256: option_bytes(self.cv_sha256),
            airdrop_nullifier: self.airdrop_nullifier@,
        }
    }
}

/// What decoding one optional hex-carried commitment gives.
pub open spec fn spec_decode_optional(field: Option<Seq<char>>) -> Result<
    Option<Seq<u8>>,
    VpErrorView,
> {
    match field {
        None => Ok(None),
        Some(text) => match spec_hex_decode(text, 32) {
            Ok(bytes) => Ok(Some(bytes)),
            Err(e) => Err(e),
        },
    }
}

/// What decoding hex-carried claim data gives: the fields are decoded in the
/// order proof, `rk`, `cv`, `cv_sha256`, nullifier, and the first that is
/// malformed decides the error.
pub open spec fn spec_from_hex(
    zkproof: Seq<char>,
    rk: Seq<char>,
    cv: Option<Seq<char>>,
    cv_sha256: Option<Seq<char>>,
    airdrop_nullifier: Seq<char>,
) -> Result<AirdropClaimDataView, VpErrorView> {
    match spec_hex_decode(zkproof, 192) {
        Err(e) => Err(e),
        Ok(zkproof) => match spec_hex_decode(rk, 32) {
            Err(e) => Err(e),
            Ok(rk) => match spec_decode_optional(cv) {
                Err(e) => Err(e),
                Ok(cv) => match spec_decode_optional(cv_sha256) {
                    Err(e) => Err(e),
                    Ok(cv_sha256) => match spec_hex_decode(airdrop_nullifier, 32) {
                        Err(e) => Err(e),
                        Ok(airdrop_nullifier) => Ok(
                            AirdropClaimDataView { zkproof, rk, cv, cv_sha256, airdrop_nullifier },
                        ),
                    },
                },
            },
        },
    }
}

/// The characters of a text that may be absent.
pub open spec fn option_text(field: Option<&str>) -> Option<Seq<char>> {
    match field {
        Some(text) => Some(text@),
        None => None,
    }
}

/// Decodes one optional hex-carried commitment.
fn decode_optional(field: Option<&str>) -> (r: Result<Option<[u8; 32]>, VpError>)
    ensures
        match r {
            Ok(bytes) => spec_decode_optional(option_text(field)) == Ok::<
                Option<Seq<u8>>,
                VpErrorView,
            >(option_bytes(bytes)),
            Err(e) => spec_decode_optional(option_text(field)) == Err::<
                Option<Seq<u8>>,
                VpErrorView,
            >(e@),
        },
{
    match field {
        None => Ok(None),
        Some(text) => match hex_decode::<32>(text) {
            Ok(bytes) => Ok(Some(bytes)),
            Err(e) => Err(e),
        },
    }
}

impl AirdropClaimData {
    /// Decodes claim data whose fields are carried as hexadecimal text.
    ///
    /// Every field is decoded and held to its length: 192 bytes for the
    /// proof, 32 for each of the others. The nullifier is read in the same
    /// byte order as the other fields.
    pub fn from_hex(
        zkproof: &str,
        rk: &str,
        cv: Option<&str>,
        cv_sha256: Option<&str>,
        airdrop_nullifier: &str,
    ) -> (r: Result<AirdropClaimData, VpError>)
        ensures
            match r {
                Ok(data) => spec_from_hex(
                    zkproof@,
                    rk@,
                    option_text(cv),
                    option_text(cv_sha256),
                    airdrop_nullifier@,
                ) == Ok::<AirdropClaimDataView, VpErrorView>(data@),
                Err(e) => spec_from_hex(
                    zkproof@,
                    rk@,
                    option_text(cv),
                    option_text(cv_sha256),
                    airdrop_nullifier@,
                ) == Err::<AirdropClaimDataView, VpErrorView>(e@),
            },
    {
        let zkproof = match hex_decode::<192>(zkproof) {
            Ok(bytes) => bytes,
            Err(e) => {
                return Err(e);
            },
        };
        let rk = match hex_decode::<32>(rk) {
            Ok(bytes) => bytes,
            Err(e) => {
                return Err(e);
            },
        };
        let cv = match decode_optional(cv) {
            Ok(bytes) => bytes,
            Err(e) => {
                return Err(e);
            },
        };
        let cv_sha256 = match decode_optional(cv_sha256) {
            Ok(bytes) => bytes,
            Err(e) => {
                return Err(e);
            },
        };
        let airdrop_nullifier = match hex_decode::<32>(airdrop_nullifier) {
            Ok(bytes) => bytes,
            Err(e) => {
                return Err(e);
            },
        };
        Ok(AirdropClaimData { zkproof, rk, cv, cv_sha256, airdrop_nullifier })
    }
}

/// The text of a field that may be absent.
pub open spec fn option_encoding(field: Option<Seq<u8>>) -> Option<Seq<char>> {
    match field {
        Some(bytes) => Some(hex_encoding(bytes)),
        None => None,
    }
}

/// Claim data written as hexadecimal text, each field in its own byte order,
/// decodes to the same claim data.
pub proof fn theorem_from_hex_round_trip(data: AirdropClaimData)
    ensures
        spec_from_hex(
            hex_encoding(data@.zkproof),
            hex_encoding(data@.rk),
            option_encoding(data@.cv),
            option_encoding(data@.cv_sha256),
            hex_encoding(data@.airdrop_nullifier),
        ) == Ok::<AirdropClaimDataView, VpErrorView>(data@),
{
    lemma_hex_decode_round_trip(data@.zkproof);
    lemma_hex_decode_round_trip(data@.rk);
    lemma_hex_decode_round_trip(data@.airdrop_nullifier);
    if data.cv is Some {
        lemma_hex_decode_round_trip(data.cv->0@);
    }
    if data.cv_sha256 is Some {
        lemma_hex_decode_round_trip(data.cv_sha256->0@);
    }
}

/// A tx data type to hold airdrop claim data.
#[derive(Debug, PartialEq, Eq)]
pub struct ClaimAirdrop {
    /// The target of the airdrop.
    pub target: Address,
    /// Token address to claim.
    pub token: Address,
    /// Amount to claim.
    pub amount: Amount,
    /// Claim data containing ZK proof information.
    pub claim_data: AirdropClaimData,
}

/// Mathematical model of a [`ClaimAirdrop`].
pub struct ClaimAirdropView {
    pub target: AddressView,
    pub token: AddressView,
    pub amount: Amount,
    pub claim_data: AirdropClaimDataView,
}

impl View for ClaimAirdrop {
    type V = ClaimAirdropView;

    open spec fn view(&self) -> ClaimAirdropView {
        ClaimAirdropView {
            target: self.target@,
            token: self.token@,
            amount: self.amount,
            claim_data: self.claim_data@,
        }
    }
}

impl Clone for ClaimAirdrop {
    fn clone(&self) -> (r: ClaimAirdrop)
        ensures
            r@ == self@,
    {
        ClaimAirdrop {
            target: self.target.clone(),
            token: self.token.clone(),
            amount: self.amount,
            claim_data: self.claim_data,
        }
    }
}

/// Mathematical model of an [`Action`].
pub enum ActionView {
    Claim { target: AddressView, claim_data: AirdropClaimDataView },
    Other,
}

/// One entry of the action log that an executed transaction leaves behind.
#[derive(Debug, PartialEq, Eq)]
pub enum Action {
    /// "I performed an airdrop claim with this nullifier, authorized for this
    /// target."
    Claim { target: Address, claim_data: AirdropClaimData },
    /// Anything that is no airdrop claim.
    Other,
}

impl View for Action {
    type V = ActionView;

    open spec fn view(&self) -> ActionView {
        match self {
            Action::Claim { target, claim_data } => ActionView::Claim {
                target: target@,
                claim_data: claim_data@,
            },
            Action::Other => ActionView::Other,
        }
    }
}

impl Clone for Action {
    fn clone(&self) -> (r: Action)
        ensures
            r@ == self@,
    {
        match self {
            Action::Claim { target, claim_data } => Action::Claim {
                target: target.clone(),
                claim_data: *claim_data,
            },
            Action::Other => Action::Other,
        }
    }
}

/// The models of the entries of an action log, in order.
pub open spec fn actions_view(actions: Seq<Action>) -> Seq<ActionView> {
    Seq::new(actions.len(), |i: int| actions[i]@)
}

} // verus!
