//! Airdrop functions for transactions
//!
//! A [`Ctx`] records what an executing transaction does: the state it
//! writes, the keys it changes, the actions it declares, the accounts whose
//! consent it asks for, and the mints it requests.

use vstd::prelude::*;
use crate::address::{Address, AddressView};
use crate::claim::{actions_view, Action, ActionView, AirdropClaimData, Amount};
use crate::storage::{reveal_nullifier, Storage, StorageView};
use crate::storage_key::{airdrop_nullifier_key, spec_airdrop_nullifier_key, Key, KeyView};
use crate::vp::{addresses_view, keys_view};

verus! {

/// A request to mint tokens.
#[derive(Debug, PartialEq, Eq)]
pub struct Mint {
    /// The account that mints.
    pub minter: Address,
    /// The token to mint.
    pub token: Address,
    /// The account that receives the tokens.
    pub target: Address,
    /// How much to mint.
    pub amount: Amount,
}

/// Mathematical model of a [`Mint`].
pub struct MintView {
    pub minter: AddressView,
    pub token: AddressView,
    pub target: AddressView,
    pub amount: Amount,
}

impl View for Mint {
    type V = MintView;

    open spec fn view(&self) -> MintView {
        MintView {
            minter: self.minter@,
            token: self.token@,
            target: self.target@,
            amount: self.amount,
        }
    }
}

impl Clone for Mint {
    fn clone(&self) -> (r: Mint)
        ensures
            r@ == self@,
    {
        Mint {
            minter: self.minter.clone(),
            token: self.token.clone(),
            target: self.target.clone(),
            amount: self.amount,
        }
    }
}

/// The models of a list of mints, in order.
pub open spec fn mints_view(mints: Seq<Mint>) -> Seq<MintView> {
    Seq::new(mints.len(), |i: int| mints[i]@)
}

/// What an executing transaction has done so far.
pub struct Ctx {
    /// The state as the transaction has left it.
    pub storage: Storage,
    /// The keys that the transaction wrote, each once, in the order of their
    /// first write.
    pub keys_changed: Vec<Key>,
    /// The action log.
    pub actions: Vec<Action>,
    /// The accounts whose validity predicates are to run, each once.
    pub verifiers: Vec<Address>,
    /// The mints requested, in order.
    pub mints: Vec<Mint>,
}

/// Mathematical model of a [`Ctx`].
pub struct CtxView {
    pub storage: StorageView,
    pub keys_changed: Seq<KeyView>,
    pub actions: Seq<ActionView>,
    pub verifiers: Seq<AddressView>,
    pub mints: Seq<MintView>,
}

impl View for Ctx {
    type V = CtxView;

    open spec fn view(&self) -> CtxView {
        CtxView {
            storage: self.storage@,
            keys_changed: keys_view(self.keys_changed@),
            actions: actions_view(self.actions@),
            verifiers: addresses_view(self.verifiers@),
            mints: mints_view(self.mints@),
        }
    }
}

/// A list with `item` in it: the list itself where it holds the item, else
/// the list with the item at its end.
pub open spec fn spec_with<T>(list: Seq<T>, item: T) -> Seq<T> {
    if list.contains(item) {
        list
    } else {
        list.push(item)
    }
}

/// What a claim does to a transaction: it asks for the consent of the
/// airdrop account and of the target, records the nullifier as an empty
/// value under its key, declares the claim in the action log, and requests
/// the mint with the airdrop account as minter.
pub open spec fn spec_claim_airdrop(
    ctx: CtxView,
    target: AddressView,
    token: AddressView,
    amount: Amount,
    claim_data: AirdropClaimData,
) -> CtxView {
    let key = spec_airdrop_nullifier_key(claim_data.airdrop_nullifier@);
    CtxView {
        storage: ctx.storage.insert(key, Seq::empty()),
        keys_changed: spec_with(ctx.keys_changed, key),
        actions: ctx.actions.push(ActionView::Claim { target, claim_data: claim_data@ }),
        verifiers: spec_with(spec_with(ctx.verifiers, AddressView::Airdrop), target),
        mints: ctx.mints.push(MintView { minter: AddressView::Airdrop, token, target, amount }),
    }
}

impl Ctx {
    /// A transaction that starts in the state `storage` and has done nothing
    /// yet.
    pub fn new(storage: Storage) -> (ctx: Ctx)
        ensures
            ctx@ == (CtxView {
                storage: storage@,
                keys_changed: Seq::empty(),
                actions: Seq::empty(),
                verifiers: Seq::empty(),
                mints: Seq::empty(),
            }),
    {
        let ctx = Ctx {
            storage,
            keys_changed: Vec::new(),
            actions: Vec::new(),
            verifiers: Vec::new(),
            mints: Vec::new(),
        };
        assert(ctx@.keys_changed =~= Seq::empty());
        assert(ctx@.actions =~= Seq::empty());
        assert(ctx@.verifiers =~= Seq::empty());
        assert(ctx@.mints =~= Seq::empty());
        ctx
    }

    /// Asks for the consent of `address`.
    pub fn insert_verifier(&mut self, address: &Address)
        ensures
            final(self)@ == (CtxView {
                verifiers: spec_with(old(self)@.verifiers, address@),
                ..old(self)@
            }),
    {
        let ghost before = addresses_view(self.verifiers@);
        let mut i: usize = 0;
        while i < self.verifiers.len()
            invariant
                *self == *old(self),
                i <= self.verifiers@.len(),
                forall|j: int| 0 <= j < i ==> addresses_view(self.verifiers@)[j] != address@,
            decreases self.verifiers@.len() - i,
        {
            if self.verifiers[i].same(address) {
                assert(addresses_view(self.verifiers@)[i as int] == address@);
                return ;
            }
            i += 1;
        }
        self.verifiers.push(address.clone());
        assert(addresses_view(self.verifiers@) =~= before.push(address@));
    }

    /// Notes that `key` was written.
    fn note_change(&mut self, key: Key)
        ensures
            final(self)@ == (CtxView {
                keys_changed: spec_with(old(self)@.keys_changed, key@),
                ..old(self)@
            }),
    {
        let ghost before = keys_view(self.keys_changed@);
        let mut i: usize = 0;
        while i < self.keys_changed.len()
            invariant
                *self == *old(self),
                i <= self.keys_changed@.len(),
                forall|j: int| 0 <= j < i ==> keys_view(self.keys_changed@)[j] != key@,
            decreases self.keys_changed@.len() - i,
        {
            if self.keys_changed[i].same(&key) {
                assert(keys_view(self.keys_changed@)[i as int] == key@);
                return ;
            }
            i += 1;
        }
        self.keys_changed.push(key);
        assert(keys_view(self.keys_changed@) =~= before.push(key@));
    }

    /// Declares `action` in the action log.
    pub fn push_action(&mut self, action: Action)
        ensures
            final(self)@ == (CtxView { actions: old(self)@.actions.push(action@), ..old(self)@ }),
    {
        let ghost before = actions_view(self.actions@);
        self.actions.push(action);
        assert(actions_view(self.actions@) =~= before.push(action@));
    }

    /// Claim airdrop tokens
    pub fn claim_airdrop(
        &mut self,
        target: &Address,
        token_addr: &Address,
        amount: Amount,
        claim_data: AirdropClaimData,
    )
        ensures
            final(self)@ == spec_claim_airdrop(
                old(self)@,
                target@,
                token_addr@,
                amount,
                claim_data,
            ),
    {
        self.insert_verifier(&Address::Airdrop);
        self.insert_verifier(target);

        reveal_nullifier(&mut self.storage, &claim_data.airdrop_nullifier);
        self.note_change(airdrop_nullifier_key(&claim_data.airdrop_nullifier));

        self.push_action(Action::Claim { target: target.clone(), claim_data });

        // Mint tokens with Airdrop as minter
        let ghost before = mints_view(self.mints@);
        let mint = Mint {
            minter: Address::Airdrop,
            token: token_addr.clone(),
            target: target.clone(),
            amount,
        };
        self.mints.push(mint);
        assert(mints_view(self.mints@) =~= before.push(mint@));
    }
}

} // verus!
