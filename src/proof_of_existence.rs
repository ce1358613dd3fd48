use vstd::prelude::*;
use crate::keymap::KeyMap;
use crate::support::{DispatchError, DispatchResult};
use crate::types::{AccountId, Content};

verus! {

/// Whether `caller` may claim `claim`, and if not, why.
pub open spec fn create_outcome(
    claims: Map<Seq<char>, Seq<char>>,
    claim: Seq<char>,
) -> Result<(), DispatchError> {
    if claims.contains_key(claim) {
        Err(DispatchError::AlreadyClaimed)
    } else {
        Ok(())
    }
}

/// The claims after `caller` tries to claim `claim`.
pub open spec fn after_create(
    claims: Map<Seq<char>, Seq<char>>,
    caller: Seq<char>,
    claim: Seq<char>,
) -> Map<Seq<char>, Seq<char>> {
    if claims.contains_key(claim) {
        claims
    } else {
        claims.insert(claim, caller)
    }
}

/// Whether `caller` may revoke the claim on `claim`, and if not, why.
pub open spec fn revoke_outcome(
    claims: Map<Seq<char>, Seq<char>>,
    caller: Seq<char>,
    claim: Seq<char>,
) -> Result<(), DispatchError> {
    if !claims.contains_key(claim) {
        Err(DispatchError::NotFound)
    } else if claims[claim] != caller {
        Err(DispatchError::NotOwner)
    } else {
        Ok(())
    }
}

/// The claims after `caller` tries to revoke the claim on `claim`.
pub open spec fn after_revoke(
    claims: Map<Seq<char>, Seq<char>>,
    caller: Seq<char>,
    claim: Seq<char>,
) -> Map<Seq<char>, Seq<char>> {
    if revoke_outcome(claims, caller, claim) is Ok {
        claims.remove(claim)
    } else {
        claims
    }
}

/// The calls that the claim ledger accepts.
#[allow(non_camel_case_types)]
pub enum Call {
    create_claim { claim: Content },
    revoke_claim { claim: Content },
}

/// The claim ledger: which account owns each piece of claimed content.
pub struct Pallet {
    claims: KeyMap<AccountId>,
}

impl View for Pallet {
    type V = Map<Seq<char>, Seq<char>>;

    closed spec fn view(&self) -> Map<Seq<char>, Seq<char>> {
        self.claims@.map_values(|a: AccountId| a@)
    }
}

impl Pallet {
    pub closed spec fn wf(&self) -> bool {
        self.claims.wf()
    }

    pub fn new() -> (r: Self)
        ensures
            r.wf(),
            r@ == Map::<Seq<char>, Seq<char>>::empty(),
    {
        let r = Pallet { claims: KeyMap::new() };
        assert(r@ =~= Map::<Seq<char>, Seq<char>>::empty());
        r
    }

    /// The owner of `claim`, if it is claimed.
    pub fn get_claim(&self, claim: &Content) -> (r: Option<&AccountId>)
        requires
            self.wf(),
        ensures
            match r {
                Some(owner) => self@.contains_key(claim@) && self@[claim@] == owner@,
                None => !self@.contains_key(claim@),
            },
    {
        self.claims.get(claim)
    }

    /// Records `caller` as the owner of `claim`, unless someone already owns it.
    pub fn create_claim(&mut self, caller: AccountId, claim: Content) -> (r: DispatchResult)
        requires
            old(self).wf(),
        ensures
            final(self).wf(),
            r == create_outcome(old(self)@, claim@),
            final(self)@ == after_create(old(self)@, caller@, claim@),
            old(self)@.contains_key(claim@) ==> r == Err::<(), DispatchError>(
                DispatchError::AlreadyClaimed,
            ) && final(self)@[claim@] == old(self)@[claim@],
    {
        if self.claims.contains_key(&claim) {
            return Err(DispatchError::AlreadyClaimed);
        }
        let ghost pre = self.claims@;
        let ghost (k, v) = (claim@, caller@);
        self.claims.insert(claim, caller);
        assert(self@ =~= pre.map_values(|a: AccountId| a@).insert(k, v));
        Ok(())
    }

    /// Removes the claim on `claim`; only its owner may do so.
    pub fn revoke_claim(&mut self, caller: AccountId, claim: Content) -> (r: DispatchResult)
        requires
            old(self).wf(),
        ensures
            final(self).wf(),
            r == revoke_outcome(old(self)@, caller@, claim@),
            final(self)@ == after_revoke(old(self)@, caller@, claim@),
            r is Ok <==> old(self)@.contains_key(claim@) && old(self)@[claim@] == caller@,
            !old(self)@.contains_key(claim@) ==> r == Err::<(), DispatchError>(
                DispatchError::NotFound,
            ),
            old(self)@.contains_key(claim@) && old(self)@[claim@] != caller@ ==> r == Err::<
                (),
                DispatchError,
            >(DispatchError::NotOwner),
    {
        let owner = match self.get_claim(&claim) {
            None => return Err(DispatchError::NotFound),
            Some(o) => o,
        };
        if *owner != caller {
            return Err(DispatchError::NotOwner);
        }
        let ghost pre = self.claims@;
        self.claims.remove(&claim);
        assert(self@ =~= pre.map_values(|a: AccountId| a@).remove(claim@));
        Ok(())
    }

    /// Routes a call of this ledger to the operation that it names.
    pub fn dispatch(&mut self, caller: &AccountId, call: &Call) -> (r: DispatchResult)
        requires
            old(self).wf(),
        ensures
            final(self).wf(),
            match *call {
                Call::create_claim { claim } => r == create_outcome(old(self)@, claim@)
                    && final(self)@ == after_create(old(self)@, caller@, claim@),
                Call::revoke_claim { claim } => r == revoke_outcome(old(self)@, caller@, claim@)
                    && final(self)@ == after_revoke(old(self)@, caller@, claim@),
            },
    {
        match call {
            Call::create_claim { claim } => self.create_claim(caller.clone(), claim.clone()),
            Call::revoke_claim { claim } => self.revoke_claim(caller.clone(), claim.clone()),
        }
    }
}

} // verus!
