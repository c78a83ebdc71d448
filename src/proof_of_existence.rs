//! The claim registry: each piece of content is claimed by at most one account.
use vstd::prelude::*;
use crate::store::StringMap;
use crate::support::{DispatchError, DispatchResult};

verus! {

/// What a claim is made on: opaque content, or a digest of it.
pub type Content = String;

/// What creating a claim on `claim` for `caller` does to `claims`, and what it returns.
pub open spec fn create_claim_outcome(
    claims: Map<Seq<char>, Seq<char>>,
    caller: Seq<char>,
    claim: Seq<char>,
) -> (Map<Seq<char>, Seq<char>>, DispatchResult) {
    if claims.contains_key(claim) {
        (claims, Err(DispatchError::ClaimAlreadyExists))
    } else {
        (claims.insert(claim, caller), Ok(()))
    }
}

/// What revoking the claim on `claim` by `caller` does to `claims`, and what it returns.
pub open spec fn revoke_claim_outcome(
    claims: Map<Seq<char>, Seq<char>>,
    caller: Seq<char>,
    claim: Seq<char>,
) -> (Map<Seq<char>, Seq<char>>, DispatchResult) {
    if !claims.contains_key(claim) {
        (claims, Err(DispatchError::ClaimNotFound))
    } else if claims[claim] != caller {
        (claims, Err(DispatchError::NotClaimOwner))
    } else {
        (claims.remove(claim), Ok(()))
    }
}

/// The owner of `claim` in `claims`, if any.
pub open spec fn claim_owner(claims: Map<Seq<char>, Seq<char>>, claim: Seq<char>) -> Option<
    Seq<char>,
> {
    if claims.contains_key(claim) {
        Some(claims[claim])
    } else {
        None
    }
}

/// A claim on unclaimed content belongs to its creator; nobody else can claim
/// the content again or revoke the claim, while the owner can revoke it, after
/// which the content is unclaimed.
pub proof fn lemma_claim_round_trip(
    claims: Map<Seq<char>, Seq<char>>,
    alice: Seq<char>,
    bob: Seq<char>,
    claim: Seq<char>,
)
    requires
        !claims.contains_key(claim),
        alice != bob,
    ensures
        ({
            let (created, r1) = create_claim_outcome(claims, alice, claim);
            let (again, r2) = create_claim_outcome(created, bob, claim);
            let (kept, r3) = revoke_claim_outcome(created, bob, claim);
            let (revoked, r4) = revoke_claim_outcome(created, alice, claim);
            &&& r1 is Ok
            &&& claim_owner(created, claim) == Some(alice)
            &&& r2 == Err::<(), DispatchError>(DispatchError::ClaimAlreadyExists)
            &&& again == created
            &&& r3 == Err::<(), DispatchError>(DispatchError::NotClaimOwner)
            &&& kept == created
            &&& r4 is Ok
            &&& claim_owner(revoked, claim) is None
            &&& revoked == claims
        }),
{
    assert(claims.insert(claim, alice).remove(claim) =~= claims);
}

/// A call that the claim registry dispatches.
pub enum Call {
    /// Claims `claim` for the caller.
    CreateClaim { claim: Content },
    /// Gives up the caller's claim on `claim`.
    RevokeClaim { claim: Content },
}

/// The claim registry.
pub struct Pallet {
    claims: StringMap<String>,
}

impl View for Pallet {
    type V = Map<Seq<char>, Seq<char>>;

    /// The owner of each claimed piece of content.
    closed spec fn view(&self) -> Map<Seq<char>, Seq<char>> {
        self.claims@.map_values(|owner: String| owner@)
    }
}

impl Pallet {
    /// The stored claims are a well-formed map.
    pub closed spec fn wf(&self) -> bool {
        self.claims.wf()
    }

    /// A registry without claims.
    pub fn new() -> (r: Self)
        ensures
            r.wf(),
            r@ == Map::<Seq<char>, Seq<char>>::empty(),
    {
        let r = Pallet { claims: StringMap::new() };
        assert(r@ =~= Map::<Seq<char>, Seq<char>>::empty());
        r
    }

    /// The owner of `claim`, if it is claimed.
    pub fn get_claim(&self, claim: &Content) -> (r: Option<&String>)
        requires
            self.wf(),
        ensures
            r is Some <==> self@.contains_key(claim@),
            r is Some ==> r->Some_0@ == self@[claim@],
    {
        self.claims.get(claim)
    }

    /// Claims `claim` for `caller`; fails with `ClaimAlreadyExists` where
    /// someone holds it already.
    pub fn create_claim(&mut self, caller: String, claim: Content) -> (r: DispatchResult)
        requires
            old(self).wf(),
        ensures
            final(self).wf(),
            (final(self)@, r) == create_claim_outcome(old(self)@, caller@, claim@),
    {
        if self.claims.contains_key(&claim) {
            return Err(DispatchError::ClaimAlreadyExists);
        }
        let ghost before = self@;
        let ghost key = claim@;
        let ghost owner = caller@;
        self.claims.insert(claim, caller);
        assert(self@ =~= before.insert(key, owner));
        Ok(())
    }

    /// Gives up the claim on `claim` held by `caller`. Fails with
    /// `ClaimNotFound` where nobody holds it, and with `NotClaimOwner` where
    /// another account does.
    pub fn revoke_claim(&mut self, caller: String, claim: Content) -> (r: DispatchResult)
        requires
            old(self).wf(),
        ensures
            final(self).wf(),
            (final(self)@, r) == revoke_claim_outcome(old(self)@, caller@, claim@),
    {
        let is_owner = match self.claims.get(&claim) {
            None => return Err(DispatchError::ClaimNotFound),
            Some(owner) => *owner == caller,
        };
        if !is_owner {
            return Err(DispatchError::NotClaimOwner);
        }
        let ghost before = self@;
        self.claims.remove(&claim);
        assert(self@ =~= before.remove(claim@));
        Ok(())
    }

    /// Runs `call` on behalf of `caller`.
    pub fn dispatch(&mut self, caller: String, call: Call) -> (r: DispatchResult)
        requires
            old(self).wf(),
        ensures
            final(self).wf(),
            match call {
                Call::CreateClaim { claim } => (final(self)@, r) == create_claim_outcome(
                    old(self)@,
                    caller@,
                    claim@,
                ),
                Call::RevokeClaim { claim } => (final(self)@, r) == revoke_claim_outcome(
                    old(self)@,
                    caller@,
                    claim@,
                ),
            },
    {
        match call {
            Call::CreateClaim { claim } => self.create_claim(caller, claim),
            Call::RevokeClaim { claim } => self.revoke_claim(caller, claim),
        }
    }
}

} // verus!
