//! The proof-of-existence module: records which account claims ownership
//! of a piece of content, with create and revoke guarded by ownership
//! checks.

use vstd::prelude::*;
use vstd::hash_map::StringHashMap;

verus! {

/// The errors the proof-of-existence module can report.
#[derive(Clone, Copy, Debug, PartialEq, Eq)]
pub enum Error {
    /// The content is already claimed, by anyone.
    ClaimExists,
    /// The content is not claimed at all.
    ClaimNotFound,
    /// The content is claimed, but not by the caller.
    NotClaimOwner,
}

/// The claims ledger after a create attempt: content already present is
/// left alone, otherwise it is recorded as owned by `caller`.
pub open spec fn create_updates(
    m: Map<Seq<char>, String>,
    caller: String,
    claim: Seq<char>,
) -> Map<Seq<char>, String> {
    if m.contains_key(claim) {
        m
    } else {
        m.insert(claim, caller)
    }
}

/// The result a create attempt reports: it fails exactly when the content
/// is already claimed, whoever owns it.
pub open spec fn create_outcome(m: Map<Seq<char>, String>, claim: Seq<char>) -> Result<
    (),
    Error,
> {
    if m.contains_key(claim) {
        Err(Error::ClaimExists)
    } else {
        Ok(())
    }
}

/// The claims ledger after a revoke attempt: the entry goes away exactly
/// when it exists and the caller owns it.
pub open spec fn revoke_updates(
    m: Map<Seq<char>, String>,
    caller: Seq<char>,
    claim: Seq<char>,
) -> Map<Seq<char>, String> {
    if m.contains_key(claim) && m[claim]@ == caller {
        m.remove(claim)
    } else {
        m
    }
}

/// The result a revoke attempt reports: a missing claim is checked first,
/// then ownership.
pub open spec fn revoke_outcome(
    m: Map<Seq<char>, String>,
    caller: Seq<char>,
    claim: Seq<char>,
) -> Result<(), Error> {
    if !m.contains_key(claim) {
        Err(Error::ClaimNotFound)
    } else if m[claim]@ != caller {
        Err(Error::NotClaimOwner)
    } else {
        Ok(())
    }
}

/// The claims ledger: content identifier to owning account.
pub struct Pallet {
    claims: StringHashMap<String>,
}

/// The calls this module answers to.
pub enum Call {
    /// Record the caller as the owner of `claim`.
    CreateClaim { claim: String },
    /// Remove the caller's claim on `claim`.
    RevokeClaim { claim: String },
}

impl Pallet {
    /// The stored claims map: content identifier to owner.
    pub closed spec fn claims(self) -> Map<Seq<char>, String> {
        self.claims@
    }

    /// An empty claims ledger.
    pub fn new() -> (r: Self)
        ensures
            r.claims() == Map::<Seq<char>, String>::empty(),
    {
        Pallet { claims: StringHashMap::new() }
    }

    /// The owner of `claim`, or `None` when the content is unclaimed;
    /// reads only.
    pub fn get_claim<'a>(&'a self, claim: &String) -> (r: Option<&'a String>)
        ensures
            (match r {
                Some(owner) => self.claims().contains_key(claim@) && *owner == self.claims()[
                    claim@
                ],
                None => !self.claims().contains_key(claim@),
            }),
    {
        self.claims.get(claim.as_str())
    }

    /// Records `caller` as the owner of `claim`.  Fails with `ClaimExists`
    /// when the content is already claimed, whoever owns it; otherwise the
    /// entry is inserted and nothing else changes.
    pub fn create_claim(&mut self, caller: String, claim: String) -> (r: Result<(), Error>)
        ensures
            r == create_outcome(old(self).claims(), claim@),
            final(self).claims() == create_updates(old(self).claims(), caller, claim@),
            r is Ok <==> !old(self).claims().contains_key(claim@),
            r is Ok ==> final(self).claims() == old(self).claims().insert(claim@, caller),
            r is Err ==> final(self).claims() == old(self).claims(),
    {
        if self.claims.contains_key(claim.as_str()) {
            Err(Error::ClaimExists)
        } else {
            self.claims.insert(claim, caller);
            Ok(())
        }
    }

    /// Removes the claim on `claim`.  Fails with `ClaimNotFound` when the
    /// content is unclaimed and with `NotClaimOwner` when the stored owner
    /// is not the caller; on failure the ledger is untouched.
    pub fn revoke_claim(&mut self, caller: String, claim: String) -> (r: Result<(), Error>)
        ensures
            r == revoke_outcome(old(self).claims(), caller@, claim@),
            final(self).claims() == revoke_updates(old(self).claims(), caller@, claim@),
            r is Ok <==> (old(self).claims().contains_key(claim@) && old(self).claims()[claim@]@
                == caller@),
            r is Ok ==> final(self).claims() == old(self).claims().remove(claim@),
            r is Err ==> final(self).claims() == old(self).claims(),
    {
        let is_owner = match self.claims.get(claim.as_str()) {
            None => {
                return Err(Error::ClaimNotFound);
            },
            Some(owner) => owner.eq(&caller),
        };
        if !is_owner {
            return Err(Error::NotClaimOwner);
        }
        self.claims.remove(claim.as_str());
        Ok(())
    }

    /// Routes a call of this module to the method that executes it.
    pub fn dispatch(&mut self, caller: String, call: Call) -> (r: Result<(), Error>)
        ensures
            (match call {
                Call::CreateClaim { claim } => {
                    &&& r == create_outcome(old(self).claims(), claim@)
                    &&& final(self).claims() == create_updates(old(self).claims(), caller, claim@)
                },
                Call::RevokeClaim { claim } => {
                    &&& r == revoke_outcome(old(self).claims(), caller@, claim@)
                    &&& final(self).claims() == revoke_updates(old(self).claims(), caller@, claim@)
                },
            }),
    {
        match call {
            Call::CreateClaim { claim } => self.create_claim(caller, claim),
            Call::RevokeClaim { claim } => self.revoke_claim(caller, claim),
        }
    }
}

/// Creating a claim on unclaimed content records the creator as its owner,
/// and a second create on the same content then fails with `ClaimExists`,
/// whoever attempts it.
pub proof fn lemma_create_then_get(m: Map<Seq<char>, String>, caller: String, claim: Seq<char>)
    requires
        !m.contains_key(claim),
    ensures
        create_updates(m, caller, claim).contains_key(claim),
        create_updates(m, caller, claim)[claim] == caller,
        create_outcome(create_updates(m, caller, claim), claim) == Err::<(), Error>(
            Error::ClaimExists,
        ),
{
}

/// A revoke by anyone but the owner fails with `NotClaimOwner` and leaves
/// the claim intact; a revoke by the owner removes the entry, after which a
/// create on the same content succeeds, whoever attempts it.
pub proof fn lemma_revoke_rules(m: Map<Seq<char>, String>, claim: Seq<char>)
    requires
        m.contains_key(claim),
    ensures
        forall|caller: Seq<char>|
            caller != m[claim]@ ==> revoke_outcome(m, caller, claim) == Err::<(), Error>(
                Error::NotClaimOwner,
            ) && revoke_updates(m, caller, claim) == m,
        revoke_outcome(m, m[claim]@, claim) == Ok::<(), Error>(()),
        revoke_updates(m, m[claim]@, claim) == m.remove(claim),
        create_outcome(revoke_updates(m, m[claim]@, claim), claim) == Ok::<(), Error>(()),
{
}

} // verus!
