//! Identities of the parties and the capability that tells which of them authorised a call.
use vstd::prelude::*;

verus! {

/// An account on the host: providers, facilities, verifiers, committees and authorities
/// are all identified this way.
#[derive(Clone, Copy, Debug, PartialEq, Eq, Structural)]
pub struct Address {
    pub id: u64,
}

impl Address {
    pub fn new(id: u64) -> (r: Address)
        ensures
            r.id == id,
    {
        Address { id }
    }
}

/// The identities that signed the current call.
///
/// The host proves signatures; the library only asks whether a given identity is among the
/// signers before it acts on that identity's behalf.
pub struct AuthContext {
    signers: Vec<Address>,
}

impl AuthContext {
    /// Whether `who` authorised the current call.
    pub closed spec fn authorizes(&self, who: Address) -> bool {
        self.signers@.contains(who)
    }

    /// A context in which exactly the given identities signed.
    pub fn new(signers: Vec<Address>) -> (r: AuthContext)
        ensures
            forall|a: Address| r.authorizes(a) <==> signers@.contains(a),
    {
        AuthContext { signers }
    }

    /// A context signed by `who` alone.
    pub fn signed_by(who: Address) -> (r: AuthContext)
        ensures
            forall|a: Address| r.authorizes(a) <==> a == who,
    {
        let mut signers: Vec<Address> = Vec::new();
        signers.push(who);
        proof {
            assert forall|a: Address| signers@.contains(a) <==> a == who by {
                if a == who {
                    assert(signers@[0] == who);
                }
            }
        }
        AuthContext { signers }
    }

    /// Answers whether `who` authorised the current call.
    pub fn authenticate(&self, who: Address) -> (r: bool)
        ensures
            r == self.authorizes(who),
    {
        let mut i: usize = 0;
        while i < self.signers.len()
            invariant
                i <= self.signers@.len(),
                forall|j: int| 0 <= j < i ==> self.signers@[j] != who,
            decreases self.signers@.len() - i,
        {
            if self.signers[i] == who {
                return true;
            }
            i = i + 1;
        }
        false
    }
}

} // verus!
