//! Credentials, their classes, and the tier that each operation requires.

use vstd::prelude::*;

verus! {

/// The three kinds of credential of an organization.
#[derive(Clone, Copy, Debug, PartialEq, Eq, Structural)]
pub enum CredentialClass {
    /// Held by the administrator: issued once, when the organization is
    /// instantiated.
    Admin,
    /// Held by a member: one per member, bound to the member's record.
    Member,
    /// Held by the organization itself and never handed out.
    Internal,
}

/// The operations that an organization offers to callers.
#[derive(Clone, Copy, Debug, PartialEq, Eq, Structural)]
pub enum Operation {
    IssueMember,
    OpenBallot,
    CastVote,
    FinalizeBallot,
}

/// The credential class that a caller must hold for an operation, if any.
/// Casting a vote and finalizing are open to every caller: they are gated by
/// the member's proof and by the clock instead.
pub open spec fn required_class(operation: Operation) -> Option<CredentialClass> {
    match operation {
        Operation::IssueMember => Some(CredentialClass::Admin),
        Operation::OpenBallot => Some(CredentialClass::Admin),
        Operation::CastVote => None,
        Operation::FinalizeBallot => None,
    }
}

/// The credential class that a caller must hold for an operation, if any.
pub fn required_tier(operation: Operation) -> (tier: Option<CredentialClass>)
    ensures
        tier == required_class(operation),
{
    match operation {
        Operation::IssueMember => Some(CredentialClass::Admin),
        Operation::OpenBallot => Some(CredentialClass::Admin),
        Operation::CastVote => None,
        Operation::FinalizeBallot => None,
    }
}

/// The mathematical content of a credential.
pub struct CredentialView {
    /// The name of the issuing organization.
    pub org: Seq<char>,
    /// The class.
    pub class: CredentialClass,
    /// The serial number within the class. For a member credential it is the
    /// member's identity.
    pub id: nat,
}

impl CredentialView {
    /// The one administrator credential of the organization named `org`.
    pub open spec fn admin(org: Seq<char>) -> CredentialView {
        CredentialView { org, class: CredentialClass::Admin, id: 0 }
    }

    /// The credential of member `id` of the organization named `org`.
    pub open spec fn member(org: Seq<char>, id: nat) -> CredentialView {
        CredentialView { org, class: CredentialClass::Member, id }
    }
}

/// A credential as a caller presents it: the claim, attested by whoever
/// checks possession, to hold credential number `id` of class `class` of the
/// organization named `org`. Whether such a credential was ever issued is
/// for the organization to decide.
#[derive(Debug)]
pub struct Credential {
    pub org: String,
    pub class: CredentialClass,
    pub id: u64,
}

impl View for Credential {
    type V = CredentialView;

    open spec fn view(&self) -> CredentialView {
        CredentialView { org: self.org@, class: self.class, id: self.id as nat }
    }
}

impl Clone for Credential {
    fn clone(&self) -> (copy: Self)
        ensures
            copy == *self,
    {
        Credential { org: self.org.clone(), class: self.class, id: self.id }
    }
}

impl Credential {
    /// The administrator credential of the organization named `org`.
    pub fn admin(org: String) -> (credential: Credential)
        ensures
            credential@ == CredentialView::admin(org@),
    {
        Credential { org, class: CredentialClass::Admin, id: 0 }
    }

    /// The credential of member `id` of the organization named `org`.
    pub fn member(org: String, id: u64) -> (credential: Credential)
        ensures
            credential@ == CredentialView::member(org@, id as nat),
    {
        Credential { org, class: CredentialClass::Member, id }
    }
}

} // verus!
