use simple_vote::credential::required_tier;
use simple_vote::{Credential, CredentialClass, Operation, Vote, VoteChoice, VoteError};

const T0: i64 = 1_700_000_040;

#[test]
fn tiers_of_the_operations() {
    assert_eq!(
        required_tier(Operation::IssueMember),
        Some(CredentialClass::Admin)
    );
    assert_eq!(
        required_tier(Operation::OpenBallot),
        Some(CredentialClass::Admin)
    );
    assert_eq!(required_tier(Operation::CastVote), None);
    assert_eq!(required_tier(Operation::FinalizeBallot), None);
}

#[test]
fn authorize_follows_the_tiers() {
    let (mut org, admin) = Vote::instantiate_vote("Test".to_string());
    let member = org.become_member(&admin).unwrap();

    assert_eq!(org.authorize(Operation::IssueMember, Some(&admin)), Ok(()));
    assert_eq!(org.authorize(Operation::OpenBallot, Some(&admin)), Ok(()));
    assert_eq!(
        org.authorize(Operation::IssueMember, Some(&member)),
        Err(VoteError::Unauthorized)
    );
    assert_eq!(
        org.authorize(Operation::OpenBallot, None),
        Err(VoteError::Unauthorized)
    );
    assert_eq!(org.authorize(Operation::CastVote, None), Ok(()));
    assert_eq!(org.authorize(Operation::FinalizeBallot, None), Ok(()));
    assert_eq!(org.authorize(Operation::FinalizeBallot, Some(&member)), Ok(()));
}

#[test]
fn member_cannot_act_as_administrator() {
    let (mut org, admin) = Vote::instantiate_vote("Test".to_string());
    let member = org.become_member(&admin).unwrap();

    assert_eq!(
        org.become_member(&member).err(),
        Some(VoteError::Unauthorized)
    );
    assert_eq!(org.members().len(), 1);
    assert_eq!(
        org.new_vote(&member, "Coup".to_string(), 5, T0),
        Err(VoteError::Unauthorized)
    );
    assert!(org.current_vote().is_none());
}

#[test]
fn administrator_of_another_organization_is_refused() {
    let (mut org, _admin) = Vote::instantiate_vote("Test".to_string());
    let (_other, other_admin) = Vote::instantiate_vote("Other".to_string());

    assert_eq!(
        org.become_member(&other_admin).err(),
        Some(VoteError::Unauthorized)
    );
    assert_eq!(
        org.new_vote(&other_admin, "Foreign".to_string(), 5, T0),
        Err(VoteError::Unauthorized)
    );
    assert_eq!(org.members().len(), 0);
    assert!(org.current_vote().is_none());
}

#[test]
fn administrator_credential_that_was_never_issued_is_refused() {
    let (mut org, _admin) = Vote::instantiate_vote("Test".to_string());
    let forged = Credential {
        org: "Test".to_string(),
        class: CredentialClass::Admin,
        id: 1,
    };
    assert_eq!(
        org.verify(&forged, CredentialClass::Admin),
        Err(VoteError::InvalidCredential)
    );
    assert_eq!(
        org.new_vote(&forged, "Forged".to_string(), 5, T0),
        Err(VoteError::Unauthorized)
    );
}

#[test]
fn member_credentials_are_numbered_in_order() {
    let (mut org, admin) = Vote::instantiate_vote("Test".to_string());
    let a = org.become_member(&admin).unwrap();
    let b = org.become_member(&admin).unwrap();
    let c = org.become_member(&admin).unwrap();
    assert_eq!((a.id, b.id, c.id), (0, 1, 2));
    assert_eq!(a.class, CredentialClass::Member);
    assert_eq!(b.org, "Test");
    assert_eq!(org.issued(CredentialClass::Member), 3);
    assert_eq!(org.verify_member(&b), Ok(1));
    assert_eq!(org.verify(&c, CredentialClass::Member), Ok(()));
    assert_eq!(
        org.verify(&c, CredentialClass::Admin),
        Err(VoteError::InvalidCredential)
    );
    assert!(!org.members().has_voted(2, &"Anything".to_string()));
}

#[test]
fn vote_with_a_proof_that_does_not_resolve() {
    let (mut org, admin) = Vote::instantiate_vote("Test".to_string());
    let member = org.become_member(&admin).unwrap();
    let (mut other, other_admin) = Vote::instantiate_vote("Other".to_string());
    let stranger = other.become_member(&other_admin).unwrap();
    org.new_vote(&admin, "Open".to_string(), 5, T0).unwrap();

    // a member of another organization
    assert_eq!(
        org.vote(VoteChoice::Yes, &stranger, T0),
        Err(VoteError::InvalidCredential)
    );
    // the administrator is no member
    assert_eq!(
        org.vote(VoteChoice::Yes, &admin, T0),
        Err(VoteError::InvalidCredential)
    );
    // a member credential that was never issued
    let unknown = Credential::member("Test".to_string(), 7);
    assert_eq!(
        org.vote(VoteChoice::No, &unknown, T0),
        Err(VoteError::InvalidCredential)
    );
    assert_eq!(org.verify_member(&unknown), Err(VoteError::InvalidCredential));

    let ballot = org.current_vote().as_ref().unwrap();
    assert_eq!(ballot.yes_votes, 0);
    assert_eq!(ballot.no_votes, 0);
    assert_eq!(org.vote(VoteChoice::No, &member, T0), Ok(()));
}

#[test]
fn window_is_checked_before_the_proof() {
    let (mut org, admin) = Vote::instantiate_vote("Test".to_string());
    let unknown = Credential::member("Test".to_string(), 7);
    assert_eq!(
        org.vote(VoteChoice::Yes, &unknown, T0),
        Err(VoteError::NoActiveBallot)
    );
    org.new_vote(&admin, "Late".to_string(), 1, T0).unwrap();
    assert_eq!(
        org.vote(VoteChoice::Yes, &unknown, T0 + 60),
        Err(VoteError::BallotExpired)
    );
}

#[test]
fn constructors_of_credentials() {
    let admin = Credential::admin("Guild".to_string());
    assert_eq!(admin.org, "Guild");
    assert_eq!(admin.class, CredentialClass::Admin);
    assert_eq!(admin.id, 0);
    let member = Credential::member("Guild".to_string(), 41);
    assert_eq!(member.org, "Guild");
    assert_eq!(member.class, CredentialClass::Member);
    assert_eq!(member.id, 41);
    let copy = member.clone();
    assert_eq!(copy.org, "Guild");
    assert_eq!(copy.class, CredentialClass::Member);
    assert_eq!(copy.id, 41);
}

#[test]
fn every_refusal_has_its_text() {
    assert_eq!(VoteError::Unauthorized.message(), "Caller is not authorized");
    assert_eq!(
        VoteError::InvalidCredential.message(),
        "Credential is not valid"
    );
    assert_eq!(
        VoteError::ConflictingBallot.message(),
        "Vote is already in progress"
    );
    assert_eq!(
        VoteError::InvalidDuration.message(),
        "Must have a positive duration"
    );
    assert_eq!(VoteError::NoActiveBallot.message(), "No vote in progress");
    assert_eq!(VoteError::BallotExpired.message(), "Vote has expired");
    assert_eq!(VoteError::BallotNotYetEnded.message(), "Vote has not ended");
    assert_eq!(
        VoteError::AlreadyVoted.message(),
        "Member has already voted"
    );
}
