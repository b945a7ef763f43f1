use simple_vote::{CredentialClass, Vote, VoteChoice, VoteError};

const T0: i64 = 1_700_000_040;

#[test]
fn test_vote_happy_path() {
    // INSTANTIATE
    let (mut org, admin) = Vote::instantiate_vote("Test".to_string());

    let expected_resource_names =
        vec!["Test Admin", "Test Component", "Test Member", "Test Result"];
    let labels = org.labels();
    let resources = vec![
        labels.admin.clone(),
        labels.component.clone(),
        labels.member.clone(),
        labels.result.clone(),
    ];
    assert!(
        expected_resource_names
            .iter()
            .all(|&res| { resources.iter().any(|name| name == res) }),
        "Unexpected new resources, expected resources: {:?}\nbut got {:?}",
        expected_resource_names,
        resources
    );

    assert_eq!(org.issued(CredentialClass::Internal), 1);
    assert_eq!(org.vote_results().len(), 0);
    assert_eq!(org.issued(CredentialClass::Admin), 1);

    // BECOME MEMBER
    let member = org.become_member(&admin).unwrap();
    assert_eq!(org.issued(CredentialClass::Member), 1);

    // NEW VOTE
    let vote_start = T0;
    let duration = 5i64;
    org.new_vote(&admin, "Test Vote".to_string(), duration, vote_start)
        .unwrap();

    // VOTE
    org.vote(VoteChoice::Yes, &member, vote_start + 60).unwrap();

    // DOUBLE VOTE ATTEMPT
    assert!(org.vote(VoteChoice::Yes, &member, vote_start + 120).is_err());

    // END VOTE
    org.end_vote(vote_start + duration * 60).unwrap();

    assert!(org.current_vote().is_none());
    let d = org.vote_results().get(0).unwrap();
    println!("d: {:?}", d);
    assert_eq!(org.vote_results().len(), 1);
    assert_eq!(d.yes_votes, 1);
    assert_eq!(d.no_votes, 0);
    assert_eq!(d.name, "Test Vote");
}

#[test]
fn scenario_with_every_step_checked() {
    let (mut org, admin) = Vote::instantiate_vote("Test".to_string());
    let member = org.become_member(&admin).unwrap();
    assert_eq!(org.new_vote(&admin, "Test Vote".to_string(), 5, T0), Ok(()));
    assert_eq!(org.current_vote().as_ref().unwrap().end, T0 + 300);

    assert_eq!(org.vote(VoteChoice::Yes, &member, T0 + 60), Ok(()));
    assert_eq!(org.current_vote().as_ref().unwrap().yes_votes, 1);
    assert_eq!(org.current_vote().as_ref().unwrap().no_votes, 0);

    assert_eq!(
        org.vote(VoteChoice::Yes, &member, T0 + 120),
        Err(VoteError::AlreadyVoted)
    );
    assert_eq!(org.current_vote().as_ref().unwrap().yes_votes, 1);
    assert_eq!(org.current_vote().as_ref().unwrap().no_votes, 0);

    assert_eq!(org.end_vote(T0 + 240), Err(VoteError::BallotNotYetEnded));
    assert!(org.current_vote().is_some());
    assert_eq!(org.vote_results().len(), 0);

    assert_eq!(org.end_vote(T0 + 300), Ok(()));
    assert!(org.current_vote().is_none());
    let receipt = org.vote_results().get(0).unwrap();
    assert_eq!(receipt.name, "Test Vote");
    assert_eq!(receipt.yes_votes, 1);
    assert_eq!(receipt.no_votes, 0);
    assert_eq!(receipt.end, T0 + 300);
}

#[test]
fn instantiate_starts_empty() {
    let (org, admin) = Vote::instantiate_vote("Guild".to_string());
    assert_eq!(org.org_name(), "Guild");
    assert!(org.current_vote().is_none());
    assert_eq!(org.members().len(), 0);
    assert_eq!(org.vote_results().len(), 0);
    assert_eq!(admin.org, "Guild");
    assert_eq!(admin.class, CredentialClass::Admin);
    assert_eq!(admin.id, 0);
    assert_eq!(org.verify(&admin, CredentialClass::Admin), Ok(()));
}

#[test]
fn second_vote_is_refused_and_counts_nothing() {
    let (mut org, admin) = Vote::instantiate_vote("Test".to_string());
    let first = org.become_member(&admin).unwrap();
    let second = org.become_member(&admin).unwrap();
    org.new_vote(&admin, "Budget".to_string(), 10, T0).unwrap();

    assert_eq!(org.vote(VoteChoice::No, &first, T0), Ok(()));
    assert_eq!(org.vote(VoteChoice::Yes, &second, T0 + 1), Ok(()));
    assert_eq!(
        org.vote(VoteChoice::Yes, &first, T0 + 2),
        Err(VoteError::AlreadyVoted)
    );
    assert_eq!(
        org.vote(VoteChoice::No, &second, T0 + 599),
        Err(VoteError::AlreadyVoted)
    );
    let ballot = org.current_vote().as_ref().unwrap();
    assert_eq!(ballot.yes_votes, 1);
    assert_eq!(ballot.no_votes, 1);
}

#[test]
fn vote_in_an_earlier_ballot_of_the_same_name_still_blocks() {
    let (mut org, admin) = Vote::instantiate_vote("Test".to_string());
    let member = org.become_member(&admin).unwrap();
    org.new_vote(&admin, "Annual".to_string(), 1, T0).unwrap();
    assert_eq!(org.vote(VoteChoice::Yes, &member, T0), Ok(()));
    assert_eq!(org.end_vote(T0 + 60), Ok(()));

    org.new_vote(&admin, "Annual".to_string(), 1, T0 + 600).unwrap();
    assert_eq!(
        org.vote(VoteChoice::No, &member, T0 + 600),
        Err(VoteError::AlreadyVoted)
    );
    let ballot = org.current_vote().as_ref().unwrap();
    assert_eq!(ballot.yes_votes, 0);
    assert_eq!(ballot.no_votes, 0);
    assert!(org.members().has_voted(member.id, &"Annual".to_string()));
}

#[test]
fn nonpositive_duration_is_refused() {
    let (mut org, admin) = Vote::instantiate_vote("Test".to_string());
    assert_eq!(
        org.new_vote(&admin, "Zero".to_string(), 0, T0),
        Err(VoteError::InvalidDuration)
    );
    assert!(org.current_vote().is_none());
    assert_eq!(
        org.new_vote(&admin, "Negative".to_string(), -5, T0),
        Err(VoteError::InvalidDuration)
    );
    assert!(org.current_vote().is_none());
    assert_eq!(
        org.new_vote(&admin, "Lowest".to_string(), i64::MIN, T0),
        Err(VoteError::InvalidDuration)
    );
    assert!(org.current_vote().is_none());
}

#[test]
fn occupied_slot_refuses_a_second_ballot() {
    let (mut org, admin) = Vote::instantiate_vote("Test".to_string());
    org.new_vote(&admin, "First".to_string(), 5, T0).unwrap();
    assert_eq!(
        org.new_vote(&admin, "Second".to_string(), 5, T0 + 60),
        Err(VoteError::ConflictingBallot)
    );
    // an expired ballot that was not finalized blocks as well
    assert_eq!(
        org.new_vote(&admin, "Second".to_string(), 5, T0 + 6000),
        Err(VoteError::ConflictingBallot)
    );
    // the slot is checked before the duration
    assert_eq!(
        org.new_vote(&admin, "Second".to_string(), 0, T0 + 60),
        Err(VoteError::ConflictingBallot)
    );
    let ballot = org.current_vote().as_ref().unwrap();
    assert_eq!(ballot.name, "First");
    assert_eq!(ballot.end, T0 + 300);
}

#[test]
fn vote_is_refused_outside_the_window() {
    let (mut org, admin) = Vote::instantiate_vote("Test".to_string());
    let member = org.become_member(&admin).unwrap();
    assert_eq!(
        org.vote(VoteChoice::Yes, &member, T0),
        Err(VoteError::NoActiveBallot)
    );
    org.new_vote(&admin, "Short".to_string(), 1, T0).unwrap();
    assert_eq!(
        org.vote(VoteChoice::Yes, &member, T0 + 60),
        Err(VoteError::BallotExpired)
    );
    assert_eq!(
        org.vote(VoteChoice::Yes, &member, T0 + 100_000),
        Err(VoteError::BallotExpired)
    );
    let ballot = org.current_vote().as_ref().unwrap();
    assert_eq!(ballot.yes_votes, 0);
    assert!(!org.members().has_voted(member.id, &"Short".to_string()));
    // the last second of the window still counts
    assert_eq!(org.vote(VoteChoice::Yes, &member, T0 + 59), Ok(()));
}

#[test]
fn finalize_waits_for_the_end() {
    let (mut org, admin) = Vote::instantiate_vote("Test".to_string());
    assert_eq!(org.end_vote(T0), Err(VoteError::NoActiveBallot));
    org.new_vote(&admin, "Wait".to_string(), 2, T0 + 30).unwrap();
    assert_eq!(org.current_vote().as_ref().unwrap().end, T0 + 120);
    assert_eq!(org.end_vote(T0 + 119), Err(VoteError::BallotNotYetEnded));
    assert_eq!(org.vote_results().len(), 0);
    assert_eq!(org.end_vote(T0 + 120), Ok(()));
    assert_eq!(org.vote_results().len(), 1);
    assert!(org.current_vote().is_none());
    assert_eq!(org.end_vote(T0 + 120), Err(VoteError::NoActiveBallot));
    // the slot is free again
    assert_eq!(org.new_vote(&admin, "Next".to_string(), 1, T0 + 180), Ok(()));
}

#[test]
fn both_tallies_reach_the_receipt() {
    let (mut org, admin) = Vote::instantiate_vote("Test".to_string());
    let a = org.become_member(&admin).unwrap();
    let b = org.become_member(&admin).unwrap();
    let c = org.become_member(&admin).unwrap();
    org.new_vote(&admin, "Three".to_string(), 3, T0).unwrap();
    org.vote(VoteChoice::No, &a, T0).unwrap();
    org.vote(VoteChoice::Yes, &b, T0 + 61).unwrap();
    org.vote(VoteChoice::No, &c, T0 + 179).unwrap();
    org.end_vote(T0 + 180).unwrap();
    let receipt = org.vote_results().get(0).unwrap();
    assert_eq!(receipt.yes_votes, 1);
    assert_eq!(receipt.no_votes, 2);
    assert_eq!(receipt.name, "Three");
    assert_eq!(receipt.end, T0 + 180);
}

#[test]
fn enumeration_is_repeatable() {
    let (mut org, admin) = Vote::instantiate_vote("Test".to_string());
    let member = org.become_member(&admin).unwrap();
    org.new_vote(&admin, "One".to_string(), 1, T0).unwrap();
    org.vote(VoteChoice::Yes, &member, T0).unwrap();
    org.end_vote(T0 + 60).unwrap();
    org.new_vote(&admin, "Two".to_string(), 1, T0 + 60).unwrap();
    org.vote(VoteChoice::No, &member, T0 + 60).unwrap();
    org.end_vote(T0 + 120).unwrap();

    let first = org.vote_results().receipts();
    let second = org.vote_results().receipts();
    let third = org.vote_results().receipts();
    assert_eq!(first.len(), 2);
    assert_eq!(second.len(), 2);
    assert_eq!(third.len(), 2);
    for i in 0..2 {
        assert_eq!(first[i].name, second[i].name);
        assert_eq!(first[i].yes_votes, second[i].yes_votes);
        assert_eq!(first[i].no_votes, second[i].no_votes);
        assert_eq!(first[i].end, second[i].end);
        assert_eq!(first[i].name, third[i].name);
    }
    assert_eq!(first[0].name, "One");
    assert_eq!(first[0].yes_votes, 1);
    assert_eq!(first[1].name, "Two");
    assert_eq!(first[1].no_votes, 1);
    assert_eq!(org.vote_results().len(), 2);
}
