use bizix::proposals::{Error, Event, Origin, Pallet, ProposalStatusEnum};

fn submitted(p: &mut Pallet, who: u64) -> u32 {
    p.submit_proposal(
        Origin::Signed(who),
        b"QmHash".to_vec(),
        b"app".to_vec(),
        b"1.0".to_vec(),
        77,
    )
    .unwrap()
}

#[test]
fn submit_assigns_sequential_ids() {
    let mut p = Pallet::new();
    assert_eq!(p.current_proposal_id(), 0);
    assert_eq!(p.proposal_count(), 0);
    assert_eq!(submitted(&mut p, 1), 0);
    assert_eq!(p.current_proposal_id(), 1);
    assert_eq!(submitted(&mut p, 2), 1);
    assert_eq!(submitted(&mut p, 3), 2);
    assert_eq!(p.current_proposal_id(), 3);
    assert_eq!(p.proposal_count(), 3);
    let ids: Vec<u32> = p
        .events()
        .iter()
        .filter_map(|e| match e {
            Event::ProposalSubmitted { proposal_id, .. } => Some(*proposal_id),
            _ => None,
        })
        .collect();
    assert_eq!(ids, vec![0, 1, 2]);
}

#[test]
fn submit_requires_signed_caller() {
    let mut p = Pallet::new();
    let r = p.submit_proposal(
        Origin::GovernanceAuthority,
        b"QmHash".to_vec(),
        b"app".to_vec(),
        b"1.0".to_vec(),
        77,
    );
    assert_eq!(r, Err(Error::Unauthorized));
    assert_eq!(p.proposal_count(), 0);
    assert_eq!(p.events().len(), 0);
}

#[test]
fn submit_stores_payload_and_new_status() {
    let mut p = Pallet::new();
    submitted(&mut p, 9);
    let stored = p.get_proposal(0).unwrap();
    assert_eq!(stored.proposer, 9);
    assert_eq!(stored.ipfs_address, b"QmHash".to_vec());
    assert_eq!(stored.name, b"app".to_vec());
    assert_eq!(stored.version, b"1.0".to_vec());
    assert_eq!(stored.template_id, 77);
    assert_eq!(stored.status, ProposalStatusEnum::New);
    assert!(p.get_proposal(1).is_none());
}

#[test]
fn approve_via_tally_scenario() {
    let mut p = Pallet::new();
    assert_eq!(submitted(&mut p, 1), 0);
    assert_eq!(p.current_proposal_id(), 1);
    assert_eq!(
        p.get_proposal(0).unwrap().status,
        ProposalStatusEnum::New
    );

    let r = p.change_proposal_status(
        Origin::GovernanceAuthority,
        0,
        ProposalStatusEnum::InDiscussion,
    );
    assert_eq!(r, Ok(()));
    assert_eq!(
        p.get_proposal(0).unwrap().status,
        ProposalStatusEnum::InDiscussion
    );

    let r = p.vote_on_proposal(Origin::Signed(5), 0, true);
    assert_eq!(r, Ok(()));
    assert_eq!(p.tally(0), 1);

    let r = p.vote_on_proposal(Origin::Signed(5), 0, true);
    assert_eq!(r, Err(Error::AlreadyVoted));
    assert_eq!(p.tally(0), 1);

    let r = p.close_voting(Origin::GovernanceAuthority, 0);
    assert_eq!(r, Ok(()));
    assert_eq!(
        p.get_proposal(0).unwrap().status,
        ProposalStatusEnum::Approved
    );
    let last = p.events().last().unwrap();
    assert!(matches!(last, Event::ProposalApproved { proposal_id: 0, who: 1, .. }));
}

#[test]
fn rejected_when_no_votes() {
    let mut p = Pallet::new();
    submitted(&mut p, 1);
    let r = p.change_proposal_status(
        Origin::GovernanceAuthority,
        0,
        ProposalStatusEnum::InDiscussion,
    );
    assert_eq!(r, Ok(()));
    let r = p.close_voting(Origin::GovernanceAuthority, 0);
    assert_eq!(r, Ok(()));
    assert_eq!(
        p.get_proposal(0).unwrap().status,
        ProposalStatusEnum::Rejected
    );
    let last = p.events().last().unwrap();
    assert_eq!(last, &Event::ProposalRejected { proposal_id: 0 });
}

#[test]
fn override_approve_on_fresh_proposal() {
    let mut p = Pallet::new();
    submitted(&mut p, 1);
    let r = p.approve_proposal(Origin::Signed(2), 0);
    assert_eq!(r, Ok(()));
    assert_eq!(
        p.get_proposal(0).unwrap().status,
        ProposalStatusEnum::Approved
    );
    let last = p.events().last().unwrap();
    assert!(matches!(last, Event::ProposalApproved { proposal_id: 0, who: 1, .. }));
}

#[test]
fn override_reject_on_fresh_proposal() {
    let mut p = Pallet::new();
    submitted(&mut p, 1);
    let r = p.reject_proposal(Origin::Signed(2), 0);
    assert_eq!(r, Ok(()));
    assert_eq!(
        p.get_proposal(0).unwrap().status,
        ProposalStatusEnum::Rejected
    );
    let last = p.events().last().unwrap();
    assert_eq!(last, &Event::ProposalRejected { proposal_id: 0 });
}

#[test]
fn override_paths_unknown_id() {
    let mut p = Pallet::new();
    assert_eq!(p.approve_proposal(Origin::Signed(2), 4), Err(Error::ProposalNotFound));
    assert_eq!(p.reject_proposal(Origin::Signed(2), 4), Err(Error::ProposalNotFound));
}

#[test]
fn negative_vote_not_recorded_and_not_blocking() {
    let mut p = Pallet::new();
    submitted(&mut p, 1);
    let r = p.change_proposal_status(
        Origin::GovernanceAuthority,
        0,
        ProposalStatusEnum::InDiscussion,
    );
    assert_eq!(r, Ok(()));
    let r = p.vote_on_proposal(Origin::Signed(5), 0, false);
    assert_eq!(r, Ok(()));
    assert_eq!(p.tally(0), 0);
    let r = p.vote_on_proposal(Origin::Signed(5), 0, true);
    assert_eq!(r, Ok(()));
    assert_eq!(p.tally(0), 1);
}

#[test]
fn vote_error_paths() {
    let mut p = Pallet::new();
    submitted(&mut p, 1);
    assert_eq!(
        p.vote_on_proposal(Origin::GovernanceAuthority, 0, true),
        Err(Error::Unauthorized)
    );
    assert_eq!(
        p.vote_on_proposal(Origin::Signed(5), 3, true),
        Err(Error::ProposalNotFound)
    );
    assert_eq!(
        p.vote_on_proposal(Origin::Signed(5), 0, true),
        Err(Error::InvalidProposalStatus)
    );
    assert_eq!(p.tally(0), 0);
}

#[test]
fn two_voters_meet_threshold() {
    let mut p = Pallet::new();
    submitted(&mut p, 1);
    let r = p.change_proposal_status(
        Origin::GovernanceAuthority,
        0,
        ProposalStatusEnum::InDiscussion,
    );
    assert_eq!(r, Ok(()));
    assert_eq!(p.vote_on_proposal(Origin::Signed(5), 0, true), Ok(()));
    assert_eq!(p.vote_on_proposal(Origin::Signed(6), 0, true), Ok(()));
    assert_eq!(p.tally(0), 2);
    assert_eq!(p.close_voting(Origin::GovernanceAuthority, 0), Ok(()));
    assert_eq!(
        p.get_proposal(0).unwrap().status,
        ProposalStatusEnum::Approved
    );
}

#[test]
fn close_voting_error_paths() {
    let mut p = Pallet::new();
    submitted(&mut p, 1);
    assert_eq!(
        p.close_voting(Origin::Signed(5), 0),
        Err(Error::Unauthorized)
    );
    assert_eq!(
        p.close_voting(Origin::GovernanceAuthority, 3),
        Err(Error::ProposalNotFound)
    );
    assert_eq!(
        p.close_voting(Origin::GovernanceAuthority, 0),
        Err(Error::InvalidProposalStatus)
    );
    assert_eq!(
        p.get_proposal(0).unwrap().status,
        ProposalStatusEnum::New
    );
    let r = p.approve_proposal(Origin::Signed(1), 0);
    assert_eq!(r, Ok(()));
    assert_eq!(
        p.close_voting(Origin::GovernanceAuthority, 0),
        Err(Error::InvalidProposalStatus)
    );
}

#[test]
fn change_status_permits_only_new_to_in_discussion() {
    let mut p = Pallet::new();
    submitted(&mut p, 1);
    assert_eq!(
        p.change_proposal_status(Origin::Signed(5), 0, ProposalStatusEnum::InDiscussion),
        Err(Error::Unauthorized)
    );
    assert_eq!(
        p.change_proposal_status(
            Origin::GovernanceAuthority,
            3,
            ProposalStatusEnum::InDiscussion
        ),
        Err(Error::ProposalNotFound)
    );
    assert_eq!(
        p.change_proposal_status(Origin::GovernanceAuthority, 0, ProposalStatusEnum::Approved),
        Err(Error::InvalidProposalStatus)
    );
    assert_eq!(
        p.change_proposal_status(Origin::GovernanceAuthority, 0, ProposalStatusEnum::Rejected),
        Err(Error::InvalidProposalStatus)
    );
    assert_eq!(
        p.change_proposal_status(Origin::GovernanceAuthority, 0, ProposalStatusEnum::New),
        Err(Error::InvalidProposalStatus)
    );
    assert_eq!(p.get_proposal(0).unwrap().status, ProposalStatusEnum::New);

    assert_eq!(
        p.change_proposal_status(
            Origin::GovernanceAuthority,
            0,
            ProposalStatusEnum::InDiscussion
        ),
        Ok(())
    );
    let last = p.events().last().unwrap();
    assert_eq!(
        last,
        &Event::ProposalStatusChanged {
            proposal_id: 0,
            old_status: ProposalStatusEnum::New,
            new_status: ProposalStatusEnum::InDiscussion,
        }
    );

    assert_eq!(
        p.change_proposal_status(Origin::GovernanceAuthority, 0, ProposalStatusEnum::Approved),
        Err(Error::InvalidProposalStatus)
    );
    assert_eq!(
        p.change_proposal_status(
            Origin::GovernanceAuthority,
            0,
            ProposalStatusEnum::InDiscussion
        ),
        Err(Error::InvalidProposalStatus)
    );
    assert_eq!(
        p.get_proposal(0).unwrap().status,
        ProposalStatusEnum::InDiscussion
    );
}

#[test]
fn payload_immutable_after_lifecycle() {
    let mut p = Pallet::new();
    submitted(&mut p, 9);
    let r = p.change_proposal_status(
        Origin::GovernanceAuthority,
        0,
        ProposalStatusEnum::InDiscussion,
    );
    assert_eq!(r, Ok(()));
    assert_eq!(p.vote_on_proposal(Origin::Signed(5), 0, true), Ok(()));
    assert_eq!(p.close_voting(Origin::GovernanceAuthority, 0), Ok(()));
    let stored = p.get_proposal(0).unwrap();
    assert_eq!(stored.proposer, 9);
    assert_eq!(stored.ipfs_address, b"QmHash".to_vec());
    assert_eq!(stored.name, b"app".to_vec());
    assert_eq!(stored.version, b"1.0".to_vec());
    assert_eq!(stored.template_id, 77);
}

#[test]
fn proposals_by_status_filters_and_keeps_order() {
    let mut p = Pallet::new();
    submitted(&mut p, 1);
    submitted(&mut p, 2);
    submitted(&mut p, 3);
    assert_eq!(p.approve_proposal(Origin::Signed(1), 1), Ok(()));

    let news = p
        .get_proposals_by_status(Origin::Signed(4), ProposalStatusEnum::New)
        .unwrap();
    let ids: Vec<u32> = news.iter().map(|(id, _)| *id).collect();
    assert_eq!(ids, vec![0, 2]);
    assert_eq!(news[0].1.proposer, 1);
    assert_eq!(news[1].1.proposer, 3);

    let approved = p
        .get_proposals_by_status(Origin::Signed(4), ProposalStatusEnum::Approved)
        .unwrap();
    assert_eq!(approved.len(), 1);
    assert_eq!(approved[0].0, 1);
    assert_eq!(approved[0].1.status, ProposalStatusEnum::Approved);

    let rejected = p
        .get_proposals_by_status(Origin::Signed(4), ProposalStatusEnum::Rejected)
        .unwrap();
    assert!(rejected.is_empty());

    assert_eq!(
        p.get_proposals_by_status(Origin::GovernanceAuthority, ProposalStatusEnum::New),
        Err(Error::Unauthorized)
    );
}

#[test]
fn event_log_records_full_history_in_order() {
    let mut p = Pallet::new();
    submitted(&mut p, 1);
    let r = p.change_proposal_status(
        Origin::GovernanceAuthority,
        0,
        ProposalStatusEnum::InDiscussion,
    );
    assert_eq!(r, Ok(()));
    assert_eq!(p.vote_on_proposal(Origin::Signed(5), 0, true), Ok(()));
    assert_eq!(p.close_voting(Origin::GovernanceAuthority, 0), Ok(()));

    let events = p.events();
    assert_eq!(events.len(), 3);
    assert!(matches!(
        events[0],
        Event::ProposalSubmitted { proposal_id: 0, who: 1, .. }
    ));
    assert!(matches!(
        events[1],
        Event::ProposalStatusChanged {
            proposal_id: 0,
            old_status: ProposalStatusEnum::New,
            new_status: ProposalStatusEnum::InDiscussion,
        }
    ));
    assert!(matches!(
        events[2],
        Event::ProposalApproved { proposal_id: 0, who: 1, .. }
    ));
}
