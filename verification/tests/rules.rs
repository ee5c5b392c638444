use geev_core::rules::{
    admit_entry, created_notice, decide_creation, decide_distribution, decide_entry,
    decide_payout, escrow_order, open_giveaway, payout_order, settle_payout,
};
use geev_core::types::{
    Authorization, Error, Giveaway, GiveawayStatus, Identity, IdentityKind, Notice, Settlement,
    Transfer,
};

fn party(n: u128) -> Identity {
    Identity { kind: IdentityKind::Account, hi: n, lo: !n }
}

fn record(status: GiveawayStatus, winner: Option<Identity>) -> Giveaway {
    Giveaway {
        id: 4,
        status,
        creator: party(1),
        token: party(2),
        amount: 77,
        end_time: 500,
        participant_count: 3,
        winner,
    }
}

#[test]
fn open_giveaway_builds_an_active_record_under_the_next_id() {
    assert_eq!(
        open_giveaway(41, party(1), party(2), -3, 0),
        Giveaway {
            id: 42,
            status: GiveawayStatus::Active,
            creator: party(1),
            token: party(2),
            amount: -3,
            end_time: 0,
            participant_count: 0,
            winner: None,
        }
    );
    assert_eq!(open_giveaway(u64::MAX - 1, party(1), party(2), 1, 1).id, u64::MAX);
}

#[test]
fn escrow_order_moves_from_creator_into_custody() {
    assert_eq!(
        escrow_order(party(9), party(1), party(2), 100, Authorization::Granted),
        Ok(Transfer { from: party(1), to: party(9), token: party(2), amount: 100 })
    );
}

#[test]
fn escrow_order_places_nothing_without_authorization() {
    assert_eq!(
        escrow_order(party(9), party(1), party(2), 100, Authorization::Denied),
        Err(Error::AuthorizationFailure)
    );
}

#[test]
fn created_notice_carries_id_creator_amount_and_token() {
    assert_eq!(
        created_notice(&record(GiveawayStatus::Active, None)),
        Notice::GiveawayCreated { id: 4, creator: party(1), amount: 77, token: party(2) }
    );
}

#[test]
fn admit_entry_decides_by_deadline_then_flag() {
    let r = record(GiveawayStatus::Active, None);
    assert_eq!(admit_entry(&r, 499, false), Ok(Giveaway { participant_count: 4, ..r }));
    assert_eq!(admit_entry(&r, 500, false), Ok(Giveaway { participant_count: 4, ..r }));
    assert_eq!(admit_entry(&r, 501, false), Err(Error::Expired));
    assert_eq!(admit_entry(&r, 501, true), Err(Error::Expired));
    assert_eq!(admit_entry(&r, 500, true), Err(Error::DuplicateEntry));
}

#[test]
fn admit_entry_refuses_a_record_that_is_not_active() {
    for status in [GiveawayStatus::Ended, GiveawayStatus::Claimable, GiveawayStatus::Completed] {
        let r = record(status, None);
        assert_eq!(admit_entry(&r, 1, false), Err(Error::NotActive));
        assert_eq!(admit_entry(&r, 500, false), Err(Error::NotActive));
        assert_eq!(admit_entry(&r, 500, true), Err(Error::DuplicateEntry));
        assert_eq!(admit_entry(&r, 501, false), Err(Error::Expired));
        assert_eq!(admit_entry(&r, 501, true), Err(Error::Expired));
    }
}

#[test]
fn payout_order_is_due_only_when_claimable_with_winner() {
    assert_eq!(payout_order(&record(GiveawayStatus::Active, Some(party(5))), party(9)), Err(Error::NotClaimable));
    assert_eq!(payout_order(&record(GiveawayStatus::Ended, Some(party(5))), party(9)), Err(Error::NotClaimable));
    assert_eq!(payout_order(&record(GiveawayStatus::Completed, Some(party(5))), party(9)), Err(Error::NotClaimable));
    assert_eq!(payout_order(&record(GiveawayStatus::Completed, None), party(9)), Err(Error::NotClaimable));
    assert_eq!(payout_order(&record(GiveawayStatus::Claimable, None), party(9)), Err(Error::NoWinner));
    assert_eq!(
        payout_order(&record(GiveawayStatus::Claimable, Some(party(5))), party(9)),
        Ok(Transfer { from: party(9), to: party(5), token: party(2), amount: 77 })
    );
}

#[test]
fn settle_payout_completes_only_a_settled_claimable_record() {
    let r = record(GiveawayStatus::Claimable, Some(party(5)));
    assert_eq!(
        settle_payout(&r, Settlement::Settled),
        Ok((
            Giveaway { status: GiveawayStatus::Completed, ..r },
            Notice::PrizeClaimed { id: 4, winner: party(5), amount: 77 },
        ))
    );
    assert_eq!(settle_payout(&r, Settlement::Failed), Err(Error::TransferFailure));
    assert_eq!(settle_payout(&record(GiveawayStatus::Claimable, None), Settlement::Settled), Err(Error::NoWinner));
    assert_eq!(settle_payout(&record(GiveawayStatus::Claimable, None), Settlement::Failed), Err(Error::NoWinner));
    assert_eq!(settle_payout(&record(GiveawayStatus::Active, Some(party(5))), Settlement::Settled), Err(Error::NotClaimable));
    assert_eq!(settle_payout(&record(GiveawayStatus::Completed, Some(party(5))), Settlement::Settled), Err(Error::NotClaimable));
    assert_eq!(settle_payout(&record(GiveawayStatus::Completed, Some(party(5))), Settlement::Failed), Err(Error::NotClaimable));
}

#[test]
fn decide_creation_asks_for_authorization_then_escrow() {
    assert_eq!(
        decide_creation(0, party(1), party(2), 100, 9, Authorization::Granted, Settlement::Settled),
        Ok((
            Giveaway {
                id: 1,
                status: GiveawayStatus::Active,
                creator: party(1),
                token: party(2),
                amount: 100,
                end_time: 9,
                participant_count: 0,
                winner: None,
            },
            Notice::GiveawayCreated { id: 1, creator: party(1), amount: 100, token: party(2) },
        ))
    );
    assert_eq!(
        decide_creation(0, party(1), party(2), 100, 9, Authorization::Denied, Settlement::Settled),
        Err(Error::AuthorizationFailure)
    );
    assert_eq!(
        decide_creation(0, party(1), party(2), 100, 9, Authorization::Denied, Settlement::Failed),
        Err(Error::AuthorizationFailure)
    );
    assert_eq!(
        decide_creation(u64::MAX, party(1), party(2), 100, 9, Authorization::Granted, Settlement::Failed),
        Err(Error::TransferFailure)
    );
}

#[test]
fn decide_entry_checks_in_order() {
    let r = record(GiveawayStatus::Active, None);
    assert_eq!(decide_entry(Some(r), 500, false, Authorization::Granted), Ok(Giveaway { participant_count: 4, ..r }));
    assert_eq!(decide_entry(Some(r), 500, false, Authorization::Denied), Err(Error::AuthorizationFailure));
    assert_eq!(decide_entry(None, 500, false, Authorization::Denied), Err(Error::AuthorizationFailure));
    assert_eq!(decide_entry(None, 500, false, Authorization::Granted), Err(Error::NotFound));
    assert_eq!(decide_entry(Some(r), 501, true, Authorization::Granted), Err(Error::Expired));
    assert_eq!(decide_entry(Some(r), 500, true, Authorization::Granted), Err(Error::DuplicateEntry));
    assert_eq!(
        decide_entry(Some(record(GiveawayStatus::Ended, None)), 500, false, Authorization::Granted),
        Err(Error::NotActive)
    );
}

#[test]
fn decide_payout_and_distribution_need_a_record() {
    assert_eq!(decide_payout(None, party(9)), Err(Error::NotFound));
    assert_eq!(decide_distribution(None, Settlement::Settled), Err(Error::NotFound));
    let r = record(GiveawayStatus::Claimable, Some(party(5)));
    assert_eq!(
        decide_payout(Some(r), party(9)),
        Ok(Transfer { from: party(9), to: party(5), token: party(2), amount: 77 })
    );
    assert_eq!(
        decide_distribution(Some(r), Settlement::Settled),
        Ok((
            Giveaway { status: GiveawayStatus::Completed, ..r },
            Notice::PrizeClaimed { id: 4, winner: party(5), amount: 77 },
        ))
    );
    assert_eq!(decide_distribution(Some(r), Settlement::Failed), Err(Error::TransferFailure));
    assert_eq!(decide_payout(Some(record(GiveawayStatus::Ended, Some(party(5)))), party(9)), Err(Error::NotClaimable));
    assert_eq!(decide_distribution(Some(record(GiveawayStatus::Claimable, None)), Settlement::Settled), Err(Error::NoWinner));
}
