//! The lifecycle rules on a single record. Each function decides from plain
//! values what an operation does to one giveaway. The `decide_` functions
//! take a whole operation from what was read to what is to be written; the
//! registry and a host that keeps the records in a store of its own both go
//! through them.

use vstd::prelude::*;
use crate::types::{
    Authorization, Error, Giveaway, GiveawayStatus, Identity, Notice, Settlement, Transfer,
};

verus! {

/// The record of a giveaway that has just been created under `id`.
pub open spec fn fresh_record(
    id: u64,
    creator: Identity,
    token: Identity,
    amount: i128,
    end_time: u64,
) -> Giveaway {
    Giveaway {
        id,
        status: GiveawayStatus::Active,
        creator,
        token,
        amount,
        end_time,
        participant_count: 0,
        winner: None,
    }
}

/// The order that locks a prize: `amount` of `token` from the creator into
/// custody.
pub open spec fn escrow_of(custody: Identity, creator: Identity, token: Identity, amount: i128)
    -> Transfer {
    Transfer { from: creator, to: custody, token, amount }
}

/// The order to place before a creation: none without authorization.
pub open spec fn escrow_outcome(
    custody: Identity,
    creator: Identity,
    token: Identity,
    amount: i128,
    auth: Authorization,
) -> Result<Transfer, Error> {
    if auth == Authorization::Denied {
        Err(Error::AuthorizationFailure)
    } else {
        Ok(escrow_of(custody, creator, token, amount))
    }
}

/// What a creation does after `count` issued ids: refused without
/// authorization, then where the escrow transfer failed; otherwise the fresh
/// record under the next id, with the notice to publish.
pub open spec fn creation_outcome(
    count: nat,
    creator: Identity,
    token: Identity,
    amount: i128,
    end_time: u64,
    auth: Authorization,
    escrow: Settlement,
) -> Result<(Giveaway, Notice), Error> {
    if auth == Authorization::Denied {
        Err(Error::AuthorizationFailure)
    } else if escrow == Settlement::Failed {
        Err(Error::TransferFailure)
    } else {
        let record = fresh_record((count + 1) as u64, creator, token, amount, end_time);
        Ok((record, created_notice_of(record)))
    }
}

/// What an entry does, given what the store holds under the giveaway's id:
/// refused without authorization, then with `NotFound` where there is no
/// record; otherwise as `entry_outcome` decides.
pub open spec fn registration_outcome(
    record: Option<Giveaway>,
    now: u64,
    already_entered: bool,
    auth: Authorization,
) -> Result<Giveaway, Error> {
    if auth == Authorization::Denied {
        Err(Error::AuthorizationFailure)
    } else {
        match record {
            None => Err(Error::NotFound),
            Some(found) => entry_outcome(found, now, already_entered),
        }
    }
}

/// The transfer that distribution asks for, given what the store holds under
/// the giveaway's id.
pub open spec fn due_payout(record: Option<Giveaway>, custody: Identity) -> Result<
    Transfer,
    Error,
> {
    match record {
        None => Err(Error::NotFound),
        Some(found) => payout_of(found, custody),
    }
}

/// What distribution does, given what the store holds under the giveaway's
/// id and how the payout went.
pub open spec fn distribution_outcome(record: Option<Giveaway>, payout: Settlement) -> Result<
    (Giveaway, Notice),
    Error,
> {
    match record {
        None => Err(Error::NotFound),
        Some(found) => settlement_outcome(found, payout),
    }
}

/// The notice that announces a newly created giveaway.
pub open spec fn created_notice_of(record: Giveaway) -> Notice {
    Notice::GiveawayCreated {
        id: record.id,
        creator: record.creator,
        amount: record.amount,
        token: record.token,
    }
}

/// What an entry at time `now` does to `record`, given whether the
/// participant already holds a flag for it: the record with one more
/// participant, or the reason for refusing. The deadline is looked at first
/// and the flag second, so that a late entry is always `Expired` and a
/// repeated one in time always `DuplicateEntry`; an entry that passes both
/// is still refused, with `NotActive`, unless the giveaway is `Active`.
pub open spec fn entry_outcome(record: Giveaway, now: u64, already_entered: bool) -> Result<
    Giveaway,
    Error,
> {
    if now > record.end_time {
        Err(Error::Expired)
    } else if already_entered {
        Err(Error::DuplicateEntry)
    } else if record.status != GiveawayStatus::Active {
        Err(Error::NotActive)
    } else {
        Ok(
            Giveaway {
                participant_count: (record.participant_count + 1) as u32,
                ..record
            },
        )
    }
}

/// The order that pays `record` out of custody, or the reason why nothing is
/// due.
pub open spec fn payout_of(record: Giveaway, custody: Identity) -> Result<Transfer, Error> {
    if record.status != GiveawayStatus::Claimable {
        Err(Error::NotClaimable)
    } else {
        match record.winner {
            None => Err(Error::NoWinner),
            Some(winner) => Ok(
                Transfer { from: custody, to: winner, token: record.token, amount: record.amount },
            ),
        }
    }
}

/// What settling the payout does to `record`: the completed record with the
/// notice to publish, or the reason why the record stays as it is.
pub open spec fn settlement_outcome(record: Giveaway, payout: Settlement) -> Result<
    (Giveaway, Notice),
    Error,
> {
    if record.status != GiveawayStatus::Claimable {
        Err(Error::NotClaimable)
    } else {
        match record.winner {
            None => Err(Error::NoWinner),
            Some(winner) => if payout == Settlement::Failed {
                Err(Error::TransferFailure)
            } else {
                Ok(
                    (
                        Giveaway { status: GiveawayStatus::Completed, ..record },
                        Notice::PrizeClaimed { id: record.id, winner, amount: record.amount },
                    ),
                )
            },
        }
    }
}

/// Builds the record of the giveaway that follows `count` issued ids.
pub fn open_giveaway(count: u64, creator: Identity, token: Identity, amount: i128, end_time: u64)
    -> (record: Giveaway)
    requires
        count < u64::MAX,
    ensures
        record == fresh_record((count + 1) as u64, creator, token, amount, end_time),
{
    Giveaway {
        id: count + 1,
        status: GiveawayStatus::Active,
        creator,
        token,
        amount,
        end_time,
        participant_count: 0,
        winner: None,
    }
}

/// The transfer that the host makes before a giveaway is created, once it
/// knows whether `creator` is authorized: none is placed without
/// authorization.
pub fn escrow_order(
    custody: Identity,
    creator: Identity,
    token: Identity,
    amount: i128,
    auth: Authorization,
) -> (order: Result<Transfer, Error>)
    ensures
        order == escrow_outcome(custody, creator, token, amount, auth),
{
    match auth {
        Authorization::Denied => Err(Error::AuthorizationFailure),
        Authorization::Granted => Ok(Transfer { from: creator, to: custody, token, amount }),
    }
}

/// The notice to publish for a newly created giveaway.
pub fn created_notice(record: &Giveaway) -> (notice: Notice)
    ensures
        notice == created_notice_of(*record),
{
    Notice::GiveawayCreated {
        id: record.id,
        creator: record.creator,
        amount: record.amount,
        token: record.token,
    }
}

/// Decides an entry into `record` at time `now`. Entry is refused with
/// `Expired` once `now` exceeds the end time, else with `DuplicateEntry` where
/// the participant has entered before, else with `NotActive` where the
/// giveaway is no longer `Active`; otherwise the record comes back with its
/// participant count raised by one.
pub fn admit_entry(record: &Giveaway, now: u64, already_entered: bool) -> (verdict: Result<
    Giveaway,
    Error,
>)
    requires
        entry_outcome(*record, now, already_entered) is Ok ==> record.participant_count < u32::MAX,
    ensures
        verdict == entry_outcome(*record, now, already_entered),
{
    if now > record.end_time {
        return Err(Error::Expired);
    }
    if already_entered {
        return Err(Error::DuplicateEntry);
    }
    match record.status {
        GiveawayStatus::Active => {
            let mut updated: Giveaway = *record;
            updated.participant_count = record.participant_count + 1;
            Ok(updated)
        },
        _ => Err(Error::NotActive),
    }
}

/// The transfer that distribution of `record` asks of the host, if one is
/// due: the recorded amount of the recorded token, from custody to the winner.
pub fn payout_order(record: &Giveaway, custody: Identity) -> (order: Result<Transfer, Error>)
    ensures
        order == payout_of(*record, custody),
{
    match record.status {
        GiveawayStatus::Claimable => match record.winner {
            None => Err(Error::NoWinner),
            Some(winner) => Ok(
                Transfer { from: custody, to: winner, token: record.token, amount: record.amount },
            ),
        },
        _ => Err(Error::NotClaimable),
    }
}

/// Completes `record` once the host reports how the payout went. The record
/// becomes `Completed` only if it was `Claimable`, names a winner and the
/// transfer settled.
pub fn settle_payout(record: &Giveaway, payout: Settlement) -> (verdict: Result<
    (Giveaway, Notice),
    Error,
>)
    ensures
        verdict == settlement_outcome(*record, payout),
{
    match record.status {
        GiveawayStatus::Claimable => match record.winner {
            None => Err(Error::NoWinner),
            Some(winner) => match payout {
                Settlement::Failed => Err(Error::TransferFailure),
                Settlement::Settled => {
                    let mut updated: Giveaway = *record;
                    updated.status = GiveawayStatus::Completed;
                    Ok(
                        (
                            updated,
                            Notice::PrizeClaimed { id: record.id, winner, amount: record.amount },
                        ),
                    )
                },
            },
        },
        _ => Err(Error::NotClaimable),
    }
}

/// Decides a creation after `count` issued ids, from what the host's
/// authorization and the escrow transfer reported.
pub fn decide_creation(
    count: u64,
    creator: Identity,
    token: Identity,
    amount: i128,
    end_time: u64,
    auth: Authorization,
    escrow: Settlement,
) -> (verdict: Result<(Giveaway, Notice), Error>)
    requires
        auth == Authorization::Granted && escrow == Settlement::Settled ==> count < u64::MAX,
    ensures
        verdict == creation_outcome(count as nat, creator, token, amount, end_time, auth, escrow),
{
    match auth {
        Authorization::Denied => { return Err(Error::AuthorizationFailure); },
        Authorization::Granted => {},
    }
    match escrow {
        Settlement::Failed => { return Err(Error::TransferFailure); },
        Settlement::Settled => {},
    }
    let record = open_giveaway(count, creator, token, amount, end_time);
    let notice = created_notice(&record);
    Ok((record, notice))
}

/// Decides an entry from what the store holds under the giveaway's id and
/// under the participant's flag.
pub fn decide_entry(
    record: Option<Giveaway>,
    now: u64,
    already_entered: bool,
    auth: Authorization,
) -> (verdict: Result<Giveaway, Error>)
    requires
        registration_outcome(record, now, already_entered, auth) is Ok ==> record->Some_0.participant_count
            < u32::MAX,
    ensures
        verdict == registration_outcome(record, now, already_entered, auth),
{
    match auth {
        Authorization::Denied => { return Err(Error::AuthorizationFailure); },
        Authorization::Granted => {},
    }
    match record {
        None => Err(Error::NotFound),
        Some(found) => admit_entry(&found, now, already_entered),
    }
}

/// Names the transfer that distribution asks of the host, from what the
/// store holds under the giveaway's id.
pub fn decide_payout(record: Option<Giveaway>, custody: Identity) -> (order: Result<
    Transfer,
    Error,
>)
    ensures
        order == due_payout(record, custody),
{
    match record {
        None => Err(Error::NotFound),
        Some(found) => payout_order(&found, custody),
    }
}

/// Decides a distribution from what the store holds under the giveaway's id
/// and from what the token service reported for the payout.
pub fn decide_distribution(record: Option<Giveaway>, payout: Settlement) -> (verdict: Result<
    (Giveaway, Notice),
    Error,
>)
    ensures
        verdict == distribution_outcome(record, payout),
{
    match record {
        None => Err(Error::NotFound),
        Some(found) => settle_payout(&found, payout),
    }
}

} // verus!
