//! The lifecycle operations on the registry: creation, entry, the two steps
//! of the outside authority, and distribution.
//!
//! Each operation is all or nothing: it either returns `Ok` and changes the
//! registry as its step function says, or returns the error and leaves the
//! registry as it was.

use vstd::prelude::*;
use crate::laws::{step_follows, Operation};
use crate::registry::{Registry, RegistryState};
use crate::rules::{
    creation_outcome, decide_creation, decide_distribution, decide_entry, decide_payout,
    distribution_outcome, due_payout, escrow_order, escrow_outcome, registration_outcome,
};
use crate::types::{
    Authorization, Created, Error, Giveaway, GiveawayStatus, Identity, Notice, Settlement,
    Transfer,
};

verus! {

/// Creation as a step on the state: refused without authorization or where
/// the escrow transfer failed; otherwise the counter advances by one and the
/// fresh record is stored under the new id.
pub open spec fn create_step(
    s: RegistryState,
    creator: Identity,
    token: Identity,
    amount: i128,
    end_time: u64,
    auth: Authorization,
    escrow: Settlement,
) -> (RegistryState, Result<Created, Error>) {
    match creation_outcome(s.count, creator, token, amount, end_time, auth, escrow) {
        Err(e) => (s, Err(e)),
        Ok(made) => (
            RegistryState {
                count: s.count + 1,
                giveaways: s.giveaways.insert(made.0.id, made.0),
                ..s
            },
            Ok(Created { id: made.0.id, notice: made.1 }),
        ),
    }
}

/// The transfer to place before a creation in state `s`: the amount from the
/// creator into custody, and none without authorization.
pub open spec fn escrow_due(
    s: RegistryState,
    creator: Identity,
    token: Identity,
    amount: i128,
    auth: Authorization,
) -> Result<Transfer, Error> {
    escrow_outcome(s.custody, creator, token, amount, auth)
}

/// Entry as a step on the state. The checks come in this order:
/// authorization, existence of the giveaway, the deadline, the flag, the
/// status.
pub open spec fn enter_step(
    s: RegistryState,
    user: Identity,
    giveaway_id: u64,
    now: u64,
    auth: Authorization,
) -> (RegistryState, Result<(), Error>) {
    match registration_outcome(
        s.record(giveaway_id),
        now,
        s.has_entered(giveaway_id, user),
        auth,
    ) {
        Err(e) => (s, Err(e)),
        Ok(record) => (
            RegistryState {
                giveaways: s.giveaways.insert(giveaway_id, record),
                entered: s.entered.insert((giveaway_id, user)),
                ..s
            },
            Ok(()),
        ),
    }
}

/// The transfer that distribution of giveaway `giveaway_id` asks for in state
/// `s`, or the reason why none is due.
pub open spec fn payout_due(s: RegistryState, giveaway_id: u64) -> Result<Transfer, Error> {
    due_payout(s.record(giveaway_id), s.custody)
}

/// Distribution as a step on the state: the record becomes `Completed` where
/// a payout was due and the transfer settled.
pub open spec fn distribute_step(s: RegistryState, giveaway_id: u64, payout: Settlement) -> (
    RegistryState,
    Result<Notice, Error>,
) {
    match distribution_outcome(s.record(giveaway_id), payout) {
        Err(e) => (s, Err(e)),
        Ok(done) => (
            RegistryState { giveaways: s.giveaways.insert(giveaway_id, done.0), ..s },
            Ok(done.1),
        ),
    }
}

/// Closing entry as a step on the state: `Active` becomes `Ended`.
pub open spec fn close_step(s: RegistryState, giveaway_id: u64) -> (RegistryState, Result<(), Error>) {
    if !s.has_giveaway(giveaway_id) {
        (s, Err(Error::NotFound))
    } else if s.giveaways[giveaway_id].status != GiveawayStatus::Active {
        (s, Err(Error::NotActive))
    } else {
        let record = Giveaway { status: GiveawayStatus::Ended, ..s.giveaways[giveaway_id] };
        (RegistryState { giveaways: s.giveaways.insert(giveaway_id, record), ..s }, Ok(()))
    }
}

/// Designating the winner as a step on the state: `Ended` becomes
/// `Claimable`, with the winner as given.
pub open spec fn designate_step(s: RegistryState, giveaway_id: u64, winner: Option<Identity>) -> (
    RegistryState,
    Result<(), Error>,
) {
    if !s.has_giveaway(giveaway_id) {
        (s, Err(Error::NotFound))
    } else if s.giveaways[giveaway_id].status != GiveawayStatus::Ended {
        (s, Err(Error::NotEnded))
    } else {
        let record = Giveaway {
            status: GiveawayStatus::Claimable,
            winner,
            ..s.giveaways[giveaway_id]
        };
        (RegistryState { giveaways: s.giveaways.insert(giveaway_id, record), ..s }, Ok(()))
    }
}

/// Whether the counter can issue the id that this creation would take: a
/// creation that goes through needs the counter below its type's maximum.
pub open spec fn creation_fits(s: RegistryState, auth: Authorization, escrow: Settlement) -> bool {
    auth == Authorization::Granted && escrow == Settlement::Settled ==> s.count < u64::MAX
}

/// Whether the participant count can take the entry: an entry that is
/// admitted needs the count below its type's maximum.
pub open spec fn entry_fits(
    s: RegistryState,
    user: Identity,
    giveaway_id: u64,
    now: u64,
    auth: Authorization,
) -> bool {
    enter_step(s, user, giveaway_id, now, auth).1 is Ok ==> s.giveaways[giveaway_id].participant_count
        < u32::MAX
}

/// Creates a giveaway for `amount` of `token`, locked by `creator` until it is
/// paid out. `auth` is what the host's authorization of `creator` reported,
/// `escrow` what the token service reported for the transfer that
/// `escrow_transfer` names. Returns the new id, one above the last id
/// issued, with the notice to publish.
pub fn create_giveaway(
    registry: &mut Registry,
    creator: Identity,
    token: Identity,
    amount: i128,
    end_time: u64,
    auth: Authorization,
    escrow: Settlement,
) -> (result: Result<Created, Error>)
    requires
        old(registry).wf(),
        creation_fits(old(registry)@, auth, escrow),
    ensures
        final(registry).wf(),
        (final(registry)@, result) == create_step(
            old(registry)@,
            creator,
            token,
            amount,
            end_time,
            auth,
            escrow,
        ),
{
    match decide_creation(registry.count(), creator, token, amount, end_time, auth, escrow) {
        Err(e) => Err(e),
        Ok((record, notice)) => {
            registry.append(record);
            proof {
                step_follows(
                    old(registry)@,
                    Operation::Create { creator, token, amount, end_time, auth, escrow },
                );
            }
            Ok(Created { id: record.id, notice })
        },
    }
}

/// The transfer that the host has to make before `create_giveaway`: `amount`
/// of `token` from `creator` into custody. Without authorization no transfer
/// is placed.
pub fn escrow_transfer(
    registry: &Registry,
    creator: Identity,
    token: Identity,
    amount: i128,
    auth: Authorization,
) -> (order: Result<Transfer, Error>)
    ensures
        order == escrow_due(registry@, creator, token, amount, auth),
        order == (if auth == Authorization::Denied {
            Err::<Transfer, Error>(Error::AuthorizationFailure)
        } else {
            Ok::<Transfer, Error>(
                Transfer { from: creator, to: registry@.custody, token, amount },
            )
        }),
{
    escrow_order(registry.custody(), creator, token, amount, auth)
}

/// Registers `user` for giveaway `giveaway_id` at time `now`. `auth` is what
/// the host's authorization of `user` reported. Fails with `NotFound` where
/// the giveaway does not exist, with `Expired` where `now` exceeds its end
/// time, with `DuplicateEntry` where `user` has entered it before, with
/// `NotActive` where entry has been closed; otherwise the flag is written and
/// the participant count rises by one.
pub fn enter_giveaway(
    registry: &mut Registry,
    user: Identity,
    giveaway_id: u64,
    now: u64,
    auth: Authorization,
) -> (result: Result<(), Error>)
    requires
        old(registry).wf(),
        entry_fits(old(registry)@, user, giveaway_id, now, auth),
    ensures
        final(registry).wf(),
        (final(registry)@, result) == enter_step(old(registry)@, user, giveaway_id, now, auth),
{
    let record = registry.get(giveaway_id);
    let already_entered = registry.has_entered(giveaway_id, user);
    match decide_entry(record, now, already_entered, auth) {
        Err(e) => Err(e),
        Ok(updated) => {
            registry.flag(giveaway_id, user);
            registry.replace(updated);
            proof {
                step_follows(old(registry)@, Operation::Enter { user, giveaway_id, now, auth });
            }
            Ok(())
        },
    }
}

/// The transfer that the host has to make before giveaway `giveaway_id` can
/// be completed: the escrowed amount, from custody to the winner. Fails as
/// `distribute_prize` does, and changes nothing.
pub fn prize_transfer(registry: &Registry, giveaway_id: u64) -> (order: Result<Transfer, Error>)
    requires
        registry.wf(),
    ensures
        order == payout_due(registry@, giveaway_id),
{
    decide_payout(registry.get(giveaway_id), registry.custody())
}

/// Completes giveaway `giveaway_id`. `payout` is what the token service
/// reported for the transfer that `prize_transfer` names. Fails with
/// `NotFound` where the giveaway does not exist, with `NotClaimable` where
/// its status is not `Claimable`, with `NoWinner` where no winner is
/// recorded, with `TransferFailure` where the transfer failed; otherwise the
/// status becomes `Completed` and the notice to publish is returned.
pub fn distribute_prize(registry: &mut Registry, giveaway_id: u64, payout: Settlement) -> (result:
    Result<Notice, Error>)
    requires
        old(registry).wf(),
    ensures
        final(registry).wf(),
        (final(registry)@, result) == distribute_step(old(registry)@, giveaway_id, payout),
{
    match decide_distribution(registry.get(giveaway_id), payout) {
        Err(e) => Err(e),
        Ok((updated, notice)) => {
            registry.replace(updated);
            proof {
                step_follows(old(registry)@, Operation::Distribute { giveaway_id, payout });
            }
            Ok(notice)
        },
    }
}

/// The outside authority closes entry: an `Active` giveaway becomes `Ended`.
pub fn close_entry(registry: &mut Registry, giveaway_id: u64) -> (result: Result<(), Error>)
    requires
        old(registry).wf(),
    ensures
        final(registry).wf(),
        (final(registry)@, result) == close_step(old(registry)@, giveaway_id),
{
    let record = match registry.get(giveaway_id) {
        None => { return Err(Error::NotFound); },
        Some(record) => record,
    };
    match record.status {
        GiveawayStatus::Active => {
            let mut updated: Giveaway = record;
            updated.status = GiveawayStatus::Ended;
            registry.replace(updated);
            proof {
                step_follows(old(registry)@, Operation::Close { giveaway_id });
            }
            Ok(())
        },
        _ => Err(Error::NotActive),
    }
}

/// The outside authority designates the winner: an `Ended` giveaway becomes
/// `Claimable` and records `winner` as given.
pub fn designate_winner(registry: &mut Registry, giveaway_id: u64, winner: Option<Identity>) -> (result:
    Result<(), Error>)
    requires
        old(registry).wf(),
    ensures
        final(registry).wf(),
        (final(registry)@, result) == designate_step(old(registry)@, giveaway_id, winner),
{
    let record = match registry.get(giveaway_id) {
        None => { return Err(Error::NotFound); },
        Some(record) => record,
    };
    match record.status {
        GiveawayStatus::Ended => {
            let mut updated: Giveaway = record;
            updated.status = GiveawayStatus::Claimable;
            updated.winner = winner;
            registry.replace(updated);
            proof {
                step_follows(old(registry)@, Operation::Designate { giveaway_id, winner });
            }
            Ok(())
        },
        _ => Err(Error::NotEnded),
    }
}

} // verus!
