//! What holds of the lifecycle over all states and all histories.
//!
//! A history is a sequence of operations applied to a state one after the
//! other. The laws below are proved for every well-formed state and every
//! history that stays within the counters' ranges.

use vstd::prelude::*;
use crate::giveaway::{
    close_step, create_step, creation_fits, designate_step, distribute_step, enter_step,
    entry_fits, escrow_due, payout_due,
};
use crate::registry::RegistryState;
use crate::rules::escrow_of;
use crate::types::{
    Authorization, Created, Error, Giveaway, GiveawayStatus, Identity, Notice, Settlement,
    Transfer,
};

verus! {

/// One call of an operation, with its arguments.
pub enum Operation {
    Create {
        creator: Identity,
        token: Identity,
        amount: i128,
        end_time: u64,
        auth: Authorization,
        escrow: Settlement,
    },
    Enter { user: Identity, giveaway_id: u64, now: u64, auth: Authorization },
    Close { giveaway_id: u64 },
    Designate { giveaway_id: u64, winner: Option<Identity> },
    Distribute { giveaway_id: u64, payout: Settlement },
}

/// The state after `op` is applied to `s`.
pub open spec fn apply(s: RegistryState, op: Operation) -> RegistryState {
    match op {
        Operation::Create { creator, token, amount, end_time, auth, escrow } => create_step(
            s,
            creator,
            token,
            amount,
            end_time,
            auth,
            escrow,
        ).0,
        Operation::Enter { user, giveaway_id, now, auth } => enter_step(
            s,
            user,
            giveaway_id,
            now,
            auth,
        ).0,
        Operation::Close { giveaway_id } => close_step(s, giveaway_id).0,
        Operation::Designate { giveaway_id, winner } => designate_step(s, giveaway_id, winner).0,
        Operation::Distribute { giveaway_id, payout } => distribute_step(s, giveaway_id, payout).0,
    }
}

/// Whether `op` stays within the counters' ranges in state `s`.
pub open spec fn admissible(s: RegistryState, op: Operation) -> bool {
    match op {
        Operation::Create { auth, escrow, .. } => creation_fits(s, auth, escrow),
        Operation::Enter { user, giveaway_id, now, auth } => entry_fits(
            s,
            user,
            giveaway_id,
            now,
            auth,
        ),
        _ => true,
    }
}

/// Whether `op`, applied to `s`, returns `Ok`.
pub open spec fn succeeds(s: RegistryState, op: Operation) -> bool {
    match op {
        Operation::Create { creator, token, amount, end_time, auth, escrow } => create_step(
            s,
            creator,
            token,
            amount,
            end_time,
            auth,
            escrow,
        ).1 is Ok,
        Operation::Enter { user, giveaway_id, now, auth } => enter_step(
            s,
            user,
            giveaway_id,
            now,
            auth,
        ).1 is Ok,
        Operation::Close { giveaway_id } => close_step(s, giveaway_id).1 is Ok,
        Operation::Designate { giveaway_id, winner } => designate_step(s, giveaway_id, winner).1 is Ok,
        Operation::Distribute { giveaway_id, payout } => distribute_step(
            s,
            giveaway_id,
            payout,
        ).1 is Ok,
    }
}

/// The state after the history `ops` is applied to `s`.
pub open spec fn run(s: RegistryState, ops: Seq<Operation>) -> RegistryState
    decreases ops.len(),
{
    if ops.len() == 0 {
        s
    } else {
        run(apply(s, ops[0]), ops.subrange(1, ops.len() as int))
    }
}

/// Whether every operation of `ops` is admissible in the state it meets.
pub open spec fn feasible(s: RegistryState, ops: Seq<Operation>) -> bool
    decreases ops.len(),
{
    ops.len() > 0 ==> admissible(s, ops[0]) && feasible(
        apply(s, ops[0]),
        ops.subrange(1, ops.len() as int),
    )
}

/// Whether `op`, applied to `s`, pays out giveaway `id`.
pub open spec fn pays(s: RegistryState, op: Operation, id: u64) -> bool {
    match op {
        Operation::Distribute { giveaway_id, payout } => giveaway_id == id && distribute_step(
            s,
            giveaway_id,
            payout,
        ).1 is Ok,
        _ => false,
    }
}

/// How many operations of `ops`, applied to `s`, pay out giveaway `id`.
pub open spec fn payouts(s: RegistryState, ops: Seq<Operation>, id: u64) -> nat
    decreases ops.len(),
{
    if ops.len() == 0 {
        0
    } else {
        (if pays(s, ops[0], id) {
            1nat
        } else {
            0nat
        }) + payouts(apply(s, ops[0]), ops.subrange(1, ops.len() as int), id)
    }
}

/// Whether `later` can follow `earlier`: the custodial address stays, the
/// counter does not fall, no record and no flag is lost, a record keeps its
/// id, creator, token, amount and end time, its status does not go back, its
/// participant count does not fall, and its winner stays once it is
/// `Claimable`.
pub open spec fn follows(earlier: RegistryState, later: RegistryState) -> bool {
    &&& later.custody == earlier.custody
    &&& earlier.count <= later.count
    &&& earlier.entered.subset_of(later.entered)
    &&& forall|id: u64| #[trigger]
        earlier.has_giveaway(id) ==> {
            let before = earlier.giveaways[id];
            let after = later.giveaways[id];
            &&& later.has_giveaway(id)
            &&& after.id == before.id
            &&& after.creator == before.creator
            &&& after.token == before.token
            &&& after.amount == before.amount
            &&& after.end_time == before.end_time
            &&& before.status.rank() <= after.status.rank()
            &&& before.participant_count <= after.participant_count
            &&& before.status.rank() >= 2 ==> after.winner == before.winner
        }
}

/// One admissible operation keeps a state well formed and leads to a state
/// that can follow it.
pub proof fn step_follows(s: RegistryState, op: Operation)
    requires
        s.well_formed(),
        admissible(s, op),
    ensures
        apply(s, op).well_formed(),
        follows(s, apply(s, op)),
{
    let t = apply(s, op);
    assert forall|id: u64| #[trigger] t.has_giveaway(id) <==> 1 <= id <= t.count by {
        assert(s.has_giveaway(id) <==> 1 <= id <= s.count);
    }
    assert forall|id: u64| #[trigger] t.has_giveaway(id) implies t.giveaways[id].id == id by {
        if s.has_giveaway(id) {
            assert(s.giveaways[id].id == id);
        }
    }
    assert forall|id: u64| #[trigger] s.has_giveaway(id) implies t.has_giveaway(id) by {
        assert(1 <= id <= s.count);
    }
    assert forall|id: u64, participant: Identity| #[trigger]
        t.has_entered(id, participant) implies t.has_giveaway(id) by {
        if s.has_entered(id, participant) {
            assert(s.has_giveaway(id));
        }
    }
    assert forall|id: u64| #[trigger] t.has_giveaway(id) implies t.entrants(id).finite()
        && t.entrants(id).len() == t.giveaways[id].participant_count by {
        entrants_after_step(s, op, id);
    }
}

/// How one admissible operation changes the set of those who have entered a
/// giveaway, and that the participant count changes with it.
proof fn entrants_after_step(s: RegistryState, op: Operation, id: u64)
    requires
        s.well_formed(),
        admissible(s, op),
        apply(s, op).has_giveaway(id),
    ensures
        apply(s, op).entrants(id).finite(),
        apply(s, op).entrants(id).len() == apply(s, op).giveaways[id].participant_count,
{
    let t = apply(s, op);
    if !s.has_giveaway(id) {
        assert forall|participant: Identity| !t.entrants(id).contains(participant) by {
            if s.has_entered(id, participant) {
                assert(s.has_giveaway(id));
            }
        }
        assert(t.entrants(id) =~= Set::empty());
    } else {
        assert(s.entrants(id).finite());
        match op {
            Operation::Enter { user, giveaway_id, now, auth } => {
                if giveaway_id == id && enter_step(s, user, giveaway_id, now, auth).1 is Ok {
                    assert(!s.entrants(id).contains(user));
                    assert(t.entrants(id) =~= s.entrants(id).insert(user));
                } else {
                    assert(t.entrants(id) =~= s.entrants(id));
                }
            },
            _ => {
                assert(t.entrants(id) =~= s.entrants(id));
            },
        }
    }
}

/// An admissible history keeps a state well formed and leads to a state that
/// can follow it.
pub proof fn history_follows(s: RegistryState, ops: Seq<Operation>)
    requires
        s.well_formed(),
        feasible(s, ops),
    ensures
        run(s, ops).well_formed(),
        follows(s, run(s, ops)),
    decreases ops.len(),
{
    if ops.len() > 0 {
        let next = apply(s, ops[0]);
        step_follows(s, ops[0]);
        history_follows(next, ops.subrange(1, ops.len() as int));
        let last = run(s, ops);
        assert forall|id: u64| #[trigger] s.has_giveaway(id) implies last.has_giveaway(id) by {
            assert(next.has_giveaway(id));
        }
    }
}

/// A creation that succeeds issues an id that is one above the counter, not
/// in use, and strictly greater than every id issued before it; the new
/// record holds the amount that went into escrow.
pub proof fn created_id_is_fresh(
    s: RegistryState,
    creator: Identity,
    token: Identity,
    amount: i128,
    end_time: u64,
    auth: Authorization,
    escrow: Settlement,
)
    requires
        s.well_formed(),
        creation_fits(s, auth, escrow),
        create_step(s, creator, token, amount, end_time, auth, escrow).1 is Ok,
    ensures
        ({
            let (next, result) = create_step(s, creator, token, amount, end_time, auth, escrow);
            let id = result->Ok_0.id;
            &&& id == s.count + 1
            &&& next.count == id
            &&& !s.has_giveaway(id)
            &&& forall|earlier: u64| #[trigger] s.has_giveaway(earlier) ==> earlier < id
            &&& next.has_giveaway(id)
            &&& next.giveaways[id].amount == escrow_of(s.custody, creator, token, amount).amount
            &&& next.well_formed()
        }),
{
    let id = (s.count + 1) as u64;
    assert(!s.has_giveaway(id) <==> !(1 <= id <= s.count));
    assert forall|earlier: u64| #[trigger] s.has_giveaway(earlier) implies earlier < id by {
        assert(1 <= earlier <= s.count);
    }
    step_follows(s, Operation::Create { creator, token, amount, end_time, auth, escrow });
}

/// What a creation returns in state `s`.
pub open spec fn outcome_of_create(s: RegistryState, op: Operation) -> Result<Created, Error>
    recommends
        op is Create,
{
    match op {
        Operation::Create { creator, token, amount, end_time, auth, escrow } => create_step(
            s,
            creator,
            token,
            amount,
            end_time,
            auth,
            escrow,
        ).1,
        _ => Err(Error::NotFound),
    }
}

/// Of two creations that succeed, the later one returns the greater id,
/// whatever happened in between.
pub proof fn later_id_is_greater(
    s: RegistryState,
    first: Operation,
    between: Seq<Operation>,
    second: Operation,
)
    requires
        s.well_formed(),
        first is Create,
        second is Create,
        admissible(s, first),
        feasible(apply(s, first), between),
        admissible(run(apply(s, first), between), second),
        outcome_of_create(s, first) is Ok,
        outcome_of_create(run(apply(s, first), between), second) is Ok,
    ensures
        outcome_of_create(s, first)->Ok_0.id < outcome_of_create(
            run(apply(s, first), between),
            second,
        )->Ok_0.id,
{
    step_follows(s, first);
    history_follows(apply(s, first), between);
}

/// An authorized entry by a new participant into an `Active` giveaway, not
/// after the end time, succeeds, writes the flag, raises the participant count by exactly one and changes
/// nothing else of the record. Any later entry by the same participant, after
/// any history, changes no state and fails: with `DuplicateEntry` where it is
/// authorized and not after the end time.
pub proof fn entry_counts_once(
    s: RegistryState,
    user: Identity,
    giveaway_id: u64,
    now: u64,
    between: Seq<Operation>,
    again: u64,
    auth: Authorization,
)
    requires
        s.well_formed(),
        s.has_giveaway(giveaway_id),
        s.giveaways[giveaway_id].status == GiveawayStatus::Active,
        !s.has_entered(giveaway_id, user),
        now <= s.giveaways[giveaway_id].end_time,
        s.giveaways[giveaway_id].participant_count < u32::MAX,
        feasible(enter_step(s, user, giveaway_id, now, Authorization::Granted).0, between),
    ensures
        ({
            let before = s.giveaways[giveaway_id];
            let (next, result) = enter_step(s, user, giveaway_id, now, Authorization::Granted);
            let later = run(next, between);
            let (last, repeated) = enter_step(later, user, giveaway_id, again, auth);
            &&& result == Ok::<(), Error>(())
            &&& next.has_entered(giveaway_id, user)
            &&& next.giveaways[giveaway_id] == (Giveaway {
                participant_count: (before.participant_count + 1) as u32,
                ..before
            })
            &&& next.giveaways[giveaway_id].participant_count == before.participant_count + 1
            &&& next.count == s.count
            &&& forall|other: u64|
                other != giveaway_id && #[trigger] s.has_giveaway(other) ==> next.giveaways[other]
                    == s.giveaways[other]
            &&& last == later
            &&& repeated is Err
            &&& auth == Authorization::Granted && again <= before.end_time ==> repeated == Err::<
                (),
                Error,
            >(Error::DuplicateEntry)
        }),
{
    let op = Operation::Enter { user, giveaway_id, now, auth: Authorization::Granted };
    let next = apply(s, op);
    step_follows(s, op);
    history_follows(next, between);
    let later = run(next, between);
    assert(next.has_giveaway(giveaway_id));
    assert(next.entered.contains((giveaway_id, user)));
    assert(later.entered.contains((giveaway_id, user)));
}

/// Entry fires only while the giveaway is `Active`: an entry that succeeds
/// found the giveaway `Active`, in time and without a flag of this
/// participant, and leaves it `Active`.
pub proof fn entry_needs_active(
    s: RegistryState,
    user: Identity,
    giveaway_id: u64,
    now: u64,
    auth: Authorization,
)
    requires
        enter_step(s, user, giveaway_id, now, auth).1 is Ok,
    ensures
        auth == Authorization::Granted,
        s.has_giveaway(giveaway_id),
        s.giveaways[giveaway_id].status == GiveawayStatus::Active,
        now <= s.giveaways[giveaway_id].end_time,
        !s.has_entered(giveaway_id, user),
        enter_step(s, user, giveaway_id, now, auth).0.has_giveaway(giveaway_id),
        enter_step(s, user, giveaway_id, now, auth).0.giveaways[giveaway_id].status
            == GiveawayStatus::Active,
{
}

/// Entry into a giveaway that is no longer `Active` fails and changes no
/// state: no flag is written and the participant count stays. Where it is
/// authorized, in time and by a new participant, the error is `NotActive`.
pub proof fn inactive_entry_is_refused(
    s: RegistryState,
    user: Identity,
    giveaway_id: u64,
    now: u64,
    auth: Authorization,
)
    requires
        s.has_giveaway(giveaway_id),
        s.giveaways[giveaway_id].status != GiveawayStatus::Active,
    ensures
        enter_step(s, user, giveaway_id, now, auth).0 == s,
        enter_step(s, user, giveaway_id, now, auth).1 is Err,
        auth == Authorization::Granted && now <= s.giveaways[giveaway_id].end_time
            && !s.has_entered(giveaway_id, user) ==> enter_step(
            s,
            user,
            giveaway_id,
            now,
            auth,
        ).1 == Err::<(), Error>(Error::NotActive),
{
}

/// An authorized entry in time fails with `DuplicateEntry` exactly when this
/// participant holds a flag for this giveaway, whatever the giveaway's
/// status and count; flags of others, or for other giveaways, play no part.
pub proof fn duplicate_exactly_when_flagged(
    s: RegistryState,
    user: Identity,
    giveaway_id: u64,
    now: u64,
)
    requires
        s.has_giveaway(giveaway_id),
        now <= s.giveaways[giveaway_id].end_time,
    ensures
        enter_step(s, user, giveaway_id, now, Authorization::Granted).1 == Err::<(), Error>(
            Error::DuplicateEntry,
        ) <==> s.has_entered(giveaway_id, user),
{
}

/// Without authorization no escrow transfer is placed and creation fails
/// without a change; with it, the transfer placed moves the amount from the
/// creator into custody.
pub proof fn no_escrow_without_authorization(
    s: RegistryState,
    creator: Identity,
    token: Identity,
    amount: i128,
    end_time: u64,
    auth: Authorization,
    escrow: Settlement,
)
    ensures
        escrow_due(s, creator, token, amount, auth) is Ok <==> auth == Authorization::Granted,
        escrow_due(s, creator, token, amount, auth) matches Ok(order) ==> order == escrow_of(
            s.custody,
            creator,
            token,
            amount,
        ),
        auth == Authorization::Denied ==> create_step(
            s,
            creator,
            token,
            amount,
            end_time,
            auth,
            escrow,
        ) == (s, Err::<Created, Error>(Error::AuthorizationFailure)),
{
}

/// An entry after the end time changes no state, so the participant count
/// stays, and fails: with `Expired` where it is authorized.
pub proof fn late_entry_is_refused(
    s: RegistryState,
    user: Identity,
    giveaway_id: u64,
    now: u64,
    auth: Authorization,
)
    requires
        s.has_giveaway(giveaway_id),
        now > s.giveaways[giveaway_id].end_time,
    ensures
        enter_step(s, user, giveaway_id, now, auth).0 == s,
        enter_step(s, user, giveaway_id, now, auth).1 is Err,
        auth == Authorization::Granted ==> enter_step(s, user, giveaway_id, now, auth).1 == Err::<
            (),
            Error,
        >(Error::Expired),
{
}

/// While a giveaway is not `Claimable`, no transfer is due for it, and
/// distribution fails with `NotClaimable` and changes no state, whatever the
/// token service would have reported.
pub proof fn nothing_due_unless_claimable(s: RegistryState, giveaway_id: u64, payout: Settlement)
    requires
        s.has_giveaway(giveaway_id),
        s.giveaways[giveaway_id].status != GiveawayStatus::Claimable,
    ensures
        payout_due(s, giveaway_id) == Err::<Transfer, Error>(Error::NotClaimable),
        distribute_step(s, giveaway_id, payout) == (
            s,
            Err::<Notice, Error>(Error::NotClaimable),
        ),
{
}

/// A `Claimable` giveaway with a winner is paid once: the distribution whose
/// transfer settled completes it, and from then on, after any history, it
/// stays `Completed`, no transfer is due for it, and distribution fails with
/// `NotClaimable` and changes no state.
pub proof fn second_distribution_is_refused(
    s: RegistryState,
    giveaway_id: u64,
    between: Seq<Operation>,
    payout: Settlement,
)
    requires
        s.well_formed(),
        s.has_giveaway(giveaway_id),
        s.giveaways[giveaway_id].status == GiveawayStatus::Claimable,
        s.giveaways[giveaway_id].winner is Some,
        feasible(distribute_step(s, giveaway_id, Settlement::Settled).0, between),
    ensures
        ({
            let record = s.giveaways[giveaway_id];
            let (next, first) = distribute_step(s, giveaway_id, Settlement::Settled);
            let later = run(next, between);
            &&& payout_due(s, giveaway_id) == Ok::<Transfer, Error>(
                Transfer {
                    from: s.custody,
                    to: record.winner->Some_0,
                    token: record.token,
                    amount: record.amount,
                },
            )
            &&& first == Ok::<Notice, Error>(
                Notice::PrizeClaimed {
                    id: record.id,
                    winner: record.winner->Some_0,
                    amount: record.amount,
                },
            )
            &&& next.giveaways[giveaway_id] == (Giveaway {
                status: GiveawayStatus::Completed,
                ..record
            })
            &&& later.has_giveaway(giveaway_id)
            &&& later.giveaways[giveaway_id].status == GiveawayStatus::Completed
            &&& payout_due(later, giveaway_id) == Err::<Transfer, Error>(Error::NotClaimable)
            &&& distribute_step(later, giveaway_id, payout) == (
                later,
                Err::<Notice, Error>(Error::NotClaimable),
            )
            &&& payouts(next, between, giveaway_id) == 0
        }),
{
    let op = Operation::Distribute { giveaway_id, payout: Settlement::Settled };
    let next = apply(s, op);
    step_follows(s, op);
    history_follows(next, between);
    assert(next.has_giveaway(giveaway_id));
    completed_is_never_paid(next, between, giveaway_id);
}

/// A failed transfer leaves a giveaway as it was, so that distribution can be
/// tried again.
pub proof fn failed_payout_changes_nothing(s: RegistryState, giveaway_id: u64)
    ensures
        distribute_step(s, giveaway_id, Settlement::Failed).0 == s,
        distribute_step(s, giveaway_id, Settlement::Failed).1 is Err,
{
}

/// No history pays out a giveaway that is `Completed`.
pub proof fn completed_is_never_paid(s: RegistryState, ops: Seq<Operation>, id: u64)
    requires
        s.well_formed(),
        feasible(s, ops),
        s.has_giveaway(id),
        s.giveaways[id].status == GiveawayStatus::Completed,
    ensures
        payouts(s, ops, id) == 0,
    decreases ops.len(),
{
    if ops.len() > 0 {
        let next = apply(s, ops[0]);
        step_follows(s, ops[0]);
        assert(next.has_giveaway(id));
        completed_is_never_paid(next, ops.subrange(1, ops.len() as int), id);
    }
}

/// No history pays out the same giveaway more than once.
pub proof fn at_most_one_payout(s: RegistryState, ops: Seq<Operation>, id: u64)
    requires
        s.well_formed(),
        feasible(s, ops),
    ensures
        payouts(s, ops, id) <= 1,
    decreases ops.len(),
{
    if ops.len() > 0 {
        let next = apply(s, ops[0]);
        let rest = ops.subrange(1, ops.len() as int);
        step_follows(s, ops[0]);
        if pays(s, ops[0], id) {
            assert(next.has_giveaway(id));
            completed_is_never_paid(next, rest, id);
        } else {
            at_most_one_payout(next, rest, id);
        }
    }
}

/// Fund conservation: whatever history follows the creation of a giveaway,
/// a transfer that is due for it moves the amount that went into escrow at
/// its creation, in the same token, out of the same custody, to the winner on
/// record; and the history pays the giveaway out at most once.
pub proof fn payout_equals_escrow(
    s: RegistryState,
    creator: Identity,
    token: Identity,
    amount: i128,
    end_time: u64,
    ops: Seq<Operation>,
)
    requires
        s.well_formed(),
        s.count < u64::MAX,
        feasible(
            create_step(
                s,
                creator,
                token,
                amount,
                end_time,
                Authorization::Granted,
                Settlement::Settled,
            ).0,
            ops,
        ),
    ensures
        ({
            let (next, result) = create_step(
                s,
                creator,
                token,
                amount,
                end_time,
                Authorization::Granted,
                Settlement::Settled,
            );
            let id = result->Ok_0.id;
            let last = run(next, ops);
            let escrow = escrow_of(s.custody, creator, token, amount);
            &&& result is Ok
            &&& last.has_giveaway(id)
            &&& last.giveaways[id].amount == escrow.amount
            &&& last.giveaways[id].token == escrow.token
            &&& payout_due(last, id) matches Ok(order) ==> {
                &&& order.from == escrow.to
                &&& order.to == last.giveaways[id].winner->Some_0
                &&& order.token == escrow.token
                &&& order.amount == escrow.amount
            }
            &&& payouts(next, ops, id) <= 1
        }),
{
    let op = Operation::Create {
        creator,
        token,
        amount,
        end_time,
        auth: Authorization::Granted,
        escrow: Settlement::Settled,
    };
    let next = apply(s, op);
    let id = (s.count + 1) as u64;
    step_follows(s, op);
    history_follows(next, ops);
    assert(next.has_giveaway(id));
    at_most_one_payout(next, ops, id);
}

/// An operation is all or nothing: one that fails leaves the state as it
/// was.
pub proof fn failure_changes_nothing(s: RegistryState, op: Operation)
    requires
        !succeeds(s, op),
    ensures
        apply(s, op) == s,
{
}

/// Each transition has one producer: a record appears only by a creation
/// that succeeds, and then as `Active` without participants or winner; a
/// record leaves `Active` only when entry is closed, becomes `Claimable` only
/// when the winner is designated, and becomes `Completed` only by a
/// distribution of that giveaway whose transfer settled.
pub proof fn transitions_have_one_producer(s: RegistryState, op: Operation, id: u64)
    requires
        s.well_formed(),
        admissible(s, op),
        apply(s, op).has_giveaway(id),
    ensures
        !s.has_giveaway(id) ==> {
            &&& op is Create
            &&& succeeds(s, op)
            &&& apply(s, op).giveaways[id].status == GiveawayStatus::Active
            &&& apply(s, op).giveaways[id].participant_count == 0
            &&& apply(s, op).giveaways[id].winner is None
        },
        s.has_giveaway(id) && apply(s, op).giveaways[id].status != s.giveaways[id].status ==> {
            let before = s.giveaways[id].status;
            let after = apply(s, op).giveaways[id].status;
            &&& succeeds(s, op)
            &&& after.rank() == before.rank() + 1
            &&& after == GiveawayStatus::Ended ==> op == (Operation::Close { giveaway_id: id })
            &&& after == GiveawayStatus::Claimable ==> op is Designate && op->Designate_giveaway_id
                == id
            &&& after == GiveawayStatus::Completed ==> op == (Operation::Distribute {
                giveaway_id: id,
                payout: Settlement::Settled,
            })
        },
{
    assert(s.has_giveaway(id) <==> 1 <= id <= s.count);
}

/// A transfer is due for a giveaway exactly when its distribution would go
/// through once the transfer has settled, and a distribution never goes
/// through without the transfer having settled.
pub proof fn due_exactly_when_distributable(s: RegistryState, giveaway_id: u64, payout: Settlement)
    ensures
        payout_due(s, giveaway_id) is Ok <==> distribute_step(
            s,
            giveaway_id,
            Settlement::Settled,
        ).1 is Ok,
        distribute_step(s, giveaway_id, payout).1 is Ok ==> payout == Settlement::Settled,
        payout_due(s, giveaway_id) matches Err(e) ==> distribute_step(s, giveaway_id, payout).1
            == Err::<Notice, Error>(e),
{
}

} // verus!
