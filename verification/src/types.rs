//! The records, keys, orders and notices that the lifecycle speaks of.

use vstd::prelude::*;

verus! {

/// Where a giveaway stands in its lifecycle. The order of the variants is the
/// order in which a giveaway passes through them; `Completed` is terminal.
#[derive(Clone, Copy, Debug, PartialEq, Eq, Structural)]
pub enum GiveawayStatus {
    Active,
    Ended,
    Claimable,
    Completed,
}

impl GiveawayStatus {
    /// The position of a status in the lifecycle, from 0 for `Active`.
    pub open spec fn rank(self) -> nat {
        match self {
            GiveawayStatus::Active => 0,
            GiveawayStatus::Ended => 1,
            GiveawayStatus::Claimable => 2,
            GiveawayStatus::Completed => 3,
        }
    }
}

/// Whether an identity is an account or a contract.
#[derive(Clone, Copy, Debug, PartialEq, Eq, Structural)]
pub enum IdentityKind {
    Account,
    Contract,
}

/// An address of the host chain: its kind and its 256-bit key, held as the upper
/// and the lower half in big-endian order. Two identities are the same party
/// exactly when all three fields agree.
#[derive(Clone, Copy, Debug, PartialEq, Eq, Structural)]
pub struct Identity {
    pub kind: IdentityKind,
    pub hi: u128,
    pub lo: u128,
}

/// One giveaway, as the registry stores it.
#[derive(Clone, Copy, Debug, PartialEq, Eq)]
pub struct Giveaway {
    pub id: u64,
    pub status: GiveawayStatus,
    pub creator: Identity,
    pub token: Identity,
    pub amount: i128,
    pub end_time: u64,
    pub participant_count: u32,
    pub winner: Option<Identity>,
}

/// The keys of the durable store.
#[derive(Clone, Copy, Debug, PartialEq, Eq)]
pub enum DataKey {
    Giveaway(u64),
    Participant(u64, Identity),
    GiveawayCount,
}

/// Why an operation did nothing.
#[derive(Clone, Copy, Debug, PartialEq, Eq, Structural)]
pub enum Error {
    /// No giveaway has the given id.
    NotFound,
    /// Entry was attempted after the giveaway's end time.
    Expired,
    /// The participant has entered this giveaway before.
    DuplicateEntry,
    /// Distribution was attempted while the status is not `Claimable`.
    NotClaimable,
    /// The giveaway is `Claimable` but no winner is recorded.
    NoWinner,
    /// The caller did not prove control of the identity.
    AuthorizationFailure,
    /// The token service rejected the transfer.
    TransferFailure,
    /// The giveaway is not `Active`: entry was attempted in time by a new
    /// participant, or entry was to be closed, after entry had been closed.
    NotActive,
    /// A winner was to be designated on a giveaway that is not `Ended`.
    NotEnded,
}

/// What the host's authorization step reported for the acting identity.
#[derive(Clone, Copy, Debug, PartialEq, Eq, Structural)]
pub enum Authorization {
    Granted,
    Denied,
}

/// What the token service reported for the transfer an operation asked for.
#[derive(Clone, Copy, Debug, PartialEq, Eq, Structural)]
pub enum Settlement {
    Settled,
    Failed,
}

/// An order to the token service: move `amount` of `token` from one address
/// to another.
#[derive(Clone, Copy, Debug, PartialEq, Eq)]
pub struct Transfer {
    pub from: Identity,
    pub to: Identity,
    pub token: Identity,
    pub amount: i128,
}

/// A notice for outside observers.
#[derive(Clone, Copy, Debug, PartialEq, Eq)]
pub enum Notice {
    GiveawayCreated { id: u64, creator: Identity, amount: i128, token: Identity },
    PrizeClaimed { id: u64, winner: Identity, amount: i128 },
}

/// What a successful creation hands back: the id issued and the notice to
/// publish.
#[derive(Clone, Copy, Debug, PartialEq, Eq)]
pub struct Created {
    pub id: u64,
    pub notice: Notice,
}

} // verus!
