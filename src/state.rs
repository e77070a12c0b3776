//! The records that the lifecycle keeps, the notifications it hands out and
//! the ways it refuses an operation.

use vstd::prelude::*;
use crate::address::{Address, zero_address};

verus! {

/// Where a challenge stands. `Ended` and `Cancelled` are terminal.
#[derive(Clone, Copy, Debug, PartialEq, Eq, Structural)]
pub enum ChallengeStatus {
    Active,
    Ended,
    Cancelled,
}

/// What the scores of a challenge measure. It has no bearing on settlement.
#[derive(Clone, Copy, Debug, PartialEq, Eq, Structural)]
pub enum ChallengeType {
    /// Daily step count.
    Steps,
    /// Walking or running distance, in meters.
    Distance,
    /// Active minutes.
    Duration,
    /// Calories burned.
    Calories,
}

/// One wager event: a pooled stake, a time window and, once settled, a winner.
#[derive(Clone, Copy, Debug)]
pub struct Challenge {
    /// The account that opened the challenge; it alone may settle or cancel it.
    pub creator: Address,
    /// The stake every participant pays.
    pub entry_fee: u64,
    /// The sum of the accepted stakes.
    pub total_pool: u64,
    pub start_time: i64,
    pub end_time: i64,
    pub participant_count: u32,
    pub status: ChallengeStatus,
    pub challenge_type: ChallengeType,
    /// Advisory target value.
    pub goal: u64,
    /// Whether stakes are held in the fungible token rather than in native value.
    pub is_usdc: bool,
    /// Advisory visibility flag.
    pub is_public: bool,
    /// Set once, at settlement; all zero before.
    pub winner: Address,
    /// Bump seed of the challenge's own address.
    pub bump: u8,
}

/// One player's membership and best score in one challenge.
#[derive(Clone, Copy, Debug)]
pub struct Participant {
    pub player: Address,
    pub challenge: Address,
    /// The best score submitted so far.
    pub score: u64,
    pub has_joined: bool,
    pub has_submitted: bool,
    pub joined_at: i64,
    pub last_submission: i64,
    pub verification_hash: [u8; 32],
    pub bump: u8,
}

impl Participant {
    /// A record that has not joined yet, as storage hands out a fresh one.
    pub fn empty() -> (r: Participant)
        ensures
            r.player@ == zero_address(),
            r.challenge@ == zero_address(),
            r.score == 0,
            !r.has_joined,
            !r.has_submitted,
            r.joined_at == 0,
            r.last_submission == 0,
            r.verification_hash@ == Seq::new(32, |_i: int| 0u8),
            r.bump == 0,
    {
        let r = Participant {
            player: Address::zero(),
            challenge: Address::zero(),
            score: 0,
            has_joined: false,
            has_submitted: false,
            joined_at: 0,
            last_submission: 0,
            verification_hash: [0u8; 32],
            bump: 0,
        };
        proof {
            assert(r.verification_hash@ =~= Seq::new(32, |_i: int| 0u8));
        }
        r
    }
}

/// Notification of a new challenge.
#[derive(Clone, Copy, Debug)]
pub struct ChallengeCreated {
    pub challenge: Address,
    pub creator: Address,
    pub entry_fee: u64,
    pub challenge_type: ChallengeType,
    pub goal: u64,
    pub is_usdc: bool,
    pub end_time: i64,
}

/// Notification of an accepted stake.
#[derive(Clone, Copy, Debug)]
pub struct ParticipantJoined {
    pub challenge: Address,
    pub player: Address,
    pub entry_fee: u64,
    pub is_usdc: bool,
}

/// Notification of an accepted score submission.
#[derive(Clone, Copy, Debug)]
pub struct ScoreSubmitted {
    pub challenge: Address,
    pub player: Address,
    pub score: u64,
    pub timestamp: i64,
}

/// Notification of a settlement.
#[derive(Clone, Copy, Debug)]
pub struct ChallengeEnded {
    pub challenge: Address,
    pub winner: Address,
    pub payout: u64,
    pub platform_fee: u64,
}

/// Notification of a cancellation.
#[derive(Clone, Copy, Debug)]
pub struct ChallengeCancelled {
    pub challenge: Address,
    pub creator: Address,
}

/// Why an operation was refused. A refused operation changes nothing.
#[derive(Clone, Copy, Debug, PartialEq, Eq, Structural)]
pub enum FitError {
    InvalidEntryFee,
    InvalidDuration,
    InvalidGoal,
    ChallengeClosed,
    ChallengeNotOver,
    ChallengeEnded,
    NotJoined,
    AlreadyJoined,
    WrongPaymentType,
    NotCreator,
    HasParticipants,
    InvalidVerification,
}

} // verus!
