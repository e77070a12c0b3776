//! The challenge state machine: creation, joining, score submission,
//! settlement and cancellation.
//!
//! Each operation checks the state, the time and the caller first; only when
//! every check passes does it touch the records and the escrow ledger, and it
//! then hands back the transfers that the asset mover has to carry out in the
//! same atomic unit. A refused operation changes nothing.

use vstd::prelude::*;
use crate::address::{Address, zero_address};
use crate::payout::{calculate_payout, platform_fee_of, winner_payout_of};
use crate::state::{
    Challenge, ChallengeCancelled, ChallengeCreated, ChallengeEnded, ChallengeStatus,
    ChallengeType, FitError, Participant, ParticipantJoined, ScoreSubmitted,
};
use crate::vault::{EscrowVault, Outflow, Payee, SettlementAuthority};

verus! {

/// A challenge just opened, with its empty vault and the notification.
#[derive(Clone, Copy, Debug)]
pub struct NewChallenge {
    pub challenge: Challenge,
    pub vault: EscrowVault,
    pub event: ChallengeCreated,
}

/// What a settlement pays out: the notification and the vault's outbound
/// transfers, winner first, each left out when its amount is zero.
#[derive(Debug)]
pub struct Settlement {
    pub event: ChallengeEnded,
    pub transfers: Vec<Outflow>,
}

// ---------------------------------------------------------------- creation

/// Why creation with these parameters is refused, if it is.
pub open spec fn create_refusal(entry_fee: u64, duration_seconds: i64, goal: u64) -> Option<FitError> {
    if entry_fee == 0 {
        Some(FitError::InvalidEntryFee)
    } else if duration_seconds <= 0 {
        Some(FitError::InvalidDuration)
    } else if goal == 0 {
        Some(FitError::InvalidGoal)
    } else {
        None
    }
}

/// Opens a challenge at time `now`, stored at `challenge_key` with bump seed
/// `bump`. Its window is `[now, now + duration_seconds]`.
pub fn create_challenge(
    challenge_key: Address,
    creator: Address,
    entry_fee: u64,
    duration_seconds: i64,
    challenge_type: ChallengeType,
    goal: u64,
    is_usdc: bool,
    is_public: bool,
    now: i64,
    bump: u8,
) -> (r: Result<NewChallenge, FitError>)
    requires
        create_refusal(entry_fee, duration_seconds, goal) is None ==> now + duration_seconds
            <= i64::MAX,
    ensures
        match create_refusal(entry_fee, duration_seconds, goal) {
            Some(e) => r == Err::<NewChallenge, FitError>(e),
            None => r is Ok && {
                let c = r->Ok_0.challenge;
                &&& c.creator == creator
                &&& c.entry_fee == entry_fee
                &&& c.total_pool == 0
                &&& c.start_time == now
                &&& c.end_time == now + duration_seconds
                &&& c.participant_count == 0
                &&& c.status == ChallengeStatus::Active
                &&& c.challenge_type == challenge_type
                &&& c.goal == goal
                &&& c.is_usdc == is_usdc
                &&& c.is_public == is_public
                &&& c.winner@ == zero_address()
                &&& c.bump == bump
                &&& r->Ok_0.vault@ == 0
                &&& r->Ok_0.event == (ChallengeCreated {
                    challenge: challenge_key,
                    creator,
                    entry_fee,
                    challenge_type,
                    goal,
                    is_usdc,
                    end_time: c.end_time,
                })
            },
        },
{
    if entry_fee == 0 {
        return Err(FitError::InvalidEntryFee);
    }
    if duration_seconds <= 0 {
        return Err(FitError::InvalidDuration);
    }
    if goal == 0 {
        return Err(FitError::InvalidGoal);
    }
    let challenge = Challenge {
        creator,
        entry_fee,
        total_pool: 0,
        start_time: now,
        end_time: now + duration_seconds,
        participant_count: 0,
        status: ChallengeStatus::Active,
        challenge_type,
        goal,
        is_usdc,
        is_public,
        winner: Address::zero(),
        bump,
    };
    let event = ChallengeCreated {
        challenge: challenge_key,
        creator,
        entry_fee,
        challenge_type,
        goal,
        is_usdc,
        end_time: challenge.end_time,
    };
    Ok(NewChallenge { challenge, vault: EscrowVault::new(), event })
}

// ---------------------------------------------------------------- joining

/// Why a join paying through the token channel (`pay_usdc`) or the native
/// one is refused at time `now`, if it is.
pub open spec fn join_refusal(ch: Challenge, p: Participant, pay_usdc: bool, now: i64) -> Option<FitError> {
    if ch.status != ChallengeStatus::Active {
        Some(FitError::ChallengeClosed)
    } else if ch.is_usdc != pay_usdc {
        Some(FitError::WrongPaymentType)
    } else if p.has_joined {
        Some(FitError::AlreadyJoined)
    } else if now >= ch.end_time {
        Some(FitError::ChallengeEnded)
    } else {
        None
    }
}

/// The challenge after one more accepted stake.
pub open spec fn joined_challenge(ch: Challenge) -> Challenge {
    Challenge {
        total_pool: (ch.total_pool + ch.entry_fee) as u64,
        participant_count: (ch.participant_count + 1) as u32,
        ..ch
    }
}

/// The participant record of `player` after joining at `now`.
pub open spec fn joined_participant(
    p: Participant,
    challenge_key: Address,
    player: Address,
    now: i64,
    bump: u8,
) -> Participant {
    Participant {
        player,
        challenge: challenge_key,
        score: 0,
        has_joined: true,
        has_submitted: false,
        joined_at: now,
        bump,
        ..p
    }
}

/// What joining needs of the machine's integers: the pool, the count and
/// the vault can take one more stake.
pub open spec fn join_fits(ch: Challenge, vault: EscrowVault) -> bool {
    &&& ch.total_pool + ch.entry_fee <= u64::MAX
    &&& ch.participant_count < u32::MAX
    &&& vault@ + ch.entry_fee <= u64::MAX
}

/// The outcome of a join, relating the records before (`c0`, `p0`, `v0`)
/// and after (`c1`, `p1`, `v1`) to the result: a refusal changes nothing; an
/// accepted stake is counted, pooled, booked into the vault and announced.
pub open spec fn join_post(
    c0: Challenge,
    p0: Participant,
    v0: EscrowVault,
    c1: Challenge,
    p1: Participant,
    v1: EscrowVault,
    r: Result<ParticipantJoined, FitError>,
    challenge_key: Address,
    player: Address,
    pay_usdc: bool,
    now: i64,
    bump: u8,
) -> bool {
    match join_refusal(c0, p0, pay_usdc, now) {
        Some(e) => {
            &&& r == Err::<ParticipantJoined, FitError>(e)
            &&& c1 == c0
            &&& p1 == p0
            &&& v1 == v0
        },
        None => {
            &&& r == Ok::<ParticipantJoined, FitError>(
                ParticipantJoined {
                    challenge: challenge_key,
                    player,
                    entry_fee: c0.entry_fee,
                    is_usdc: pay_usdc,
                },
            )
            &&& c1 == joined_challenge(c0)
            &&& p1 == joined_participant(p0, challenge_key, player, now, bump)
            &&& v1@ == v0@ + c0.entry_fee
        },
    }
}

/// Stakes `player` into the challenge at `challenge_key`, paying through the
/// token channel when `pay_usdc` holds and the native one otherwise. On
/// success the entry fee is booked into the vault and the caller moves it
/// from the player to the vault in the same atomic unit.
pub fn join_challenge(
    challenge: &mut Challenge,
    participant: &mut Participant,
    vault: &mut EscrowVault,
    challenge_key: Address,
    player: Address,
    pay_usdc: bool,
    now: i64,
    bump: u8,
) -> (r: Result<ParticipantJoined, FitError>)
    requires
        join_refusal(*old(challenge), *old(participant), pay_usdc, now) is None ==> join_fits(
            *old(challenge),
            *old(vault),
        ),
    ensures
        join_post(
            *old(challenge),
            *old(participant),
            *old(vault),
            *final(challenge),
            *final(participant),
            *final(vault),
            r,
            challenge_key,
            player,
            pay_usdc,
            now,
            bump,
        ),
{
    if challenge.status != ChallengeStatus::Active {
        return Err(FitError::ChallengeClosed);
    }
    if challenge.is_usdc != pay_usdc {
        return Err(FitError::WrongPaymentType);
    }
    if participant.has_joined {
        return Err(FitError::AlreadyJoined);
    }
    if now >= challenge.end_time {
        return Err(FitError::ChallengeEnded);
    }
    vault.deposit(challenge.entry_fee);
    challenge.total_pool = challenge.total_pool + challenge.entry_fee;
    challenge.participant_count = challenge.participant_count + 1;
    participant.player = player;
    participant.challenge = challenge_key;
    participant.score = 0;
    participant.has_joined = true;
    participant.has_submitted = false;
    participant.joined_at = now;
    participant.bump = bump;
    Ok(ParticipantJoined { challenge: challenge_key, player, entry_fee: challenge.entry_fee, is_usdc: pay_usdc })
}

/// Joins a challenge whose stakes are held in native value.
pub fn join_challenge_sol(
    challenge: &mut Challenge,
    participant: &mut Participant,
    vault: &mut EscrowVault,
    challenge_key: Address,
    player: Address,
    now: i64,
    bump: u8,
) -> (r: Result<ParticipantJoined, FitError>)
    requires
        join_refusal(*old(challenge), *old(participant), false, now) is None ==> join_fits(
            *old(challenge),
            *old(vault),
        ),
    ensures
        join_post(
            *old(challenge),
            *old(participant),
            *old(vault),
            *final(challenge),
            *final(participant),
            *final(vault),
            r,
            challenge_key,
            player,
            false,
            now,
            bump,
        ),
{
    join_challenge(challenge, participant, vault, challenge_key, player, false, now, bump)
}

/// Joins a challenge whose stakes are held in the fungible token.
pub fn join_challenge_usdc(
    challenge: &mut Challenge,
    participant: &mut Participant,
    vault: &mut EscrowVault,
    challenge_key: Address,
    player: Address,
    now: i64,
    bump: u8,
) -> (r: Result<ParticipantJoined, FitError>)
    requires
        join_refusal(*old(challenge), *old(participant), true, now) is None ==> join_fits(
            *old(challenge),
            *old(vault),
        ),
    ensures
        join_post(
            *old(challenge),
            *old(participant),
            *old(vault),
            *final(challenge),
            *final(participant),
            *final(vault),
            r,
            challenge_key,
            player,
            true,
            now,
            bump,
        ),
{
    join_challenge(challenge, participant, vault, challenge_key, player, true, now, bump)
}

// ---------------------------------------------------------------- scoring

/// Why a score submission at time `now` is refused, if it is. The window is
/// inclusive: a submission at `end_time` itself is accepted.
pub open spec fn submit_refusal(ch: Challenge, p: Participant, now: i64) -> Option<FitError> {
    if ch.status != ChallengeStatus::Active {
        Some(FitError::ChallengeClosed)
    } else if !p.has_joined {
        Some(FitError::NotJoined)
    } else if now > ch.end_time {
        Some(FitError::ChallengeEnded)
    } else {
        None
    }
}

/// The larger of two scores.
pub open spec fn best_of(a: u64, b: u64) -> u64 {
    if b > a {
        b
    } else {
        a
    }
}

/// The participant record after an accepted submission of `score`: the
/// score only rises, the audit fields always record the submission.
pub open spec fn submitted_participant(
    p: Participant,
    score: u64,
    verification_hash: [u8; 32],
    now: i64,
) -> Participant {
    Participant {
        score: best_of(p.score, score),
        has_submitted: true,
        last_submission: now,
        verification_hash,
        ..p
    }
}

/// Records a verified score for a participant of the challenge at
/// `challenge_key`, keeping the best score seen so far.
pub fn submit_score(
    challenge: &Challenge,
    participant: &mut Participant,
    challenge_key: Address,
    score: u64,
    verification_hash: [u8; 32],
    now: i64,
) -> (r: Result<ScoreSubmitted, FitError>)
    ensures
        match submit_refusal(*challenge, *old(participant), now) {
            Some(e) => r == Err::<ScoreSubmitted, FitError>(e) && *final(participant)
                == *old(participant),
            None => {
                &&& r == Ok::<ScoreSubmitted, FitError>(
                    ScoreSubmitted {
                        challenge: challenge_key,
                        player: old(participant).player,
                        score,
                        timestamp: now,
                    },
                )
                &&& *final(participant) == submitted_participant(
                    *old(participant),
                    score,
                    verification_hash,
                    now,
                )
            },
        },
{
    if challenge.status != ChallengeStatus::Active {
        return Err(FitError::ChallengeClosed);
    }
    if !participant.has_joined {
        return Err(FitError::NotJoined);
    }
    if now > challenge.end_time {
        return Err(FitError::ChallengeEnded);
    }
    if score > participant.score {
        participant.score = score;
    }
    participant.has_submitted = true;
    participant.last_submission = now;
    participant.verification_hash = verification_hash;
    Ok(ScoreSubmitted { challenge: challenge_key, player: participant.player, score, timestamp: now })
}

// ---------------------------------------------------------------- settlement

/// Why a settlement by `authority` at time `now`, paying out through the
/// token channel (`pay_usdc`) or the native one, is refused, if it is.
pub open spec fn end_refusal(ch: Challenge, authority: Address, pay_usdc: bool, now: i64) -> Option<FitError> {
    if authority@ != ch.creator@ {
        Some(FitError::NotCreator)
    } else if now < ch.end_time {
        Some(FitError::ChallengeNotOver)
    } else if ch.status != ChallengeStatus::Active {
        Some(FitError::ChallengeClosed)
    } else if ch.is_usdc != pay_usdc {
        Some(FitError::WrongPaymentType)
    } else {
        None
    }
}

/// The challenge once settled in favour of `winner`.
pub open spec fn ended_challenge(ch: Challenge, winner: Address) -> Challenge {
    Challenge { status: ChallengeStatus::Ended, winner, ..ch }
}

/// An outbound transfer as a payee and an amount.
pub open spec fn outflow_view(o: Outflow) -> (Payee, u64) {
    (o.payee, o.amount)
}

/// The transfers that settle a pool: the winner's payout, then the platform
/// fee, each only when it is not zero.
pub open spec fn settlement_transfers(total_pool: u64) -> Seq<(Payee, u64)> {
    let fee = platform_fee_of(total_pool as int);
    let payout = winner_payout_of(total_pool as int);
    (if payout > 0 {
        seq![(Payee::Winner, payout as u64)]
    } else {
        Seq::empty()
    }) + (if fee > 0 {
        seq![(Payee::Platform, fee as u64)]
    } else {
        Seq::empty()
    })
}

/// The outcome of a settlement, relating the records before (`c0`, `v0`)
/// and after (`c1`, `v1`) to the result: a refusal changes nothing and moves
/// nothing; a settlement closes the challenge, records the winner, drains
/// the pool from the vault and lists the transfers that pay it out.
pub open spec fn end_post(
    c0: Challenge,
    v0: EscrowVault,
    c1: Challenge,
    v1: EscrowVault,
    r: Result<Settlement, FitError>,
    challenge_key: Address,
    authority: Address,
    winner: Address,
    pay_usdc: bool,
    now: i64,
) -> bool {
    match end_refusal(c0, authority, pay_usdc, now) {
        Some(e) => {
            &&& r is Err
            &&& r->Err_0 == e
            &&& c1 == c0
            &&& v1 == v0
        },
        None => {
            &&& r is Ok
            &&& c1 == ended_challenge(c0, winner)
            &&& v1@ == v0@ - c0.total_pool
            &&& r->Ok_0.event == (ChallengeEnded {
                challenge: challenge_key,
                winner,
                payout: winner_payout_of(c0.total_pool as int) as u64,
                platform_fee: platform_fee_of(c0.total_pool as int) as u64,
            })
            &&& r->Ok_0.transfers@.map_values(|o: Outflow| outflow_view(o)) == settlement_transfers(c0.total_pool)
        },
    }
}

/// Settles the challenge at `challenge_key` in favour of `winner`, the
/// platform taking its fee. Only the creator may settle, only
/// once, and only from `end_time` on. The caller carries out the returned
/// transfers, signed for the vault, in the same atomic unit.
pub fn end_challenge(
    challenge: &mut Challenge,
    vault: &mut EscrowVault,
    challenge_key: Address,
    authority: Address,
    winner: Address,
    pay_usdc: bool,
    now: i64,
) -> (r: Result<Settlement, FitError>)
    requires
        end_refusal(*old(challenge), authority, pay_usdc, now) is None ==> old(challenge).total_pool
            <= old(vault)@,
    ensures
        end_post(
            *old(challenge),
            *old(vault),
            *final(challenge),
            *final(vault),
            r,
            challenge_key,
            authority,
            winner,
            pay_usdc,
            now,
        ),
{
    if !(authority == challenge.creator) {
        return Err(FitError::NotCreator);
    }
    if now < challenge.end_time {
        return Err(FitError::ChallengeNotOver);
    }
    if challenge.status != ChallengeStatus::Active {
        return Err(FitError::ChallengeClosed);
    }
    if challenge.is_usdc != pay_usdc {
        return Err(FitError::WrongPaymentType);
    }
    let (platform_fee, winner_payout) = calculate_payout(challenge.total_pool);
    let seal = SettlementAuthority::issue();
    let mut transfers: Vec<Outflow> = Vec::new();
    if winner_payout > 0 {
        let o = vault.withdraw(&seal, Payee::Winner, winner_payout);
        transfers.push(o);
    }
    if platform_fee > 0 {
        let o = vault.withdraw(&seal, Payee::Platform, platform_fee);
        transfers.push(o);
    }
    proof {
        assert(transfers@.map_values(|o: Outflow| outflow_view(o)) =~= settlement_transfers(old(challenge).total_pool));
    }
    challenge.status = ChallengeStatus::Ended;
    challenge.winner = winner;
    let event = ChallengeEnded {
        challenge: challenge_key,
        winner,
        payout: winner_payout,
        platform_fee,
    };
    Ok(Settlement { event, transfers })
}

/// Settles a challenge whose stakes are held in native value.
pub fn end_challenge_sol(
    challenge: &mut Challenge,
    vault: &mut EscrowVault,
    challenge_key: Address,
    authority: Address,
    winner: Address,
    now: i64,
) -> (r: Result<Settlement, FitError>)
    requires
        end_refusal(*old(challenge), authority, false, now) is None ==> old(challenge).total_pool
            <= old(vault)@,
    ensures
        end_post(
            *old(challenge),
            *old(vault),
            *final(challenge),
            *final(vault),
            r,
            challenge_key,
            authority,
            winner,
            false,
            now,
        ),
{
    end_challenge(challenge, vault, challenge_key, authority, winner, false, now)
}

/// Settles a challenge whose stakes are held in the fungible token.
pub fn end_challenge_usdc(
    challenge: &mut Challenge,
    vault: &mut EscrowVault,
    challenge_key: Address,
    authority: Address,
    winner: Address,
    now: i64,
) -> (r: Result<Settlement, FitError>)
    requires
        end_refusal(*old(challenge), authority, true, now) is None ==> old(challenge).total_pool
            <= old(vault)@,
    ensures
        end_post(
            *old(challenge),
            *old(vault),
            *final(challenge),
            *final(vault),
            r,
            challenge_key,
            authority,
            winner,
            true,
            now,
        ),
{
    end_challenge(challenge, vault, challenge_key, authority, winner, true, now)
}

// ---------------------------------------------------------------- cancellation

/// Why a cancellation by `creator` is refused, if it is. Only a challenge
/// that never took a stake can be cancelled, so no refund is ever owed.
pub open spec fn cancel_refusal(ch: Challenge, creator: Address) -> Option<FitError> {
    if creator@ != ch.creator@ {
        Some(FitError::NotCreator)
    } else if ch.status != ChallengeStatus::Active {
        Some(FitError::ChallengeClosed)
    } else if ch.participant_count != 0 {
        Some(FitError::HasParticipants)
    } else {
        None
    }
}

/// The challenge once cancelled.
pub open spec fn cancelled_challenge(ch: Challenge) -> Challenge {
    Challenge { status: ChallengeStatus::Cancelled, ..ch }
}

/// The outcome of a cancellation, relating the challenge before (`c0`) and
/// after (`c1`) to the result: a refusal changes nothing; an accepted
/// cancellation closes the challenge and is announced.
pub open spec fn cancel_post(
    c0: Challenge,
    c1: Challenge,
    r: Result<ChallengeCancelled, FitError>,
    challenge_key: Address,
    creator: Address,
) -> bool {
    match cancel_refusal(c0, creator) {
        Some(e) => r == Err::<ChallengeCancelled, FitError>(e) && c1 == c0,
        None => {
            &&& r == Ok::<ChallengeCancelled, FitError>(
                ChallengeCancelled { challenge: challenge_key, creator },
            )
            &&& c1 == cancelled_challenge(c0)
        },
    }
}

/// Cancels the challenge at `challenge_key`.
pub fn cancel_challenge(challenge: &mut Challenge, challenge_key: Address, creator: Address) -> (r: Result<
    ChallengeCancelled,
    FitError,
>)
    ensures
        cancel_post(*old(challenge), *final(challenge), r, challenge_key, creator),
{
    if !(creator == challenge.creator) {
        return Err(FitError::NotCreator);
    }
    if challenge.status != ChallengeStatus::Active {
        return Err(FitError::ChallengeClosed);
    }
    if challenge.participant_count != 0 {
        return Err(FitError::HasParticipants);
    }
    challenge.status = ChallengeStatus::Cancelled;
    Ok(ChallengeCancelled { challenge: challenge_key, creator })
}

} // verus!
