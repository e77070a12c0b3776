//! What holds across operations: the bookkeeping of stakes, the refusal of
//! double joins and double payouts, and the score policy.

use vstd::prelude::*;
use crate::address::Address;
use crate::lifecycle::{
    Settlement, cancel_post, cancel_refusal, end_post, join_fits, join_post, joined_challenge,
    submitted_participant, best_of,
};
use crate::payout::{platform_fee_of, winner_payout_of};
use crate::state::{
    Challenge, ChallengeCancelled, ChallengeStatus, FitError, Participant, ParticipantJoined,
};
use crate::vault::EscrowVault;

verus! {

/// The pool holds exactly one entry fee per participant.
pub open spec fn pool_balanced(ch: Challenge) -> bool {
    ch.total_pool == ch.entry_fee * ch.participant_count
}

/// The custody invariant: the pool holds one entry fee per participant;
/// while the challenge is active the vault holds exactly the pool, and once
/// it is settled or cancelled the vault holds nothing.
pub open spec fn custody_holds(ch: Challenge, vault: EscrowVault) -> bool {
    &&& pool_balanced(ch)
    &&& ch.status == ChallengeStatus::Active ==> vault@ == ch.total_pool
    &&& ch.status != ChallengeStatus::Active ==> vault@ == 0
}

/// A join, accepted or refused, keeps the custody invariant.
pub proof fn law_join_keeps_custody(
    c0: Challenge,
    p0: Participant,
    v0: EscrowVault,
    c1: Challenge,
    p1: Participant,
    v1: EscrowVault,
    r: Result<ParticipantJoined, FitError>,
    challenge_key: Address,
    player: Address,
    pay_usdc: bool,
    now: i64,
    bump: u8,
)
    requires
        join_post(c0, p0, v0, c1, p1, v1, r, challenge_key, player, pay_usdc, now, bump),
        r is Ok ==> join_fits(c0, v0),
        custody_holds(c0, v0),
    ensures
        custody_holds(c1, v1),
        r is Ok ==> c1.participant_count == c0.participant_count + 1,
{
    if r is Ok {
        lemma_join_step(c0);
    }
}

/// A settlement, accepted or refused, keeps the custody invariant; the pool
/// itself stays frozen at its last value.
pub proof fn law_end_keeps_custody(
    c0: Challenge,
    v0: EscrowVault,
    c1: Challenge,
    v1: EscrowVault,
    r: Result<Settlement, FitError>,
    challenge_key: Address,
    authority: Address,
    winner: Address,
    pay_usdc: bool,
    now: i64,
)
    requires
        end_post(c0, v0, c1, v1, r, challenge_key, authority, winner, pay_usdc, now),
        custody_holds(c0, v0),
    ensures
        custody_holds(c1, v1),
        c1.total_pool == c0.total_pool,
        c1.participant_count == c0.participant_count,
{
}

/// A cancellation, accepted or refused, keeps the custody invariant with the
/// vault as it is: a cancellable challenge never took a stake.
pub proof fn law_cancel_keeps_custody(
    c0: Challenge,
    c1: Challenge,
    r: Result<ChallengeCancelled, FitError>,
    vault: EscrowVault,
    challenge_key: Address,
    creator: Address,
)
    requires
        cancel_post(c0, c1, r, challenge_key, creator),
        custody_holds(c0, vault),
    ensures
        custody_holds(c1, vault),
{
    if r is Ok {
        assert(c0.total_pool == 0) by (nonlinear_arith)
            requires
                c0.total_pool == c0.entry_fee * c0.participant_count,
                c0.participant_count == 0,
        ;
    }
}

proof fn lemma_join_step(c: Challenge)
    requires
        pool_balanced(c),
        c.total_pool + c.entry_fee <= u64::MAX,
        c.participant_count < u32::MAX,
    ensures
        pool_balanced(joined_challenge(c)),
{
    let f = c.entry_fee as int;
    let n = c.participant_count as int;
    assert(f * (n + 1) == f * n + f) by (nonlinear_arith);
}

/// Along any run of accepted joins that starts from a new challenge, the
/// pool equals the entry fee times the participant count after every join.
pub proof fn law_pool_tracks_participants(states: Seq<Challenge>)
    requires
        states.len() >= 1,
        states[0].total_pool == 0,
        states[0].participant_count == 0,
        forall|i: int|
            0 <= i < states.len() - 1 ==> {
                &&& states[i].total_pool + states[i].entry_fee <= u64::MAX
                &&& states[i].participant_count < u32::MAX
                &&& states[i + 1] == #[trigger] joined_challenge(states[i])
            },
    ensures
        forall|i: int| 0 <= i < states.len() ==> pool_balanced(#[trigger] states[i]),
    decreases states.len(),
{
    if states.len() > 1 {
        let prefix = states.drop_last();
        assert forall|i: int| 0 <= i < prefix.len() - 1 implies {
            &&& prefix[i].total_pool + prefix[i].entry_fee <= u64::MAX
            &&& prefix[i].participant_count < u32::MAX
            &&& prefix[i + 1] == #[trigger] joined_challenge(prefix[i])
        } by {
            assert(states[i + 1] == joined_challenge(states[i]));
        }
        law_pool_tracks_participants(prefix);
        let k = states.len() - 2;
        assert(pool_balanced(prefix[k]));
        assert(states[k + 1] == joined_challenge(states[k]));
        lemma_join_step(states[k]);
        assert forall|i: int| 0 <= i < states.len() implies pool_balanced(#[trigger] states[i]) by {
            if i < states.len() - 1 {
                assert(prefix[i] == states[i]);
            }
        }
    } else {
        assert(pool_balanced(states[0])) by (nonlinear_arith)
            requires
                states[0].total_pool == 0,
                states[0].participant_count == 0,
        ;
    }
}

/// Once a join has been accepted, joining again with the same record
/// through the same payment channel is refused as a double join and
/// changes neither the pool nor the count.
pub proof fn law_second_join_refused(
    c0: Challenge,
    p0: Participant,
    v0: EscrowVault,
    c1: Challenge,
    p1: Participant,
    v1: EscrowVault,
    r1: Result<ParticipantJoined, FitError>,
    c2: Challenge,
    p2: Participant,
    v2: EscrowVault,
    r2: Result<ParticipantJoined, FitError>,
    challenge_key: Address,
    player: Address,
    pay_usdc: bool,
    now1: i64,
    now2: i64,
    bump: u8,
)
    requires
        join_post(c0, p0, v0, c1, p1, v1, r1, challenge_key, player, pay_usdc, now1, bump),
        r1 is Ok,
        join_post(c1, p1, v1, c2, p2, v2, r2, challenge_key, player, pay_usdc, now2, bump),
    ensures
        r2 == Err::<ParticipantJoined, FitError>(FitError::AlreadyJoined),
        c2.total_pool == c1.total_pool,
        c2.participant_count == c1.participant_count,
        v2 == v1,
{
}

/// The best of a starting score and every score submitted after it.
pub open spec fn running_best(start: u64, scores: Seq<u64>) -> u64
    decreases scores.len(),
{
    if scores.len() == 0 {
        start
    } else {
        best_of(running_best(start, scores.drop_last()), scores.last())
    }
}

/// Along any run of accepted submissions, the stored score never decreases
/// and always equals the best of the scores submitted so far (a record
/// starts at zero when its player joins).
pub proof fn law_score_is_running_best(
    records: Seq<Participant>,
    scores: Seq<u64>,
    hashes: Seq<[u8; 32]>,
    times: Seq<i64>,
)
    requires
        records.len() == scores.len() + 1,
        hashes.len() == scores.len(),
        times.len() == scores.len(),
        forall|i: int|
            0 <= i < scores.len() ==> records[i + 1] == #[trigger] submitted_participant(
                records[i],
                scores[i],
                hashes[i],
                times[i],
            ),
    ensures
        records.last().score == running_best(records[0].score, scores),
        forall|i: int, j: int|
            0 <= i <= j < records.len() ==> #[trigger] records[i].score <= #[trigger] records[j].score,
    decreases scores.len(),
{
    if scores.len() > 0 {
        let n = scores.len() - 1;
        let rs = records.drop_last();
        let ss = scores.drop_last();
        assert forall|i: int| 0 <= i < ss.len() implies rs[i + 1] == #[trigger] submitted_participant(
            rs[i],
            ss[i],
            hashes.drop_last()[i],
            times.drop_last()[i],
        ) by {
            assert(records[i + 1] == submitted_participant(records[i], scores[i], hashes[i], times[i]));
        }
        law_score_is_running_best(rs, ss, hashes.drop_last(), times.drop_last());
        assert(records[n + 1] == submitted_participant(records[n], scores[n], hashes[n], times[n]));
        assert forall|i: int, j: int|
            0 <= i <= j < records.len() implies #[trigger] records[i].score <= #[trigger] records[j].score by {
            if j == records.len() - 1 && i < j {
                assert(rs[i].score <= rs[n].score);
            } else if j < records.len() - 1 {
                assert(rs[i].score <= rs[j].score);
            }
        }
    }
}

/// A settlement asked for by the creator before the end of the window is
/// refused as premature, and leaves the vault and the status as they were.
pub proof fn law_early_end_refused(
    c0: Challenge,
    v0: EscrowVault,
    c1: Challenge,
    v1: EscrowVault,
    r: Result<Settlement, FitError>,
    challenge_key: Address,
    authority: Address,
    winner: Address,
    pay_usdc: bool,
    now: i64,
)
    requires
        end_post(c0, v0, c1, v1, r, challenge_key, authority, winner, pay_usdc, now),
        authority@ == c0.creator@,
        now < c0.end_time,
    ensures
        r is Err,
        r->Err_0 == FitError::ChallengeNotOver,
        v1@ == v0@,
        c1.status == c0.status,
{
}

/// A settlement by the creator of an active challenge, from the end of the
/// window on and through the challenge's own payment channel, succeeds,
/// empties the vault, and splits the pool into fee and payout with nothing
/// lost.
pub proof fn law_settlement_drains_vault(
    c0: Challenge,
    v0: EscrowVault,
    c1: Challenge,
    v1: EscrowVault,
    r: Result<Settlement, FitError>,
    challenge_key: Address,
    authority: Address,
    winner: Address,
    now: i64,
)
    requires
        end_post(c0, v0, c1, v1, r, challenge_key, authority, winner, c0.is_usdc, now),
        c0.status == ChallengeStatus::Active,
        authority@ == c0.creator@,
        now >= c0.end_time,
        v0@ == c0.total_pool,
    ensures
        r is Ok,
        v1@ == 0,
        c1.status == ChallengeStatus::Ended,
        r->Ok_0.event.platform_fee + r->Ok_0.event.payout == c0.total_pool,
        r->Ok_0.event.platform_fee == platform_fee_of(c0.total_pool as int),
        r->Ok_0.event.payout == winner_payout_of(c0.total_pool as int),
{
    let t = c0.total_pool as int;
    assert(0 <= t * 5 / 100 <= t) by (nonlinear_arith)
        requires
            t >= 0,
    ;
}

/// Once a challenge has been settled, a later settlement by the same
/// authority is refused as closed and moves no funds: there is no double
/// payout.
pub proof fn law_no_second_settlement(
    c0: Challenge,
    v0: EscrowVault,
    c1: Challenge,
    v1: EscrowVault,
    r1: Result<Settlement, FitError>,
    c2: Challenge,
    v2: EscrowVault,
    r2: Result<Settlement, FitError>,
    challenge_key: Address,
    authority: Address,
    winner: Address,
    pay_usdc: bool,
    now1: i64,
    winner2: Address,
    pay_usdc2: bool,
    now2: i64,
)
    requires
        end_post(c0, v0, c1, v1, r1, challenge_key, authority, winner, pay_usdc, now1),
        r1 is Ok,
        end_post(c1, v1, c2, v2, r2, challenge_key, authority, winner2, pay_usdc2, now2),
        now2 >= now1,
    ensures
        r2 is Err,
        r2->Err_0 == FitError::ChallengeClosed,
        v2 == v1,
        c2 == c1,
{
}

/// A cancellation is accepted only while nobody has joined.
pub proof fn law_cancel_needs_no_participants(
    c0: Challenge,
    c1: Challenge,
    r: Result<ChallengeCancelled, FitError>,
    challenge_key: Address,
    creator: Address,
)
    requires
        cancel_post(c0, c1, r, challenge_key, creator),
    ensures
        r is Ok ==> c0.participant_count == 0,
{
}

/// After an accepted join, the creator's cancellation is refused because
/// the challenge has participants.
pub proof fn law_cancel_after_join_refused(
    c0: Challenge,
    p0: Participant,
    v0: EscrowVault,
    c1: Challenge,
    p1: Participant,
    v1: EscrowVault,
    r: Result<ParticipantJoined, FitError>,
    challenge_key: Address,
    player: Address,
    pay_usdc: bool,
    now: i64,
    bump: u8,
    creator: Address,
)
    requires
        join_post(c0, p0, v0, c1, p1, v1, r, challenge_key, player, pay_usdc, now, bump),
        join_fits(c0, v0),
        r is Ok,
        creator@ == c0.creator@,
    ensures
        cancel_refusal(c1, creator) == Some(FitError::HasParticipants),
{
}

} // verus!
