use fitwager::address::Address;
use fitwager::lifecycle::{
    cancel_challenge, create_challenge, end_challenge_sol, end_challenge_usdc, join_challenge_sol,
    join_challenge_usdc, submit_score, NewChallenge,
};
use fitwager::state::{ChallengeStatus, ChallengeType, FitError, Participant};
use fitwager::vault::{EscrowVault, Payee};

fn addr(b: u8) -> Address {
    Address([b; 32])
}

const KEY: u8 = 7;
const CREATOR: u8 = 1;
const PLAYER_A: u8 = 2;
const PLAYER_B: u8 = 3;

fn open(fee: u64, usdc: bool) -> NewChallenge {
    create_challenge(addr(KEY), addr(CREATOR), fee, 3600, ChallengeType::Steps, 10000, usdc, true, 1_000, 254)
        .unwrap()
}

#[test]
fn create_sets_window_and_status() {
    let nc = open(100, false);
    let c = nc.challenge;
    assert_eq!(c.start_time, 1_000);
    assert_eq!(c.end_time, 4_600);
    assert_eq!(c.status, ChallengeStatus::Active);
    assert_eq!(c.total_pool, 0);
    assert_eq!(c.participant_count, 0);
    assert_eq!(c.winner, Address([0; 32]));
    assert_eq!(c.creator, addr(CREATOR));
    assert_eq!(nc.vault.balance(), 0);
    assert_eq!(nc.event.end_time, 4_600);
    assert_eq!(nc.event.challenge, addr(KEY));
}

#[test]
fn create_rejects_bad_parameters() {
    let k = addr(KEY);
    let c = addr(CREATOR);
    let e = create_challenge(k, c, 0, 3600, ChallengeType::Distance, 5, false, false, 0, 0).unwrap_err();
    assert_eq!(e, FitError::InvalidEntryFee);
    let e = create_challenge(k, c, 10, 0, ChallengeType::Duration, 5, false, false, 0, 0).unwrap_err();
    assert_eq!(e, FitError::InvalidDuration);
    let e = create_challenge(k, c, 10, -5, ChallengeType::Duration, 5, false, false, 0, 0).unwrap_err();
    assert_eq!(e, FitError::InvalidDuration);
    let e = create_challenge(k, c, 10, 60, ChallengeType::Calories, 0, false, false, 0, 0).unwrap_err();
    assert_eq!(e, FitError::InvalidGoal);
}

#[test]
fn joins_keep_pool_equal_to_fee_times_count() {
    let nc = open(100, false);
    let (mut c, mut v) = (nc.challenge, nc.vault);
    for (i, who) in [PLAYER_A, PLAYER_B, 4, 5].iter().enumerate() {
        let mut p = Participant::empty();
        let ev = join_challenge_sol(&mut c, &mut p, &mut v, addr(KEY), addr(*who), 1_100, 200).unwrap();
        assert_eq!(ev.entry_fee, 100);
        assert!(!ev.is_usdc);
        assert_eq!(c.participant_count as usize, i + 1);
        assert_eq!(c.total_pool, c.entry_fee * c.participant_count as u64);
        assert_eq!(v.balance(), c.total_pool);
        assert!(p.has_joined);
        assert_eq!(p.player, addr(*who));
        assert_eq!(p.challenge, addr(KEY));
        assert_eq!(p.score, 0);
        assert_eq!(p.joined_at, 1_100);
    }
}

#[test]
fn second_join_is_refused_and_changes_nothing() {
    let nc = open(100, false);
    let (mut c, mut v) = (nc.challenge, nc.vault);
    let mut p = Participant::empty();
    join_challenge_sol(&mut c, &mut p, &mut v, addr(KEY), addr(PLAYER_A), 1_100, 200).unwrap();
    let e = join_challenge_sol(&mut c, &mut p, &mut v, addr(KEY), addr(PLAYER_A), 1_200, 200).unwrap_err();
    assert_eq!(e, FitError::AlreadyJoined);
    assert_eq!(c.total_pool, 100);
    assert_eq!(c.participant_count, 1);
    assert_eq!(v.balance(), 100);
}

#[test]
fn join_through_wrong_channel_is_refused() {
    let nc = open(100, true);
    let (mut c, mut v) = (nc.challenge, nc.vault);
    let mut p = Participant::empty();
    let e = join_challenge_sol(&mut c, &mut p, &mut v, addr(KEY), addr(PLAYER_A), 1_100, 200).unwrap_err();
    assert_eq!(e, FitError::WrongPaymentType);
    assert!(!p.has_joined);
    let ev = join_challenge_usdc(&mut c, &mut p, &mut v, addr(KEY), addr(PLAYER_A), 1_100, 200).unwrap();
    assert!(ev.is_usdc);
    assert_eq!(c.total_pool, 100);
}

#[test]
fn join_at_end_time_is_refused() {
    let nc = open(100, false);
    let (mut c, mut v) = (nc.challenge, nc.vault);
    let mut p = Participant::empty();
    let e = join_challenge_sol(&mut c, &mut p, &mut v, addr(KEY), addr(PLAYER_A), 4_600, 200).unwrap_err();
    assert_eq!(e, FitError::ChallengeEnded);
    assert_eq!(c.participant_count, 0);
    assert_eq!(v.balance(), 0);
}

#[test]
fn join_on_cancelled_challenge_is_refused() {
    let nc = open(100, false);
    let (mut c, mut v) = (nc.challenge, nc.vault);
    cancel_challenge(&mut c, addr(KEY), addr(CREATOR)).unwrap();
    let mut p = Participant::empty();
    let e = join_challenge_sol(&mut c, &mut p, &mut v, addr(KEY), addr(PLAYER_A), 1_100, 200).unwrap_err();
    assert_eq!(e, FitError::ChallengeClosed);
}

#[test]
fn score_keeps_running_maximum() {
    let nc = open(100, false);
    let (mut c, mut v) = (nc.challenge, nc.vault);
    let mut p = Participant::empty();
    join_challenge_sol(&mut c, &mut p, &mut v, addr(KEY), addr(PLAYER_A), 1_100, 200).unwrap();
    let mut best = 0u64;
    for (i, s) in [300u64, 500, 100, 500, 700, 20].iter().enumerate() {
        let hash = [i as u8; 32];
        let ev = submit_score(&c, &mut p, addr(KEY), *s, hash, 2_000 + i as i64).unwrap();
        assert_eq!(ev.score, *s);
        assert_eq!(ev.player, addr(PLAYER_A));
        best = best.max(*s);
        assert_eq!(p.score, best);
        assert!(p.has_submitted);
        assert_eq!(p.last_submission, 2_000 + i as i64);
        assert_eq!(p.verification_hash, hash);
    }
}

#[test]
fn submit_refusals() {
    let nc = open(100, false);
    let (mut c, mut v) = (nc.challenge, nc.vault);
    let mut outsider = Participant::empty();
    let e = submit_score(&c, &mut outsider, addr(KEY), 10, [0; 32], 2_000).unwrap_err();
    assert_eq!(e, FitError::NotJoined);
    let mut p = Participant::empty();
    join_challenge_sol(&mut c, &mut p, &mut v, addr(KEY), addr(PLAYER_A), 1_100, 200).unwrap();
    submit_score(&c, &mut p, addr(KEY), 10, [1; 32], 4_600).unwrap();
    let e = submit_score(&c, &mut p, addr(KEY), 99, [2; 32], 4_601).unwrap_err();
    assert_eq!(e, FitError::ChallengeEnded);
    assert_eq!(p.score, 10);
    assert_eq!(p.verification_hash, [1; 32]);
    end_challenge_sol(&mut c, &mut v, addr(KEY), addr(CREATOR), addr(PLAYER_A), 4_600).unwrap();
    let e = submit_score(&c, &mut p, addr(KEY), 99, [2; 32], 4_600).unwrap_err();
    assert_eq!(e, FitError::ChallengeClosed);
}

#[test]
fn end_before_end_time_is_refused() {
    let nc = open(100, false);
    let (mut c, mut v) = (nc.challenge, nc.vault);
    let mut p = Participant::empty();
    join_challenge_sol(&mut c, &mut p, &mut v, addr(KEY), addr(PLAYER_A), 1_100, 200).unwrap();
    let e = end_challenge_sol(&mut c, &mut v, addr(KEY), addr(CREATOR), addr(PLAYER_A), 4_599)
        .unwrap_err();
    assert_eq!(e, FitError::ChallengeNotOver);
    assert_eq!(v.balance(), 100);
    assert_eq!(c.status, ChallengeStatus::Active);
}

#[test]
fn end_by_other_than_creator_is_refused() {
    let nc = open(100, false);
    let (mut c, mut v) = (nc.challenge, nc.vault);
    let e = end_challenge_sol(&mut c, &mut v, addr(KEY), addr(PLAYER_A), addr(PLAYER_A), 5_000)
        .unwrap_err();
    assert_eq!(e, FitError::NotCreator);
    assert_eq!(c.status, ChallengeStatus::Active);
}

#[test]
fn end_through_wrong_channel_is_refused() {
    let nc = open(100, false);
    let (mut c, mut v) = (nc.challenge, nc.vault);
    let e = end_challenge_usdc(&mut c, &mut v, addr(KEY), addr(CREATOR), addr(PLAYER_A), 5_000)
        .unwrap_err();
    assert_eq!(e, FitError::WrongPaymentType);
    assert_eq!(c.status, ChallengeStatus::Active);
}

#[test]
fn end_splits_pool_and_empties_vault() {
    let nc = open(500, true);
    let (mut c, mut v) = (nc.challenge, nc.vault);
    for who in [PLAYER_A, PLAYER_B] {
        let mut p = Participant::empty();
        join_challenge_usdc(&mut c, &mut p, &mut v, addr(KEY), addr(who), 1_100, 200).unwrap();
    }
    assert_eq!(v.balance(), 1000);
    let s = end_challenge_usdc(&mut c, &mut v, addr(KEY), addr(CREATOR), addr(PLAYER_B), 9_000)
        .unwrap();
    assert_eq!(s.event.platform_fee, 50);
    assert_eq!(s.event.payout, 950);
    assert_eq!(s.event.winner, addr(PLAYER_B));
    assert_eq!(s.transfers.len(), 2);
    assert_eq!(s.transfers[0].payee, Payee::Winner);
    assert_eq!(s.transfers[0].amount, 950);
    assert_eq!(s.transfers[1].payee, Payee::Platform);
    assert_eq!(s.transfers[1].amount, 50);
    assert_eq!(v.balance(), 0);
    assert_eq!(c.status, ChallengeStatus::Ended);
    assert_eq!(c.winner, addr(PLAYER_B));
    assert_eq!(c.total_pool, 1000);
}

#[test]
fn end_with_empty_pool_moves_nothing() {
    let nc = open(100, false);
    let (mut c, mut v) = (nc.challenge, nc.vault);
    let s = end_challenge_sol(&mut c, &mut v, addr(KEY), addr(CREATOR), addr(PLAYER_A), 4_600)
        .unwrap();
    assert!(s.transfers.is_empty());
    assert_eq!(s.event.payout, 0);
    assert_eq!(s.event.platform_fee, 0);
    assert_eq!(c.status, ChallengeStatus::Ended);
}

#[test]
fn end_with_fee_rounding_to_zero_pays_winner_only() {
    let nc = open(1, false);
    let (mut c, mut v) = (nc.challenge, nc.vault);
    let mut p = Participant::empty();
    join_challenge_sol(&mut c, &mut p, &mut v, addr(KEY), addr(PLAYER_A), 1_100, 200).unwrap();
    let s = end_challenge_sol(&mut c, &mut v, addr(KEY), addr(CREATOR), addr(PLAYER_A), 4_600)
        .unwrap();
    assert_eq!(s.transfers.len(), 1);
    assert_eq!(s.transfers[0].payee, Payee::Winner);
    assert_eq!(s.transfers[0].amount, 1);
    assert_eq!(s.event.platform_fee, 0);
    assert_eq!(v.balance(), 0);
}

#[test]
fn second_end_is_refused_without_payout() {
    let nc = open(100, false);
    let (mut c, mut v) = (nc.challenge, nc.vault);
    let mut p = Participant::empty();
    join_challenge_sol(&mut c, &mut p, &mut v, addr(KEY), addr(PLAYER_A), 1_100, 200).unwrap();
    end_challenge_sol(&mut c, &mut v, addr(KEY), addr(CREATOR), addr(PLAYER_A), 4_600).unwrap();
    let before = c;
    let e = end_challenge_sol(&mut c, &mut v, addr(KEY), addr(CREATOR), addr(PLAYER_B), 5_000)
        .unwrap_err();
    assert_eq!(e, FitError::ChallengeClosed);
    assert_eq!(v.balance(), 0);
    assert_eq!(c.winner, before.winner);
    assert_eq!(c.status, ChallengeStatus::Ended);
}

#[test]
fn cancel_without_participants() {
    let nc = open(100, false);
    let mut c = nc.challenge;
    let e = cancel_challenge(&mut c, addr(KEY), addr(PLAYER_A)).unwrap_err();
    assert_eq!(e, FitError::NotCreator);
    let ev = cancel_challenge(&mut c, addr(KEY), addr(CREATOR)).unwrap();
    assert_eq!(ev.challenge, addr(KEY));
    assert_eq!(ev.creator, addr(CREATOR));
    assert_eq!(c.status, ChallengeStatus::Cancelled);
    let e = cancel_challenge(&mut c, addr(KEY), addr(CREATOR)).unwrap_err();
    assert_eq!(e, FitError::ChallengeClosed);
}

#[test]
fn cancel_after_join_is_refused() {
    let nc = open(100, false);
    let (mut c, mut v) = (nc.challenge, nc.vault);
    let mut p = Participant::empty();
    join_challenge_sol(&mut c, &mut p, &mut v, addr(KEY), addr(PLAYER_A), 1_100, 200).unwrap();
    let e = cancel_challenge(&mut c, addr(KEY), addr(CREATOR)).unwrap_err();
    assert_eq!(e, FitError::HasParticipants);
    assert_eq!(c.status, ChallengeStatus::Active);
}

#[test]
fn full_scenario_steps_challenge() {
    let nc = create_challenge(addr(KEY), addr(CREATOR), 100, 3600, ChallengeType::Steps, 10000, false, false, 0, 1)
        .unwrap();
    let (mut c, mut v) = (nc.challenge, nc.vault);
    let mut pa = Participant::empty();
    let mut pb = Participant::empty();
    join_challenge_sol(&mut c, &mut pa, &mut v, addr(KEY), addr(PLAYER_A), 10, 2).unwrap();
    join_challenge_sol(&mut c, &mut pb, &mut v, addr(KEY), addr(PLAYER_B), 20, 3).unwrap();
    submit_score(&c, &mut pa, addr(KEY), 500, [5; 32], 30).unwrap();
    submit_score(&c, &mut pa, addr(KEY), 300, [3; 32], 40).unwrap();
    assert_eq!(pa.score, 500);
    let s = end_challenge_sol(&mut c, &mut v, addr(KEY), addr(CREATOR), addr(PLAYER_A), 3_601)
        .unwrap();
    assert_eq!(s.transfers[0].payee, Payee::Winner);
    assert_eq!(s.transfers[0].amount, 190);
    assert_eq!(s.transfers[1].payee, Payee::Platform);
    assert_eq!(s.transfers[1].amount, 10);
    assert_eq!(c.status, ChallengeStatus::Ended);
    assert_eq!(v.balance(), 0);
    let e = end_challenge_sol(&mut c, &mut v, addr(KEY), addr(CREATOR), addr(PLAYER_A), 3_700)
        .unwrap_err();
    assert_eq!(e, FitError::ChallengeClosed);
}

#[test]
fn vault_balance_constructors() {
    assert_eq!(EscrowVault::new().balance(), 0);
    assert_eq!(EscrowVault::holding(42).balance(), 42);
}
