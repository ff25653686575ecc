use puzzle_contracts::mentorship::{Error, MentorshipContract, MilestoneInput, MilestoneStatus, SessionStatus};
use puzzle_contracts::token::TokenTransfer;

const ADMIN: u64 = 1;
const MENTOR: u64 = 2;
const STUDENT: u64 = 3;
const TOKEN: u64 = 50;
const CONTRACT: u64 = 90;

fn setup() -> MentorshipContract {
    MentorshipContract::initialize(ADMIN, TOKEN)
}

fn make_milestones(count: u32, reward_each: i128) -> Vec<MilestoneInput> {
    (0..count)
        .map(|_| MilestoneInput { description: "Learn and complete task".to_string(), reward_amount: reward_each })
        .collect()
}

fn register_both(c: &mut MentorshipContract) {
    c.register_mentor(MENTOR, "Blockchain Gaming".to_string(), 100).unwrap();
    c.register_student(STUDENT).unwrap();
}

fn pay(to: u64, amount: i128) -> TokenTransfer {
    TokenTransfer { token: TOKEN, from: CONTRACT, to, amount }
}

/// A started session with the given milestones.
fn started(c: &mut MentorshipContract, count: u32, reward_each: i128) -> u64 {
    register_both(c);
    let id = c.create_session(STUDENT, MENTOR, &make_milestones(count, reward_each), 86400, 70).unwrap();
    c.deposit_reward_pool(id, STUDENT, CONTRACT).unwrap();
    c.start_session(id, 10).unwrap();
    id
}

#[test]
fn test_register_mentor() {
    let mut c = setup();
    c.register_mentor(MENTOR, "Stellar Development".to_string(), 200).unwrap();
    let profile = c.get_mentor_profile(MENTOR).unwrap();
    assert_eq!(profile.mentor, MENTOR);
    assert_eq!(profile.hourly_rate, 200);
    assert_eq!(profile.total_sessions, 0);
    assert_eq!(profile.rating_count, 0);
    assert!(profile.active);
}

#[test]
fn test_register_student() {
    let mut c = setup();
    c.register_student(STUDENT).unwrap();
    let profile = c.get_student_profile(STUDENT).unwrap();
    assert_eq!(profile.student, STUDENT);
    assert_eq!(profile.total_sessions, 0);
    assert_eq!(profile.certificates_earned, 0);
    assert!(profile.active);
}

#[test]
fn test_duplicate_registration_rejected() {
    let mut c = setup();
    c.register_mentor(MENTOR, "Expert".to_string(), 100).unwrap();
    let result = c.register_mentor(MENTOR, "Expert".to_string(), 100);
    assert_eq!(result, Err(Error::AlreadyRegistered));
    c.register_student(STUDENT).unwrap();
    assert_eq!(c.register_student(STUDENT), Err(Error::AlreadyRegistered));
}

#[test]
fn test_create_session() {
    let mut c = setup();
    register_both(&mut c);
    let session_id = c.create_session(STUDENT, MENTOR, &make_milestones(3, 500), 86400, 70).unwrap();
    assert_eq!(session_id, 1);
    let session = c.get_session(session_id).unwrap();
    assert_eq!(session.mentor, MENTOR);
    assert_eq!(session.student, STUDENT);
    assert_eq!(session.milestone_count, 3);
    assert_eq!(session.reward_pool, 1_500);
    assert_eq!(session.mentor_share, 70);
    assert_eq!(session.status, SessionStatus::Pending);
    assert!(!session.pool_deposited);
    assert_eq!(c.get_mentor_profile(MENTOR).unwrap().total_sessions, 1);
    assert_eq!(c.get_student_profile(STUDENT).unwrap().total_sessions, 1);
    let m = c.get_milestone(session_id, 2).unwrap();
    assert_eq!(m.index, 2);
    assert_eq!(m.reward_amount, 500);
    assert_eq!(m.status, MilestoneStatus::Pending);
    assert_eq!(c.get_milestone(session_id, 3).err(), Some(Error::MilestoneNotFound));
}

#[test]
fn create_session_errors() {
    let mut c = setup();
    assert_eq!(c.create_session(STUDENT, MENTOR, &make_milestones(1, 5), 10, 70), Err(Error::MentorNotFound));
    c.register_mentor(MENTOR, "x".to_string(), 1).unwrap();
    assert_eq!(c.create_session(STUDENT, MENTOR, &make_milestones(1, 5), 10, 70), Err(Error::StudentNotFound));
    c.register_student(STUDENT).unwrap();
    assert_eq!(c.create_session(STUDENT, MENTOR, &make_milestones(1, 5), 10, 101), Err(Error::UnauthorizedCaller));
    assert_eq!(c.create_session(STUDENT, MENTOR, &vec![], 10, 70), Err(Error::InvalidMilestoneCount));
    assert_eq!(c.get_mentor_profile(MENTOR).unwrap().total_sessions, 0);
}

#[test]
fn test_deposit_and_start_session() {
    let mut c = setup();
    register_both(&mut c);
    let id = c.create_session(STUDENT, MENTOR, &make_milestones(2, 1_000), 86400, 70).unwrap();
    let t = c.deposit_reward_pool(id, STUDENT, CONTRACT).unwrap();
    assert_eq!(t, Some(TokenTransfer { token: TOKEN, from: STUDENT, to: CONTRACT, amount: 2_000 }));
    assert!(c.get_session(id).unwrap().pool_deposited);
    assert_eq!(c.deposit_reward_pool(id, STUDENT, CONTRACT), Ok(None));
    c.start_session(id, 10).unwrap();
    assert_eq!(c.get_session(id).unwrap().status, SessionStatus::Active);
}

#[test]
fn test_cannot_start_without_pool() {
    let mut c = setup();
    register_both(&mut c);
    let id = c.create_session(STUDENT, MENTOR, &make_milestones(1, 500), 86400, 70).unwrap();
    assert_eq!(c.start_session(id, 10), Err(Error::PoolNotDeposited));
}

#[test]
fn test_submit_and_verify_milestone() {
    let mut c = setup();
    register_both(&mut c);
    let id = c.create_session(STUDENT, MENTOR, &make_milestones(2, 1_000), 86400, 60).unwrap();
    c.deposit_reward_pool(id, STUDENT, CONTRACT).unwrap();
    c.start_session(id, 10).unwrap();
    c.submit_milestone(id, 0).unwrap();
    assert_eq!(c.get_milestone(id, 0).unwrap().status, MilestoneStatus::Submitted);
    let ts = c.verify_milestone(id, 0, CONTRACT).unwrap();
    assert_eq!(ts, vec![pay(MENTOR, 600), pay(STUDENT, 400)]);
    assert_eq!(c.get_milestone(id, 0).unwrap().status, MilestoneStatus::Verified);
    let session = c.get_session(id).unwrap();
    assert_eq!(session.milestones_verified, 1);
    assert_eq!(session.reward_distributed, 1_000);
    assert_eq!(c.submit_milestone(id, 0), Err(Error::MilestoneAlreadyVerified));
}

#[test]
fn test_reject_and_resubmit_milestone() {
    let mut c = setup();
    let id = started(&mut c, 1, 500);
    c.submit_milestone(id, 0).unwrap();
    c.reject_milestone(id, 0).unwrap();
    assert_eq!(c.get_milestone(id, 0).unwrap().status, MilestoneStatus::Rejected);
    c.submit_milestone(id, 0).unwrap();
    c.verify_milestone(id, 0, CONTRACT).unwrap();
    assert_eq!(c.get_milestone(id, 0).unwrap().status, MilestoneStatus::Verified);
}

#[test]
fn test_cannot_verify_unsubmitted_milestone() {
    let mut c = setup();
    let id = started(&mut c, 1, 500);
    assert_eq!(c.verify_milestone(id, 0, CONTRACT), Err(Error::MilestoneNotSubmitted));
    assert_eq!(c.reject_milestone(id, 0), Err(Error::MilestoneNotSubmitted));
}

#[test]
fn test_complete_session_and_certificate() {
    let mut c = setup();
    let id = started(&mut c, 2, 500);
    for idx in 0..2u32 {
        c.submit_milestone(id, idx).unwrap();
        c.verify_milestone(id, idx, CONTRACT).unwrap();
    }
    c.complete_session(id, 99).unwrap();
    assert_eq!(c.get_session(id).unwrap().status, SessionStatus::Completed);
    let cert = c.get_certificate(id).unwrap();
    assert_eq!(cert.session_id, id);
    assert_eq!(cert.student, STUDENT);
    assert_eq!(cert.mentor, MENTOR);
    assert_eq!(cert.milestones_completed, 2);
    assert_eq!(cert.issued_at, 99);
    assert_eq!(c.get_mentor_profile(MENTOR).unwrap().completed_sessions, 1);
    let sp = c.get_student_profile(STUDENT).unwrap();
    assert_eq!(sp.completed_sessions, 1);
    assert_eq!(sp.certificates_earned, 1);
}

#[test]
fn test_cannot_complete_with_unfinished_milestones() {
    let mut c = setup();
    let id = started(&mut c, 3, 300);
    c.submit_milestone(id, 0).unwrap();
    c.verify_milestone(id, 0, CONTRACT).unwrap();
    assert_eq!(c.complete_session(id, 99), Err(Error::MilestonesIncomplete));
}

fn completed(c: &mut MentorshipContract) -> u64 {
    let id = started(c, 1, 500);
    c.submit_milestone(id, 0).unwrap();
    c.verify_milestone(id, 0, CONTRACT).unwrap();
    c.complete_session(id, 99).unwrap();
    id
}

#[test]
fn test_rate_mentor_and_reputation() {
    let mut c = setup();
    let id = completed(&mut c);
    let review_id = c.rate_mentor(id, 5, "Excellent mentor!".to_string(), 100).unwrap();
    let review = c.get_review(review_id).unwrap();
    assert_eq!(review.rating, 5);
    assert_eq!(review.mentor, MENTOR);
    assert_eq!(review.student, STUDENT);
    let profile = c.get_mentor_profile(MENTOR).unwrap();
    assert_eq!(profile.rating_sum, 5);
    assert_eq!(profile.rating_count, 1);
    assert_eq!(c.get_mentor_rating(MENTOR), Ok(500));
}

#[test]
fn test_invalid_rating_rejected() {
    let mut c = setup();
    let id = completed(&mut c);
    assert_eq!(c.rate_mentor(id, 6, "Great".to_string(), 100), Err(Error::InvalidRating));
    assert_eq!(c.rate_mentor(id, 0, "Bad".to_string(), 100), Err(Error::InvalidRating));
}

#[test]
fn test_cannot_rate_twice() {
    let mut c = setup();
    let id = completed(&mut c);
    c.rate_mentor(id, 4, "Good".to_string(), 100).unwrap();
    assert_eq!(c.rate_mentor(id, 5, "Changed mind".to_string(), 101), Err(Error::AlreadyReviewed));
}

#[test]
fn mentorship_marketplace_listing_and_take() {
    let mut c = setup();
    register_both(&mut c);
    let listing_id = c.list_on_marketplace(MENTOR, "NFT Gaming Strategy".to_string(), 86400, 2, 2_000, 75).unwrap();
    assert_eq!(listing_id, 1);
    let listing = c.get_listing(listing_id).unwrap();
    assert!(listing.active);
    assert_eq!(listing.mentor_share, 75);
    assert_eq!(listing.milestone_count, 2);
    let session_id = c.take_from_marketplace(listing_id, STUDENT, &make_milestones(2, 1_000)).unwrap();
    let session = c.get_session(session_id).unwrap();
    assert_eq!(session.mentor, MENTOR);
    assert_eq!(session.student, STUDENT);
    assert_eq!(session.milestone_count, 2);
    assert_eq!(session.reward_pool, 2_000);
    assert_eq!(session.mentor_share, 75);
    assert_eq!(session.status, SessionStatus::Pending);
    assert!(!c.get_listing(listing_id).unwrap().active);
    assert_eq!(
        c.take_from_marketplace(listing_id, STUDENT, &make_milestones(2, 1_000)),
        Err(Error::ListingNotFound)
    );
}

#[test]
fn test_marketplace_wrong_milestone_count_rejected() {
    let mut c = setup();
    register_both(&mut c);
    let listing_id = c.list_on_marketplace(MENTOR, "Expert".to_string(), 86400, 3, 3_000, 70).unwrap();
    let result = c.take_from_marketplace(listing_id, STUDENT, &make_milestones(2, 1_000));
    assert_eq!(result, Err(Error::InvalidMilestoneCount));
    assert!(c.get_listing(listing_id).unwrap().active);
}

#[test]
fn test_full_mentorship_flow() {
    let mut c = setup();
    register_both(&mut c);
    let milestones = vec![
        MilestoneInput { description: "Understand Soroban basics".to_string(), reward_amount: 400 },
        MilestoneInput { description: "Deploy first contract".to_string(), reward_amount: 600 },
    ];
    let id = c.create_session(STUDENT, MENTOR, &milestones, 86400, 80).unwrap();
    c.deposit_reward_pool(id, STUDENT, CONTRACT).unwrap();
    c.start_session(id, 10).unwrap();
    c.submit_milestone(id, 0).unwrap();
    assert_eq!(c.verify_milestone(id, 0, CONTRACT).unwrap(), vec![pay(MENTOR, 320), pay(STUDENT, 80)]);
    c.submit_milestone(id, 1).unwrap();
    assert_eq!(c.verify_milestone(id, 1, CONTRACT).unwrap(), vec![pay(MENTOR, 480), pay(STUDENT, 120)]);
    c.complete_session(id, 99).unwrap();
    let cert = c.get_certificate(id).unwrap();
    assert_eq!(cert.milestones_completed, 2);
    assert_eq!(cert.student, STUDENT);
    c.rate_mentor(id, 5, "Best mentor ever!".to_string(), 100).unwrap();
    let mp = c.get_mentor_profile(MENTOR).unwrap();
    assert_eq!(mp.completed_sessions, 1);
    assert_eq!(mp.rating_sum, 5);
    assert_eq!(c.get_student_profile(STUDENT).unwrap().certificates_earned, 1);
    assert_eq!(c.get_mentor_rating(MENTOR), Ok(500));
    assert_eq!(c.get_mentor_rating(77), Err(Error::MentorNotFound));
}
