//! Mentorship sessions between registered mentors and students: a session
//! is a list of milestones with rewards, paid from a deposited pool as the
//! mentor verifies each milestone, split by the mentor's share in percent.
//! Completed sessions earn the student a certificate and may be reviewed.
use vstd::prelude::*;
use crate::assoc::{AssocMap, PairMap};
use crate::token::TokenTransfer;

verus! {

#[derive(Clone, Copy, Debug, PartialEq, Eq, Structural)]
pub enum Error {
    MentorNotFound,
    StudentNotFound,
    SessionNotFound,
    MilestoneNotFound,
    UnauthorizedCaller,
    InvalidRating,
    SessionNotActive,
    MilestoneAlreadyVerified,
    MilestoneNotSubmitted,
    PoolNotDeposited,
    AlreadyRegistered,
    ListingNotFound,
    AlreadyReviewed,
    SessionNotCompleted,
    MilestonesIncomplete,
    InvalidMilestoneCount,
}

#[derive(Clone, Copy, Debug, PartialEq, Eq, Structural)]
pub enum SessionStatus {
    Pending,
    Active,
    Completed,
    Cancelled,
}

#[derive(Clone, Copy, Debug, PartialEq, Eq, Structural)]
pub enum MilestoneStatus {
    Pending,
    Submitted,
    Verified,
    Rejected,
}

#[derive(Debug)]
pub struct MilestoneInput {
    pub description: String,
    pub reward_amount: i128,
}

impl Clone for MilestoneInput {
    fn clone(&self) -> (r: Self)
        ensures
            r == *self,
    {
        MilestoneInput { description: self.description.clone(), reward_amount: self.reward_amount }
    }
}

#[derive(Debug)]
pub struct Milestone {
    pub index: u32,
    pub description: String,
    pub reward_amount: i128,
    pub status: MilestoneStatus,
}

impl Clone for Milestone {
    fn clone(&self) -> (r: Self)
        ensures
            r == *self,
    {
        Milestone {
            index: self.index,
            description: self.description.clone(),
            reward_amount: self.reward_amount,
            status: self.status,
        }
    }
}

#[derive(Debug)]
pub struct MentorProfile {
    pub mentor: u64,
    pub expertise: String,
    pub hourly_rate: i128,
    pub total_sessions: u32,
    pub completed_sessions: u32,
    pub rating_sum: u32,
    pub rating_count: u32,
    pub active: bool,
}

impl Clone for MentorProfile {
    fn clone(&self) -> (r: Self)
        ensures
            r == *self,
    {
        MentorProfile {
            mentor: self.mentor,
            expertise: self.expertise.clone(),
            hourly_rate: self.hourly_rate,
            total_sessions: self.total_sessions,
            completed_sessions: self.completed_sessions,
            rating_sum: self.rating_sum,
            rating_count: self.rating_count,
            active: self.active,
        }
    }
}

#[derive(Clone, Copy, Debug, PartialEq, Eq, Structural)]
pub struct StudentProfile {
    pub student: u64,
    pub total_sessions: u32,
    pub completed_sessions: u32,
    pub certificates_earned: u32,
    pub active: bool,
}

#[derive(Clone, Copy, Debug, PartialEq, Eq, Structural)]
pub struct MentorshipSession {
    pub session_id: u64,
    pub mentor: u64,
    pub student: u64,
    pub start_time: u64,
    pub duration: u64,
    pub milestone_count: u32,
    pub milestones_verified: u32,
    pub reward_pool: i128,
    pub reward_distributed: i128,
    pub mentor_share: u32,
    pub pool_deposited: bool,
    pub status: SessionStatus,
    pub reviewed: bool,
}

#[derive(Clone, Copy, Debug, PartialEq, Eq, Structural)]
pub struct Certificate {
    pub session_id: u64,
    pub student: u64,
    pub mentor: u64,
    pub milestones_completed: u32,
    pub issued_at: u64,
}

#[derive(Debug)]
pub struct Review {
    pub review_id: u64,
    pub session_id: u64,
    pub student: u64,
    pub mentor: u64,
    pub rating: u32,
    pub comment: String,
    pub created_at: u64,
}

impl Clone for Review {
    fn clone(&self) -> (r: Self)
        ensures
            r == *self,
    {
        Review {
            review_id: self.review_id,
            session_id: self.session_id,
            student: self.student,
            mentor: self.mentor,
            rating: self.rating,
            comment: self.comment.clone(),
            created_at: self.created_at,
        }
    }
}

#[derive(Debug)]
pub struct MarketplaceListing {
    pub listing_id: u64,
    pub mentor: u64,
    pub expertise: String,
    pub duration: u64,
    pub milestone_count: u32,
    pub reward_pool: i128,
    pub mentor_share: u32,
    pub active: bool,
}

impl Clone for MarketplaceListing {
    fn clone(&self) -> (r: Self)
        ensures
            r == *self,
    {
        MarketplaceListing {
            listing_id: self.listing_id,
            mentor: self.mentor,
            expertise: self.expertise.clone(),
            duration: self.duration,
            milestone_count: self.milestone_count,
            reward_pool: self.reward_pool,
            mentor_share: self.mentor_share,
            active: self.active,
        }
    }
}

/// The state of the mentorship contract.
pub struct MentorshipContract {
    pub admin: u64,
    /// The token in which reward pools are paid.
    pub token: u64,
    pub session_counter: u64,
    pub review_counter: u64,
    pub listing_counter: u64,
    pub mentors: AssocMap<MentorProfile>,
    pub students: AssocMap<StudentProfile>,
    pub sessions: AssocMap<MentorshipSession>,
    /// Milestones by (session, index).
    pub milestones: PairMap<Milestone>,
    pub certificates: AssocMap<Certificate>,
    pub reviews: AssocMap<Review>,
    pub listings: AssocMap<MarketplaceListing>,
}

/// The total reward of a list of milestones.
pub open spec fn reward_sum(ms: Seq<MilestoneInput>) -> int
    decreases ms.len(),
{
    if ms.len() == 0 {
        0
    } else {
        reward_sum(ms.drop_last()) + ms.last().reward_amount
    }
}

/// Whether every running total of the rewards stays in range.
pub open spec fn rewards_fit(ms: Seq<MilestoneInput>) -> bool {
    forall|k: int| 0 <= k <= ms.len() ==> i128::MIN <= #[trigger] reward_sum(ms.take(k)) <= i128::MAX
}

/// The pending milestone stored for the input at index `i`.
pub open spec fn milestone_from(input: MilestoneInput, i: int) -> Milestone {
    Milestone { index: i as u32, description: input.description, reward_amount: input.reward_amount, status: MilestoneStatus::Pending }
}

/// The milestones map with a session's milestones stored under
/// (session, 0), (session, 1), ...
pub open spec fn with_milestones(m: Map<(u64, u64), Milestone>, sid: u64, ms: Seq<MilestoneInput>) -> Map<(u64, u64), Milestone>
    decreases ms.len(),
{
    if ms.len() == 0 {
        m
    } else {
        with_milestones(m, sid, ms.drop_last()).insert((sid, (ms.len() - 1) as u64), milestone_from(ms.last(), ms.len() - 1))
    }
}

/// The mentor's part of a reward: `share` percent, rounded toward zero.
pub open spec fn mentor_part(amount: i128, share: u32) -> int {
    let p = amount * share;
    if p >= 0 { p / 100 } else { -((-p) / 100) }
}

/// The payouts of a verified milestone's reward: the mentor's part, then
/// the student's rest, each only when positive.
pub open spec fn reward_transfers(amount: i128, s: MentorshipSession, token: u64, contract: u64) -> Seq<TokenTransfer> {
    let a = mentor_part(amount, s.mentor_share);
    let b = amount - a;
    (if a > 0 {
        seq![TokenTransfer { token, from: contract, to: s.mentor, amount: a as i128 }]
    } else {
        Seq::empty()
    }) + (if b > 0 {
        seq![TokenTransfer { token, from: contract, to: s.student, amount: b as i128 }]
    } else {
        Seq::empty()
    })
}

impl MentorshipContract {
    /// The contract as `initialize` leaves it.
    pub fn initialize(admin: u64, token: u64) -> (c: Self)
        ensures
            c.admin == admin,
            c.token == token,
            c.session_counter == 0,
            c.review_counter == 0,
            c.listing_counter == 0,
            c.mentors@ == Map::<u64, MentorProfile>::empty(),
            c.students@ == Map::<u64, StudentProfile>::empty(),
            c.sessions@ == Map::<u64, MentorshipSession>::empty(),
            c.milestones@ == Map::<(u64, u64), Milestone>::empty(),
            c.certificates@ == Map::<u64, Certificate>::empty(),
            c.reviews@ == Map::<u64, Review>::empty(),
            c.listings@ == Map::<u64, MarketplaceListing>::empty(),
    {
        MentorshipContract {
            admin,
            token,
            session_counter: 0,
            review_counter: 0,
            listing_counter: 0,
            mentors: AssocMap::new(),
            students: AssocMap::new(),
            sessions: AssocMap::new(),
            milestones: PairMap::new(),
            certificates: AssocMap::new(),
            reviews: AssocMap::new(),
            listings: AssocMap::new(),
        }
    }

    /// Registers `mentor` (who has authorised) with an expertise and rate.
    pub fn register_mentor(&mut self, mentor: u64, expertise: String, hourly_rate: i128) -> (r: Result<(), Error>)
        ensures
            r == (if old(self).mentors@.contains_key(mentor) { Err(Error::AlreadyRegistered) } else { Ok(()) }),
            r is Err ==> *final(self) == *old(self),
            r is Ok ==> final(self).mentors@ == old(self).mentors@.insert(mentor, MentorProfile {
                mentor,
                expertise,
                hourly_rate,
                total_sessions: 0,
                completed_sessions: 0,
                rating_sum: 0,
                rating_count: 0,
                active: true,
            }),
            *final(self) == (MentorshipContract { mentors: final(self).mentors, ..*old(self) }),
    {
        if self.mentors.contains_key(mentor) {
            return Err(Error::AlreadyRegistered);
        }
        self.mentors.insert(mentor, MentorProfile {
            mentor,
            expertise,
            hourly_rate,
            total_sessions: 0,
            completed_sessions: 0,
            rating_sum: 0,
            rating_count: 0,
            active: true,
        });
        Ok(())
    }

    /// Registers `student` (who has authorised).
    pub fn register_student(&mut self, student: u64) -> (r: Result<(), Error>)
        ensures
            r == (if old(self).students@.contains_key(student) { Err(Error::AlreadyRegistered) } else { Ok(()) }),
            r is Err ==> *final(self) == *old(self),
            r is Ok ==> final(self).students@ == old(self).students@.insert(student, StudentProfile {
                student,
                total_sessions: 0,
                completed_sessions: 0,
                certificates_earned: 0,
                active: true,
            }),
            *final(self) == (MentorshipContract { students: final(self).students, ..*old(self) }),
    {
        if self.students.contains_key(student) {
            return Err(Error::AlreadyRegistered);
        }
        self.students.insert(student, StudentProfile {
            student,
            total_sessions: 0,
            completed_sessions: 0,
            certificates_earned: 0,
            active: true,
        });
        Ok(())
    }

    /// Stores the milestones of session `sid` and returns their total reward.
    fn store_milestones(&mut self, sid: u64, ms: &Vec<MilestoneInput>) -> (pool: i128)
        requires
            rewards_fit(ms@),
            ms@.len() <= u32::MAX,
        ensures
            pool == reward_sum(ms@),
            final(self).milestones@ == with_milestones(old(self).milestones@, sid, ms@),
            *final(self) == (MentorshipContract { milestones: final(self).milestones, ..*old(self) }),
    {
        let ghost m0 = self.milestones@;
        let mut pool: i128 = 0;
        let mut i: usize = 0;
        assert(ms@.take(0) =~= Seq::<MilestoneInput>::empty());
        while i < ms.len()
            invariant
                i <= ms@.len(),
                ms@.len() <= u32::MAX,
                rewards_fit(ms@),
                pool == reward_sum(ms@.take(i as int)),
                self.milestones@ == with_milestones(m0, sid, ms@.take(i as int)),
                *self == (MentorshipContract { milestones: self.milestones, ..*old(self) }),
            decreases ms@.len() - i,
        {
            proof {
                assert(ms@.take(i + 1).drop_last() =~= ms@.take(i as int));
                assert(ms@.take(i + 1).last() == ms@[i as int]);
                assert(i128::MIN <= reward_sum(ms@.take(i + 1)) <= i128::MAX);
            }
            pool = pool + ms[i].reward_amount;
            self.milestones.insert(sid, i as u64, Milestone {
                index: i as u32,
                description: ms[i].description.clone(),
                reward_amount: ms[i].reward_amount,
                status: MilestoneStatus::Pending,
            });
            i = i + 1;
        }
        assert(ms@.take(ms@.len() as int) =~= ms@);
        pool
    }

    /// The session that `create_session` and `take_from_marketplace` open.
    pub open spec fn new_session(id: u64, mentor: u64, student: u64, duration: u64, milestone_count: u32, reward_pool: i128, mentor_share: u32) -> MentorshipSession {
        MentorshipSession {
            session_id: id,
            mentor,
            student,
            start_time: 0,
            duration,
            milestone_count,
            milestones_verified: 0,
            reward_pool,
            reward_distributed: 0,
            mentor_share,
            pool_deposited: false,
            status: SessionStatus::Pending,
            reviewed: false,
        }
    }

    /// Whether the counters that opening a session for the pair raises stay in range.
    pub open spec fn open_fits(&self, mentor: u64, student: u64) -> bool {
        &&& self.session_counter < u64::MAX
        &&& self.mentors@.contains_key(mentor) ==> self.mentors@[mentor].total_sessions < u32::MAX
        &&& self.students@.contains_key(student) ==> self.students@[student].total_sessions < u32::MAX
    }

    /// Raises the session counts of the mentor and the student.
    fn count_new_session(&mut self, mentor: u64, student: u64)
        requires
            old(self).mentors@.contains_key(mentor),
            old(self).students@.contains_key(student),
            old(self).mentors@[mentor].total_sessions < u32::MAX,
            old(self).students@[student].total_sessions < u32::MAX,
        ensures
            final(self).mentors@ == old(self).mentors@.insert(mentor, MentorProfile {
                total_sessions: (old(self).mentors@[mentor].total_sessions + 1) as u32,
                ..old(self).mentors@[mentor]
            }),
            final(self).students@ == old(self).students@.insert(student, StudentProfile {
                total_sessions: (old(self).students@[student].total_sessions + 1) as u32,
                ..old(self).students@[student]
            }),
            *final(self) == (MentorshipContract { mentors: final(self).mentors, students: final(self).students, ..*old(self) }),
    {
        let mut mp = self.mentors.remove(mentor).unwrap();
        mp.total_sessions = mp.total_sessions + 1;
        self.mentors.insert(mentor, mp);
        let mut sp = *self.students.get(student).unwrap();
        sp.total_sessions = sp.total_sessions + 1;
        self.students.insert(student, sp);
    }

    /// The student (who has authorised) opens a pending session with a
    /// registered mentor: its milestones are stored in order, its reward
    /// pool is their total, and both profiles count one more session.
    /// Returns the session's id, the next in sequence.
    pub fn create_session(
        &mut self,
        student: u64,
        mentor: u64,
        milestones: &Vec<MilestoneInput>,
        duration: u64,
        mentor_share: u32,
    ) -> (r: Result<u64, Error>)
        requires
            old(self).open_fits(mentor, student),
            rewards_fit(milestones@),
            milestones@.len() <= u32::MAX,
        ensures
            r == (if !old(self).mentors@.contains_key(mentor) {
                Err(Error::MentorNotFound)
            } else if !old(self).students@.contains_key(student) {
                Err(Error::StudentNotFound)
            } else if mentor_share > 100 {
                Err(Error::UnauthorizedCaller)
            } else if milestones@.len() == 0 {
                Err(Error::InvalidMilestoneCount)
            } else {
                Ok((old(self).session_counter + 1) as u64)
            }),
            r is Err ==> *final(self) == *old(self),
            r matches Ok(id) ==> {
                &&& final(self).sessions@ == old(self).sessions@.insert(id, Self::new_session(id, mentor, student, duration, milestones@.len() as u32, reward_sum(milestones@) as i128, mentor_share))
                &&& final(self).milestones@ == with_milestones(old(self).milestones@, id, milestones@)
                &&& final(self).mentors@ == old(self).mentors@.insert(mentor, MentorProfile {
                    total_sessions: (old(self).mentors@[mentor].total_sessions + 1) as u32,
                    ..old(self).mentors@[mentor]
                })
                &&& final(self).students@ == old(self).students@.insert(student, StudentProfile {
                    total_sessions: (old(self).students@[student].total_sessions + 1) as u32,
                    ..old(self).students@[student]
                })
                &&& *final(self) == (MentorshipContract {
                    session_counter: id,
                    sessions: final(self).sessions,
                    milestones: final(self).milestones,
                    mentors: final(self).mentors,
                    students: final(self).students,
                    ..*old(self)
                })
            },
    {
        if !self.mentors.contains_key(mentor) {
            return Err(Error::MentorNotFound);
        }
        if !self.students.contains_key(student) {
            return Err(Error::StudentNotFound);
        }
        if mentor_share > 100 {
            return Err(Error::UnauthorizedCaller);
        }
        if milestones.len() == 0 {
            return Err(Error::InvalidMilestoneCount);
        }
        let session_id = self.session_counter + 1;
        self.session_counter = session_id;
        let reward_pool = self.store_milestones(session_id, milestones);
        self.sessions.insert(session_id, MentorshipSession {
            session_id,
            mentor,
            student,
            start_time: 0,
            duration,
            milestone_count: milestones.len() as u32,
            milestones_verified: 0,
            reward_pool,
            reward_distributed: 0,
            mentor_share,
            pool_deposited: false,
            status: SessionStatus::Pending,
            reviewed: false,
        });
        self.count_new_session(mentor, student);
        Ok(session_id)
    }

    /// `depositor` (who has authorised) pays the session's reward pool into
    /// the contract at `contract`; nothing happens when it is already paid.
    pub fn deposit_reward_pool(&mut self, session_id: u64, depositor: u64, contract: u64) -> (r: Result<Option<TokenTransfer>, Error>)
        ensures
            !old(self).sessions@.contains_key(session_id) ==> r == Err::<Option<TokenTransfer>, Error>(Error::SessionNotFound),
            old(self).sessions@.contains_key(session_id) ==> {
                let s = old(self).sessions@[session_id];
                if s.pool_deposited {
                    r == Ok::<Option<TokenTransfer>, Error>(None)
                } else {
                    &&& r == Ok::<Option<TokenTransfer>, Error>(Some(TokenTransfer { token: old(self).token, from: depositor, to: contract, amount: s.reward_pool }))
                    &&& final(self).sessions@ == old(self).sessions@.insert(session_id, MentorshipSession { pool_deposited: true, ..s })
                }
            },
            r is Err || r == Ok::<Option<TokenTransfer>, Error>(None) ==> *final(self) == *old(self),
            *final(self) == (MentorshipContract { sessions: final(self).sessions, ..*old(self) }),
    {
        let mut s = match self.sessions.get(session_id) {
            Some(s) => *s,
            None => {
                return Err(Error::SessionNotFound);
            },
        };
        if s.pool_deposited {
            return Ok(None);
        }
        let t = TokenTransfer { token: self.token, from: depositor, to: contract, amount: s.reward_pool };
        s.pool_deposited = true;
        self.sessions.insert(session_id, s);
        Ok(Some(t))
    }

    /// The mentor (who has authorised) starts a pending session whose pool
    /// is deposited, at time `now`.
    pub fn start_session(&mut self, session_id: u64, now: u64) -> (r: Result<(), Error>)
        ensures
            r == (if !old(self).sessions@.contains_key(session_id) {
                Err(Error::SessionNotFound)
            } else if old(self).sessions@[session_id].status != SessionStatus::Pending {
                Err(Error::SessionNotActive)
            } else if !old(self).sessions@[session_id].pool_deposited {
                Err(Error::PoolNotDeposited)
            } else {
                Ok(())
            }),
            r is Err ==> *final(self) == *old(self),
            r is Ok ==> final(self).sessions@ == old(self).sessions@.insert(session_id, MentorshipSession {
                start_time: now,
                status: SessionStatus::Active,
                ..old(self).sessions@[session_id]
            }),
            *final(self) == (MentorshipContract { sessions: final(self).sessions, ..*old(self) }),
    {
        let mut s = match self.sessions.get(session_id) {
            Some(s) => *s,
            None => {
                return Err(Error::SessionNotFound);
            },
        };
        if s.status != SessionStatus::Pending {
            return Err(Error::SessionNotActive);
        }
        if !s.pool_deposited {
            return Err(Error::PoolNotDeposited);
        }
        s.start_time = now;
        s.status = SessionStatus::Active;
        self.sessions.insert(session_id, s);
        Ok(())
    }

    /// Sets the status of a stored milestone.
    fn set_milestone_status(&mut self, session_id: u64, idx: u32, status: MilestoneStatus)
        requires
            old(self).milestones@.contains_key((session_id, idx as u64)),
        ensures
            final(self).milestones@ == old(self).milestones@.insert((session_id, idx as u64), Milestone {
                status,
                ..old(self).milestones@[(session_id, idx as u64)]
            }),
            *final(self) == (MentorshipContract { milestones: final(self).milestones, ..*old(self) }),
    {
        let mut m = self.milestones.remove(session_id, idx as u64).unwrap();
        m.status = status;
        self.milestones.insert(session_id, idx as u64, m);
    }

    /// The student (who has authorised) submits a milestone of an active
    /// session for verification.
    pub fn submit_milestone(&mut self, session_id: u64, milestone_idx: u32) -> (r: Result<(), Error>)
        ensures
            r == (if !old(self).sessions@.contains_key(session_id) {
                Err(Error::SessionNotFound)
            } else if old(self).sessions@[session_id].status != SessionStatus::Active {
                Err(Error::SessionNotActive)
            } else if !old(self).milestones@.contains_key((session_id, milestone_idx as u64)) {
                Err(Error::MilestoneNotFound)
            } else if old(self).milestones@[(session_id, milestone_idx as u64)].status == MilestoneStatus::Verified {
                Err(Error::MilestoneAlreadyVerified)
            } else {
                Ok(())
            }),
            r is Err ==> *final(self) == *old(self),
            r is Ok ==> final(self).milestones@ == old(self).milestones@.insert((session_id, milestone_idx as u64), Milestone {
                status: MilestoneStatus::Submitted,
                ..old(self).milestones@[(session_id, milestone_idx as u64)]
            }),
            *final(self) == (MentorshipContract { milestones: final(self).milestones, ..*old(self) }),
    {
        match self.sessions.get(session_id) {
            Some(s) => {
                if s.status != SessionStatus::Active {
                    return Err(Error::SessionNotActive);
                }
            },
            None => {
                return Err(Error::SessionNotFound);
            },
        }
        match self.milestones.get(session_id, milestone_idx as u64) {
            Some(m) => {
                if m.status == MilestoneStatus::Verified {
                    return Err(Error::MilestoneAlreadyVerified);
                }
            },
            None => {
                return Err(Error::MilestoneNotFound);
            },
        }
        self.set_milestone_status(session_id, milestone_idx, MilestoneStatus::Submitted);
        Ok(())
    }

    /// Whether verifying the milestone keeps the session's numbers in range.
    pub open spec fn verify_fits(&self, session_id: u64, milestone_idx: u32) -> bool {
        self.sessions@.contains_key(session_id) && self.milestones@.contains_key((session_id, milestone_idx as u64)) ==> {
            let s = self.sessions@[session_id];
            let amount = self.milestones@[(session_id, milestone_idx as u64)].reward_amount;
            &&& i128::MIN <= amount * s.mentor_share <= i128::MAX
            &&& i128::MIN <= amount - mentor_part(amount, s.mentor_share) <= i128::MAX
            &&& s.milestones_verified < u32::MAX
            &&& i128::MIN <= s.reward_distributed + amount <= i128::MAX
        }
    }

    /// The mentor (who has authorised) verifies a submitted milestone of an
    /// active session: its reward is paid from the contract at `contract`,
    /// `mentor_share` percent (rounded toward zero) to the mentor and the
    /// rest to the student. Returns the transfers made.
    pub fn verify_milestone(&mut self, session_id: u64, milestone_idx: u32, contract: u64) -> (r: Result<Vec<TokenTransfer>, Error>)
        requires
            old(self).verify_fits(session_id, milestone_idx),
        ensures
            r is Err <==> {
                ||| !old(self).sessions@.contains_key(session_id)
                ||| old(self).sessions@[session_id].status != SessionStatus::Active
                ||| !old(self).milestones@.contains_key((session_id, milestone_idx as u64))
                ||| old(self).milestones@[(session_id, milestone_idx as u64)].status != MilestoneStatus::Submitted
            },
            r is Err ==> r->Err_0 == (if !old(self).sessions@.contains_key(session_id) {
                Error::SessionNotFound
            } else if old(self).sessions@[session_id].status != SessionStatus::Active {
                Error::SessionNotActive
            } else if !old(self).milestones@.contains_key((session_id, milestone_idx as u64)) {
                Error::MilestoneNotFound
            } else if old(self).milestones@[(session_id, milestone_idx as u64)].status == MilestoneStatus::Verified {
                Error::MilestoneAlreadyVerified
            } else {
                Error::MilestoneNotSubmitted
            }),
            r is Err ==> *final(self) == *old(self),
            r matches Ok(ts) ==> {
                let s = old(self).sessions@[session_id];
                let m = old(self).milestones@[(session_id, milestone_idx as u64)];
                &&& ts@ == reward_transfers(m.reward_amount, s, old(self).token, contract)
                &&& final(self).milestones@ == old(self).milestones@.insert((session_id, milestone_idx as u64), Milestone { status: MilestoneStatus::Verified, ..m })
                &&& final(self).sessions@ == old(self).sessions@.insert(session_id, MentorshipSession {
                    milestones_verified: (s.milestones_verified + 1) as u32,
                    reward_distributed: (s.reward_distributed + m.reward_amount) as i128,
                    ..s
                })
                &&& *final(self) == (MentorshipContract { milestones: final(self).milestones, sessions: final(self).sessions, ..*old(self) })
            },
    {
        let mut s = match self.sessions.get(session_id) {
            Some(s) => *s,
            None => {
                return Err(Error::SessionNotFound);
            },
        };
        if s.status != SessionStatus::Active {
            return Err(Error::SessionNotActive);
        }
        let amount = match self.milestones.get(session_id, milestone_idx as u64) {
            Some(m) => {
                if m.status == MilestoneStatus::Verified {
                    return Err(Error::MilestoneAlreadyVerified);
                }
                if m.status != MilestoneStatus::Submitted {
                    return Err(Error::MilestoneNotSubmitted);
                }
                m.reward_amount
            },
            None => {
                return Err(Error::MilestoneNotFound);
            },
        };
        let mentor_amount = (amount * s.mentor_share as i128) / 100;
        let student_amount = amount - mentor_amount;
        let mut out: Vec<TokenTransfer> = Vec::new();
        if mentor_amount > 0 {
            out.push(TokenTransfer { token: self.token, from: contract, to: s.mentor, amount: mentor_amount });
        }
        if student_amount > 0 {
            out.push(TokenTransfer { token: self.token, from: contract, to: s.student, amount: student_amount });
        }
        assert(out@ =~= reward_transfers(amount, s, self.token, contract));
        self.set_milestone_status(session_id, milestone_idx, MilestoneStatus::Verified);
        s.milestones_verified = s.milestones_verified + 1;
        s.reward_distributed = s.reward_distributed + amount;
        self.sessions.insert(session_id, s);
        Ok(out)
    }

    /// The mentor (who has authorised) rejects a submitted milestone of an
    /// active session; the student may submit it again.
    pub fn reject_milestone(&mut self, session_id: u64, milestone_idx: u32) -> (r: Result<(), Error>)
        ensures
            r == (if !old(self).sessions@.contains_key(session_id) {
                Err(Error::SessionNotFound)
            } else if old(self).sessions@[session_id].status != SessionStatus::Active {
                Err(Error::SessionNotActive)
            } else if !old(self).milestones@.contains_key((session_id, milestone_idx as u64)) {
                Err(Error::MilestoneNotFound)
            } else if old(self).milestones@[(session_id, milestone_idx as u64)].status != MilestoneStatus::Submitted {
                Err(Error::MilestoneNotSubmitted)
            } else {
                Ok(())
            }),
            r is Err ==> *final(self) == *old(self),
            r is Ok ==> final(self).milestones@ == old(self).milestones@.insert((session_id, milestone_idx as u64), Milestone {
                status: MilestoneStatus::Rejected,
                ..old(self).milestones@[(session_id, milestone_idx as u64)]
            }),
            *final(self) == (MentorshipContract { milestones: final(self).milestones, ..*old(self) }),
    {
        match self.sessions.get(session_id) {
            Some(s) => {
                if s.status != SessionStatus::Active {
                    return Err(Error::SessionNotActive);
                }
            },
            None => {
                return Err(Error::SessionNotFound);
            },
        }
        match self.milestones.get(session_id, milestone_idx as u64) {
            Some(m) => {
                if m.status != MilestoneStatus::Submitted {
                    return Err(Error::MilestoneNotSubmitted);
                }
            },
            None => {
                return Err(Error::MilestoneNotFound);
            },
        }
        self.set_milestone_status(session_id, milestone_idx, MilestoneStatus::Rejected);
        Ok(())
    }

    /// Whether completing the session keeps the profile counters in range.
    pub open spec fn complete_fits(&self, session_id: u64) -> bool {
        self.sessions@.contains_key(session_id) ==> {
            let s = self.sessions@[session_id];
            &&& self.mentors@.contains_key(s.mentor) ==> self.mentors@[s.mentor].completed_sessions < u32::MAX
            &&& self.students@.contains_key(s.student) ==> {
                &&& self.students@[s.student].completed_sessions < u32::MAX
                &&& self.students@[s.student].certificates_earned < u32::MAX
            }
        }
    }

    /// Completes an active session whose milestones are all verified, at
    /// time `now`: a certificate is issued to the student, both profiles
    /// count the completion, and the session is marked completed.
    pub fn complete_session(&mut self, session_id: u64, now: u64) -> (r: Result<(), Error>)
        requires
            old(self).complete_fits(session_id),
        ensures
            r == (if !old(self).sessions@.contains_key(session_id) {
                Err(Error::SessionNotFound)
            } else if old(self).sessions@[session_id].status != SessionStatus::Active {
                Err(Error::SessionNotActive)
            } else if old(self).sessions@[session_id].milestones_verified < old(self).sessions@[session_id].milestone_count {
                Err(Error::MilestonesIncomplete)
            } else if !old(self).mentors@.contains_key(old(self).sessions@[session_id].mentor) {
                Err(Error::MentorNotFound)
            } else if !old(self).students@.contains_key(old(self).sessions@[session_id].student) {
                Err(Error::StudentNotFound)
            } else {
                Ok(())
            }),
            r is Err ==> *final(self) == *old(self),
            r is Ok ==> {
                let s = old(self).sessions@[session_id];
                let mp = old(self).mentors@[s.mentor];
                let sp = old(self).students@[s.student];
                &&& final(self).certificates@ == old(self).certificates@.insert(session_id, Certificate {
                    session_id,
                    student: s.student,
                    mentor: s.mentor,
                    milestones_completed: s.milestones_verified,
                    issued_at: now,
                })
                &&& final(self).mentors@ == old(self).mentors@.insert(s.mentor, MentorProfile { completed_sessions: (mp.completed_sessions + 1) as u32, ..mp })
                &&& final(self).students@ == old(self).students@.insert(s.student, StudentProfile {
                    completed_sessions: (sp.completed_sessions + 1) as u32,
                    certificates_earned: (sp.certificates_earned + 1) as u32,
                    ..sp
                })
                &&& final(self).sessions@ == old(self).sessions@.insert(session_id, MentorshipSession { status: SessionStatus::Completed, ..s })
                &&& *final(self) == (MentorshipContract {
                    certificates: final(self).certificates,
                    mentors: final(self).mentors,
                    students: final(self).students,
                    sessions: final(self).sessions,
                    ..*old(self)
                })
            },
    {
        let mut s = match self.sessions.get(session_id) {
            Some(s) => *s,
            None => {
                return Err(Error::SessionNotFound);
            },
        };
        if s.status != SessionStatus::Active {
            return Err(Error::SessionNotActive);
        }
        if s.milestones_verified < s.milestone_count {
            return Err(Error::MilestonesIncomplete);
        }
        if !self.mentors.contains_key(s.mentor) {
            return Err(Error::MentorNotFound);
        }
        if !self.students.contains_key(s.student) {
            return Err(Error::StudentNotFound);
        }
        self.certificates.insert(session_id, Certificate {
            session_id,
            student: s.student,
            mentor: s.mentor,
            milestones_completed: s.milestones_verified,
            issued_at: now,
        });
        let mut mp = self.mentors.remove(s.mentor).unwrap();
        mp.completed_sessions = mp.completed_sessions + 1;
        self.mentors.insert(s.mentor, mp);
        let mut sp = *self.students.get(s.student).unwrap();
        sp.completed_sessions = sp.completed_sessions + 1;
        sp.certificates_earned = sp.certificates_earned + 1;
        self.students.insert(s.student, sp);
        s.status = SessionStatus::Completed;
        self.sessions.insert(session_id, s);
        Ok(())
    }

    /// Whether reviewing the session keeps the counters in range.
    pub open spec fn rate_fits(&self, session_id: u64, rating: u32) -> bool {
        &&& self.review_counter < u64::MAX
        &&& self.sessions@.contains_key(session_id) && self.mentors@.contains_key(self.sessions@[session_id].mentor) ==> {
            let mp = self.mentors@[self.sessions@[session_id].mentor];
            &&& mp.rating_sum + rating <= u32::MAX
            &&& mp.rating_count < u32::MAX
        }
    }

    /// The student (who has authorised) reviews a completed session once,
    /// at time `now`, with a rating of 1 to 5; the rating is added to the
    /// mentor's reputation. Returns the review's id, the next in sequence.
    pub fn rate_mentor(&mut self, session_id: u64, rating: u32, comment: String, now: u64) -> (r: Result<u64, Error>)
        requires
            old(self).rate_fits(session_id, rating),
        ensures
            r == (if !old(self).sessions@.contains_key(session_id) {
                Err(Error::SessionNotFound)
            } else if old(self).sessions@[session_id].status != SessionStatus::Completed {
                Err(Error::SessionNotCompleted)
            } else if old(self).sessions@[session_id].reviewed {
                Err(Error::AlreadyReviewed)
            } else if rating < 1 || rating > 5 {
                Err(Error::InvalidRating)
            } else if !old(self).mentors@.contains_key(old(self).sessions@[session_id].mentor) {
                Err(Error::MentorNotFound)
            } else {
                Ok((old(self).review_counter + 1) as u64)
            }),
            r is Err ==> *final(self) == *old(self),
            r matches Ok(id) ==> {
                let s = old(self).sessions@[session_id];
                let mp = old(self).mentors@[s.mentor];
                &&& final(self).reviews@ == old(self).reviews@.insert(id, Review {
                    review_id: id,
                    session_id,
                    student: s.student,
                    mentor: s.mentor,
                    rating,
                    comment,
                    created_at: now,
                })
                &&& final(self).mentors@ == old(self).mentors@.insert(s.mentor, MentorProfile {
                    rating_sum: (mp.rating_sum + rating) as u32,
                    rating_count: (mp.rating_count + 1) as u32,
                    ..mp
                })
                &&& final(self).sessions@ == old(self).sessions@.insert(session_id, MentorshipSession { reviewed: true, ..s })
                &&& *final(self) == (MentorshipContract {
                    review_counter: id,
                    reviews: final(self).reviews,
                    mentors: final(self).mentors,
                    sessions: final(self).sessions,
                    ..*old(self)
                })
            },
    {
        let mut s = match self.sessions.get(session_id) {
            Some(s) => *s,
            None => {
                return Err(Error::SessionNotFound);
            },
        };
        if s.status != SessionStatus::Completed {
            return Err(Error::SessionNotCompleted);
        }
        if s.reviewed {
            return Err(Error::AlreadyReviewed);
        }
        if rating < 1 || rating > 5 {
            return Err(Error::InvalidRating);
        }
        if !self.mentors.contains_key(s.mentor) {
            return Err(Error::MentorNotFound);
        }
        let review_id = self.review_counter + 1;
        self.review_counter = review_id;
        self.reviews.insert(review_id, Review {
            review_id,
            session_id,
            student: s.student,
            mentor: s.mentor,
            rating,
            comment,
            created_at: now,
        });
        let mut mp = self.mentors.remove(s.mentor).unwrap();
        mp.rating_sum = mp.rating_sum + rating;
        mp.rating_count = mp.rating_count + 1;
        self.mentors.insert(s.mentor, mp);
        s.reviewed = true;
        self.sessions.insert(session_id, s);
        Ok(review_id)
    }

    /// A registered mentor (who has authorised) offers a session on the
    /// marketplace; returns the listing's id, the next in sequence.
    pub fn list_on_marketplace(
        &mut self,
        mentor: u64,
        expertise: String,
        duration: u64,
        milestone_count: u32,
        reward_pool: i128,
        mentor_share: u32,
    ) -> (r: Result<u64, Error>)
        requires
            old(self).listing_counter < u64::MAX,
        ensures
            r == (if !old(self).mentors@.contains_key(mentor) {
                Err(Error::MentorNotFound)
            } else if mentor_share > 100 {
                Err(Error::UnauthorizedCaller)
            } else {
                Ok((old(self).listing_counter + 1) as u64)
            }),
            r is Err ==> *final(self) == *old(self),
            r matches Ok(id) ==> {
                &&& final(self).listings@ == old(self).listings@.insert(id, MarketplaceListing {
                    listing_id: id,
                    mentor,
                    expertise,
                    duration,
                    milestone_count,
                    reward_pool,
                    mentor_share,
                    active: true,
                })
                &&& *final(self) == (MentorshipContract { listing_counter: id, listings: final(self).listings, ..*old(self) })
            },
    {
        if !self.mentors.contains_key(mentor) {
            return Err(Error::MentorNotFound);
        }
        if mentor_share > 100 {
            return Err(Error::UnauthorizedCaller);
        }
        let listing_id = self.listing_counter + 1;
        self.listing_counter = listing_id;
        self.listings.insert(listing_id, MarketplaceListing {
            listing_id,
            mentor,
            expertise,
            duration,
            milestone_count,
            reward_pool,
            mentor_share,
            active: true,
        });
        Ok(listing_id)
    }

    /// A registered student (who has authorised) takes an active listing
    /// with as many milestones as it names: the listing closes, and a
    /// pending session on its terms is opened whose reward pool is the
    /// total of the given milestones. Returns the session's id.
    pub fn take_from_marketplace(&mut self, listing_id: u64, student: u64, milestones: &Vec<MilestoneInput>) -> (r: Result<u64, Error>)
        requires
            old(self).listings@.contains_key(listing_id) ==> old(self).open_fits(old(self).listings@[listing_id].mentor, student),
            old(self).session_counter < u64::MAX,
            rewards_fit(milestones@),
            milestones@.len() <= u32::MAX,
        ensures
            r == (if !old(self).students@.contains_key(student) {
                Err(Error::StudentNotFound)
            } else if !old(self).listings@.contains_key(listing_id) || !old(self).listings@[listing_id].active {
                Err(Error::ListingNotFound)
            } else if milestones@.len() != old(self).listings@[listing_id].milestone_count {
                Err(Error::InvalidMilestoneCount)
            } else if !old(self).mentors@.contains_key(old(self).listings@[listing_id].mentor) {
                Err(Error::MentorNotFound)
            } else {
                Ok((old(self).session_counter + 1) as u64)
            }),
            r is Err ==> *final(self) == *old(self),
            r matches Ok(id) ==> {
                let l = old(self).listings@[listing_id];
                &&& final(self).listings@ == old(self).listings@.insert(listing_id, MarketplaceListing { active: false, ..l })
                &&& final(self).sessions@ == old(self).sessions@.insert(id, Self::new_session(id, l.mentor, student, l.duration, l.milestone_count, reward_sum(milestones@) as i128, l.mentor_share))
                &&& final(self).milestones@ == with_milestones(old(self).milestones@, id, milestones@)
                &&& final(self).mentors@ == old(self).mentors@.insert(l.mentor, MentorProfile {
                    total_sessions: (old(self).mentors@[l.mentor].total_sessions + 1) as u32,
                    ..old(self).mentors@[l.mentor]
                })
                &&& final(self).students@ == old(self).students@.insert(student, StudentProfile {
                    total_sessions: (old(self).students@[student].total_sessions + 1) as u32,
                    ..old(self).students@[student]
                })
                &&& *final(self) == (MentorshipContract {
                    session_counter: id,
                    listings: final(self).listings,
                    sessions: final(self).sessions,
                    milestones: final(self).milestones,
                    mentors: final(self).mentors,
                    students: final(self).students,
                    ..*old(self)
                })
            },
    {
        if !self.students.contains_key(student) {
            return Err(Error::StudentNotFound);
        }
        let (mentor, duration, milestone_count, mentor_share) = match self.listings.get(listing_id) {
            Some(l) => {
                if !l.active {
                    return Err(Error::ListingNotFound);
                }
                (l.mentor, l.duration, l.milestone_count, l.mentor_share)
            },
            None => {
                return Err(Error::ListingNotFound);
            },
        };
        if milestones.len() as u64 != milestone_count as u64 {
            return Err(Error::InvalidMilestoneCount);
        }
        if !self.mentors.contains_key(mentor) {
            return Err(Error::MentorNotFound);
        }
        let mut listing = self.listings.remove(listing_id).unwrap();
        listing.active = false;
        self.listings.insert(listing_id, listing);
        let session_id = self.session_counter + 1;
        self.session_counter = session_id;
        let reward_pool = self.store_milestones(session_id, milestones);
        self.sessions.insert(session_id, MentorshipSession {
            session_id,
            mentor,
            student,
            start_time: 0,
            duration,
            milestone_count,
            milestones_verified: 0,
            reward_pool,
            reward_distributed: 0,
            mentor_share,
            pool_deposited: false,
            status: SessionStatus::Pending,
            reviewed: false,
        });
        self.count_new_session(mentor, student);
        Ok(session_id)
    }

    pub fn get_mentor_profile(&self, mentor: u64) -> (r: Result<MentorProfile, Error>)
        ensures
            r == (if self.mentors@.contains_key(mentor) { Ok(self.mentors@[mentor]) } else { Err(Error::MentorNotFound) }),
    {
        match self.mentors.get(mentor) {
            Some(p) => Ok(p.clone()),
            None => Err(Error::MentorNotFound),
        }
    }

    pub fn get_student_profile(&self, student: u64) -> (r: Result<StudentProfile, Error>)
        ensures
            r == (if self.students@.contains_key(student) { Ok(self.students@[student]) } else { Err(Error::StudentNotFound) }),
    {
        match self.students.get(student) {
            Some(p) => Ok(*p),
            None => Err(Error::StudentNotFound),
        }
    }

    pub fn get_session(&self, session_id: u64) -> (r: Result<MentorshipSession, Error>)
        ensures
            r == (if self.sessions@.contains_key(session_id) { Ok(self.sessions@[session_id]) } else { Err(Error::SessionNotFound) }),
    {
        match self.sessions.get(session_id) {
            Some(s) => Ok(*s),
            None => Err(Error::SessionNotFound),
        }
    }

    pub fn get_milestone(&self, session_id: u64, milestone_idx: u32) -> (r: Result<Milestone, Error>)
        ensures
            r == (if self.milestones@.contains_key((session_id, milestone_idx as u64)) {
                Ok(self.milestones@[(session_id, milestone_idx as u64)])
            } else {
                Err(Error::MilestoneNotFound)
            }),
    {
        match self.milestones.get(session_id, milestone_idx as u64) {
            Some(m) => Ok(m.clone()),
            None => Err(Error::MilestoneNotFound),
        }
    }

    /// The certificate of a session (an unknown one reads as a missing session).
    pub fn get_certificate(&self, session_id: u64) -> (r: Result<Certificate, Error>)
        ensures
            r == (if self.certificates@.contains_key(session_id) { Ok(self.certificates@[session_id]) } else { Err(Error::SessionNotFound) }),
    {
        match self.certificates.get(session_id) {
            Some(c) => Ok(*c),
            None => Err(Error::SessionNotFound),
        }
    }

    /// A review (an unknown one reads as a missing session).
    pub fn get_review(&self, review_id: u64) -> (r: Result<Review, Error>)
        ensures
            r == (if self.reviews@.contains_key(review_id) { Ok(self.reviews@[review_id]) } else { Err(Error::SessionNotFound) }),
    {
        match self.reviews.get(review_id) {
            Some(v) => Ok(v.clone()),
            None => Err(Error::SessionNotFound),
        }
    }

    pub fn get_listing(&self, listing_id: u64) -> (r: Result<MarketplaceListing, Error>)
        ensures
            r == (if self.listings@.contains_key(listing_id) { Ok(self.listings@[listing_id]) } else { Err(Error::ListingNotFound) }),
    {
        match self.listings.get(listing_id) {
            Some(l) => Ok(l.clone()),
            None => Err(Error::ListingNotFound),
        }
    }

    /// A mentor's average rating times 100, rounded down (0 when unrated).
    pub fn get_mentor_rating(&self, mentor: u64) -> (r: Result<u32, Error>)
        requires
            self.mentors@.contains_key(mentor) ==> self.mentors@[mentor].rating_sum * 100 <= u32::MAX,
        ensures
            r == (if !self.mentors@.contains_key(mentor) {
                Err(Error::MentorNotFound)
            } else if self.mentors@[mentor].rating_count == 0 {
                Ok(0u32)
            } else {
                Ok(((self.mentors@[mentor].rating_sum * 100) / self.mentors@[mentor].rating_count as int) as u32)
            }),
    {
        match self.mentors.get(mentor) {
            Some(p) => {
                if p.rating_count == 0 {
                    Ok(0)
                } else {
                    Ok((p.rating_sum * 100) / p.rating_count)
                }
            },
            None => Err(Error::MentorNotFound),
        }
    }
}

} // verus!
