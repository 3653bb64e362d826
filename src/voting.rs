use vstd::prelude::*;

verus! {

/// A poll: its name, description, voting window (Unix seconds) and the number of
/// candidates registered so far.
#[derive(Debug, Clone)]
pub struct Poll {
    pub poll_name: String,
    pub poll_desc: String,
    pub poll_vote_start: u64,
    pub poll_vote_end: u64,
    pub poll_vote_index: u64,
}

/// A candidate of a poll and the votes it received.
#[derive(Debug, Clone)]
pub struct CandidateAccount {
    pub candidate_name: String,
    pub candidate_votes: u64,
}

/// Why a vote is refused.
#[derive(Debug, Clone, Copy, PartialEq, Eq, Structural)]
pub enum VotingErrorCode {
    VotingNotStarted,
    VotingEnded,
}

impl VotingErrorCode {
    /// The message shown for the error.
    pub fn message(&self) -> (r: &'static str)
        ensures
            r@ == match self {
                VotingErrorCode::VotingNotStarted => "Voting has not started yet"@,
                VotingErrorCode::VotingEnded => "Voting has ended"@,
            },
    {
        match self {
            VotingErrorCode::VotingNotStarted => "Voting has not started yet",
            VotingErrorCode::VotingEnded => "Voting has ended",
        }
    }
}

/// Sets up a poll with its window; no candidate is registered yet.
pub fn initialize_poll(
    poll: &mut Poll,
    _poll_id: u64,
    start: u64,
    end: u64,
    name: String,
    desc: String,
) -> (r: Result<(), VotingErrorCode>)
    ensures
        r is Ok,
        final(poll).poll_name == name,
        final(poll).poll_desc == desc,
        final(poll).poll_vote_start == start,
        final(poll).poll_vote_end == end,
        final(poll).poll_vote_index == 0,
{
    poll.poll_name = name;
    poll.poll_desc = desc;
    poll.poll_vote_start = start;
    poll.poll_vote_end = end;
    poll.poll_vote_index = 0;
    Ok(())
}

/// Registers a candidate under `candidate` and counts it in the poll.
pub fn initialize_candidate(
    poll: &mut Poll,
    candidate_account: &mut CandidateAccount,
    _poll_id: u64,
    candidate: String,
) -> (r: Result<(), VotingErrorCode>)
    requires
        old(poll).poll_vote_index < u64::MAX,
    ensures
        r is Ok,
        final(candidate_account).candidate_name == candidate,
        final(candidate_account).candidate_votes == old(candidate_account).candidate_votes,
        final(poll).poll_vote_index == old(poll).poll_vote_index + 1,
        final(poll).poll_name == old(poll).poll_name,
        final(poll).poll_desc == old(poll).poll_desc,
        final(poll).poll_vote_start == old(poll).poll_vote_start,
        final(poll).poll_vote_end == old(poll).poll_vote_end,
{
    candidate_account.candidate_name = candidate;
    poll.poll_vote_index = poll.poll_vote_index + 1;
    Ok(())
}

/// The outcome of a vote cast at time `now`: refused after the window's end,
/// refused before its start, accepted otherwise. The bounds are compared as
/// signed seconds, as the clock gives them.
pub open spec fn vote_outcome(poll: Poll, now: i64) -> Result<(), VotingErrorCode> {
    if now > poll.poll_vote_end as i64 {
        Err(VotingErrorCode::VotingEnded)
    } else if now < poll.poll_vote_start as i64 {
        Err(VotingErrorCode::VotingNotStarted)
    } else {
        Ok(())
    }
}

/// Casts one vote for the candidate at time `now`; a refused vote changes nothing.
pub fn vote(poll: &Poll, candidate: &mut CandidateAccount, now: i64) -> (r: Result<(), VotingErrorCode>)
    requires
        old(candidate).candidate_votes < u64::MAX,
    ensures
        r == vote_outcome(*poll, now),
        final(candidate).candidate_name == old(candidate).candidate_name,
        final(candidate).candidate_votes == if r is Ok {
            old(candidate).candidate_votes + 1
        } else {
            old(candidate).candidate_votes as int
        },
{
    if now > (poll.poll_vote_end as i64) {
        return Err(VotingErrorCode::VotingEnded);
    }
    if now < (poll.poll_vote_start as i64) {
        return Err(VotingErrorCode::VotingNotStarted);
    }
    candidate.candidate_votes = candidate.candidate_votes + 1;
    Ok(())
}

} // verus!
