use rust_grammar::favorites::{initialize, update, Favorite};
use rust_grammar::voting::{initialize_candidate, initialize_poll, vote, CandidateAccount, Poll, VotingErrorCode};

fn empty_poll() -> Poll {
    Poll { poll_name: String::new(), poll_desc: String::new(), poll_vote_start: 0, poll_vote_end: 0, poll_vote_index: 7 }
}

#[test]
fn poll_setup_and_votes() {
    let mut poll = empty_poll();
    initialize_poll(&mut poll, 1, 100, 200, "Best pet".to_string(), "Cats or dogs".to_string()).unwrap();
    assert_eq!((poll.poll_vote_start, poll.poll_vote_end, poll.poll_vote_index), (100, 200, 0));
    assert_eq!(poll.poll_name, "Best pet");
    let mut cat = CandidateAccount { candidate_name: String::new(), candidate_votes: 0 };
    initialize_candidate(&mut poll, &mut cat, 1, "cat".to_string()).unwrap();
    assert_eq!(cat.candidate_name, "cat");
    assert_eq!(poll.poll_vote_index, 1);
    assert_eq!(vote(&poll, &mut cat, 150), Ok(()));
    assert_eq!(vote(&poll, &mut cat, 100), Ok(()));
    assert_eq!(vote(&poll, &mut cat, 200), Ok(()));
    assert_eq!(cat.candidate_votes, 3);
    assert_eq!(vote(&poll, &mut cat, 99), Err(VotingErrorCode::VotingNotStarted));
    assert_eq!(vote(&poll, &mut cat, 201), Err(VotingErrorCode::VotingEnded));
    assert_eq!(cat.candidate_votes, 3);
    assert_eq!(VotingErrorCode::VotingEnded.message(), "Voting has ended");
}

#[test]
fn window_bounds_compared_as_signed() {
    let mut poll = empty_poll();
    initialize_poll(&mut poll, 2, 0, u64::MAX, String::new(), String::new()).unwrap();
    let mut c = CandidateAccount { candidate_name: "x".to_string(), candidate_votes: 0 };
    assert_eq!(vote(&poll, &mut c, 5), Err(VotingErrorCode::VotingEnded));
}

#[test]
fn favorites_are_replaced() {
    let mut f = Favorite { number: 0, color: String::new(), hobbies: vec![] };
    initialize(&mut f, 7, "blue".to_string(), vec!["chess".to_string()]);
    assert_eq!((f.number, f.color.as_str(), f.hobbies.len()), (7, "blue", 1));
    update(&mut f, 9, "red".to_string(), vec![]);
    assert_eq!((f.number, f.color.as_str(), f.hobbies.len()), (9, "red", 0));
}
