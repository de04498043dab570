use vstd::prelude::*;

use crate::messages::{RpcCode, RpcStatus, Vote, VotingRequest, VotingResponse};

verus! {

/// The service that confirms votes on posts.
#[derive(Debug, Default)]
pub struct VotingService;

/// What the service answers to a vote with code `vote` on `url`.
pub open spec fn vote_outcome(vote: i32, url: Seq<char>) -> Result<Seq<char>, RpcCode> {
    if vote == 0 {
        Ok("upvoted  for "@ + url)
    } else if vote == 1 {
        Ok("downvoted for "@ + url)
    } else {
        Err(RpcCode::OutOfRange)
    }
}

impl VotingService {
    /// Confirms an up vote (code 0) or a down vote (code 1) on the request's
    /// url; refuses any other code as out of range.
    pub fn vote(&self, req: &VotingRequest) -> (res: Result<VotingResponse, RpcStatus>)
        ensures
            res is Ok <==> (req.vote == 0 || req.vote == 1),
            res matches Ok(r) ==> vote_outcome(req.vote, req.url@) == Ok::<Seq<char>, RpcCode>(r.confirmation@),
            res matches Err(e) ==> vote_outcome(req.vote, req.url@) == Err::<Seq<char>, RpcCode>(e.code)
                && e.message@ == "Invalid vote provided"@,
            req.vote == 0 ==> (res matches Ok(r) && r.confirmation@ == "upvoted  for "@ + req.url@),
            req.vote == 1 ==> (res matches Ok(r) && r.confirmation@ == "downvoted for "@ + req.url@),
            res matches Err(e) ==> e.code == RpcCode::OutOfRange,
    {
        if req.vote == 0 {
            let confirmation = String::from_str("upvoted  for ").concat(req.url.as_str());
            Ok(VotingResponse { confirmation })
        } else if req.vote == 1 {
            let confirmation = String::from_str("downvoted for ").concat(req.url.as_str());
            Ok(VotingResponse { confirmation })
        } else {
            Err(RpcStatus { code: RpcCode::OutOfRange, message: String::from_str("Invalid vote provided") })
        }
    }
}

/// A confirmation is the url in full behind a fixed text of 13 characters
/// for an up vote and 14 for a down vote.
pub proof fn lemma_confirmation_carries_url(vote: i32, url: Seq<char>)
    ensures
        vote_outcome(vote, url) matches Ok(s) ==> {
            &&& s.len() == 13 + vote + url.len()
            &&& s.subrange(s.len() - url.len(), s.len() as int) == url
        },
        (vote == 0 || vote == 1) <==> vote_outcome(vote, url) is Ok,
{
    reveal_strlit("upvoted  for ");
    reveal_strlit("downvoted for ");
    if vote == 0 {
        let s = "upvoted  for "@ + url;
        assert(s.subrange(s.len() - url.len(), s.len() as int) =~= url);
    } else if vote == 1 {
        let s = "downvoted for "@ + url;
        assert(s.subrange(s.len() - url.len(), s.len() as int) =~= url);
    }
}

/// The vote the client casts in round `n`: up in even rounds, down in odd ones.
pub open spec fn spec_vote_for_round(n: i32) -> Vote {
    if n % 2 == 0 { Vote::Up } else { Vote::Down }
}

/// The vote the client casts in round `n`.
pub fn vote_for_round(n: i32) -> (res: Vote)
    ensures
        res == spec_vote_for_round(n),
{
    if n % 2 == 0 { Vote::Up } else { Vote::Down }
}

/// The request the client sends in round `n` for the post at `url`.
pub fn voting_request(url: &str, n: i32) -> (res: VotingRequest)
    ensures
        res.url@ == url@,
        res.vote == spec_vote_for_round(n).spec_code(),
{
    VotingRequest { url: url.to_owned(), vote: vote_for_round(n).code() }
}

/// Consecutive rounds cast opposite votes.
pub proof fn lemma_votes_alternate(n: i32)
    requires
        n < i32::MAX,
    ensures
        spec_vote_for_round(n) != spec_vote_for_round((n + 1) as i32),
{
}

/// Every vote the client casts is one the service confirms.
pub proof fn lemma_client_votes_accepted(n: i32, url: Seq<char>)
    ensures
        vote_outcome(spec_vote_for_round(n).spec_code(), url) is Ok,
{
}

} // verus!
