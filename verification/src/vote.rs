use vstd::prelude::*;
use crate::types::{Address, CircleError};

verus! {

/// A member of a circle; one who has exited stays listed but is inactive.
#[derive(Clone, Copy, Debug, PartialEq, Eq, Structural)]
pub struct Member {
    pub address: Address,
    pub active: bool,
}

/// One ballot: `voter` wants `vote_for` to receive the payout of `round`.
#[derive(Clone, Copy, Debug, PartialEq, Eq, Structural)]
pub struct Vote {
    pub voter: Address,
    pub vote_for: Address,
    pub round: u32,
    pub timestamp: u64,
}

/// The number of ballots in `votes` cast for `candidate` in `round`.
pub open spec fn tally(votes: Seq<Vote>, round: u32, candidate: Address) -> nat
    decreases votes.len(),
{
    if votes.len() == 0 {
        0
    } else {
        let last = votes.last();
        tally(votes.drop_last(), round, candidate) + if last.round == round && last.vote_for
            == candidate {
            1nat
        } else {
            0nat
        }
    }
}

/// The votes that member `i` received in `round`.
pub open spec fn member_tally(members: Seq<Member>, votes: Seq<Vote>, round: u32, i: int) -> nat {
    tally(votes, round, members[i].address)
}

/// Member `i` wins the vote of `round`: it is active, received at least one
/// vote, no active member received more, and every active member listed
/// before it received fewer.
pub open spec fn is_vote_winner(members: Seq<Member>, votes: Seq<Vote>, round: u32, i: int) -> bool {
    &&& 0 <= i < members.len()
    &&& members[i].active
    &&& member_tally(members, votes, round, i) > 0
    &&& forall|j: int|
        0 <= j < members.len() && #[trigger] members[j].active ==> member_tally(
            members,
            votes,
            round,
            j,
        ) <= member_tally(members, votes, round, i)
    &&& forall|j: int|
        0 <= j < i && #[trigger] members[j].active ==> member_tally(members, votes, round, j)
            < member_tally(members, votes, round, i)
}

/// No active member received any vote in `round`.
pub open spec fn no_active_candidate(members: Seq<Member>, votes: Seq<Vote>, round: u32) -> bool {
    forall|j: int|
        0 <= j < members.len() && #[trigger] members[j].active ==> member_tally(
            members,
            votes,
            round,
            j,
        ) == 0
}

/// Counts the ballots cast for `candidate` in `round`.
pub fn count_votes(votes: &Vec<Vote>, round: u32, candidate: Address) -> (n: u64)
    ensures
        n == tally(votes@, round, candidate),
{
    let mut n: u64 = 0;
    let mut k: usize = 0;
    while k < votes.len()
        invariant
            k <= votes.len(),
            n == tally(votes@.take(k as int), round, candidate),
            n <= k,
        decreases votes.len() - k,
    {
        let v = votes[k];
        proof {
            assert(votes@.take(k + 1).drop_last() == votes@.take(k as int));
        }
        if v.round == round && v.vote_for == candidate {
            n = n + 1;
        }
        k = k + 1;
    }
    proof {
        assert(votes@.take(k as int) == votes@);
    }
    n
}

/// Decides who receives the payout of `round` by vote: the active member
/// with the most votes, the earliest listed among equals. Votes for members
/// who have exited, or for addresses that are not members, do not make them
/// eligible; the payout falls back to the best active member. When no
/// active member received a vote the request is refused with `NotMember`.
pub fn resolve_vote(members: &Vec<Member>, votes: &Vec<Vote>, round: u32) -> (r: Result<Address, CircleError>)
    ensures
        r is Err <==> no_active_candidate(members@, votes@, round),
        r is Err ==> r->Err_0 == CircleError::NotMember,
        r matches Ok(w) ==> exists|i: int| #[trigger]
            is_vote_winner(members@, votes@, round, i) && members@[i].address == w,
{
    let mut best: usize = 0;
    let mut best_count: u64 = 0;
    let mut i: usize = 0;
    while i < members.len()
        invariant
            i <= members.len(),
            best_count > 0 ==> best < i,
            best_count > 0 ==> members@[best as int].active,
            best_count > 0 ==> best_count == member_tally(members@, votes@, round, best as int),
            forall|j: int|
                0 <= j < i && #[trigger] members@[j].active ==> member_tally(members@, votes@, round, j)
                    <= best_count,
            best_count > 0 ==> forall|j: int|
                0 <= j < best && #[trigger] members@[j].active ==> member_tally(
                    members@,
                    votes@,
                    round,
                    j,
                ) < best_count,
        decreases members.len() - i,
    {
        let m = members[i];
        if m.active {
            let c = count_votes(votes, round, m.address);
            if c > best_count {
                best = i;
                best_count = c;
            }
        }
        i = i + 1;
    }
    if best_count == 0 {
        Err(CircleError::NotMember)
    } else {
        proof {
            assert(is_vote_winner(members@, votes@, round, best as int));
        }
        Ok(members[best].address)
    }
}

/// At most one member wins a given vote.
pub proof fn vote_winner_is_unique(members: Seq<Member>, votes: Seq<Vote>, round: u32, i: int, k: int)
    requires
        is_vote_winner(members, votes, round, i),
        is_vote_winner(members, votes, round, k),
    ensures
        i == k,
{
    if i < k {
        assert(members[i].active);
    } else if k < i {
        assert(members[k].active);
    }
}

/// A vote either has a winner or no active member received a vote, never both.
pub proof fn vote_has_winner_or_no_candidate(members: Seq<Member>, votes: Seq<Vote>, round: u32, i: int)
    requires
        is_vote_winner(members, votes, round, i),
    ensures
        !no_active_candidate(members, votes, round),
{
    assert(members[i].active);
}

/// One more ballot for the winner, in the same round, keeps it the winner.
pub proof fn extra_vote_keeps_winner(members: Seq<Member>, votes: Seq<Vote>, round: u32, i: int, ballot: Vote)
    requires
        is_vote_winner(members, votes, round, i),
        ballot.round == round,
        ballot.vote_for == members[i].address,
    ensures
        is_vote_winner(members, votes.push(ballot), round, i),
{
    let after = votes.push(ballot);
    assert(after.drop_last() == votes);
    assert forall|j: int| 0 <= j < members.len() implies member_tally(members, after, round, j)
        <= member_tally(members, votes, round, j) + 1 && (members[j].address != members[i].address
        ==> member_tally(members, after, round, j) == member_tally(members, votes, round, j))
        && (members[j].address == members[i].address ==> member_tally(members, after, round, j)
        == member_tally(members, votes, round, j) + 1) by {}
    assert forall|j: int| 0 <= j < members.len() && #[trigger] members[j].active implies member_tally(
        members,
        after,
        round,
        j,
    ) <= member_tally(members, after, round, i) by {
        assert(member_tally(members, votes, round, j) <= member_tally(members, votes, round, i));
    }
    assert forall|j: int| 0 <= j < i && #[trigger] members[j].active implies member_tally(
        members,
        after,
        round,
        j,
    ) < member_tally(members, after, round, i) by {
        assert(member_tally(members, votes, round, j) < member_tally(members, votes, round, i));
    }
}

/// A member other than the winner leaving the circle does not change the winner.
pub proof fn other_exit_keeps_winner(members: Seq<Member>, votes: Seq<Vote>, round: u32, i: int, k: int)
    requires
        is_vote_winner(members, votes, round, i),
        0 <= k < members.len(),
        k != i,
    ensures
        is_vote_winner(members.update(k, Member { active: false, ..members[k] }), votes, round, i),
{
    let after = members.update(k, Member { active: false, ..members[k] });
    assert forall|j: int| 0 <= j < after.len() && #[trigger] after[j].active implies member_tally(
        after,
        votes,
        round,
        j,
    ) <= member_tally(after, votes, round, i) by {
        assert(members[j].active);
    }
    assert forall|j: int| 0 <= j < i && #[trigger] after[j].active implies member_tally(
        after,
        votes,
        round,
        j,
    ) < member_tally(after, votes, round, i) by {
        assert(members[j].active);
    }
}


/// The tally of a candidate in a round is the number of ballots cast for
/// that candidate in that round, and never more than the ballots cast.
pub proof fn tally_counts_matching_ballots(votes: Seq<Vote>, round: u32, candidate: Address)
    ensures
        tally(votes, round, candidate) == votes.filter(
            |v: Vote| v.round == round && v.vote_for == candidate,
        ).len(),
        tally(votes, round, candidate) <= votes.len(),
    decreases votes.len(),
{
    reveal(Seq::filter);
    if votes.len() > 0 {
        tally_counts_matching_ballots(votes.drop_last(), round, candidate);
    }
}

/// A new ballot raises the tally of its own candidate in its own round by
/// one and leaves every other tally unchanged.
pub proof fn new_ballot_counts_once(votes: Seq<Vote>, ballot: Vote, round: u32, candidate: Address)
    ensures
        tally(votes.push(ballot), round, candidate) == tally(votes, round, candidate) + if ballot.round
            == round && ballot.vote_for == candidate {
            1int
        } else {
            0int
        },
{
    assert(votes.push(ballot).drop_last() == votes);
}


/// The winner is an active member who received at least one vote and no
/// fewer than any other active member; an active member who received
/// strictly more votes than every other active member is the winner.
pub proof fn winner_is_a_best_active_member(members: Seq<Member>, votes: Seq<Vote>, round: u32, i: int)
    ensures
        is_vote_winner(members, votes, round, i) ==> {
            &&& 0 <= i < members.len()
            &&& members[i].active
            &&& tally(votes, round, members[i].address) > 0
            &&& forall|j: int|
                0 <= j < members.len() && members[j].active ==> #[trigger] tally(
                    votes,
                    round,
                    members[j].address,
                ) <= tally(votes, round, members[i].address)
        },
        (0 <= i < members.len() && members[i].active && tally(votes, round, members[i].address) > 0
            && forall|j: int|
            0 <= j < members.len() && j != i && members[j].active ==> #[trigger] tally(
                votes,
                round,
                members[j].address,
            ) < tally(votes, round, members[i].address)) ==> is_vote_winner(
            members,
            votes,
            round,
            i,
        ),
{
    if is_vote_winner(members, votes, round, i) {
        assert forall|j: int|
            0 <= j < members.len() && members[j].active implies #[trigger] tally(
            votes,
            round,
            members[j].address,
        ) <= tally(votes, round, members[i].address) by {
            assert(member_tally(members, votes, round, j) <= member_tally(members, votes, round, i));
        }
    }
}

/// Votes only matter for active members: when nobody is active, nobody can
/// win, whatever the ballots; and an active member with a vote rules out
/// the refusal.
pub proof fn only_active_members_can_win(members: Seq<Member>, votes: Seq<Vote>, round: u32, i: int)
    ensures
        (forall|j: int| 0 <= j < members.len() ==> !#[trigger] members[j].active) ==> no_active_candidate(
            members,
            votes,
            round,
        ),
        (0 <= i < members.len() && members[i].active && tally(votes, round, members[i].address) > 0)
            ==> !no_active_candidate(members, votes, round),
{
    if 0 <= i < members.len() && members[i].active && tally(votes, round, members[i].address) > 0 {
        assert(member_tally(members, votes, round, i) > 0);
    }
}

} // verus!
