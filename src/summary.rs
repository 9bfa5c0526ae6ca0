use vstd::prelude::*;
use crate::item_state::ItemState;
use crate::pull_requests::PullRequest;
use crate::issues::Issue;
use crate::repositories::Repository;

verus! {

/// How many of the states are the given one.
pub open spec fn count_state(s: Seq<ItemState>, st: ItemState) -> nat
    decreases s.len(),
{
    if s.len() == 0 {
        0
    } else {
        count_state(s.drop_last(), st) + if s.last() == st {
            1nat
        } else {
            0nat
        }
    }
}

/// How many pull requests were merged.
pub fn merged_count(prs: &Vec<PullRequest>) -> (r: usize)
    ensures
        r == count_state(prs@.map_values(|p: PullRequest| p.state), ItemState::Merged),
{
    let ghost states = prs@.map_values(|p: PullRequest| p.state);
    let mut n: usize = 0;
    let mut i: usize = 0;
    while i < prs.len()
        invariant
            i <= prs@.len(),
            n <= i,
            states == prs@.map_values(|p: PullRequest| p.state),
            n == count_state(states.take(i as int), ItemState::Merged),
        decreases prs@.len() - i,
    {
        assert(states.take(i + 1).drop_last() =~= states.take(i as int));
        if prs[i].state == ItemState::Merged {
            n = n + 1;
        }
        i = i + 1;
    }
    assert(states.take(prs@.len() as int) =~= states);
    n
}

/// How many issues were closed.
pub fn closed_count(issues: &Vec<Issue>) -> (r: usize)
    ensures
        r == count_state(issues@.map_values(|p: Issue| p.state), ItemState::Closed),
{
    let ghost states = issues@.map_values(|p: Issue| p.state);
    let mut n: usize = 0;
    let mut i: usize = 0;
    while i < issues.len()
        invariant
            i <= issues@.len(),
            n <= i,
            states == issues@.map_values(|p: Issue| p.state),
            n == count_state(states.take(i as int), ItemState::Closed),
        decreases issues@.len() - i,
    {
        assert(states.take(i + 1).drop_last() =~= states.take(i as int));
        if issues[i].state == ItemState::Closed {
            n = n + 1;
        }
        i = i + 1;
    }
    assert(states.take(issues@.len() as int) =~= states);
    n
}

/// How many repositories are not forks.
pub open spec fn count_own(s: Seq<Repository>) -> nat
    decreases s.len(),
{
    if s.len() == 0 {
        0
    } else {
        count_own(s.drop_last()) + if s.last().original_owner is None {
            1nat
        } else {
            0nat
        }
    }
}

/// How many repositories were created rather than forked.
pub fn non_fork_count(repos: &Vec<Repository>) -> (r: usize)
    ensures
        r == count_own(repos@),
{
    let mut n: usize = 0;
    let mut i: usize = 0;
    while i < repos.len()
        invariant
            i <= repos@.len(),
            n <= i,
            n == count_own(repos@.take(i as int)),
        decreases repos@.len() - i,
    {
        assert(repos@.take(i + 1).drop_last() =~= repos@.take(i as int));
        if repos[i].original_owner.is_none() {
            n = n + 1;
        }
        i = i + 1;
    }
    assert(repos@.take(repos@.len() as int) =~= repos@);
    n
}

} // verus!
