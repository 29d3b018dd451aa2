//! What holds of the operations taken together: how logs add up within a
//! cycle, that a claim settles once per cycle, and how shares relate to the
//! supply.

use vstd::prelude::*;
use crate::error::ErrorCode;
use crate::instructions::claim_tokens::{
    claim_open, claim_rejection, claimable_tokens, contributor_after_claim, effective_supply,
};
use crate::instructions::create_contributor::new_contributor;
use crate::instructions::log_contribution::{contributor_after_log, log_overflows, state_after_log};
use crate::instructions::unlock_tokens::state_after_unlock;
use crate::accounts::Identity;
use crate::state::contributor::Contribution;
use crate::state::global::State;

verus! {

/// The sum of the points of all `logs`, each a pair of a contributor's index
/// and the points logged for them.
pub open spec fn points_logged(logs: Seq<(int, u64)>) -> int
    decreases logs.len(),
{
    if logs.len() == 0 {
        0
    } else {
        points_logged(logs.drop_last()) + logs.last().1
    }
}

/// The sum of the points that `logs` hold for the contributor `who`.
pub open spec fn points_logged_for(logs: Seq<(int, u64)>, who: int) -> int
    decreases logs.len(),
{
    if logs.len() == 0 {
        0
    } else {
        points_logged_for(logs.drop_last(), who) + if logs.last().0 == who {
            logs.last().1 as int
        } else {
            0
        }
    }
}

/// The global state and the contributor records after the administrator has
/// logged `logs` in order, or `None` where one of the logs overflowed.
pub open spec fn replay(
    state: State,
    contributors: Seq<Contribution>,
    logs: Seq<(int, u64)>,
) -> Option<(State, Seq<Contribution>)>
    decreases logs.len(),
{
    if logs.len() == 0 {
        Some((state, contributors))
    } else {
        match replay(state, contributors, logs.drop_last()) {
            None => None,
            Some((so_far, records)) => {
                let who = logs.last().0;
                let points = logs.last().1;
                if log_overflows(so_far, records[who], points) {
                    None
                } else {
                    Some(
                        (
                            state_after_log(so_far, records[who], points),
                            records.update(who, contributor_after_log(so_far, records[who], points)),
                        ),
                    )
                }
            },
        }
    }
}

/// Within one cycle, with no claim and no reset in between, logs add up: each
/// contributor's points grow by the sum of what was logged for them, and the
/// global total grows by the sum of all that was logged. Neither the deadline
/// nor any claim marker moves.
pub proof fn lemma_logs_add_up(state: State, contributors: Seq<Contribution>, logs: Seq<(int, u64)>)
    requires
        forall|i: int| 0 <= i < contributors.len() ==> (#[trigger] contributors[i]).in_cycle(state),
        forall|k: int| 0 <= k < logs.len() ==> 0 <= (#[trigger] logs[k]).0 < contributors.len(),
        replay(state, contributors, logs) is Some,
    ensures
        ({
            let (after, records) = replay(state, contributors, logs)->Some_0;
            &&& after.global_contribution_points == state.global_contribution_points
                + points_logged(logs)
            &&& after == State { global_contribution_points: after.global_contribution_points, ..state }
            &&& records.len() == contributors.len()
            &&& forall|i: int|
                0 <= i < contributors.len() ==> (#[trigger] records[i]).accumulated_points
                    == contributors[i].accumulated_points + points_logged_for(logs, i)
                    && records[i] == Contribution {
                    accumulated_points: records[i].accumulated_points,
                    ..contributors[i]
                }
        }),
    decreases logs.len(),
{
    if logs.len() > 0 {
        let earlier = logs.drop_last();
        assert forall|k: int| 0 <= k < earlier.len() implies 0 <= (#[trigger] earlier[k]).0
            < contributors.len() by {
            assert(earlier[k] == logs[k]);
        }
        lemma_logs_add_up(state, contributors, earlier);
        let who = logs.last().0;
        assert(logs.last() == logs[logs.len() - 1]);
        assert(0 <= who < contributors.len());
    }
}

/// The sum of the points that `logs` hold for the contributors `0` to `count - 1`.
pub open spec fn points_logged_among(logs: Seq<(int, u64)>, count: nat) -> int
    decreases count,
{
    if count == 0 {
        0
    } else {
        points_logged_among(logs, (count - 1) as nat) + points_logged_for(logs, count - 1)
    }
}

/// The total of a run of logs is the sum of the per-contributor sums: what
/// the global counter gains is what the contributors gain together.
pub proof fn lemma_total_is_sum_of_parts(logs: Seq<(int, u64)>, count: nat)
    requires
        forall|k: int| 0 <= k < logs.len() ==> 0 <= (#[trigger] logs[k]).0 < count,
    ensures
        points_logged(logs) == points_logged_among(logs, count),
    decreases logs.len(),
{
    if logs.len() == 0 {
        lemma_nothing_logged(logs, count);
    } else {
        let earlier = logs.drop_last();
        assert forall|k: int| 0 <= k < earlier.len() implies 0 <= (#[trigger] earlier[k]).0
            < count by {
            assert(earlier[k] == logs[k]);
        }
        lemma_total_is_sum_of_parts(earlier, count);
        assert(logs.last() == logs[logs.len() - 1]);
        lemma_last_log_counts_once(logs, count);
    }
}

proof fn lemma_nothing_logged(logs: Seq<(int, u64)>, count: nat)
    requires
        logs.len() == 0,
    ensures
        points_logged_among(logs, count) == 0,
    decreases count,
{
    if count > 0 {
        lemma_nothing_logged(logs, (count - 1) as nat);
    }
}

proof fn lemma_last_log_counts_once(logs: Seq<(int, u64)>, count: nat)
    requires
        logs.len() > 0,
    ensures
        points_logged_among(logs, count) == points_logged_among(logs.drop_last(), count) + if 0
            <= logs.last().0 < count {
            logs.last().1 as int
        } else {
            0
        },
    decreases count,
{
    if count > 0 {
        lemma_last_log_counts_once(logs, (count - 1) as nat);
    }
}

/// The sum of the points that the first `count` of `records` hold.
pub open spec fn points_accumulated(records: Seq<Contribution>, count: nat) -> int
    decreases count,
{
    if count == 0 {
        0
    } else {
        points_accumulated(records, (count - 1) as nat) + records[count - 1].accumulated_points
    }
}

/// In a cycle that starts with no points anywhere, after any run of logs for
/// any contributors in any order, each contributor holds exactly the sum of
/// what was logged for them, whatever was logged for the others in between,
/// and the global total is the sum of all that was logged, which is also the
/// sum of what the contributors hold.
pub proof fn lemma_fresh_cycle_adds_up(
    state: State,
    contributors: Seq<Contribution>,
    logs: Seq<(int, u64)>,
)
    requires
        state.global_contribution_points == 0,
        forall|i: int|
            0 <= i < contributors.len() ==> (#[trigger] contributors[i]).in_cycle(state)
                && contributors[i].accumulated_points == 0,
        forall|k: int| 0 <= k < logs.len() ==> 0 <= (#[trigger] logs[k]).0 < contributors.len(),
        points_logged(logs) <= u64::MAX,
    ensures
        replay(state, contributors, logs) is Some,
        ({
            let (after, records) = replay(state, contributors, logs)->Some_0;
            &&& records.len() == contributors.len()
            &&& forall|i: int|
                0 <= i < records.len() ==> (#[trigger] records[i]).accumulated_points
                    == points_logged_for(logs, i)
            &&& after.global_contribution_points == points_logged(logs)
            &&& after.global_contribution_points == points_accumulated(records, records.len())
        }),
{
    assert forall|i: int| 0 <= i < contributors.len() implies (#[trigger] contributors[
        i
    ]).accumulated_points + points_logged_for(logs, i) <= u64::MAX by {
        lemma_part_within_total(logs, i);
    }
    lemma_logs_fit(state, contributors, logs);
    lemma_logs_add_up(state, contributors, logs);
    lemma_total_is_sum_of_parts(logs, contributors.len());
    let records = replay(state, contributors, logs)->Some_0.1;
    lemma_held_is_logged(records, logs, records.len());
}

proof fn lemma_part_within_total(logs: Seq<(int, u64)>, who: int)
    ensures
        0 <= points_logged_for(logs, who) <= points_logged(logs),
    decreases logs.len(),
{
    if logs.len() > 0 {
        lemma_part_within_total(logs.drop_last(), who);
    }
}

proof fn lemma_held_is_logged(records: Seq<Contribution>, logs: Seq<(int, u64)>, count: nat)
    requires
        count <= records.len(),
        forall|i: int|
            0 <= i < records.len() ==> (#[trigger] records[i]).accumulated_points
                == points_logged_for(logs, i),
    ensures
        points_accumulated(records, count) == points_logged_among(logs, count),
    decreases count,
{
    if count > 0 {
        lemma_held_is_logged(records, logs, (count - 1) as nat);
    }
}

/// A run of logs goes through without overflow whenever the sums fit: the
/// global total with all that is logged, and each contributor's points with
/// what is logged for them, stay within 64 bits.
pub proof fn lemma_logs_fit(state: State, contributors: Seq<Contribution>, logs: Seq<(int, u64)>)
    requires
        forall|i: int| 0 <= i < contributors.len() ==> (#[trigger] contributors[i]).in_cycle(state),
        forall|k: int| 0 <= k < logs.len() ==> 0 <= (#[trigger] logs[k]).0 < contributors.len(),
        state.global_contribution_points + points_logged(logs) <= u64::MAX,
        forall|i: int|
            0 <= i < contributors.len() ==> (#[trigger] contributors[i]).accumulated_points
                + points_logged_for(logs, i) <= u64::MAX,
    ensures
        replay(state, contributors, logs) is Some,
    decreases logs.len(),
{
    if logs.len() > 0 {
        let earlier = logs.drop_last();
        assert forall|k: int| 0 <= k < earlier.len() implies 0 <= (#[trigger] earlier[k]).0
            < contributors.len() by {
            assert(earlier[k] == logs[k]);
        }
        assert(logs.last() == logs[logs.len() - 1]);
        lemma_logs_fit(state, contributors, earlier);
        lemma_logs_add_up(state, contributors, earlier);
        let who = logs.last().0;
        assert(contributors[who].accumulated_points + points_logged_for(logs, who) <= u64::MAX);
    }
}

/// The part stays within the whole: if every contributor's points are at most
/// the global total before a run of logs, they are so after it.
pub proof fn lemma_logs_keep_within(
    state: State,
    contributors: Seq<Contribution>,
    logs: Seq<(int, u64)>,
)
    requires
        forall|i: int| 0 <= i < contributors.len() ==> (#[trigger] contributors[i]).within(state),
        forall|k: int| 0 <= k < logs.len() ==> 0 <= (#[trigger] logs[k]).0 < contributors.len(),
        replay(state, contributors, logs) is Some,
    ensures
        ({
            let (after, records) = replay(state, contributors, logs)->Some_0;
            &&& records.len() == contributors.len()
            &&& forall|i: int| 0 <= i < records.len() ==> (#[trigger] records[i]).within(after)
        }),
    decreases logs.len(),
{
    if logs.len() > 0 {
        let earlier = logs.drop_last();
        assert forall|k: int| 0 <= k < earlier.len() implies 0 <= (#[trigger] earlier[k]).0
            < contributors.len() by {
            assert(earlier[k] == logs[k]);
        }
        lemma_logs_keep_within(state, contributors, earlier);
        assert(logs.last() == logs[logs.len() - 1]);
    }
}

/// A claim is rejected as early at any time before the contributor's marker,
/// and a claim that succeeds settles the cycle for that contributor: it leaves
/// no points, no second claim succeeds against the same deadline at whatever
/// time, and what is logged for the contributor before the next unlock is
/// dropped without touching the global total.
pub proof fn lemma_claim_settles_once(
    state: State,
    contributor: Contribution,
    now: i64,
    later: i64,
    points: u64,
)
    ensures
        now < contributor.claim_after ==> claim_rejection(state, contributor, now) == Some(
            ErrorCode::EarlyTokenClaim,
        ),
        claim_rejection(state, contributor, now) is None ==> {
            let settled = contributor_after_claim(state, contributor);
            &&& claim_open(state, contributor, now)
            &&& settled.accumulated_points == 0
            &&& claim_rejection(state, settled, later) == Some(ErrorCode::EarlyTokenClaim)
            &&& !log_overflows(state, settled, points)
            &&& contributor_after_log(state, settled, points) == settled
            &&& state_after_log(state, settled, points) == state
        },
{
}

/// Inside the window a claim is owed its payout: at or after the contributor's
/// marker, with the marker not past the deadline, the claim goes through
/// whenever the cycle has points at all and neither the product of supply and
/// points nor the next marker leaves its 64-bit range.
pub proof fn lemma_claim_in_window_succeeds(state: State, contributor: Contribution, now: i64)
    requires
        now >= contributor.claim_after,
        contributor.claim_after <= state.unlock_after,
        state.global_contribution_points > 0,
        effective_supply(state.global_contribution_points) * contributor.accumulated_points
            <= u64::MAX,
        state.unlock_after + 2_419_200 <= i64::MAX,
    ensures
        claim_rejection(state, contributor, now) is None,
{
}

/// After the next unlock a settled contributor is in the cycle again: the
/// marker a claim leaves lies two days before the deadline that an unlock at
/// the old deadline or later sets.
pub proof fn lemma_settled_contributor_rejoins(
    state: State,
    contributor: Contribution,
    claimed_at: i64,
    unlocked_at: i64,
)
    requires
        claim_rejection(state, contributor, claimed_at) is None,
        unlocked_at >= state.unlock_after,
        unlocked_at + 2_592_000 <= i64::MAX,
    ensures
        contributor_after_claim(state, contributor).in_cycle(
            state_after_unlock(state, unlocked_at),
        ),
{
}

/// A fresh contributor is inside the current cycle: the first log for them
/// always accumulates, whatever the points, unless a counter overflows.
pub proof fn lemma_first_log_accumulates(
    state: State,
    owner: Identity,
    destination: Identity,
    bump: u8,
    points: u64,
)
    requires
        state.unlock_after - 172_800 >= i64::MIN,
        state.global_contribution_points + points <= u64::MAX,
    ensures
        ({
            let fresh = new_contributor(state, owner, destination, bump);
            &&& !log_overflows(state, fresh, points)
            &&& contributor_after_log(state, fresh, points).accumulated_points == points
            &&& state_after_log(state, fresh, points).global_contribution_points
                == state.global_contribution_points + points
        }),
{
}

/// The share is the floor of 5000 times the points over the total while the
/// total is at most 500, and of 10000 times the points over the total above that.
pub proof fn lemma_share_formula(points: u64, total: u64)
    requires
        total > 0,
    ensures
        total <= 500 ==> claimable_tokens(points, total) == (5000 * points) / (total as int),
        total > 500 ==> claimable_tokens(points, total) == (10000 * points) / (total as int),
{
}

/// A contributor whose points are within the total is never paid more than
/// the cycle's effective supply, which is never more than the monthly supply.
pub proof fn lemma_share_within_supply(points: u64, total: u64)
    requires
        total > 0,
        points <= total,
    ensures
        0 <= claimable_tokens(points, total) <= effective_supply(total) <= 10_000,
{
    let supply = effective_supply(total);
    assert(supply * points <= supply * total) by (nonlinear_arith)
        requires
            0 <= supply,
            points <= total,
    ;
    assert((supply * points) / (total as int) <= supply && 0 <= (supply * points) / (total as int))
        by (nonlinear_arith)
        requires
            0 <= supply * points <= supply * total,
            total > 0,
    ;
}

/// The sum of the points held by a group of contributors.
pub open spec fn points_held(points: Seq<u64>) -> int
    decreases points.len(),
{
    if points.len() == 0 {
        0
    } else {
        points_held(points.drop_last()) + points.last()
    }
}

/// What a group of contributors is paid in all when each of them claims
/// against the same total.
pub open spec fn shares_paid(points: Seq<u64>, total: u64) -> int
    decreases points.len(),
{
    if points.len() == 0 {
        0
    } else {
        shares_paid(points.drop_last(), total) + claimable_tokens(points.last(), total)
    }
}

/// The pool is never overdrawn within a cycle: contributors whose points
/// together are within the total are together paid no more than the cycle's
/// effective supply, however many they are and in whatever order they claim.
pub proof fn lemma_shares_within_supply(points: Seq<u64>, total: u64)
    requires
        total > 0,
        points_held(points) <= total,
    ensures
        0 <= shares_paid(points, total) <= effective_supply(total),
{
    let supply = effective_supply(total);
    let paid = shares_paid(points, total);
    let held = points_held(points);
    lemma_shares_in_proportion(points, total);
    assert(paid <= supply) by (nonlinear_arith)
        requires
            paid * total <= supply * held,
            held <= total,
            total > 0,
            supply >= 0,
    ;
}

/// Rounding down never favours the contributors: what a group is paid, times
/// the total, is at most the supply times the points the group holds.
pub proof fn lemma_shares_in_proportion(points: Seq<u64>, total: u64)
    requires
        total > 0,
    ensures
        0 <= shares_paid(points, total),
        0 <= points_held(points),
        shares_paid(points, total) * total <= effective_supply(total) * points_held(points),
    decreases points.len(),
{
    if points.len() > 0 {
        let earlier = points.drop_last();
        lemma_shares_in_proportion(earlier, total);
        let supply = effective_supply(total);
        let last = points.last() as int;
        let share = claimable_tokens(points.last(), total);
        let t = total as int;
        assert(0 <= share && share * t <= supply * last) by (nonlinear_arith)
            requires
                share == (supply * last) / t,
                t > 0,
                supply >= 0,
                last >= 0,
        ;
        let paid = shares_paid(earlier, total);
        let held = points_held(earlier);
        assert((paid + share) * t <= supply * (held + last)) by (nonlinear_arith)
            requires
                paid * t <= supply * held,
                share * t <= supply * last,
        ;
    }
}

} // verus!
