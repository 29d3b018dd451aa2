//! Contribution logging: the administrator records points for one contributor.

use vstd::prelude::*;
use crate::accounts::Identity;
use crate::error::ErrorCode;
use crate::state::contributor::Contribution;
use crate::state::global::State;

verus! {

/// Logging `points` would push one of the two counters past 64 bits.
pub open spec fn log_overflows(state: State, contributor: Contribution, points: u64) -> bool {
    contributor.in_cycle(state) && (contributor.accumulated_points + points > u64::MAX
        || state.global_contribution_points + points > u64::MAX)
}

/// The contributor record after `points` are logged against `state`: the
/// points are added while the contributor is in the cycle; once their marker
/// has passed the cycle boundary, the log is dropped and their points are
/// zeroed.
pub open spec fn contributor_after_log(
    state: State,
    contributor: Contribution,
    points: u64,
) -> Contribution {
    if contributor.in_cycle(state) {
        Contribution {
            accumulated_points: (contributor.accumulated_points + points) as u64,
            ..contributor
        }
    } else {
        Contribution { accumulated_points: 0, ..contributor }
    }
}

/// The global state after `points` are logged for `contributor`: the total
/// grows by the points exactly when the contributor's own counter does.
pub open spec fn state_after_log(state: State, contributor: Contribution, points: u64) -> State {
    if contributor.in_cycle(state) {
        State {
            global_contribution_points: (state.global_contribution_points + points) as u64,
            ..state
        }
    } else {
        state
    }
}

/// The records a contribution log works on.
#[derive(Clone, Copy, Debug, PartialEq, Eq)]
pub struct LogContribution {
    /// The caller.
    pub authority: Identity,
    pub state: State,
    pub contributor: Contribution,
}

impl LogContribution {
    /// Why logging `points` is rejected, if it is.
    pub open spec fn rejection(self, points: u64) -> Option<ErrorCode> {
        if self.authority != self.state.admin {
            Some(ErrorCode::Unauthorized)
        } else if log_overflows(self.state, self.contributor, points) {
            Some(ErrorCode::ArithmeticOverflow)
        } else {
            None
        }
    }

    /// Records `points` for the contributor and in the global total, or drops
    /// them and zeroes the contributor's points when the contributor has
    /// already moved past the current cycle. A rejected log changes nothing.
    pub fn log_contributor_points(&mut self, points: u64) -> (result: Result<(), ErrorCode>)
        ensures
            match old(self).rejection(points) {
                Some(e) => result == Err::<(), ErrorCode>(e) && *final(self) == *old(self),
                None => result is Ok && *final(self) == (LogContribution {
                    state: state_after_log(old(self).state, old(self).contributor, points),
                    contributor: contributor_after_log(
                        old(self).state,
                        old(self).contributor,
                        points,
                    ),
                    ..*old(self)
                }),
            },
            old(self).contributor.within(old(self).state) ==> final(self).contributor.within(
                final(self).state,
            ),
            final(self).state.global_contribution_points >= old(
                self
            ).state.global_contribution_points,
            final(self).state.unlock_after == old(self).state.unlock_after,
            final(self).contributor.claim_after == old(self).contributor.claim_after,
    {
        if self.authority != self.state.admin {
            return Err(ErrorCode::Unauthorized);
        }
        if self.contributor.claim_after > self.state.unlock_after {
            self.contributor.accumulated_points = 0;
        } else {
            let mine: u64 = match self.contributor.accumulated_points.checked_add(points) {
                Some(sum) => sum,
                None => {
                    return Err(ErrorCode::ArithmeticOverflow);
                },
            };
            let total: u64 = match self.state.global_contribution_points.checked_add(points) {
                Some(sum) => sum,
                None => {
                    return Err(ErrorCode::ArithmeticOverflow);
                },
            };
            self.contributor.accumulated_points = mine;
            self.state.global_contribution_points = total;
        }
        Ok(())
    }
}

} // verus!
