//! The reward processor: configuration state, the access guard, and
//! the reward engine.

use vstd::prelude::*;

use crate::errors::{CommonError, ConstructorError};
use crate::identity::Identity;

verus! {

use vstd::arithmetic::div_mod::{
    lemma_div_is_ordered,
    lemma_div_multiples_vanish,
    lemma_div_nonincreasing,
    lemma_div_pos_is_pos,
};
use vstd::arithmetic::mul::{lemma_mul_inequality, lemma_mul_upper_bound};

/// The fixed-point scale for every ratio computation: a ratio `r`
/// stands for `r / 10000` (basis points).
pub const FIXED_POINT_DENOMINATOR: u64 = 10000;

/// The percentage bonus fixed at construction: 1000 basis points (10%).
pub const INITIAL_PERCENTAGE_BONUS: u64 = 1000;

/// The time-decay multiplier over the window `[start_time, end_time]`,
/// expressed on the scale `denominator`: the full scale at or before
/// the window's start, half the scale at or after its end, and a
/// linear interpolation between the two strictly inside the window.
/// All divisions truncate.
pub open spec fn spec_time_decay_multiplier(
    denominator: int,
    current_time: int,
    start_time: int,
    end_time: int,
) -> int {
    if current_time <= start_time {
        denominator
    } else if current_time >= end_time {
        denominator / 2
    } else {
        denominator - (denominator - denominator / 2) * (current_time - start_time) / (end_time
            - start_time)
    }
}

/// The reward: the amount scaled by the time-decay multiplier, plus
/// an optional percentage bonus and an optional strict bonus. Both
/// bonuses are surcharges on the original amount, not on the decayed
/// value. All divisions truncate.
pub open spec fn spec_reward(
    amount: int,
    current_time: int,
    start_time: int,
    end_time: int,
    has_bonus: bool,
    has_strict_bonus: bool,
    multiply_factor: int,
    percentage_bonus: int,
    denominator: int,
) -> int {
    amount * spec_time_decay_multiplier(denominator, current_time, start_time, end_time)
        / denominator + (if has_bonus {
        amount * percentage_bonus / denominator
    } else {
        0
    }) + (if has_strict_bonus {
        amount * multiply_factor / denominator
    } else {
        0
    })
}

/// The time-decay multiplier always lies between half the scale and
/// the full scale, whatever the window and the queried time.
pub proof fn lemma_time_decay_multiplier_bounds(
    denominator: int,
    current_time: int,
    start_time: int,
    end_time: int,
)
    requires
        0 < denominator,
    ensures
        denominator / 2 <= spec_time_decay_multiplier(
            denominator,
            current_time,
            start_time,
            end_time,
        ) <= denominator,
{
    lemma_div_nonincreasing(denominator, 2);
    lemma_div_pos_is_pos(denominator, 2);
    if current_time <= start_time {
    } else if current_time >= end_time {
    } else {
        let total = end_time - start_time;
        let elapsed = current_time - start_time;
        let range = denominator - denominator / 2;
        lemma_mul_inequality(elapsed, total, range);
        assert(range * elapsed == elapsed * range) by (nonlinear_arith);
        assert(range * total == total * range) by (nonlinear_arith);
        lemma_div_is_ordered(range * elapsed, range * total, total);
        lemma_div_multiples_vanish(range, total);
        lemma_div_pos_is_pos(range * elapsed, total);
    }
}

/// The persisted configuration: a multiply factor, an owner identity,
/// the fixed-point denominator, and a percentage bonus.
#[derive(Debug)]
pub struct RewardProcessor {
    multiply_factor: u64,
    owner: Identity,
    percentage_denominator: u64,
    percentage_bonus: u64,
}

impl RewardProcessor {
    /// The stored multiply factor.
    pub closed spec fn spec_multiply_factor(self) -> u64 {
        self.multiply_factor
    }

    /// The stored owner identity.
    pub closed spec fn spec_owner(self) -> Identity {
        self.owner
    }

    /// The stored fixed-point denominator.
    pub closed spec fn spec_percentage_denominator(self) -> u64 {
        self.percentage_denominator
    }

    /// The stored percentage bonus.
    pub closed spec fn spec_percentage_bonus(self) -> u64 {
        self.percentage_bonus
    }

    /// The configuration invariant: both rates are strictly positive
    /// and the denominator is the fixed scale. Construction
    /// establishes it and every mutation preserves it.
    pub open spec fn wf(self) -> bool {
        &&& self.spec_multiply_factor() > 0
        &&& self.spec_percentage_bonus() > 0
        &&& self.spec_percentage_denominator() == FIXED_POINT_DENOMINATOR
    }

    /// Whether `caller` is the stored owner: the access-guard
    /// predicate every mutation is gated on.
    pub open spec fn is_owner(self, caller: Identity) -> bool {
        caller@ == self.spec_owner()@
    }

    /// The reward this configuration assigns to `amount` at
    /// `current_time` over the window `[start_time, end_time]`.
    pub open spec fn spec_reward_at_time(
        self,
        amount: u64,
        current_time: u64,
        start_time: u64,
        end_time: u64,
        has_bonus: bool,
        has_strict_bonus: bool,
    ) -> int {
        spec_reward(
            amount as int,
            current_time as int,
            start_time as int,
            end_time as int,
            has_bonus,
            has_strict_bonus,
            self.spec_multiply_factor() as int,
            self.spec_percentage_bonus() as int,
            self.spec_percentage_denominator() as int,
        )
    }

    pub fn multiply_factor(&self) -> (factor: u64)
        ensures
            factor == self.spec_multiply_factor(),
    {
        self.multiply_factor
    }

    pub fn owner(&self) -> (owner: Identity)
        ensures
            owner == self.spec_owner(),
    {
        self.owner
    }

    pub fn percentage_denominator(&self) -> (denominator: u64)
        ensures
            denominator == self.spec_percentage_denominator(),
    {
        self.percentage_denominator
    }

    pub fn percentage_bonus(&self) -> (bonus: u64)
        ensures
            bonus == self.spec_percentage_bonus(),
    {
        self.percentage_bonus
    }

    /// Create the configuration: rejects a zero multiply factor, and
    /// otherwise stores the factor, makes `caller` the owner, and
    /// fixes the denominator at 10000 and the percentage bonus at
    /// 1000.
    pub fn constructor(initial_multiply_factor: u64, caller: Identity) -> (result: Result<
        RewardProcessor,
        ConstructorError,
    >)
        ensures
            result matches Ok(processor) ==> {
                &&& initial_multiply_factor != 0
                &&& processor.wf()
                &&& processor.spec_multiply_factor() == initial_multiply_factor
                &&& processor.spec_owner()@ == caller@
                &&& processor.spec_percentage_denominator() == FIXED_POINT_DENOMINATOR
                &&& processor.spec_percentage_bonus() == INITIAL_PERCENTAGE_BONUS
            },
            result matches Err(e) ==> initial_multiply_factor == 0 && e
                == ConstructorError::InvalidMultiplyFactor,
            result is Ok <==> initial_multiply_factor != 0,
    {
        if initial_multiply_factor == 0 {
            return Err(ConstructorError::InvalidMultiplyFactor);
        }
        Ok(
            RewardProcessor {
                multiply_factor: initial_multiply_factor,
                owner: caller,
                percentage_denominator: FIXED_POINT_DENOMINATOR,
                percentage_bonus: INITIAL_PERCENTAGE_BONUS,
            },
        )
    }

    /// Reassemble a configuration from its four persisted values, as
    /// read back from a store: accepts exactly the combinations a
    /// well-formed configuration can hold and rejects every other.
    pub fn from_parts(
        multiply_factor: u64,
        owner: Identity,
        percentage_denominator: u64,
        percentage_bonus: u64,
    ) -> (result: Option<RewardProcessor>)
        ensures
            result is Some <==> (multiply_factor > 0 && percentage_bonus > 0
                && percentage_denominator == FIXED_POINT_DENOMINATOR),
            result matches Some(processor) ==> {
                &&& processor.wf()
                &&& processor.spec_multiply_factor() == multiply_factor
                &&& processor.spec_owner()@ == owner@
                &&& processor.spec_percentage_denominator() == percentage_denominator
                &&& processor.spec_percentage_bonus() == percentage_bonus
            },
    {
        if multiply_factor > 0 && percentage_bonus > 0 && percentage_denominator
            == FIXED_POINT_DENOMINATOR {
            Some(
                RewardProcessor {
                    multiply_factor,
                    owner,
                    percentage_denominator,
                    percentage_bonus,
                },
            )
        } else {
            None
        }
    }

    /// Compute the reward for `amount` at `current_time` over the
    /// decay window `[start_time, end_time]`, adding the percentage
    /// bonus and the strict (multiply-factor) bonus when their flags
    /// are set. Read-only and total: every input yields exactly the
    /// reward that `spec_reward` states, and the 128-bit arithmetic
    /// cannot overflow for 64-bit inputs on the fixed scale.
    pub fn calculate_reward_at_time(
        &self,
        amount: u64,
        current_time: u64,
        start_time: u64,
        end_time: u64,
        has_bonus: bool,
        has_strict_bonus: bool,
    ) -> (reward: u128)
        requires
            self.wf(),
        ensures
            reward == self.spec_reward_at_time(
                amount,
                current_time,
                start_time,
                end_time,
                has_bonus,
                has_strict_bonus,
            ),
    {
        let d = self.percentage_denominator;
        let time_decay_multiplier: u64 = if current_time <= start_time {
            d
        } else if current_time >= end_time {
            d / 2
        } else {
            let total_duration = end_time - start_time;
            let elapsed_time = current_time - start_time;
            let max_multiplier = d;
            let min_multiplier = d / 2;
            let decay_range = max_multiplier - min_multiplier;
            proof {
                lemma_mul_inequality(
                    elapsed_time as int,
                    total_duration as int,
                    decay_range as int,
                );
                assert(decay_range as int * elapsed_time as int == elapsed_time as int
                    * decay_range as int) by (nonlinear_arith);
                assert(decay_range as int * total_duration as int == total_duration as int
                    * decay_range as int) by (nonlinear_arith);
                lemma_div_is_ordered(
                    decay_range as int * elapsed_time as int,
                    decay_range as int * total_duration as int,
                    total_duration as int,
                );
                lemma_div_multiples_vanish(decay_range as int, total_duration as int);
            }
            let decay_amount = ((decay_range as u128) * (elapsed_time as u128) / (total_duration
                as u128)) as u64;
            max_multiplier - decay_amount
        };
        proof {
            lemma_time_decay_multiplier_bounds(
                d as int,
                current_time as int,
                start_time as int,
                end_time as int,
            );
            lemma_mul_inequality(
                time_decay_multiplier as int,
                d as int,
                amount as int,
            );
            assert(amount as int * time_decay_multiplier as int == time_decay_multiplier as int
                * amount as int) by (nonlinear_arith);
            assert(amount as int * d as int == d as int * amount as int) by (nonlinear_arith);
            lemma_div_is_ordered(
                amount as int * time_decay_multiplier as int,
                d as int * amount as int,
                d as int,
            );
            lemma_div_multiples_vanish(amount as int, d as int);
        }
        let mut reward: u128 = (amount as u128) * (time_decay_multiplier as u128) / (d as u128);
        if has_bonus {
            proof {
                lemma_mul_upper_bound(
                    amount as int,
                    u64::MAX as int,
                    self.percentage_bonus as int,
                    u64::MAX as int,
                );
                lemma_div_is_ordered(
                    amount as int * self.percentage_bonus as int,
                    u64::MAX as int * u64::MAX as int,
                    d as int,
                );
            }
            reward = reward + (amount as u128) * (self.percentage_bonus as u128) / (d as u128);
        }
        if has_strict_bonus {
            proof {
                lemma_mul_upper_bound(
                    amount as int,
                    u64::MAX as int,
                    self.multiply_factor as int,
                    u64::MAX as int,
                );
                lemma_div_is_ordered(
                    amount as int * self.multiply_factor as int,
                    u64::MAX as int * u64::MAX as int,
                    d as int,
                );
            }
            reward = reward + (amount as u128) * (self.multiply_factor as u128) / (d as u128);
        }
        reward
    }

    /// Set the multiply factor. Owner-gated, checked before
    /// validation; rejects zero with `InvalidMultiplyFactor`. On any
    /// failure the configuration is left exactly as it was.
    pub fn update_multiply_factor(&mut self, new_factor: u64, caller: Identity) -> (result:
        Result<(), CommonError>)
        requires
            old(self).wf(),
        ensures
            final(self).wf(),
            result is Ok <==> old(self).is_owner(caller) && new_factor != 0,
            !old(self).is_owner(caller) ==> result == Err::<(), CommonError>(
                CommonError::Unauthorized,
            ),
            old(self).is_owner(caller) && new_factor == 0 ==> result == Err::<(), CommonError>(
                CommonError::InvalidMultiplyFactor,
            ),
            result is Ok ==> {
                &&& final(self).spec_multiply_factor() == new_factor
                &&& final(self).spec_owner() == old(self).spec_owner()
                &&& final(self).spec_percentage_denominator() == old(
                    self,
                ).spec_percentage_denominator()
                &&& final(self).spec_percentage_bonus() == old(self).spec_percentage_bonus()
            },
            result is Err ==> *final(self) == *old(self),
    {
        match self.assert_owner(caller) {
            Ok(()) => {},
            Err(e) => {
                return Err(e);
            },
        }
        if new_factor == 0 {
            return Err(CommonError::InvalidMultiplyFactor);
        }
        self.multiply_factor = new_factor;
        Ok(())
    }

    /// Set the percentage bonus. Owner-gated, checked before
    /// validation; rejects zero with `ZeroValue`. On any failure the
    /// configuration is left exactly as it was.
    pub fn update_percentage_bonus(&mut self, new_bonus: u64, caller: Identity) -> (result: Result<
        (),
        CommonError,
    >)
        requires
            old(self).wf(),
        ensures
            final(self).wf(),
            result is Ok <==> old(self).is_owner(caller) && new_bonus != 0,
            !old(self).is_owner(caller) ==> result == Err::<(), CommonError>(
                CommonError::Unauthorized,
            ),
            old(self).is_owner(caller) && new_bonus == 0 ==> result == Err::<(), CommonError>(
                CommonError::ZeroValue,
            ),
            result is Ok ==> {
                &&& final(self).spec_percentage_bonus() == new_bonus
                &&& final(self).spec_owner() == old(self).spec_owner()
                &&& final(self).spec_percentage_denominator() == old(
                    self,
                ).spec_percentage_denominator()
                &&& final(self).spec_multiply_factor() == old(self).spec_multiply_factor()
            },
            result is Err ==> *final(self) == *old(self),
    {
        match self.assert_owner(caller) {
            Ok(()) => {},
            Err(e) => {
                return Err(e);
            },
        }
        if new_bonus == 0 {
            return Err(CommonError::ZeroValue);
        }
        self.percentage_bonus = new_bonus;
        Ok(())
    }

    /// Replace the owner. Owner-gated; any new identity is accepted,
    /// the degenerate all-zero identity included. The replacement is
    /// atomic: on success the new owner is stored, on failure the
    /// configuration is left exactly as it was.
    pub fn transfer_ownership(&mut self, new_owner: Identity, caller: Identity) -> (result: Result<
        (),
        CommonError,
    >)
        requires
            old(self).wf(),
        ensures
            final(self).wf(),
            result is Ok <==> old(self).is_owner(caller),
            result matches Err(e) ==> e == CommonError::Unauthorized && *final(self) == *old(self),
            result is Ok ==> {
                &&& final(self).spec_owner()@ == new_owner@
                &&& final(self).spec_multiply_factor() == old(self).spec_multiply_factor()
                &&& final(self).spec_percentage_denominator() == old(
                    self,
                ).spec_percentage_denominator()
                &&& final(self).spec_percentage_bonus() == old(self).spec_percentage_bonus()
            },
    {
        match self.assert_owner(caller) {
            Ok(()) => {},
            Err(e) => {
                return Err(e);
            },
        }
        self.owner = new_owner;
        Ok(())
    }

    /// The access guard: succeeds exactly when `caller` is the stored
    /// owner, and otherwise fails with `Unauthorized`. No side
    /// effects.
    pub fn assert_owner(&self, caller: Identity) -> (result: Result<(), CommonError>)
        ensures
            result is Ok <==> self.is_owner(caller),
            result matches Err(e) ==> e == CommonError::Unauthorized,
    {
        if caller == self.owner {
            Ok(())
        } else {
            Err(CommonError::Unauthorized)
        }
    }
}

/// For any two distinct identities, the access guard admits the one
/// that is stored as the owner and rejects the other: `assert_owner`
/// succeeds exactly under the owner's identity.
pub proof fn lemma_owner_gate_distinguishes(
    processor: RewardProcessor,
    owner_id: Identity,
    other_id: Identity,
)
    requires
        processor.spec_owner()@ == owner_id@,
        owner_id@ != other_id@,
    ensures
        processor.is_owner(owner_id),
        !processor.is_owner(other_id),
{
}

/// Ownership transfer strictly replaces the owner: once a state
/// stores a new owner distinct from the previous one, the access
/// guard rejects the previous owner and admits the new one, so every
/// later mutation attempted by the previous owner fails.
pub proof fn lemma_transfer_revokes_previous_owner(
    post: RewardProcessor,
    previous_owner: Identity,
    new_owner: Identity,
)
    requires
        post.spec_owner()@ == new_owner@,
        previous_owner@ != new_owner@,
    ensures
        !post.is_owner(previous_owner),
        post.is_owner(new_owner),
{
}

/// Reading the reward is idempotent: two computations over the same
/// configuration with identical inputs and no intervening mutation
/// yield the same value, because each equals `spec_reward` of those
/// inputs alone.
pub proof fn lemma_reward_read_idempotent(
    processor: RewardProcessor,
    amount: u64,
    current_time: u64,
    start_time: u64,
    end_time: u64,
    has_bonus: bool,
    has_strict_bonus: bool,
    first_read: u128,
    second_read: u128,
)
    requires
        first_read == processor.spec_reward_at_time(
            amount,
            current_time,
            start_time,
            end_time,
            has_bonus,
            has_strict_bonus,
        ),
        second_read == processor.spec_reward_at_time(
            amount,
            current_time,
            start_time,
            end_time,
            has_bonus,
            has_strict_bonus,
        ),
    ensures
        first_read == second_read,
{
}

} // verus!
