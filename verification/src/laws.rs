//! The factory's global guarantees, stated and proved once over the spec
//! relations that the executable contracts use: what a valid allocation set
//! must sum to, that a completion flag can never be confirmed twice, that a
//! failed external call changes nothing, and that the final step leaves the
//! record tombstoned.

use vstd::prelude::*;

use crate::callbacks::{callback_spec, flag_of};
use crate::constants::MAX_SUPPLY_PERCENT;
use crate::registry::{converted_allocs, register_error, TokenFactory};
use crate::types::{
    allocs_wf, contains_key, has_treasury, key_index, keys_unique, record_ok, set_valid,
    sum_allocated, tombstoned, value_of, FactoryError, PromiseOutcome, SagaStep,
    WrappedTokenAllocation,
};

verus! {

/// A valid allocation set sums exactly to the percent base and holds a
/// treasury entry with a strictly positive share.
pub proof fn lemma_valid_set_exact(s: crate::types::State)
    requires
        set_valid(s),
    ensures
        sum_allocated(s.allocations@) == MAX_SUPPLY_PERCENT,
        has_treasury(s.allocations@),
        allocs_wf(s.allocations@),
{
}

/// Registration admits a set only if it sums exactly to the percent base
/// and names the treasury with a positive share; any other set is refused.
pub proof fn lemma_register_demands_exact_sum(
    f: TokenFactory,
    ft_contract: String,
    deployer_contract: String,
    total_supply: u128,
    input: Seq<(String, WrappedTokenAllocation)>,
    deposit: u128,
)
    ensures
        register_error(f, ft_contract, deployer_contract, total_supply, input, deposit) is None
            ==> (sum_allocated(converted_allocs(input)) == MAX_SUPPLY_PERCENT && has_treasury(
            converted_allocs(input),
        )),
        (sum_allocated(converted_allocs(input)) != MAX_SUPPLY_PERCENT || !has_treasury(
            converted_allocs(input),
        )) ==> register_error(
            f,
            ft_contract,
            deployer_contract,
            total_supply,
            input,
            deposit,
        ) is Some,
{
}

/// In a well-formed factory, every record that has not been tombstoned
/// still carries a fully valid allocation set.
pub proof fn lemma_registered_record_valid(f: TokenFactory, i: int)
    requires
        f.wf(),
        0 <= i < f.tokens@.len(),
        !tombstoned(f.tokens@[i].1),
    ensures
        set_valid(f.tokens@[i].1),
        sum_allocated(f.tokens@[i].1.allocations@) == MAX_SUPPLY_PERCENT,
        has_treasury(f.tokens@[i].1.allocations@),
{
    assert(record_ok(f.tokens@[i].1));
}

/// A failed or pending external-call outcome leaves the whole factory —
/// flags, metadata, and ledger — exactly as it was, and reports `false`.
pub proof fn lemma_failed_callback_is_noop(
    pre: TokenFactory,
    post: TokenFactory,
    id: Seq<char>,
    step: SagaStep,
    outcome: PromiseOutcome,
    r: Result<bool, FactoryError>,
)
    requires
        callback_spec(pre, post, id, step, outcome, r),
        !(outcome is Successful),
    ensures
        post == pre,
        r == Result::<bool, FactoryError>::Ok(false),
{
}

/// A callback confirms a step only when that step's flag was still unset,
/// and leaves it set: the flag moves from unset to set at most once.
pub proof fn lemma_flag_set_once(
    pre: TokenFactory,
    post: TokenFactory,
    id: Seq<char>,
    step: SagaStep,
    outcome: PromiseOutcome,
)
    requires
        keys_unique(pre.tokens@),
        callback_spec(pre, post, id, step, outcome, Result::<bool, FactoryError>::Ok(true)),
    ensures
        contains_key(pre.tokens@, id),
        !flag_of(value_of(pre.tokens@, id), step),
        contains_key(post.tokens@, id),
        key_index(post.tokens@, id) == key_index(pre.tokens@, id),
        flag_of(value_of(post.tokens@, id), step),
{
    let i = key_index(pre.tokens@, id);
    assert(post.tokens@[i].0 == pre.tokens@[i].0);
    crate::registry::lemma_key_index_unique(post.tokens@, id, i);
}

/// A second successful callback for a step already confirmed fails with an
/// invariant violation and changes nothing: no step can double-apply.
pub proof fn lemma_no_double_apply(
    pre: TokenFactory,
    mid: TokenFactory,
    post: TokenFactory,
    id: Seq<char>,
    step: SagaStep,
    outcome1: PromiseOutcome,
    outcome2: PromiseOutcome,
    r2: Result<bool, FactoryError>,
)
    requires
        keys_unique(pre.tokens@),
        callback_spec(pre, mid, id, step, outcome1, Result::<bool, FactoryError>::Ok(true)),
        callback_spec(mid, post, id, step, outcome2, r2),
        outcome2 is Successful,
    ensures
        r2 == Result::<bool, FactoryError>::Err(FactoryError::InvariantViolation),
        post == mid,
{
    let i = key_index(pre.tokens@, id);
    assert forall|a: int, b: int|
        #![trigger mid.tokens@[a], mid.tokens@[b]]
        0 <= a < b < mid.tokens@.len() implies mid.tokens@[a].0@ != mid.tokens@[b].0@ by {
        assert(mid.tokens@[a].0 == pre.tokens@[a].0);
        assert(mid.tokens@[b].0 == pre.tokens@[b].0);
    }
    assert(mid.tokens@[i].0 == pre.tokens@[i].0);
    crate::registry::lemma_key_index_unique(mid.tokens@, id, i);
    assert(flag_of(mid.tokens@[i].1, step));
}

/// Once the final step is confirmed, the record reads as handed off: its
/// metadata is absent and its ledger empty, however many beneficiaries it
/// held.
pub proof fn lemma_allocation_init_tombstones(
    pre: TokenFactory,
    post: TokenFactory,
    id: Seq<char>,
    outcome: PromiseOutcome,
)
    requires
        keys_unique(pre.tokens@),
        callback_spec(
            pre,
            post,
            id,
            SagaStep::AllocationInit,
            outcome,
            Result::<bool, FactoryError>::Ok(true),
        ),
    ensures
        contains_key(post.tokens@, id),
        tombstoned(value_of(post.tokens@, id)),
        value_of(post.tokens@, id).ft_metadata is None,
        value_of(post.tokens@, id).allocations@.len() == 0,
{
    let i = key_index(pre.tokens@, id);
    assert(post.tokens@[i].0 == pre.tokens@[i].0);
    crate::registry::lemma_key_index_unique(post.tokens@, id, i);
}

} // verus!
