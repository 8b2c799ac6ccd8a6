//! Saga callbacks: the confirmation half of each step. A callback inspects
//! the outcome of the dispatched external call and, only on success, flips
//! exactly one completion flag — never twice, never on a record already
//! tombstoned. A failed outcome leaves the factory untouched, so the step
//! can be retried by dispatching again.

use vstd::prelude::*;

use crate::registry::{find_key, lemma_key_index_unique, TokenFactory};
use crate::types::{
    contains_key, key_index, tombstoned, FactoryError, PromiseOutcome, SagaStep, State,
};

verus! {

/// The completion flag that guards `step`.
pub open spec fn flag_of(s: State, step: SagaStep) -> bool {
    match step {
        SagaStep::FtContract => s.ft_contract_deployed,
        SagaStep::DeployerContract => s.deployer_contract_deployed,
        SagaStep::FtIssue => s.ft_issued,
        SagaStep::AllocationInit => s.allocation_initialized,
    }
}

/// How a record changes when `step` is confirmed: its flag is set, and the
/// final step additionally tombstones metadata and ledger — their data now
/// lives in the deployed programs. Every other field is untouched.
pub open spec fn step_applied(pre: State, post: State, step: SagaStep) -> bool {
    match step {
        SagaStep::FtContract => post == State { ft_contract_deployed: true, ..pre },
        SagaStep::DeployerContract => post == State { deployer_contract_deployed: true, ..pre },
        SagaStep::FtIssue => post == State { ft_issued: true, ..pre },
        SagaStep::AllocationInit => {
            &&& post.ft_contract == pre.ft_contract
            &&& post.ft_metadata is None
            &&& post.ft_deployer == pre.ft_deployer
            &&& post.creator == pre.creator
            &&& post.allocations@.len() == 0
            &&& post.ft_contract_deployed == pre.ft_contract_deployed
            &&& post.deployer_contract_deployed == pre.deployer_contract_deployed
            &&& post.ft_issued == pre.ft_issued
            &&& post.allocation_initialized == true
        },
    }
}

/// The exact transition a callback performs. A failed or pending outcome
/// changes nothing and reports `false`; a successful outcome for a missing
/// record is refused; one for an already-set flag or a tombstoned record is
/// an invariant violation and changes nothing; otherwise exactly the step's
/// flag moves, on exactly this record.
pub open spec fn callback_spec(
    pre: TokenFactory,
    post: TokenFactory,
    id: Seq<char>,
    step: SagaStep,
    outcome: PromiseOutcome,
    r: Result<bool, FactoryError>,
) -> bool {
    if !(outcome is Successful) {
        &&& post == pre
        &&& r == Result::<bool, FactoryError>::Ok(false)
    } else if !contains_key(pre.tokens@, id) {
        &&& post == pre
        &&& r == Result::<bool, FactoryError>::Err(FactoryError::NotRegistered)
    } else {
        let i = key_index(pre.tokens@, id);
        let s = pre.tokens@[i].1;
        if tombstoned(s) || flag_of(s, step) {
            &&& post == pre
            &&& r == Result::<bool, FactoryError>::Err(FactoryError::InvariantViolation)
        } else {
            &&& r == Result::<bool, FactoryError>::Ok(true)
            &&& post.owner_id == pre.owner_id
            &&& post.admins == pre.admins
            &&& post.user_token_map == pre.user_token_map
            &&& post.tokens@.len() == pre.tokens@.len()
            &&& forall|j: int|
                #![trigger post.tokens@[j]]
                0 <= j < pre.tokens@.len() && j != i ==> post.tokens@[j] == pre.tokens@[j]
            &&& post.tokens@[i].0 == pre.tokens@[i].0
            &&& step_applied(s, post.tokens@[i].1, step)
        }
    }
}

/// The callback interface of the factory: the host runtime invokes these
/// entry points with the outcome of the external call that the matching
/// dispatch scheduled.
pub trait ExtTokenFactory: Sized {
    /// The invariant the callbacks demand and preserve.
    spec fn cb_wf(&self) -> bool;

    /// The exact transition each callback performs.
    spec fn cb_spec(
        pre: Self,
        post: Self,
        id: Seq<char>,
        step: SagaStep,
        outcome: PromiseOutcome,
        r: Result<bool, FactoryError>,
    ) -> bool;

    /// Confirms the token program's creation.
    fn on_ft_contract_deployed(&mut self, ft_contract: String, outcome: PromiseOutcome) -> (r:
        Result<bool, FactoryError>)
        requires
            old(self).cb_wf(),
        ensures
            final(self).cb_wf(),
            Self::cb_spec(
                *old(self),
                *final(self),
                ft_contract@,
                SagaStep::FtContract,
                outcome,
                r,
            ),
    ;

    /// Confirms the allocation program's creation.
    fn on_ft_deployer_deployed(&mut self, ft_contract: String, outcome: PromiseOutcome) -> (r:
        Result<bool, FactoryError>)
        requires
            old(self).cb_wf(),
        ensures
            final(self).cb_wf(),
            Self::cb_spec(
                *old(self),
                *final(self),
                ft_contract@,
                SagaStep::DeployerContract,
                outcome,
                r,
            ),
    ;

    /// Confirms the issuance of the token supply.
    fn on_token_issued(&mut self, ft_contract: String, outcome: PromiseOutcome) -> (r: Result<
        bool,
        FactoryError,
    >)
        requires
            old(self).cb_wf(),
        ensures
            final(self).cb_wf(),
            Self::cb_spec(*old(self), *final(self), ft_contract@, SagaStep::FtIssue, outcome, r),
    ;

    /// Confirms the allocation initialization and tombstones the record.
    fn on_allocation_init(&mut self, ft_contract: String, outcome: PromiseOutcome) -> (r: Result<
        bool,
        FactoryError,
    >)
        requires
            old(self).cb_wf(),
        ensures
            final(self).cb_wf(),
            Self::cb_spec(
                *old(self),
                *final(self),
                ft_contract@,
                SagaStep::AllocationInit,
                outcome,
                r,
            ),
    ;
}

impl TokenFactory {
    /// The shared callback body: decide from the outcome and the stored
    /// record, then flip exactly one flag.
    fn run_callback(&mut self, ft_contract: &String, outcome: &PromiseOutcome, step: SagaStep) -> (r:
        Result<bool, FactoryError>)
        requires
            old(self).wf(),
        ensures
            final(self).wf(),
            callback_spec(*old(self), *final(self), ft_contract@, step, *outcome, r),
    {
        match outcome {
            PromiseOutcome::Successful(_) => {},
            _ => {
                return Result::Ok(false);
            },
        }
        let i = match find_key(&self.tokens, ft_contract) {
            Option::None => {
                return Result::Err(FactoryError::NotRegistered);
            },
            Option::Some(i) => i,
        };
        proof {
            lemma_key_index_unique(self.tokens@, ft_contract@, i as int);
        }
        let tomb = {
            let st = &self.tokens[i].1;
            st.ft_metadata.is_none() || st.allocations.len() == 0
        };
        let flag_set = {
            let st = &self.tokens[i].1;
            match step {
                SagaStep::FtContract => st.ft_contract_deployed,
                SagaStep::DeployerContract => st.deployer_contract_deployed,
                SagaStep::FtIssue => st.ft_issued,
                SagaStep::AllocationInit => st.allocation_initialized,
            }
        };
        if tomb || flag_set {
            return Result::Err(FactoryError::InvariantViolation);
        }
        let (k, mut st) = self.tokens.remove(i);
        match step {
            SagaStep::FtContract => {
                st.ft_contract_deployed = true;
            },
            SagaStep::DeployerContract => {
                st.deployer_contract_deployed = true;
            },
            SagaStep::FtIssue => {
                st.ft_issued = true;
            },
            SagaStep::AllocationInit => {
                st.allocation_initialized = true;
                st.ft_metadata = Option::None;
                st.allocations = Vec::new();
            },
        }
        self.tokens.insert(i, (k, st));
        proof {
            let pre = old(self).tokens@;
            let post = self.tokens@;
            let ii = i as int;
            assert forall|j: int| 0 <= j < pre.len() && j != ii implies #[trigger] post[j]
                == pre[j] by {
                if j < ii {
                    assert(pre.remove(ii)[j] == pre[j]);
                    assert(post[j] == pre.remove(ii)[j]);
                } else {
                    assert(pre.remove(ii)[j - 1] == pre[j]);
                    assert(post[j] == pre.remove(ii)[j - 1]);
                }
            }
            assert(post[ii].0 == pre[ii].0);
            assert forall|a: int, b: int|
                #![trigger post[a], post[b]]
                0 <= a < b < post.len() implies post[a].0@ != post[b].0@ by {
                assert(pre[a].0@ != pre[b].0@);
                assert(post[a].0 == pre[a].0);
                assert(post[b].0 == pre[b].0);
            }
            assert forall|a: int, b: int|
                0 <= a < self.user_token_map@.len() && 0 <= b
                    < self.user_token_map@[a].1@.len() implies contains_key(
                post,
                #[trigger] self.user_token_map@[a].1@[b]@,
            ) by {
                let id2 = self.user_token_map@[a].1@[b]@;
                assert(contains_key(pre, id2));
                let w = key_index(pre, id2);
                assert(pre[w].0@ == id2);
                assert(post[w].0 == pre[w].0);
            }
        }
        Result::Ok(true)
    }
}

impl ExtTokenFactory for TokenFactory {
    open spec fn cb_wf(&self) -> bool {
        self.wf()
    }

    open spec fn cb_spec(
        pre: Self,
        post: Self,
        id: Seq<char>,
        step: SagaStep,
        outcome: PromiseOutcome,
        r: Result<bool, FactoryError>,
    ) -> bool {
        callback_spec(pre, post, id, step, outcome, r)
    }

    fn on_ft_contract_deployed(&mut self, ft_contract: String, outcome: PromiseOutcome) -> (r:
        Result<bool, FactoryError>) {
        self.run_callback(&ft_contract, &outcome, SagaStep::FtContract)
    }

    fn on_ft_deployer_deployed(&mut self, ft_contract: String, outcome: PromiseOutcome) -> (r:
        Result<bool, FactoryError>) {
        self.run_callback(&ft_contract, &outcome, SagaStep::DeployerContract)
    }

    fn on_token_issued(&mut self, ft_contract: String, outcome: PromiseOutcome) -> (r: Result<
        bool,
        FactoryError,
    >) {
        self.run_callback(&ft_contract, &outcome, SagaStep::FtIssue)
    }

    fn on_allocation_init(&mut self, ft_contract: String, outcome: PromiseOutcome) -> (r: Result<
        bool,
        FactoryError,
    >) {
        self.run_callback(&ft_contract, &outcome, SagaStep::AllocationInit)
    }
}

} // verus!
