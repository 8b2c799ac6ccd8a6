//! Read-only projections over the registry and the reverse index. They
//! mutate nothing and reflect tombstoning: once the saga's final step has
//! completed, a record's metadata reads as absent and its ledger as empty.

use vstd::prelude::*;

use crate::registry::{find_key, lemma_key_index_unique, TokenFactory};
use crate::types::{
    contains_key, copy_allocations, copy_metadata, is_default_wstate, key_index, value_of,
    wrap_state, wstate_eq, FactoryError, State, WrappedFTMetadata, WrappedState,
};

verus! {

/// The outward copy of a record, exact up to views.
pub fn wrap_state_copy(s: &State) -> (w: WrappedState)
    ensures
        wstate_eq(w, wrap_state(*s)),
{
    WrappedState {
        ft_contract: s.ft_contract.clone(),
        ft_metadata: match &s.ft_metadata {
            Option::None => Option::None,
            Option::Some(m) => Option::Some(WrappedFTMetadata::from(copy_metadata(m))),
        },
        ft_deployer: s.ft_deployer.clone(),
        creator: s.creator.clone(),
        allocations: copy_allocations(&s.allocations),
        ft_contract_deployed: s.ft_contract_deployed,
        deployer_contract_deployed: s.deployer_contract_deployed,
        ft_issued: s.ft_issued,
        allocation_initialized: s.allocation_initialized,
    }
}

/// How many records a page starting at `from` with size `limit` holds.
pub open spec fn page_len(from: int, limit: int, n: int) -> int {
    if from >= n {
        0
    } else if from + limit >= n {
        n - from
    } else {
        limit
    }
}

/// The records whose creator is `who`, in registry order.
pub open spec fn states_of_creator(tokens: Seq<(String, State)>, who: Seq<char>) -> Seq<State>
    decreases tokens.len(),
{
    if tokens.len() == 0 {
        Seq::empty()
    } else {
        let p = states_of_creator(tokens.drop_last(), who);
        if tokens.last().1.creator@ == who {
            p.push(tokens.last().1)
        } else {
            p
        }
    }
}

impl TokenFactory {
    /// The record registered under `ft_contract`, in outward form.
    pub fn get_token_state(&self, ft_contract: String) -> (r: Result<WrappedState, FactoryError>)
        requires
            self.wf(),
        ensures
            match r {
                Result::Err(e) => {
                    &&& e == FactoryError::NotRegistered
                    &&& !contains_key(self.tokens@, ft_contract@)
                },
                Result::Ok(w) => {
                    &&& contains_key(self.tokens@, ft_contract@)
                    &&& wstate_eq(w, wrap_state(value_of(self.tokens@, ft_contract@)))
                },
            },
    {
        match find_key(&self.tokens, &ft_contract) {
            Option::None => Result::Err(FactoryError::NotRegistered),
            Option::Some(i) => {
                proof {
                    lemma_key_index_unique(self.tokens@, ft_contract@, i as int);
                }
                Result::Ok(wrap_state_copy(&self.tokens[i].1))
            },
        }
    }

    /// The identifiers associated with `account_id` in the reverse index.
    pub fn list_tokens_by_account_id(&self, account_id: String) -> (r: Vec<String>)
        requires
            self.wf(),
        ensures
            if contains_key(self.user_token_map@, account_id@) {
                r@ == self.user_token_map@[key_index(self.user_token_map@, account_id@)].1@
            } else {
                r@.len() == 0
            },
    {
        match find_key(&self.user_token_map, &account_id) {
            Option::None => Vec::new(),
            Option::Some(i) => {
                proof {
                    lemma_key_index_unique(self.user_token_map@, account_id@, i as int);
                }
                let set = &self.user_token_map[i].1;
                let mut out: Vec<String> = Vec::new();
                let mut j: usize = 0;
                while j < set.len()
                    invariant
                        j <= set@.len(),
                        out@ == set@.take(j as int),
                    decreases set@.len() - j,
                {
                    out.push(set[j].clone());
                    j = j + 1;
                    proof {
                        assert(out@ =~= set@.take(j as int));
                    }
                }
                proof {
                    assert(out@ =~= set@);
                }
                out
            },
        }
    }

    /// One page of records, in registry order.
    pub fn list_token_contracts(&self, from_index: u64, limit: u64) -> (r: Vec<WrappedState>)
        ensures
            r@.len() == page_len(from_index as int, limit as int, self.tokens@.len() as int),
            forall|i: int|
                0 <= i < r@.len() ==> wstate_eq(
                    #[trigger] r@[i],
                    wrap_state(self.tokens@[from_index + i].1),
                ),
    {
        let n = self.tokens.len();
        let start: usize = if from_index >= n as u64 {
            n
        } else {
            from_index as usize
        };
        let end: usize = if limit >= (n - start) as u64 {
            n
        } else {
            start + limit as usize
        };
        let mut out: Vec<WrappedState> = Vec::new();
        let mut i: usize = start;
        while i < end
            invariant
                start <= i <= end,
                end <= self.tokens@.len(),
                out@.len() == i - start,
                forall|k: int|
                    0 <= k < out@.len() ==> wstate_eq(
                        #[trigger] out@[k],
                        wrap_state(self.tokens@[start + k].1),
                    ),
            decreases end - i,
        {
            out.push(wrap_state_copy(&self.tokens[i].1));
            i = i + 1;
        }
        out
    }

    /// The records under the given identifiers, a placeholder where one is
    /// unknown.
    pub fn list_token_states(&self, token_contracts: Vec<String>) -> (r: Vec<WrappedState>)
        requires
            self.wf(),
        ensures
            r@.len() == token_contracts@.len(),
            forall|i: int|
                0 <= i < r@.len() ==> if contains_key(self.tokens@, token_contracts@[i]@) {
                    wstate_eq(
                        #[trigger] r@[i],
                        wrap_state(value_of(self.tokens@, token_contracts@[i]@)),
                    )
                } else {
                    is_default_wstate(r@[i])
                },
    {
        let mut out: Vec<WrappedState> = Vec::new();
        let mut i: usize = 0;
        while i < token_contracts.len()
            invariant
                self.wf(),
                i <= token_contracts@.len(),
                out@.len() == i,
                forall|k: int|
                    0 <= k < out@.len() ==> if contains_key(self.tokens@, token_contracts@[k]@) {
                        wstate_eq(
                            #[trigger] out@[k],
                            wrap_state(value_of(self.tokens@, token_contracts@[k]@)),
                        )
                    } else {
                        is_default_wstate(out@[k])
                    },
            decreases token_contracts@.len() - i,
        {
            match find_key(&self.tokens, &token_contracts[i]) {
                Option::None => {
                    let d = State::default();
                    out.push(WrappedState::from(d));
                },
                Option::Some(j) => {
                    proof {
                        lemma_key_index_unique(self.tokens@, token_contracts@[i as int]@, j as int);
                    }
                    out.push(wrap_state_copy(&self.tokens[j].1));
                },
            }
            i = i + 1;
        }
        out
    }

    /// Every record, in registry order.
    pub fn list_all_tokens(&self) -> (r: Vec<WrappedState>)
        ensures
            r@.len() == self.tokens@.len(),
            forall|i: int|
                0 <= i < r@.len() ==> wstate_eq(#[trigger] r@[i], wrap_state(self.tokens@[i].1)),
    {
        let mut out: Vec<WrappedState> = Vec::new();
        let mut i: usize = 0;
        while i < self.tokens.len()
            invariant
                i <= self.tokens@.len(),
                out@.len() == i,
                forall|k: int|
                    0 <= k < out@.len() ==> wstate_eq(
                        #[trigger] out@[k],
                        wrap_state(self.tokens@[k].1),
                    ),
            decreases self.tokens@.len() - i,
        {
            out.push(wrap_state_copy(&self.tokens[i].1));
            i = i + 1;
        }
        out
    }

    /// Every registered identifier, in registry order.
    pub fn list_all_token_contracts(&self) -> (r: Vec<String>)
        ensures
            r@.len() == self.tokens@.len(),
            forall|i: int| 0 <= i < r@.len() ==> #[trigger] r@[i] == self.tokens@[i].0,
    {
        let mut out: Vec<String> = Vec::new();
        let mut i: usize = 0;
        while i < self.tokens.len()
            invariant
                i <= self.tokens@.len(),
                out@.len() == i,
                forall|k: int| 0 <= k < out@.len() ==> #[trigger] out@[k] == self.tokens@[k].0,
            decreases self.tokens@.len() - i,
        {
            out.push(self.tokens[i].0.clone());
            i = i + 1;
        }
        out
    }

    /// The records created by `account_id`, in registry order.
    pub fn list_my_tokens(&self, account_id: String) -> (r: Vec<WrappedState>)
        ensures
            r@.len() == states_of_creator(self.tokens@, account_id@).len(),
            forall|i: int|
                0 <= i < r@.len() ==> wstate_eq(
                    #[trigger] r@[i],
                    wrap_state(states_of_creator(self.tokens@, account_id@)[i]),
                ),
    {
        let ghost toks = self.tokens@;
        let ghost who = account_id@;
        let mut out: Vec<WrappedState> = Vec::new();
        let mut i: usize = 0;
        proof {
            assert(toks.take(0) =~= Seq::<(String, State)>::empty());
        }
        while i < self.tokens.len()
            invariant
                toks == self.tokens@,
                who == account_id@,
                i <= toks.len(),
                out@.len() == states_of_creator(toks.take(i as int), who).len(),
                forall|k: int|
                    0 <= k < out@.len() ==> wstate_eq(
                        #[trigger] out@[k],
                        wrap_state(states_of_creator(toks.take(i as int), who)[k]),
                    ),
            decreases toks.len() - i,
        {
            proof {
                assert(toks.take(i as int + 1).drop_last() =~= toks.take(i as int));
                assert(toks.take(i as int + 1).last() == toks[i as int]);
            }
            if self.tokens[i].1.creator == account_id {
                out.push(wrap_state_copy(&self.tokens[i].1));
            }
            i = i + 1;
        }
        proof {
            assert(toks.take(toks.len() as int) =~= toks);
        }
        out
    }
}

} // verus!
