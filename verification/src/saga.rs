//! Saga dispatch: each step re-validates the allocation ledger, checks that
//! the caller is the record's creator, and returns the typed payload of
//! exactly one external call. Nothing in the factory is mutated at dispatch
//! time — a dispatched call whose callback never fires, or fires with
//! failure, leaves the registry as it was.

use vstd::prelude::*;

use crate::constants::{
    treasury_account, treasury_id, CONTRACT_FUNDING, DEFAULT_GAS_FEE, DEPLOY_FT_FUNDING,
    MAX_SUPPLY_PERCENT,
};
use crate::registry::{find_key, lemma_key_index_unique, TokenFactory};
use crate::types::{
    alloc_wf, contains_key, has_treasury, key_index, lemma_sum_push, sum_allocated, value_of,
    wrap_alloc, FactoryError, State, TokenAllocation, WrappedTokenAllocation,
};

verus! {

// ---------------------------------------------------------------------------
// Typed external-call payloads
// ---------------------------------------------------------------------------

/// Payload of a program-creation step: create the target account, transfer
/// `value`, and deploy the program's code there.
#[derive(Debug)]
pub struct CreateContractAction {
    pub target: String,
    pub value: u128,
    pub gas: u64,
}

/// Payload of the supply-issuance step: invoke the token program's
/// constructor with the registered metadata.
#[derive(Debug)]
pub struct IssueFtAction {
    pub target: String,
    pub owner_id: String,
    pub total_supply: u128,
    pub token_name: String,
    pub symbol: String,
    pub icon: Option<String>,
    pub reference: Option<String>,
    pub reference_hash: Option<Vec<u8>>,
    pub decimals: u8,
    pub deposit: u128,
    pub gas: u64,
}

/// Payload of the allocation-initialization step: hand the vesting ledger to
/// the deployed allocation program.
#[derive(Debug)]
pub struct InitAllocationAction {
    pub target: String,
    pub ft_contract_name: String,
    pub total_supply: u128,
    pub allocations: Vec<(String, WrappedTokenAllocation)>,
    pub deposit: u128,
    pub gas: u64,
}

/// Payload of the stand-alone fungible-token deployment helper: create and
/// fund the account, deploy the token program, and invoke its constructor.
#[derive(Debug)]
pub struct DeployFtAction {
    pub contract_name: String,
    pub owner_id: String,
    pub total_supply: u128,
    pub token_name: String,
    pub symbol: String,
    pub decimals: u8,
    pub value: u128,
    pub gas: u64,
}

// ---------------------------------------------------------------------------
// The ledger re-check that guards every step
// ---------------------------------------------------------------------------

/// Exactly when and why a record fails the pre-step check: not a real
/// registration (metadata absent, zero supply, or an empty ledger), some
/// allocation breaking the per-record rule, a total different from the
/// percent base, or a missing treasury entry.
pub open spec fn state_error(s: State) -> Option<FactoryError> {
    if !(s.ft_metadata is Some) || s.ft_metadata->Some_0.total_supply == 0
        || s.allocations@.len() == 0 {
        Option::Some(FactoryError::NotRegistered)
    } else if exists|i: int|
        #![trigger s.allocations@[i]]
        0 <= i < s.allocations@.len() && !alloc_wf(s.allocations@[i].1) {
        Option::Some(FactoryError::InvalidAllocation)
    } else if sum_allocated(s.allocations@) != MAX_SUPPLY_PERCENT {
        Option::Some(FactoryError::InvalidAllocationSet)
    } else if !has_treasury(s.allocations@) {
        Option::Some(FactoryError::InvalidAllocationSet)
    } else {
        Option::None
    }
}

/// Decides the per-record rule.
fn check_allocation(a: &TokenAllocation) -> (r: bool)
    ensures
        r == alloc_wf(*a),
{
    a.vesting_start_time <= a.vesting_end_time
        && a.vesting_interval <= a.vesting_end_time - a.vesting_start_time
        && (a.initial_release as u128) + (a.claimed as u128) <= (a.allocated_percent as u128)
}

/// Runs the full pre-step check on one record.
pub fn validate_record(s: &State) -> (r: Result<(), FactoryError>)
    ensures
        match r {
            Result::Ok(u) => state_error(*s) is None,
            Result::Err(e) => state_error(*s) == Option::Some(e),
        },
{
    let registered = match &s.ft_metadata {
        Option::None => false,
        Option::Some(m) => m.total_supply > 0,
    };
    if !registered || s.allocations.len() == 0 {
        return Result::Err(FactoryError::NotRegistered);
    }
    let treasury = treasury_account();
    let mut tre = false;
    let mut running: u128 = 0;
    let mut i: usize = 0;
    let ghost allocs = s.allocations@;
    proof {
        assert(allocs.take(0) =~= Seq::<(String, TokenAllocation)>::empty());
    }
    while i < s.allocations.len()
        invariant
            allocs == s.allocations@,
            s.ft_metadata is Some,
            s.ft_metadata->Some_0.total_supply > 0,
            allocs.len() > 0,
            treasury@ == treasury_id(),
            i <= allocs.len(),
            allocs.len() <= usize::MAX,
            forall|j: int| #![trigger allocs[j]] 0 <= j < i ==> alloc_wf(allocs[j].1),
            running as int == sum_allocated(allocs.take(i as int)),
            running as int <= i as int * 0xFFFF_FFFF_FFFF_FFFF,
            tre == has_treasury(allocs.take(i as int)),
        decreases allocs.len() - i,
    {
        let entry = &s.allocations[i];
        if !check_allocation(&entry.1) {
            return Result::Err(FactoryError::InvalidAllocation);
        }
        if entry.0 == treasury && entry.1.allocated_percent > 0 {
            tre = true;
        }
        proof {
            lemma_sum_push(allocs.take(i as int), allocs[i as int]);
            crate::registry::lemma_treasury_push(allocs.take(i as int), allocs[i as int]);
            assert(allocs.take(i as int).push(allocs[i as int]) =~= allocs.take(i as int + 1));
        }
        running = running + (entry.1.allocated_percent as u128);
        i = i + 1;
    }
    proof {
        assert(allocs.take(allocs.len() as int) =~= allocs);
    }
    if running != (MAX_SUPPLY_PERCENT as u128) {
        return Result::Err(FactoryError::InvalidAllocationSet);
    }
    if !tre {
        return Result::Err(FactoryError::InvalidAllocationSet);
    }
    Result::Ok(())
}

// ---------------------------------------------------------------------------
// Dispatch preconditions
// ---------------------------------------------------------------------------

/// The pre-step check of the record stored under `id`, `NotRegistered` when
/// there is none.
pub open spec fn state_check_error(f: TokenFactory, id: Seq<char>) -> Option<FactoryError> {
    if !contains_key(f.tokens@, id) {
        Option::Some(FactoryError::NotRegistered)
    } else {
        state_error(value_of(f.tokens@, id))
    }
}

/// Exactly when and why a saga step refuses to dispatch: the record fails
/// the pre-step check, or the caller is not the record's creator.
pub open spec fn dispatch_error(f: TokenFactory, id: Seq<char>, signer: Seq<char>) -> Option<
    FactoryError,
> {
    if state_check_error(f, id) is Some {
        state_check_error(f, id)
    } else if value_of(f.tokens@, id).creator@ != signer {
        Option::Some(FactoryError::NotCreator)
    } else {
        Option::None
    }
}

impl TokenFactory {
    /// Runs the pre-step check on the record stored under `ft_contract`.
    pub fn assert_invalid_allocations(&self, ft_contract: String) -> (r: Result<
        (),
        FactoryError,
    >)
        requires
            self.wf(),
        ensures
            match r {
                Result::Ok(u) => state_check_error(*self, ft_contract@) is None,
                Result::Err(e) => state_check_error(*self, ft_contract@) == Option::Some(e),
            },
    {
        match find_key(&self.tokens, &ft_contract) {
            Option::None => Result::Err(FactoryError::NotRegistered),
            Option::Some(i) => {
                proof {
                    lemma_key_index_unique(self.tokens@, ft_contract@, i as int);
                }
                validate_record(&self.tokens[i].1)
            },
        }
    }

    /// Looks the record up and checks ledger and creator; on success hands
    /// the record's index back.
    fn check_dispatch(&self, ft_contract: &String, signer: &String) -> (r: Result<
        usize,
        FactoryError,
    >)
        requires
            self.wf(),
        ensures
            match r {
                Result::Ok(i) => {
                    &&& dispatch_error(*self, ft_contract@, signer@) is None
                    &&& i < self.tokens@.len()
                    &&& self.tokens@[i as int].0@ == ft_contract@
                    &&& key_index(self.tokens@, ft_contract@) == i as int
                },
                Result::Err(e) => dispatch_error(*self, ft_contract@, signer@) == Option::Some(e),
            },
    {
        match find_key(&self.tokens, ft_contract) {
            Option::None => Result::Err(FactoryError::NotRegistered),
            Option::Some(i) => {
                proof {
                    lemma_key_index_unique(self.tokens@, ft_contract@, i as int);
                }
                match validate_record(&self.tokens[i].1) {
                    Result::Err(e) => Result::Err(e),
                    Result::Ok(u) => {
                        if self.tokens[i].1.creator == *signer {
                            Result::Ok(i)
                        } else {
                            Result::Err(FactoryError::NotCreator)
                        }
                    },
                }
            },
        }
    }

    /// First saga step: create and fund the token program's account and
    /// deploy its code there. Mutates nothing; the flag moves only in the
    /// confirming callback.
    pub fn create_ft_contract(&mut self, ft_contract: String, signer: String) -> (r: Result<
        CreateContractAction,
        FactoryError,
    >)
        requires
            old(self).wf(),
        ensures
            *final(self) == *old(self),
            match r {
                Result::Err(e) => Option::Some(e) == dispatch_error(
                    *old(self),
                    ft_contract@,
                    signer@,
                ),
                Result::Ok(a) => {
                    &&& dispatch_error(*old(self), ft_contract@, signer@) is None
                    &&& a.target == ft_contract
                    &&& a.value == CONTRACT_FUNDING
                    &&& a.gas == DEFAULT_GAS_FEE
                },
            },
    {
        match self.check_dispatch(&ft_contract, &signer) {
            Result::Err(e) => Result::Err(e),
            Result::Ok(i) => Result::Ok(
                CreateContractAction { target: ft_contract, value: CONTRACT_FUNDING, gas: DEFAULT_GAS_FEE },
            ),
        }
    }

    /// Second saga step: create and fund the allocation program's account
    /// and deploy its code there. Mutates nothing.
    pub fn create_deployer_contract(&mut self, ft_contract: String, signer: String) -> (r: Result<
        CreateContractAction,
        FactoryError,
    >)
        requires
            old(self).wf(),
        ensures
            *final(self) == *old(self),
            match r {
                Result::Err(e) => Option::Some(e) == dispatch_error(
                    *old(self),
                    ft_contract@,
                    signer@,
                ),
                Result::Ok(a) => {
                    &&& dispatch_error(*old(self), ft_contract@, signer@) is None
                    &&& a.target == value_of(old(self).tokens@, ft_contract@).ft_deployer
                    &&& a.value == CONTRACT_FUNDING
                    &&& a.gas == DEFAULT_GAS_FEE
                },
            },
    {
        match self.check_dispatch(&ft_contract, &signer) {
            Result::Err(e) => Result::Err(e),
            Result::Ok(i) => Result::Ok(
                CreateContractAction {
                    target: self.tokens[i].1.ft_deployer.clone(),
                    value: CONTRACT_FUNDING,
                    gas: DEFAULT_GAS_FEE,
                },
            ),
        }
    }

    /// Third saga step: invoke the token program's constructor with the
    /// registered metadata. Mutates nothing.
    pub fn issue_ft(&mut self, ft_contract: String, signer: String) -> (r: Result<
        IssueFtAction,
        FactoryError,
    >)
        requires
            old(self).wf(),
        ensures
            *final(self) == *old(self),
            match r {
                Result::Err(e) => Option::Some(e) == dispatch_error(
                    *old(self),
                    ft_contract@,
                    signer@,
                ),
                Result::Ok(a) => {
                    &&& dispatch_error(*old(self), ft_contract@, signer@) is None
                    &&& a.target == ft_contract
                    &&& a.owner_id == value_of(old(self).tokens@, ft_contract@).ft_deployer
                    &&& a.total_supply == value_of(
                        old(self).tokens@,
                        ft_contract@,
                    ).ft_metadata->Some_0.total_supply
                    &&& a.token_name == value_of(
                        old(self).tokens@,
                        ft_contract@,
                    ).ft_metadata->Some_0.token_name
                    &&& a.symbol == value_of(
                        old(self).tokens@,
                        ft_contract@,
                    ).ft_metadata->Some_0.symbol
                    &&& a.icon == value_of(old(self).tokens@, ft_contract@).ft_metadata->Some_0.icon
                    &&& a.reference == value_of(
                        old(self).tokens@,
                        ft_contract@,
                    ).ft_metadata->Some_0.reference
                    &&& crate::types::opt_bytes_eq(
                        a.reference_hash,
                        value_of(old(self).tokens@, ft_contract@).ft_metadata->Some_0.reference_hash,
                    )
                    &&& a.decimals == value_of(
                        old(self).tokens@,
                        ft_contract@,
                    ).ft_metadata->Some_0.decimals
                    &&& a.deposit == 0
                    &&& a.gas == DEFAULT_GAS_FEE
                },
            },
    {
        match self.check_dispatch(&ft_contract, &signer) {
            Result::Err(e) => Result::Err(e),
            Result::Ok(i) => {
                let st = &self.tokens[i].1;
                match &st.ft_metadata {
                    Option::None => {
                        proof {
                            assert(false);
                        }
                        Result::Err(FactoryError::NotRegistered)
                    },
                    Option::Some(m) => Result::Ok(
                        IssueFtAction {
                            target: ft_contract,
                            owner_id: st.ft_deployer.clone(),
                            total_supply: m.total_supply,
                            token_name: m.token_name.clone(),
                            symbol: m.symbol.clone(),
                            icon: crate::types::copy_opt_string(&m.icon),
                            reference: crate::types::copy_opt_string(&m.reference),
                            reference_hash: crate::types::copy_opt_bytes(&m.reference_hash),
                            decimals: m.decimals,
                            deposit: 0,
                            gas: DEFAULT_GAS_FEE,
                        },
                    ),
                }
            },
        }
    }

    /// Fourth saga step: hand the vesting ledger to the deployed allocation
    /// program. Mutates nothing; the ledger is tombstoned only in the
    /// confirming callback.
    pub fn init_token_allocation(&mut self, ft_contract: String, signer: String) -> (r: Result<
        InitAllocationAction,
        FactoryError,
    >)
        requires
            old(self).wf(),
        ensures
            *final(self) == *old(self),
            match r {
                Result::Err(e) => Option::Some(e) == dispatch_error(
                    *old(self),
                    ft_contract@,
                    signer@,
                ),
                Result::Ok(a) => {
                    &&& dispatch_error(*old(self), ft_contract@, signer@) is None
                    &&& a.target == value_of(old(self).tokens@, ft_contract@).ft_deployer
                    &&& a.ft_contract_name == ft_contract
                    &&& a.total_supply == value_of(
                        old(self).tokens@,
                        ft_contract@,
                    ).ft_metadata->Some_0.total_supply
                    &&& a.allocations@.len() == value_of(
                        old(self).tokens@,
                        ft_contract@,
                    ).allocations@.len()
                    &&& forall|j: int|
                        #![trigger a.allocations@[j]]
                        0 <= j < a.allocations@.len() ==> a.allocations@[j].0@ == value_of(
                            old(self).tokens@,
                            ft_contract@,
                        ).allocations@[j].0@ && a.allocations@[j].1 == wrap_alloc(
                            value_of(old(self).tokens@, ft_contract@).allocations@[j].1,
                        )
                    &&& a.deposit == 0
                    &&& a.gas == DEFAULT_GAS_FEE
                },
            },
    {
        match self.check_dispatch(&ft_contract, &signer) {
            Result::Err(e) => Result::Err(e),
            Result::Ok(i) => {
                let st = &self.tokens[i].1;
                let total_supply = match &st.ft_metadata {
                    Option::None => {
                        proof {
                            assert(false);
                        }
                        0
                    },
                    Option::Some(m) => m.total_supply,
                };
                let mut wrapped: Vec<(String, WrappedTokenAllocation)> = Vec::new();
                let mut j: usize = 0;
                while j < st.allocations.len()
                    invariant
                        j <= st.allocations@.len(),
                        wrapped@.len() == j,
                        forall|k: int|
                            #![trigger wrapped@[k]]
                            0 <= k < j ==> wrapped@[k].0@ == st.allocations@[k].0@ && wrapped@[k].1
                                == wrap_alloc(st.allocations@[k].1),
                    decreases st.allocations@.len() - j,
                {
                    let e = &st.allocations[j];
                    let w = WrappedTokenAllocation {
                        allocated_percent: e.1.allocated_percent,
                        initial_release: e.1.initial_release,
                        vesting_start_time: e.1.vesting_start_time,
                        vesting_end_time: e.1.vesting_end_time,
                        vesting_interval: e.1.vesting_interval,
                    };
                    wrapped.push((e.0.clone(), w));
                    j = j + 1;
                }
                Result::Ok(
                    InitAllocationAction {
                        target: st.ft_deployer.clone(),
                        ft_contract_name: ft_contract,
                        total_supply,
                        allocations: wrapped,
                        deposit: 0,
                        gas: DEFAULT_GAS_FEE,
                    },
                )
            },
        }
    }
}

/// Stand-alone helper: the payload that creates, funds, and initializes one
/// fungible-token program in a single dispatch.
pub fn deploy_ft(
    contract_name: String,
    owner_id: String,
    total_supply: u128,
    token_name: String,
    symbol: String,
    decimals: u8,
) -> (a: DeployFtAction)
    ensures
        a.contract_name == contract_name,
        a.owner_id == owner_id,
        a.total_supply == total_supply,
        a.token_name == token_name,
        a.symbol == symbol,
        a.decimals == decimals,
        a.value == DEPLOY_FT_FUNDING,
        a.gas == DEFAULT_GAS_FEE,
{
    DeployFtAction {
        contract_name,
        owner_id,
        total_supply,
        token_name,
        symbol,
        decimals,
        value: DEPLOY_FT_FUNDING,
        gas: DEFAULT_GAS_FEE,
    }
}

} // verus!
