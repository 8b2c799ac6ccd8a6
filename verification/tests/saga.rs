use token_factory::callbacks::ExtTokenFactory;
use token_factory::constants::{
    CONTRACT_FUNDING, DEFAULT_GAS_FEE, DEPLOY_FT_FUNDING, MIN_REGISTER_DEPOSIT,
};
use token_factory::registry::TokenFactory;
use token_factory::types::{FactoryError, PromiseOutcome, WrappedState, WrappedTokenAllocation};

const TREASURY: &str = "treasury.tokenhub.testnet";

fn walloc(percent: u64, initial: u64, start: u64, end: u64, interval: u64) -> WrappedTokenAllocation {
    WrappedTokenAllocation {
        allocated_percent: percent,
        initial_release: initial,
        vesting_start_time: start,
        vesting_end_time: end,
        vesting_interval: interval,
    }
}

fn registered_factory(id: &str, creator: &str) -> TokenFactory {
    let mut f = TokenFactory::new("owner.testnet".to_string());
    let allocations = vec![
        (creator.to_string(), walloc(7000, 0, 100, 200, 10)),
        (TREASURY.to_string(), walloc(3000, 0, 100, 200, 10)),
    ];
    f.register(
        id.to_string(),
        "deployer.testnet".to_string(),
        1_000_000,
        "Token".to_string(),
        "TKN".to_string(),
        Some("icon-data".to_string()),
        Some("ref".to_string()),
        Some(vec![1u8, 2, 3]),
        allocations,
        8,
        creator.to_string(),
        MIN_REGISTER_DEPOSIT,
    )
    .unwrap();
    f
}

fn assert_same_state(a: &WrappedState, b: &WrappedState) {
    assert_eq!(a.ft_contract, b.ft_contract);
    assert_eq!(a.ft_deployer, b.ft_deployer);
    assert_eq!(a.creator, b.creator);
    assert_eq!(a.ft_contract_deployed, b.ft_contract_deployed);
    assert_eq!(a.deployer_contract_deployed, b.deployer_contract_deployed);
    assert_eq!(a.ft_issued, b.ft_issued);
    assert_eq!(a.allocation_initialized, b.allocation_initialized);
    assert_eq!(a.allocations, b.allocations);
    match (&a.ft_metadata, &b.ft_metadata) {
        (None, None) => {}
        (Some(x), Some(y)) => {
            assert_eq!(x.total_supply, y.total_supply);
            assert_eq!(x.token_name, y.token_name);
            assert_eq!(x.symbol, y.symbol);
            assert_eq!(x.icon, y.icon);
            assert_eq!(x.reference, y.reference);
            assert_eq!(x.reference_hash, y.reference_hash);
            assert_eq!(x.decimals, y.decimals);
        }
        _ => panic!("metadata presence differs"),
    }
}

#[test]
fn saga_failure_leaves_flag_unset_retry_succeeds_third_confirmation_refused() {
    let mut f = registered_factory("t1.testnet", "alice.testnet");

    // dispatch, then a simulated external failure: nothing moves
    let a = f
        .create_ft_contract("t1.testnet".to_string(), "alice.testnet".to_string())
        .unwrap();
    assert_eq!(a.target, "t1.testnet");
    let r = f.on_ft_contract_deployed("t1.testnet".to_string(), PromiseOutcome::Failed);
    assert_eq!(r, Ok(false));
    let w = f.get_token_state("t1.testnet".to_string()).unwrap();
    assert!(!w.ft_contract_deployed);

    // re-dispatch with a simulated success: the flag becomes set
    f.create_ft_contract("t1.testnet".to_string(), "alice.testnet".to_string())
        .unwrap();
    let r = f.on_ft_contract_deployed(
        "t1.testnet".to_string(),
        PromiseOutcome::Successful(Vec::new()),
    );
    assert_eq!(r, Ok(true));
    let w = f.get_token_state("t1.testnet".to_string()).unwrap();
    assert!(w.ft_contract_deployed);

    // a third confirmation for the same step must fail loudly
    f.create_ft_contract("t1.testnet".to_string(), "alice.testnet".to_string())
        .unwrap();
    let r = f.on_ft_contract_deployed(
        "t1.testnet".to_string(),
        PromiseOutcome::Successful(Vec::new()),
    );
    assert_eq!(r, Err(FactoryError::InvariantViolation));
    let w = f.get_token_state("t1.testnet".to_string()).unwrap();
    assert!(w.ft_contract_deployed);
}

#[test]
fn each_flag_confirms_at_most_once() {
    let mut f = registered_factory("t1.testnet", "alice.testnet");
    let ok = PromiseOutcome::Successful(Vec::new());
    assert_eq!(f.on_ft_deployer_deployed("t1.testnet".to_string(), ok), Ok(true));
    let ok = PromiseOutcome::Successful(Vec::new());
    assert_eq!(
        f.on_ft_deployer_deployed("t1.testnet".to_string(), ok),
        Err(FactoryError::InvariantViolation)
    );
    let ok = PromiseOutcome::Successful(Vec::new());
    assert_eq!(f.on_token_issued("t1.testnet".to_string(), ok), Ok(true));
    let ok = PromiseOutcome::Successful(Vec::new());
    assert_eq!(
        f.on_token_issued("t1.testnet".to_string(), ok),
        Err(FactoryError::InvariantViolation)
    );
}

#[test]
fn failed_callback_leaves_record_identical() {
    let mut f = registered_factory("t1.testnet", "alice.testnet");
    let before = f.get_token_state("t1.testnet".to_string()).unwrap();
    for _ in 0..2 {
        let r = f.on_ft_contract_deployed("t1.testnet".to_string(), PromiseOutcome::Failed);
        assert_eq!(r, Ok(false));
        let r = f.on_token_issued("t1.testnet".to_string(), PromiseOutcome::Failed);
        assert_eq!(r, Ok(false));
        let r = f.on_allocation_init("t1.testnet".to_string(), PromiseOutcome::NotReady);
        assert_eq!(r, Ok(false));
    }
    let after = f.get_token_state("t1.testnet".to_string()).unwrap();
    assert_same_state(&before, &after);
}

#[test]
fn callback_for_unknown_token_is_refused() {
    let mut f = TokenFactory::new("owner.testnet".to_string());
    let r = f.on_ft_contract_deployed(
        "ghost.testnet".to_string(),
        PromiseOutcome::Successful(Vec::new()),
    );
    assert_eq!(r, Err(FactoryError::NotRegistered));
}

#[test]
fn allocation_init_tombstones_record() {
    let mut f = registered_factory("t1.testnet", "alice.testnet");
    let r = f.on_allocation_init(
        "t1.testnet".to_string(),
        PromiseOutcome::Successful(Vec::new()),
    );
    assert_eq!(r, Ok(true));
    let w = f.get_token_state("t1.testnet".to_string()).unwrap();
    assert!(w.allocation_initialized);
    assert!(w.ft_metadata.is_none());
    assert_eq!(w.allocations.len(), 0);

    // a repeated confirmation on the tombstoned record fails loudly
    let r = f.on_allocation_init(
        "t1.testnet".to_string(),
        PromiseOutcome::Successful(Vec::new()),
    );
    assert_eq!(r, Err(FactoryError::InvariantViolation));
    // and no other step can confirm against a tombstoned record either
    let r = f.on_ft_contract_deployed(
        "t1.testnet".to_string(),
        PromiseOutcome::Successful(Vec::new()),
    );
    assert_eq!(r, Err(FactoryError::InvariantViolation));
}

#[test]
fn tombstoned_record_cannot_dispatch() {
    let mut f = registered_factory("t1.testnet", "alice.testnet");
    f.on_allocation_init(
        "t1.testnet".to_string(),
        PromiseOutcome::Successful(Vec::new()),
    )
    .unwrap();
    let r = f.create_ft_contract("t1.testnet".to_string(), "alice.testnet".to_string());
    assert_eq!(r.unwrap_err(), FactoryError::NotRegistered);
}

#[test]
fn dispatch_demands_creator() {
    let mut f = registered_factory("t1.testnet", "alice.testnet");
    let r = f.create_ft_contract("t1.testnet".to_string(), "bob.testnet".to_string());
    assert_eq!(r.unwrap_err(), FactoryError::NotCreator);
    let r = f.issue_ft("t1.testnet".to_string(), "bob.testnet".to_string());
    assert_eq!(r.unwrap_err(), FactoryError::NotCreator);
}

#[test]
fn dispatch_demands_registration() {
    let mut f = TokenFactory::new("owner.testnet".to_string());
    let r = f.init_token_allocation("ghost.testnet".to_string(), "alice.testnet".to_string());
    assert_eq!(r.unwrap_err(), FactoryError::NotRegistered);
}

#[test]
fn create_contract_actions_carry_funding_and_gas() {
    let mut f = registered_factory("t1.testnet", "alice.testnet");
    let a = f
        .create_ft_contract("t1.testnet".to_string(), "alice.testnet".to_string())
        .unwrap();
    assert_eq!(a.target, "t1.testnet");
    assert_eq!(a.value, CONTRACT_FUNDING);
    assert_eq!(a.value, 4_000_000_000_000_000_000_000_000);
    assert_eq!(a.gas, DEFAULT_GAS_FEE);
    assert_eq!(a.gas, 20_000_000_000_000);
    let b = f
        .create_deployer_contract("t1.testnet".to_string(), "alice.testnet".to_string())
        .unwrap();
    assert_eq!(b.target, "deployer.testnet");
    assert_eq!(b.value, CONTRACT_FUNDING);
}

#[test]
fn issue_ft_action_carries_metadata() {
    let mut f = registered_factory("t1.testnet", "alice.testnet");
    let a = f
        .issue_ft("t1.testnet".to_string(), "alice.testnet".to_string())
        .unwrap();
    assert_eq!(a.target, "t1.testnet");
    assert_eq!(a.owner_id, "deployer.testnet");
    assert_eq!(a.total_supply, 1_000_000);
    assert_eq!(a.token_name, "Token");
    assert_eq!(a.symbol, "TKN");
    assert_eq!(a.icon, Some("icon-data".to_string()));
    assert_eq!(a.reference, Some("ref".to_string()));
    assert_eq!(a.reference_hash, Some(vec![1u8, 2, 3]));
    assert_eq!(a.decimals, 8);
    assert_eq!(a.deposit, 0);
    assert_eq!(a.gas, DEFAULT_GAS_FEE);
}

#[test]
fn init_allocation_action_carries_ledger_without_claims() {
    let mut f = registered_factory("t1.testnet", "alice.testnet");
    let a = f
        .init_token_allocation("t1.testnet".to_string(), "alice.testnet".to_string())
        .unwrap();
    assert_eq!(a.target, "deployer.testnet");
    assert_eq!(a.ft_contract_name, "t1.testnet");
    assert_eq!(a.total_supply, 1_000_000);
    assert_eq!(a.allocations.len(), 2);
    assert_eq!(a.allocations[0].0, "alice.testnet");
    assert_eq!(a.allocations[0].1, walloc(7000, 0, 100, 200, 10));
    assert_eq!(a.allocations[1].0, TREASURY);
    assert_eq!(a.allocations[1].1, walloc(3000, 0, 100, 200, 10));
}

#[test]
fn dispatch_mutates_nothing() {
    let mut f = registered_factory("t1.testnet", "alice.testnet");
    let before = f.get_token_state("t1.testnet".to_string()).unwrap();
    f.create_ft_contract("t1.testnet".to_string(), "alice.testnet".to_string())
        .unwrap();
    f.create_deployer_contract("t1.testnet".to_string(), "alice.testnet".to_string())
        .unwrap();
    f.issue_ft("t1.testnet".to_string(), "alice.testnet".to_string())
        .unwrap();
    f.init_token_allocation("t1.testnet".to_string(), "alice.testnet".to_string())
        .unwrap();
    let after = f.get_token_state("t1.testnet".to_string()).unwrap();
    assert_same_state(&before, &after);
}

#[test]
fn assert_invalid_allocations_reports_state() {
    let mut f = registered_factory("t1.testnet", "alice.testnet");
    assert_eq!(f.assert_invalid_allocations("t1.testnet".to_string()), Ok(()));
    assert_eq!(
        f.assert_invalid_allocations("ghost.testnet".to_string()),
        Err(FactoryError::NotRegistered)
    );
    f.on_allocation_init(
        "t1.testnet".to_string(),
        PromiseOutcome::Successful(Vec::new()),
    )
    .unwrap();
    assert_eq!(
        f.assert_invalid_allocations("t1.testnet".to_string()),
        Err(FactoryError::NotRegistered)
    );
}

#[test]
fn deploy_ft_payload_is_fixed() {
    let a = token_factory::saga::deploy_ft(
        "tok.testnet".to_string(),
        "owner.testnet".to_string(),
        42,
        "Tok".to_string(),
        "TOK".to_string(),
        6,
    );
    assert_eq!(a.contract_name, "tok.testnet");
    assert_eq!(a.owner_id, "owner.testnet");
    assert_eq!(a.total_supply, 42);
    assert_eq!(a.token_name, "Tok");
    assert_eq!(a.symbol, "TOK");
    assert_eq!(a.decimals, 6);
    assert_eq!(a.value, DEPLOY_FT_FUNDING);
    assert_eq!(a.value, 3_000_000_000_000_000_000_000_000);
    assert_eq!(a.gas, DEFAULT_GAS_FEE);
}
