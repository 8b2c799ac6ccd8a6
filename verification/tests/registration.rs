use token_factory::account::is_valid_account_id;
use token_factory::constants::MIN_REGISTER_DEPOSIT;
use token_factory::registry::TokenFactory;
use token_factory::types::{FactoryError, WrappedTokenAllocation};

const TREASURY: &str = "treasury.tokenhub.testnet";

fn walloc(percent: u64, initial: u64, start: u64, end: u64, interval: u64) -> WrappedTokenAllocation {
    WrappedTokenAllocation {
        allocated_percent: percent,
        initial_release: initial,
        vesting_start_time: start,
        vesting_end_time: end,
        vesting_interval: interval,
    }
}

fn register_with(
    f: &mut TokenFactory,
    id: &str,
    allocations: Vec<(String, WrappedTokenAllocation)>,
    signer: &str,
    deposit: u128,
) -> Result<(), FactoryError> {
    f.register(
        id.to_string(),
        "deployer.testnet".to_string(),
        1_000_000,
        "Token".to_string(),
        "TKN".to_string(),
        None,
        None,
        None,
        allocations,
        8,
        signer.to_string(),
        deposit,
    )
}

fn standard_allocations() -> Vec<(String, WrappedTokenAllocation)> {
    vec![
        ("alice.testnet".to_string(), walloc(7000, 0, 100, 200, 10)),
        (TREASURY.to_string(), walloc(3000, 0, 100, 200, 10)),
    ]
}

#[test]
fn register_succeeds_with_exact_set() {
    let mut f = TokenFactory::new("owner.testnet".to_string());
    let r = register_with(&mut f, "t1.testnet", standard_allocations(), "alice.testnet", MIN_REGISTER_DEPOSIT);
    assert_eq!(r, Ok(()));
    let w = f.get_token_state("t1.testnet".to_string()).unwrap();
    assert_eq!(w.ft_contract, "t1.testnet");
    assert_eq!(w.ft_deployer, "deployer.testnet");
    assert_eq!(w.creator, "alice.testnet");
    let m = w.ft_metadata.expect("metadata must be present after registration");
    assert_eq!(m.total_supply, 1_000_000);
    assert_eq!(m.token_name, "Token");
    assert_eq!(m.symbol, "TKN");
    assert_eq!(m.decimals, 8);
    assert_eq!(w.allocations.len(), 2);
    assert_eq!(w.allocations[0].0, "alice.testnet");
    assert_eq!(w.allocations[0].1.allocated_percent, 7000);
    assert_eq!(w.allocations[0].1.claimed, 0);
    assert_eq!(w.allocations[1].0, TREASURY);
    assert_eq!(w.allocations[1].1.allocated_percent, 3000);
    assert!(!w.ft_contract_deployed);
    assert!(!w.deployer_contract_deployed);
    assert!(!w.ft_issued);
    assert!(!w.allocation_initialized);
}

#[test]
fn register_rejects_sum_below_base() {
    // 99.99% in total: one hundredth of a percent short of the base.
    let mut f = TokenFactory::new("owner.testnet".to_string());
    let allocations = vec![
        ("alice.testnet".to_string(), walloc(6999, 0, 100, 200, 10)),
        (TREASURY.to_string(), walloc(3000, 0, 100, 200, 10)),
    ];
    let r = register_with(&mut f, "t2.testnet", allocations, "alice.testnet", MIN_REGISTER_DEPOSIT);
    assert_eq!(r, Err(FactoryError::InvalidAllocationSet));
    assert!(f.get_token_state("t2.testnet".to_string()).is_err());
}

#[test]
fn register_rejects_sum_above_base() {
    let mut f = TokenFactory::new("owner.testnet".to_string());
    let allocations = vec![
        ("alice.testnet".to_string(), walloc(8000, 0, 100, 200, 10)),
        (TREASURY.to_string(), walloc(3000, 0, 100, 200, 10)),
    ];
    let r = register_with(&mut f, "t3.testnet", allocations, "alice.testnet", MIN_REGISTER_DEPOSIT);
    assert_eq!(r, Err(FactoryError::InvalidAllocationSet));
}

#[test]
fn register_rejects_low_deposit_and_creates_nothing() {
    let mut f = TokenFactory::new("owner.testnet".to_string());
    let r = register_with(
        &mut f,
        "t1.testnet",
        standard_allocations(),
        "alice.testnet",
        MIN_REGISTER_DEPOSIT - 1,
    );
    assert_eq!(r, Err(FactoryError::DepositTooLow));
    assert!(f.get_token_state("t1.testnet".to_string()).is_err());
    assert_eq!(f.list_all_token_contracts().len(), 0);
}

#[test]
fn register_rejects_missing_treasury() {
    let mut f = TokenFactory::new("owner.testnet".to_string());
    let allocations = vec![
        ("alice.testnet".to_string(), walloc(7000, 0, 100, 200, 10)),
        ("bob.testnet".to_string(), walloc(3000, 0, 100, 200, 10)),
    ];
    let r = register_with(&mut f, "t1.testnet", allocations, "alice.testnet", MIN_REGISTER_DEPOSIT);
    assert_eq!(r, Err(FactoryError::InvalidAllocationSet));
}

#[test]
fn register_rejects_zero_treasury_share() {
    let mut f = TokenFactory::new("owner.testnet".to_string());
    let allocations = vec![
        ("alice.testnet".to_string(), walloc(10000, 0, 100, 200, 10)),
        (TREASURY.to_string(), walloc(0, 0, 100, 200, 10)),
    ];
    let r = register_with(&mut f, "t1.testnet", allocations, "alice.testnet", MIN_REGISTER_DEPOSIT);
    assert_eq!(r, Err(FactoryError::InvalidAllocationSet));
}

#[test]
fn register_rejects_interval_beyond_window() {
    let mut f = TokenFactory::new("owner.testnet".to_string());
    let allocations = vec![
        ("alice.testnet".to_string(), walloc(7000, 0, 100, 200, 101)),
        (TREASURY.to_string(), walloc(3000, 0, 100, 200, 10)),
    ];
    let r = register_with(&mut f, "t1.testnet", allocations, "alice.testnet", MIN_REGISTER_DEPOSIT);
    assert_eq!(r, Err(FactoryError::InvalidAllocation));
}

#[test]
fn register_rejects_window_ending_before_start() {
    let mut f = TokenFactory::new("owner.testnet".to_string());
    let allocations = vec![
        ("alice.testnet".to_string(), walloc(7000, 0, 200, 100, 0)),
        (TREASURY.to_string(), walloc(3000, 0, 100, 200, 10)),
    ];
    let r = register_with(&mut f, "t1.testnet", allocations, "alice.testnet", MIN_REGISTER_DEPOSIT);
    assert_eq!(r, Err(FactoryError::InvalidAllocation));
}

#[test]
fn register_rejects_initial_release_beyond_share() {
    let mut f = TokenFactory::new("owner.testnet".to_string());
    let allocations = vec![
        ("alice.testnet".to_string(), walloc(7000, 7001, 100, 200, 10)),
        (TREASURY.to_string(), walloc(3000, 0, 100, 200, 10)),
    ];
    let r = register_with(&mut f, "t1.testnet", allocations, "alice.testnet", MIN_REGISTER_DEPOSIT);
    assert_eq!(r, Err(FactoryError::InvalidAllocation));
}

#[test]
fn register_rejects_duplicate_beneficiary() {
    let mut f = TokenFactory::new("owner.testnet".to_string());
    let allocations = vec![
        ("alice.testnet".to_string(), walloc(4000, 0, 100, 200, 10)),
        ("alice.testnet".to_string(), walloc(3000, 0, 100, 200, 10)),
        (TREASURY.to_string(), walloc(3000, 0, 100, 200, 10)),
    ];
    let r = register_with(&mut f, "t1.testnet", allocations, "alice.testnet", MIN_REGISTER_DEPOSIT);
    assert_eq!(r, Err(FactoryError::InvalidAllocationSet));
}

#[test]
fn register_rejects_empty_set() {
    let mut f = TokenFactory::new("owner.testnet".to_string());
    let r = register_with(&mut f, "t1.testnet", Vec::new(), "alice.testnet", MIN_REGISTER_DEPOSIT);
    assert_eq!(r, Err(FactoryError::InvalidAllocationSet));
}

#[test]
fn register_rejects_zero_supply() {
    let mut f = TokenFactory::new("owner.testnet".to_string());
    let r = f.register(
        "t1.testnet".to_string(),
        "deployer.testnet".to_string(),
        0,
        "Token".to_string(),
        "TKN".to_string(),
        None,
        None,
        None,
        standard_allocations(),
        8,
        "alice.testnet".to_string(),
        MIN_REGISTER_DEPOSIT,
    );
    assert_eq!(r, Err(FactoryError::InvalidAllocationSet));
}

#[test]
fn register_rejects_bad_account_ids() {
    let mut f = TokenFactory::new("owner.testnet".to_string());
    let r = register_with(&mut f, "Bad.ID", standard_allocations(), "alice.testnet", MIN_REGISTER_DEPOSIT);
    assert_eq!(r, Err(FactoryError::InvalidAccountId));
    let r2 = f.register(
        "t1.testnet".to_string(),
        "double..dot".to_string(),
        1_000_000,
        "Token".to_string(),
        "TKN".to_string(),
        None,
        None,
        None,
        standard_allocations(),
        8,
        "alice.testnet".to_string(),
        MIN_REGISTER_DEPOSIT,
    );
    assert_eq!(r2, Err(FactoryError::InvalidAccountId));
}

#[test]
fn register_rejects_duplicate_identifier() {
    let mut f = TokenFactory::new("owner.testnet".to_string());
    let r1 = register_with(&mut f, "t1.testnet", standard_allocations(), "alice.testnet", MIN_REGISTER_DEPOSIT);
    assert_eq!(r1, Ok(()));
    let r2 = register_with(&mut f, "t1.testnet", standard_allocations(), "bob.testnet", MIN_REGISTER_DEPOSIT);
    assert_eq!(r2, Err(FactoryError::AlreadyRegistered));
}

#[test]
fn register_updates_reverse_index_for_creator() {
    let mut f = TokenFactory::new("owner.testnet".to_string());
    register_with(&mut f, "t1.testnet", standard_allocations(), "alice.testnet", MIN_REGISTER_DEPOSIT).unwrap();
    let mine = f.list_tokens_by_account_id("alice.testnet".to_string());
    assert_eq!(mine, vec!["t1.testnet".to_string()]);
    assert_eq!(f.list_tokens_by_account_id("bob.testnet".to_string()).len(), 0);
}

#[test]
fn internal_add_user_token_demands_registration() {
    let mut f = TokenFactory::new("owner.testnet".to_string());
    let r = f.internal_add_user_token("alice.testnet".to_string(), "ghost.testnet".to_string());
    assert_eq!(r, Err(FactoryError::NotRegistered));
    register_with(&mut f, "t1.testnet", standard_allocations(), "alice.testnet", MIN_REGISTER_DEPOSIT).unwrap();
    let r2 = f.internal_add_user_token("bob.testnet".to_string(), "t1.testnet".to_string());
    assert_eq!(r2, Ok(()));
    assert_eq!(
        f.list_tokens_by_account_id("bob.testnet".to_string()),
        vec!["t1.testnet".to_string()]
    );
}

#[test]
fn account_id_validation() {
    assert!(is_valid_account_id("ab"));
    assert!(is_valid_account_id("a.b-c_d"));
    assert!(is_valid_account_id("treasury.tokenhub.testnet"));
    assert!(is_valid_account_id("a23456789"));
    assert!(!is_valid_account_id("a"));
    assert!(!is_valid_account_id(""));
    assert!(!is_valid_account_id("-ab"));
    assert!(!is_valid_account_id("ab-"));
    assert!(!is_valid_account_id("a--b"));
    assert!(!is_valid_account_id("a..b"));
    assert!(!is_valid_account_id("A.b"));
    assert!(!is_valid_account_id("a b"));
    let long = "a".repeat(64);
    assert!(is_valid_account_id(&long));
    let too_long = "a".repeat(65);
    assert!(!is_valid_account_id(&too_long));
}

#[test]
fn treasury_account_name() {
    assert_eq!(token_factory::constants::treasury_account(), TREASURY);
}

#[test]
fn register_accepts_boundary_allocations() {
    // interval exactly the window, initial release exactly the share
    let mut f = TokenFactory::new("owner.testnet".to_string());
    let allocations = vec![
        ("alice.testnet".to_string(), walloc(7000, 7000, 100, 200, 100)),
        (TREASURY.to_string(), walloc(3000, 0, 150, 150, 0)),
    ];
    let r = register_with(&mut f, "t1.testnet", allocations, "alice.testnet", MIN_REGISTER_DEPOSIT);
    assert_eq!(r, Ok(()));
}

#[test]
fn register_accepts_single_treasury_beneficiary() {
    let mut f = TokenFactory::new("owner.testnet".to_string());
    let allocations = vec![(TREASURY.to_string(), walloc(10000, 0, 100, 200, 10))];
    let r = register_with(&mut f, "t1.testnet", allocations, "alice.testnet", MIN_REGISTER_DEPOSIT);
    assert_eq!(r, Ok(()));
    let w = f.get_token_state("t1.testnet".to_string()).unwrap();
    assert_eq!(w.allocations.len(), 1);
}
