use token_factory::callbacks::ExtTokenFactory;
use token_factory::constants::MIN_REGISTER_DEPOSIT;
use token_factory::registry::TokenFactory;
use token_factory::types::{FactoryError, PromiseOutcome, WrappedTokenAllocation};

const TREASURY: &str = "treasury.tokenhub.testnet";

fn walloc(percent: u64) -> WrappedTokenAllocation {
    WrappedTokenAllocation {
        allocated_percent: percent,
        initial_release: 0,
        vesting_start_time: 100,
        vesting_end_time: 200,
        vesting_interval: 10,
    }
}

fn register(f: &mut TokenFactory, id: &str, creator: &str) {
    let allocations = vec![
        (creator.to_string(), walloc(7000)),
        (TREASURY.to_string(), walloc(3000)),
    ];
    f.register(
        id.to_string(),
        "deployer.testnet".to_string(),
        1_000_000,
        "Token".to_string(),
        "TKN".to_string(),
        None,
        None,
        None,
        allocations,
        8,
        creator.to_string(),
        MIN_REGISTER_DEPOSIT,
    )
    .unwrap();
}

#[test]
fn get_token_state_fails_for_unknown() {
    let f = TokenFactory::new("owner.testnet".to_string());
    assert_eq!(
        f.get_token_state("ghost.testnet".to_string()).unwrap_err(),
        FactoryError::NotRegistered
    );
}

#[test]
fn list_token_contracts_pages() {
    let mut f = TokenFactory::new("owner.testnet".to_string());
    register(&mut f, "t1.testnet", "alice.testnet");
    register(&mut f, "t2.testnet", "alice.testnet");
    register(&mut f, "t3.testnet", "bob.testnet");
    let page = f.list_token_contracts(0, 2);
    assert_eq!(page.len(), 2);
    assert_eq!(page[0].ft_contract, "t1.testnet");
    assert_eq!(page[1].ft_contract, "t2.testnet");
    let page = f.list_token_contracts(2, 10);
    assert_eq!(page.len(), 1);
    assert_eq!(page[0].ft_contract, "t3.testnet");
    assert_eq!(f.list_token_contracts(3, 10).len(), 0);
    assert_eq!(f.list_token_contracts(100, 10).len(), 0);
    assert_eq!(f.list_token_contracts(0, 0).len(), 0);
}

#[test]
fn list_all_tokens_and_contracts() {
    let mut f = TokenFactory::new("owner.testnet".to_string());
    register(&mut f, "t1.testnet", "alice.testnet");
    register(&mut f, "t2.testnet", "bob.testnet");
    let all = f.list_all_tokens();
    assert_eq!(all.len(), 2);
    assert_eq!(all[0].ft_contract, "t1.testnet");
    assert_eq!(all[1].ft_contract, "t2.testnet");
    assert_eq!(
        f.list_all_token_contracts(),
        vec!["t1.testnet".to_string(), "t2.testnet".to_string()]
    );
}

#[test]
fn list_my_tokens_filters_by_creator() {
    let mut f = TokenFactory::new("owner.testnet".to_string());
    register(&mut f, "t1.testnet", "alice.testnet");
    register(&mut f, "t2.testnet", "bob.testnet");
    register(&mut f, "t3.testnet", "alice.testnet");
    let mine = f.list_my_tokens("alice.testnet".to_string());
    assert_eq!(mine.len(), 2);
    assert_eq!(mine[0].ft_contract, "t1.testnet");
    assert_eq!(mine[1].ft_contract, "t3.testnet");
    assert_eq!(f.list_my_tokens("carol.testnet".to_string()).len(), 0);
}

#[test]
fn list_token_states_uses_placeholder_for_unknown() {
    let mut f = TokenFactory::new("owner.testnet".to_string());
    register(&mut f, "t1.testnet", "alice.testnet");
    let states = f.list_token_states(vec![
        "t1.testnet".to_string(),
        "ghost.testnet".to_string(),
    ]);
    assert_eq!(states.len(), 2);
    assert_eq!(states[0].ft_contract, "t1.testnet");
    assert_eq!(states[1].ft_contract, "__default_value__");
    let d = states[1].ft_metadata.as_ref().unwrap();
    assert_eq!(d.total_supply, 0);
    assert_eq!(d.token_name, "__default_value__");
    assert_eq!(d.icon, Some("__default_value__".to_string()));
    assert!(d.reference.is_none());
    assert_eq!(states[1].allocations.len(), 0);
    assert!(!states[1].ft_contract_deployed);
}

#[test]
fn views_reflect_tombstoning() {
    let mut f = TokenFactory::new("owner.testnet".to_string());
    register(&mut f, "t1.testnet", "alice.testnet");
    f.on_allocation_init(
        "t1.testnet".to_string(),
        PromiseOutcome::Successful(Vec::new()),
    )
    .unwrap();
    let all = f.list_all_tokens();
    assert!(all[0].ft_metadata.is_none());
    assert_eq!(all[0].allocations.len(), 0);
    let states = f.list_token_states(vec!["t1.testnet".to_string()]);
    assert!(states[0].ft_metadata.is_none());
}

#[test]
fn admin_gates() {
    let mut f = TokenFactory::new("owner.testnet".to_string());
    assert_eq!(
        f.add_admin("mallory.testnet".to_string(), "mallory.testnet".to_string()),
        Err(FactoryError::NotOwner)
    );
    assert_eq!(
        f.reset("mallory.testnet".to_string()),
        Err(FactoryError::NotAdmin)
    );
    assert_eq!(
        f.add_admin("owner.testnet".to_string(), "admin.testnet".to_string()),
        Ok(())
    );
    assert_eq!(f.reset("admin.testnet".to_string()), Ok(()));
    assert_eq!(
        f.remove_admin("owner.testnet".to_string(), "admin.testnet".to_string()),
        Ok(())
    );
    assert_eq!(
        f.reset("admin.testnet".to_string()),
        Err(FactoryError::NotAdmin)
    );
}

#[test]
fn reset_clears_registry_and_index() {
    let mut f = TokenFactory::new("owner.testnet".to_string());
    f.add_admin("owner.testnet".to_string(), "admin.testnet".to_string())
        .unwrap();
    register(&mut f, "t1.testnet", "alice.testnet");
    register(&mut f, "t2.testnet", "bob.testnet");
    f.reset("admin.testnet".to_string()).unwrap();
    assert_eq!(f.list_all_token_contracts().len(), 0);
    assert_eq!(f.list_tokens_by_account_id("alice.testnet".to_string()).len(), 0);
}

#[test]
fn unregister_removes_record_and_prunes_index() {
    let mut f = TokenFactory::new("owner.testnet".to_string());
    f.add_admin("owner.testnet".to_string(), "admin.testnet".to_string())
        .unwrap();
    register(&mut f, "t1.testnet", "alice.testnet");
    register(&mut f, "t2.testnet", "alice.testnet");
    assert_eq!(
        f.unregister("admin.testnet".to_string(), "ghost.testnet".to_string()),
        Err(FactoryError::NotRegistered)
    );
    assert_eq!(
        f.unregister("alice.testnet".to_string(), "t1.testnet".to_string()),
        Err(FactoryError::NotAdmin)
    );
    f.unregister("admin.testnet".to_string(), "t1.testnet".to_string())
        .unwrap();
    assert!(f.get_token_state("t1.testnet".to_string()).is_err());
    assert_eq!(
        f.list_tokens_by_account_id("alice.testnet".to_string()),
        vec!["t2.testnet".to_string()]
    );
    assert_eq!(f.list_all_token_contracts(), vec!["t2.testnet".to_string()]);
}

#[test]
fn clear_metadata_tombstones_without_touching_flags() {
    let mut f = TokenFactory::new("owner.testnet".to_string());
    f.add_admin("owner.testnet".to_string(), "admin.testnet".to_string())
        .unwrap();
    register(&mut f, "t1.testnet", "alice.testnet");
    f.on_ft_contract_deployed(
        "t1.testnet".to_string(),
        PromiseOutcome::Successful(Vec::new()),
    )
    .unwrap();
    f.clear_metadata("admin.testnet".to_string(), "t1.testnet".to_string())
        .unwrap();
    let w = f.get_token_state("t1.testnet".to_string()).unwrap();
    assert!(w.ft_metadata.is_none());
    assert_eq!(w.allocations.len(), 0);
    assert!(w.ft_contract_deployed);
    assert!(!w.allocation_initialized);
}

#[test]
fn migrate_data_backfills_allocators() {
    let mut f = TokenFactory::new("owner.testnet".to_string());
    f.add_admin("owner.testnet".to_string(), "admin.testnet".to_string())
        .unwrap();
    register(&mut f, "t1.testnet", "alice.testnet");
    register(&mut f, "t2.testnet", "bob.testnet");
    assert_eq!(
        f.migrate_data("alice.testnet".to_string(), 0, 10),
        Err(FactoryError::NotAdmin)
    );
    f.migrate_data("admin.testnet".to_string(), 0, 10).unwrap();
    // every allocator of each token now lists it, the treasury included
    let t = f.list_tokens_by_account_id(TREASURY.to_string());
    assert_eq!(t, vec!["t1.testnet".to_string(), "t2.testnet".to_string()]);
    assert_eq!(
        f.list_tokens_by_account_id("bob.testnet".to_string()),
        vec!["t2.testnet".to_string()]
    );
    // and the creators' existing entries are still there
    assert_eq!(
        f.list_tokens_by_account_id("alice.testnet".to_string()),
        vec!["t1.testnet".to_string()]
    );
}

#[test]
fn migrate_data_respects_the_page() {
    let mut f = TokenFactory::new("owner.testnet".to_string());
    f.add_admin("owner.testnet".to_string(), "admin.testnet".to_string())
        .unwrap();
    register(&mut f, "t1.testnet", "alice.testnet");
    register(&mut f, "t2.testnet", "bob.testnet");
    f.migrate_data("admin.testnet".to_string(), 1, 1).unwrap();
    assert_eq!(
        f.list_tokens_by_account_id(TREASURY.to_string()),
        vec!["t2.testnet".to_string()]
    );
    f.migrate_data("admin.testnet".to_string(), 5, 10).unwrap();
    assert_eq!(
        f.list_tokens_by_account_id(TREASURY.to_string()),
        vec!["t2.testnet".to_string()]
    );
}
