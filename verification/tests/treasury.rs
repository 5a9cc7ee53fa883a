use delegated_treasury::base::{Address, Error};
use delegated_treasury::creator_vault::CreatorVault;
use delegated_treasury::factory::CreatorVaultFactory;
use delegated_treasury::history::AlgoHistory;
use delegated_treasury::registry::AlgoRegistry;
use delegated_treasury::vault::Vault;

fn addr(id: u64) -> Address {
    Address { id }
}

#[test]
fn init_and_set_executor() {
    let owner = addr(1);
    let token = addr(2);
    let mut vault = Vault::new();
    vault.init(owner, owner, token).unwrap();

    let exec = addr(3);
    vault.set_executor(owner, exec).unwrap();
    assert_eq!(vault.executor().unwrap(), exec);
}

#[test]
fn add_and_list_records() {
    let admin = addr(1);
    let mut log = AlgoHistory::new();
    log.init(admin, admin).unwrap();

    let algo_id = 7u32;
    log.add_record(admin, 100, algo_id, "txhash1".to_string(), "first".to_string())
        .unwrap();
    log.add_record(admin, 101, algo_id, "txhash2".to_string(), "second".to_string())
        .unwrap();

    assert_eq!(log.count(algo_id), 2);
    let list = log.list(algo_id, 0, 10);
    assert_eq!(list.len(), 2);
    assert_eq!(list[0].tx_hash, "txhash1".to_string());
}

#[test]
fn create_and_read_algo() {
    let admin = addr(1);
    let mut reg = AlgoRegistry::new();
    reg.init(admin, admin).unwrap();

    let owner = addr(2);
    let id = reg
        .create_algo(
            owner,
            owner,
            "mean_reversion".to_string(),
            "ipfs://cid".to_string(),
            "sha256:...".to_string(),
        )
        .unwrap();

    let algo = reg.get_algo(id).unwrap();
    assert_eq!(algo.owner, owner);
    assert!(algo.active);
    assert_eq!(reg.total_algos(), 1);
}

#[test]
fn vault_scenario_with_audit() {
    let owner = addr(1);
    let asset = addr(2);
    let depositor = addr(3);
    let exec = addr(4);
    let payee = addr(5);
    let log_addr = addr(6);

    let mut vault = Vault::new();
    let mut log = AlgoHistory::new();
    log.init(log_addr, log_addr).unwrap();
    log.set_writer(log_addr, exec).unwrap();

    vault.init(owner, owner, asset).unwrap();
    assert_eq!(vault.balance().unwrap(), 0);

    vault.deposit(depositor, depositor, 100).unwrap();
    assert_eq!(vault.balance().unwrap(), 100);

    vault.set_executor(owner, exec).unwrap();
    vault.set_history(owner, log_addr).unwrap();

    let req = vault
        .spend_for_algo(exec, 7, payee, 40, "tx1".to_string(), "first".to_string())
        .unwrap()
        .unwrap();
    assert_eq!(vault.balance().unwrap(), 60);
    assert_eq!(req.history, log_addr);
    assert_eq!(req.algo_id, 7);

    // The audit append is a separate atomic call, outside the spend's
    // failure domain; here it is performed.
    let seq = log.add_record(exec, 1000, req.algo_id, req.tx_hash, req.note).unwrap();
    assert_eq!(seq, 0);
    assert_eq!(log.count(7), 1);
    let rec = log.get(7, 0).unwrap();
    assert_eq!(rec.algo_id, 7);
    assert_eq!(rec.tx_hash, "tx1".to_string());
    assert_eq!(rec.note, "first".to_string());

    // 60 >= 50, so the owner's withdrawal succeeds.
    vault.withdraw(owner, owner, 50).unwrap();
    assert_eq!(vault.balance().unwrap(), 10);

    // Anyone else is refused and the balance stays put.
    assert_eq!(vault.withdraw(depositor, depositor, 5), Err(Error::Unauthorized));
    assert_eq!(vault.balance().unwrap(), 10);
}

#[test]
fn vault_double_init_rejected() {
    let owner = addr(1);
    let other = addr(9);
    let mut vault = Vault::new();
    vault.init(owner, owner, addr(2)).unwrap();
    assert_eq!(vault.init(other, other, addr(3)), Err(Error::AlreadyInitialized));
    assert_eq!(vault.owner().unwrap(), owner);
    assert_eq!(vault.token().unwrap(), addr(2));
}

#[test]
fn vault_init_requires_owner_auth() {
    let mut vault = Vault::new();
    assert_eq!(vault.init(addr(9), addr(1), addr(2)), Err(Error::Unauthorized));
    assert_eq!(vault.owner(), Err(Error::NotFound));
}

#[test]
fn vault_amounts_must_be_positive() {
    let owner = addr(1);
    let mut vault = Vault::new();
    vault.init(owner, owner, addr(2)).unwrap();
    assert_eq!(vault.deposit(owner, owner, 0), Err(Error::InvalidAmount));
    assert_eq!(vault.deposit(owner, owner, -5), Err(Error::InvalidAmount));
    assert_eq!(vault.withdraw(owner, owner, 0), Err(Error::InvalidAmount));
    assert_eq!(
        vault.spend_for_algo(owner, 1, addr(5), -1, "t".to_string(), "n".to_string()),
        Err(Error::InvalidAmount)
    );
    assert_eq!(vault.balance().unwrap(), 0);
}

#[test]
fn vault_insufficient_balance_mutates_nothing() {
    let owner = addr(1);
    let mut vault = Vault::new();
    vault.init(owner, owner, addr(2)).unwrap();
    vault.deposit(owner, owner, 30).unwrap();
    assert_eq!(vault.withdraw(owner, owner, 31), Err(Error::InsufficientBalance));
    assert_eq!(vault.balance().unwrap(), 30);
    assert_eq!(
        vault.spend_for_algo(owner, 1, addr(5), 31, "t".to_string(), "n".to_string()),
        Err(Error::InsufficientBalance)
    );
    assert_eq!(vault.balance().unwrap(), 30);
}

#[test]
fn vault_spend_authorization_rule() {
    let owner = addr(1);
    let exec = addr(2);
    let stranger = addr(3);
    let mut vault = Vault::new();
    vault.init(owner, owner, addr(4)).unwrap();
    vault.deposit(owner, owner, 100).unwrap();

    // No executor delegated: the owner must authorize, nobody else may.
    assert!(vault
        .spend_for_algo(owner, 1, addr(5), 10, "a".to_string(), "b".to_string())
        .is_ok());
    assert_eq!(
        vault.spend_for_algo(stranger, 1, addr(5), 10, "a".to_string(), "b".to_string()),
        Err(Error::Unauthorized)
    );

    // With an executor delegated, only the executor may spend.
    vault.set_executor(owner, exec).unwrap();
    assert_eq!(
        vault.spend_for_algo(owner, 1, addr(5), 10, "a".to_string(), "b".to_string()),
        Err(Error::Unauthorized)
    );
    assert!(vault
        .spend_for_algo(exec, 1, addr(5), 10, "a".to_string(), "b".to_string())
        .is_ok());
    assert_eq!(vault.balance().unwrap(), 80);

    // Clearing the delegation hands spends back to the owner.
    vault.clear_executor(owner).unwrap();
    assert!(vault
        .spend_for_algo(owner, 1, addr(5), 10, "a".to_string(), "b".to_string())
        .is_ok());
    assert_eq!(vault.balance().unwrap(), 70);
}

#[test]
fn vault_spend_without_history_yields_no_request() {
    let owner = addr(1);
    let mut vault = Vault::new();
    vault.init(owner, owner, addr(2)).unwrap();
    vault.deposit(owner, owner, 10).unwrap();
    let req = vault
        .spend_for_algo(owner, 3, addr(5), 10, "t".to_string(), "n".to_string())
        .unwrap();
    assert!(req.is_none());
}

#[test]
fn vault_transfer_ownership() {
    let owner = addr(1);
    let heir = addr(2);
    let mut vault = Vault::new();
    vault.init(owner, owner, addr(3)).unwrap();
    assert_eq!(vault.transfer_ownership(heir, heir), Err(Error::Unauthorized));
    vault.transfer_ownership(owner, heir).unwrap();
    assert_eq!(vault.owner().unwrap(), heir);
    vault.deposit(owner, owner, 10).unwrap();
    assert_eq!(vault.withdraw(owner, owner, 5), Err(Error::Unauthorized));
    vault.withdraw(heir, heir, 5).unwrap();
    assert_eq!(vault.balance().unwrap(), 5);
}

#[test]
fn vault_operations_on_uninitialized_instance() {
    let mut vault = Vault::new();
    assert_eq!(vault.owner(), Err(Error::NotFound));
    assert_eq!(vault.token(), Err(Error::NotFound));
    assert_eq!(vault.balance(), Err(Error::NotFound));
    assert_eq!(vault.deposit(addr(1), addr(1), 5), Err(Error::NotFound));
    assert_eq!(vault.withdraw(addr(1), addr(1), 5), Err(Error::NotFound));
    assert_eq!(vault.set_executor(addr(1), addr(2)), Err(Error::NotFound));
    assert_eq!(
        vault.spend_for_algo(addr(1), 1, addr(2), 5, "t".to_string(), "n".to_string()),
        Err(Error::NotFound)
    );
}

#[test]
fn history_double_init_rejected() {
    let admin = addr(1);
    let mut log = AlgoHistory::new();
    log.init(admin, admin).unwrap();
    assert_eq!(log.init(addr(2), addr(2)), Err(Error::AlreadyInitialized));
    assert_eq!(log.admin().unwrap(), admin);
}

#[test]
fn history_sequences_are_gapless_per_subject() {
    let admin = addr(1);
    let mut log = AlgoHistory::new();
    log.init(admin, admin).unwrap();
    assert_eq!(log.count(7), 0);
    assert_eq!(
        log.add_record(admin, 10, 7, "a".to_string(), "".to_string()).unwrap(),
        0
    );
    assert_eq!(
        log.add_record(admin, 11, 9, "b".to_string(), "".to_string()).unwrap(),
        0
    );
    assert_eq!(
        log.add_record(admin, 12, 7, "c".to_string(), "".to_string()).unwrap(),
        1
    );
    assert_eq!(log.count(7), 2);
    assert_eq!(log.count(9), 1);
    assert_eq!(log.count(8), 0);

    let first = log.get(7, 0).unwrap();
    assert_eq!(first.ts, 10);
    assert_eq!(first.tx_hash, "a".to_string());
    let second = log.get(7, 1).unwrap();
    assert_eq!(second.ts, 12);
    assert_eq!(second.tx_hash, "c".to_string());
    assert!(log.get(7, 2).is_none());
    assert!(log.get(8, 0).is_none());
}

#[test]
fn history_writer_gate() {
    let admin = addr(1);
    let writer = addr(2);
    let stranger = addr(3);
    let mut log = AlgoHistory::new();
    log.init(admin, admin).unwrap();
    assert_eq!(log.writer().unwrap(), admin);
    assert_eq!(
        log.add_record(stranger, 1, 7, "t".to_string(), "n".to_string()),
        Err(Error::Unauthorized)
    );
    assert_eq!(log.set_writer(stranger, writer), Err(Error::Unauthorized));
    log.set_writer(admin, writer).unwrap();
    assert_eq!(log.writer().unwrap(), writer);
    assert_eq!(
        log.add_record(admin, 1, 7, "t".to_string(), "n".to_string()),
        Err(Error::Unauthorized)
    );
    log.add_record(writer, 1, 7, "t".to_string(), "n".to_string()).unwrap();
    assert_eq!(log.count(7), 1);
}

#[test]
fn history_transfer_admin() {
    let admin = addr(1);
    let heir = addr(2);
    let mut log = AlgoHistory::new();
    log.init(admin, admin).unwrap();
    assert_eq!(log.transfer_admin(heir, heir), Err(Error::Unauthorized));
    log.transfer_admin(admin, heir).unwrap();
    assert_eq!(log.admin().unwrap(), heir);
}

#[test]
fn history_uninitialized_refuses_appends() {
    let mut log = AlgoHistory::new();
    assert_eq!(log.admin(), Err(Error::NotFound));
    assert_eq!(log.writer(), Err(Error::NotFound));
    assert_eq!(
        log.add_record(addr(1), 1, 7, "t".to_string(), "n".to_string()),
        Err(Error::NotFound)
    );
}

#[test]
fn history_pagination_window() {
    let admin = addr(1);
    let mut log = AlgoHistory::new();
    log.init(admin, admin).unwrap();
    for k in 0..5u64 {
        log.add_record(admin, k, 7, format!("tx{}", k), "".to_string()).unwrap();
    }

    // A window inside the history returns exactly `limit` records, in
    // increasing sequence order.
    let page = log.list(7, 1, 2);
    assert_eq!(page.len(), 2);
    assert_eq!(page[0].ts, 1);
    assert_eq!(page[1].ts, 2);

    // The tail is cut to what remains.
    let page = log.list(7, 3, 10);
    assert_eq!(page.len(), 2);
    assert_eq!(page[0].ts, 3);
    assert_eq!(page[1].ts, 4);

    // A start at or past the end, or a zero limit, yields an empty page.
    assert_eq!(log.list(7, 5, 10).len(), 0);
    assert_eq!(log.list(7, 99, 10).len(), 0);
    assert_eq!(log.list(7, 0, 0).len(), 0);
    assert_eq!(log.list(12, 0, 10).len(), 0);

    // The whole history in one page.
    let page = log.list(7, 0, 5);
    assert_eq!(page.len(), 5);
    for (k, rec) in page.iter().enumerate() {
        assert_eq!(rec.ts, k as u64);
    }
}

#[test]
fn registry_double_init_rejected() {
    let admin = addr(1);
    let mut reg = AlgoRegistry::new();
    reg.init(admin, admin).unwrap();
    assert_eq!(reg.init(addr(2), addr(2)), Err(Error::AlreadyInitialized));
    assert_eq!(reg.admin().unwrap(), admin);
}

#[test]
fn registry_ids_are_monotonic_from_zero() {
    let owner = addr(2);
    let mut reg = AlgoRegistry::new();
    reg.init(addr(1), addr(1)).unwrap();
    let a = reg
        .create_algo(owner, owner, "a".to_string(), "u".to_string(), "h".to_string())
        .unwrap();
    let b = reg
        .create_algo(owner, owner, "b".to_string(), "u".to_string(), "h".to_string())
        .unwrap();
    assert_eq!(a, 0);
    assert_eq!(b, 1);
    assert_eq!(reg.total_algos(), 2);
    assert!(reg.get_algo(2).is_none());
}

#[test]
fn registry_owner_only_mutation() {
    let owner = addr(2);
    let stranger = addr(3);
    let mut reg = AlgoRegistry::new();
    reg.init(addr(1), addr(1)).unwrap();
    let id = reg
        .create_algo(owner, owner, "a".to_string(), "u".to_string(), "h".to_string())
        .unwrap();

    assert_eq!(reg.set_active(stranger, id, false), Err(Error::Unauthorized));
    reg.set_active(owner, id, false).unwrap();
    assert!(!reg.get_algo(id).unwrap().active);

    assert_eq!(
        reg.update_metadata(stranger, id, "x".to_string(), "y".to_string(), "z".to_string()),
        Err(Error::Unauthorized)
    );
    reg.update_metadata(owner, id, "x".to_string(), "y".to_string(), "z".to_string())
        .unwrap();
    let algo = reg.get_algo(id).unwrap();
    assert_eq!(algo.name, "x".to_string());
    assert_eq!(algo.metadata_uri, "y".to_string());
    assert_eq!(algo.params_hash, "z".to_string());
    assert_eq!(algo.owner, owner);
    assert!(!algo.active);

    assert_eq!(reg.set_active(owner, 5, true), Err(Error::NotFound));
    assert_eq!(
        reg.update_metadata(owner, 5, "x".to_string(), "y".to_string(), "z".to_string()),
        Err(Error::NotFound)
    );

    // Registering demands the owner's own authorization.
    assert_eq!(
        reg.create_algo(stranger, owner, "a".to_string(), "u".to_string(), "h".to_string()),
        Err(Error::Unauthorized)
    );
}

#[test]
fn creator_vault_double_init_rejected() {
    let creator = addr(1);
    let mut vault = CreatorVault::new();
    vault.initialize(creator, addr(2)).unwrap();
    assert_eq!(vault.initialize(addr(3), addr(4)), Err(Error::AlreadyInitialized));
    let (c, t, balance, paused) = vault.get_vault_info().unwrap();
    assert_eq!(c, creator);
    assert_eq!(t, addr(2));
    assert_eq!(balance, 0);
    assert!(!paused);
}

#[test]
fn creator_vault_pause_gates_deposit_and_spend_not_withdraw() {
    let creator = addr(1);
    let mut vault = CreatorVault::new();
    vault.initialize(creator, addr(2)).unwrap();
    vault.deposit(addr(3), 100).unwrap();

    assert_eq!(vault.set_paused(addr(9), true), Err(Error::Unauthorized));
    vault.set_paused(creator, true).unwrap();

    assert_eq!(vault.deposit(addr(3), 10), Err(Error::Paused));
    assert_eq!(
        vault.spend_for_execution(creator, addr(4), 10, "p".to_string(), "t".to_string()),
        Err(Error::Paused)
    );
    // The creator's withdrawal stays open while paused.
    vault.withdraw(creator, addr(4), 40).unwrap();

    vault.set_paused(creator, false).unwrap();
    vault.deposit(addr(3), 10).unwrap();
    let (_, _, balance, paused) = vault.get_vault_info().unwrap();
    assert_eq!(balance, 70);
    assert!(!paused);
}

#[test]
fn creator_vault_executor_fallback() {
    let creator = addr(1);
    let backend = addr(2);
    let stranger = addr(3);
    let mut vault = CreatorVault::new();
    vault.initialize(creator, addr(4)).unwrap();
    vault.deposit(creator, 100).unwrap();

    // No backend executor configured: the creator authorizes every spend.
    assert!(vault.get_backend_executor().is_none());
    vault
        .spend_for_execution(creator, addr(5), 10, "p".to_string(), "t".to_string())
        .unwrap();
    assert_eq!(
        vault.spend_for_execution(stranger, addr(5), 10, "p".to_string(), "t".to_string()),
        Err(Error::Unauthorized)
    );

    // Once configured, only the backend executor may spend.
    assert_eq!(vault.set_backend_executor(stranger, backend), Err(Error::Unauthorized));
    vault.set_backend_executor(creator, backend).unwrap();
    assert_eq!(vault.get_backend_executor().unwrap(), backend);
    assert_eq!(
        vault.spend_for_execution(creator, addr(5), 10, "p".to_string(), "t".to_string()),
        Err(Error::Unauthorized)
    );
    vault
        .spend_for_execution(backend, addr(5), 10, "p".to_string(), "t".to_string())
        .unwrap();

    let (_, _, balance, _) = vault.get_vault_info().unwrap();
    assert_eq!(balance, 80);
}

#[test]
fn creator_vault_balance_floor() {
    let creator = addr(1);
    let mut vault = CreatorVault::new();
    vault.initialize(creator, addr(2)).unwrap();
    vault.deposit(creator, 25).unwrap();
    assert_eq!(vault.withdraw(creator, addr(3), 26), Err(Error::InsufficientBalance));
    assert_eq!(
        vault.spend_for_execution(creator, addr(3), 26, "p".to_string(), "t".to_string()),
        Err(Error::InsufficientBalance)
    );
    assert_eq!(vault.deposit(creator, 0), Err(Error::InvalidAmount));
    assert_eq!(vault.withdraw(creator, addr(3), -1), Err(Error::InvalidAmount));
    let (_, _, balance, _) = vault.get_vault_info().unwrap();
    assert_eq!(balance, 25);
}

#[test]
fn creator_vault_uninitialized_is_not_found() {
    let mut vault = CreatorVault::new();
    assert_eq!(vault.get_vault_info(), Err(Error::NotFound));
    assert_eq!(vault.withdraw(addr(1), addr(2), 5), Err(Error::NotFound));
    assert_eq!(
        vault.spend_for_execution(addr(1), addr(2), 5, "p".to_string(), "t".to_string()),
        Err(Error::NotFound)
    );
    assert_eq!(vault.set_backend_executor(addr(1), addr(2)), Err(Error::NotFound));
    assert_eq!(vault.set_paused(addr(1), true), Err(Error::NotFound));
}

#[test]
fn factory_provisions_one_vault_per_creator() {
    let admin = addr(1);
    let token = addr(2);
    let creator = addr(3);
    let mut factory = CreatorVaultFactory::new();
    factory.initialize(admin, token).unwrap();
    assert_eq!(factory.initialize(admin, token), Err(Error::AlreadyInitialized));

    assert!(!factory.is_creator_registered(creator));
    assert!(factory.get_creator_vault(creator).is_none());

    let vault = factory.create_creator_vault(creator).unwrap();
    assert_eq!(vault, creator);
    assert!(factory.is_creator_registered(creator));
    assert_eq!(factory.get_creator_vault(creator).unwrap(), vault);

    assert_eq!(factory.create_creator_vault(creator), Err(Error::AlreadyInitialized));
    assert!(!factory.is_creator_registered(addr(4)));

    // No enumeration order is maintained: every page is empty.
    assert!(factory.get_registered_creators(0, 10).is_empty());
}

#[test]
fn factory_admin_gate() {
    let admin = addr(1);
    let heir = addr(2);
    let mut factory = CreatorVaultFactory::new();
    assert_eq!(factory.create_creator_vault(addr(3)), Err(Error::NotFound));
    assert_eq!(factory.update_admin(admin, heir), Err(Error::NotFound));
    assert_eq!(factory.get_factory_info(), Err(Error::NotFound));

    factory.initialize(admin, addr(5)).unwrap();
    assert_eq!(factory.get_factory_info().unwrap(), (admin, addr(5)));

    assert_eq!(factory.update_admin(heir, heir), Err(Error::Unauthorized));
    factory.update_admin(admin, heir).unwrap();
    assert_eq!(factory.update_token_contract(admin, addr(6)), Err(Error::Unauthorized));
    factory.update_token_contract(heir, addr(6)).unwrap();
    assert_eq!(factory.get_factory_info().unwrap(), (heir, addr(6)));
}
