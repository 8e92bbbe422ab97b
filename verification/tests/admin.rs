use lumentix::admin::ORGANIZER_TTL_SECS;
use lumentix::env::DEFAULT_LEDGER_TIMESTAMP;
use lumentix::storage;
use lumentix::{Address, AdminContract, Env, LumentixContract, LumentixError};

#[test]
fn is_organizer_false_when_none() {
    let env = Env::default();
    let addr = Address::from_str("org1");
    assert_eq!(AdminContract::is_organizer(&env, addr), false);
}

#[test]
fn is_organizer_true_when_expiry_future() {
    let mut env = Env::default();
    env.ledger_timestamp = 1_000;
    let addr = Address::from_str("org2");
    let expiry = env.ledger_timestamp as i128 + ORGANIZER_TTL_SECS;
    env.organizers.insert(addr.0.clone(), expiry);
    assert_eq!(AdminContract::is_organizer(&env, addr), true);
}

#[test]
fn get_admin_returns_set_admin() {
    let mut env = Env::default();
    let admin = Address::from_str("admin1");
    storage::set_admin(&mut env, &admin);
    let got = AdminContract::get_admin(&env).unwrap();
    assert_eq!(got, admin);
}

#[test]
fn default_env_is_fresh() {
    let env = Env::default();
    assert_eq!(env.ledger_timestamp, 1_700_000_000);
    assert_eq!(env.ledger_timestamp, DEFAULT_LEDGER_TIMESTAMP);
    assert!(!env.initialized);
    assert_eq!(env.admin, None);
    assert_eq!(env.next_event_id, 1);
    assert_eq!(env.next_ticket_id, 1);
    assert_eq!(env.platform_fee_bps, 0);
    assert_eq!(env.platform_balance, 0);
    assert!(env.events.is_empty());
    assert!(env.tickets.is_empty());
    assert!(env.log.is_empty());
}

#[test]
fn organizer_ttl_is_one_year() {
    assert_eq!(ORGANIZER_TTL_SECS, 60 * 60 * 24 * 365);
}

#[test]
fn get_admin_without_admin_is_not_initialized() {
    let env = Env::default();
    assert_eq!(AdminContract::get_admin(&env), Err(LumentixError::NotInitialized));
}

#[test]
fn admin_initialize_is_done_once() {
    let mut env = Env::default();
    let admin = Address::from_str("admin1");
    assert_eq!(AdminContract::initialize(&mut env, admin.clone()), Ok(()));
    assert_eq!(AdminContract::get_admin(&env), Ok(admin.clone()));
    assert_eq!(LumentixContract::get_admin(&env), Ok(admin.clone()));
    let other = Address::from_str("admin2");
    assert_eq!(
        AdminContract::initialize(&mut env, other),
        Err(LumentixError::AlreadyInitialized)
    );
    assert_eq!(AdminContract::get_admin(&env), Ok(admin));
}

#[test]
fn set_admin_replaces_the_admin() {
    let mut env = Env::default();
    let admin = Address::from_str("admin1");
    let next = Address::from_str("admin2");
    assert_eq!(
        AdminContract::set_admin(&mut env, next.clone()),
        Err(LumentixError::NotInitialized)
    );
    assert_eq!(env.admin, None);
    AdminContract::initialize(&mut env, admin.clone()).unwrap();
    assert_eq!(AdminContract::set_admin(&mut env, next.clone()), Ok(()));
    assert_eq!(AdminContract::get_admin(&env), Ok(next.clone()));
    // The admin in office is the one who may set the fee from now on.
    assert_eq!(
        LumentixContract::set_platform_fee(&mut env, admin, 100),
        Err(LumentixError::Unauthorized)
    );
    assert_eq!(LumentixContract::set_platform_fee(&mut env, next, 100), Ok(()));
}

#[test]
fn add_organizer_registers_for_one_year() {
    let mut env = Env::default();
    env.set_ledger_timestamp(1_000);
    let admin = Address::from_str("admin1");
    let organizer = Address::from_str("org3");
    assert_eq!(
        AdminContract::add_organizer(&mut env, organizer.clone()),
        Err(LumentixError::NotInitialized)
    );
    assert!(!AdminContract::is_organizer(&env, organizer.clone()));
    AdminContract::initialize(&mut env, admin).unwrap();
    assert_eq!(AdminContract::add_organizer(&mut env, organizer.clone()), Ok(()));
    assert!(AdminContract::is_organizer(&env, organizer.clone()));
    assert_eq!(env.organizers.get(&organizer.0), Some(&(1_000 + 31_536_000)));

    // One second before the expiry the registration still holds; at the
    // expiry it does not.
    env.set_ledger_timestamp(1_000 + 31_536_000 - 1);
    assert!(AdminContract::is_organizer(&env, organizer.clone()));
    env.set_ledger_timestamp(1_000 + 31_536_000);
    assert!(!AdminContract::is_organizer(&env, organizer.clone()));

    // Adding again renews it from the current time.
    assert_eq!(AdminContract::add_organizer(&mut env, organizer.clone()), Ok(()));
    assert!(AdminContract::is_organizer(&env, organizer.clone()));
    assert!(!AdminContract::is_organizer(&env, Address::from_str("org4")));
}

#[test]
fn storage_accessors_read_what_was_written() {
    let mut env = Env::new(5);
    assert_eq!(env.ledger_timestamp, 5);
    assert!(!storage::is_initialized(&env));
    storage::set_initialized(&mut env);
    assert!(storage::is_initialized(&env));

    let token = Address::from_str("token");
    storage::set_token(&mut env, &token);
    assert_eq!(storage::get_token(&env), token);
    let admin = Address::from_str("admin");
    storage::set_admin(&mut env, &admin);
    assert_eq!(storage::get_admin(&env), admin);

    assert_eq!(storage::get_next_event_id(&env), 1);
    storage::increment_event_id(&mut env);
    assert_eq!(storage::get_next_event_id(&env), 2);
    assert_eq!(storage::get_next_ticket_id(&env), 1);
    storage::increment_ticket_id(&mut env);
    storage::increment_ticket_id(&mut env);
    assert_eq!(storage::get_next_ticket_id(&env), 3);

    assert_eq!(storage::get_escrow(&env, 7), Ok(0));
    storage::add_escrow(&mut env, 7, 40);
    storage::add_escrow(&mut env, 7, 2);
    assert_eq!(storage::get_escrow(&env, 7), Ok(42));
    assert_eq!(storage::get_escrow(&env, 8), Ok(0));
    assert_eq!(storage::deduct_escrow(&mut env, 7, 43), Err(LumentixError::InsufficientEscrow));
    assert_eq!(storage::get_escrow(&env, 7), Ok(42));
    assert_eq!(storage::deduct_escrow(&mut env, 7, 42), Ok(()));
    assert_eq!(storage::get_escrow(&env, 7), Ok(0));
    storage::add_escrow(&mut env, 7, 9);
    storage::clear_escrow(&mut env, 7);
    assert_eq!(storage::get_escrow(&env, 7), Ok(0));

    assert_eq!(storage::get_platform_fee_bps(&env), 0);
    storage::set_platform_fee_bps(&mut env, 250);
    assert_eq!(storage::get_platform_fee_bps(&env), 250);
    assert_eq!(storage::get_platform_balance(&env), 0);
    storage::add_platform_balance(&mut env, 30);
    storage::add_platform_balance(&mut env, 12);
    assert_eq!(storage::get_platform_balance(&env), 42);
    storage::clear_platform_balance(&mut env);
    assert_eq!(storage::get_platform_balance(&env), 0);

    assert_eq!(storage::get_event(&env, 1), Err(LumentixError::EventNotFound));
    assert_eq!(storage::get_ticket(&env, 1), Err(LumentixError::TicketNotFound));
}

#[test]
fn admin_initialize_is_refused_where_an_admin_is_in_office() {
    let mut env = Env::default();
    let admin = Address::from_str("admin1");
    storage::set_admin(&mut env, &admin);
    assert_eq!(
        AdminContract::initialize(&mut env, Address::from_str("admin2")),
        Err(LumentixError::AlreadyInitialized)
    );
    assert_eq!(AdminContract::get_admin(&env), Ok(admin));
    assert!(!storage::is_initialized(&env));
}
