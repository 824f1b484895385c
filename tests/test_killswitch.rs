use remitwise::address::Address;
use remitwise::killswitch::{EmergencyKillswitch, Error, Notification, EVENT_NAMESPACE};

fn addr(key: &str) -> Address {
    Address::new(key.as_bytes().to_vec())
}

/// A guard initialized with an administrator, at ledger time 0.
fn setup() -> (EmergencyKillswitch, Address) {
    let mut ks = EmergencyKillswitch::new();
    let admin = addr("GADMINAAAAAAAAAAAAAAAAAAAAAAAAAAAAAAAAAAAAAAAAAAAAAAAAAA");
    assert_eq!(ks.initialize(admin.clone()), Ok(()));
    (ks, admin)
}

#[test]
fn test_pause_blocks_transfer() {
    let (mut ks, admin) = setup();

    ks.pause(&admin).unwrap();
    assert!(ks.is_paused(), "contract should be paused");

    let user = addr("GUSER");
    let result = ks.do_transfer(&user, 500);
    assert_eq!(result, Err(Error::ContractPaused), "do_transfer must fail while paused");
}

#[test]
fn test_pause_blocks_mint() {
    let (mut ks, admin) = setup();

    ks.pause(&admin).unwrap();

    let minter = addr("GMINTER");
    let result = ks.do_mint(&minter, 1000);
    assert_eq!(result, Err(Error::ContractPaused), "do_mint must fail while paused");
}

#[test]
fn test_read_only_works_while_paused() {
    let (mut ks, admin) = setup();

    ks.pause(&admin).unwrap();

    assert!(ks.is_paused(), "is_paused should return true");

    let stored_admin = ks.get_admin();
    assert!(
        matches!(stored_admin, Some(ref a) if a.key == admin.key),
        "get_admin must return the admin even while paused"
    );

    assert!(ks.get_scheduled_unpause().is_none(), "no schedule should be set");
}

#[test]
fn test_unpause_restores_operations() {
    let (mut ks, admin) = setup();

    ks.pause(&admin).unwrap();
    ks.unpause(&admin, 0).unwrap();

    assert!(!ks.is_paused(), "contract should be unpaused");

    let user = addr("GUSER");
    assert_eq!(ks.do_transfer(&user, 100), Ok(()));
    assert_eq!(ks.do_mint(&user, 200), Ok(()));
}

#[test]
fn test_non_admin_cannot_pause() {
    let (mut ks, _admin) = setup();

    let rando = addr("GRANDO");
    let result = ks.pause(&rando);
    assert_eq!(result, Err(Error::Unauthorized), "non-admin pause must be rejected");
}

#[test]
fn test_non_admin_cannot_unpause() {
    let (mut ks, admin) = setup();

    ks.pause(&admin).unwrap();

    let rando = addr("GRANDO");
    let result = ks.unpause(&rando, 0);
    assert_eq!(result, Err(Error::Unauthorized), "non-admin unpause must be rejected");
}

#[test]
fn test_schedule_unpause_enforced() {
    let (mut ks, admin) = setup();

    ks.pause(&admin).unwrap();

    let now: u64 = 0;
    let future = now + 3600;
    ks.schedule_unpause(&admin, future, now).unwrap();

    let result = ks.unpause(&admin, now);
    assert_eq!(
        result,
        Err(Error::ContractPaused),
        "unpause before scheduled time must be rejected"
    );

    ks.unpause(&admin, future + 1).unwrap();
    assert!(!ks.is_paused());
}

#[test]
fn test_transfer_admin() {
    let (mut ks, old_admin) = setup();

    let new_admin = addr("GNEWADMIN");
    ks.transfer_admin(&old_admin, new_admin.clone()).unwrap();

    ks.pause(&new_admin).unwrap();
    assert!(ks.is_paused());

    ks.unpause(&new_admin, 0).unwrap();
    let result = ks.pause(&old_admin);
    assert_eq!(result, Err(Error::Unauthorized), "old admin must be rejected after transfer");
}

#[test]
fn test_emergency_pause_emits_event() {
    let (mut ks, admin) = setup();

    let mut events: Vec<Notification> = Vec::new();
    events.push(ks.pause(&admin).unwrap());
    assert!(!events.is_empty(), "at least one event should be emitted");

    let last = events.last().unwrap();
    assert_eq!(EVENT_NAMESPACE, "killswtch");
    assert_eq!(last.action(), "paused");
}

#[test]
fn only_authority_may_pause_or_unpause() {
    let (mut ks, admin) = setup();
    let other = addr("GOTHER");
    assert_eq!(ks.pause(&other), Err(Error::Unauthorized));
    assert!(!ks.is_paused());
    assert_eq!(ks.pause(&admin), Ok(Notification::Paused));
    assert_eq!(ks.unpause(&other, 10), Err(Error::Unauthorized));
    assert!(ks.is_paused());
    assert_eq!(ks.unpause(&admin, 10), Ok(Notification::Unpaused));
    assert!(!ks.is_paused());
}

#[test]
fn address_prefix_is_not_the_authority() {
    let mut ks = EmergencyKillswitch::new();
    ks.initialize(addr("GABC")).unwrap();
    assert_eq!(ks.pause(&addr("GAB")), Err(Error::Unauthorized));
    assert_eq!(ks.pause(&addr("GABD")), Err(Error::Unauthorized));
    assert_eq!(ks.pause(&addr("GABC")), Ok(Notification::Paused));
}

#[test]
fn repeated_pause_and_unpause_still_succeed() {
    let (mut ks, admin) = setup();
    assert_eq!(ks.pause(&admin), Ok(Notification::Paused));
    assert_eq!(ks.pause(&admin), Ok(Notification::Paused));
    assert!(ks.is_paused());
    assert_eq!(ks.unpause(&admin, 0), Ok(Notification::Unpaused));
    assert_eq!(ks.unpause(&admin, 0), Ok(Notification::Unpaused));
    assert!(!ks.is_paused());
}

#[test]
fn schedule_must_lie_after_now() {
    let (mut ks, admin) = setup();
    assert_eq!(ks.schedule_unpause(&admin, 99, 100), Err(Error::InvalidSchedule));
    assert_eq!(ks.schedule_unpause(&admin, 100, 100), Err(Error::InvalidSchedule));
    assert_eq!(ks.get_scheduled_unpause(), None);
    assert_eq!(ks.schedule_unpause(&admin, 101, 100), Ok(()));
    assert_eq!(ks.get_scheduled_unpause(), Some(101));
    let other = addr("GOTHER");
    assert_eq!(ks.schedule_unpause(&other, 500, 100), Err(Error::Unauthorized));
    assert_eq!(ks.get_scheduled_unpause(), Some(101));
}

#[test]
fn cooldown_boundary_and_clearing() {
    let (mut ks, admin) = setup();
    ks.schedule_unpause(&admin, 1000, 5).unwrap();
    ks.pause(&admin).unwrap();
    assert_eq!(ks.unpause(&admin, 999), Err(Error::ContractPaused));
    assert!(ks.is_paused());
    assert_eq!(ks.get_scheduled_unpause(), Some(1000));
    assert_eq!(ks.unpause(&admin, 1000), Ok(Notification::Unpaused));
    assert!(!ks.is_paused());
    assert_eq!(ks.get_scheduled_unpause(), None);
}

#[test]
fn cooldown_set_before_any_pause_blocks_unpause() {
    let (mut ks, admin) = setup();
    ks.schedule_unpause(&admin, 50, 0).unwrap();
    assert!(!ks.is_paused());
    assert_eq!(ks.unpause(&admin, 49), Err(Error::ContractPaused));
    assert_eq!(ks.unpause(&admin, 60), Ok(Notification::Unpaused));
    assert_eq!(ks.get_scheduled_unpause(), None);
}

#[test]
fn transfer_then_new_authority_pauses_and_old_is_refused() {
    let (mut ks, a) = setup();
    let b = addr("GBBBB");
    assert_eq!(ks.transfer_admin(&a, b.clone()), Ok(Notification::AdminTransferred));
    assert_eq!(ks.get_admin().map(|x| x.key), Some(b.key.clone()));
    assert_eq!(ks.pause(&b), Ok(Notification::Paused));
    assert_eq!(ks.pause(&a), Err(Error::Unauthorized));
    assert_eq!(ks.transfer_admin(&a, a.clone()), Err(Error::Unauthorized));
}

#[test]
fn queries_unchanged_by_pause() {
    let (mut ks, admin) = setup();
    ks.schedule_unpause(&admin, 77, 1).unwrap();
    let before = (ks.get_admin().map(|x| x.key), ks.get_scheduled_unpause());
    ks.pause(&admin).unwrap();
    let after = (ks.get_admin().map(|x| x.key), ks.get_scheduled_unpause());
    assert_eq!(before, after);
    assert_eq!(ks.get_admin().map(|x| x.key), ks.get_admin().map(|x| x.key));
    assert!(ks.is_paused());
    assert!(ks.is_paused());
}

#[test]
fn end_to_end_incident_cycle() {
    let (mut ks, a) = setup();
    let now: u64 = 1_700_000_000;
    let mut events: Vec<Notification> = Vec::new();

    events.push(ks.pause(&a).unwrap());
    assert!(ks.is_paused());
    assert_eq!(events, vec![Notification::Paused]);

    ks.schedule_unpause(&a, now + 3600, now).unwrap();
    assert_eq!(ks.unpause(&a, now + 1), Err(Error::ContractPaused));
    assert!(ks.is_paused());

    events.push(ks.unpause(&a, now + 3601).unwrap());
    assert!(!ks.is_paused());
    assert_eq!(ks.get_scheduled_unpause(), None);
    assert_eq!(events, vec![Notification::Paused, Notification::Unpaused]);
}

#[test]
fn everything_before_initialize_is_refused() {
    let mut ks = EmergencyKillswitch::new();
    let a = addr("GAAAA");
    assert_eq!(ks.pause(&a), Err(Error::NotInitialized));
    assert_eq!(ks.unpause(&a, 0), Err(Error::NotInitialized));
    assert_eq!(ks.schedule_unpause(&a, 10, 0), Err(Error::NotInitialized));
    assert_eq!(ks.transfer_admin(&a, addr("GBBBB")), Err(Error::NotInitialized));
    assert!(!ks.is_paused());
    assert!(ks.get_admin().is_none());
    assert!(ks.get_scheduled_unpause().is_none());
    assert_eq!(ks.initialize(a.clone()), Ok(()));
    assert_eq!(ks.initialize(addr("GBBBB")), Err(Error::AlreadyInitialized));
    assert_eq!(ks.get_admin().map(|x| x.key), Some(a.key.clone()));
}

#[test]
fn error_codes_are_numbered() {
    assert_eq!(Error::NotInitialized.code(), 1);
    assert_eq!(Error::AlreadyInitialized.code(), 2);
    assert_eq!(Error::Unauthorized.code(), 3);
    assert_eq!(Error::ContractPaused.code(), 4);
    assert_eq!(Error::InvalidSchedule.code(), 5);
}

#[test]
fn notification_action_tags() {
    assert_eq!(Notification::Paused.action(), "paused");
    assert_eq!(Notification::Unpaused.action(), "unpaused");
    assert_eq!(Notification::AdminTransferred.action(), "adm_xfr");
}

#[test]
fn guarded_operation_checks_caller_then_pause() {
    let (mut ks, admin) = setup();
    let owner = addr("GOWNER");
    let other = addr("GOTHER");
    assert_eq!(ks.check_operation(&owner, &owner), Ok(()));
    assert_eq!(ks.check_operation(&other, &owner), Err(Error::Unauthorized));
    ks.pause(&admin).unwrap();
    assert_eq!(ks.check_operation(&other, &owner), Err(Error::Unauthorized));
    assert_eq!(ks.check_operation(&owner, &owner), Err(Error::ContractPaused));
    ks.unpause(&admin, 0).unwrap();
    assert_eq!(ks.check_operation(&admin, &admin), Ok(()));
}
