use lumentix::events::Notification;
use lumentix::types::{Event, EventStatus, FeeCollectedEvent, Ticket};
use lumentix::{Address, Env, LumentixContract, LumentixError};

fn initialized_env() -> (Env, Address) {
    let mut env = Env::new(0);
    let admin = Address::from_str("admin");
    LumentixContract::initialize(&mut env, admin.clone()).unwrap();
    (env, admin)
}

fn draft_event(env: &mut Env, organizer: &Address, price: i128, max_tickets: u32) -> u64 {
    LumentixContract::create_event(
        env,
        organizer.clone(),
        String::from("Show"),
        String::from("A show"),
        String::from("Hall"),
        1000,
        2000,
        price,
        max_tickets,
    )
    .unwrap()
}

fn published_event(env: &mut Env, organizer: &Address, price: i128, max_tickets: u32) -> u64 {
    let event_id = draft_event(env, organizer, price, max_tickets);
    LumentixContract::update_event_status(env, event_id, EventStatus::Published, organizer.clone())
        .unwrap();
    event_id
}

#[test]
fn sold_out_then_cancel_then_refund_once() {
    let (mut env, _admin) = initialized_env();
    let organizer = Address::from_str("organizer");
    let buyer = Address::from_str("buyer");
    let event_id = draft_event(&mut env, &organizer, 100, 1);
    assert_eq!(event_id, 1);
    LumentixContract::update_event_status(
        &mut env,
        event_id,
        EventStatus::Published,
        organizer.clone(),
    )
    .unwrap();
    assert_eq!(LumentixContract::purchase_ticket(&mut env, buyer.clone(), event_id, 100), Ok(1));
    assert_eq!(
        LumentixContract::purchase_ticket(&mut env, Address::from_str("late"), event_id, 100),
        Err(LumentixError::EventSoldOut)
    );
    // The event is still on sale, so it can be cancelled.
    assert_eq!(LumentixContract::cancel_event(&mut env, organizer.clone(), event_id), Ok(()));
    // A cancelled event is not cancelled again.
    assert_eq!(
        LumentixContract::cancel_event(&mut env, organizer, event_id),
        Err(LumentixError::InvalidStatusTransition)
    );
    assert_eq!(LumentixContract::refund_ticket(&mut env, 1, buyer.clone()), Ok(()));
    assert_eq!(
        LumentixContract::refund_ticket(&mut env, 1, buyer),
        Err(LumentixError::RefundNotAllowed)
    );
    assert!(env.is_well_formed());
}

#[test]
fn created_event_is_read_back_as_it_was_given() {
    let (mut env, _admin) = initialized_env();
    env.set_ledger_timestamp(77);
    let organizer = Address::from_str("organizer");
    let event_id = LumentixContract::create_event(
        &mut env,
        organizer.clone(),
        String::from("Concert"),
        String::from("Amazing concert"),
        String::from("Stadium"),
        1000,
        2000,
        100,
        10,
    )
    .unwrap();
    assert_eq!(
        LumentixContract::get_event(&env, event_id),
        Ok(Event {
            id: 1,
            organizer,
            name: String::from("Concert"),
            description: String::from("Amazing concert"),
            location: String::from("Stadium"),
            start_time: 1000,
            end_time: 2000,
            ticket_price: 100,
            max_tickets: 10,
            tickets_sold: 0,
            status: EventStatus::Draft,
        })
    );
    assert_eq!(env.next_event_id, 2);
}

#[test]
fn purchased_ticket_is_read_back_with_its_buyer_and_time() {
    let (mut env, _admin) = initialized_env();
    let organizer = Address::from_str("organizer");
    let buyer = Address::from_str("buyer");
    let event_id = published_event(&mut env, &organizer, 100, 10);
    env.set_ledger_timestamp(1234);
    let ticket_id =
        LumentixContract::purchase_ticket(&mut env, buyer.clone(), event_id, 100).unwrap();
    assert_eq!(
        LumentixContract::get_ticket(&env, ticket_id),
        Ok(Ticket {
            id: 1,
            event_id,
            owner: buyer,
            purchase_time: 1234,
            used: false,
            refunded: false,
        })
    );
    assert_eq!(env.next_ticket_id, 2);
}

#[test]
fn purchase_logs_the_split_of_the_payment() {
    let (mut env, admin) = initialized_env();
    let organizer = Address::from_str("organizer");
    LumentixContract::set_platform_fee(&mut env, admin, 250).unwrap();
    let event_id = published_event(&mut env, &organizer, 100, 10);
    let logged = env.log.len();
    let ticket_id =
        LumentixContract::purchase_ticket(&mut env, Address::from_str("buyer"), event_id, 1001)
            .unwrap();
    assert_eq!(env.platform_balance, 25);
    assert_eq!(env.escrow.get(&event_id), Some(&976));
    assert_eq!(env.log.len(), logged + 1);
    assert_eq!(
        env.log[logged],
        Notification::FeeCollected(FeeCollectedEvent {
            ticket_id,
            event_id,
            platform_fee: 25,
            organizer_amount: 976,
        })
    );
}

#[test]
fn status_changes_and_check_ins_are_logged() {
    let (mut env, admin) = initialized_env();
    let organizer = Address::from_str("organizer");
    let event_id = published_event(&mut env, &organizer, 100, 10);
    assert_eq!(
        env.log,
        vec![Notification::StatusChanged { event_id, status: EventStatus::Published }]
    );
    LumentixContract::set_platform_fee(&mut env, admin.clone(), 1000).unwrap();
    let ticket_id =
        LumentixContract::purchase_ticket(&mut env, Address::from_str("buyer"), event_id, 100)
            .unwrap();
    LumentixContract::use_ticket(&mut env, ticket_id, organizer.clone()).unwrap();
    assert_eq!(
        env.log[2],
        Notification::TicketUsed { ticket_id, validator: organizer.clone(), event_id }
    );
    assert_eq!(LumentixContract::withdraw_platform_fees(&mut env, admin.clone()), Ok(10));
    assert_eq!(env.log[3], Notification::FeesWithdrawn { admin, amount: 10 });
    env.set_ledger_timestamp(2000);
    LumentixContract::complete_event(&mut env, organizer, event_id).unwrap();
    assert_eq!(
        env.log[4],
        Notification::StatusChanged { event_id, status: EventStatus::Completed }
    );
    assert_eq!(env.log.len(), 5);
}

#[test]
fn completing_at_the_end_time_goes_through() {
    let (mut env, _admin) = initialized_env();
    let organizer = Address::from_str("organizer");
    let event_id = published_event(&mut env, &organizer, 100, 10);
    env.set_ledger_timestamp(1999);
    assert_eq!(
        LumentixContract::complete_event(&mut env, organizer.clone(), event_id),
        Err(LumentixError::InvalidStatusTransition)
    );
    env.set_ledger_timestamp(2000);
    assert_eq!(LumentixContract::complete_event(&mut env, organizer, event_id), Ok(()));
}

#[test]
fn status_table_is_exactly_three_changes() {
    let all = [
        EventStatus::Draft,
        EventStatus::Published,
        EventStatus::Completed,
        EventStatus::Cancelled,
    ];
    for from in all {
        for to in all {
            let (mut env, _admin) = initialized_env();
            let organizer = Address::from_str("organizer");
            let event_id = draft_event(&mut env, &organizer, 100, 10);
            // Past the end, so that time stands in the way of nothing.
            env.set_ledger_timestamp(5000);
            match from {
                EventStatus::Draft => {}
                EventStatus::Published => {
                    LumentixContract::update_event_status(
                        &mut env,
                        event_id,
                        EventStatus::Published,
                        organizer.clone(),
                    )
                    .unwrap();
                }
                EventStatus::Completed => {
                    LumentixContract::update_event_status(
                        &mut env,
                        event_id,
                        EventStatus::Published,
                        organizer.clone(),
                    )
                    .unwrap();
                    LumentixContract::complete_event(&mut env, organizer.clone(), event_id)
                        .unwrap();
                }
                EventStatus::Cancelled => {
                    LumentixContract::update_event_status(
                        &mut env,
                        event_id,
                        EventStatus::Published,
                        organizer.clone(),
                    )
                    .unwrap();
                    LumentixContract::cancel_event(&mut env, organizer.clone(), event_id).unwrap();
                }
            }
            let allowed = matches!(
                (from, to),
                (EventStatus::Draft, EventStatus::Published)
                    | (EventStatus::Published, EventStatus::Completed)
                    | (EventStatus::Published, EventStatus::Cancelled)
            );
            let result =
                LumentixContract::update_event_status(&mut env, event_id, to, organizer.clone());
            if allowed {
                assert_eq!(result, Ok(()));
                assert_eq!(LumentixContract::get_event(&env, event_id).unwrap().status, to);
            } else {
                assert_eq!(result, Err(LumentixError::InvalidStatusTransition));
                assert_eq!(LumentixContract::get_event(&env, event_id).unwrap().status, from);
            }
        }
    }
}

#[test]
fn cancel_and_complete_behave_as_status_changes() {
    let organizer = Address::from_str("organizer");
    let stranger = Address::from_str("stranger");
    for caller in [organizer.clone(), stranger] {
        for now in [0u64, 2000u64] {
            for publish in [false, true] {
                let (mut direct, _admin) = initialized_env();
                let (mut general, _admin) = initialized_env();
                for env in [&mut direct, &mut general] {
                    let event_id = draft_event(env, &organizer, 100, 10);
                    if publish {
                        LumentixContract::update_event_status(
                            env,
                            event_id,
                            EventStatus::Published,
                            organizer.clone(),
                        )
                        .unwrap();
                    }
                    env.set_ledger_timestamp(now);
                }
                assert_eq!(
                    LumentixContract::complete_event(&mut direct, caller.clone(), 1),
                    LumentixContract::update_event_status(
                        &mut general,
                        1,
                        EventStatus::Completed,
                        caller.clone()
                    )
                );
                assert_eq!(direct.events, general.events);
                assert_eq!(direct.log, general.log);
                assert_eq!(
                    LumentixContract::cancel_event(&mut direct, caller.clone(), 1),
                    LumentixContract::update_event_status(
                        &mut general,
                        1,
                        EventStatus::Cancelled,
                        caller.clone()
                    )
                );
                assert_eq!(direct.events, general.events);
                assert_eq!(direct.log, general.log);
                // An event that does not exist.
                assert_eq!(
                    LumentixContract::cancel_event(&mut direct, caller.clone(), 9),
                    Err(LumentixError::EventNotFound)
                );
            }
        }
    }
}

#[test]
fn wrong_caller_is_refused_and_nothing_changes() {
    let (mut env, admin) = initialized_env();
    let organizer = Address::from_str("organizer");
    let buyer = Address::from_str("buyer");
    let stranger = Address::from_str("stranger");
    LumentixContract::set_platform_fee(&mut env, admin, 500).unwrap();
    let event_id = published_event(&mut env, &organizer, 100, 10);
    let ticket_id =
        LumentixContract::purchase_ticket(&mut env, buyer.clone(), event_id, 100).unwrap();

    let event = LumentixContract::get_event(&env, event_id).unwrap();
    let ticket = LumentixContract::get_ticket(&env, ticket_id).unwrap();
    let logged = env.log.len();

    assert_eq!(
        LumentixContract::update_event_status(
            &mut env,
            event_id,
            EventStatus::Cancelled,
            stranger.clone()
        ),
        Err(LumentixError::Unauthorized)
    );
    assert_eq!(
        LumentixContract::cancel_event(&mut env, stranger.clone(), event_id),
        Err(LumentixError::Unauthorized)
    );
    assert_eq!(
        LumentixContract::complete_event(&mut env, stranger.clone(), event_id),
        Err(LumentixError::Unauthorized)
    );
    assert_eq!(
        LumentixContract::use_ticket(&mut env, ticket_id, stranger.clone()),
        Err(LumentixError::Unauthorized)
    );
    // Neither the buyer nor the admin is the organizer.
    assert_eq!(
        LumentixContract::use_ticket(&mut env, ticket_id, buyer.clone()),
        Err(LumentixError::Unauthorized)
    );
    assert_eq!(
        LumentixContract::refund_ticket(&mut env, ticket_id, stranger.clone()),
        Err(LumentixError::Unauthorized)
    );
    assert_eq!(
        LumentixContract::refund_ticket(&mut env, ticket_id, organizer.clone()),
        Err(LumentixError::Unauthorized)
    );
    assert_eq!(
        LumentixContract::release_escrow(&mut env, stranger.clone(), event_id),
        Err(LumentixError::Unauthorized)
    );
    assert_eq!(
        LumentixContract::set_platform_fee(&mut env, stranger.clone(), 0),
        Err(LumentixError::Unauthorized)
    );
    assert_eq!(
        LumentixContract::set_platform_fee(&mut env, organizer.clone(), 0),
        Err(LumentixError::Unauthorized)
    );
    assert_eq!(
        LumentixContract::withdraw_platform_fees(&mut env, stranger),
        Err(LumentixError::Unauthorized)
    );

    assert_eq!(LumentixContract::get_event(&env, event_id), Ok(event));
    assert_eq!(LumentixContract::get_ticket(&env, ticket_id), Ok(ticket));
    assert_eq!(LumentixContract::get_platform_fee(&env), Ok(500));
    assert_eq!(LumentixContract::get_platform_balance(&env), Ok(5));
    assert_eq!(env.escrow.get(&event_id), Some(&95));
    assert_eq!(env.log.len(), logged);
    assert_eq!(env.next_event_id, 2);
    assert_eq!(env.next_ticket_id, 2);
}

#[test]
fn nothing_works_before_initialization() {
    let mut env = Env::new(0);
    let someone = Address::from_str("someone");
    assert_eq!(
        LumentixContract::create_event(
            &mut env,
            someone.clone(),
            String::from("Show"),
            String::from(""),
            String::from(""),
            0,
            0,
            0,
            0,
        ),
        Err(LumentixError::NotInitialized)
    );
    assert_eq!(
        LumentixContract::update_event_status(&mut env, 1, EventStatus::Published, someone.clone()),
        Err(LumentixError::NotInitialized)
    );
    assert_eq!(
        LumentixContract::cancel_event(&mut env, someone.clone(), 1),
        Err(LumentixError::NotInitialized)
    );
    assert_eq!(
        LumentixContract::complete_event(&mut env, someone.clone(), 1),
        Err(LumentixError::NotInitialized)
    );
    assert_eq!(
        LumentixContract::purchase_ticket(&mut env, someone.clone(), 1, 100),
        Err(LumentixError::NotInitialized)
    );
    assert_eq!(
        LumentixContract::use_ticket(&mut env, 1, someone.clone()),
        Err(LumentixError::NotInitialized)
    );
    assert_eq!(
        LumentixContract::refund_ticket(&mut env, 1, someone.clone()),
        Err(LumentixError::NotInitialized)
    );
    assert_eq!(
        LumentixContract::set_platform_fee(&mut env, someone.clone(), 1),
        Err(LumentixError::NotInitialized)
    );
    assert_eq!(
        LumentixContract::withdraw_platform_fees(&mut env, someone),
        Err(LumentixError::NotInitialized)
    );
    assert_eq!(LumentixContract::get_event(&env, 1), Err(LumentixError::NotInitialized));
    assert_eq!(LumentixContract::get_ticket(&env, 1), Err(LumentixError::NotInitialized));
    assert_eq!(LumentixContract::get_admin(&env), Err(LumentixError::NotInitialized));
    assert_eq!(LumentixContract::get_platform_fee(&env), Err(LumentixError::NotInitialized));
    assert_eq!(LumentixContract::get_platform_balance(&env), Err(LumentixError::NotInitialized));
    assert!(env.events.is_empty());
    assert!(env.is_well_formed());
}

#[test]
fn checks_come_in_a_fixed_order() {
    let (mut env, _admin) = initialized_env();
    let organizer = Address::from_str("organizer");
    let buyer = Address::from_str("buyer");

    // create_event: price, capacity, times, name.
    let create = |env: &mut Env, name: &str, start: u64, end: u64, price: i128, max: u32| {
        LumentixContract::create_event(
            env,
            Address::from_str("organizer"),
            String::from(name),
            String::from(""),
            String::from(""),
            start,
            end,
            price,
            max,
        )
    };
    assert_eq!(create(&mut env, "", 5, 5, -1, 0), Err(LumentixError::InvalidAmount));
    assert_eq!(create(&mut env, "", 5, 5, 1, 0), Err(LumentixError::CapacityExceeded));
    assert_eq!(create(&mut env, "", 5, 5, 1, 1), Err(LumentixError::InvalidTimeRange));
    assert_eq!(create(&mut env, "", 5, 6, 1, 1), Err(LumentixError::EmptyString));
    // An empty description and location are fine.
    assert_eq!(create(&mut env, "x", 5, 6, 1, 1), Ok(1));
    assert_eq!(env.next_event_id, 2);

    // purchase_ticket: amount, event, status, capacity, payment.
    assert_eq!(
        LumentixContract::purchase_ticket(&mut env, buyer.clone(), 9, 0),
        Err(LumentixError::InvalidAmount)
    );
    assert_eq!(
        LumentixContract::purchase_ticket(&mut env, buyer.clone(), 9, 1),
        Err(LumentixError::EventNotFound)
    );
    let event_id = published_event(&mut env, &organizer, 100, 1);
    LumentixContract::purchase_ticket(&mut env, buyer.clone(), event_id, 100).unwrap();
    // Sold out comes before the payment is looked at.
    assert_eq!(
        LumentixContract::purchase_ticket(&mut env, buyer.clone(), event_id, 1),
        Err(LumentixError::EventSoldOut)
    );
    // A cancelled event is off sale, sold out or not.
    LumentixContract::cancel_event(&mut env, organizer.clone(), event_id).unwrap();
    assert_eq!(
        LumentixContract::purchase_ticket(&mut env, buyer.clone(), event_id, 1),
        Err(LumentixError::InvalidStatusTransition)
    );

    // use_ticket and refund_ticket: the ticket must exist.
    assert_eq!(
        LumentixContract::use_ticket(&mut env, 9, organizer.clone()),
        Err(LumentixError::TicketNotFound)
    );
    assert_eq!(
        LumentixContract::refund_ticket(&mut env, 9, buyer.clone()),
        Err(LumentixError::TicketNotFound)
    );
    // A refunded ticket is not checked in.
    LumentixContract::refund_ticket(&mut env, 1, buyer).unwrap();
    assert_eq!(
        LumentixContract::use_ticket(&mut env, 1, organizer),
        Err(LumentixError::RefundNotAllowed)
    );
    assert!(env.is_well_formed());
}

#[test]
fn tickets_sold_never_passes_the_capacity() {
    let (mut env, _admin) = initialized_env();
    let organizer = Address::from_str("organizer");
    let event_id = published_event(&mut env, &organizer, 10, 3);
    let mut sold_before: u32 = 0;
    let mut round: u32 = 0;
    while round < 6 {
        let result =
            LumentixContract::purchase_ticket(&mut env, Address::from_str("buyer"), event_id, 10);
        let event = LumentixContract::get_event(&env, event_id).unwrap();
        assert!(event.tickets_sold >= sold_before);
        assert!(event.tickets_sold <= event.max_tickets);
        if round < 3 {
            assert_eq!(result, Ok((round + 1) as u64));
        } else {
            assert_eq!(result, Err(LumentixError::EventSoldOut));
        }
        sold_before = event.tickets_sold;
        round += 1;
    }
    assert_eq!(sold_before, 3);
    assert_eq!(env.escrow.get(&event_id), Some(&30));
}

#[test]
fn used_ticket_stays_used_whatever_follows() {
    let (mut env, admin) = initialized_env();
    let organizer = Address::from_str("organizer");
    let buyer = Address::from_str("buyer");
    let event_id = published_event(&mut env, &organizer, 100, 10);
    let ticket_id =
        LumentixContract::purchase_ticket(&mut env, buyer.clone(), event_id, 100).unwrap();
    LumentixContract::use_ticket(&mut env, ticket_id, organizer.clone()).unwrap();

    let _ = LumentixContract::use_ticket(&mut env, ticket_id, organizer.clone());
    assert!(LumentixContract::get_ticket(&env, ticket_id).unwrap().used);
    let _ = LumentixContract::purchase_ticket(&mut env, buyer.clone(), event_id, 100);
    assert!(LumentixContract::get_ticket(&env, ticket_id).unwrap().used);
    let _ = LumentixContract::set_platform_fee(&mut env, admin, 100);
    let _ = LumentixContract::cancel_event(&mut env, organizer.clone(), event_id);
    assert!(LumentixContract::get_ticket(&env, ticket_id).unwrap().used);
    assert_eq!(
        LumentixContract::refund_ticket(&mut env, ticket_id, buyer),
        Err(LumentixError::TicketAlreadyUsed)
    );
    // Someone else is told that the ticket is not theirs.
    assert_eq!(
        LumentixContract::refund_ticket(&mut env, ticket_id, organizer),
        Err(LumentixError::Unauthorized)
    );
    let ticket = LumentixContract::get_ticket(&env, ticket_id).unwrap();
    assert!(ticket.used);
    assert!(!ticket.refunded);
}

#[test]
fn purchase_fits_tells_when_the_balances_are_full() {
    let (mut env, admin) = initialized_env();
    let organizer = Address::from_str("organizer");
    LumentixContract::set_platform_fee(&mut env, admin, 5000).unwrap();
    let event_id = published_event(&mut env, &organizer, 100, 10);
    assert!(LumentixContract::purchase_fits(&env, event_id, 100));
    // A call that is refused anyway fits.
    assert!(LumentixContract::purchase_fits(&env, event_id, 0));
    assert!(LumentixContract::purchase_fits(&env, event_id, 99));
    assert!(LumentixContract::purchase_fits(&env, event_id + 1, i128::MAX));
    // Half of the payment goes to either balance.
    assert!(LumentixContract::purchase_fits(&env, event_id, i128::MAX));

    env.platform_balance = i128::MAX - 49;
    assert!(!LumentixContract::purchase_fits(&env, event_id, 100));
    assert!(LumentixContract::purchase_fits(&env, event_id, 99));
    env.platform_balance = 0;
    env.escrow.insert(event_id, i128::MAX - 49);
    assert!(!LumentixContract::purchase_fits(&env, event_id, 100));
    env.escrow.insert(event_id, i128::MAX - 50);
    assert!(LumentixContract::purchase_fits(&env, event_id, 100));
    env.next_ticket_id = u64::MAX;
    assert!(!LumentixContract::purchase_fits(&env, event_id, 100));
}

#[test]
fn well_formedness_is_checked_record_by_record() {
    let (mut env, _admin) = initialized_env();
    let organizer = Address::from_str("organizer");
    let event_id = published_event(&mut env, &organizer, 100, 2);
    let ticket_id =
        LumentixContract::purchase_ticket(&mut env, Address::from_str("buyer"), event_id, 100)
            .unwrap();
    assert!(env.is_well_formed());

    env.platform_fee_bps = 10001;
    assert!(!env.is_well_formed());
    env.platform_fee_bps = 10000;
    assert!(env.is_well_formed());

    env.platform_balance = -1;
    assert!(!env.is_well_formed());
    env.platform_balance = 0;

    let mut event = LumentixContract::get_event(&env, event_id).unwrap();
    event.tickets_sold = 3;
    env.events.insert(event_id, event.clone());
    assert!(!env.is_well_formed());
    event.tickets_sold = 1;
    env.events.insert(event_id, event.clone());
    assert!(env.is_well_formed());
    // An event under a foreign id.
    env.events.insert(event_id + 1, event.clone());
    assert!(!env.is_well_formed());
    env.events.remove(&(event_id + 1));
    assert!(env.is_well_formed());

    let mut ticket = LumentixContract::get_ticket(&env, ticket_id).unwrap();
    ticket.used = true;
    ticket.refunded = true;
    env.tickets.insert(ticket_id, ticket.clone());
    assert!(!env.is_well_formed());
    ticket.refunded = false;
    ticket.event_id = 99;
    env.tickets.insert(ticket_id, ticket.clone());
    assert!(!env.is_well_formed());
    ticket.event_id = event_id;
    env.tickets.insert(ticket_id, ticket);
    assert!(env.is_well_formed());

    env.escrow.insert(5, -1);
    assert!(!env.is_well_formed());
    env.escrow.insert(5, 0);
    assert!(env.is_well_formed());

    env.next_ticket_id = 1;
    assert!(!env.is_well_formed());
    env.next_ticket_id = 2;
    env.admin = None;
    assert!(!env.is_well_formed());
}

#[test]
fn event_well_formedness() {
    let mut event = Event {
        id: 1,
        organizer: Address::from_str("organizer"),
        name: String::from("Show"),
        description: String::new(),
        location: String::new(),
        start_time: 1,
        end_time: 2,
        ticket_price: 1,
        max_tickets: 1,
        tickets_sold: 1,
        status: EventStatus::Draft,
    };
    assert!(event.is_well_formed());
    assert_eq!(event.clone(), event);
    event.tickets_sold = 2;
    assert!(!event.is_well_formed());
    event.tickets_sold = 0;
    event.max_tickets = 0;
    assert!(!event.is_well_formed());
    event.max_tickets = 1;
    event.end_time = 1;
    assert!(!event.is_well_formed());
    event.end_time = 2;
    event.ticket_price = 0;
    assert!(!event.is_well_formed());
}
