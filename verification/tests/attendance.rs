use event_attendance::AttendanceContract;
use event_attendance::EventError;
use event_attendance::Identity;
use event_attendance::Payment;

fn code() -> Vec<u8> {
    b"ABC123".to_vec()
}

#[test]
fn init_admin_first_caller_wins() {
    let mut c = AttendanceContract::new();
    assert_eq!(c.init_admin(Identity(1)), Ok(()));
    assert_eq!(c.init_admin(Identity(2)), Err(EventError::AlreadyInitialized));
    // the second caller never became admin
    assert_eq!(c.set_code(Identity(2), code()), Err(EventError::NotAuthorized));
    assert_eq!(c.set_code(Identity(1), code()), Ok(()));
}

#[test]
fn admin_ops_fail_before_init() {
    let mut c = AttendanceContract::new();
    assert_eq!(c.set_code(Identity(1), code()), Err(EventError::AdminNotSet));
    assert_eq!(c.set_time_window(Identity(1), 1, 2), Err(EventError::AdminNotSet));
    assert_eq!(c.set_reward_amount(Identity(1), 5), Err(EventError::AdminNotSet));
    assert_eq!(c.distribute_rewards(Identity(1), 9), Err(EventError::AdminNotSet));
}

#[test]
fn admin_ops_reject_non_admin_and_mutate_nothing() {
    let mut c = AttendanceContract::new();
    assert_eq!(c.init_admin(Identity(1)), Ok(()));
    assert_eq!(c.set_code(Identity(1), code()), Ok(()));
    assert_eq!(c.set_time_window(Identity(1), 1000, 2000), Ok(()));
    assert_eq!(c.set_reward_amount(Identity(1), 50), Ok(()));

    let intruder = Identity(99);
    assert_eq!(c.set_code(intruder, b"OTHER".to_vec()), Err(EventError::NotAuthorized));
    assert_eq!(c.set_time_window(intruder, 0, 9), Err(EventError::NotAuthorized));
    assert_eq!(c.set_reward_amount(intruder, 1), Err(EventError::NotAuthorized));
    assert_eq!(c.distribute_rewards(intruder, 9999), Err(EventError::NotAuthorized));

    // nothing the calls would have mutated changed
    assert_eq!(c.code, Some(code()));
    assert_eq!(c.start_time, Some(1000));
    assert_eq!(c.end_time, Some(2000));
    assert_eq!(c.reward_amount, Some(50));
    assert!(!c.distributed);
}

#[test]
fn attend_succeeds_once_then_already_checked_in() {
    let mut c = AttendanceContract::new();
    assert_eq!(c.init_admin(Identity(1)), Ok(()));
    assert_eq!(c.set_code(Identity(1), code()), Ok(()));
    let a = Identity(10);
    assert_eq!(c.attend(a, code(), true, 0), Ok(()));
    assert_eq!(c.attend(a, code(), true, 0), Err(EventError::AlreadyCheckedIn));
    // a wrong code on the second call fails earlier, with InvalidCode
    assert_eq!(c.attend(a, b"WRONG".to_vec(), true, 0), Err(EventError::InvalidCode));
    assert_eq!(c.get_attendees(), vec![a]);
}

#[test]
fn attend_error_precedence_and_variants() {
    let mut c = AttendanceContract::new();
    assert_eq!(c.init_admin(Identity(1)), Ok(()));
    let a = Identity(10);
    // authentication is checked first
    assert_eq!(c.attend(a, code(), false, 0), Err(EventError::AuthenticationFailed));
    // then the code must have been set
    assert_eq!(c.attend(a, code(), true, 0), Err(EventError::CodeNotSet));
    assert_eq!(c.set_code(Identity(1), code()), Ok(()));
    // then the presented code must match
    assert_eq!(c.attend(a, b"WRONG".to_vec(), true, 0), Err(EventError::InvalidCode));
    assert!(!c.has_attended(a));
}

#[test]
fn window_bounds_are_inclusive() {
    let mut c = AttendanceContract::new();
    assert_eq!(c.init_admin(Identity(1)), Ok(()));
    assert_eq!(c.set_code(Identity(1), code()), Ok(()));
    assert_eq!(c.set_time_window(Identity(1), 1000, 2000), Ok(()));
    assert_eq!(c.attend(Identity(10), code(), true, 999), Err(EventError::OutsideWindow));
    assert_eq!(c.attend(Identity(10), code(), true, 2001), Err(EventError::OutsideWindow));
    assert_eq!(c.attend(Identity(10), code(), true, 1000), Ok(()));
    assert_eq!(c.attend(Identity(11), code(), true, 2000), Ok(()));
}

#[test]
fn no_window_means_no_time_restriction() {
    let mut c = AttendanceContract::new();
    assert_eq!(c.init_admin(Identity(1)), Ok(()));
    assert_eq!(c.set_code(Identity(1), code()), Ok(()));
    assert_eq!(c.attend(Identity(10), code(), true, 0), Ok(()));
    assert_eq!(c.attend(Identity(11), code(), true, u64::MAX), Ok(()));
}

#[test]
fn inverted_window_is_accepted_and_blocks_check_in() {
    let mut c = AttendanceContract::new();
    assert_eq!(c.init_admin(Identity(1)), Ok(()));
    assert_eq!(c.set_code(Identity(1), code()), Ok(()));
    assert_eq!(c.set_time_window(Identity(1), 2000, 1000), Ok(()));
    assert_eq!(c.attend(Identity(10), code(), true, 1500), Err(EventError::OutsideWindow));
}

#[test]
fn roster_keeps_first_check_in_order_without_duplicates() {
    let mut c = AttendanceContract::new();
    assert_eq!(c.init_admin(Identity(1)), Ok(()));
    assert_eq!(c.set_code(Identity(1), code()), Ok(()));
    let (a, b, d) = (Identity(30), Identity(10), Identity(20));
    assert_eq!(c.attend(a, code(), true, 0), Ok(()));
    assert_eq!(c.attend(b, code(), true, 0), Ok(()));
    assert_eq!(c.attend(b, code(), true, 0), Err(EventError::AlreadyCheckedIn));
    assert_eq!(c.attend(d, code(), true, 0), Ok(()));
    assert_eq!(c.get_attendees(), vec![a, b, d]);
    assert!(c.has_attended(a) && c.has_attended(b) && c.has_attended(d));
    assert!(!c.has_attended(Identity(40)));
}

#[test]
fn distribute_requires_end_time_and_session_over() {
    let mut c = AttendanceContract::new();
    assert_eq!(c.init_admin(Identity(1)), Ok(()));
    assert_eq!(c.distribute_rewards(Identity(1), 5000), Err(EventError::EndTimeNotSet));
    assert_eq!(c.set_time_window(Identity(1), 1000, 2000), Ok(()));
    assert_eq!(c.distribute_rewards(Identity(1), 1999), Err(EventError::SessionNotOver));
    // the session is over from the end bound itself on
    assert_eq!(c.distribute_rewards(Identity(1), 2000), Ok(vec![]));
}

#[test]
fn distribute_is_one_shot() {
    let mut c = AttendanceContract::new();
    assert_eq!(c.init_admin(Identity(1)), Ok(()));
    assert_eq!(c.set_code(Identity(1), code()), Ok(()));
    assert_eq!(c.set_time_window(Identity(1), 1000, 2000), Ok(()));
    assert_eq!(c.attend(Identity(10), code(), true, 1500), Ok(()));
    assert_eq!(
        c.distribute_rewards(Identity(1), 2500),
        Ok(vec![Payment { to: Identity(10), amount: 100 }])
    );
    assert!(c.distributed);
    assert_eq!(c.distribute_rewards(Identity(1), 2500), Err(EventError::AlreadyDistributed));
    assert!(c.distributed);
}

#[test]
fn reward_defaults_to_100() {
    let mut c = AttendanceContract::new();
    assert_eq!(c.init_admin(Identity(1)), Ok(()));
    assert_eq!(c.set_code(Identity(1), code()), Ok(()));
    assert_eq!(c.set_time_window(Identity(1), 0, 10), Ok(()));
    assert_eq!(c.attend(Identity(10), code(), true, 5), Ok(()));
    assert_eq!(c.records[0].reward, 100);
    assert_eq!(
        c.distribute_rewards(Identity(1), 10),
        Ok(vec![Payment { to: Identity(10), amount: 100 }])
    );
}

#[test]
fn distribution_pays_the_current_amount_while_records_keep_the_locked_one() {
    let mut c = AttendanceContract::new();
    assert_eq!(c.init_admin(Identity(1)), Ok(()));
    assert_eq!(c.set_code(Identity(1), code()), Ok(()));
    assert_eq!(c.set_time_window(Identity(1), 0, 10), Ok(()));
    assert_eq!(c.set_reward_amount(Identity(1), 50), Ok(()));
    assert_eq!(c.attend(Identity(10), code(), true, 5), Ok(()));
    // a later change of the amount does not rewrite the record ...
    assert_eq!(c.set_reward_amount(Identity(1), 70), Ok(()));
    assert_eq!(c.records[0].reward, 50);
    // ... but the distribution pass re-reads the current amount
    assert_eq!(
        c.distribute_rewards(Identity(1), 10),
        Ok(vec![Payment { to: Identity(10), amount: 70 }])
    );
}

#[test]
fn negative_reward_is_accepted_verbatim() {
    let mut c = AttendanceContract::new();
    assert_eq!(c.init_admin(Identity(1)), Ok(()));
    assert_eq!(c.set_reward_amount(Identity(1), -5), Ok(()));
    assert_eq!(c.set_code(Identity(1), code()), Ok(()));
    assert_eq!(c.attend(Identity(10), code(), true, 0), Ok(()));
    assert_eq!(c.records[0].reward, -5);
}

#[test]
fn code_can_be_overwritten() {
    let mut c = AttendanceContract::new();
    assert_eq!(c.init_admin(Identity(1)), Ok(()));
    assert_eq!(c.set_code(Identity(1), b"FIRST".to_vec()), Ok(()));
    assert_eq!(c.set_code(Identity(1), b"SECOND".to_vec()), Ok(()));
    assert_eq!(c.attend(Identity(10), b"FIRST".to_vec(), true, 0), Err(EventError::InvalidCode));
    assert_eq!(c.attend(Identity(10), b"SECOND".to_vec(), true, 0), Ok(()));
}

#[test]
fn full_event_scenario() {
    let mut c = AttendanceContract::new();
    let admin = Identity(1);
    let x = Identity(10);
    let y = Identity(11);
    assert_eq!(c.init_admin(admin), Ok(()));
    assert_eq!(c.set_code(admin, code()), Ok(()));
    assert_eq!(c.set_time_window(admin, 1000, 2000), Ok(()));
    assert_eq!(c.set_reward_amount(admin, 50), Ok(()));

    assert_eq!(c.attend(x, code(), true, 1500), Ok(()));
    assert!(c.has_attended(x));

    assert_eq!(c.attend(y, code(), true, 2500), Err(EventError::OutsideWindow));
    assert!(!c.has_attended(y));

    let payments = c.distribute_rewards(admin, 2500).unwrap();
    assert_eq!(payments, vec![Payment { to: x, amount: 50 }]);
    assert!(c.distributed);
}
