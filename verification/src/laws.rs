//! Laws of the event lifecycle, proved over the transition functions of
//! [`EventState`].

use vstd::prelude::*;

verus! {

use crate::model::AttendanceRecord;
use crate::model::EventError;
use crate::model::EventState;
use crate::model::Identity;
use crate::model::Payment;
use crate::model::roster_of;

/// The administrator can be set at most once: on a fresh state
/// `init_admin` succeeds and records the caller; once any admin is
/// recorded, a second `init_admin` fails with `AlreadyInitialized`, the
/// state stays as it was, and the recorded admin is never overwritten.
pub proof fn lemma_init_admin_at_most_once(s: EventState, a: Identity, b: Identity)
    ensures
        s.admin is None ==> s.init_admin(a).1 == Ok::<(), EventError>(()),
        s.admin is None ==> s.init_admin(a).0.admin == Some(a),
        ({
            let (s1, r1) = s.init_admin(a);
            r1 == Ok::<(), EventError>(()) ==> {
                &&& s1.init_admin(b).1 == Err::<(), EventError>(EventError::AlreadyInitialized)
                &&& s1.init_admin(b).0 == s1
                &&& s1.init_admin(b).0.admin == Some(a)
            }
        }),
{
}

/// On a well-formed state, an attendance record exists for an identity
/// exactly when that identity is on the roster: the roster is the set of
/// recorded attendees.
pub proof fn lemma_record_exists_is_roster_membership(s: EventState, who: Identity)
    requires
        s.wf(),
    ensures
        s.record_exists(who) == s.has_attended(who),
{
    if s.record_exists(who) {
        let i = choose|i: int| 0 <= i < s.records.len() && s.records[i].who == who;
        assert(s.attendees[i] == roster_of(s.records)[i]);
        assert(s.attendees[i] == who);
        assert(s.attendees.contains(who));
    }
    if s.has_attended(who) {
        let i = choose|i: int| 0 <= i < s.attendees.len() && s.attendees[i] == who;
        assert(s.attendees[i] == roster_of(s.records)[i]);
        assert(s.records[i].who == who);
        assert(s.record_exists(who));
    }
}

/// `attend` preserves well-formedness; a failing call leaves the state
/// untouched, and a successful call appends exactly the caller, who was
/// not on the roster before, to the roster.
pub proof fn lemma_attend_preserves_wf(
    s: EventState,
    user: Identity,
    code: Seq<u8>,
    authorized: bool,
    now: u64,
)
    requires
        s.wf(),
    ensures
        s.attend(user, code, authorized, now).0.wf(),
        s.attend(user, code, authorized, now).1 is Err ==> s.attend(
            user,
            code,
            authorized,
            now,
        ).0 == s,
        s.attend(user, code, authorized, now).1 == Ok::<(), EventError>(()) ==> {
            &&& !s.has_attended(user)
            &&& s.attend(user, code, authorized, now).0.attendees == s.attendees.push(user)
            &&& s.attend(user, code, authorized, now).0.records == s.records.push(
                (AttendanceRecord { who: user, reward: s.current_reward() }),
            )
        },
{
    let (s1, r) = s.attend(user, code, authorized, now);
    if r is Ok {
        assert(s.attendees.len() == s.records.len()) by {
            assert(s.attendees == roster_of(s.records));
        }
        assert(s1.attendees =~= roster_of(s1.records));
        assert forall|i: int, j: int|
            0 <= i < j < s1.attendees.len() implies s1.attendees[i] != s1.attendees[j] by {
            if j == s.attendees.len() {
                assert(s1.attendees[j] == user);
                assert(s1.attendees[i] == s.attendees[i]);
                if s.attendees[i] == user {
                    assert(s.attendees.contains(user));
                }
            } else {
                assert(s1.attendees[i] == s.attendees[i]);
                assert(s1.attendees[j] == s.attendees[j]);
            }
        }
    }
}

/// Every admin-only operation called past a failing admin check fails
/// with that check's error (`AdminNotSet` when no admin exists,
/// `NotAuthorized` when the caller is a different identity) and mutates
/// nothing.
pub proof fn lemma_admin_ops_guarded(
    s: EventState,
    caller: Identity,
    code: Seq<u8>,
    start: u64,
    end: u64,
    amount: i128,
    now: u64,
)
    requires
        s.admin_gate(caller) is Err,
    ensures
        s.set_code(caller, code) == (s, Err::<(), EventError>(s.admin_gate(caller)->Err_0)),
        s.set_time_window(caller, start, end) == (
            s,
            Err::<(), EventError>(s.admin_gate(caller)->Err_0),
        ),
        s.set_reward_amount(caller, amount) == (
            s,
            Err::<(), EventError>(s.admin_gate(caller)->Err_0),
        ),
        s.distribute_rewards(caller, now) == (
            s,
            Err::<Seq<Payment>, EventError>(s.admin_gate(caller)->Err_0),
        ),
        s.admin matches Some(a) && caller != a ==> s.admin_gate(caller) == Err::<
            (),
            EventError,
        >(EventError::NotAuthorized),
        s.admin is None ==> s.admin_gate(caller) == Err::<(), EventError>(EventError::AdminNotSet),
{
}

/// An attendee checks in at most once: after a successful `attend`, a
/// second `attend` by the same identity never succeeds and never changes
/// the state; when the second call passes authentication, presents the
/// stored code and falls inside the window, its error is exactly
/// `AlreadyCheckedIn` (an earlier check may otherwise fail first, e.g.
/// with `InvalidCode`).
pub proof fn lemma_attend_at_most_once(
    s: EventState,
    user: Identity,
    code1: Seq<u8>,
    code2: Seq<u8>,
    auth2: bool,
    now1: u64,
    now2: u64,
)
    requires
        s.wf(),
        s.attend(user, code1, true, now1).1 == Ok::<(), EventError>(()),
    ensures
        ({
            let s1 = s.attend(user, code1, true, now1).0;
            let (s2, r2) = s1.attend(user, code2, auth2, now2);
            &&& s2 == s1
            &&& r2 is Err
            &&& (auth2 && s1.code == Some(code2) && s1.window_ok(now2)) ==> r2 == Err::<
                (),
                EventError,
            >(EventError::AlreadyCheckedIn)
        }),
{
    let s1 = s.attend(user, code1, true, now1).0;
    assert(s1.attendees == s.attendees.push(user));
    assert(s1.attendees[s.attendees.len() as int] == user);
    assert(s1.has_attended(user));
}

/// The window bounds are inclusive: with both bounds set and the stored
/// code presented by an authenticated caller, `attend` strictly before
/// `start` or strictly after `end` fails with `OutsideWindow`, while
/// `attend` exactly at `start` or at `end` of a non-inverted window
/// succeeds for a caller not yet checked in.
pub proof fn lemma_window_bounds_inclusive(
    s: EventState,
    user: Identity,
    code: Seq<u8>,
    start: u64,
    end: u64,
    now: u64,
)
    requires
        s.start_time == Some(start),
        s.end_time == Some(end),
        s.code == Some(code),
    ensures
        now < start || now > end ==> s.attend(user, code, true, now) == (
            s,
            Err::<(), EventError>(EventError::OutsideWindow),
        ),
        start <= end && (now == start || now == end) && !s.has_attended(user) ==> s.attend(
            user,
            code,
            true,
            now,
        ).1 == Ok::<(), EventError>(()),
{
}

/// Every operation other than `attend` leaves the roster and the records
/// untouched and so preserves well-formedness; together with
/// `lemma_attend_preserves_wf` this shows that after any sequence of
/// operations the roster lists the attendees in first-check-in order with
/// no duplicates.
pub proof fn lemma_other_ops_preserve_roster(
    s: EventState,
    caller: Identity,
    a: Identity,
    code: Seq<u8>,
    start: u64,
    end: u64,
    amount: i128,
    now: u64,
)
    requires
        s.wf(),
    ensures
        s.init_admin(a).0.attendees == s.attendees && s.init_admin(a).0.records == s.records
            && s.init_admin(a).0.wf(),
        s.set_code(caller, code).0.attendees == s.attendees && s.set_code(caller, code).0.records
            == s.records && s.set_code(caller, code).0.wf(),
        s.set_time_window(caller, start, end).0.attendees == s.attendees && s.set_time_window(
            caller,
            start,
            end,
        ).0.records == s.records && s.set_time_window(caller, start, end).0.wf(),
        s.set_reward_amount(caller, amount).0.attendees == s.attendees && s.set_reward_amount(
            caller,
            amount,
        ).0.records == s.records && s.set_reward_amount(caller, amount).0.wf(),
        s.distribute_rewards(caller, now).0.attendees == s.attendees && s.distribute_rewards(
            caller,
            now,
        ).0.records == s.records && s.distribute_rewards(caller, now).0.wf(),
{
}

/// The admin identity, once set, is immutable: no operation changes it,
/// and `init_admin` sets it only from the unset state.
pub proof fn lemma_admin_immutable(
    s: EventState,
    caller: Identity,
    a: Identity,
    code: Seq<u8>,
    start: u64,
    end: u64,
    amount: i128,
    authorized: bool,
    now: u64,
)
    ensures
        s.admin is Some ==> s.init_admin(a).0.admin == s.admin,
        s.set_code(caller, code).0.admin == s.admin,
        s.set_time_window(caller, start, end).0.admin == s.admin,
        s.set_reward_amount(caller, amount).0.admin == s.admin,
        s.attend(caller, code, authorized, now).0.admin == s.admin,
        s.distribute_rewards(caller, now).0.admin == s.admin,
{
}

/// Rewards are distributed at most once: a successful pass sets the
/// one-shot flag, and any later pass by the same administrator fails with
/// `AlreadyDistributed`, changes nothing, and leaves the flag set.
pub proof fn lemma_distribute_at_most_once(s: EventState, caller: Identity, now1: u64, now2: u64)
    ensures
        ({
            let (s1, r1) = s.distribute_rewards(caller, now1);
            r1 is Ok ==> {
                &&& s1.distributed
                &&& s1.distribute_rewards(caller, now2) == (
                    s1,
                    Err::<Seq<Payment>, EventError>(EventError::AlreadyDistributed),
                )
                &&& s1.distribute_rewards(caller, now2).0.distributed
            }
        }),
{
}

} // verus!
