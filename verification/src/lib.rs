//! A single-event attendance-and-reward manager.
//!
//! An administrator configures an event (secret code, check-in time
//! window, flat reward amount), attendees check in once each by
//! presenting the code, and after the window closes the administrator
//! triggers a one-time distribution pass that emits one payment
//! instruction per attendee.  The state lives in an explicit
//! [`AttendanceContract`] aggregate; the durable store, the clock, the
//! caller-authentication mechanism and the actual value transfer are the
//! host's business and stay outside this crate.
//!
//! Every operation is specified against the transition functions of
//! [`model::EventState`], the ghost view of the state; the laws that hold
//! of those transitions are proved in [`laws`].

use vstd::prelude::*;

pub mod laws;
pub mod model;
pub mod storage;

pub use model::AttendanceRecord;
pub use model::DEFAULT_REWARD;
pub use model::EventError;
pub use model::EventState;
pub use model::Identity;
pub use model::Payment;

verus! {

/// The event lifecycle state, one field per durable slot.
pub struct AttendanceContract {
    pub admin: Option<Identity>,
    pub code: Option<Vec<u8>>,
    pub start_time: Option<u64>,
    pub end_time: Option<u64>,
    pub reward_amount: Option<i128>,
    pub records: Vec<AttendanceRecord>,
    pub attendees: Vec<Identity>,
    pub distributed: bool,
}

impl View for AttendanceContract {
    type V = EventState;

    open spec fn view(&self) -> EventState {
        EventState {
            admin: self.admin,
            code: match self.code {
                Some(c) => Some(c@),
                None => None,
            },
            start_time: self.start_time,
            end_time: self.end_time,
            reward_amount: self.reward_amount,
            records: self.records@,
            attendees: self.attendees@,
            distributed: self.distributed,
        }
    }
}

/// Byte-wise equality of two byte strings, used to compare a presented
/// event code against the stored one.
fn bytes_eq(a: &Vec<u8>, b: &Vec<u8>) -> (r: bool)
    ensures
        r == (a@ == b@),
{
    if a.len() != b.len() {
        assert(a@ != b@) by {
            assert(a@.len() != b@.len());
        }
        return false;
    }
    let n: usize = a.len();
    let mut i: usize = 0;
    while i < n
        invariant
            n == a@.len() == b@.len(),
            0 <= i <= n,
            forall|k: int| 0 <= k < i ==> a@[k] == b@[k],
        decreases n - i,
    {
        if a[i] != b[i] {
            return false;
        }
        i += 1;
    }
    assert(a@ =~= b@);
    true
}

impl AttendanceContract {
    /// A freshly deployed contract: every slot absent.
    pub fn new() -> (r: AttendanceContract)
        ensures
            r@ == EventState::initial(),
            r@.wf(),
    {
        let r = AttendanceContract {
            admin: None,
            code: None,
            start_time: None,
            end_time: None,
            reward_amount: None,
            records: Vec::new(),
            attendees: Vec::new(),
            distributed: false,
        };
        assert(r@ =~= EventState::initial());
        assert(r@.attendees =~= model::roster_of(r@.records));
        r
    }

    /// Record the administrator identity; first caller wins, exactly once.
    pub fn init_admin(&mut self, admin: Identity) -> (r: Result<(), EventError>)
        ensures
            final(self)@ == old(self)@.init_admin(admin).0,
            r == old(self)@.init_admin(admin).1,
    {
        if self.admin.is_some() {
            return Err(EventError::AlreadyInitialized);
        }
        self.admin = Some(admin);
        assert(self@ =~= old(self)@.init_admin(admin).0);
        Ok(())
    }

    /// The admin gate: `AdminNotSet` when no admin was ever recorded,
    /// `NotAuthorized` when the caller is a different identity.
    fn require_admin(&self, caller: Identity) -> (r: Result<(), EventError>)
        ensures
            r == self@.admin_gate(caller),
    {
        match self.admin {
            None => Err(EventError::AdminNotSet),
            Some(a) => if a == caller {
                Ok(())
            } else {
                Err(EventError::NotAuthorized)
            },
        }
    }

    /// Overwrite the event code (admin only).
    pub fn set_code(&mut self, caller: Identity, code: Vec<u8>) -> (r: Result<(), EventError>)
        requires
            old(self)@.wf(),
        ensures
            final(self)@ == old(self)@.set_code(caller, code@).0,
            r == old(self)@.set_code(caller, code@).1,
            final(self)@.wf(),
    {
        if let Err(e) = self.require_admin(caller) {
            return Err(e);
        }
        self.code = Some(code);
        assert(self@ =~= old(self)@.set_code(caller, code@).0);
        Ok(())
    }

    /// Overwrite both time-window bounds (admin only); inverted windows
    /// are not rejected.
    pub fn set_time_window(&mut self, caller: Identity, start: u64, end: u64) -> (r: Result<
        (),
        EventError,
    >)
        requires
            old(self)@.wf(),
        ensures
            final(self)@ == old(self)@.set_time_window(caller, start, end).0,
            r == old(self)@.set_time_window(caller, start, end).1,
            final(self)@.wf(),
    {
        if let Err(e) = self.require_admin(caller) {
            return Err(e);
        }
        self.start_time = Some(start);
        self.end_time = Some(end);
        assert(self@ =~= old(self)@.set_time_window(caller, start, end).0);
        Ok(())
    }

    /// Overwrite the flat reward amount (admin only); negative amounts
    /// are not rejected.
    pub fn set_reward_amount(&mut self, caller: Identity, amount: i128) -> (r: Result<
        (),
        EventError,
    >)
        requires
            old(self)@.wf(),
        ensures
            final(self)@ == old(self)@.set_reward_amount(caller, amount).0,
            r == old(self)@.set_reward_amount(caller, amount).1,
            final(self)@.wf(),
    {
        if let Err(e) = self.require_admin(caller) {
            return Err(e);
        }
        self.reward_amount = Some(amount);
        assert(self@ =~= old(self)@.set_reward_amount(caller, amount).0);
        Ok(())
    }

    /// Check the caller in.  `authorized` is the verdict of the host's
    /// caller-authentication mechanism for `user` on this call; the
    /// remaining checks run in the modelled order: code present, code
    /// match, time window (inclusive bounds, enforced only when both are
    /// set), no earlier check-in.  On success the current reward amount is
    /// locked into a new record and `user` is appended to the roster.
    pub fn attend(&mut self, user: Identity, code: Vec<u8>, authorized: bool, now: u64) -> (r:
        Result<(), EventError>)
        requires
            old(self)@.wf(),
        ensures
            final(self)@ == old(self)@.attend(user, code@, authorized, now).0,
            r == old(self)@.attend(user, code@, authorized, now).1,
            final(self)@.wf(),
    {
        if !authorized {
            return Err(EventError::AuthenticationFailed);
        }
        let code_matches: bool = match &self.code {
            None => {
                return Err(EventError::CodeNotSet);
            },
            Some(stored) => bytes_eq(stored, &code),
        };
        if !code_matches {
            return Err(EventError::InvalidCode);
        }
        if let (Some(start), Some(end)) = (self.start_time, self.end_time) {
            if !(start <= now && now <= end) {
                return Err(EventError::OutsideWindow);
            }
        }
        if self.has_attended(user) {
            return Err(EventError::AlreadyCheckedIn);
        }
        let reward: i128 = match self.reward_amount {
            Some(a) => a,
            None => DEFAULT_REWARD,
        };
        self.records.push(AttendanceRecord { who: user, reward });
        storage::push_attendee(self, user);
        proof {
            let post = old(self)@.attend(user, code@, authorized, now).0;
            assert(self@ =~= post);
            crate::laws::lemma_attend_preserves_wf(old(self)@, user, code@, authorized, now);
        }
        Ok(())
    }

    /// Run the one-time distribution pass (admin only, once the session
    /// is over): returns one payment instruction per attendee, in roster
    /// order, each for the currently configured reward amount, and sets
    /// the one-shot flag.  The payments themselves are the external value
    /// transfer's business.
    pub fn distribute_rewards(&mut self, caller: Identity, now: u64) -> (r: Result<
        Vec<Payment>,
        EventError,
    >)
        requires
            old(self)@.wf(),
        ensures
            final(self)@ == old(self)@.distribute_rewards(caller, now).0,
            payments_match(r, old(self)@.distribute_rewards(caller, now).1),
            final(self)@.wf(),
    {
        if let Err(e) = self.require_admin(caller) {
            return Err(e);
        }
        if storage::is_reward_distributed(self) {
            return Err(EventError::AlreadyDistributed);
        }
        let end: u64 = match self.end_time {
            Some(e) => e,
            None => {
                return Err(EventError::EndTimeNotSet);
            },
        };
        if now < end {
            return Err(EventError::SessionNotOver);
        }
        let reward: i128 = match self.reward_amount {
            Some(a) => a,
            None => DEFAULT_REWARD,
        };
        let n: usize = self.attendees.len();
        let mut payments: Vec<Payment> = Vec::new();
        let mut i: usize = 0;
        while i < n
            invariant
                n == self@.attendees.len(),
                0 <= i <= n,
                reward == self@.current_reward(),
                payments@.len() == i,
                forall|k: int|
                    0 <= k < i ==> payments@[k] == (Payment {
                        to: self@.attendees[k],
                        amount: self@.current_reward(),
                    }),
            decreases n - i,
        {
            payments.push(Payment { to: self.attendees[i], amount: reward });
            i += 1;
        }
        storage::mark_reward_distributed(self);
        proof {
            assert(self@ =~= old(self)@.distribute_rewards(caller, now).0);
            assert(payments@ =~= old(self)@.payments());
        }
        Ok(payments)
    }

    /// The roster, verbatim: every attendee identity in first-check-in
    /// order, with no duplicates.  No authentication is required.
    pub fn get_attendees(&self) -> (r: Vec<Identity>)
        ensures
            r@ == self@.attendees,
    {
        storage::get_attendees(self)
    }

    /// Whether an attendance record exists for `user`.  No authentication
    /// is required.  On a well-formed state this coincides with roster
    /// membership.
    pub fn has_attended(&self, user: Identity) -> (r: bool)
        ensures
            r == self@.record_exists(user),
            self@.wf() ==> r == self@.has_attended(user),
    {
        let n: usize = self.records.len();
        let mut i: usize = 0;
        while i < n
            invariant
                n == self@.records.len(),
                0 <= i <= n,
                forall|k: int| 0 <= k < i ==> self@.records[k].who != user,
            decreases n - i,
        {
            if self.records[i].who == user {
                proof {
                    if self@.wf() {
                        crate::laws::lemma_record_exists_is_roster_membership(self@, user);
                    }
                }
                return true;
            }
            i += 1;
        }
        proof {
            if self@.wf() {
                crate::laws::lemma_record_exists_is_roster_membership(self@, user);
            }
        }
        false
    }
}

/// Whether an executable distribution result carries exactly the payment
/// list (or the error) that the modelled transition prescribes.
pub open spec fn payments_match(
    r: Result<Vec<Payment>, EventError>,
    s: Result<Seq<Payment>, EventError>,
) -> bool {
    match (r, s) {
        (Ok(v), Ok(ps)) => v@ == ps,
        (Err(e1), Err(e2)) => e1 == e2,
        _ => false,
    }
}

} // verus!
