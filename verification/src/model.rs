//! Mathematical model of the event lifecycle.
//!
//! `EventState` is the ghost view of the contract state: one field per
//! durable slot.  Every operation of the contract is modelled here as a
//! total transition function from a state and the operation's inputs to
//! the next state and the operation's result.  The executable methods in
//! the crate root are proved to follow these transitions exactly, and the
//! laws in `laws` are proved about the transitions themselves.

use vstd::prelude::*;

verus! {

/// A caller identity: the durable, opaque address value of the host is
/// carried through the logic as a plain numeric id (the shell around the
/// library keeps the address-to-id correspondence).
#[derive(Clone, Copy, PartialEq, Eq, Structural, Debug)]
pub struct Identity(pub u64);

/// One attendance record: the attendee and the reward amount that was
/// current when the attendee first checked in (locked into the record).
#[derive(Clone, Copy, PartialEq, Eq, Structural, Debug)]
pub struct AttendanceRecord {
    pub who: Identity,
    pub reward: i128,
}

/// One payment instruction emitted by a reward distribution pass.
#[derive(Clone, Copy, PartialEq, Eq, Structural, Debug)]
pub struct Payment {
    pub to: Identity,
    pub amount: i128,
}

/// The closed error taxonomy of the contract.  Every failing operation
/// reports exactly one of these and leaves the state unchanged.
#[derive(Clone, Copy, PartialEq, Eq, Structural, Debug)]
pub enum EventError {
    AlreadyInitialized,
    AdminNotSet,
    NotAuthorized,
    CodeNotSet,
    InvalidCode,
    OutsideWindow,
    AlreadyCheckedIn,
    AlreadyDistributed,
    EndTimeNotSet,
    SessionNotOver,
    AuthenticationFailed,
}

/// Reward paid per attendee when no amount was ever configured.
pub const DEFAULT_REWARD: i128 = 100;

/// Ghost view of the whole contract state.
#[verifier::ext_equal]
pub struct EventState {
    pub admin: Option<Identity>,
    pub code: Option<Seq<u8>>,
    pub start_time: Option<u64>,
    pub end_time: Option<u64>,
    pub reward_amount: Option<i128>,
    pub records: Seq<AttendanceRecord>,
    pub attendees: Seq<Identity>,
    pub distributed: bool,
}

/// The roster a record sequence induces: the recorded identities, in
/// record order.
pub open spec fn roster_of(records: Seq<AttendanceRecord>) -> Seq<Identity> {
    records.map_values(|r: AttendanceRecord| r.who)
}

impl EventState {
    /// The state of a freshly deployed contract: every slot absent.
    pub open spec fn initial() -> EventState {
        EventState {
            admin: None,
            code: None,
            start_time: None,
            end_time: None,
            reward_amount: None,
            records: Seq::empty(),
            attendees: Seq::empty(),
            distributed: false,
        }
    }

    /// Well-formedness: the roster lists exactly the recorded attendees,
    /// in record order, and no identity appears twice.
    pub open spec fn wf(self) -> bool {
        &&& self.attendees == roster_of(self.records)
        &&& forall|i: int, j: int|
            0 <= i < j < self.attendees.len() ==> self.attendees[i] != self.attendees[j]
    }

    /// The reward amount an attendee checking in right now would lock in.
    pub open spec fn current_reward(self) -> i128 {
        match self.reward_amount {
            Some(a) => a,
            None => DEFAULT_REWARD as i128,
        }
    }

    /// Whether an identity is on the roster.
    pub open spec fn has_attended(self, who: Identity) -> bool {
        self.attendees.contains(who)
    }

    /// Whether an attendance record exists for an identity.
    pub open spec fn record_exists(self, who: Identity) -> bool {
        exists|i: int| 0 <= i < self.records.len() && self.records[i].who == who
    }

    /// The time-window rule: it restricts check-in only when both bounds
    /// are present, and both bounds are inclusive.
    pub open spec fn window_ok(self, now: u64) -> bool {
        (self.start_time is Some && self.end_time is Some) ==> (self.start_time->0 <= now
            && now <= self.end_time->0)
    }

    /// The admin gate shared by every admin-only operation.
    pub open spec fn admin_gate(self, caller: Identity) -> Result<(), EventError> {
        match self.admin {
            None => Err(EventError::AdminNotSet),
            Some(a) => if caller == a {
                Ok(())
            } else {
                Err(EventError::NotAuthorized)
            },
        }
    }

    /// Transition of `init_admin`: first caller wins, exactly once.
    pub open spec fn init_admin(self, admin: Identity) -> (EventState, Result<(), EventError>) {
        if self.admin is Some {
            (self, Err(EventError::AlreadyInitialized))
        } else {
            ((EventState { admin: Some(admin), ..self }), Ok(()))
        }
    }

    /// Transition of `set_code`: admin-gated unconditional overwrite.
    pub open spec fn set_code(self, caller: Identity, code: Seq<u8>) -> (
        EventState,
        Result<(), EventError>,
    ) {
        match self.admin_gate(caller) {
            Err(e) => (self, Err(e)),
            Ok(_) => ((EventState { code: Some(code), ..self }), Ok(())),
        }
    }

    /// Transition of `set_time_window`: admin-gated overwrite of both
    /// bounds; no validation of `start <= end` is performed.
    pub open spec fn set_time_window(self, caller: Identity, start: u64, end: u64) -> (
        EventState,
        Result<(), EventError>,
    ) {
        match self.admin_gate(caller) {
            Err(e) => (self, Err(e)),
            Ok(_) => (
                (EventState { start_time: Some(start), end_time: Some(end), ..self }),
                Ok(()),
            ),
        }
    }

    /// Transition of `set_reward_amount`: admin-gated overwrite; negative
    /// amounts are not rejected.
    pub open spec fn set_reward_amount(self, caller: Identity, amount: i128) -> (
        EventState,
        Result<(), EventError>,
    ) {
        match self.admin_gate(caller) {
            Err(e) => (self, Err(e)),
            Ok(_) => ((EventState { reward_amount: Some(amount), ..self }), Ok(())),
        }
    }

    /// Transition of `attend`.  The checks run in this order: caller
    /// self-authorization, code present, code match, time window,
    /// no earlier check-in.  On success the current reward is locked into
    /// a new record and the caller is appended to the roster.
    pub open spec fn attend(self, user: Identity, code: Seq<u8>, authorized: bool, now: u64) -> (
        EventState,
        Result<(), EventError>,
    ) {
        if !authorized {
            (self, Err(EventError::AuthenticationFailed))
        } else if self.code is None {
            (self, Err(EventError::CodeNotSet))
        } else if self.code->0 != code {
            (self, Err(EventError::InvalidCode))
        } else if !self.window_ok(now) {
            (self, Err(EventError::OutsideWindow))
        } else if self.has_attended(user) {
            (self, Err(EventError::AlreadyCheckedIn))
        } else {
            (
                (EventState {
                    records: self.records.push(
                        AttendanceRecord { who: user, reward: self.current_reward() },
                    ),
                    attendees: self.attendees.push(user),
                    ..self
                }),
                Ok(()),
            )
        }
    }

    /// The payment instructions a distribution pass emits: one per roster
    /// entry, in roster order, each for the reward amount current at
    /// distribution time (the source re-reads the current amount rather
    /// than the per-record locked one; the locked values stay available in
    /// the records).
    pub open spec fn payments(self) -> Seq<Payment> {
        Seq::new(
            self.attendees.len(),
            |i: int| Payment { to: self.attendees[i], amount: self.current_reward() },
        )
    }

    /// Transition of `distribute_rewards`.  The checks run in this order:
    /// admin gate, one-shot flag, end bound present, session over (the end
    /// bound is inclusive for check-in, so distribution at `now == end` is
    /// allowed).  On success the flag is set and the payment list returned.
    pub open spec fn distribute_rewards(self, caller: Identity, now: u64) -> (
        EventState,
        Result<Seq<Payment>, EventError>,
    ) {
        match self.admin_gate(caller) {
            Err(e) => (self, Err(e)),
            Ok(_) => if self.distributed {
                (self, Err(EventError::AlreadyDistributed))
            } else if self.end_time is None {
                (self, Err(EventError::EndTimeNotSet))
            } else if now < self.end_time->0 {
                (self, Err(EventError::SessionNotOver))
            } else {
                ((EventState { distributed: true, ..self }), Ok(self.payments()))
            },
        }
    }
}

} // verus!
