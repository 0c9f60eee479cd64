//! Roster and distribution-flag helpers, mirroring the slot helpers of
//! the durable store: append-only roster maintenance and the one-shot
//! distribution marker.

use vstd::prelude::*;

verus! {

use crate::AttendanceContract;
use crate::model::EventState;
use crate::model::Identity;

/// Whether an identity already stands in a roster vector.
fn contains_identity(v: &Vec<Identity>, x: Identity) -> (r: bool)
    ensures
        r == v@.contains(x),
{
    let n: usize = v.len();
    let mut i: usize = 0;
    while i < n
        invariant
            n == v@.len(),
            0 <= i <= n,
            forall|k: int| 0 <= k < i ==> v@[k] != x,
        decreases n - i,
    {
        if v[i] == x {
            assert(v@.contains(x));
            return true;
        }
        i += 1;
    }
    assert(!v@.contains(x));
    false
}

/// Append an identity to the roster unless it is already listed.
pub fn push_attendee(c: &mut AttendanceContract, addr: Identity)
    ensures
        old(c)@.attendees.contains(addr) ==> final(c)@ == old(c)@,
        !old(c)@.attendees.contains(addr) ==> final(c)@ == (EventState {
            attendees: old(c)@.attendees.push(addr),
            ..old(c)@
        }),
{
    if !contains_identity(&c.attendees, addr) {
        c.attendees.push(addr);
        assert(c@ =~= (EventState { attendees: old(c)@.attendees.push(addr), ..old(c)@ }));
    }
}

/// The roster, verbatim: every attendee in first-check-in order.
pub fn get_attendees(c: &AttendanceContract) -> (r: Vec<Identity>)
    ensures
        r@ == c@.attendees,
{
    let n: usize = c.attendees.len();
    let mut r: Vec<Identity> = Vec::new();
    let mut i: usize = 0;
    while i < n
        invariant
            n == c@.attendees.len(),
            0 <= i <= n,
            r@ =~= c@.attendees.subrange(0, i as int),
        decreases n - i,
    {
        r.push(c.attendees[i]);
        i += 1;
    }
    assert(r@ =~= c@.attendees);
    r
}

/// Set the one-shot distribution marker.
pub fn mark_reward_distributed(c: &mut AttendanceContract)
    ensures
        final(c)@ == (EventState { distributed: true, ..old(c)@ }),
{
    c.distributed = true;
    assert(c@ =~= (EventState { distributed: true, ..old(c)@ }));
}

/// Whether rewards were already distributed; absent means not yet.
pub fn is_reward_distributed(c: &AttendanceContract) -> (r: bool)
    ensures
        r == c@.distributed,
{
    c.distributed
}

} // verus!
