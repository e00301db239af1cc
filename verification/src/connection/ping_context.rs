use vstd::prelude::*;

verus! {

/// A ping that was sent to the peer, with the time by which its pong is due.
///
/// Times are nanoseconds on the connection's clock.
#[derive(Debug, Clone)]
pub struct PingContext {
    payload: Vec<u8>,
    deadline: u128,
}

/// The mathematical value of a [`PingContext`].
pub struct PingRecord {
    /// The bytes the ping carried.
    pub payload: Seq<u8>,
    /// The time by which the matching pong is due.
    pub deadline: int,
}

impl View for PingContext {
    type V = PingRecord;

    closed spec fn view(&self) -> PingRecord {
        PingRecord { payload: self.payload@, deadline: self.deadline as int }
    }
}

impl PingContext {
    /// A ping carrying `payload`, sent at `now`, whose pong is due `timeout`
    /// nanoseconds later.
    pub fn with_time(payload: Vec<u8>, timeout: u128, now: u128) -> (r: Self)
        requires
            now + timeout <= u128::MAX,
        ensures
            r@.payload == payload@,
            r@.deadline == now + timeout,
    {
        PingContext { payload, deadline: now + timeout }
    }

    /// The bytes the ping carried.
    pub fn payload(&self) -> (r: &Vec<u8>)
        ensures
            r@ == self@.payload,
    {
        &self.payload
    }

    /// The time by which the matching pong is due.
    pub fn deadline(&self) -> (r: &u128)
        ensures
            *r == self@.deadline,
    {
        &self.deadline
    }
}

} // verus!
