//! The cooldown-gated "remark" command: replies with a canned remark, at
//! most once per cooldown interval.
//!
//! Gating itself is a pure step function from the stored timestamp and a
//! clock reading to a decision and a new timestamp; only reading the clock
//! goes through `now_ms`. The state is one explicitly owned cell with a
//! single writer; concurrent use would need the check and the update made
//! atomic.

use vstd::prelude::*;
use crate::db::{DB, remark_for};

verus! {

/// Minimum time between allowed invocations, in milliseconds.
pub const COOLDOWN_MS: u64 = 3 * 60 * 1000;

/// How a gated command fails: still cooling down, or nothing to reply with.
/// The two are distinct so a caller can react differently.
#[derive(Debug, Clone, Copy, PartialEq, Eq)]
pub enum Error {
    /// The command was invoked before its cooldown elapsed.
    Contact,
    /// The message carried no key, or the data source has no remark for it.
    NoData,
}

/// Time elapsed from `t` to `now`; zero when the clock went backwards.
pub open spec fn elapsed_ms(t: u64, now: u64) -> int {
    if now >= t {
        now - t
    } else {
        0
    }
}

/// Whether an attempt at `now` is allowed, given the last recorded
/// invocation: always on the first attempt, afterwards only once the
/// cooldown has elapsed.
pub open spec fn gate_allows(last: Option<u64>, now: u64) -> bool {
    match last {
        Option::None => true,
        Option::Some(t) => elapsed_ms(t, now) > COOLDOWN_MS,
    }
}

/// The timestamp stored after an attempt at `now`: updated when the
/// attempt was allowed, untouched otherwise.
pub open spec fn gate_next(last: Option<u64>, now: u64) -> Option<u64> {
    if gate_allows(last, now) {
        Option::Some(now)
    } else {
        last
    }
}

/// The remark stored for the message's key, if any.
pub open spec fn remark_reply(db: DB, msg: Option<&str>) -> Option<Seq<char>> {
    match msg {
        Option::Some(m) => remark_for(db.remarks@, m@),
        Option::None => Option::None,
    }
}

/// Relies on `std::time::SystemTime`: a clock reading in milliseconds.
/// The contract says nothing of the value; every reading is handled, a
/// clock gone backwards included.
#[verifier::external_body]
fn now_ms() -> u64 {
    std::time::SystemTime::now().duration_since(std::time::UNIX_EPOCH).map(
        |d| d.as_millis() as u64,
    ).unwrap_or(0)
}

/// The gated "remark" command's state: when it last ran.
pub struct Remark {
    /// Clock reading of the last allowed invocation, in milliseconds;
    /// `None` before the first.
    pub last_call: Option<u64>,
}

impl Remark {
    pub fn new() -> (r: Remark)
        ensures
            r.last_call is None,
    {
        Remark { last_call: Option::None }
    }

    pub fn get_last_call(&self) -> (r: Option<u64>)
        ensures
            r == self.last_call,
    {
        self.last_call
    }

    pub fn set_last_call(&mut self, now: u64)
        ensures
            final(self).last_call == Option::Some(now),
    {
        self.last_call = Option::Some(now);
    }

    /// One gate step at clock reading `now`: returns true when the command
    /// is still cooling down; otherwise records `now` as the last
    /// invocation.
    pub fn on_cooldown_at(&mut self, now: u64) -> (r: bool)
        ensures
            r == !gate_allows(old(self).last_call, now),
            final(self).last_call == gate_next(old(self).last_call, now),
    {
        match self.get_last_call() {
            Option::None => {
                self.set_last_call(now);
                false
            },
            Option::Some(t) => {
                let elapsed: u64 = if now >= t {
                    now - t
                } else {
                    0
                };
                if elapsed > COOLDOWN_MS {
                    self.set_last_call(now);
                    false
                } else {
                    true
                }
            },
        }
    }

    /// One gate step at the current clock reading: whatever the clock
    /// returned, the result and the new state agree with one gate step at
    /// that reading.
    pub fn on_cooldown(&mut self) -> (r: bool)
        ensures
            exists|now: u64|
                r == !gate_allows(old(self).last_call, now) && final(self).last_call == gate_next(
                    old(self).last_call,
                    now,
                ),
    {
        let now = now_ms();
        let r = self.on_cooldown_at(now);
        proof {
            assert(r == !gate_allows(old(self).last_call, now) && final(self).last_call
                == gate_next(old(self).last_call, now));
        }
        r
    }

    pub fn name(&self) -> (r: &'static str)
        ensures
            r@ == "remark"@,
    {
        "remark"
    }

    pub fn help(&self) -> (r: &'static str)
        ensures
            r@ == ""@,
    {
        ""
    }

    /// Runs the gated command at clock reading `now`: refused with
    /// `Error::Contact` while cooling down; otherwise the attempt is
    /// recorded and the stored remark is returned, or `Error::NoData` when
    /// there is none.
    pub fn run_at(&mut self, db: &DB, msg: Option<&str>, now: u64) -> (r: Result<String, Error>)
        ensures
            final(self).last_call == gate_next(old(self).last_call, now),
            !gate_allows(old(self).last_call, now) <==> r == Result::<String, Error>::Err(
                Error::Contact,
            ),
            gate_allows(old(self).last_call, now) ==> match r {
                Result::Ok(s) => remark_reply(*db, msg) == Option::Some(s@),
                Result::Err(e) => e == Error::NoData && remark_reply(*db, msg) is None,
            },
    {
        if self.on_cooldown_at(now) {
            Result::Err(Error::Contact)
        } else {
            match msg {
                Option::Some(m) => match db.get_remark(m) {
                    Option::Some(s) => Result::Ok(s),
                    Option::None => Result::Err(Error::NoData),
                },
                Option::None => Result::Err(Error::NoData),
            }
        }
    }

    /// Runs the gated command at the current clock reading.
    pub fn run(&mut self, db: &DB, msg: Option<&str>) -> (r: Result<String, Error>)
        ensures
            r matches Ok(s) ==> remark_reply(*db, msg) == Option::Some(s@)
                && final(self).last_call is Some,
            r == Result::<String, Error>::Err(Error::NoData) ==> remark_reply(*db, msg) is None,
            r == Result::<String, Error>::Err(Error::Contact) ==> *final(self) == *old(self)
                && old(self).last_call is Some,
    {
        let now = now_ms();
        self.run_at(db, msg, now)
    }
}

/// The first attempt is always allowed, and records its time.
pub proof fn lemma_first_attempt_allowed(now: u64)
    ensures
        gate_allows(Option::None, now),
        gate_next(Option::None, now) == Option::Some(now),
{
}

/// A retry within the cooldown of an allowed attempt is refused; in
/// particular an immediate retry, with nothing elapsed, is.
pub proof fn lemma_quick_retry_refused(last: Option<u64>, t: u64, now: u64)
    requires
        gate_allows(last, t),
        elapsed_ms(t, now) <= COOLDOWN_MS,
    ensures
        !gate_allows(gate_next(last, t), now),
{
}

/// Once more than the cooldown has elapsed, an attempt is allowed again.
pub proof fn lemma_retry_after_cooldown(t: u64, now: u64)
    requires
        elapsed_ms(t, now) > COOLDOWN_MS,
    ensures
        gate_allows(Option::Some(t), now),
{
}

} // verus!
