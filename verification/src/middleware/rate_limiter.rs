//! A limit on how many requests one address may make within a window of time.

use crate::text::same_text;
use std::time::Duration;
use vstd::prelude::*;

verus! {

/// Why a request was turned away.
#[derive(Debug, Clone, Copy, PartialEq, Eq, Structural)]
pub enum RateLimiterError {
    TooManyRequests,
}

/// What the limiter needs to know of a request.
pub struct RequestContext {
    pub ip_address: String,
}

/// The count kept for one address.
pub struct RequestRecord {
    pub ip_address: String,
    /// When the current window began, in nanoseconds since the start of 1970.
    pub window_start: u128,
    /// The requests counted in the current window.
    pub count: u32,
}

/// The limiter: at most `max_requests` requests per address within
/// `window_nanos` nanoseconds.
pub struct RateLimiter {
    pub requests: Vec<RequestRecord>,
    pub max_requests: u32,
    pub window_nanos: u128,
}

/// A check that a request has to pass before it is handled.
pub trait Middleware {
    fn handle(&mut self, ctx: &RequestContext) -> Result<(), RateLimiterError>;
}

/// Calls `std::time::Duration::as_nanos`. The length of the duration is not
/// visible to the proofs, so nothing is claimed of the number.
#[verifier::external_body]
fn nanos_of(duration: &Duration) -> u128 {
    duration.as_nanos()
}

/// Calls `std::time::SystemTime::now` and measures it from the start of 1970
/// with `duration_since` and `as_nanos`. Hands out nothing where the clock
/// stands before 1970. The clock decides the result, so nothing is claimed
/// of it.
#[verifier::external_body]
fn clock_nanos() -> Option<u128> {
    match std::time::SystemTime::now().duration_since(std::time::UNIX_EPOCH) {
        Ok(elapsed) => Some(elapsed.as_nanos()),
        Err(_) => None,
    }
}

/// The counts that a list of records stands for, by address. Where two
/// records name one address, the later one counts.
pub open spec fn table_of(records: Seq<RequestRecord>) -> Map<Seq<char>, (u128, u32)>
    decreases records.len(),
{
    if records.len() == 0 {
        Map::empty()
    } else {
        table_of(records.drop_last()).insert(
            records.last().ip_address@,
            (records.last().window_start, records.last().count),
        )
    }
}

/// The count of an address after one more request at the instant `now`: a
/// window that began more than `window` ago, and an address not seen before,
/// start a new window at `now`; the request is then counted. The count stops
/// at the largest number it can hold.
pub open spec fn counted(entry: Option<(u128, u32)>, now: u128, window: u128) -> (u128, u32) {
    let current = match entry {
        Some(e) => if now >= e.0 && now - e.0 > window {
            (now, 0u32)
        } else {
            e
        },
        None => (now, 0u32),
    };
    (
        current.0,
        if current.1 == u32::MAX {
            current.1
        } else {
            (current.1 + 1) as u32
        },
    )
}

/// Replacing the last record of an address replaces the count of that
/// address and no other.
proof fn lemma_update_last_match(records: Seq<RequestRecord>, i: int, record: RequestRecord)
    requires
        0 <= i < records.len(),
        record.ip_address@ == records[i].ip_address@,
        forall|j: int| i < j < records.len() ==> records[j].ip_address@ != record.ip_address@,
    ensures
        table_of(records.update(i, record)) == table_of(records).insert(
            record.ip_address@,
            (record.window_start, record.count),
        ),
    decreases records.len(),
{
    let updated = records.update(i, record);
    if i == records.len() - 1 {
        assert(updated.drop_last() =~= records.drop_last());
        assert(table_of(updated) =~= table_of(records).insert(
            record.ip_address@,
            (record.window_start, record.count),
        ));
    } else {
        lemma_update_last_match(records.drop_last(), i, record);
        assert(updated.drop_last() =~= records.drop_last().update(i, record));
        assert(updated.last() == records.last());
        assert(table_of(updated) =~= table_of(records).insert(
            record.ip_address@,
            (record.window_start, record.count),
        ));
    }
}

/// An address that no record names has no count.
proof fn lemma_no_match(records: Seq<RequestRecord>, ip: Seq<char>)
    requires
        forall|j: int| 0 <= j < records.len() ==> records[j].ip_address@ != ip,
    ensures
        !table_of(records).contains_key(ip),
    decreases records.len(),
{
    if records.len() > 0 {
        lemma_no_match(records.drop_last(), ip);
    }
}

/// The last record of an address holds its count.
proof fn lemma_last_match(records: Seq<RequestRecord>, i: int)
    requires
        0 <= i < records.len(),
        forall|j: int| i < j < records.len() ==> records[j].ip_address@ != records[i].ip_address@,
    ensures
        table_of(records).contains_key(records[i].ip_address@),
        table_of(records)[records[i].ip_address@] == (records[i].window_start, records[i].count),
    decreases records.len(),
{
    if i < records.len() - 1 {
        lemma_last_match(records.drop_last(), i);
    }
}

impl View for RateLimiter {
    type V = Map<Seq<char>, (u128, u32)>;

    /// For each address seen: when its window began, and its count.
    open spec fn view(&self) -> Map<Seq<char>, (u128, u32)> {
        table_of(self.requests@)
    }
}

impl RateLimiter {
    /// A limiter that has seen no request yet.
    pub fn new(max_requests: u32, window: Duration) -> (limiter: RateLimiter)
        ensures
            limiter.max_requests == max_requests,
            limiter@ == Map::<Seq<char>, (u128, u32)>::empty(),
    {
        RateLimiter { requests: Vec::new(), max_requests, window_nanos: nanos_of(&window) }
    }

    /// The index of the last record of `ip`, if there is one.
    fn find(&self, ip: &str) -> (found: Option<usize>)
        ensures
            match found {
                Some(i) => i < self.requests@.len() && self.requests@[i as int].ip_address@ == ip@
                    && forall|j: int|
                    i < j < self.requests@.len() ==> self.requests@[j].ip_address@ != ip@,
                None => forall|j: int|
                    0 <= j < self.requests@.len() ==> self.requests@[j].ip_address@ != ip@,
            },
    {
        let mut i: usize = self.requests.len();
        while i > 0
            invariant
                i <= self.requests@.len(),
                forall|j: int| i <= j < self.requests@.len() ==> self.requests@[j].ip_address@ != ip@,
            decreases i,
        {
            i -= 1;
            if same_text(self.requests[i].ip_address.as_str(), ip) {
                return Some(i);
            }
        }
        None
    }

    /// Counts a request made at the instant `now` and says whether it is
    /// within the limit.
    pub fn record(&mut self, ctx: &RequestContext, now: u128) -> (verdict: Result<
        (),
        RateLimiterError,
    >)
        ensures
            final(self).max_requests == old(self).max_requests,
            final(self).window_nanos == old(self).window_nanos,
            final(self)@ == old(self)@.insert(
                ctx.ip_address@,
                counted(old(self)@.get(ctx.ip_address@), now, old(self).window_nanos),
            ),
            verdict is Err <==> counted(
                old(self)@.get(ctx.ip_address@),
                now,
                old(self).window_nanos,
            ).1 > old(self).max_requests,
    {
        let found = self.find(ctx.ip_address.as_str());
        let ghost before = self.requests@;
        let (start, count, at) = match found {
            Some(i) => {
                proof {
                    lemma_last_match(before, i as int);
                }
                let start = self.requests[i].window_start;
                if now >= start && now - start > self.window_nanos {
                    (now, 0u32, found)
                } else {
                    (start, self.requests[i].count, found)
                }
            },
            None => {
                proof {
                    lemma_no_match(before, ctx.ip_address@);
                }
                (now, 0u32, found)
            },
        };
        let count = if count == u32::MAX {
            count
        } else {
            count + 1
        };
        let record = RequestRecord {
            ip_address: ctx.ip_address.clone(),
            window_start: start,
            count,
        };
        match at {
            Some(i) => {
                proof {
                    lemma_update_last_match(before, i as int, record);
                }
                self.requests.set(i, record);
            },
            None => {
                self.requests.push(record);
                assert(self.requests@.drop_last() =~= before);
            },
        }
        if count > self.max_requests {
            Err(RateLimiterError::TooManyRequests)
        } else {
            Ok(())
        }
    }
}

impl Middleware for RateLimiter {
    /// Counts a request made now. The clock gives the instant; `record` says
    /// what follows from it.
    fn handle(&mut self, ctx: &RequestContext) -> (verdict: Result<(), RateLimiterError>)
        ensures
            final(self).max_requests == old(self).max_requests,
            final(self).window_nanos == old(self).window_nanos,
            final(self)@.contains_key(ctx.ip_address@),
            verdict is Err <==> final(self)@[ctx.ip_address@].1 > old(self).max_requests,
    {
        let now = match clock_nanos() {
            Some(now) => now,
            None => 0,
        };
        self.record(ctx, now)
    }
}

} // verus!
