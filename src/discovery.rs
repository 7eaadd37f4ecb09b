//! The peer-identity discoverer: a bounded number of queries with a fixed
//! pause between them, ending at the first acceptable answer.

use vstd::prelude::*;

verus! {

/// Queries allowed per daemon instance.
pub const MAX_ATTEMPTS: u32 = 8;

/// Pause between two queries, in milliseconds.
pub const BACKOFF_MS: u64 = 500;

#[derive(Clone, Copy, Debug, PartialEq, Eq, Structural)]
pub enum DiscoveryAction {
    /// Cache the accepted identity and publish it; the discovery is over.
    CacheAndPublish,
    /// Log that the identity is not ready after query `attempt`, pause, and
    /// query again.
    RetryAfterPause { attempt: u32 },
    /// The last query failed too; the discovery is over, silently.
    GiveUp,
}

#[derive(Clone, Copy, Debug, PartialEq, Eq, Structural)]
pub struct Discoverer {
    /// Queries granted so far.
    pub queries: u32,
    pub finished: bool,
}

/// One call the host makes: ask for a query, or report a query's answer.
#[derive(Clone, Copy, Debug, PartialEq, Eq, Structural)]
pub enum DiscoveryCall {
    NextQuery,
    Answer { accepted: bool },
}

impl Discoverer {
    pub open spec fn wf(&self) -> bool {
        self.queries <= MAX_ATTEMPTS
    }
}

/// The effect of asking for a query: granted while unfinished and under the
/// bound, and then counted.
pub open spec fn grant(d: Discoverer) -> (Discoverer, bool) {
    if !d.finished && d.queries < MAX_ATTEMPTS {
        (Discoverer { queries: (d.queries + 1) as u32, ..d }, true)
    } else {
        (Discoverer { finished: true, ..d }, false)
    }
}

/// The effect of an answer: accept and finish, retry while queries remain,
/// else give up. After the end, nothing more happens.
pub open spec fn answer(d: Discoverer, accepted: bool) -> (Discoverer, DiscoveryAction) {
    if d.finished {
        (d, DiscoveryAction::GiveUp)
    } else if accepted {
        (Discoverer { finished: true, ..d }, DiscoveryAction::CacheAndPublish)
    } else if d.queries < MAX_ATTEMPTS {
        (d, DiscoveryAction::RetryAfterPause { attempt: d.queries })
    } else {
        (Discoverer { finished: true, ..d }, DiscoveryAction::GiveUp)
    }
}

/// How many queries are granted over a sequence of calls.
pub open spec fn granted(d: Discoverer, calls: Seq<DiscoveryCall>) -> nat
    decreases calls.len(),
{
    if calls.len() == 0 {
        0
    } else {
        match calls[0] {
            DiscoveryCall::NextQuery => {
                let (d1, ok) = grant(d);
                (if ok { 1nat } else { 0nat }) + granted(d1, calls.drop_first())
            },
            DiscoveryCall::Answer { accepted } => granted(answer(d, accepted).0, calls.drop_first()),
        }
    }
}

proof fn lemma_granted_bounded(d: Discoverer, calls: Seq<DiscoveryCall>)
    requires
        d.wf(),
    ensures
        granted(d, calls) + d.queries <= MAX_ATTEMPTS,
    decreases calls.len(),
{
    if calls.len() > 0 {
        match calls[0] {
            DiscoveryCall::NextQuery => lemma_granted_bounded(grant(d).0, calls.drop_first()),
            DiscoveryCall::Answer { accepted } => lemma_granted_bounded(
                answer(d, accepted).0,
                calls.drop_first(),
            ),
        }
    }
}

/// Whatever the host asks and whatever the answers, a discoverer grants at
/// most eight queries.
pub proof fn lemma_at_most_eight_queries(calls: Seq<DiscoveryCall>)
    ensures
        granted(Discoverer { queries: 0, finished: false }, calls) <= 8,
{
    lemma_granted_bounded(Discoverer { queries: 0, finished: false }, calls);
}

impl Discoverer {
    /// A discovery that has made no query yet.
    pub fn new() -> (r: Discoverer)
        ensures
            r == (Discoverer { queries: 0, finished: false }),
    {
        Discoverer { queries: 0, finished: false }
    }

    /// Asks for the next query: true when it may be made.
    pub fn next_query(&mut self) -> (r: bool)
        ensures
            (*final(self), r) == grant(*old(self)),
            old(self).wf() ==> final(self).wf(),
    {
        if !self.finished && self.queries < MAX_ATTEMPTS {
            self.queries = self.queries + 1;
            true
        } else {
            self.finished = true;
            false
        }
    }

    /// Reports whether the last query's answer was acceptable.
    pub fn on_answer(&mut self, accepted: bool) -> (r: DiscoveryAction)
        ensures
            (*final(self), r) == answer(*old(self), accepted),
            old(self).wf() ==> final(self).wf(),
    {
        if self.finished {
            DiscoveryAction::GiveUp
        } else if accepted {
            self.finished = true;
            DiscoveryAction::CacheAndPublish
        } else if self.queries < MAX_ATTEMPTS {
            DiscoveryAction::RetryAfterPause { attempt: self.queries }
        } else {
            self.finished = true;
            DiscoveryAction::GiveUp
        }
    }
}

} // verus!
