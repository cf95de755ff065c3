//! The ordered failover dispatcher.
//!
//! Providers are attempted strictly in registration order. The first attempt
//! that completes its response cycle wins and no later provider is invoked;
//! if every provider fails, the whole request fails with the last recorded
//! error. The caller of the library performs the actual upstream exchange
//! and reports each attempt's outcome to this state machine.

use vstd::prelude::*;

verus! {

/// Why one upstream attempt failed: the connection could not be made, it
/// timed out, or the body did not have the expected shape.
#[derive(Debug, PartialEq, Eq)]
pub enum UpstreamError {
    Connect(String),
    TimedOut,
    BadBody(String),
}

/// Why a whole request failed: no provider is configured at all, or every
/// configured provider failed and this is the last failure.
#[derive(Debug, PartialEq, Eq)]
pub enum DispatchError {
    NoProviders,
    Upstream(UpstreamError),
}

/// The failover state for one request over `limit` providers. `attempts`
/// records every outcome reported so far, in order; it is the machine's
/// history and every guarantee below is stated over it.
pub struct Failover<T> {
    pub limit: usize,
    pub tried: usize,
    pub winner: Option<T>,
    pub last_error: Option<UpstreamError>,
    pub attempts: Ghost<Seq<Result<T, UpstreamError>>>,
}

impl<T> Failover<T> {
    /// The machine's invariant: one recorded outcome per attempt, attempts
    /// never outnumber providers, a winner is exactly a final successful
    /// outcome after only failures, and while there is no winner the held
    /// error is the last recorded failure.
    pub open spec fn wf(self) -> bool {
        &&& self.tried == self.attempts@.len()
        &&& self.tried <= self.limit
        &&& match self.winner {
            Some(t) => {
                &&& self.attempts@.len() > 0
                &&& self.attempts@.last() == Ok::<T, UpstreamError>(t)
                &&& forall|i: int| 0 <= i < self.attempts@.len() - 1 ==> self.attempts@[i] is Err
            },
            None => forall|i: int| 0 <= i < self.attempts@.len() ==> self.attempts@[i] is Err,
        }
        &&& (self.winner is None ==> match self.last_error {
            Some(e) => self.attempts@.len() > 0 && self.attempts@.last() == Err::<
                T,
                UpstreamError,
            >(e),
            None => self.attempts@.len() == 0,
        })
    }

    /// Start a request over `limit` providers; nothing has been attempted.
    pub fn new(limit: usize) -> (r: Failover<T>)
        ensures
            r.wf(),
            r.limit == limit,
            r.tried == 0,
            r.winner is None,
            r.attempts@ == Seq::<Result<T, UpstreamError>>::empty(),
    {
        Failover {
            limit,
            tried: 0,
            winner: None,
            last_error: None,
            attempts: Ghost(Seq::empty()),
        }
    }

    /// Which provider to try next: the one after the failures so far, in
    /// registration order — and none once a winner stands or the list is
    /// exhausted.
    pub fn next_provider(&self) -> (r: Option<usize>)
        ensures
            r == if self.winner is None && self.tried < self.limit {
                Some(self.tried)
            } else {
                None::<usize>
            },
    {
        if self.winner.is_none() && self.tried < self.limit {
            Some(self.tried)
        } else {
            None
        }
    }

    /// Record that the current attempt failed; the dispatcher advances to
    /// the next provider holding this as the last error.
    pub fn record_failure(&mut self, e: UpstreamError)
        requires
            old(self).wf(),
            old(self).winner is None,
            old(self).tried < old(self).limit,
        ensures
            final(self).wf(),
            final(self).attempts@ == old(self).attempts@.push(Err::<T, UpstreamError>(e)),
            final(self).tried == old(self).tried + 1,
            final(self).limit == old(self).limit,
            final(self).winner is None,
            final(self).last_error == Some(e),
    {
        let ghost g = e;
        self.last_error = Some(e);
        self.tried = self.tried + 1;
        proof {
            self.attempts@ = self.attempts@.push(Err(g));
        }
    }

    /// Record that the current attempt completed its response cycle: it is
    /// the winner and no further provider will be offered.
    pub fn record_success(&mut self, t: T)
        requires
            old(self).wf(),
            old(self).winner is None,
            old(self).tried < old(self).limit,
        ensures
            final(self).wf(),
            final(self).attempts@ == old(self).attempts@.push(Ok::<T, UpstreamError>(t)),
            final(self).tried == old(self).tried + 1,
            final(self).limit == old(self).limit,
            final(self).winner == Some(t),
    {
        let ghost g = t;
        self.winner = Some(t);
        self.tried = self.tried + 1;
        proof {
            self.attempts@ = self.attempts@.push(Ok(g));
        }
    }

    /// The dispatcher's verdict once no provider is left to offer: the
    /// winner's result, or the last provider's failure, or the synthetic
    /// error of an empty registry.
    pub fn finish(self) -> (r: Result<T, DispatchError>)
        requires
            self.wf(),
            self.winner is Some || self.tried == self.limit,
        ensures
            self.winner matches Some(t) ==> r == Ok::<T, DispatchError>(t),
            self.winner is None && self.limit == 0 ==> r == Err::<T, DispatchError>(
                DispatchError::NoProviders,
            ),
            self.winner is None && self.limit > 0 ==> (r matches Err(DispatchError::Upstream(e))
                && self.attempts@.last() == Err::<T, UpstreamError>(e)),
    {
        match self.winner {
            Some(t) => Ok(t),
            None => match self.last_error {
                Some(e) => Err(DispatchError::Upstream(e)),
                None => Err(DispatchError::NoProviders),
            },
        }
    }
}

/// Failover stops at the first success: when a winner stands, every earlier
/// attempt failed, the winner is the last attempt's result, and no further
/// provider is ever offered — with `k + 1` attempts recorded, providers
/// beyond `k + 1` were never invoked.
pub proof fn lemma_first_success_wins<T>(st: Failover<T>)
    requires
        st.wf(),
        st.winner is Some,
    ensures
        st.attempts@.len() >= 1,
        st.attempts@.last() == Ok::<T, UpstreamError>(st.winner->0),
        forall|i: int| 0 <= i < st.attempts@.len() - 1 ==> st.attempts@[i] is Err,
        st.tried == st.attempts@.len(),
{
}

/// When every provider was tried and each failed, the request's error is
/// the last provider's failure.
pub proof fn lemma_all_failed_last_error<T>(st: Failover<T>)
    requires
        st.wf(),
        st.winner is None,
        st.tried == st.limit,
        st.limit > 0,
    ensures
        forall|i: int| 0 <= i < st.attempts@.len() ==> st.attempts@[i] is Err,
        st.last_error matches Some(e) && st.attempts@.last() == Err::<T, UpstreamError>(e),
{
}

} // verus!
