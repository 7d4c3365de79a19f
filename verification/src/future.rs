use vstd::prelude::*;

verus! {

/// The outcome of a single poll: either the operation has not produced its
/// value yet, or it has completed exactly once and the value is moved out.
pub enum PollState<T> {
    NotReady,
    Ready(T),
}

/// The uniform polling capability that every asynchronous value, primitive or
/// composed, must satisfy.
///
/// A future advances only when polled. Polling one that has already resolved
/// is a fatal usage error, so `poll` may only be called while the future is
/// unresolved; within verified code that rule is enforced at every call site.
pub trait Future {
    type Output;

    /// Well-formedness of the future's internal state; established at
    /// construction and preserved by every poll.
    spec fn wf(&self) -> bool;

    /// Whether a prior poll has already returned `Ready`.
    spec fn resolved(&self) -> bool;

    /// How many polls will still report `NotReady` before the value is
    /// handed out. Polling is single-threaded and deterministic, so this is
    /// a function of the future's current state.
    spec fn remaining(&self) -> nat;

    /// The value this future is committed to produce.
    spec fn value(&self) -> Self::Output;

    fn poll(&mut self) -> (r: PollState<Self::Output>)
        requires
            old(self).wf(),
            !old(self).resolved(),
        ensures
            final(self).wf(),
            (r is Ready) <==> old(self).remaining() == 0,
            final(self).resolved() <==> (r is Ready),
            r matches PollState::Ready(v) ==> v == old(self).value(),
            (r is NotReady) ==> final(self).remaining() + 1 == old(self).remaining(),
            (r is NotReady) ==> final(self).value() == old(self).value(),
    ;
}

/// The constructor interface through which the coroutine obtains its
/// asynchronous primitives: each request, identified by a descriptor string,
/// synchronously yields a fresh future whose output is a response body.
///
/// A connector serves requests in order. The body and the latency of the
/// `i`-th request are functions of the connector's state alone; the
/// descriptor is an identifier that an implementation is free to ignore.
pub trait Connector {
    type Fut: Future<Output = String>;

    /// Well-formedness of the connector's internal state.
    spec fn wf(&self) -> bool;

    /// How many requests have been served so far.
    spec fn served(&self) -> nat;

    /// The response body produced for the `i`-th request.
    spec fn response(&self, i: nat) -> Seq<char>;

    /// How many `NotReady` polls the future of the `i`-th request reports
    /// before it resolves.
    spec fn latency(&self, i: nat) -> nat;

    fn get(&mut self, path: &str) -> (f: Self::Fut)
        requires
            old(self).wf(),
        ensures
            final(self).wf(),
            f.wf(),
            !f.resolved(),
            f.remaining() == old(self).latency(old(self).served()),
            f.value()@ == old(self).response(old(self).served()),
            final(self).served() == old(self).served() + 1,
            forall|i: nat| #[trigger] final(self).response(i) == old(self).response(i),
            forall|i: nat| #[trigger] final(self).latency(i) == old(self).latency(i),
    ;
}

} // verus!
