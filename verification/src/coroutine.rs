use vstd::prelude::*;

use crate::future::{Connector, Future, PollState};
use vstd::pervasive::unreached;

verus! {

/// The line the coroutine emits when it first runs.
pub open spec fn start_marker() -> Seq<char> {
    "Program starting"@
}

/// One variant per control point of the coroutine. Each waiting variant holds
/// exactly the live state needed to resume: the in-flight future of that
/// stage. Ownership of the future leaves the state the moment it resolves.
pub enum State<F> {
    Start,
    Wait1(F),
    Wait2(F),
    Resolved,
}

/// The hand-written state machine standing in for an asynchronous function
/// body that awaits two sequential requests, emitting a start marker and the
/// two response bodies along the way.
///
/// Emitted lines are collected in `log`, in emission order, so the caller can
/// observe the output without the machine doing any printing itself.
pub struct Coroutine<C: Connector> {
    pub connector: C,
    pub state: State<C::Fut>,
    pub log: Vec<String>,
}

impl<C: Connector> Coroutine<C> {
    /// The lines emitted so far, in order.
    pub open spec fn emitted(&self) -> Seq<String> {
        self.log@
    }

    /// Position in the fixed `Start` → `Wait1` → `Wait2` → `Resolved` chain.
    pub open spec fn stage(&self) -> nat {
        match self.state {
            State::Start => 0,
            State::Wait1(_) => 1,
            State::Wait2(_) => 2,
            State::Resolved => 3,
        }
    }

    /// The response body of the coroutine's `i`-th request.
    pub open spec fn resp_at(&self, i: nat) -> Seq<char> {
        self.connector.response(i)
    }

    /// The latency of the coroutine's `i`-th request.
    pub open spec fn lat_at(&self, i: nat) -> nat {
        self.connector.latency(i)
    }

    /// How many polls of this coroutine will still report `NotReady` before
    /// it resolves.
    pub open spec fn rem(&self) -> nat {
        match self.state {
            State::Start => self.lat_at(0) + self.lat_at(1),
            State::Wait1(f) => f.remaining() + self.lat_at(1),
            State::Wait2(f) => f.remaining(),
            State::Resolved => 0,
        }
    }

    /// `NotReady` polls left on the inner future of the active wait stage.
    pub open spec fn inner_remaining(&self) -> nat {
        match self.state {
            State::Wait1(f) => f.remaining(),
            State::Wait2(f) => f.remaining(),
            _ => 0,
        }
    }

    /// The stage in which the next poll leaves the machine: a poll keeps
    /// advancing through ready stages and stops at the first one whose
    /// future still has polls to wait out, or at `Resolved`.
    pub open spec fn next_stage(&self) -> nat {
        match self.state {
            State::Start => {
                if self.lat_at(0) > 0 {
                    1
                } else if self.lat_at(1) > 0 {
                    2
                } else {
                    3
                }
            },
            State::Wait1(f) => {
                if f.remaining() > 0 {
                    1
                } else if self.lat_at(1) > 0 {
                    2
                } else {
                    3
                }
            },
            State::Wait2(f) => {
                if f.remaining() > 0 {
                    2
                } else {
                    3
                }
            },
            State::Resolved => 3,
        }
    }

    /// Well-formedness: the connector has served exactly the requests of the
    /// stages already passed, the in-flight future of a wait stage is the
    /// unresolved future of that stage's request, and the log holds exactly
    /// the lines of the transitions already taken.
    pub open spec fn inv(&self) -> bool {
        &&& self.connector.wf()
        &&& match self.state {
            State::Start => {
                &&& self.connector.served() == 0
                &&& self.log@.len() == 0
            },
            State::Wait1(f) => {
                &&& self.connector.served() == 1
                &&& f.wf()
                &&& !f.resolved()
                &&& f.value()@ == self.resp_at(0)
                &&& self.log@.len() == 1
                &&& self.log@[0]@ == start_marker()
            },
            State::Wait2(f) => {
                &&& self.connector.served() == 2
                &&& f.wf()
                &&& !f.resolved()
                &&& f.value()@ == self.resp_at(1)
                &&& self.log@.len() == 2
                &&& self.log@[0]@ == start_marker()
                &&& self.log@[1]@ == self.resp_at(0)
            },
            State::Resolved => {
                &&& self.connector.served() == 2
                &&& self.log@.len() == 3
                &&& self.log@[0]@ == start_marker()
                &&& self.log@[1]@ == self.resp_at(0)
                &&& self.log@[2]@ == self.resp_at(1)
            },
        }
    }

    /// Builds the machine over a fresh connector; nothing runs until the
    /// first poll.
    pub fn new(connector: C) -> (r: Coroutine<C>)
        requires
            connector.wf(),
            connector.served() == 0,
        ensures
            r.inv(),
            r.stage() == 0,
            r.emitted().len() == 0,
            forall|i: nat| #[trigger] r.resp_at(i) == connector.response(i),
            forall|i: nat| #[trigger] r.lat_at(i) == connector.latency(i),
    {
        Coroutine { connector, state: State::Start, log: Vec::new() }
    }

    /// Drives the machine until it must truly suspend or fully resolves: it
    /// keeps re-entering the dispatch loop after each transition, so several
    /// ready stages complete within one call, and it returns `NotReady` only
    /// when the active inner future does.
    pub fn poll(&mut self) -> (r: PollState<()>)
        requires
            old(self).inv(),
            old(self).stage() < 3,
        ensures
            final(self).inv(),
            final(self).stage() == old(self).next_stage(),
            old(self).stage() <= final(self).stage(),
            (r is Ready) <==> old(self).rem() == 0,
            (final(self).stage() == 3) <==> (r is Ready),
            (r is NotReady) ==> final(self).rem() + 1 == old(self).rem(),
            forall|i: nat|
                #![trigger old(self).resp_at(i)]
                #![trigger final(self).resp_at(i)]
                old(self).resp_at(i) == final(self).resp_at(i),
            forall|i: nat|
                #![trigger old(self).lat_at(i)]
                #![trigger final(self).lat_at(i)]
                old(self).lat_at(i) == final(self).lat_at(i),
    {
        loop
            invariant
                self.inv(),
                self.stage() < 3,
                old(self).stage() <= self.stage(),
                self.rem() == old(self).rem(),
                self.next_stage() == old(self).next_stage(),
                forall|i: nat| #[trigger] old(self).resp_at(i) == self.resp_at(i),
                forall|i: nat| #[trigger] old(self).lat_at(i) == self.lat_at(i),
            decreases 3 - self.stage(),
        {
            let mut taken = State::Resolved;
            core::mem::swap(&mut taken, &mut self.state);
            match taken {
                State::Start => {
                    self.log.push("Program starting".to_owned());
                    let fut1 = self.connector.get("/600/HelloWorld1");
                    self.state = State::Wait1(fut1);
                },
                State::Wait1(mut fut1) => {
                    match fut1.poll() {
                        PollState::Ready(txt1) => {
                            self.log.push(txt1);
                            let fut2 = self.connector.get("/400/HelloWorld2");
                            self.state = State::Wait2(fut2);
                        },
                        PollState::NotReady => {
                            self.state = State::Wait1(fut1);
                            return PollState::NotReady;
                        },
                    }
                },
                State::Wait2(mut fut2) => {
                    match fut2.poll() {
                        PollState::Ready(txt2) => {
                            self.log.push(txt2);
                            self.state = State::Resolved;
                            return PollState::Ready(());
                        },
                        PollState::NotReady => {
                            self.state = State::Wait2(fut2);
                            return PollState::NotReady;
                        },
                    }
                },
                State::Resolved => unreached(),
            }
        }
    }

    /// Whether the machine has fully resolved; polling it past this point is
    /// a fatal usage error, which `poll` rules out by contract.
    pub fn is_resolved(&self) -> (r: bool)
        ensures
            r == (self.stage() == 3),
    {
        match &self.state {
            State::Resolved => true,
            _ => false,
        }
    }

    /// The lines emitted so far, in emission order.
    pub fn output(&self) -> (r: &Vec<String>)
        ensures
            r@ == self.emitted(),
    {
        &self.log
    }
}

impl<C: Connector> Future for Coroutine<C> {
    type Output = ();

    open spec fn wf(&self) -> bool {
        self.inv()
    }

    open spec fn resolved(&self) -> bool {
        self.stage() == 3
    }

    open spec fn remaining(&self) -> nat {
        self.rem()
    }

    open spec fn value(&self) -> () {
        ()
    }

    fn poll(&mut self) -> (r: PollState<()>) {
        Coroutine::poll(self)
    }
}

/// The asynchronous function body, compiled by hand: it returns the machine
/// that emits a start marker, awaits and emits the first response, awaits
/// and emits the second, then resolves.
pub fn async_main<C: Connector>(connector: C) -> (r: Coroutine<C>)
    requires
        connector.wf(),
        connector.served() == 0,
    ensures
        r.inv(),
        r.stage() == 0,
        r.emitted().len() == 0,
        forall|i: nat| #[trigger] r.resp_at(i) == connector.response(i),
        forall|i: nat| #[trigger] r.lat_at(i) == connector.latency(i),
{
    Coroutine::new(connector)
}

/// Law: the machine's state only advances. Each poll lands on `next_stage`,
/// which never lies before the current stage and never past `Resolved`, so
/// the stages observed across successive polls run forward through
/// `Start` → `Wait1` → `Wait2` → `Resolved` with no reversal.
pub proof fn lemma_stage_monotonic<C: Connector>(c: Coroutine<C>)
    requires
        c.inv(),
    ensures
        c.stage() <= c.next_stage(),
        c.next_stage() <= 3,
{
}

/// Law: suspension propagates without progress. While the machine waits on
/// an inner future that still has polls to wait out, a poll reports
/// `NotReady` (the machine's own remaining count is not zero) and leaves the
/// stage where it was.
pub proof fn lemma_suspension_propagates<C: Connector>(c: Coroutine<C>)
    requires
        c.inv(),
        1 <= c.stage() < 3,
        c.inner_remaining() > 0,
    ensures
        c.next_stage() == c.stage(),
        c.rem() > 0,
{
}

/// Law: in-call draining. When both requests resolve on their first poll,
/// a fresh machine has no `NotReady` polls ahead at all: its single first
/// poll runs every stage and returns `Ready`.
pub proof fn lemma_drains_in_one_poll<C: Connector>(c: Coroutine<C>)
    requires
        c.inv(),
        c.stage() == 0,
        c.lat_at(0) == 0,
        c.lat_at(1) == 0,
    ensures
        c.rem() == 0,
        c.next_stage() == 3,
{
}

/// Law: a fresh machine suspends exactly as often as its two requests do
/// together — the scheduler performs that many "other work" rounds before
/// the poll that resolves it.
pub proof fn lemma_fresh_suspension_count<C: Connector>(c: Coroutine<C>)
    requires
        c.inv(),
        c.stage() == 0,
    ensures
        c.rem() == c.lat_at(0) + c.lat_at(1),
{
}

/// Law: a resolved machine has emitted exactly the start marker and the two
/// response bodies, in that order.
pub proof fn lemma_resolved_output<C: Connector>(c: Coroutine<C>)
    requires
        c.inv(),
        c.stage() == 3,
    ensures
        c.emitted().len() == 3,
        c.emitted()[0]@ == start_marker(),
        c.emitted()[1]@ == c.resp_at(0),
        c.emitted()[2]@ == c.resp_at(1),
{
}

} // verus!
