use vstd::prelude::*;

use crate::future::{Connector, Future, PollState};
use vstd::pervasive::unreached;

verus! {

/// A deterministic asynchronous primitive: it reports `NotReady` for a
/// configured number of polls and then hands out its body exactly once.
/// It stands in for the latency-simulating request object that a real
/// connector would return.
pub struct SimFuture {
    /// The body handed out on resolution; consumed by the resolving poll.
    pub payload: Option<String>,
    /// How many more polls report `NotReady`.
    pub pending: usize,
    /// Whether a poll has already returned `Ready`.
    pub done: bool,
}

impl SimFuture {
    pub fn new(payload: String, latency: usize) -> (r: SimFuture)
        ensures
            r.wf(),
            !r.resolved(),
            r.remaining() == latency,
            r.value() == payload,
    {
        SimFuture { payload: Some(payload), pending: latency, done: false }
    }
}

impl Future for SimFuture {
    type Output = String;

    open spec fn wf(&self) -> bool {
        !self.done ==> self.payload is Some
    }

    open spec fn resolved(&self) -> bool {
        self.done
    }

    open spec fn remaining(&self) -> nat {
        self.pending as nat
    }

    open spec fn value(&self) -> String {
        self.payload.unwrap()
    }

    fn poll(&mut self) -> (r: PollState<String>) {
        if self.pending == 0 {
            self.done = true;
            let taken = self.payload.take();
            match taken {
                Some(body) => PollState::Ready(body),
                None => unreached(),
            }
        } else {
            self.pending = self.pending - 1;
            PollState::NotReady
        }
    }
}

/// A scripted connector: it serves pre-configured (latency, body) pairs in
/// order, and past the end of its script it serves immediately-ready empty
/// bodies, so that every request succeeds.
pub struct SimConnector {
    /// The scripted (latency, body) pair for each request, in order.
    pub script: Vec<(usize, String)>,
    /// How many scripted requests have been served.
    pub taken_from_script: usize,
    /// How many requests have been served past the end of the script.
    pub past_script: Ghost<nat>,
}

impl SimConnector {
    pub fn new(script: Vec<(usize, String)>) -> (r: SimConnector)
        ensures
            r.wf(),
            r.served() == 0,
            forall|i: nat| i < script@.len() ==> #[trigger] r.latency(i) == script@[i as int].0,
            forall|i: nat| i < script@.len() ==> #[trigger] r.response(i) == script@[i as int].1@,
            forall|i: nat| i >= script@.len() ==> #[trigger] r.latency(i) == 0,
            forall|i: nat| i >= script@.len() ==> #[trigger] r.response(i) == Seq::<char>::empty(),
    {
        SimConnector { script, taken_from_script: 0, past_script: Ghost(0) }
    }
}

impl Connector for SimConnector {
    type Fut = SimFuture;

    open spec fn wf(&self) -> bool {
        &&& self.taken_from_script <= self.script@.len()
        &&& self.past_script@ > 0 ==> self.taken_from_script == self.script@.len()
    }

    open spec fn served(&self) -> nat {
        self.taken_from_script as nat + self.past_script@
    }

    open spec fn response(&self, i: nat) -> Seq<char> {
        if i < self.script@.len() {
            self.script@[i as int].1@
        } else {
            Seq::<char>::empty()
        }
    }

    open spec fn latency(&self, i: nat) -> nat {
        if i < self.script@.len() {
            self.script@[i as int].0 as nat
        } else {
            0
        }
    }

    fn get(&mut self, _path: &str) -> (f: SimFuture) {
        if self.taken_from_script < self.script.len() {
            let latency = self.script[self.taken_from_script].0;
            let body = self.script[self.taken_from_script].1.clone();
            self.taken_from_script = self.taken_from_script + 1;
            SimFuture::new(body, latency)
        } else {
            self.past_script = Ghost(self.past_script@ + 1);
            SimFuture::new(String::new(), 0)
        }
    }
}

} // verus!
