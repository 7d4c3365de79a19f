use vstd::prelude::*;

use crate::future::{Future, PollState};

verus! {

/// The cooperative scheduler: it polls the owned top-level future until the
/// future resolves, and returns the produced value together with how many
/// polls reported `NotReady` — each of those is a point where a real driver
/// would go do other work before polling again.
pub fn run<F: Future>(fut: &mut F) -> (r: (F::Output, usize))
    requires
        old(fut).wf(),
        !old(fut).resolved(),
        old(fut).remaining() <= usize::MAX,
    ensures
        final(fut).wf(),
        final(fut).resolved(),
        r.0 == old(fut).value(),
        r.1 == old(fut).remaining(),
{
    let mut waits: usize = 0;
    loop
        invariant
            fut.wf(),
            !fut.resolved(),
            fut.value() == old(fut).value(),
            waits + fut.remaining() == old(fut).remaining(),
            old(fut).remaining() <= usize::MAX,
        decreases fut.remaining(),
    {
        match fut.poll() {
            PollState::Ready(v) => {
                return (v, waits);
            },
            PollState::NotReady => {
                waits = waits + 1;
            },
        }
    }
}

} // verus!
