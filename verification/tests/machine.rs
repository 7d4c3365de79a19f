use coroutine::{async_main, run, Connector, Future, PollState, SimConnector, SimFuture};

fn script(entries: &[(usize, &str)]) -> Vec<(usize, String)> {
    let mut s: Vec<(usize, String)> = Vec::new();
    for (latency, body) in entries {
        s.push((*latency, String::from(*body)));
    }
    s
}

#[test]
fn drains_in_one_poll_when_both_ready() {
    let conn = SimConnector::new(script(&[(0, "first"), (0, "second")]));
    let mut co = async_main(conn);
    let r = co.poll();
    assert!(matches!(r, PollState::Ready(())));
    assert!(co.is_resolved());
    let out = co.output();
    assert_eq!(out.len(), 3);
    assert_eq!(out[0], "Program starting");
    assert_eq!(out[1], "first");
    assert_eq!(out[2], "second");
}

#[test]
fn suspension_keeps_stage() {
    let conn = SimConnector::new(script(&[(2, "a"), (1, "b")]));
    let mut co = async_main(conn);

    // Two suspensions while the first request waits: the log (one line per
    // stage passed) stays at the start marker alone.
    assert!(matches!(co.poll(), PollState::NotReady));
    assert_eq!(co.output().len(), 1);
    assert!(matches!(co.poll(), PollState::NotReady));
    assert_eq!(co.output().len(), 1);
    assert!(!co.is_resolved());

    // The first request resolves; the same call moves on to the second
    // request, which is not ready yet, and suspends there.
    assert!(matches!(co.poll(), PollState::NotReady));
    assert_eq!(co.output().len(), 2);
    assert_eq!(co.output()[1], "a");
    assert!(!co.is_resolved());

    assert!(matches!(co.poll(), PollState::Ready(())));
    assert!(co.is_resolved());
    assert_eq!(co.output().len(), 3);
    assert_eq!(co.output()[2], "b");
}

#[test]
fn stages_advance_monotonically() {
    let conn = SimConnector::new(script(&[(1, "a"), (2, "b")]));
    let mut co = async_main(conn);
    let mut lines_seen: Vec<usize> = Vec::new();
    lines_seen.push(co.output().len());
    loop {
        let r = co.poll();
        lines_seen.push(co.output().len());
        if matches!(r, PollState::Ready(())) {
            break;
        }
    }
    // One emitted line per stage passed: the counts never move backward and
    // never skip past the next waiting stage.
    assert_eq!(lines_seen, vec![0, 1, 2, 2, 3]);
}

#[test]
fn scheduler_runs_to_completion() {
    // First request ready on its third poll, second on its second poll: the
    // scheduler sees one NotReady per waited poll and none after resolution.
    let conn = SimConnector::new(script(&[(2, "first"), (1, "second")]));
    let mut co = async_main(conn);
    let ((), waits) = run(&mut co);
    assert_eq!(waits, 3);
    assert!(co.is_resolved());
    let out = co.output();
    assert_eq!(out.len(), 3);
    assert_eq!(out[0], "Program starting");
    assert_eq!(out[1], "first");
    assert_eq!(out[2], "second");
}

#[test]
fn sim_future_resolves_exactly_once() {
    let mut fut = SimFuture::new(String::from("payload"), 2);
    assert!(matches!(fut.poll(), PollState::NotReady));
    assert!(matches!(fut.poll(), PollState::NotReady));
    match fut.poll() {
        PollState::Ready(body) => assert_eq!(body, "payload"),
        PollState::NotReady => panic!("future still waiting after its latency elapsed"),
    }
}

#[test]
fn scheduler_counts_sim_future_waits() {
    let mut fut = SimFuture::new(String::from("x"), 4);
    let (body, waits) = run(&mut fut);
    assert_eq!(body, "x");
    // 4 NotReady polls, then the resolving one: 5 polls in all, none after
    // the future resolved.
    assert_eq!(waits, 4);
}

#[test]
fn empty_script_serves_empty_bodies() {
    let conn = SimConnector::new(Vec::new());
    let mut co = async_main(conn);
    assert!(matches!(co.poll(), PollState::Ready(())));
    let out = co.output();
    assert_eq!(out.len(), 3);
    assert_eq!(out[0], "Program starting");
    assert_eq!(out[1], "");
    assert_eq!(out[2], "");
}

#[test]
fn short_script_falls_back_to_empty_body() {
    let conn = SimConnector::new(script(&[(0, "only")]));
    let mut co = async_main(conn);
    assert!(matches!(co.poll(), PollState::Ready(())));
    let out = co.output();
    assert_eq!(out.len(), 3);
    assert_eq!(out[1], "only");
    assert_eq!(out[2], "");
}

#[test]
fn connector_serves_requests_in_order() {
    let mut conn = SimConnector::new(script(&[(1, "a"), (0, "b")]));
    let mut first = conn.get("/one");
    let (body, waits) = run(&mut first);
    assert_eq!(body, "a");
    assert_eq!(waits, 1);
    let mut second = conn.get("/two");
    let (body, waits) = run(&mut second);
    assert_eq!(body, "b");
    assert_eq!(waits, 0);
}
