use wsproxy::relay::{IterStep, RelayAction, RelayEvent, RelayPhase, RelayState, MAX_ITERS, YIELD_EVERY};

#[test]
fn data_is_forwarded_and_counted() {
    let mut st = RelayState::new();
    assert!(matches!(st.begin_iteration(), IterStep::Continue { yield_now: false }));
    let payload = vec![1u8, 2, 3, 4];
    match st.on_event(RelayEvent::DataA(payload.clone())) {
        RelayAction::WriteToB(w) => assert_eq!(w, payload),
        _ => panic!("data from A must be written to B"),
    }
    assert_eq!(st.a_to_b, 4);
    assert_eq!(st.b_to_a, 0);
    match st.on_event(RelayEvent::DataB(vec![9u8; 10])) {
        RelayAction::WriteToA(w) => assert_eq!(w.len(), 10),
        _ => panic!("data from B must be written to A"),
    }
    assert_eq!(st.b_to_a, 10);
}

#[test]
fn half_close_drains_the_other_side() {
    // the client sends 1 KiB then closes; the target responds with 2 KiB
    // then EOF; the client must receive exactly the 2 KiB
    let mut st = RelayState::new();
    st.begin_iteration();
    match st.on_event(RelayEvent::DataA(vec![0u8; 1024])) {
        RelayAction::WriteToB(w) => assert_eq!(w.len(), 1024),
        _ => panic!("client bytes must reach the target"),
    }
    st.begin_iteration();
    match st.on_event(RelayEvent::EofA) {
        RelayAction::ShutdownB => {},
        _ => panic!("client EOF must shut down and drain the target"),
    }
    assert_eq!(st.phase, RelayPhase::DrainBtoA);
    let mut delivered = 0usize;
    match st.on_event(RelayEvent::DataB(vec![7u8; 2048])) {
        RelayAction::WriteToA(w) => delivered += w.len(),
        _ => panic!("drained bytes must reach the client"),
    }
    match st.on_event(RelayEvent::EofB) {
        RelayAction::Finish => {},
        _ => panic!("EOF on the drained side ends the relay"),
    }
    assert_eq!(delivered, 2048);
    assert_eq!(st.a_to_b, 1024);
    assert_eq!(st.b_to_a, 2048);
    assert_eq!(st.phase, RelayPhase::Done);
}

#[test]
fn benign_read_error_is_treated_as_eof() {
    let mut st = RelayState::new();
    st.begin_iteration();
    match st.on_event(RelayEvent::FromAErr("connection reset by peer".to_string())) {
        RelayAction::ShutdownB => {},
        _ => panic!("a benign read error drains the other side"),
    }
    assert_eq!(st.phase, RelayPhase::DrainBtoA);
}

#[test]
fn non_benign_read_error_propagates() {
    let mut st = RelayState::new();
    st.begin_iteration();
    match st.on_event(RelayEvent::FromBErr("index out of bounds".to_string())) {
        RelayAction::Fail(msg) => assert_eq!(msg, "index out of bounds"),
        _ => panic!("a non-benign error must propagate"),
    }
    assert_eq!(st.phase, RelayPhase::Done);
}

#[test]
fn yield_cadence() {
    let mut st = RelayState::new();
    let mut yields = 0u64;
    for i in 1..=(2 * YIELD_EVERY) {
        match st.begin_iteration() {
            IterStep::Continue { yield_now } => {
                if yield_now {
                    yields += 1;
                    // a yield comes every YIELD_EVERY iterations
                    assert_eq!(i % YIELD_EVERY, 0);
                }
            },
            IterStep::Stop => panic!("no budget is spent yet"),
        }
        // never more than YIELD_EVERY iterations without a yield
        assert!(st.since_yield < YIELD_EVERY);
    }
    assert_eq!(yields, 2);
}

#[test]
fn idle_budget_stops_the_relay() {
    let mut st = RelayState::new();
    let mut stopped_at = 0u64;
    for i in 1..=(MAX_ITERS + 100) {
        match st.begin_iteration() {
            IterStep::Continue { .. } => {},
            IterStep::Stop => {
                stopped_at = i;
                break;
            },
        }
    }
    // the budget ends an idle relay just past the iteration limit
    assert_eq!(stopped_at, MAX_ITERS + 1);
    assert_eq!(st.phase, RelayPhase::Done);
}

#[test]
fn active_stream_outlives_the_iteration_budget() {
    let mut st = RelayState::new();
    for _ in 0..(2 * MAX_ITERS) {
        match st.begin_iteration() {
            IterStep::Continue { .. } => {},
            IterStep::Stop => panic!("an active stream may continue"),
        }
        match st.on_event(RelayEvent::DataA(vec![1u8])) {
            RelayAction::WriteToB(_) => {},
            _ => panic!("data keeps flowing"),
        }
    }
    assert_eq!(st.a_to_b, 2 * MAX_ITERS);
}

#[test]
fn time_budget_ends_cleanly() {
    let mut st = RelayState::new();
    st.begin_iteration();
    match st.on_event(RelayEvent::TimeUp) {
        RelayAction::Finish => {},
        _ => panic!("an expired budget ends the relay cleanly"),
    }
    assert_eq!(st.phase, RelayPhase::Done);
}
