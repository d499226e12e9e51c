use lx::rebuild::{step, Change, LoopAction, LoopEvent, LoopState, Rebuild};
use lx::reload::{serve_connection, ConnectionAction, ConnectionEvent, ConnectionState};
use lx::watch::CHANNEL_CAPACITY;
use tokio::sync::broadcast::{self, error::TryRecvError, Receiver};

fn success(path: &str) -> Rebuild {
    Rebuild::Success { paths: vec![path.to_string()] }
}

/// Serves a connection with everything that is waiting for it, and gives
/// back what it was sent.
fn drain(state: &mut ConnectionState, rebuilds: &mut Receiver<Rebuild>) -> Vec<String> {
    let mut sent = Vec::new();
    loop {
        let event = match rebuilds.try_recv() {
            Ok(rebuild) => ConnectionEvent::Published(rebuild),
            Err(TryRecvError::Lagged(skipped)) => ConnectionEvent::Lagged { skipped },
            Err(TryRecvError::Closed) => ConnectionEvent::PublisherGone,
            Err(TryRecvError::Empty) => return sent,
        };
        let (next, action) = serve_connection(*state, event);
        *state = next;
        match action {
            ConnectionAction::Send { text } => sent.push(text),
            ConnectionAction::Wait => {}
            ConnectionAction::End => return sent,
        }
    }
}

#[test]
fn only_those_connected_before_a_rebuild_hear_of_it() {
    let (publisher, _) = broadcast::channel(CHANNEL_CAPACITY);
    let mut early = publisher.subscribe();
    publisher.send(success("x.md")).unwrap();
    let mut late = publisher.subscribe();
    let mut early_state = ConnectionState::Open;
    let mut late_state = ConnectionState::Open;
    assert_eq!(
        drain(&mut early_state, &mut early),
        vec!["{\"type\":\"reload\",\"paths\":[\"x.md\"]}".to_string()]
    );
    assert_eq!(drain(&mut late_state, &mut late), Vec::<String>::new());
    publisher.send(Rebuild::Failure { cause: "broken".to_string() }).unwrap();
    publisher.send(success("y.md")).unwrap();
    let second = vec!["{\"type\":\"reload\",\"paths\":[\"y.md\"]}".to_string()];
    assert_eq!(drain(&mut early_state, &mut early), second);
    assert_eq!(drain(&mut late_state, &mut late), second);
    assert_eq!(early_state, ConnectionState::Open);
    assert_eq!(late_state, ConnectionState::Open);
}

#[test]
fn a_slow_connection_skips_rebuilds_and_holds_nobody_up() {
    let (publisher, _) = broadcast::channel(2);
    let mut quick = publisher.subscribe();
    let mut slow = publisher.subscribe();
    let mut quick_state = ConnectionState::Open;
    let mut slow_state = ConnectionState::Open;
    let mut heard = Vec::new();
    for i in 0..5 {
        publisher.send(success(&format!("{i}.md"))).unwrap();
        heard.extend(drain(&mut quick_state, &mut quick));
    }
    assert_eq!(heard.len(), 5);
    assert_eq!(heard[4], "{\"type\":\"reload\",\"paths\":[\"4.md\"]}");
    assert_eq!(
        drain(&mut slow_state, &mut slow),
        vec![
            "{\"type\":\"reload\",\"paths\":[\"3.md\"]}".to_string(),
            "{\"type\":\"reload\",\"paths\":[\"4.md\"]}".to_string(),
        ]
    );
    assert_eq!(slow_state, ConnectionState::Open);
    drop(publisher);
    assert_eq!(drain(&mut slow_state, &mut slow), Vec::<String>::new());
    assert_eq!(slow_state, ConnectionState::Ended);
}

#[test]
fn a_loop_that_falls_behind_reports_it_and_builds_on() {
    let (watcher, mut changes) = broadcast::channel(CHANNEL_CAPACITY);
    for i in 0..CHANNEL_CAPACITY + 3 {
        watcher.send(Change { paths: vec![format!("{i}.md")] }).unwrap();
    }
    drop(watcher);
    let mut state = LoopState::Idle;
    let mut in_flight = 0;
    let mut built = Vec::new();
    let mut lost = 0;
    loop {
        let event = match changes.try_recv() {
            Ok(change) => LoopEvent::Changed(change),
            Err(TryRecvError::Lagged(skipped)) => LoopEvent::Lagged { skipped },
            Err(TryRecvError::Closed) => LoopEvent::Closed,
            Err(TryRecvError::Empty) => unreachable!(),
        };
        let (next, action) = step(state, event);
        state = next;
        match action {
            LoopAction::StartBuild => {
                in_flight += 1;
                assert_eq!(in_flight, 1);
                let (next, action) = step(state, LoopEvent::Built);
                state = next;
                in_flight -= 1;
                match action {
                    LoopAction::Publish(Rebuild::Success { paths }) => built.extend(paths),
                    other => panic!("a build was not published: {other:?}"),
                }
            }
            LoopAction::ReportLag { skipped } => lost += skipped,
            LoopAction::Stop => break,
            other => panic!("unexpected: {other:?}"),
        }
    }
    assert_eq!(lost, 3);
    let expected: Vec<String> = (3..CHANNEL_CAPACITY + 3).map(|i| format!("{i}.md")).collect();
    assert_eq!(built, expected);
    assert!(matches!(state, LoopState::Stopped));
}
