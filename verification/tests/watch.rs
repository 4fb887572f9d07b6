use relwarc_api_client::job_status::{job_result, keep_last, last_status};
use relwarc_api_client::watch::{start, step, WatchAction, WatchEvent, WatchState};
use relwarc_api_client::JobStatusMsg;

fn json(text: &str) -> serde_json::Value {
    serde_json::from_str(text).unwrap()
}

fn status(msg_type: &str, message: Option<&str>, result: Option<&str>) -> JobStatusMsg {
    JobStatusMsg {
        msg_type: msg_type.to_string(),
        message: message.map(|m| m.to_string()),
        result: result.map(json),
    }
}

fn take(state: WatchState, event: WatchEvent) -> (WatchState, WatchAction) {
    assert!(state.is_expected(&event), "{:?} does not take {:?}", state, event);
    step(state, event)
}

/// What a scripted session did: the messages handed to the handler, the
/// payloads of the pongs sent, and whether the close handshake was sent.
struct Trace {
    delivered: Vec<JobStatusMsg>,
    pongs: Vec<Vec<u8>>,
    closed: bool,
    state: WatchState,
}

/// Runs a session over `frames`. The handler asks to stop on its call number
/// `stop_at` (counted from one; zero never stops).
fn run(frames: Vec<WatchEvent>, stop_at: usize) -> Trace {
    let mut trace = Trace { delivered: Vec::new(), pongs: Vec::new(), closed: false, state: start() };
    let (state, action) = take(trace.state, WatchEvent::Connected);
    assert!(matches!(action, WatchAction::SendHello));
    assert_eq!(state, WatchState::Authenticated);
    let (mut state, mut action) = take(state, WatchEvent::HelloSent);
    let mut frames = frames.into_iter();
    loop {
        let event = match action {
            WatchAction::Receive => match frames.next() {
                Some(frame) => frame,
                None => break,
            },
            WatchAction::Deliver(msg) => {
                trace.delivered.push(msg);
                WatchEvent::Answered(trace.delivered.len() == stop_at)
            }
            WatchAction::SendPong(payload) => {
                trace.pongs.push(payload);
                match frames.next() {
                    Some(frame) => frame,
                    None => break,
                }
            }
            WatchAction::Close => {
                trace.closed = true;
                WatchEvent::Closed
            }
            WatchAction::Finish => break,
            WatchAction::SendHello => panic!("a second hello"),
        };
        let next = take(state, event);
        state = next.0;
        action = next.1;
    }
    trace.state = state;
    trace
}

#[test]
fn session_starts_by_connecting() {
    assert_eq!(start(), WatchState::Connecting);
}

#[test]
fn hello_follows_the_handshake_at_once() {
    let (state, action) = take(start(), WatchEvent::Connected);
    assert_eq!(state, WatchState::Authenticated);
    assert!(matches!(action, WatchAction::SendHello));
    let (state, action) = take(state, WatchEvent::HelloSent);
    assert_eq!(state, WatchState::Watching);
    assert!(matches!(action, WatchAction::Receive));
}

#[test]
fn progress_ping_result_session() {
    let frames = vec![
        WatchEvent::Status(status("progress", Some("parsing"), None)),
        WatchEvent::Ping(vec![1, 2, 3]),
        WatchEvent::Status(status("result", None, Some("{\"ok\":true}"))),
    ];
    let mut trace = run(frames, 0);
    assert_eq!(trace.pongs, vec![vec![1u8, 2, 3]]);
    assert_eq!(trace.delivered.len(), 2);
    assert_eq!(trace.delivered[0].msg_type, "progress");
    assert_eq!(trace.delivered[0].message.as_deref(), Some("parsing"));
    assert!(trace.closed);
    assert_eq!(trace.state, WatchState::Terminal);
    let last = trace.delivered.pop().unwrap();
    assert_eq!(job_result(last, 9).unwrap(), json("{\"ok\":true}"));
}

#[test]
fn waiting_session_keeps_the_last_message() {
    let frames = vec![
        WatchEvent::Status(status("progress", None, None)),
        WatchEvent::Pong,
        WatchEvent::Status(status("result", None, Some("[1,2]"))),
        WatchEvent::Status(status("progress", Some("late"), None)),
    ];
    let trace = run(frames, 0);
    assert_eq!(trace.delivered.len(), 2);
    assert!(trace.closed);
    let mut last = None;
    for msg in trace.delivered {
        assert!(!keep_last(&mut last, msg));
    }
    let msg = last_status(last, 5).unwrap();
    assert_eq!(msg.msg_type, "result");
    assert_eq!(job_result(msg, 5).unwrap(), json("[1,2]"));
}

#[test]
fn no_messages_is_a_job_error() {
    let trace = run(vec![WatchEvent::Ended], 0);
    assert!(trace.delivered.is_empty());
    assert!(trace.pongs.is_empty());
    assert!(!trace.closed);
    assert_eq!(trace.state, WatchState::Terminal);
    let mut last = None;
    for msg in trace.delivered {
        keep_last(&mut last, msg);
    }
    let e = last_status(last, 17).unwrap_err();
    assert_eq!(e.job_id, 17);
    assert_eq!(e.error_message, "Server sent no messages");
}

#[test]
fn result_without_result_field_is_a_job_error() {
    let trace = run(vec![WatchEvent::Status(status("result", None, None))], 0);
    assert!(trace.closed);
    let mut last = None;
    for msg in trace.delivered {
        keep_last(&mut last, msg);
    }
    let msg = last_status(last, 3).unwrap();
    let e = job_result(msg, 3).unwrap_err();
    assert_eq!(e.job_id, 3);
    assert_eq!(e.error_message, "result message lacks a 'result' field");
}

#[test]
fn error_message_is_a_job_error_with_its_text() {
    let trace = run(vec![WatchEvent::Status(status("error", Some("out of memory"), None))], 0);
    assert!(trace.closed);
    assert_eq!(trace.delivered.len(), 1);
    let e = job_result(status("error", Some("out of memory"), None), 8).unwrap_err();
    assert_eq!(e.job_id, 8);
    assert_eq!(e.error_message, "out of memory");
}

#[test]
fn error_message_without_text_is_a_job_error_with_none() {
    let e = job_result(status("error", None, None), 8).unwrap_err();
    assert_eq!(e.error_message, "");
}

#[test]
fn error_message_with_result_is_still_an_error() {
    let e = job_result(status("error", Some("no"), Some("{\"ok\":true}")), 8).unwrap_err();
    assert_eq!(e.error_message, "no");
}

#[test]
fn unrecognized_type_goes_on_until_the_handler_stops() {
    let frames = vec![
        WatchEvent::Status(status("heartbeat", None, None)),
        WatchEvent::Status(status("heartbeat", Some("still here"), None)),
        WatchEvent::Status(status("heartbeat", None, None)),
    ];
    let mut trace = run(frames, 2);
    assert_eq!(trace.delivered.len(), 2);
    assert!(trace.closed);
    assert_eq!(trace.state, WatchState::Terminal);
    let last = trace.delivered.pop().unwrap();
    assert_eq!(last.message.as_deref(), Some("still here"));
    let e = job_result(last, 4).unwrap_err();
    assert_eq!(e.job_id, 4);
    assert_eq!(e.error_message, "Unexpected message type: heartbeat");
}

#[test]
fn unrecognized_type_never_ends_a_wait() {
    let frames = vec![
        WatchEvent::Status(status("heartbeat", None, None)),
        WatchEvent::Status(status("heartbeat", None, None)),
        WatchEvent::Status(status("heartbeat", None, None)),
    ];
    let trace = run(frames, 0);
    assert_eq!(trace.delivered.len(), 3);
    assert!(!trace.closed);
    assert_eq!(trace.state, WatchState::Watching);
}

#[test]
fn end_of_connection_after_pings_only_is_a_job_error() {
    let frames = vec![WatchEvent::Ping(vec![7]), WatchEvent::Pong, WatchEvent::Ended];
    let trace = run(frames, 0);
    assert_eq!(trace.pongs, vec![vec![7u8]]);
    assert!(trace.delivered.is_empty());
    assert_eq!(trace.state, WatchState::Terminal);
    let e = last_status(None, 2).unwrap_err();
    assert_eq!(e.job_id, 2);
    assert_eq!(e.error_message, "Server sent no messages");
}

#[test]
fn end_of_connection_finishes_without_close_handshake() {
    let (state, action) = take(WatchState::Watching, WatchEvent::Ended);
    assert_eq!(state, WatchState::Terminal);
    assert!(matches!(action, WatchAction::Finish));
}

#[test]
fn end_of_connection_after_progress_leaves_no_result() {
    let frames = vec![
        WatchEvent::Status(status("progress", Some("half way"), None)),
        WatchEvent::Ended,
        WatchEvent::Status(status("result", None, Some("1"))),
    ];
    let trace = run(frames, 0);
    assert_eq!(trace.delivered.len(), 1);
    assert!(!trace.closed);
    assert_eq!(trace.state, WatchState::Terminal);
    let mut last = None;
    for msg in trace.delivered {
        keep_last(&mut last, msg);
    }
    let e = job_result(last_status(last, 6).unwrap(), 6).unwrap_err();
    assert_eq!(e.error_message, "Unexpected message type: progress");
}

#[test]
fn terminal_message_ends_the_watch_whatever_the_handler_says() {
    for stop in [false, true] {
        for msg_type in ["result", "error"] {
            let (state, action) = take(WatchState::Watching, WatchEvent::Status(status(msg_type, None, None)));
            assert_eq!(state, WatchState::Delivering { terminal: true });
            assert!(matches!(action, WatchAction::Deliver(_)));
            let (state, action) = take(state, WatchEvent::Answered(stop));
            assert_eq!(state, WatchState::Closing);
            assert!(matches!(action, WatchAction::Close));
        }
    }
}

#[test]
fn message_types_are_compared_exactly() {
    for msg_type in ["Result", "results", "", "progress", "err", " error"] {
        let msg = status(msg_type, None, None);
        assert!(!msg.is_final());
        let (state, _) = take(WatchState::Watching, WatchEvent::Status(msg));
        assert_eq!(state, WatchState::Delivering { terminal: false });
    }
    assert!(status("result", None, None).is_final());
    assert!(status("error", None, None).is_final());
}

#[test]
fn ping_is_answered_with_its_payload() {
    let (state, action) = take(WatchState::Watching, WatchEvent::Ping(vec![0xde, 0xad]));
    assert_eq!(state, WatchState::Watching);
    match action {
        WatchAction::SendPong(payload) => assert_eq!(payload, vec![0xde, 0xad]),
        other => panic!("no pong: {:?}", other),
    }
    let (state, action) = take(WatchState::Watching, WatchEvent::Ping(Vec::new()));
    assert_eq!(state, WatchState::Watching);
    match action {
        WatchAction::SendPong(payload) => assert!(payload.is_empty()),
        other => panic!("no pong: {:?}", other),
    }
}

#[test]
fn pong_is_passed_over() {
    let (state, action) = take(WatchState::Watching, WatchEvent::Pong);
    assert_eq!(state, WatchState::Watching);
    assert!(matches!(action, WatchAction::Receive));
}

#[test]
fn close_handshake_ends_the_session() {
    let (state, action) = take(WatchState::Closing, WatchEvent::Closed);
    assert_eq!(state, WatchState::Terminal);
    assert!(matches!(action, WatchAction::Finish));
}

#[test]
fn unexpected_frames_are_taken_nowhere() {
    let states = [
        WatchState::Connecting,
        WatchState::Authenticated,
        WatchState::Watching,
        WatchState::Delivering { terminal: false },
        WatchState::Delivering { terminal: true },
        WatchState::Closing,
        WatchState::Terminal,
    ];
    for state in states {
        assert!(!state.is_expected(&WatchEvent::Unexpected));
    }
}

#[test]
fn events_out_of_turn_are_not_taken() {
    assert!(!WatchState::Connecting.is_expected(&WatchEvent::Ping(vec![1])));
    assert!(!WatchState::Connecting.is_expected(&WatchEvent::HelloSent));
    assert!(!WatchState::Authenticated.is_expected(&WatchEvent::Pong));
    assert!(!WatchState::Authenticated.is_expected(&WatchEvent::Connected));
    assert!(!WatchState::Watching.is_expected(&WatchEvent::Answered(true)));
    assert!(!WatchState::Watching.is_expected(&WatchEvent::Closed));
    assert!(!WatchState::Delivering { terminal: false }.is_expected(&WatchEvent::Pong));
    assert!(!WatchState::Closing.is_expected(&WatchEvent::Answered(false)));
    assert!(!WatchState::Terminal.is_expected(&WatchEvent::Closed));
    assert!(!WatchState::Terminal.is_expected(&WatchEvent::Connected));
}

#[test]
fn end_of_connection_is_taken_while_watching_only() {
    assert!(WatchState::Watching.is_expected(&WatchEvent::Ended));
    let others = [
        WatchState::Connecting,
        WatchState::Authenticated,
        WatchState::Delivering { terminal: false },
        WatchState::Delivering { terminal: true },
        WatchState::Closing,
        WatchState::Terminal,
    ];
    for state in others {
        assert!(!state.is_expected(&WatchEvent::Ended));
    }
}
