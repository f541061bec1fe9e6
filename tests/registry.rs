use std::io;
use std::pin::Pin;
use std::task::{Context, Poll};
use std::time::{Duration, Instant};

use async_std::future::TimeoutError;
use async_std::prelude::FutureExt;
use futures::io::{AsyncRead, AsyncWrite};
use tide_websockets::async_tungstenite::WebSocketStream;
use tide_websockets::tungstenite::protocol::Role;
use tide_websockets::WebSocketConnection;
use tide_websockets_ext::error::{settle_all_http, settle_all_ws, settle_http, settle_ws};
use tide_websockets_ext::{WebSocketHandle, WebSocketState, WebSocketStateError};

#[derive(Clone, Copy)]
enum Peer {
    Accepts,
    Hangs,
    Fails,
}

struct Pipe(Peer);

impl AsyncRead for Pipe {
    fn poll_read(self: Pin<&mut Self>, _: &mut Context<'_>, _: &mut [u8]) -> Poll<io::Result<usize>> {
        Poll::Pending
    }
}

impl AsyncWrite for Pipe {
    fn poll_write(self: Pin<&mut Self>, _: &mut Context<'_>, buf: &[u8]) -> Poll<io::Result<usize>> {
        match self.0 {
            Peer::Accepts => Poll::Ready(Ok(buf.len())),
            Peer::Hangs => Poll::Pending,
            Peer::Fails => Poll::Ready(Err(io::Error::new(io::ErrorKind::ConnectionReset, "reset"))),
        }
    }

    fn poll_flush(self: Pin<&mut Self>, _: &mut Context<'_>) -> Poll<io::Result<()>> {
        match self.0 {
            Peer::Accepts => Poll::Ready(Ok(())),
            Peer::Hangs => Poll::Pending,
            Peer::Fails => Poll::Ready(Err(io::Error::new(io::ErrorKind::ConnectionReset, "reset"))),
        }
    }

    fn poll_close(self: Pin<&mut Self>, _: &mut Context<'_>) -> Poll<io::Result<()>> {
        Poll::Ready(Ok(()))
    }
}

fn connection(peer: Peer) -> WebSocketConnection {
    let io = http_types::upgrade::Connection::new(Pipe(peer));
    let ws = async_std::task::block_on(WebSocketStream::from_raw_socket(io, Role::Server, None));
    WebSocketConnection::from(ws)
}

fn timed_out() -> TimeoutError {
    async_std::task::block_on(async_std::future::timeout(
        Duration::from_millis(1),
        futures::future::pending::<()>(),
    ))
    .unwrap_err()
}

fn a_handle() -> WebSocketHandle {
    let mut state = WebSocketState::new();
    state.insert(&connection(Peer::Accepts))
}

/// Races each recipient's send against the deadline, all at once, and
/// settles the outcomes in the order in which they finished.
fn broadcast_string(state: &WebSocketState, msg: &str, timeout: Duration) -> Vec<tide_websockets_ext::Result<()>> {
    let sends = state.recipients().into_iter().map(|(h, c)| {
        let msg = msg.to_string();
        async move { (h, c.send_string(msg).timeout(timeout).await) }
    });
    let outcomes = async_std::task::block_on(futures::future::join_all(sends));
    settle_all_ws(outcomes)
}

#[test]
fn inserted_handles_are_distinct() {
    let mut state = WebSocketState::new();
    let conn = connection(Peer::Accepts);
    let mut handles = Vec::new();
    for _ in 0..50 {
        handles.push(state.insert(&conn));
    }
    for i in 0..handles.len() {
        for j in (i + 1)..handles.len() {
            assert_ne!(handles[i], handles[j]);
        }
    }
    for h in &handles {
        assert!(state.contains(h));
    }
}

#[test]
fn handle_text_is_a_uuid() {
    let h = a_handle();
    let text = h.to_string();
    assert_eq!(text.len(), 36);
    assert_eq!(h.as_str(), text.as_str());
}

#[test]
fn delete_absent_is_idempotent() {
    let mut state = WebSocketState::new();
    let kept = state.insert(&connection(Peer::Accepts));
    let other = a_handle();
    assert!(state.delete(&other).is_none());
    assert!(state.contains(&kept));
    assert_eq!(state.recipients().len(), 1);
    assert!(state.delete(&kept).is_some());
    assert!(state.delete(&kept).is_none());
    assert_eq!(state.recipients().len(), 0);
}

#[test]
fn lookup_after_insert_finds_connection() {
    let mut state = WebSocketState::new();
    let h = state.insert(&connection(Peer::Accepts));
    assert!(state.target(&h).is_ok());
}

#[test]
fn lookup_after_delete_is_no_such_client() {
    let mut state = WebSocketState::new();
    let h = state.insert(&connection(Peer::Accepts));
    assert!(state.delete(&h).is_some());
    match state.target(&h) {
        Err(WebSocketStateError::NoSuchWebSocketClient(g)) => assert_eq!(g, h),
        _ => panic!("expected NoSuchWebSocketClient"),
    }
}

#[test]
fn unicast_to_registered_connection_succeeds() {
    let mut state = WebSocketState::new();
    let h = state.insert(&connection(Peer::Accepts));
    let conn = state.target(&h).ok().unwrap();
    let outcome = async_std::task::block_on(conn.send_string("abc".to_string()).timeout(Duration::from_millis(100)));
    assert!(settle_ws(outcome, h).is_ok());
}

#[test]
fn broadcast_isolates_slow_and_failing_peers() {
    let mut state = WebSocketState::new();
    let hang = state.insert(&connection(Peer::Hangs));
    let fail = state.insert(&connection(Peer::Fails));
    let ok = state.insert(&connection(Peer::Accepts));
    let timeout = Duration::from_millis(200);
    let start = Instant::now();
    let results = broadcast_string(&state, "hello", timeout);
    assert!(start.elapsed() < timeout * 3);
    assert_eq!(results.len(), 3);
    let mut timeouts = 0;
    let mut failures = 0;
    let mut successes = 0;
    for r in &results {
        match r {
            Ok(()) => successes += 1,
            Err(WebSocketStateError::Timeout(h)) => {
                assert_eq!(*h, hang);
                timeouts += 1;
            }
            Err(WebSocketStateError::WebSocketError(_, h)) => {
                assert_eq!(*h, fail);
                failures += 1;
            }
            Err(_) => panic!("unexpected error"),
        }
    }
    assert_eq!((timeouts, failures, successes), (1, 1, 1));
    assert!(state.contains(&ok));
}

#[test]
fn broadcast_on_empty_registry_is_empty() {
    let state = WebSocketState::new();
    assert!(state.recipients().is_empty());
    let results = broadcast_string(&state, "hello", Duration::from_millis(50));
    assert!(results.is_empty());
    assert!(settle_all_http(Vec::new()).is_empty());
}

#[test]
fn membership_is_inserted_minus_removed() {
    let mut state = WebSocketState::default();
    let conn = connection(Peer::Accepts);
    let a = state.insert(&conn);
    let b = state.insert(&conn);
    assert!(state.delete(&a).is_some());
    let c = state.insert(&conn);
    assert!(state.delete(&c).is_some());
    let d = state.insert(&conn);
    let members: Vec<WebSocketHandle> = state.recipients().into_iter().map(|(h, _)| h).collect();
    assert_eq!(members.len(), 2);
    assert!(members.contains(&b));
    assert!(members.contains(&d));
    assert!(!state.contains(&a));
    assert!(!state.contains(&c));
}

#[test]
fn timeout_is_attributed_to_its_handle() {
    let h = a_handle();
    match settle_ws(Err(timed_out()), h.clone()) {
        Err(WebSocketStateError::Timeout(g)) => assert_eq!(g, h),
        _ => panic!("expected Timeout"),
    }
    match settle_http(Err(timed_out()), h.clone()) {
        Err(WebSocketStateError::Timeout(g)) => assert_eq!(g, h),
        _ => panic!("expected Timeout"),
    }
}

#[test]
fn hanging_send_times_out_after_deadline() {
    let mut state = WebSocketState::new();
    let h = state.insert(&connection(Peer::Hangs));
    let conn = state.target(&h).ok().unwrap();
    let timeout = Duration::from_millis(100);
    let start = Instant::now();
    let outcome = async_std::task::block_on(conn.send_string("x".to_string()).timeout(timeout));
    assert!(start.elapsed() >= timeout);
    match settle_ws(outcome, h.clone()) {
        Err(WebSocketStateError::Timeout(g)) => assert_eq!(g, h),
        _ => panic!("expected Timeout"),
    }
}

#[test]
fn transport_errors_keep_their_cause() {
    let h = a_handle();
    let ws = settle_ws(Ok(Err(tide_websockets::Error::ConnectionClosed)), h.clone());
    match &ws {
        Err(WebSocketStateError::WebSocketError(tide_websockets::Error::ConnectionClosed, g)) => assert_eq!(*g, h),
        _ => panic!("expected WebSocketError"),
    }
    let e = ws.unwrap_err();
    assert!(e.source().is_some());
    assert_eq!(e.handle(), &h);

    let http = settle_http(
        Ok(Err(http_types::Error::from_str(http_types::StatusCode::BadRequest, "bad payload"))),
        h.clone(),
    );
    let e = http.unwrap_err();
    assert!(matches!(e, WebSocketStateError::HttpError(_, _)));
    assert!(e.source().is_none());
    assert_eq!(e.to_string(), format!("bad payload: websocket client {}", h.to_string()));
}

#[test]
fn completed_sends_settle_ok() {
    let h = a_handle();
    assert!(settle_ws(Ok(Ok(())), h.clone()).is_ok());
    assert!(settle_http(Ok(Ok(())), h.clone()).is_ok());
    let all = settle_all_ws(vec![
        (h.clone(), Ok(Ok(()))),
        (h.clone(), Err(timed_out())),
        (h.clone(), Ok(Err(tide_websockets::Error::AlreadyClosed))),
    ]);
    assert_eq!(all.len(), 3);
    assert!(all[0].is_ok());
    assert!(matches!(all[1], Err(WebSocketStateError::Timeout(_))));
    assert!(matches!(all[2], Err(WebSocketStateError::WebSocketError(_, _))));
}

#[test]
fn error_messages_name_the_handle() {
    let h = a_handle();
    let t = WebSocketStateError::Timeout(h.clone());
    assert_eq!(t.to_string(), format!("Timeout {}", h.to_string()));
    let n = WebSocketStateError::NoSuchWebSocketClient(h.clone());
    assert_eq!(n.to_string(), format!("No such websocket handle: {}", h.to_string()));
    let w = WebSocketStateError::from((tide_websockets::Error::ConnectionClosed, h.clone()));
    assert_eq!(
        w.to_string(),
        format!("{}: websocket client {}", tide_websockets::Error::ConnectionClosed, h.to_string())
    );
}

#[test]
fn end_to_end_echo_shape() {
    let mut state = WebSocketState::new();
    let a = state.insert(&connection(Peer::Accepts));
    let input = "abc";
    let output: String = input.chars().rev().collect();
    let results = broadcast_string(&state, &format!("{} | {}", input, output), Duration::from_millis(100));
    assert_eq!(results.len(), 1);
    assert!(results[0].is_ok());
    assert!(state.delete(&a).is_some());
    assert!(matches!(state.target(&a), Err(WebSocketStateError::NoSuchWebSocketClient(_))));
}
