//! The error type of registry operations.

use crate::websocket_state::WebSocketHandle;
use vstd::prelude::*;
use vstd::string::StringExecFns;

verus! {

#[verifier::external_type_specification]
#[verifier::external_body]
pub struct ExWsError(tide_websockets::Error);

#[verifier::external_type_specification]
#[verifier::external_body]
pub struct ExHttpError(http_types::Error);

#[verifier::external_type_specification]
#[verifier::external_body]
pub struct ExTimeoutError(async_std::future::TimeoutError);

/// Every failure of a send, tagged with the handle it happened on.
#[derive(Debug)]
pub enum WebSocketStateError {
    /// The send did not complete before the deadline.
    Timeout(WebSocketHandle),
    /// The websocket transport reported a failure.
    WebSocketError(tide_websockets::Error, WebSocketHandle),
    /// A lower-level transport or negotiation failure.
    HttpError(http_types::Error, WebSocketHandle),
    /// The handle names no registered connection.
    NoSuchWebSocketClient(WebSocketHandle),
}

/// The result of a registry operation.
pub type Result<T> = std::result::Result<T, WebSocketStateError>;

impl WebSocketStateError {
    /// The handle that the failure is attributed to.
    pub open spec fn handle_of(self) -> WebSocketHandle {
        match self {
            WebSocketStateError::Timeout(h) => h,
            WebSocketStateError::WebSocketError(_, h) => h,
            WebSocketStateError::HttpError(_, h) => h,
            WebSocketStateError::NoSuchWebSocketClient(h) => h,
        }
    }

    /// The handle that the failure is attributed to.
    pub fn handle(&self) -> (r: &WebSocketHandle)
        ensures
            *r == self.handle_of(),
    {
        match self {
            WebSocketStateError::Timeout(h) => h,
            WebSocketStateError::WebSocketError(_, h) => h,
            WebSocketStateError::HttpError(_, h) => h,
            WebSocketStateError::NoSuchWebSocketClient(h) => h,
        }
    }

    /// The underlying error that caused this one, where it keeps a causal chain.
    pub fn source(&self) -> (r: Option<&tide_websockets::Error>)
        ensures
            match self {
                WebSocketStateError::WebSocketError(e, _) => r == Some(e),
                _ => r is None,
            },
    {
        match self {
            WebSocketStateError::Timeout(_) => None,
            WebSocketStateError::WebSocketError(e, _) => Some(e),
            WebSocketStateError::HttpError(_, _) => None,
            WebSocketStateError::NoSuchWebSocketClient(_) => None,
        }
    }

    /// The text that describes the failure.
    pub fn to_string(&self) -> (r: String)
        ensures
            match self {
                WebSocketStateError::Timeout(h) => r@ == "Timeout "@ + h@,
                WebSocketStateError::NoSuchWebSocketClient(h) => r@
                    == "No such websocket handle: "@ + h@,
                WebSocketStateError::WebSocketError(e, h) => exists|t: String|
                    vstd::string::to_string_from_display_ensures(e, t) && r@ == t@
                        + ": websocket client "@ + h@,
                WebSocketStateError::HttpError(e, h) => exists|t: String|
                    vstd::string::to_string_from_display_ensures(e, t) && r@ == t@
                        + ": websocket client "@ + h@,
            },
    {
        match self {
            WebSocketStateError::Timeout(h) => {
                let mut r = String::from_str("Timeout ");
                r.append(h.as_str());
                r
            },
            WebSocketStateError::NoSuchWebSocketClient(h) => {
                let mut r = String::from_str("No such websocket handle: ");
                r.append(h.as_str());
                r
            },
            WebSocketStateError::WebSocketError(e, h) => {
                let t = e.to_string();
                let mut r = t.clone();
                r.append(": websocket client ");
                r.append(h.as_str());
                r
            },
            WebSocketStateError::HttpError(e, h) => {
                let t = e.to_string();
                let mut r = t.clone();
                r.append(": websocket client ");
                r.append(h.as_str());
                r
            },
        }
    }
}

impl From<(tide_websockets::Error, WebSocketHandle)> for WebSocketStateError {
    fn from(other: (tide_websockets::Error, WebSocketHandle)) -> (r: Self) {
        WebSocketStateError::WebSocketError(other.0, other.1)
    }
}

impl vstd::std_specs::convert::FromSpecImpl<(tide_websockets::Error, WebSocketHandle)> for WebSocketStateError {
    open spec fn obeys_from_spec() -> bool {
        true
    }

    open spec fn from_spec(other: (tide_websockets::Error, WebSocketHandle)) -> Self {
        WebSocketStateError::WebSocketError(other.0, other.1)
    }
}

impl From<(http_types::Error, WebSocketHandle)> for WebSocketStateError {
    fn from(other: (http_types::Error, WebSocketHandle)) -> (r: Self) {
        WebSocketStateError::HttpError(other.0, other.1)
    }
}

impl vstd::std_specs::convert::FromSpecImpl<(http_types::Error, WebSocketHandle)> for WebSocketStateError {
    open spec fn obeys_from_spec() -> bool {
        true
    }

    open spec fn from_spec(other: (http_types::Error, WebSocketHandle)) -> Self {
        WebSocketStateError::HttpError(other.0, other.1)
    }
}

impl From<(async_std::future::TimeoutError, WebSocketHandle)> for WebSocketStateError {
    fn from(other: (async_std::future::TimeoutError, WebSocketHandle)) -> (r: Self) {
        WebSocketStateError::Timeout(other.1)
    }
}

impl vstd::std_specs::convert::FromSpecImpl<(async_std::future::TimeoutError, WebSocketHandle)> for WebSocketStateError {
    open spec fn obeys_from_spec() -> bool {
        true
    }

    open spec fn from_spec(other: (async_std::future::TimeoutError, WebSocketHandle)) -> Self {
        WebSocketStateError::Timeout(other.1)
    }
}

/// What a websocket send to `handle` comes to, given how its race against the
/// deadline ended: the deadline passing first gives `Timeout`, a transport
/// failure gives `WebSocketError`, and a completed send gives `Ok`.
pub open spec fn attributed_ws(
    outcome: std::result::Result<std::result::Result<(), tide_websockets::Error>, async_std::future::TimeoutError>,
    handle: WebSocketHandle,
) -> Result<()> {
    match outcome {
        Err(_) => Err(WebSocketStateError::Timeout(handle)),
        Ok(Err(e)) => Err(WebSocketStateError::WebSocketError(e, handle)),
        Ok(Ok(())) => Ok(()),
    }
}

/// What a structured send to `handle` comes to, given how its race against
/// the deadline ended: the deadline passing first gives `Timeout`, a failure
/// gives `HttpError`, and a completed send gives `Ok`.
pub open spec fn attributed_http(
    outcome: std::result::Result<std::result::Result<(), http_types::Error>, async_std::future::TimeoutError>,
    handle: WebSocketHandle,
) -> Result<()> {
    match outcome {
        Err(_) => Err(WebSocketStateError::Timeout(handle)),
        Ok(Err(e)) => Err(WebSocketStateError::HttpError(e, handle)),
        Ok(Ok(())) => Ok(()),
    }
}

/// Attributes the outcome of a websocket send to `handle`.
pub fn settle_ws(
    outcome: std::result::Result<std::result::Result<(), tide_websockets::Error>, async_std::future::TimeoutError>,
    handle: WebSocketHandle,
) -> (r: Result<()>)
    ensures
        r == attributed_ws(outcome, handle),
{
    match outcome {
        Err(t) => Err(WebSocketStateError::from((t, handle))),
        Ok(Err(e)) => Err(WebSocketStateError::from((e, handle))),
        Ok(Ok(())) => Ok(()),
    }
}

/// Attributes the outcome of a structured send to `handle`.
pub fn settle_http(
    outcome: std::result::Result<std::result::Result<(), http_types::Error>, async_std::future::TimeoutError>,
    handle: WebSocketHandle,
) -> (r: Result<()>)
    ensures
        r == attributed_http(outcome, handle),
{
    match outcome {
        Err(t) => Err(WebSocketStateError::from((t, handle))),
        Ok(Err(e)) => Err(WebSocketStateError::from((e, handle))),
        Ok(Ok(())) => Ok(()),
    }
}

/// The results of a broadcast of websocket sends: one per recipient, in the
/// order in which the sends finished.
pub fn settle_all_ws(
    outcomes: Vec<
        (
            WebSocketHandle,
            std::result::Result<std::result::Result<(), tide_websockets::Error>, async_std::future::TimeoutError>,
        ),
    >,
) -> (r: Vec<Result<()>>)
    ensures
        r@.len() == outcomes@.len(),
        forall|i: int|
            0 <= i < r@.len() ==> r@[i] == attributed_ws(outcomes@[i].1, outcomes@[i].0),
{
    let ghost all = outcomes@;
    let mut r: Vec<Result<()>> = Vec::new();
    for item in it: outcomes
        invariant
            it.seq() == all,
            r@.len() == it.index(),
            forall|j: int| 0 <= j < r@.len() ==> r@[j] == attributed_ws(all[j].1, all[j].0),
    {
        let (handle, outcome) = item;
        r.push(settle_ws(outcome, handle));
    }
    r
}

/// The results of a broadcast of structured sends: one per recipient, in the
/// order in which the sends finished.
pub fn settle_all_http(
    outcomes: Vec<
        (
            WebSocketHandle,
            std::result::Result<std::result::Result<(), http_types::Error>, async_std::future::TimeoutError>,
        ),
    >,
) -> (r: Vec<Result<()>>)
    ensures
        r@.len() == outcomes@.len(),
        forall|i: int|
            0 <= i < r@.len() ==> r@[i] == attributed_http(outcomes@[i].1, outcomes@[i].0),
{
    let ghost all = outcomes@;
    let mut r: Vec<Result<()>> = Vec::new();
    for item in it: outcomes
        invariant
            it.seq() == all,
            r@.len() == it.index(),
            forall|j: int| 0 <= j < r@.len() ==> r@[j] == attributed_http(all[j].1, all[j].0),
    {
        let (handle, outcome) = item;
        r.push(settle_http(outcome, handle));
    }
    r
}

} // verus!
