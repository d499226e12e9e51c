//! Live reload: what a browser connection is sent, and what it may send.
//!
//! Each connection forwards every successful rebuild as one `reload`
//! message and reads what the browser sends. A browser may send control
//! frames only; a text or binary frame is a violation of the protocol and
//! ends that connection, and no other.

use crate::rebuild::{Rebuild, RebuildView};
use crate::text::{decimal, decimal_text, join_texts, joined, texts};
use vstd::prelude::*;
use vstd::string::*;

verus! {

/// What `serde_json::to_string` gives for a list of strings: a JSON array of
/// JSON strings.
pub uninterp spec fn json_of_texts(items: Seq<Seq<char>>) -> Seq<char>;

/// Calls `serde_json::to_string` on a list of strings. Trusted: the result
/// is the named result of that function on the same list. Its documentation
/// names two ways in which it fails, a `Serialize` impl that chooses to fail
/// and a map whose keys are no strings, and a list of strings is open to
/// neither.
#[verifier::external_body]
fn json_list(items: &Vec<String>) -> (result: String)
    ensures
        result@ == json_of_texts(texts(items@)),
{
    match serde_json::to_string(items) {
        Ok(text) => text,
        Err(_) => String::new(),
    }
}

/// The message that tells a browser to reload because these paths changed.
pub open spec fn reload_text(paths: Seq<Seq<char>>) -> Seq<char> {
    "{\"type\":\"reload\",\"paths\":"@ + json_of_texts(paths) + "}"@
}

/// Puts an encoded list of paths into a `reload` message.
pub fn frame_reload(encoded_paths: &str) -> (text: String)
    ensures
        text@ == "{\"type\":\"reload\",\"paths\":"@ + encoded_paths@ + "}"@,
{
    let mut text = String::from_str("{\"type\":\"reload\",\"paths\":");
    text.append(encoded_paths);
    text.append("}");
    text
}

/// Writes the message that tells a browser to reload because these paths
/// changed.
pub fn reload_message(paths: &Vec<String>) -> (text: String)
    ensures
        text@ == reload_text(texts(paths@)),
{
    let encoded = json_list(paths);
    frame_reload(encoded.as_str())
}

/// Why a browser closed its connection.
#[derive(Debug, Clone)]
pub struct CloseFrame {
    pub code: u16,
    pub reason: String,
}

/// A frame that a browser sent.
#[derive(Debug, Clone)]
pub enum Frame {
    Text(String),
    Binary(Vec<u8>),
    Ping(Vec<u8>),
    Pong(Vec<u8>),
    Close(Option<CloseFrame>),
}

pub enum FrameView {
    Text(Seq<char>),
    Binary(Seq<u8>),
    Ping(Seq<u8>),
    Pong(Seq<u8>),
    Close(Option<(u16, Seq<char>)>),
}

impl View for Frame {
    type V = FrameView;

    open spec fn view(&self) -> FrameView {
        match self {
            Frame::Text(content) => FrameView::Text(content@),
            Frame::Binary(content) => FrameView::Binary(content@),
            Frame::Ping(bytes) => FrameView::Ping(bytes@),
            Frame::Pong(bytes) => FrameView::Pong(bytes@),
            Frame::Close(Some(frame)) => FrameView::Close(Some((frame.code, frame.reason@))),
            Frame::Close(None) => FrameView::Close(None),
        }
    }
}

/// What was read from a browser: a frame, or the reason why none could be
/// read.
pub open spec fn inbound_view(inbound: Result<Frame, String>) -> Result<FrameView, Seq<char>> {
    match inbound {
        Ok(frame) => Ok(frame@),
        Err(reason) => Err(reason@),
    }
}

/// What is known of a connection after a frame.
#[derive(Debug)]
pub enum WebSocketState {
    Open,
    Closed { reason: Option<String> },
}

pub enum WebSocketStateView {
    Open,
    Closed { reason: Option<Seq<char>> },
}

impl View for WebSocketState {
    type V = WebSocketStateView;

    open spec fn view(&self) -> WebSocketStateView {
        match self {
            WebSocketState::Open => WebSocketStateView::Open,
            WebSocketState::Closed { reason: Some(reason) } => WebSocketStateView::Closed {
                reason: Some(reason@),
            },
            WebSocketState::Closed { reason: None } => WebSocketStateView::Closed { reason: None },
        }
    }
}

/// What went wrong on a connection.
#[derive(Debug)]
pub enum WebSocketError {
    Receive { source: String },
    UnexpectedString(String),
    UnexpectedBytes(Vec<u8>),
}

pub enum WebSocketErrorView {
    Receive { source: Seq<char> },
    UnexpectedString(Seq<char>),
    UnexpectedBytes(Seq<u8>),
}

impl View for WebSocketError {
    type V = WebSocketErrorView;

    open spec fn view(&self) -> WebSocketErrorView {
        match self {
            WebSocketError::Receive { source } => WebSocketErrorView::Receive { source: source@ },
            WebSocketError::UnexpectedString(content) => WebSocketErrorView::UnexpectedString(
                content@,
            ),
            WebSocketError::UnexpectedBytes(content) => WebSocketErrorView::UnexpectedBytes(
                content@,
            ),
        }
    }
}

/// How a close frame is described: its reason, where it gives one, and its
/// code.
pub open spec fn close_text(code: u16, reason: Seq<char>) -> Seq<char> {
    if reason.len() > 0 {
        "Reason: "@ + reason + ";"@ + "Code: "@ + decimal(code as nat)
    } else {
        "Code: "@ + decimal(code as nat)
    }
}

/// What a frame means for its connection. Control frames are in order: a
/// ping or a pong leaves the connection open, and a close frame closes it.
/// A text or binary frame is a violation, and so is a failure to read.
pub open spec fn handled(inbound: Result<FrameView, Seq<char>>) -> Result<
    WebSocketStateView,
    WebSocketErrorView,
> {
    match inbound {
        Ok(FrameView::Text(content)) => Err(WebSocketErrorView::UnexpectedString(content)),
        Ok(FrameView::Binary(content)) => Err(WebSocketErrorView::UnexpectedBytes(content)),
        Ok(FrameView::Ping(_)) => Ok(WebSocketStateView::Open),
        Ok(FrameView::Pong(_)) => Ok(WebSocketStateView::Open),
        Ok(FrameView::Close(Some((code, reason)))) => Ok(
            WebSocketStateView::Closed { reason: Some(close_text(code, reason)) },
        ),
        Ok(FrameView::Close(None)) => Ok(WebSocketStateView::Closed { reason: None }),
        Err(source) => Err(WebSocketErrorView::Receive { source }),
    }
}

/// The state or the error of `handle`'s result, as plain text.
pub open spec fn handled_view(result: Result<WebSocketState, WebSocketError>) -> Result<
    WebSocketStateView,
    WebSocketErrorView,
> {
    match result {
        Ok(state) => Ok(state@),
        Err(error) => Err(error@),
    }
}

/// Judges what was read from a browser.
pub fn handle(message_result: Result<Frame, String>) -> (result: Result<
    WebSocketState,
    WebSocketError,
>)
    ensures
        handled_view(result) == handled(inbound_view(message_result)),
{
    match message_result {
        Ok(message) => match message {
            Frame::Text(content) => Err(WebSocketError::UnexpectedString(content)),
            Frame::Binary(content) => Err(WebSocketError::UnexpectedBytes(content)),
            Frame::Ping(_) => Ok(WebSocketState::Open),
            Frame::Pong(_) => Ok(WebSocketState::Open),
            Frame::Close(maybe_frame) => match maybe_frame {
                Some(frame) => {
                    let mut text = String::new();
                    if frame.reason.as_str().unicode_len() > 0 {
                        text.append("Reason: ");
                        text.append(frame.reason.as_str());
                        text.append(";");
                    }
                    text.append("Code: ");
                    let code = decimal_text(frame.code as u64);
                    text.append(code.as_str());
                    assert(text@ =~= close_text(frame.code, frame.reason@));
                    Ok(WebSocketState::Closed { reason: Some(text) })
                },
                None => Ok(WebSocketState::Closed { reason: None }),
            },
        },
        Err(source) => Err(WebSocketError::Receive { source }),
    }
}

/// How the state of a connection reads in a log.
pub open spec fn state_text(state: WebSocketStateView) -> Seq<char> {
    match state {
        WebSocketStateView::Open => "WebSocket state: open"@,
        WebSocketStateView::Closed { reason: Some(reason) } => "WebSocket state: closed. Cause:\n"@
            + reason,
        WebSocketStateView::Closed { reason: None } => "WebSocket state: closed."@,
    }
}

/// The decimal numbers of a list of bytes.
pub open spec fn byte_texts(bytes: Seq<u8>) -> Seq<Seq<char>> {
    bytes.map_values(|byte: u8| decimal(byte as nat))
}

/// How an error on a connection reads in a log.
pub open spec fn error_text(error: WebSocketErrorView) -> Seq<char> {
    match error {
        WebSocketErrorView::Receive { source } => "Could not receive WebSocket message:\n"@
            + source,
        WebSocketErrorView::UnexpectedString(content) =>
            "Unexpectedly received string WebSocket message with content:\n"@ + content,
        WebSocketErrorView::UnexpectedBytes(content) =>
            "Unexpectedly received binary WebSocket message with bytes:\n"@ + "["@ + joined(
                byte_texts(content),
                ", "@,
            ) + "]"@,
    }
}

impl WebSocketState {
    /// Describes the state for a log.
    pub fn describe(&self) -> (text: String)
        ensures
            text@ == state_text(self@),
    {
        match self {
            WebSocketState::Open => String::from_str("WebSocket state: open"),
            WebSocketState::Closed { reason: Some(reason) } => {
                let mut text = String::from_str("WebSocket state: closed. Cause:\n");
                text.append(reason.as_str());
                text
            },
            WebSocketState::Closed { reason: None } => String::from_str(
                "WebSocket state: closed.",
            ),
        }
    }
}

impl WebSocketError {
    /// Describes the error for a log.
    pub fn describe(&self) -> (text: String)
        ensures
            text@ == error_text(self@),
    {
        match self {
            WebSocketError::Receive { source } => {
                let mut text = String::from_str("Could not receive WebSocket message:\n");
                text.append(source.as_str());
                text
            },
            WebSocketError::UnexpectedString(content) => {
                let mut text = String::from_str(
                    "Unexpectedly received string WebSocket message with content:\n",
                );
                text.append(content.as_str());
                text
            },
            WebSocketError::UnexpectedBytes(content) => {
                let mut numbers: Vec<String> = Vec::new();
                let mut i: usize = 0;
                while i < content.len()
                    invariant
                        i <= content.len(),
                        numbers.len() == i,
                        forall|j: int| 0 <= j < i ==> numbers[j]@ == decimal(content[j] as nat),
                    decreases content.len() - i,
                {
                    numbers.push(decimal_text(content[i] as u64));
                    i += 1;
                }
                assert(texts(numbers@) =~= byte_texts(content@));
                let list = join_texts(&numbers, ", ");
                let mut text = String::from_str(
                    "Unexpectedly received binary WebSocket message with bytes:\n",
                );
                text.append("[");
                text.append(list.as_str());
                text.append("]");
                assert(text@ =~= error_text(self@));
                text
            },
        }
    }
}

/// Whether a connection is still served.
#[derive(Debug, Clone, Copy, PartialEq, Eq, Structural)]
pub enum ConnectionState {
    Open,
    Ended,
}

/// What can happen to a connection.
#[derive(Debug)]
pub enum ConnectionEvent {
    /// A rebuild was published.
    Published(Rebuild),
    /// The connection fell behind and this many rebuilds went by unseen.
    Lagged { skipped: u64 },
    /// No rebuild will be published any more.
    PublisherGone,
    /// Something was read from the browser.
    Received(Result<Frame, String>),
    /// The browser will send nothing more.
    InboundEnded,
}

pub enum ConnectionEventView {
    Published(RebuildView),
    Lagged { skipped: u64 },
    PublisherGone,
    Received(Result<FrameView, Seq<char>>),
    InboundEnded,
}

impl View for ConnectionEvent {
    type V = ConnectionEventView;

    open spec fn view(&self) -> ConnectionEventView {
        match self {
            ConnectionEvent::Published(rebuild) => ConnectionEventView::Published(rebuild@),
            ConnectionEvent::Lagged { skipped } => ConnectionEventView::Lagged {
                skipped: *skipped,
            },
            ConnectionEvent::PublisherGone => ConnectionEventView::PublisherGone,
            ConnectionEvent::Received(inbound) => ConnectionEventView::Received(
                inbound_view(*inbound),
            ),
            ConnectionEvent::InboundEnded => ConnectionEventView::InboundEnded,
        }
    }
}

/// What a connection asks of whoever drives it.
#[derive(Debug)]
pub enum ConnectionAction {
    /// Send this text to the browser, then go on.
    Send { text: String },
    /// Go on waiting.
    Wait,
    /// Close the connection.
    End,
}

pub enum ConnectionActionView {
    Send { text: Seq<char> },
    Wait,
    End,
}

impl View for ConnectionAction {
    type V = ConnectionActionView;

    open spec fn view(&self) -> ConnectionActionView {
        match self {
            ConnectionAction::Send { text } => ConnectionActionView::Send { text: text@ },
            ConnectionAction::Wait => ConnectionActionView::Wait,
            ConnectionAction::End => ConnectionActionView::End,
        }
    }
}

/// One step of a connection: its state after an event, and what to do.
///
/// An open connection forwards a successful rebuild as one `reload` message
/// with the rebuild's paths. A failed rebuild is not forwarded, and neither
/// it nor a lag ends the connection. The connection ends when no rebuild
/// will come any more, when the browser is done, and when what the browser
/// sent is no control frame. An ended connection stays ended.
pub open spec fn connection_step(state: ConnectionState, event: ConnectionEventView) -> (
    ConnectionState,
    ConnectionActionView,
) {
    match state {
        ConnectionState::Ended => (ConnectionState::Ended, ConnectionActionView::End),
        ConnectionState::Open => match event {
            ConnectionEventView::Published(RebuildView::Success { paths }) => (
                ConnectionState::Open,
                ConnectionActionView::Send { text: reload_text(paths) },
            ),
            ConnectionEventView::Published(RebuildView::Failure { cause }) => (
                ConnectionState::Open,
                ConnectionActionView::Wait,
            ),
            ConnectionEventView::Lagged { skipped } => (
                ConnectionState::Open,
                ConnectionActionView::Wait,
            ),
            ConnectionEventView::PublisherGone => (
                ConnectionState::Ended,
                ConnectionActionView::End,
            ),
            ConnectionEventView::Received(inbound) => if handled(inbound) is Ok {
                (ConnectionState::Open, ConnectionActionView::Wait)
            } else {
                (ConnectionState::Ended, ConnectionActionView::End)
            },
            ConnectionEventView::InboundEnded => (
                ConnectionState::Ended,
                ConnectionActionView::End,
            ),
        },
    }
}

/// Takes a connection one step further.
pub fn serve_connection(state: ConnectionState, event: ConnectionEvent) -> (result: (
    ConnectionState,
    ConnectionAction,
))
    ensures
        (result.0, result.1@) == connection_step(state, event@),
{
    match state {
        ConnectionState::Ended => (ConnectionState::Ended, ConnectionAction::End),
        ConnectionState::Open => match event {
            ConnectionEvent::Published(Rebuild::Success { paths }) => (
                ConnectionState::Open,
                ConnectionAction::Send { text: reload_message(&paths) },
            ),
            ConnectionEvent::Published(Rebuild::Failure { cause: _ }) => (
                ConnectionState::Open,
                ConnectionAction::Wait,
            ),
            ConnectionEvent::Lagged { skipped: _ } => (
                ConnectionState::Open,
                ConnectionAction::Wait,
            ),
            ConnectionEvent::PublisherGone => (ConnectionState::Ended, ConnectionAction::End),
            ConnectionEvent::Received(inbound) => match handle(inbound) {
                Ok(_) => (ConnectionState::Open, ConnectionAction::Wait),
                Err(_) => (ConnectionState::Ended, ConnectionAction::End),
            },
            ConnectionEvent::InboundEnded => (ConnectionState::Ended, ConnectionAction::End),
        },
    }
}

/// A connection together with everything it has been sent so far.
pub struct Subscriber {
    pub state: ConnectionState,
    pub sent: Seq<Seq<char>>,
}

/// A subscriber after an event: its connection takes one step, and what the
/// step sends is added to what was sent.
pub open spec fn deliver(subscriber: Subscriber, event: ConnectionEventView) -> Subscriber {
    let next = connection_step(subscriber.state, event);
    Subscriber {
        state: next.0,
        sent: match next.1 {
            ConnectionActionView::Send { text } => subscriber.sent.push(text),
            _ => subscriber.sent,
        },
    }
}

/// The subscribers after one more browser has connected: it is open and has
/// been sent nothing.
pub open spec fn subscribe(subscribers: Seq<Subscriber>) -> Seq<Subscriber> {
    subscribers.push(Subscriber { state: ConnectionState::Open, sent: Seq::empty() })
}

/// The subscribers after a rebuild has been published: each of them, and
/// nobody else, is handed the rebuild.
pub open spec fn publish(subscribers: Seq<Subscriber>, rebuild: RebuildView) -> Seq<Subscriber> {
    Seq::new(
        subscribers.len(),
        |i: int| deliver(subscribers[i], ConnectionEventView::Published(rebuild)),
    )
}

/// The subscribers after something was read from the browser of one of
/// them.
pub open spec fn receive(
    subscribers: Seq<Subscriber>,
    from: int,
    inbound: Result<FrameView, Seq<char>>,
) -> Seq<Subscriber> {
    subscribers.update(from, deliver(subscribers[from], ConnectionEventView::Received(inbound)))
}

/// A browser that is connected when a rebuild succeeds is sent exactly one
/// message for it, a `reload` with the paths of that rebuild. A browser that
/// connects afterwards is sent nothing for it.
pub proof fn reload_reaches_the_connected(
    subscribers: Seq<Subscriber>,
    paths: Seq<Seq<char>>,
    who: int,
)
    requires
        0 <= who < subscribers.len(),
        subscribers[who].state == ConnectionState::Open,
    ensures
        publish(subscribers, RebuildView::Success { paths })[who].sent
            == subscribers[who].sent.push(reload_text(paths)),
        publish(subscribers, RebuildView::Success { paths })[who].state == ConnectionState::Open,
        subscribe(publish(subscribers, RebuildView::Success { paths })).last().sent
            == Seq::<Seq<char>>::empty(),
        publish(subscribe(subscribers), RebuildView::Success { paths }).last().sent
            == seq![reload_text(paths)],
{
    let rebuild = RebuildView::Success { paths };
    let joined = subscribe(subscribers);
    assert(publish(joined, rebuild).last() == deliver(
        joined[joined.len() - 1],
        ConnectionEventView::Published(rebuild),
    ));
    assert(Seq::<Seq<char>>::empty().push(reload_text(paths)) =~= seq![reload_text(paths)]);
}

/// A failed rebuild is sent to nobody and ends no connection.
pub proof fn failure_is_not_forwarded(
    subscribers: Seq<Subscriber>,
    cause: Seq<char>,
    who: int,
)
    requires
        0 <= who < subscribers.len(),
    ensures
        publish(subscribers, RebuildView::Failure { cause })[who].sent == subscribers[who].sent,
        publish(subscribers, RebuildView::Failure { cause })[who].state
            == subscribers[who].state,
{
}

/// A browser that sends a text or a binary frame has its own connection
/// ended and no other: every other connection stands as it stood, and where
/// it is open it is sent the next successful rebuild.
pub proof fn violation_ends_one_connection(
    subscribers: Seq<Subscriber>,
    offender: int,
    frame: FrameView,
    other: int,
    paths: Seq<Seq<char>>,
)
    requires
        0 <= offender < subscribers.len(),
        0 <= other < subscribers.len(),
        other != offender,
        frame is Text || frame is Binary,
    ensures
        receive(subscribers, offender, Ok(frame))[offender].state == ConnectionState::Ended,
        receive(subscribers, offender, Ok(frame))[offender].sent == subscribers[offender].sent,
        receive(subscribers, offender, Ok(frame))[other] == subscribers[other],
        subscribers[other].state == ConnectionState::Open ==> publish(
            receive(subscribers, offender, Ok(frame)),
            RebuildView::Success { paths },
        )[other].sent == subscribers[other].sent.push(reload_text(paths)),
        publish(
            receive(subscribers, offender, Ok(frame)),
            RebuildView::Success { paths },
        )[offender].sent == subscribers[offender].sent,
{
}

} // verus!
