//! WebSocket message translation. The downstream (client-facing) endpoint and
//! the upstream endpoint use distinct message representations with the same
//! application-level variants; the upstream one also has a raw protocol frame
//! variant, which the relay drops instead of forwarding. Translation preserves
//! every payload byte and every close code and reason.
use vstd::prelude::*;

verus! {

/// A close frame: status code and UTF-8 reason.
pub struct CloseInfo {
    pub code: u16,
    pub reason: String,
}

/// A message on the downstream (client) side.
pub enum ClientMessage {
    Text(String),
    Binary(Vec<u8>),
    Ping(Vec<u8>),
    Pong(Vec<u8>),
    Close(Option<CloseInfo>),
}

/// A message on the upstream side; `Frame` is a raw protocol frame that only
/// the upstream library surfaces.
pub enum UpstreamMessage {
    Text(String),
    Binary(Vec<u8>),
    Ping(Vec<u8>),
    Pong(Vec<u8>),
    Close(Option<CloseInfo>),
    Frame(Vec<u8>),
}

/// The mathematical shape of an application-level message.
pub enum AppMessageView {
    Text(Seq<char>),
    Binary(Seq<u8>),
    Ping(Seq<u8>),
    Pong(Seq<u8>),
    Close(Option<(u16, Seq<char>)>),
}

/// The mathematical shape of an upstream message.
pub enum UpMessageView {
    App(AppMessageView),
    Frame(Seq<u8>),
}

pub open spec fn close_view(c: Option<CloseInfo>) -> Option<(u16, Seq<char>)> {
    match c {
        Some(ci) => Some((ci.code, ci.reason@)),
        None => None,
    }
}

impl View for ClientMessage {
    type V = AppMessageView;

    open spec fn view(&self) -> AppMessageView {
        match self {
            ClientMessage::Text(s) => AppMessageView::Text(s@),
            ClientMessage::Binary(b) => AppMessageView::Binary(b@),
            ClientMessage::Ping(b) => AppMessageView::Ping(b@),
            ClientMessage::Pong(b) => AppMessageView::Pong(b@),
            ClientMessage::Close(c) => AppMessageView::Close(close_view(*c)),
        }
    }
}

impl View for UpstreamMessage {
    type V = UpMessageView;

    open spec fn view(&self) -> UpMessageView {
        match self {
            UpstreamMessage::Text(s) => UpMessageView::App(AppMessageView::Text(s@)),
            UpstreamMessage::Binary(b) => UpMessageView::App(AppMessageView::Binary(b@)),
            UpstreamMessage::Ping(b) => UpMessageView::App(AppMessageView::Ping(b@)),
            UpstreamMessage::Pong(b) => UpMessageView::App(AppMessageView::Pong(b@)),
            UpstreamMessage::Close(c) => UpMessageView::App(
                AppMessageView::Close(close_view(*c)),
            ),
            UpstreamMessage::Frame(b) => UpMessageView::Frame(b@),
        }
    }
}

/// Translating a client message upstream keeps the variant and the payload.
pub open spec fn to_upstream_view(m: AppMessageView) -> UpMessageView {
    UpMessageView::App(m)
}

/// Translating an upstream message downstream keeps application-level
/// messages whole and drops raw frames.
pub open spec fn to_client_view(m: UpMessageView) -> Option<AppMessageView> {
    match m {
        UpMessageView::App(a) => Some(a),
        UpMessageView::Frame(_) => None,
    }
}

/// Translation downstream-to-upstream is total and undone exactly by the
/// upstream-to-downstream translation: payloads, close codes and reasons all
/// survive the round trip.
pub proof fn lemma_round_trip_from_client(m: AppMessageView)
    ensures
        to_client_view(to_upstream_view(m)) == Some(m),
{
}

/// Every upstream message except a raw frame survives the round trip through
/// the downstream representation unchanged.
pub proof fn lemma_round_trip_from_upstream(m: UpMessageView)
    requires
        !(m is Frame),
    ensures
        to_client_view(m) matches Some(a) && to_upstream_view(a) == m,
{
}

/// Translate a downstream message for the upstream endpoint; total on all
/// five variants, identity on the payload.
pub fn client_to_upstream(m: ClientMessage) -> (r: UpstreamMessage)
    ensures
        r@ == to_upstream_view(m@),
{
    match m {
        ClientMessage::Text(s) => UpstreamMessage::Text(s),
        ClientMessage::Binary(b) => UpstreamMessage::Binary(b),
        ClientMessage::Ping(b) => UpstreamMessage::Ping(b),
        ClientMessage::Pong(b) => UpstreamMessage::Pong(b),
        ClientMessage::Close(c) => UpstreamMessage::Close(c),
    }
}

/// Translate an upstream message for the downstream endpoint; raw frames are
/// dropped, everything else is the identity on the payload.
pub fn upstream_to_client(m: UpstreamMessage) -> (r: Option<ClientMessage>)
    ensures
        r is None <==> m@ is Frame,
        r matches Some(c) ==> to_client_view(m@) == Some(c@),
{
    match m {
        UpstreamMessage::Text(s) => Some(ClientMessage::Text(s)),
        UpstreamMessage::Binary(b) => Some(ClientMessage::Binary(b)),
        UpstreamMessage::Ping(b) => Some(ClientMessage::Ping(b)),
        UpstreamMessage::Pong(b) => Some(ClientMessage::Pong(b)),
        UpstreamMessage::Close(c) => Some(ClientMessage::Close(c)),
        UpstreamMessage::Frame(_) => None,
    }
}

} // verus!
