//! What the web server does with requests, WebSocket messages and connections.
use crate::config;
use crate::config::RdpConfig;
use crate::h264;
use crate::h264::{encode_video_frame, VideoFrame};
use crate::rdp::{ClientEvent, ServerEvent, ServerStatus};
use vstd::prelude::*;

verus! {

/// The longest WebSocket message and the longest frame that are accepted.
pub const MAX_MESSAGE_SIZE: usize = 65536;

/// How long a TLS handshake may take.
pub const TLS_HANDSHAKE_TIMEOUT_SECS: u64 = 5;

/// How long to wait when a connection could not be accepted.
pub const ACCEPT_PAUSE_SECS: u64 = 1;

/// The desktop size that a browser asks for.
#[derive(Debug, Clone, Copy, PartialEq, Eq)]
pub struct RdpQuery {
    pub width: Option<u16>,
    pub height: Option<u16>,
}

impl Default for RdpQuery {
    fn default() -> (query: RdpQuery)
        ensures
            query.width is None,
            query.height is None,
    {
        RdpQuery { width: None, height: None }
    }
}

/// The side that is asked for, or the configured one.
pub open spec fn chosen(configured: u16, asked: Option<u16>) -> u16 {
    match asked {
        Some(side) => side,
        None => configured,
    }
}

/// Whether `session` is `base` with the size that `query` asks for.
pub open spec fn resized(base: RdpConfig, query: RdpQuery, session: RdpConfig) -> bool {
    &&& session.same_endpoint(base)
    &&& session.width == chosen(base.width, query.width)
    &&& session.height == chosen(base.height, query.height)
}

/// The configuration of one session: the desktop size is the browser's, all
/// else is the server's. A desktop that is too small is refused.
pub fn rdp_config_with_query(base: &RdpConfig, query: &RdpQuery) -> (result: Result<
    RdpConfig,
    &'static str,
>)
    ensures
        match result {
            Ok(session) => {
                &&& resized(*base, *query, session)
                &&& config::usable_size(session.width, session.height)
            },
            Err(message) => {
                &&& !config::usable_size(
                    chosen(base.width, query.width),
                    chosen(base.height, query.height),
                )
                &&& message@ == "RDP width and height must be at least 200"@
            },
        },
{
    let mut session = base.clone();
    if let Some(width) = query.width {
        session.width = width;
    }
    if let Some(height) = query.height {
        session.height = height;
    }
    if session.width < config::MIN_DESKTOP_SIDE || session.height < config::MIN_DESKTOP_SIDE {
        return Err("RDP width and height must be at least 200");
    }
    Ok(session)
}

/// A message that came from the browser.
#[derive(Debug)]
pub enum Inbound {
    /// A text message that is a client event.
    Event(ClientEvent),
    /// A text message that is none.
    InvalidText,
    /// A ping, a pong or a binary message.
    Other,
    /// The browser closes the connection.
    Close,
    /// The connection failed.
    Failed,
}

/// Whether nothing is read any more behind this message.
pub open spec fn ends_reading(message: Inbound) -> bool {
    message is Close || message is Failed
}

/// The client events of a series of messages, as far as they are read.
pub open spec fn client_events(messages: Seq<Inbound>) -> Seq<ClientEvent>
    decreases messages.len(),
{
    if messages.len() == 0 || messages[0] is Close || messages[0] is Failed {
        Seq::empty()
    } else if let Inbound::Event(event) = messages[0] {
        seq![event] + client_events(messages.drop_first())
    } else {
        client_events(messages.drop_first())
    }
}

/// The event that a reader hands out for a message.
pub open spec fn event_of(open: bool, message: Inbound) -> Option<ClientEvent> {
    match message {
        Inbound::Event(event) if open => Some(event),
        _ => None,
    }
}

/// Whether a reader is open behind a message.
pub open spec fn open_behind_message(open: bool, message: Inbound) -> bool {
    open && !ends_reading(message)
}

/// Whether a reader is open behind an event that the session takes or not.
pub open spec fn open_behind_event(open: bool, taken: bool) -> bool {
    open && taken
}

/// The reading side of a browser's WebSocket.
#[derive(Debug)]
pub struct SocketReader {
    pub open: bool,
}

impl SocketReader {
    /// A reader that has read nothing yet.
    pub fn new() -> (reader: SocketReader)
        ensures
            reader.open,
    {
        SocketReader { open: true }
    }

    /// Takes the next message, and gives the event to hand to the session. The
    /// reader closes when the connection does.
    pub fn receive(&mut self, message: Inbound) -> (event: Option<ClientEvent>)
        ensures
            event == event_of(old(self).open, message),
            final(self).open == open_behind_message(old(self).open, message),
    {
        if !self.open {
            return None;
        }
        match message {
            Inbound::Event(event) => Some(event),
            Inbound::InvalidText | Inbound::Other => None,
            Inbound::Close | Inbound::Failed => {
                self.open = false;
                None
            },
        }
    }

    /// Takes note of whether the session took the event: it closes the reader
    /// if the session is gone.
    pub fn forwarded(&mut self, taken: bool)
        ensures
            final(self).open == open_behind_event(old(self).open, taken),
    {
        if !taken {
            self.open = false;
        }
    }
}

/// A message for the browser.
#[derive(Debug)]
pub enum Outbound {
    /// How the video is encoded, to be sent as text: see `media_message`.
    Media,
    /// A status, to be sent as text.
    Status(ServerStatus),
    /// A binary message.
    Binary(Vec<u8>),
}

/// An `Outbound` with its bytes as a sequence.
pub enum OutboundView {
    Media,
    Status(ServerStatus),
    Binary(Seq<u8>),
}

impl View for Outbound {
    type V = OutboundView;

    open spec fn view(&self) -> OutboundView {
        match *self {
            Outbound::Media => OutboundView::Media,
            Outbound::Status(status) => OutboundView::Status(status),
            Outbound::Binary(bytes) => OutboundView::Binary(bytes@),
        }
    }
}

/// The first message on every connection: how the video is encoded.
pub fn media_message() -> (message: &'static str)
    ensures
        message@ == "{\"type\":\"media\",\"video\":{\"h264\":{\"format\":\"annexb\"}}}"@,
{
    "{\"type\":\"media\",\"video\":{\"h264\":{\"format\":\"annexb\"}}}"
}

/// The message of an event.
pub open spec fn message_of(event: ServerEvent) -> OutboundView {
    match event {
        ServerEvent::Status(status) => OutboundView::Status(status),
        ServerEvent::Video(frame) => OutboundView::Binary(
            h264::video_packet(frame.key, frame.data@),
        ),
    }
}

/// The message that tells the browser of an event.
pub fn outbound_message(event: ServerEvent) -> (message: Outbound)
    ensures
        message@ == message_of(event),
{
    match event {
        ServerEvent::Status(status) => Outbound::Status(status),
        ServerEvent::Video(frame) => Outbound::Binary(encode_video_frame(&frame)),
    }
}

/// The writing side of a browser's WebSocket.
#[derive(Debug, Clone, Copy, PartialEq, Eq, Structural)]
pub struct SocketWriter {
    /// Whether the first message was given out.
    pub greeted: bool,
    pub open: bool,
}

/// A writer that has written nothing yet.
pub open spec fn fresh_writer() -> SocketWriter {
    SocketWriter { greeted: false, open: true }
}

/// The first message of a connection, if it is still due.
pub open spec fn greeting_of(writer: SocketWriter) -> Option<OutboundView> {
    if writer.open && !writer.greeted {
        Some(OutboundView::Media)
    } else {
        None
    }
}

/// The message that a writer gives out for an event.
pub open spec fn written_of(writer: SocketWriter, event: ServerEvent) -> Option<OutboundView> {
    if writer.open && writer.greeted {
        Some(message_of(event))
    } else {
        None
    }
}

/// The writer behind its first message.
pub open spec fn behind_greeting(writer: SocketWriter) -> SocketWriter {
    SocketWriter { greeted: true, open: writer.open }
}

/// The writer behind an attempt to send.
pub open spec fn behind_sending(writer: SocketWriter, taken: bool) -> SocketWriter {
    SocketWriter { greeted: writer.greeted, open: writer.open && taken }
}

/// An optional message with its bytes as a sequence.
pub open spec fn optional_view(message: Option<Outbound>) -> Option<OutboundView> {
    match message {
        Some(message) => Some(message@),
        None => None,
    }
}

impl SocketWriter {
    /// A writer that has written nothing yet.
    pub fn new() -> (writer: SocketWriter)
        ensures
            writer == fresh_writer(),
    {
        SocketWriter { greeted: false, open: true }
    }

    /// The first message of the connection, once.
    pub fn greet(&mut self) -> (message: Option<Outbound>)
        ensures
            optional_view(message) == greeting_of(*old(self)),
            *final(self) == behind_greeting(*old(self)),
    {
        let due = self.open && !self.greeted;
        self.greeted = true;
        if due {
            Some(Outbound::Media)
        } else {
            None
        }
    }

    /// The message to send for an event of the session.
    pub fn write(&self, event: ServerEvent) -> (message: Option<Outbound>)
        ensures
            optional_view(message) == written_of(*self, event),
    {
        if self.open && self.greeted {
            Some(outbound_message(event))
        } else {
            None
        }
    }

    /// Takes note of whether the message was sent: a failure closes the writer.
    pub fn sent(&mut self, taken: bool)
        ensures
            *final(self) == behind_sending(*old(self), taken),
    {
        if !taken {
            self.open = false;
        }
    }
}

/// How a TLS handshake came out.
#[derive(Debug, Clone, Copy, PartialEq, Eq, Structural)]
pub enum HandshakeOutcome {
    /// It was done within the time it may take.
    Finished,
    /// It failed within that time.
    Failed,
    /// It was not done when that time was over.
    TimedOut,
}

/// What to do with the connection behind a handshake.
#[derive(Debug, Clone, Copy, PartialEq, Eq, Structural)]
pub enum HandshakeAction {
    /// Hand the TLS stream to the listener.
    HandOn,
    /// Let go of the connection.
    Discard,
}

/// What to do behind a handshake: only one that was done in time is handed on.
pub fn handshake_step(outcome: HandshakeOutcome) -> (action: HandshakeAction)
    ensures
        action == match outcome {
            HandshakeOutcome::Finished => HandshakeAction::HandOn,
            HandshakeOutcome::Failed | HandshakeOutcome::TimedOut => HandshakeAction::Discard,
        },
{
    match outcome {
        HandshakeOutcome::Finished => HandshakeAction::HandOn,
        HandshakeOutcome::Failed | HandshakeOutcome::TimedOut => HandshakeAction::Discard,
    }
}

/// What the TLS listener waits for.
#[derive(Debug, Clone, Copy, PartialEq, Eq, Structural)]
pub enum ListenerEvent {
    /// A TCP connection was accepted.
    Accepted,
    /// None could be accepted.
    AcceptFailed,
    /// A handshake delivered a TLS stream.
    HandshakeDone,
    /// No handshake will deliver one any more.
    HandshakesClosed,
}

/// What the TLS listener does next.
#[derive(Debug, Clone, Copy, PartialEq, Eq, Structural)]
pub enum ListenerAction {
    /// Begin the handshake in the background and wait on.
    StartHandshake,
    /// Wait a while, then wait on.
    Pause,
    /// Hand the TLS stream out.
    Deliver,
    /// Wait on.
    Wait,
}

/// What the TLS listener does next: only a finished handshake is handed out,
/// and no failure ends the listener.
pub fn listener_step(event: ListenerEvent) -> (action: ListenerAction)
    ensures
        action == match event {
            ListenerEvent::Accepted => ListenerAction::StartHandshake,
            ListenerEvent::AcceptFailed => ListenerAction::Pause,
            ListenerEvent::HandshakeDone => ListenerAction::Deliver,
            ListenerEvent::HandshakesClosed => ListenerAction::Wait,
        },
{
    match event {
        ListenerEvent::Accepted => ListenerAction::StartHandshake,
        ListenerEvent::AcceptFailed => ListenerAction::Pause,
        ListenerEvent::HandshakeDone => ListenerAction::Deliver,
        ListenerEvent::HandshakesClosed => ListenerAction::Wait,
    }
}

/// How many attempts succeed before the first that does not.
pub open spec fn successes_in_a_row(results: Seq<bool>) -> int
    decreases results.len(),
{
    if results.len() == 0 || !results[0] {
        0
    } else {
        1 + successes_in_a_row(results.drop_first())
    }
}

/// The first `n` of the items, or all if there are fewer.
pub open spec fn first_of<T>(items: Seq<T>, n: int) -> Seq<T> {
    if n < items.len() {
        items.take(n)
    } else {
        items
    }
}

/// The events that a reader hands to a session, one message after the other;
/// `taken` says which of the events the session takes.
pub open spec fn handed(messages: Seq<Inbound>, open: bool, taken: Seq<bool>) -> Seq<ClientEvent>
    decreases messages.len(),
{
    if messages.len() == 0 {
        Seq::empty()
    } else {
        let still_open = open_behind_message(open, messages[0]);
        match event_of(open, messages[0]) {
            Some(event) => seq![event] + handed(
                messages.drop_first(),
                open_behind_event(still_open, taken[0]),
                taken.drop_first(),
            ),
            None => handed(messages.drop_first(), still_open, taken),
        }
    }
}

/// A closed reader hands nothing out, whatever comes.
pub proof fn law_closed_reader_is_silent(messages: Seq<Inbound>, taken: Seq<bool>)
    ensures
        handed(messages, false, taken) == Seq::<ClientEvent>::empty(),
    decreases messages.len(),
{
    if messages.len() > 0 {
        law_closed_reader_is_silent(messages.drop_first(), taken);
    }
}

/// A reader hands out the valid events in their order, up to the first message
/// that ends the connection and to the first event that the session does not
/// take; all other messages are passed over.
pub proof fn law_reader_hands_out_client_events(messages: Seq<Inbound>, taken: Seq<bool>)
    requires
        taken.len() == client_events(messages).len(),
    ensures
        handed(messages, true, taken) == first_of(
            client_events(messages),
            successes_in_a_row(taken) + 1,
        ),
        0 <= successes_in_a_row(taken),
    decreases messages.len(),
{
    if messages.len() > 0 {
        let rest = messages.drop_first();
        if ends_reading(messages[0]) {
            law_closed_reader_is_silent(rest, taken);
        } else if let Inbound::Event(event) = messages[0] {
            let later = client_events(rest);
            if taken[0] {
                law_reader_hands_out_client_events(rest, taken.drop_first());
                let n = successes_in_a_row(taken.drop_first()) + 1;
                assert(seq![event] + first_of(later, n) =~= first_of(
                    client_events(messages),
                    n + 1,
                ));
            } else {
                law_closed_reader_is_silent(rest, taken.drop_first());
                assert(handed(messages, true, taken) =~= first_of(client_events(messages), 1));
            }
        } else {
            law_reader_hands_out_client_events(rest, taken);
        }
    }
}

/// The messages that a writer gives out for the events of a session, one behind
/// the other; `results` says which of the messages are sent.
pub open spec fn written(
    writer: SocketWriter,
    events: Seq<ServerEvent>,
    results: Seq<bool>,
) -> Seq<OutboundView>
    decreases events.len(),
{
    if events.len() == 0 {
        Seq::empty()
    } else {
        match written_of(writer, events[0]) {
            Some(message) => seq![message] + written(
                behind_sending(writer, results[0]),
                events.drop_first(),
                results.drop_first(),
            ),
            None => written(writer, events.drop_first(), results),
        }
    }
}

/// All that a connection's writer gives out: its first message, then those of
/// the session's events.
pub open spec fn connection_messages(
    events: Seq<ServerEvent>,
    results: Seq<bool>,
) -> Seq<OutboundView> {
    match greeting_of(fresh_writer()) {
        Some(message) => seq![message] + written(
            behind_sending(behind_greeting(fresh_writer()), results[0]),
            events,
            results.drop_first(),
        ),
        None => Seq::empty(),
    }
}

proof fn lemma_closed_writer_is_silent(
    writer: SocketWriter,
    events: Seq<ServerEvent>,
    results: Seq<bool>,
)
    requires
        !writer.open,
    ensures
        written(writer, events, results) == Seq::<OutboundView>::empty(),
    decreases events.len(),
{
    if events.len() > 0 {
        lemma_closed_writer_is_silent(writer, events.drop_first(), results);
    }
}

proof fn lemma_open_writer(writer: SocketWriter, events: Seq<ServerEvent>, results: Seq<bool>)
    requires
        writer.open,
        writer.greeted,
        results.len() == events.len(),
    ensures
        written(writer, events, results) == first_of(
            events.map_values(|event: ServerEvent| message_of(event)),
            successes_in_a_row(results) + 1,
        ),
        0 <= successes_in_a_row(results),
    decreases events.len(),
{
    let messages = events.map_values(|event: ServerEvent| message_of(event));
    if events.len() == 0 {
        assert(written(writer, events, results) =~= messages);
    } else {
        let more = events.drop_first();
        let more_messages = more.map_values(|event: ServerEvent| message_of(event));
        let next = behind_sending(writer, results[0]);
        assert(messages =~= seq![message_of(events[0])] + more_messages);
        if results[0] {
            lemma_open_writer(next, more, results.drop_first());
            let n = successes_in_a_row(results.drop_first()) + 1;
            assert(seq![message_of(events[0])] + first_of(more_messages, n)
                =~= first_of(messages, n + 1));
        } else {
            lemma_closed_writer_is_silent(next, more, results.drop_first());
            assert(written(writer, events, results) =~= first_of(messages, 1));
        }
    }
}

/// What a browser is sent: how the video is encoded, then one message per event
/// of the session, in order, and nothing behind the first that could not be
/// sent.
pub proof fn law_browser_is_told_in_order(events: Seq<ServerEvent>, results: Seq<bool>)
    requires
        results.len() == events.len() + 1,
    ensures
        connection_messages(events, results) == first_of(
            seq![OutboundView::Media] + events.map_values(
                |event: ServerEvent| message_of(event),
            ),
            successes_in_a_row(results) + 1,
        ),
{
    let messages = events.map_values(|event: ServerEvent| message_of(event));
    let writer = behind_sending(behind_greeting(fresh_writer()), results[0]);
    let all = seq![OutboundView::Media] + messages;
    if results[0] {
        lemma_open_writer(writer, events, results.drop_first());
        let n = successes_in_a_row(results.drop_first()) + 1;
        assert(seq![OutboundView::Media] + first_of(messages, n) =~= first_of(
            all,
            n + 1,
        ));
    } else {
        lemma_closed_writer_is_silent(writer, events, results.drop_first());
        assert(connection_messages(events, results) =~= first_of(all, 1));
    }
}

/// Asking for no size changes nothing, as long as the configured size is usable.
pub proof fn law_empty_query_is_identity(base: RdpConfig, query: RdpQuery, session: RdpConfig)
    requires
        query.width is None,
        query.height is None,
        resized(base, query, session),
    ensures
        session.same_endpoint(base),
        session.width == base.width,
        session.height == base.height,
{
}

/// Asking for the same size twice is asking for it once.
pub proof fn law_query_idempotent(
    base: RdpConfig,
    query: RdpQuery,
    once: RdpConfig,
    twice: RdpConfig,
)
    requires
        resized(base, query, once),
        resized(once, query, twice),
    ensures
        resized(base, query, twice),
        twice.width == once.width,
        twice.height == once.height,
{
}

/// A session has the width and the height that the browser asks for, the
/// configured ones where it asks for none, and all else as it is configured.
pub proof fn law_session_has_the_asked_size(base: RdpConfig, query: RdpQuery, session: RdpConfig)
    requires
        resized(base, query, session),
    ensures
        query.width matches Some(width) ==> session.width == width,
        query.width is None ==> session.width == base.width,
        query.height matches Some(height) ==> session.height == height,
        query.height is None ==> session.height == base.height,
        session.host@ == base.host@,
        session.port == base.port,
        session.username@ == base.username@,
        session.password@ == base.password@,
        session.domain is Some == base.domain is Some,
        session.domain is Some ==> session.domain->Some_0@ == base.domain->Some_0@,
        session.mode == base.mode,
        session.routing_token is Some == base.routing_token is Some,
        session.routing_token is Some ==> session.routing_token->Some_0@
            == base.routing_token->Some_0@,
        session.redirection_auth is Some == base.redirection_auth is Some,
        session.redirection_auth is Some ==> ({
            let mine = session.redirection_auth->Some_0;
            let theirs = base.redirection_auth->Some_0;
            &&& mine.flags == theirs.flags
            &&& mine.username is Some == theirs.username is Some
            &&& mine.username is Some ==> mine.username->Some_0@ == theirs.username->Some_0@
            &&& mine.domain is Some == theirs.domain is Some
            &&& mine.domain is Some ==> mine.domain->Some_0@ == theirs.domain->Some_0@
            &&& mine.password is Some == theirs.password is Some
            &&& mine.password is Some ==> mine.password->Some_0@ == theirs.password->Some_0@
            &&& mine.redirection_guid is Some == theirs.redirection_guid is Some
            &&& mine.redirection_guid is Some ==> mine.redirection_guid->Some_0@
                == theirs.redirection_guid->Some_0@
        }),
{
}

/// A desktop can be used exactly if neither side is shorter than 200.
pub proof fn law_usable_desktops(width: u16, height: u16)
    ensures
        config::usable_size(width, height) <==> width >= 200 && height >= 200,
{
}

/// The browser is sent a status as it is, and a frame as a binary message: a one,
/// one or zero for a key frame or none, and the frame's bytes.
pub proof fn law_messages_carry_their_events(status: ServerStatus, frame: VideoFrame, i: int)
    ensures
        message_of(ServerEvent::Status(status)) == OutboundView::Status(status),
        message_of(ServerEvent::Video(frame)) matches OutboundView::Binary(packet) && {
            &&& packet.len() == frame.data@.len() + 2
            &&& packet[0] == 1
            &&& frame.key ==> packet[1] == 1
            &&& !frame.key ==> packet[1] == 0
            &&& 0 <= i < frame.data@.len() ==> packet[i + 2] == frame.data@[i]
        },
{
}

/// The limits: messages of 64 KiB, five seconds for a handshake, one second of
/// pause.
pub proof fn law_limits()
    ensures
        MAX_MESSAGE_SIZE == 64 * 1024,
        TLS_HANDSHAKE_TIMEOUT_SECS == 5,
        ACCEPT_PAUSE_SECS == 1,
{
}

}
