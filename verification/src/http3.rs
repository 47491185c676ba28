//! HTTP/3 on top of a QUIC connection: its configuration, requests,
//! responses, bodies and events.

use vstd::prelude::*;
use crate::codes::{h3_error_code, http3_code};
use crate::connection::{headers_view, last_call, next_state, ConnCall, ConnState, QuicConnection};
use crate::outcome::{
    h3_count_code,
    h3_count_code_long,
    h3_count_to_c_long,
    h3_filled_outcome,
    h3_status_to_c,
    h3_stream_code,
    h3_stream_to_c,
    zeroed,
    Filled,
};
use crate::settings::{decode_settings, decoded_settings, settings_acceptable};
use crate::outcome::{filled_result, h3_filled_report, h3_status_code};
use vstd::utf8::{decode_utf8, valid_utf8};

verus! {

#[verifier::external_type_specification]
#[verifier::external_body]
pub struct ExH3Config(quiche::h3::Config);

#[verifier::external_type_specification]
#[verifier::external_body]
pub struct ExH3Connection(quiche::h3::Connection);

#[verifier::external_type_specification]
#[verifier::external_body]
pub struct ExH3Header(quiche::h3::Header);

#[verifier::external_type_specification]
pub struct ExH3Event(quiche::h3::Event);

/// What the Java listener is told about an event.
pub enum PollAction {
    /// Headers arrived on the stream; `has_body` tells whether more frames
    /// follow.
    Headers { stream_id: u64, headers: Vec<quiche::h3::Header>, has_body: bool },
    /// Body data can be read from the stream.
    Data { stream_id: u64 },
    /// The stream is finished.
    Finished { stream_id: u64 },
    /// Nothing: there was no event to report, or one that Java is not told
    /// of.
    Nothing,
}

/// What one poll of the HTTP/3 connection gives Java: the listener call to
/// make, and the code to return.
pub struct Polled {
    pub action: PollAction,
    pub code: i64,
}

/// The listener call for the result of a poll: headers, data and finished
/// streams are reported; resets, priority updates and GOAWAY are not, and
/// neither are errors.
pub open spec fn poll_action_of(r: Result<(u64, quiche::h3::Event), quiche::h3::Error>) -> PollAction {
    match r {
        Ok((id, quiche::h3::Event::Headers { list, more_frames })) => PollAction::Headers {
            stream_id: id,
            headers: list,
            has_body: more_frames,
        },
        Ok((id, quiche::h3::Event::Data)) => PollAction::Data { stream_id: id },
        Ok((id, quiche::h3::Event::Finished)) => PollAction::Finished { stream_id: id },
        _ => PollAction::Nothing,
    }
}

/// The code that a poll returns: the stream identifier of a reported event,
/// -1 (the code of `Done`) for an event that is not reported, and the
/// error's code for an error.
pub open spec fn poll_code_of(r: Result<(u64, quiche::h3::Event), quiche::h3::Error>) -> i64 {
    match r {
        Ok((id, quiche::h3::Event::Headers { .. })) => id as i64,
        Ok((id, quiche::h3::Event::Data)) => id as i64,
        Ok((id, quiche::h3::Event::Finished)) => id as i64,
        Ok(_) => http3_code(quiche::h3::Error::Done) as i64,
        Err(e) => http3_code(e) as i64,
    }
}

/// An HTTP/3 configuration with the record of what has been set on it
/// through this library.
pub struct H3Config {
    inner: quiche::h3::Config,
    settings: Ghost<H3Settings>,
}

/// The settings handed to quiche on an HTTP/3 configuration.
pub struct H3Settings {
    /// Whether the extended CONNECT method is offered to the peer.
    pub extended_connect: bool,
    /// The additional settings sent to the peer, if any were set.
    pub additional_settings: Option<Seq<(u64, u64)>>,
}

impl View for H3Config {
    type V = H3Settings;

    closed spec fn view(&self) -> H3Settings {
        self.settings@
    }
}

/// The settings of a new HTTP/3 configuration: quiche's defaults.
pub open spec fn default_h3_settings() -> H3Settings {
    H3Settings { extended_connect: false, additional_settings: None }
}

/// An HTTP/3 connection with the model of its state.
pub struct H3Connection {
    inner: quiche::h3::Connection,
    state: Ghost<H3State>,
}

/// The state of an HTTP/3 connection that its queries report.
pub struct H3State {
    /// The settings it was created with.
    pub settings: H3Settings,
    /// Whether the peer's settings turned the extended CONNECT method on.
    pub peer_extended_connect: bool,
    /// The stream identifier that the next request will get.
    pub next_request_id: u64,
}

impl View for H3Connection {
    type V = H3State;

    closed spec fn view(&self) -> H3State {
        self.state@
    }
}

/// What holds of an HTTP/3 connection across any call but a request: it
/// keeps the settings it was created with and the next request's stream.
pub open spec fn h3_next(old: H3State, new: H3State) -> bool {
    &&& new.settings == old.settings
    &&& new.next_request_id == old.next_request_id
}

/// The outcome of creating an HTTP/3 connection, without the connection.
pub open spec fn h3_creation_outcome(r: Result<H3Connection, quiche::h3::Error>) -> Result<
    (),
    quiche::h3::Error,
> {
    match r {
        Ok(_) => Ok(()),
        Err(e) => Err(e),
    }
}

/// The state of a new HTTP/3 connection made with `settings`: the peer's
/// settings not yet seen, and requests to be numbered from stream 0.
pub open spec fn fresh_h3_state(settings: H3Settings) -> H3State {
    H3State { settings, peer_extended_connect: false, next_request_id: 0 }
}

/// What a request does to an HTTP/3 connection: a request that succeeds
/// takes the next request stream, and the one after it is 4 further on; a
/// request that fails takes none.
pub open spec fn request_next(old: H3State, new: H3State, r: Result<u64, quiche::h3::Error>) -> bool {
    &&& new.settings == old.settings
    &&& r is Ok ==> r->Ok_0 == old.next_request_id && new.next_request_id == old.next_request_id
        + 4
    &&& r is Err ==> new.next_request_id == old.next_request_id
}

/// `quiche::h3::Config::new`: always succeeds, with quiche's defaults.
#[verifier::external_body]
fn quiche_h3_config_new() -> (r: Result<H3Config, quiche::h3::Error>)
    ensures
        r is Ok,
        r is Ok ==> r->Ok_0@ == default_h3_settings(),
{
    quiche::h3::Config::new().map(|inner| H3Config { inner, settings: Ghost(arbitrary()) })
}

/// `quiche::h3::Config::enable_extended_connect`.
#[verifier::external_body]
fn quiche_h3_config_enable_extended_connect(config: &mut H3Config, enabled: bool)
    ensures
        final(config)@ == (H3Settings { extended_connect: enabled, ..old(config)@ }),
{
    config.inner.enable_extended_connect(enabled)
}

/// `quiche::h3::Config::set_additional_settings`: succeeds exactly when no
/// identifier occurs twice and none is one that quiche sends itself, and
/// then keeps the settings; fails with `SettingsError` otherwise, changing
/// nothing.
#[verifier::external_body]
fn quiche_h3_config_set_additional_settings(
    config: &mut H3Config,
    settings: Vec<(u64, u64)>,
) -> (r: Result<(), quiche::h3::Error>)
    ensures
        r is Ok <==> settings_acceptable(settings@),
        r is Err ==> r->Err_0 == quiche::h3::Error::SettingsError,
        r is Ok ==> final(config)@ == (H3Settings {
            additional_settings: Some(settings@),
            ..old(config)@
        }),
        r is Err ==> final(config)@ == old(config)@,
{
    config.inner.set_additional_settings(settings)
}

/// `quiche::h3::Connection::with_transport`: a client whose QUIC connection
/// is neither established nor in early data gets `InternalError`. A new
/// HTTP/3 connection keeps `config`'s settings and has not seen the peer's.
/// What else decides success (stream limits) is not stated.
#[verifier::external_body]
fn quiche_h3_with_transport(conn: &mut QuicConnection, config: &H3Config) -> (r: Result<
    H3Connection,
    quiche::h3::Error,
>)
    ensures
        next_state(
            old(conn)@,
            final(conn)@,
            ConnCall::H3Open { settings: config@, h3_opened: h3_creation_outcome(r) },
        ),
        !old(conn)@.origin.is_server && !(old(conn)@.established || old(conn)@.early_data) ==> r is Err
            && r->Err_0 == quiche::h3::Error::InternalError,
        r is Ok ==> r->Ok_0@ == fresh_h3_state(config@),
{
    let r = quiche::h3::Connection::with_transport(&mut conn.handle.inner, &config.inner);
    r.map(|inner| H3Connection { inner, state: Ghost(arbitrary()) })
}

/// `quiche::h3::Connection::send_request`, with each header a name and a
/// value. A request that succeeds gets the connection's next request stream,
/// and the next one is 4 further on; one that fails leaves the counter as it
/// was. Whether it succeeds (stream limits, flow control, a GOAWAY from the
/// peer) is not stated.
#[verifier::external_body]
fn quiche_h3_send_request(
    h3: &mut H3Connection,
    conn: &mut QuicConnection,
    headers: &[(Vec<u8>, Vec<u8>)],
    fin: bool,
) -> (r: Result<u64, quiche::h3::Error>)
    ensures
        next_state(
            old(conn)@,
            final(conn)@,
            ConnCall::H3SendRequest { headers: headers_view(headers@), fin, opened: r },
        ),
        request_next(old(h3)@, final(h3)@, r),
{
    h3.inner.send_request(&mut conn.handle.inner, headers, fin)
}

/// `quiche::h3::Connection::send_response`.
#[verifier::external_body]
fn quiche_h3_send_response(
    h3: &mut H3Connection,
    conn: &mut QuicConnection,
    stream_id: u64,
    headers: &[(Vec<u8>, Vec<u8>)],
    fin: bool,
) -> (r: Result<(), quiche::h3::Error>)
    ensures
        next_state(
            old(conn)@,
            final(conn)@,
            ConnCall::H3SendResponse { stream_id, headers: headers_view(headers@), fin, responded: r },
        ),
        h3_next(old(h3)@, final(h3)@),
{
    h3.inner.send_response(&mut conn.handle.inner, stream_id, headers, fin)
}

/// `quiche::h3::Connection::send_body`: the count written is at most the
/// body's length.
#[verifier::external_body]
fn quiche_h3_send_body(
    h3: &mut H3Connection,
    conn: &mut QuicConnection,
    stream_id: u64,
    body: &[u8],
    fin: bool,
) -> (r: Result<usize, quiche::h3::Error>)
    ensures
        next_state(
            old(conn)@,
            final(conn)@,
            ConnCall::H3SendBody { stream_id, body: body@, fin, body_written: r },
        ),
        h3_next(old(h3)@, final(h3)@),
        r is Ok ==> r->Ok_0 <= body@.len(),
{
    h3.inner.send_body(&mut conn.handle.inner, stream_id, body, fin)
}

/// `quiche::h3::Connection::poll`. Which event comes is not stated.
#[verifier::external_body]
fn quiche_h3_poll(h3: &mut H3Connection, conn: &mut QuicConnection) -> (r: Result<
    (u64, quiche::h3::Event),
    quiche::h3::Error,
>)
    ensures
        next_state(old(conn)@, final(conn)@, ConnCall::H3Poll { polled: r }),
        h3_next(old(h3)@, final(h3)@),
{
    h3.inner.poll(&mut conn.handle.inner)
}

/// `quiche::h3::Connection::recv_body`: reads body data into `out`; the count
/// read is at most the buffer's length.
#[verifier::external_body]
fn quiche_h3_recv_body(
    h3: &mut H3Connection,
    conn: &mut QuicConnection,
    stream_id: u64,
    out: &mut Vec<u8>,
) -> (r: Result<usize, quiche::h3::Error>)
    ensures
        next_state(
            old(conn)@,
            final(conn)@,
            ConnCall::H3RecvBody {
                stream_id,
                buf_len: old(out)@.len(),
                body_read: filled_result(r, final(out)@),
            },
        ),
        h3_next(old(h3)@, final(h3)@),
        final(out)@.len() == old(out)@.len(),
        r is Ok ==> r->Ok_0 <= old(out)@.len(),
{
    h3.inner.recv_body(&mut conn.handle.inner, stream_id, out.as_mut_slice())
}

/// `quiche::h3::Connection::extended_connect_enabled_by_peer`: whether the
/// peer's settings, once received, turned the extended CONNECT method on.
#[verifier::external_body]
fn quiche_h3_extended_connect_enabled_by_peer(h3: &H3Connection) -> (enabled: bool)
    ensures
        enabled == h3@.peer_extended_connect,
{
    h3.inner.extended_connect_enabled_by_peer()
}

/// `std::str::from_utf8`, owned: the text when `bytes` are valid UTF-8, as
/// std documents, and nothing otherwise.
#[verifier::external_body]
fn std_str_from_utf8(bytes: &[u8]) -> (text: Option<String>)
    ensures
        text is Some <==> valid_utf8(bytes@),
        text is Some ==> text->0@ == decode_utf8(bytes@),
{
    std::str::from_utf8(bytes).ok().map(|s| s.to_string())
}

/// The text of a header name or value as Java receives it: the UTF-8 text
/// of the bytes, or the empty string when they are not valid UTF-8.
pub fn header_text(bytes: &[u8]) -> (text: String)
    ensures
        valid_utf8(bytes@) ==> text@ == decode_utf8(bytes@),
        !valid_utf8(bytes@) ==> text@ == Seq::<char>::empty(),
{
    match std_str_from_utf8(bytes) {
        Some(text) => text,
        None => String::new(),
    }
}

/// A new HTTP/3 configuration with quiche's defaults.
pub fn h3_config_new() -> (config: H3Config)
    ensures
        config@ == default_h3_settings(),
{
    quiche_h3_config_new().unwrap()
}

/// Turns the extended CONNECT method on (any non-zero Java boolean) or off.
pub fn h3_config_enable_extended_connect(config: &mut H3Config, enabled: u8)
    ensures
        final(config)@ == (H3Settings { extended_connect: enabled != 0, ..old(config)@ }),
{
    quiche_h3_config_enable_extended_connect(config, enabled != 0)
}

/// Sets additional settings packed as big-endian 64-bit identifiers in
/// `keys` and values in `vals`: one pair per whole identifier in `keys`. The
/// code is 0 when quiche takes them (no identifier twice, none that quiche
/// sends itself), and the configuration then holds exactly those pairs; it
/// is -1 otherwise, and the configuration is unchanged.
pub fn h3_config_set_additional_settings(config: &mut H3Config, keys: &[u8], vals: &[u8]) -> (c:
    i32)
    requires
        vals.len() >= keys.len() / 8 * 8,
    ensures
        settings_acceptable(decoded_settings(keys@, vals@)) ==> c == 0 && final(config)@ == (
        H3Settings { additional_settings: Some(decoded_settings(keys@, vals@)), ..old(config)@ }),
        !settings_acceptable(decoded_settings(keys@, vals@)) ==> c == -1 && final(config)@ == old(
            config,
        )@,
{
    let settings = decode_settings(keys, vals);
    match quiche_h3_config_set_additional_settings(config, settings) {
        Ok(_) => 0,
        Err(_) => -1,
    }
}

/// Creates the HTTP/3 connection on top of a QUIC connection, with the
/// settings of `config`. A client must have an established connection, or
/// one in early data; otherwise the error is `InternalError`.
pub fn h3_conn_new_with_transport(conn: &mut QuicConnection, config: &H3Config) -> (r: Result<
    H3Connection,
    quiche::h3::Error,
>)
    ensures
        next_state(
            old(conn)@,
            final(conn)@,
            ConnCall::H3Open { settings: config@, h3_opened: last_call(final(conn)@)->h3_opened },
        ),
        r is Ok <==> last_call(final(conn)@)->h3_opened is Ok,
        r is Err ==> r->Err_0 == last_call(final(conn)@)->h3_opened->Err_0,
        !old(conn)@.origin.is_server && !(old(conn)@.established || old(conn)@.early_data) ==> r is Err
            && r->Err_0 == quiche::h3::Error::InternalError,
        r is Ok ==> r->Ok_0@ == fresh_h3_state(config@),
{
    quiche_h3_with_transport(conn, config)
}

/// Sends a request with the given headers, finishing the stream when `fin`
/// is a non-zero Java boolean. The code is the new request stream's
/// identifier, which is the connection's next request stream, or the error's
/// code.
pub fn h3_send_request(
    h3: &mut H3Connection,
    conn: &mut QuicConnection,
    headers: &[(Vec<u8>, Vec<u8>)],
    fin: u8,
) -> (c: i64)
    ensures
        next_state(
            old(conn)@,
            final(conn)@,
            ConnCall::H3SendRequest {
                headers: headers_view(headers@),
                fin: fin != 0,
                opened: last_call(final(conn)@)->opened,
            },
        ),
        c == h3_stream_code(last_call(final(conn)@)->opened),
        request_next(old(h3)@, final(h3)@, last_call(final(conn)@)->opened),
        exists|r: Result<u64, quiche::h3::Error>|
            c == #[trigger] h3_stream_code(r) && request_next(old(h3)@, final(h3)@, r),
{
    let r = quiche_h3_send_request(h3, conn, headers, fin != 0);
    h3_stream_to_c(r)
}

/// Sends a response with the given headers on stream `stream_id`,
/// finishing the stream when `fin` is a non-zero Java boolean. The code is
/// 0 or the error's code.
pub fn h3_send_response(
    h3: &mut H3Connection,
    conn: &mut QuicConnection,
    stream_id: i64,
    headers: &[(Vec<u8>, Vec<u8>)],
    fin: u8,
) -> (c: i32)
    ensures
        next_state(
            old(conn)@,
            final(conn)@,
            ConnCall::H3SendResponse {
                stream_id: stream_id as u64,
                headers: headers_view(headers@),
                fin: fin != 0,
                responded: last_call(final(conn)@)->responded,
            },
        ),
        c == h3_status_code(last_call(final(conn)@)->responded),
        h3_next(old(h3)@, final(h3)@),
        exists|r: Result<(), quiche::h3::Error>| c == #[trigger] h3_status_code(r),
{
    let r = quiche_h3_send_response(h3, conn, stream_id as u64, headers, fin != 0);
    h3_status_to_c(r)
}

/// Sends all of `body` on stream `stream_id`, finishing the stream when
/// `fin` is a non-zero Java boolean. The code is the count written, at most
/// the body's length, or the error's code.
pub fn h3_send_body(
    h3: &mut H3Connection,
    conn: &mut QuicConnection,
    stream_id: i64,
    body: &[u8],
    fin: u8,
) -> (c: i64)
    ensures
        next_state(
            old(conn)@,
            final(conn)@,
            ConnCall::H3SendBody {
                stream_id: stream_id as u64,
                body: body@,
                fin: fin != 0,
                body_written: last_call(final(conn)@)->body_written,
            },
        ),
        c == h3_count_code_long(last_call(final(conn)@)->body_written),
        last_call(final(conn)@)->body_written is Ok ==> last_call(final(conn)@)->body_written->Ok_0
            <= body@.len(),
        h3_next(old(h3)@, final(h3)@),
        exists|r: Result<usize, quiche::h3::Error>|
            c == #[trigger] h3_count_code_long(r) && (r is Ok ==> r->Ok_0 <= body@.len()),
{
    let r = quiche_h3_send_body(h3, conn, stream_id as u64, body, fin != 0);
    h3_count_to_c_long(r)
}

/// What Java receives for the result of a poll.
pub fn poll_outcome(r: Result<(u64, quiche::h3::Event), quiche::h3::Error>) -> (p: Polled)
    ensures
        p.action == poll_action_of(r),
        p.code == poll_code_of(r),
{
    match r {
        Ok((id, quiche::h3::Event::Headers { list, more_frames })) => Polled {
            action: PollAction::Headers { stream_id: id, headers: list, has_body: more_frames },
            code: id as i64,
        },
        Ok((id, quiche::h3::Event::Data)) => Polled {
            action: PollAction::Data { stream_id: id },
            code: id as i64,
        },
        Ok((id, quiche::h3::Event::Finished)) => Polled {
            action: PollAction::Finished { stream_id: id },
            code: id as i64,
        },
        Ok(_) => Polled {
            action: PollAction::Nothing,
            code: h3_error_code(quiche::h3::Error::Done) as i64,
        },
        Err(e) => Polled { action: PollAction::Nothing, code: h3_error_code(e) as i64 },
    }
}

/// Polls the HTTP/3 connection for its next event.
pub fn h3_conn_poll(h3: &mut H3Connection, conn: &mut QuicConnection) -> (p: Polled)
    ensures
        next_state(
            old(conn)@,
            final(conn)@,
            ConnCall::H3Poll { polled: last_call(final(conn)@)->polled },
        ),
        p.action == poll_action_of(last_call(final(conn)@)->polled),
        p.code == poll_code_of(last_call(final(conn)@)->polled),
        h3_next(old(h3)@, final(h3)@),
        exists|r: Result<(u64, quiche::h3::Event), quiche::h3::Error>|
            p.action == #[trigger] poll_action_of(r) && p.code == poll_code_of(r),
{
    let r = quiche_h3_poll(h3, conn);
    poll_outcome(r)
}

/// Reads body data of stream `stream_id` into a buffer of `buf_len` bytes.
/// The code is the count read or the error's code, and the bytes are the
/// data read.
pub fn h3_recv_body(
    h3: &mut H3Connection,
    conn: &mut QuicConnection,
    stream_id: i64,
    buf_len: usize,
) -> (f: Filled)
    ensures
        next_state(
            old(conn)@,
            final(conn)@,
            ConnCall::H3RecvBody {
                stream_id: stream_id as u64,
                buf_len: buf_len as nat,
                body_read: last_call(final(conn)@)->body_read,
            },
        ),
        h3_filled_report(last_call(final(conn)@)->body_read, f),
        h3_next(old(h3)@, final(h3)@),
        f.bytes.len() <= buf_len,
        exists|r: Result<usize, quiche::h3::Error>|
            f.code == #[trigger] h3_count_code(r) && (r is Ok ==> r->Ok_0 == f.bytes.len()) && (r is Err
                ==> f.bytes.len() == 0),
{
    let mut buf = zeroed(buf_len);
    let r = quiche_h3_recv_body(h3, conn, stream_id as u64, &mut buf);
    h3_filled_outcome(r, buf)
}

/// Whether the peer turned the extended CONNECT method on; false until its
/// settings have been received.
pub fn h3_extended_connect_enabled_by_peer(h3: &H3Connection) -> (enabled: bool)
    ensures
        enabled == h3@.peer_extended_connect,
{
    quiche_h3_extended_connect_enabled_by_peer(h3)
}

/// What the Java listener is told of a poll is the event quiche returned:
/// headers with exactly quiche's header list and body flag on quiche's
/// stream, data or a finished stream on quiche's stream, with that stream
/// as the code; anything else, or an error, tells the listener nothing.
pub proof fn lemma_poll_reports_quiches_event(s0: ConnState, s1: ConnState, p: Polled)
    requires
        next_state(s0, s1, (ConnCall::H3Poll { polled: last_call(s1)->polled })),
        p.action == poll_action_of(last_call(s1)->polled),
        p.code == poll_code_of(last_call(s1)->polled),
    ensures
        last_call(s1) is H3Poll,
        (match last_call(s1)->polled {
            Ok((id, quiche::h3::Event::Headers { list, more_frames })) => {
                &&& p.action is Headers
                &&& p.action->Headers_stream_id == id
                &&& p.action->headers == list
                &&& p.action->has_body == more_frames
                &&& p.code == id as i64
            },
            Ok((id, quiche::h3::Event::Data)) => p.action is Data && p.action->Data_stream_id == id
                && p.code == id as i64,
            Ok((id, quiche::h3::Event::Finished)) => p.action is Finished
                && p.action->Finished_stream_id == id && p.code == id as i64,
            Ok(_) => p.action is Nothing && p.code == -1,
            Err(_) => p.action is Nothing && p.code < 0,
        }),
{
}

/// A body send reports how much quiche accepted, which may be less than the
/// body: on success the code is exactly that count, at most the body's
/// length, so the part of the body from the code onward is what remains to
/// be sent; on failure the code is negative.
pub proof fn lemma_send_body_reports_the_accepted_count(
    s0: ConnState,
    s1: ConnState,
    stream_id: i64,
    body: Seq<u8>,
    fin: u8,
    c: i64,
)
    requires
        body.len() <= i64::MAX,
        next_state(
            s0,
            s1,
            (ConnCall::H3SendBody {
                stream_id: stream_id as u64,
                body,
                fin: fin != 0,
                body_written: last_call(s1)->body_written,
            }),
        ),
        c == h3_count_code_long(last_call(s1)->body_written),
        last_call(s1)->body_written is Ok ==> last_call(s1)->body_written->Ok_0 <= body.len(),
    ensures
        last_call(s1) is H3SendBody,
        last_call(s1)->body_written matches Ok(n) ==> c == n && 0 <= c <= body.len(),
        last_call(s1)->body_written matches Ok(n) ==> (c < body.len() <==> n < body.len()),
        last_call(s1)->body_written is Err ==> c < 0,
{
}

/// Request streams are numbered from 0 in steps of 4: a new HTTP/3
/// connection starts at stream 0, and from a multiple of 4 any call keeps the
/// next request stream a multiple of 4, so every stream a request gets is
/// one.
pub proof fn lemma_request_streams_step_by_four(
    settings: H3Settings,
    s0: H3State,
    s1: H3State,
    r: Result<u64, quiche::h3::Error>,
)
    requires
        s0.next_request_id % 4 == 0,
        request_next(s0, s1, r) || h3_next(s0, s1),
    ensures
        fresh_h3_state(settings).next_request_id == 0,
        s1.next_request_id % 4 == 0,
        request_next(s0, s1, r) && r is Ok ==> r->Ok_0 % 4 == 0,
{
}

} // verus!
