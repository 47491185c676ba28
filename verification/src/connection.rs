//! QUIC connections: creating them, feeding them datagrams, taking datagrams
//! from them, closing them, and their streams.
//!
//! A connection carries a model of its state: what it was created from, what
//! its queries report, and the calls handed to quiche on it. The calls into
//! quiche keep the model; the contracts below speak of it.

use vstd::prelude::*;
use crate::addr::{IpOctets, SockAddr};
use crate::codes::transport_code;
use crate::config::{ConfigSettings, QuicConfig};
use crate::outcome::{
    count_code,
    count_code_long,
    count_to_c,
    count_to_c_long,
    filled_outcome,
    filled_report,
    filled_result,
    next_stream_to_c,
    shutdown_direction,
    shutdown_outcome,
    stats_report,
    stats_report_of,
    status_to_c,
    timeout_millis_code,
    timeout_millis_to_c,
    timeout_nanos_code,
    timeout_nanos_to_c,
    zeroed,
    Filled,
    PathSample,
    StatsReport,
};
use quiche::ConnectionId;

verus! {

/// The handle of a quiche connection. quiche's connection type has a type
/// parameter whose default cannot be named from outside quiche, so the
/// connection is held in a field that Verus does not see.
#[verifier::external_body]
pub struct QuicHandle {
    pub(crate) inner: quiche::Connection,
}

/// A quiche connection with the model of its state that the contracts
/// speak of.
pub struct QuicConnection {
    pub(crate) handle: QuicHandle,
    state: Ghost<ConnState>,
}

/// What a connection was created from.
pub struct ConnOrigin {
    pub is_server: bool,
    pub scid: Seq<u8>,
    pub odcid: Option<Seq<u8>>,
    pub server_name: Option<Seq<char>>,
    pub local: SockAddr,
    pub peer: SockAddr,
    pub config: ConfigSettings,
}

/// The error with which the local side closes a connection.
pub struct CloseError {
    pub is_app: bool,
    pub error_code: u64,
    pub reason: Seq<u8>,
}

/// A call handed to quiche on a connection, with its arguments and what
/// quiche answered: for a call that fills a buffer, the bytes it wrote.
pub enum ConnCall {
    Recv { datagram: Seq<u8>, from: SockAddr, to: SockAddr, received: Result<usize, quiche::Error> },
    Send { buf_len: nat, sent: Result<Seq<u8>, quiche::Error> },
    Close { app: bool, err: u64, reason: Seq<u8> },
    OnTimeout,
    TimeoutQuery { timeout_nanos: Option<u128> },
    StreamRecv { stream_id: u64, buf_len: nat, read: Result<Seq<u8>, quiche::Error> },
    StreamSend { stream_id: u64, data: Seq<u8>, fin: bool, written: Result<usize, quiche::Error> },
    StreamShutdown {
        stream_id: u64,
        direction: quiche::Shutdown,
        err: u64,
        shut: Result<(), quiche::Error>,
    },
    StreamCapacity { stream_id: u64, capacity: Result<usize, quiche::Error> },
    H3Open { settings: crate::http3::H3Settings, h3_opened: Result<(), quiche::h3::Error> },
    H3SendRequest {
        headers: Seq<(Seq<u8>, Seq<u8>)>,
        fin: bool,
        opened: Result<u64, quiche::h3::Error>,
    },
    H3SendResponse {
        stream_id: u64,
        headers: Seq<(Seq<u8>, Seq<u8>)>,
        fin: bool,
        responded: Result<(), quiche::h3::Error>,
    },
    H3SendBody {
        stream_id: u64,
        body: Seq<u8>,
        fin: bool,
        body_written: Result<usize, quiche::h3::Error>,
    },
    H3Poll { polled: Result<(u64, quiche::h3::Event), quiche::h3::Error> },
    H3RecvBody { stream_id: u64, buf_len: nat, body_read: Result<Seq<u8>, quiche::h3::Error> },
}

/// The state of a connection as its queries report it, and the calls handed
/// to quiche on it since it was created.
pub struct ConnState {
    pub origin: ConnOrigin,
    pub established: bool,
    pub early_data: bool,
    pub closed: bool,
    pub draining: bool,
    pub local_error: Option<CloseError>,
    pub application_proto: Seq<u8>,
    pub peer_cert_chain: Option<Seq<Seq<u8>>>,
    pub stats: (usize, usize, usize, Option<PathSample>),
    /// Streams that exist and whose receiving side has not seen its end.
    pub unfinished: Set<u64>,
    /// Streams that exist.
    pub streams: Set<u64>,
    /// The send capacity of each existing stream that the peer has not
    /// stopped: what its flow control limit still allows.
    pub stream_caps: Map<u64, usize>,
    /// The connection-level send capacity.
    pub tx_cap: usize,
    /// Streams that have data to read.
    pub readable: Set<u64>,
    /// Streams that have flow control room to write.
    pub writable: Set<u64>,
    pub calls: Seq<ConnCall>,
}

impl View for QuicConnection {
    type V = ConnState;

    closed spec fn view(&self) -> ConnState {
        self.state@
    }
}

/// The last call recorded on a connection.
pub open spec fn last_call(s: ConnState) -> ConnCall {
    s.calls.last()
}

/// What a server-side connection is created from.
pub open spec fn server_origin(
    scid: Seq<u8>,
    odcid: Option<Seq<u8>>,
    local: SockAddr,
    peer: SockAddr,
    config: ConfigSettings,
) -> ConnOrigin {
    ConnOrigin { is_server: true, scid, odcid, server_name: None, local, peer, config }
}

/// What a client-side connection is created from.
pub open spec fn client_origin(
    server_name: Option<Seq<char>>,
    scid: Seq<u8>,
    local: SockAddr,
    peer: SockAddr,
    config: ConfigSettings,
) -> ConnOrigin {
    ConnOrigin { is_server: false, scid, odcid: None, server_name, local, peer, config }
}

/// The state of a connection just created from `origin`: not established,
/// not closed, no error, no protocol negotiated, no streams, no calls.
pub open spec fn fresh_state(s: ConnState, origin: ConnOrigin) -> bool {
    &&& s.origin == origin
    &&& !s.established
    &&& !s.closed
    &&& !s.draining
    &&& s.local_error is None
    &&& s.application_proto == Seq::<u8>::empty()
    &&& s.unfinished == Set::<u64>::empty()
    &&& s.streams == Set::<u64>::empty()
    &&& s.stream_caps == Map::<u64, usize>::empty()
    &&& s.readable == Set::<u64>::empty()
    &&& s.writable == Set::<u64>::empty()
    &&& s.calls == Seq::<ConnCall>::empty()
}

/// What holds from one state to the next across any call: the origin stays,
/// a closed connection stays closed, the first close error is kept, and the
/// call is recorded.
pub open spec fn next_state(old: ConnState, new: ConnState, call: ConnCall) -> bool {
    &&& new.origin == old.origin
    &&& old.closed ==> new.closed
    &&& old.local_error is Some ==> new.local_error == old.local_error
    &&& new.calls == old.calls.push(call)
}

/// Whether the connection is closed or closing, so that closing it again
/// does nothing.
pub open spec fn closing(s: ConnState) -> bool {
    s.closed || s.draining || s.local_error is Some
}

/// The error that a close records: the given one, except that an
/// application close before the handshake allows application data is sent
/// as the transport error 0x0c with no reason.
pub open spec fn close_error(s: ConnState, app: bool, err: u64, reason: Seq<u8>) -> CloseError {
    if app && !(s.established || s.early_data) {
        CloseError { is_app: false, error_code: 0x0c, reason: Seq::<u8>::empty() }
    } else {
        CloseError { is_app: app, error_code: err, reason }
    }
}

/// The state after a close: unchanged but for the call when already closing;
/// otherwise the close error is recorded and the connection may be closed at
/// once.
pub open spec fn closed_state(old: ConnState, new: ConnState, app: bool, err: u64, reason: Seq<u8>) -> bool {
    let call = ConnCall::Close { app, err, reason };
    if closing(old) {
        new == ConnState { calls: old.calls.push(call), ..old }
    } else {
        new == ConnState {
            local_error: Some(close_error(old, app, err, reason)),
            closed: new.closed,
            calls: old.calls.push(call),
            ..old
        }
    }
}

/// The view of a list of headers.
pub open spec fn headers_view(headers: Seq<(Vec<u8>, Vec<u8>)>) -> Seq<(Seq<u8>, Seq<u8>)> {
    headers.map_values(|h: (Vec<u8>, Vec<u8>)| (h.0@, h.1@))
}

/// The view of a certificate chain.
pub open spec fn chain_view(chain: Option<Vec<Vec<u8>>>) -> Option<Seq<Seq<u8>>> {
    match chain {
        Some(certs) => Some(certs@.map_values(|c: Vec<u8>| c@)),
        None => None,
    }
}

/// The direction that a Java direction number stands for: 0 the reading
/// side, any other number the writing side.
pub open spec fn direction_of(direction: i32) -> quiche::Shutdown {
    if direction == 0 {
        quiche::Shutdown::Read
    } else {
        quiche::Shutdown::Write
    }
}

#[verifier::external_type_specification]
#[verifier::external_body]
pub struct ExStreamIter(quiche::StreamIter);

/// The stream identifiers that a stream iterator has still to yield, in the
/// order it yields them.
pub uninterp spec fn stream_iter_remaining(iter: quiche::StreamIter) -> Seq<u64>;

/// The bound on stream identifiers: each is a variable-length integer of at
/// most 62 bits.
pub open spec fn stream_id_bound() -> u64 {
    0x4000_0000_0000_0000
}

/// Whether every identifier that a stream iterator has still to yield is
/// below the stream identifier bound.
pub open spec fn ids_bounded(iter: quiche::StreamIter) -> bool {
    forall|i: int|
        0 <= i < stream_iter_remaining(iter).len() ==> #[trigger] stream_iter_remaining(iter)[i]
            < stream_id_bound()
}

/// The capacity that quiche reports for a stream that the peer has not
/// stopped: the smaller of the connection's and the stream's.
pub open spec fn capacity_of(s: ConnState, stream_id: u64) -> usize {
    if s.tx_cap < s.stream_caps[stream_id] {
        s.tx_cap
    } else {
        s.stream_caps[stream_id]
    }
}

/// The original destination connection identifier that a server passes on:
/// none when Java gave none or gave an empty one.
pub open spec fn chosen_odcid(odcid: Option<Seq<u8>>) -> Option<Seq<u8>> {
    match odcid {
        Some(id) => if id.len() == 0 {
            None
        } else {
            Some(id)
        },
        None => None,
    }
}

/// The outcome of creating a connection, without the connection.
pub open spec fn creation_outcome(r: Result<QuicConnection, quiche::Error>) -> Result<(), quiche::Error> {
    match r {
        Ok(_) => Ok(()),
        Err(e) => Err(e),
    }
}

/// What a configuration's record of creations says of a creation that gave
/// `out` to Java: one more outcome, success exactly when `out` is a
/// connection, and otherwise the error whose code `out` holds.
pub open spec fn creation_recorded(
    before: Seq<Result<(), quiche::Error>>,
    after: Seq<Result<(), quiche::Error>>,
    out: Result<QuicConnection, i32>,
) -> bool {
    &&& after.len() == before.len() + 1
    &&& after.drop_last() == before
    &&& (out is Ok <==> after.last() is Ok)
    &&& (out is Err ==> out->Err_0 == transport_code(after.last()->Err_0))
}

/// The view of an optional byte vector.
pub open spec fn opt_bytes(v: Option<Vec<u8>>) -> Option<Seq<u8>> {
    match v {
        Some(b) => Some(b@),
        None => None,
    }
}

/// The view of an optional string.
pub open spec fn opt_str(v: Option<&str>) -> Option<Seq<char>> {
    match v {
        Some(s) => Some(s@),
        None => None,
    }
}

/// `quiche::accept`: creates a server-side connection from exactly these
/// arguments, each address converted to a socket address of its family. The
/// configuration is read, not changed. A new connection is not established,
/// not closed or closing, has no protocol and no streams. What decides
/// success (the TLS state can be created from the configuration) is not
/// stated.
#[verifier::external_body]
fn quiche_accept(
    scid: &[u8],
    odcid: &Option<Vec<u8>>,
    local: &SockAddr,
    peer: &SockAddr,
    config: &mut QuicConfig,
) -> (r: Result<QuicConnection, quiche::Error>)
    ensures
        final(config)@ == old(config)@,
        final(config).creations() == old(config).creations().push(creation_outcome(r)),
        r is Ok ==> fresh_state(
            r->Ok_0@,
            server_origin(scid@, opt_bytes(*odcid), *local, *peer, old(config)@),
        ),
{
    let odcid = odcid.as_ref().map(|id| ConnectionId::from_ref(id));
    let l = match local.ip { IpOctets::V4(o) => core::net::SocketAddr::from((o, local.port)), IpOctets::V6(o) => core::net::SocketAddr::from((o, local.port)) };
    let p = match peer.ip { IpOctets::V4(o) => core::net::SocketAddr::from((o, peer.port)), IpOctets::V6(o) => core::net::SocketAddr::from((o, peer.port)) };
    let r = quiche::accept(&ConnectionId::from_ref(scid), odcid.as_ref(), l, p, &mut config.inner);
    r.map(|inner| QuicConnection { handle: QuicHandle { inner }, state: Ghost(arbitrary()) })
}

/// `quiche::connect`: creates a client-side connection from exactly these
/// arguments, with the server name to check the peer's certificate against.
/// The configuration is read, not changed. A new connection is as for
/// `quiche_accept`. What decides success is not stated.
#[verifier::external_body]
fn quiche_connect(
    server_name: Option<&str>,
    scid: &[u8],
    local: &SockAddr,
    peer: &SockAddr,
    config: &mut QuicConfig,
) -> (r: Result<QuicConnection, quiche::Error>)
    ensures
        final(config)@ == old(config)@,
        final(config).creations() == old(config).creations().push(creation_outcome(r)),
        r is Ok ==> fresh_state(
            r->Ok_0@,
            client_origin(opt_str(server_name), scid@, *local, *peer, old(config)@),
        ),
{
    let l = match local.ip { IpOctets::V4(o) => core::net::SocketAddr::from((o, local.port)), IpOctets::V6(o) => core::net::SocketAddr::from((o, local.port)) };
    let p = match peer.ip { IpOctets::V4(o) => core::net::SocketAddr::from((o, peer.port)), IpOctets::V6(o) => core::net::SocketAddr::from((o, peer.port)) };
    let r = quiche::connect(server_name, &ConnectionId::from_ref(scid), l, p, &mut config.inner);
    r.map(|inner| QuicConnection { handle: QuicHandle { inner }, state: Ghost(arbitrary()) })
}

/// `quiche::Connection::recv`: processes the datagram in `buf` (decrypting
/// it in place), received from `from` on `to`. An empty datagram gives
/// `BufferTooShort`; otherwise the count of bytes processed is at most the
/// datagram's length.
#[verifier::external_body]
fn quiche_conn_recv(
    conn: &mut QuicConnection,
    buf: &mut Vec<u8>,
    from: &SockAddr,
    to: &SockAddr,
) -> (r: Result<usize, quiche::Error>)
    ensures
        next_state(
            old(conn)@,
            final(conn)@,
            ConnCall::Recv { datagram: old(buf)@, from: *from, to: *to, received: r },
        ),
        final(buf)@.len() == old(buf)@.len(),
        old(buf)@.len() == 0 ==> r is Err && r->Err_0 == quiche::Error::BufferTooShort,
        r is Ok ==> r->Ok_0 <= old(buf)@.len(),
{
    let f = match from.ip { IpOctets::V4(o) => core::net::SocketAddr::from((o, from.port)), IpOctets::V6(o) => core::net::SocketAddr::from((o, from.port)) };
    let t = match to.ip { IpOctets::V4(o) => core::net::SocketAddr::from((o, to.port)), IpOctets::V6(o) => core::net::SocketAddr::from((o, to.port)) };
    conn.handle.inner.recv(buf.as_mut_slice(), quiche::RecvInfo { from: f, to: t })
}

/// `quiche::Connection::send`: writes a packet into `out`. An empty buffer
/// gives `BufferTooShort`; a closed or draining connection gives `Done`;
/// otherwise the count written is at most the buffer's length. The send
/// information is dropped.
#[verifier::external_body]
fn quiche_conn_send(conn: &mut QuicConnection, out: &mut Vec<u8>) -> (r: Result<
    usize,
    quiche::Error,
>)
    ensures
        next_state(
            old(conn)@,
            final(conn)@,
            ConnCall::Send { buf_len: old(out)@.len(), sent: filled_result(r, final(out)@) },
        ),
        final(out)@.len() == old(out)@.len(),
        old(out)@.len() == 0 ==> r is Err && r->Err_0 == quiche::Error::BufferTooShort,
        old(out)@.len() > 0 && (old(conn)@.closed || old(conn)@.draining) ==> r is Err && r->Err_0
            == quiche::Error::Done,
        r is Ok ==> r->Ok_0 <= old(out)@.len(),
{
    conn.handle.inner.send(out.as_mut_slice()).map(|(written, _info)| written)
}

/// `quiche::Connection::close`: when the connection is already closed,
/// draining or closing, it changes nothing and gives `Done`; otherwise it
/// records the close error (see `close_error`), may mark the connection
/// closed at once, and succeeds.
#[verifier::external_body]
fn quiche_conn_close(conn: &mut QuicConnection, app: bool, err: u64, reason: &[u8]) -> (r:
    Result<(), quiche::Error>)
    ensures
        closed_state(old(conn)@, final(conn)@, app, err, reason@),
        r is Err <==> closing(old(conn)@),
        r is Err ==> r->Err_0 == quiche::Error::Done,
{
    conn.handle.inner.close(app, err, reason)
}

/// `quiche::Connection::timeout`, in nanoseconds: none once the connection is
/// closed, some while it drains (the draining timer). Otherwise its value
/// depends on the clock and the connection's timers and is not stated. The
/// query changes nothing in the connection; the model records the reading.
#[verifier::external_body]
fn quiche_conn_timeout_nanos(conn: &mut QuicConnection) -> (timeout_nanos: Option<u128>)
    ensures
        final(conn)@ == (ConnState {
            calls: old(conn)@.calls.push(ConnCall::TimeoutQuery { timeout_nanos }),
            ..old(conn)@
        }),
        old(conn)@.closed ==> timeout_nanos is None,
        !old(conn)@.closed && old(conn)@.draining ==> timeout_nanos is Some,
{
    conn.handle.inner.timeout().map(|t| t.as_nanos())
}

/// `quiche::Connection::on_timeout`.
#[verifier::external_body]
fn quiche_conn_on_timeout(conn: &mut QuicConnection)
    ensures
        next_state(old(conn)@, final(conn)@, ConnCall::OnTimeout),
{
    conn.handle.inner.on_timeout()
}

/// `quiche::Connection::is_established`: whether the handshake completed.
#[verifier::external_body]
fn quiche_conn_is_established(conn: &QuicConnection) -> (established: bool)
    ensures
        established == conn@.established,
{
    conn.handle.inner.is_established()
}

/// `quiche::Connection::is_in_early_data`.
#[verifier::external_body]
fn quiche_conn_is_in_early_data(conn: &QuicConnection) -> (early: bool)
    ensures
        early == conn@.early_data,
{
    conn.handle.inner.is_in_early_data()
}

/// `quiche::Connection::is_closed`.
#[verifier::external_body]
fn quiche_conn_is_closed(conn: &QuicConnection) -> (closed: bool)
    ensures
        closed == conn@.closed,
{
    conn.handle.inner.is_closed()
}

/// `quiche::Connection::peer_cert_chain`, each certificate copied out.
#[verifier::external_body]
fn quiche_conn_peer_cert_chain(conn: &QuicConnection) -> (chain: Option<Vec<Vec<u8>>>)
    ensures
        chain_view(chain) == conn@.peer_cert_chain,
{
    conn.handle.inner.peer_cert_chain().map(|certs| certs.into_iter().map(|c| c.to_vec()).collect())
}

/// `quiche::Connection::application_proto`, copied out.
#[verifier::external_body]
fn quiche_conn_application_proto(conn: &QuicConnection) -> (proto: Vec<u8>)
    ensures
        proto@ == conn@.application_proto,
{
    conn.handle.inner.application_proto().to_vec()
}

/// `quiche::Connection::stats` and the first of
/// `quiche::Connection::path_stats`: the counts of packets received, sent
/// and lost, and the first path's round-trip time (in nanoseconds),
/// congestion window and delivery rate.
#[verifier::external_body]
fn quiche_conn_stats(conn: &QuicConnection) -> (stats: (usize, usize, usize, Option<PathSample>))
    ensures
        stats == conn@.stats,
{
    let s = conn.handle.inner.stats();
    let path = conn.handle.inner.path_stats().next().map(
        |p| PathSample { rtt_nanos: p.rtt.as_nanos(), cwnd: p.cwnd, delivery_rate: p.delivery_rate },
    );
    (s.recv, s.sent, s.lost, path)
}

/// `quiche::Connection::stream_recv`: reads stream data into `out`; the count
/// read is at most the buffer's length. The end-of-stream flag is dropped.
#[verifier::external_body]
fn quiche_conn_stream_recv(conn: &mut QuicConnection, stream_id: u64, out: &mut Vec<u8>) -> (r:
    Result<usize, quiche::Error>)
    ensures
        next_state(
            old(conn)@,
            final(conn)@,
            ConnCall::StreamRecv {
                stream_id,
                buf_len: old(out)@.len(),
                read: filled_result(r, final(out)@),
            },
        ),
        final(out)@.len() == old(out)@.len(),
        r is Ok ==> r->Ok_0 <= old(out)@.len(),
{
    conn.handle.inner.stream_recv(stream_id, out.as_mut_slice()).map(|(read, _fin)| read)
}

/// `quiche::Connection::stream_send`: the count written is at most the
/// length of `buf`.
#[verifier::external_body]
fn quiche_conn_stream_send(conn: &mut QuicConnection, stream_id: u64, buf: &[u8], fin: bool) -> (r:
    Result<usize, quiche::Error>)
    ensures
        next_state(
            old(conn)@,
            final(conn)@,
            ConnCall::StreamSend { stream_id, data: buf@, fin, written: r },
        ),
        r is Ok ==> r->Ok_0 <= buf@.len(),
{
    conn.handle.inner.stream_send(stream_id, buf, fin)
}

/// `quiche::Connection::stream_shutdown`: the errors are `Done` (no such
/// stream, or that side already shut) and `InvalidStreamState` carrying the
/// stream identifier, which comes only for a unidirectional stream shut from
/// the side that does not use it. Which side a unidirectional stream belongs
/// to depends on whether the connection is a server; that is not stated.
#[verifier::external_body]
fn quiche_conn_stream_shutdown(
    conn: &mut QuicConnection,
    stream_id: u64,
    direction: quiche::Shutdown,
    err: u64,
) -> (r: Result<(), quiche::Error>)
    ensures
        next_state(
            old(conn)@,
            final(conn)@,
            ConnCall::StreamShutdown { stream_id, direction, err, shut: r },
        ),
        r is Err ==> r->Err_0 == quiche::Error::Done || r->Err_0
            == quiche::Error::InvalidStreamState(stream_id),
        stream_id & 2 == 0 ==> r is Ok || r->Err_0 == quiche::Error::Done,
{
    conn.handle.inner.stream_shutdown(stream_id, direction, err)
}

/// `quiche::Connection::stream_capacity`: `InvalidStreamState` carrying the
/// stream identifier when there is no such stream; `StreamStopped` when the
/// peer stopped it; otherwise the smaller of the connection's and the
/// stream's send capacity.
#[verifier::external_body]
fn quiche_conn_stream_capacity(conn: &mut QuicConnection, stream_id: u64) -> (r: Result<
    usize,
    quiche::Error,
>)
    ensures
        next_state(
            old(conn)@,
            final(conn)@,
            ConnCall::StreamCapacity { stream_id, capacity: r },
        ),
        r is Err ==> r->Err_0 == quiche::Error::InvalidStreamState(stream_id) || r->Err_0 is StreamStopped,
        !old(conn)@.streams.contains(stream_id) ==> r is Err && r->Err_0
            == quiche::Error::InvalidStreamState(stream_id),
        old(conn)@.streams.contains(stream_id) && old(conn)@.stream_caps.dom().contains(stream_id)
            ==> r is Ok && r->Ok_0 == capacity_of(old(conn)@, stream_id),
{
    conn.handle.inner.stream_capacity(stream_id)
}

/// `quiche::Connection::stream_finished`: true for a stream that does not
/// exist, and for one whose receiving side has seen its end.
#[verifier::external_body]
fn quiche_conn_stream_finished(conn: &QuicConnection, stream_id: u64) -> (finished: bool)
    ensures
        finished == !conn@.unfinished.contains(stream_id),
{
    conn.handle.inner.stream_finished(stream_id)
}

/// `quiche::Connection::readable`: the streams that have data to read, each
/// once, since each stream's entry is linked into the readable set at most
/// once. Stream identifiers are below 2^62. Their order (by priority) is not
/// stated.
#[verifier::external_body]
fn quiche_conn_readable(conn: &QuicConnection) -> (iter: quiche::StreamIter)
    ensures
        stream_iter_remaining(iter).no_duplicates(),
        stream_iter_remaining(iter).to_set() == conn@.readable,
        ids_bounded(iter),
{
    conn.handle.inner.readable()
}

/// `quiche::Connection::writable`: none when the connection-level send
/// capacity is zero; otherwise the streams that have room to write, each
/// once. Stream identifiers are below 2^62. Their order is not stated.
#[verifier::external_body]
fn quiche_conn_writable(conn: &QuicConnection) -> (iter: quiche::StreamIter)
    ensures
        stream_iter_remaining(iter).no_duplicates(),
        conn@.tx_cap == 0 ==> stream_iter_remaining(iter).len() == 0,
        conn@.tx_cap != 0 ==> stream_iter_remaining(iter).to_set() == conn@.writable,
        ids_bounded(iter),
{
    conn.handle.inner.writable()
}

/// `quiche::StreamIter::next`: yields the first remaining identifier and
/// drops it, or yields nothing once none remain.
#[verifier::external_body]
fn quiche_stream_iter_next(iter: &mut quiche::StreamIter) -> (next: Option<u64>)
    ensures
        stream_iter_remaining(*old(iter)).len() == 0 ==> next is None && stream_iter_remaining(
            *final(iter),
        ) == stream_iter_remaining(*old(iter)),
        stream_iter_remaining(*old(iter)).len() > 0 ==> next == Some(
            stream_iter_remaining(*old(iter))[0],
        ) && stream_iter_remaining(*final(iter)) == stream_iter_remaining(*old(iter)).drop_first(),
{
    iter.next()
}

/// Keeps a non-empty original destination connection identifier and drops
/// an empty one.
pub fn select_odcid(odcid: Option<Vec<u8>>) -> (chosen: Option<Vec<u8>>)
    ensures
        opt_bytes(chosen) == chosen_odcid(opt_bytes(odcid)),
{
    match odcid {
        Some(id) => if id.len() == 0 {
            None
        } else {
            Some(id)
        },
        None => None,
    }
}

/// What Java receives from creating a connection: the connection, or the
/// error's code.
pub fn connection_outcome(r: Result<QuicConnection, quiche::Error>) -> (out: Result<
    QuicConnection,
    i32,
>)
    ensures
        r is Ok <==> out is Ok,
        r is Ok ==> out->Ok_0 == r->Ok_0,
        r is Err ==> out is Err && out->Err_0 == transport_code(r->Err_0),
{
    match r {
        Ok(conn) => Ok(conn),
        Err(e) => Err(crate::codes::error_to_c(e)),
    }
}

/// Creates a server-side connection with source connection identifier
/// `scid` between `local` and `peer`, for the original destination
/// connection identifier `odcid` if Java gave a non-empty one (no identifier
/// and an empty one are handed to quiche alike). On failure the code of
/// quiche's error is returned.
pub fn accept(
    scid: &[u8],
    odcid: Option<Vec<u8>>,
    config: &mut QuicConfig,
    local: &SockAddr,
    peer: &SockAddr,
) -> (out: Result<QuicConnection, i32>)
    ensures
        final(config)@ == old(config)@,
        out is Ok ==> fresh_state(
            out->Ok_0@,
            server_origin(scid@, chosen_odcid(opt_bytes(odcid)), *local, *peer, old(config)@),
        ),
        creation_recorded(old(config).creations(), final(config).creations(), out),
        out is Err ==> exists|e: quiche::Error| out->Err_0 == #[trigger] transport_code(e),
{
    let odcid = select_odcid(odcid);
    let r = quiche_accept(scid, &odcid, local, peer, config);
    let out = connection_outcome(r);
    proof {
        if r is Err {
            let _ = transport_code(r->Err_0);
        }
        assert(config.creations().drop_last() =~= old(config).creations());
    }
    out
}

/// Creates a client-side connection with source connection identifier
/// `scid` between `local` and `peer`, checking the server's certificate
/// against `server_name` when Java gave one. On failure the code of quiche's
/// error is returned.
pub fn connect(
    server_name: Option<&str>,
    scid: &[u8],
    config: &mut QuicConfig,
    local: &SockAddr,
    peer: &SockAddr,
) -> (out: Result<QuicConnection, i32>)
    ensures
        final(config)@ == old(config)@,
        out is Ok ==> fresh_state(
            out->Ok_0@,
            client_origin(opt_str(server_name), scid@, *local, *peer, old(config)@),
        ),
        creation_recorded(old(config).creations(), final(config).creations(), out),
        out is Err ==> exists|e: quiche::Error| out->Err_0 == #[trigger] transport_code(e),
{
    let r = quiche_connect(server_name, scid, local, peer, config);
    let out = connection_outcome(r);
    proof {
        if r is Err {
            let _ = transport_code(r->Err_0);
        }
        assert(config.creations().drop_last() =~= old(config).creations());
    }
    out
}

/// Feeds the datagram `buf`, received from `from` on `to`, to the
/// connection. The code is the count of bytes processed, at most the
/// datagram's length, or the error's code; an empty datagram gives -2, the
/// code of `BufferTooShort`.
pub fn conn_recv(conn: &mut QuicConnection, buf: Vec<u8>, from: &SockAddr, to: &SockAddr) -> (c:
    i32)
    ensures
        next_state(
            old(conn)@,
            final(conn)@,
            ConnCall::Recv {
                datagram: buf@,
                from: *from,
                to: *to,
                received: last_call(final(conn)@)->received,
            },
        ),
        c == count_code(last_call(final(conn)@)->received),
        last_call(final(conn)@)->received is Ok ==> last_call(final(conn)@)->received->Ok_0
            <= buf@.len(),
        buf@.len() == 0 ==> c == -2,
        exists|r: Result<usize, quiche::Error>|
            c == #[trigger] count_code(r) && (r is Ok ==> r->Ok_0 <= buf@.len()),
{
    let mut data = buf;
    let r = quiche_conn_recv(conn, &mut data, from, to);
    count_to_c(r)
}

/// Takes the next packet to send, into a buffer of `buf_len` bytes. The code
/// is the packet's length or the error's code, and the bytes are the packet;
/// a zero-length buffer gives -2, the code of `BufferTooShort`, and a closed
/// or draining connection sends nothing and gives -1, the code of `Done`.
pub fn conn_send(conn: &mut QuicConnection, buf_len: usize) -> (f: Filled)
    ensures
        next_state(
            old(conn)@,
            final(conn)@,
            ConnCall::Send { buf_len: buf_len as nat, sent: last_call(final(conn)@)->sent },
        ),
        filled_report(last_call(final(conn)@)->sent, f),
        buf_len == 0 ==> f.code == -2 && f.bytes.len() == 0,
        buf_len > 0 && (old(conn)@.closed || old(conn)@.draining) ==> f.code == -1
            && f.bytes.len() == 0,
        f.bytes.len() <= buf_len,
        exists|r: Result<usize, quiche::Error>|
            f.code == #[trigger] count_code(r) && (r is Ok ==> r->Ok_0 == f.bytes.len()) && (r is Err
                ==> f.bytes.len() == 0),
{
    let mut buf = zeroed(buf_len);
    let r = quiche_conn_send(conn, &mut buf);
    filled_outcome(r, buf)
}

/// Closes the connection, as the application (any non-zero Java boolean) or
/// as the transport, with the error code taken as an unsigned 64-bit number
/// and the given reason. The code is -1 (the code of `Done`) exactly when
/// the connection was already closed or closing, and then nothing changes;
/// otherwise it is 0 and the close error is recorded.
pub fn conn_close(conn: &mut QuicConnection, app: u8, error: i64, reason: &[u8]) -> (c: i32)
    ensures
        closed_state(old(conn)@, final(conn)@, app != 0, error as u64, reason@),
        c == -1 <==> closing(old(conn)@),
        c == 0 <==> !closing(old(conn)@),
{
    let r = quiche_conn_close(conn, app != 0, error as u64, reason);
    status_to_c(r)
}

/// The time until the next timeout, in nanoseconds, or -1 when no timer is
/// armed, as on a closed connection. A draining connection always has a
/// timer.
pub fn conn_timeout_as_nanos(conn: &mut QuicConnection) -> (c: i64)
    ensures
        final(conn)@ == (ConnState {
            calls: old(conn)@.calls.push(
                ConnCall::TimeoutQuery { timeout_nanos: last_call(final(conn)@)->timeout_nanos },
            ),
            ..old(conn)@
        }),
        c == timeout_nanos_code(last_call(final(conn)@)->timeout_nanos),
        old(conn)@.closed ==> c == -1,
        exists|t: Option<u128>|
            c == #[trigger] timeout_nanos_code(t) && (old(conn)@.closed ==> t is None) && (!old(
                conn,
            )@.closed && old(conn)@.draining ==> t is Some),
{
    let t = quiche_conn_timeout_nanos(conn);
    assert(u64::MAX as i64 == -1) by (bit_vector);
    timeout_nanos_to_c(t)
}

/// The time until the next timeout, in whole milliseconds, or -1 when no
/// timer is armed, as on a closed connection. A draining connection always
/// has a timer.
pub fn conn_timeout_as_millis(conn: &mut QuicConnection) -> (c: i64)
    ensures
        final(conn)@ == (ConnState {
            calls: old(conn)@.calls.push(
                ConnCall::TimeoutQuery { timeout_nanos: last_call(final(conn)@)->timeout_nanos },
            ),
            ..old(conn)@
        }),
        c == timeout_millis_code(last_call(final(conn)@)->timeout_nanos),
        old(conn)@.closed ==> c == -1,
        exists|t: Option<u128>|
            c == #[trigger] timeout_millis_code(t) && (old(conn)@.closed ==> t is None) && (!old(
                conn,
            )@.closed && old(conn)@.draining ==> t is Some),
{
    let t = quiche_conn_timeout_nanos(conn);
    assert(u64::MAX as i64 == -1) by (bit_vector);
    timeout_millis_to_c(t)
}

/// Handles a timeout.
pub fn conn_on_timeout(conn: &mut QuicConnection)
    ensures
        next_state(old(conn)@, final(conn)@, ConnCall::OnTimeout),
{
    quiche_conn_on_timeout(conn)
}

/// Whether the handshake is complete.
pub fn conn_is_established(conn: &QuicConnection) -> (established: bool)
    ensures
        established == conn@.established,
{
    quiche_conn_is_established(conn)
}

/// Whether the connection is sending or receiving early data.
pub fn conn_is_in_early_data(conn: &QuicConnection) -> (early: bool)
    ensures
        early == conn@.early_data,
{
    quiche_conn_is_in_early_data(conn)
}

/// Whether the connection is closed.
pub fn conn_is_closed(conn: &QuicConnection) -> (closed: bool)
    ensures
        closed == conn@.closed,
{
    quiche_conn_is_closed(conn)
}

/// The peer's certificate chain, leaf first, as DER bytes; none before the
/// peer has sent one.
pub fn conn_peer_cert_chain(conn: &QuicConnection) -> (chain: Option<Vec<Vec<u8>>>)
    ensures
        chain_view(chain) == conn@.peer_cert_chain,
{
    quiche_conn_peer_cert_chain(conn)
}

/// The application protocol negotiated with the peer; empty if none.
pub fn conn_application_proto(conn: &QuicConnection) -> (proto: Vec<u8>)
    ensures
        proto@ == conn@.application_proto,
{
    quiche_conn_application_proto(conn)
}

/// The connection's statistics in the Java types that receive them.
pub fn conn_stats(conn: &QuicConnection) -> (report: StatsReport)
    ensures
        report == stats_report_of(conn@.stats.0, conn@.stats.1, conn@.stats.2, conn@.stats.3),
{
    let (recv, sent, lost, path) = quiche_conn_stats(conn);
    stats_report(recv, sent, lost, path)
}

/// Reads data of stream `stream_id` (a Java `long`, taken as unsigned) into a
/// buffer of `buf_len` bytes. The code is the count read or the error's
/// code, and the bytes are the data read.
pub fn conn_stream_recv(conn: &mut QuicConnection, stream_id: i64, buf_len: usize) -> (f:
    Filled)
    ensures
        next_state(
            old(conn)@,
            final(conn)@,
            ConnCall::StreamRecv {
                stream_id: stream_id as u64,
                buf_len: buf_len as nat,
                read: last_call(final(conn)@)->read,
            },
        ),
        filled_report(last_call(final(conn)@)->read, f),
        f.bytes.len() <= buf_len,
        exists|r: Result<usize, quiche::Error>|
            f.code == #[trigger] count_code(r) && (r is Ok ==> r->Ok_0 == f.bytes.len()) && (r is Err
                ==> f.bytes.len() == 0),
{
    let mut buf = zeroed(buf_len);
    let r = quiche_conn_stream_recv(conn, stream_id as u64, &mut buf);
    filled_outcome(r, buf)
}

/// Writes all of `buf` to stream `stream_id`, finishing the stream when
/// `fin` is a non-zero Java boolean. The code is the count written, at most
/// the length of `buf`, or the error's code.
pub fn conn_stream_send(conn: &mut QuicConnection, stream_id: i64, buf: &[u8], fin: u8) -> (c:
    i32)
    ensures
        next_state(
            old(conn)@,
            final(conn)@,
            ConnCall::StreamSend {
                stream_id: stream_id as u64,
                data: buf@,
                fin: fin != 0,
                written: last_call(final(conn)@)->written,
            },
        ),
        c == count_code(last_call(final(conn)@)->written),
        exists|r: Result<usize, quiche::Error>|
            c == #[trigger] count_code(r) && (r is Ok ==> r->Ok_0 <= buf@.len()),
{
    let r = quiche_conn_stream_send(conn, stream_id as u64, buf, fin != 0);
    count_to_c(r)
}

/// Writes `buf` to stream `stream_id` as `conn_stream_send` does, with the
/// code as a Java `long`.
pub fn wt_stream_send(conn: &mut QuicConnection, stream_id: i64, buf: &[u8], fin: u8) -> (c:
    i64)
    ensures
        next_state(
            old(conn)@,
            final(conn)@,
            ConnCall::StreamSend {
                stream_id: stream_id as u64,
                data: buf@,
                fin: fin != 0,
                written: last_call(final(conn)@)->written,
            },
        ),
        c == count_code_long(last_call(final(conn)@)->written),
        exists|r: Result<usize, quiche::Error>|
            c == #[trigger] count_code_long(r) && (r is Ok ==> r->Ok_0 <= buf@.len()),
{
    let r = quiche_conn_stream_send(conn, stream_id as u64, buf, fin != 0);
    count_to_c_long(r)
}

/// Shuts down the reading side (direction 0) or the writing side (any other
/// direction) of stream `stream_id` with the error code `err`. `Done` counts
/// as success, so a bidirectional stream always succeeds; the only error
/// handed back is `InvalidStreamState` of the stream, for a unidirectional
/// stream shut from the side that does not use it.
pub fn conn_stream_shutdown(conn: &mut QuicConnection, stream_id: i64, direction: i32, err: i64) -> (r:
    Result<(), quiche::Error>)
    ensures
        next_state(
            old(conn)@,
            final(conn)@,
            ConnCall::StreamShutdown {
                stream_id: stream_id as u64,
                direction: direction_of(direction),
                err: err as u64,
                shut: last_call(final(conn)@)->shut,
            },
        ),
        r is Ok <==> (last_call(final(conn)@)->shut is Ok || last_call(final(conn)@)->shut == Err::<
            (),
            quiche::Error,
        >(quiche::Error::Done)),
        r is Err ==> r == last_call(final(conn)@)->shut,
        r is Err ==> r->Err_0 == quiche::Error::InvalidStreamState(stream_id as u64) && (
        stream_id as u64) & 2 != 0,
        (stream_id as u64) & 2 == 0 ==> r is Ok,
{
    let dir = shutdown_direction(direction);
    let r = quiche_conn_stream_shutdown(conn, stream_id as u64, dir, err as u64);
    shutdown_outcome(r)
}

/// The stream's send capacity, the smaller of the connection's and the
/// stream's, or the error's code: -7 (`InvalidStreamState`) when there is no
/// such stream, -15 (`StreamStopped`) when the peer stopped it.
pub fn conn_stream_capacity(conn: &mut QuicConnection, stream_id: i64) -> (c: i32)
    ensures
        next_state(
            old(conn)@,
            final(conn)@,
            ConnCall::StreamCapacity {
                stream_id: stream_id as u64,
                capacity: last_call(final(conn)@)->capacity,
            },
        ),
        c == count_code(last_call(final(conn)@)->capacity),
        exists|r: Result<usize, quiche::Error>|
            c == #[trigger] count_code(r) && (r is Err ==> r->Err_0 == quiche::Error::InvalidStreamState(
                stream_id as u64,
            ) || r->Err_0 is StreamStopped),
        !old(conn)@.streams.contains(stream_id as u64) ==> c == -7,
        old(conn)@.streams.contains(stream_id as u64) && old(conn)@.stream_caps.dom().contains(
            stream_id as u64,
        ) ==> c == capacity_of(old(conn)@, stream_id as u64) as i32,
{
    let r = quiche_conn_stream_capacity(conn, stream_id as u64);
    count_to_c(r)
}

/// Whether all the stream's data has been read; true for a stream that does
/// not exist.
pub fn conn_stream_finished(conn: &QuicConnection, stream_id: i64) -> (finished: bool)
    ensures
        finished == !conn@.unfinished.contains(stream_id as u64),
{
    quiche_conn_stream_finished(conn, stream_id as u64)
}

/// The streams that have data to read, each once.
pub fn conn_readable(conn: &QuicConnection) -> (iter: quiche::StreamIter)
    ensures
        stream_iter_remaining(iter).no_duplicates(),
        stream_iter_remaining(iter).to_set() == conn@.readable,
        ids_bounded(iter),
{
    quiche_conn_readable(conn)
}

/// The streams that have room to write, each once; none when the
/// connection has no send capacity.
pub fn conn_writable(conn: &QuicConnection) -> (iter: quiche::StreamIter)
    ensures
        stream_iter_remaining(iter).no_duplicates(),
        conn@.tx_cap == 0 ==> stream_iter_remaining(iter).len() == 0,
        conn@.tx_cap != 0 ==> stream_iter_remaining(iter).to_set() == conn@.writable,
        ids_bounded(iter),
{
    quiche_conn_writable(conn)
}

/// Takes the next stream identifier from the iterator: its code is the
/// identifier as a Java `long`, or -1 (the code of `Done`) when none is left,
/// in which case the iterator stays as it was. For an iterator whose
/// identifiers are bounded, as those of `conn_readable` and `conn_writable`
/// are, the code of an identifier is the identifier itself, never negative,
/// so -1 means exactly that none is left; the bound is kept.
pub fn stream_iter_next(iter: &mut quiche::StreamIter) -> (c: i64)
    ensures
        ids_bounded(*old(iter)) ==> ids_bounded(*final(iter)),
        ids_bounded(*old(iter)) && stream_iter_remaining(*old(iter)).len() > 0 ==> c >= 0
            && c == stream_iter_remaining(*old(iter))[0],
        stream_iter_remaining(*old(iter)).len() == 0 ==> c == -1 && stream_iter_remaining(
            *final(iter),
        ) == stream_iter_remaining(*old(iter)),
        stream_iter_remaining(*old(iter)).len() > 0 ==> c == stream_iter_remaining(*old(iter))[0] as i64
            && stream_iter_remaining(*final(iter)) == stream_iter_remaining(*old(iter)).drop_first(),
{
    let ghost before = stream_iter_remaining(*iter);
    let next = quiche_stream_iter_next(iter);
    proof {
        if ids_bounded(*old(iter)) && before.len() > 0 {
            let after = stream_iter_remaining(*iter);
            assert forall|i: int| 0 <= i < after.len() implies #[trigger] after[i]
                < stream_id_bound() by {
                assert(after[i] == before[i + 1]);
            }
            assert(before[0] < stream_id_bound());
        }
    }
    next_stream_to_c(next)
}

/// What Java gets from a send is the packet quiche wrote: when quiche wrote
/// a packet, the bytes handed back are exactly its bytes and the code is
/// their count, never negative; when quiche failed, no bytes are handed
/// back and the code is negative.
pub proof fn lemma_send_hands_back_the_written_packet(
    s0: ConnState,
    s1: ConnState,
    buf_len: usize,
    f: Filled,
)
    requires
        buf_len <= i32::MAX,
        next_state(s0, s1, (ConnCall::Send { buf_len: buf_len as nat, sent: last_call(s1)->sent })),
        filled_report(last_call(s1)->sent, f),
        f.bytes.len() <= buf_len,
    ensures
        last_call(s1) is Send,
        last_call(s1)->sent matches Ok(packet) ==> f.bytes@ == packet && f.code == f.bytes.len()
            && f.code >= 0,
        last_call(s1)->sent is Err ==> f.bytes.len() == 0 && f.code < 0,
{
}

/// What Java gets from a stream read is the data quiche delivered for that
/// stream: the bytes handed back are exactly the bytes quiche read into the
/// buffer, in order, and the code is their count; on failure there are no
/// bytes and the code is negative.
pub proof fn lemma_stream_read_hands_back_the_read_data(
    s0: ConnState,
    s1: ConnState,
    stream_id: i64,
    buf_len: usize,
    f: Filled,
)
    requires
        buf_len <= i32::MAX,
        next_state(
            s0,
            s1,
            (ConnCall::StreamRecv {
                stream_id: stream_id as u64,
                buf_len: buf_len as nat,
                read: last_call(s1)->read,
            }),
        ),
        filled_report(last_call(s1)->read, f),
        f.bytes.len() <= buf_len,
    ensures
        last_call(s1) is StreamRecv,
        last_call(s1)->StreamRecv_stream_id == stream_id as u64,
        last_call(s1)->read matches Ok(data) ==> f.bytes@ == data && f.code == data.len()
            && f.code >= 0,
        last_call(s1)->read is Err ==> f.bytes.len() == 0 && f.code < 0,
{
}

/// The timeout queries report the reading quiche gave: in nanoseconds the
/// reading itself, in milliseconds the reading divided by a million and
/// rounded down, so that for one reading the millisecond code is the
/// nanosecond code divided by a million; no timer is -1 in both units.
pub proof fn lemma_timeout_reports_the_reading(
    s0: ConnState,
    s1: ConnState,
    nanos: i64,
    millis: i64,
)
    requires
        s1 == (ConnState {
            calls: s0.calls.push(
                ConnCall::TimeoutQuery { timeout_nanos: last_call(s1)->timeout_nanos },
            ),
            ..s0
        }),
        nanos == timeout_nanos_code(last_call(s1)->timeout_nanos),
        millis == timeout_millis_code(last_call(s1)->timeout_nanos),
    ensures
        last_call(s1)->timeout_nanos matches Some(n) ==> n <= i64::MAX ==> nanos == n && millis
            == n / 1_000_000 && millis == nanos / 1_000_000,
        last_call(s1)->timeout_nanos is None ==> nanos == -1 && millis == -1,
        s0.closed ==> s1.closed,
{
    assert(u64::MAX as i64 == -1) by (bit_vector);
    if let Some(n) = last_call(s1)->timeout_nanos {
        if n <= i64::MAX {
            assert(n / 1_000_000 <= n);
        }
    }
}

/// Closing a connection twice: the second close is refused with -1 and
/// changes nothing, so the error of the first close is the one kept; and the
/// first close, on a connection not yet closing, records its own error.
pub proof fn lemma_second_close_keeps_first_error(
    s0: ConnState,
    s1: ConnState,
    s2: ConnState,
    app1: bool,
    err1: u64,
    reason1: Seq<u8>,
    app2: bool,
    err2: u64,
    reason2: Seq<u8>,
)
    requires
        closed_state(s0, s1, app1, err1, reason1),
        closed_state(s1, s2, app2, err2, reason2),
    ensures
        closing(s1),
        s2.local_error == s1.local_error,
        s2.closed == s1.closed,
        !closing(s0) ==> s2.local_error == Some(close_error(s0, app1, err1, reason1)),
{
}

/// Whatever calls follow, a closed connection stays closed and a recorded
/// close error stays as it was.
pub proof fn lemma_closed_stays_closed(s0: ConnState, s1: ConnState, call: ConnCall)
    requires
        next_state(s0, s1, call),
    ensures
        s0.closed ==> s1.closed,
        s0.local_error is Some ==> s1.local_error == s0.local_error,
        closing(s0) && !s0.draining ==> closing(s1),
{
}

/// No original destination identifier and an empty one are handed to quiche
/// alike: as none.
pub proof fn lemma_empty_odcid_is_none()
    ensures
        chosen_odcid(None) == chosen_odcid(Some(Seq::<u8>::empty())),
        chosen_odcid(Some(Seq::<u8>::empty())) is None,
{
}

/// The WebTransport stream send hands quiche the same call as the plain
/// stream send, and reports the same code wherever the count fits a Java
/// `int`.
pub proof fn lemma_wt_send_matches_stream_send(r: Result<usize, quiche::Error>)
    ensures
        r is Err ==> count_code_long(r) == count_code(r),
        r matches Ok(n) ==> n <= i32::MAX ==> count_code_long(r) == count_code(r),
{
}

} // verus!
