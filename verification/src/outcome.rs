//! How the result of a quiche call becomes what Java receives: a code that
//! is a count or a stream identifier on success and a negative error code on
//! failure, and the bytes to copy back into the Java array, if any.

use vstd::prelude::*;
use crate::codes::{error_to_c, h3_error_code, http3_code, transport_code};

verus! {

#[verifier::external_type_specification]
pub struct ExShutdown(quiche::Shutdown);

/// The code for a call that yields a count of bytes: the count as a Java
/// `int`, or the error's code.
pub open spec fn count_code(r: Result<usize, quiche::Error>) -> i32 {
    match r {
        Ok(n) => n as i32,
        Err(e) => transport_code(e) as i32,
    }
}

/// The code for a call that yields a count of bytes, as a Java `long`.
pub open spec fn count_code_long(r: Result<usize, quiche::Error>) -> i64 {
    match r {
        Ok(n) => n as i64,
        Err(e) => transport_code(e) as i64,
    }
}

/// The code for a call that yields nothing: 0, or the error's code.
pub open spec fn status_code(r: Result<(), quiche::Error>) -> i32 {
    match r {
        Ok(_) => 0,
        Err(e) => transport_code(e) as i32,
    }
}

/// The code for an HTTP/3 call that yields a count of bytes.
pub open spec fn h3_count_code(r: Result<usize, quiche::h3::Error>) -> i32 {
    match r {
        Ok(n) => n as i32,
        Err(e) => http3_code(e) as i32,
    }
}

/// The code for an HTTP/3 call that yields a count of bytes, as a Java
/// `long`.
pub open spec fn h3_count_code_long(r: Result<usize, quiche::h3::Error>) -> i64 {
    match r {
        Ok(n) => n as i64,
        Err(e) => http3_code(e) as i64,
    }
}

/// The code for an HTTP/3 call that yields a stream identifier.
pub open spec fn h3_stream_code(r: Result<u64, quiche::h3::Error>) -> i64 {
    match r {
        Ok(id) => id as i64,
        Err(e) => http3_code(e) as i64,
    }
}

/// The code for an HTTP/3 call that yields nothing: 0, or the error's code.
pub open spec fn h3_status_code(r: Result<(), quiche::h3::Error>) -> i32 {
    match r {
        Ok(_) => 0,
        Err(e) => http3_code(e) as i32,
    }
}

/// The bytes that a call which filled `buf` hands back: the first `n` of
/// them when it reports `n` bytes, none when it fails.
pub open spec fn filled_bytes<E>(r: Result<usize, E>, buf: Seq<u8>) -> Seq<u8> {
    match r {
        Ok(n) => buf.subrange(0, n as int),
        Err(_) => seq![],
    }
}

/// What a call that filled `buf` wrote: the first `n` bytes when it reports
/// `n`, or the error.
pub open spec fn filled_result<E>(r: Result<usize, E>, buf: Seq<u8>) -> Result<Seq<u8>, E> {
    match r {
        Ok(n) => Ok(buf.subrange(0, n as int)),
        Err(e) => Err(e),
    }
}

/// Whether Java receives, for what a transport call wrote, its length as
/// the code and its bytes; or, for an error, the error's code and no bytes.
pub open spec fn filled_report(written: Result<Seq<u8>, quiche::Error>, f: Filled) -> bool {
    match written {
        Ok(bytes) => f.code == bytes.len() as i32 && f.bytes@ == bytes,
        Err(e) => f.code == transport_code(e) && f.bytes@ == Seq::<u8>::empty(),
    }
}

/// The same for what an HTTP/3 call wrote.
pub open spec fn h3_filled_report(written: Result<Seq<u8>, quiche::h3::Error>, f: Filled) -> bool {
    match written {
        Ok(bytes) => f.code == bytes.len() as i32 && f.bytes@ == bytes,
        Err(e) => f.code == http3_code(e) && f.bytes@ == Seq::<u8>::empty(),
    }
}

/// The code for the next stream of a stream iterator: its identifier as a
/// Java `long`, or the code of `Done` when there is none left.
pub open spec fn next_stream_code(next: Option<u64>) -> i64 {
    match next {
        Some(id) => id as i64,
        None => transport_code(quiche::Error::Done) as i64,
    }
}

/// The code for a timeout given in nanoseconds: the nanoseconds as a Java
/// `long`, or `u64::MAX` as a Java `long` (that is, -1) when there is none.
pub open spec fn timeout_nanos_code(timeout_nanos: Option<u128>) -> i64 {
    match timeout_nanos {
        Some(n) => n as i64,
        None => u64::MAX as i64,
    }
}

/// The code for a timeout given in nanoseconds, reported in whole
/// milliseconds.
pub open spec fn timeout_millis_code(timeout_nanos: Option<u128>) -> i64 {
    match timeout_nanos {
        Some(n) => (n / 1_000_000) as i64,
        None => u64::MAX as i64,
    }
}

/// What Java receives from a call that filled a buffer.
pub struct Filled {
    /// The count of bytes, or the error's code.
    pub code: i32,
    /// The bytes to copy into the Java array, from its start.
    pub bytes: Vec<u8>,
}

/// Measurements of the connection's first path.
pub struct PathSample {
    pub rtt_nanos: u128,
    pub cwnd: usize,
    pub delivery_rate: u64,
}

/// The connection statistics in the Java types that receive them.
pub struct StatsReport {
    pub recv: i32,
    pub sent: i32,
    pub lost: i32,
    pub rtt_ms: i64,
    pub cwnd: i32,
    pub delivery_rate: i64,
}

/// A boolean as a Java `boolean`: 1 for true, 0 for false.
pub fn java_boolean(b: bool) -> (v: u8)
    ensures
        v == (if b {
            1u8
        } else {
            0u8
        }),
{
    if b {
        1
    } else {
        0
    }
}

/// Maps a count of bytes or an error to its code.
pub fn count_to_c(r: Result<usize, quiche::Error>) -> (c: i32)
    ensures
        c == count_code(r),
{
    match r {
        Ok(n) => n as i32,
        Err(e) => error_to_c(e),
    }
}

/// Maps a count of bytes or an error to its code, as a Java `long`.
pub fn count_to_c_long(r: Result<usize, quiche::Error>) -> (c: i64)
    ensures
        c == count_code_long(r),
{
    match r {
        Ok(n) => n as i64,
        Err(e) => error_to_c(e) as i64,
    }
}

/// Maps success or an error to its code.
pub fn status_to_c(r: Result<(), quiche::Error>) -> (c: i32)
    ensures
        c == status_code(r),
{
    match r {
        Ok(_) => 0,
        Err(e) => error_to_c(e),
    }
}

/// Maps an HTTP/3 count of bytes or error to its code.
pub fn h3_count_to_c(r: Result<usize, quiche::h3::Error>) -> (c: i32)
    ensures
        c == h3_count_code(r),
{
    match r {
        Ok(n) => n as i32,
        Err(e) => h3_error_code(e),
    }
}

/// Maps an HTTP/3 count of bytes or error to its code, as a Java `long`.
pub fn h3_count_to_c_long(r: Result<usize, quiche::h3::Error>) -> (c: i64)
    ensures
        c == h3_count_code_long(r),
{
    match r {
        Ok(n) => n as i64,
        Err(e) => h3_error_code(e) as i64,
    }
}

/// Maps an HTTP/3 stream identifier or error to its code.
pub fn h3_stream_to_c(r: Result<u64, quiche::h3::Error>) -> (c: i64)
    ensures
        c == h3_stream_code(r),
{
    match r {
        Ok(id) => id as i64,
        Err(e) => h3_error_code(e) as i64,
    }
}

/// Maps HTTP/3 success or error to its code.
pub fn h3_status_to_c(r: Result<(), quiche::h3::Error>) -> (c: i32)
    ensures
        c == h3_status_code(r),
{
    match r {
        Ok(_) => 0,
        Err(e) => h3_error_code(e),
    }
}

/// What Java receives after a transport call filled `buf` with the count of
/// bytes or the error in `r`.
pub fn filled_outcome(r: Result<usize, quiche::Error>, buf: Vec<u8>) -> (f: Filled)
    requires
        r matches Ok(n) ==> n <= buf.len(),
    ensures
        f.code == count_code(r),
        f.bytes@ == filled_bytes(r, buf@),
        filled_report(filled_result(r, buf@), f),
{
    let code = count_to_c(r);
    match r {
        Ok(n) => {
            let mut bytes = buf;
            bytes.truncate(n);
            Filled { code, bytes }
        },
        Err(_) => Filled { code, bytes: Vec::new() },
    }
}

/// What Java receives after an HTTP/3 call filled `buf` with the count of
/// bytes or the error in `r`.
pub fn h3_filled_outcome(r: Result<usize, quiche::h3::Error>, buf: Vec<u8>) -> (f: Filled)
    requires
        r matches Ok(n) ==> n <= buf.len(),
    ensures
        f.code == h3_count_code(r),
        f.bytes@ == filled_bytes(r, buf@),
        h3_filled_report(filled_result(r, buf@), f),
{
    let code = h3_count_to_c(r);
    match r {
        Ok(n) => {
            let mut bytes = buf;
            bytes.truncate(n);
            Filled { code, bytes }
        },
        Err(_) => Filled { code, bytes: Vec::new() },
    }
}

/// A buffer of `len` zero bytes for a quiche call to fill.
pub fn zeroed(len: usize) -> (buf: Vec<u8>)
    ensures
        buf@ == Seq::new(len as nat, |i: int| 0u8),
{
    let mut buf: Vec<u8> = Vec::with_capacity(len);
    let mut i: usize = 0;
    while i < len
        invariant
            i <= len,
            buf@ == Seq::new(i as nat, |k: int| 0u8),
        decreases len - i,
    {
        buf.push(0u8);
        i = i + 1;
    }
    buf
}

/// Maps the next stream of a stream iterator to its code.
pub fn next_stream_to_c(next: Option<u64>) -> (c: i64)
    ensures
        c == next_stream_code(next),
{
    match next {
        Some(id) => id as i64,
        None => error_to_c(quiche::Error::Done) as i64,
    }
}

/// Maps a timeout in nanoseconds to its code in nanoseconds.
pub fn timeout_nanos_to_c(timeout_nanos: Option<u128>) -> (c: i64)
    ensures
        c == timeout_nanos_code(timeout_nanos),
{
    match timeout_nanos {
        Some(n) => n as i64,
        None => u64::MAX as i64,
    }
}

/// Maps a timeout in nanoseconds to its code in whole milliseconds.
pub fn timeout_millis_to_c(timeout_nanos: Option<u128>) -> (c: i64)
    ensures
        c == timeout_millis_code(timeout_nanos),
{
    match timeout_nanos {
        Some(n) => (n / 1_000_000) as i64,
        None => u64::MAX as i64,
    }
}

/// The statistics in the Java types that receive them: the counts of
/// packets received, sent and lost, and, from the first path if there is
/// one, the round-trip time in whole milliseconds, the congestion window and
/// the delivery rate; zeros when there is no path.
pub open spec fn stats_report_of(recv: usize, sent: usize, lost: usize, path: Option<PathSample>) -> StatsReport {
    match path {
        Some(p) => StatsReport {
            recv: recv as i32,
            sent: sent as i32,
            lost: lost as i32,
            rtt_ms: (p.rtt_nanos / 1_000_000) as i64,
            cwnd: p.cwnd as i32,
            delivery_rate: p.delivery_rate as i64,
        },
        None => StatsReport {
            recv: recv as i32,
            sent: sent as i32,
            lost: lost as i32,
            rtt_ms: 0,
            cwnd: 0,
            delivery_rate: 0,
        },
    }
}

/// Reports the statistics as `stats_report_of` describes.
pub fn stats_report(recv: usize, sent: usize, lost: usize, path: Option<PathSample>) -> (report:
    StatsReport)
    ensures
        report == stats_report_of(recv, sent, lost, path),
{
    let (rtt_ms, cwnd, delivery_rate) = match path {
        Some(p) => ((p.rtt_nanos / 1_000_000) as i64, p.cwnd as i32, p.delivery_rate as i64),
        None => (0i64, 0i32, 0i64),
    };
    StatsReport {
        recv: recv as i32,
        sent: sent as i32,
        lost: lost as i32,
        rtt_ms,
        cwnd,
        delivery_rate,
    }
}

/// The direction of a stream shutdown: 0 shuts the reading side, any other
/// number the writing side.
pub fn shutdown_direction(direction: i32) -> (dir: quiche::Shutdown)
    ensures
        dir is Read <==> direction == 0,
        dir is Write <==> direction != 0,
{
    if direction == 0 {
        quiche::Shutdown::Read
    } else {
        quiche::Shutdown::Write
    }
}

/// The outcome of a stream shutdown: `Done`, meaning there was nothing left
/// to shut, counts as success; any other error is handed on.
pub fn shutdown_outcome(r: Result<(), quiche::Error>) -> (out: Result<(), quiche::Error>)
    ensures
        out is Ok <==> (r is Ok || r == Err::<(), quiche::Error>(quiche::Error::Done)),
        out is Err ==> out == r,
{
    match r {
        Ok(()) => Ok(()),
        Err(quiche::Error::Done) => Ok(()),
        Err(e) => Err(e),
    }
}

/// Success and failure give codes of different signs: a count that fits a
/// Java `int` is reported as itself, so non-negative, and every error as a
/// negative number.
pub proof fn lemma_count_codes_tell_success_from_failure(
    r: Result<usize, quiche::Error>,
    done: Result<(), quiche::Error>,
)
    ensures
        r matches Ok(n) ==> n <= i32::MAX ==> count_code(r) == n && count_code(r) >= 0,
        r is Err ==> count_code(r) < 0,
        r matches Ok(n) ==> n <= i64::MAX ==> count_code_long(r) == n,
        r is Err ==> count_code_long(r) < 0,
        done is Ok ==> status_code(done) == 0,
        done is Err ==> status_code(done) < 0,
{
}

/// The same separation of success from failure holds of the HTTP/3 codes.
pub proof fn lemma_h3_codes_tell_success_from_failure(
    counted: Result<usize, quiche::h3::Error>,
    opened: Result<u64, quiche::h3::Error>,
    done: Result<(), quiche::h3::Error>,
)
    ensures
        counted matches Ok(n) ==> n <= i32::MAX ==> h3_count_code(counted) == n,
        counted is Err ==> h3_count_code(counted) < 0,
        counted matches Ok(n) ==> n <= i64::MAX ==> h3_count_code_long(counted) == n,
        counted is Err ==> h3_count_code_long(counted) < 0,
        opened matches Ok(id) ==> id <= i64::MAX ==> h3_stream_code(opened) == id,
        opened is Err ==> h3_stream_code(opened) < 0,
        done is Ok ==> h3_status_code(done) == 0,
        done is Err ==> h3_status_code(done) < 0,
{
}

/// A stream identifier that fits a Java `long` is reported as itself; the
/// end of the iteration is reported as -1, the code of `Done`.
pub proof fn lemma_next_stream_codes(next: Option<u64>)
    ensures
        next matches Some(id) ==> id <= i64::MAX ==> next_stream_code(next) == id,
        next is None ==> next_stream_code(next) == -1,
{
    assert(u64::MAX as i64 == -1) by (bit_vector);
}

/// The timeout in milliseconds is the timeout in nanoseconds divided by a
/// million, rounded down; no timeout is reported as -1 in both units.
pub proof fn lemma_timeout_units_agree(timeout_nanos: Option<u128>)
    ensures
        timeout_millis_code(timeout_nanos) == timeout_nanos_code(
            match timeout_nanos {
                Some(n) => Some(n / 1_000_000),
                None => None,
            },
        ),
        timeout_nanos is None ==> timeout_nanos_code(timeout_nanos) == -1,
{
    assert(u64::MAX as i64 == -1) by (bit_vector);
}

} // verus!
