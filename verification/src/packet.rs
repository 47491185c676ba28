//! Stateless packet handling: version negotiation, retry, header parsing and
//! the supported version.

use vstd::prelude::*;
use crate::codes::{packet_type_code, packet_type_number, transport_code};
use crate::outcome::{filled_outcome, zeroed, Filled};

verus! {

/// The QUIC version that quiche supports, version 1.
pub open spec fn supported_version(version: u32) -> bool {
    version == 1
}

/// A version negotiation packet after its first byte: a zero version, the
/// length and bytes of `scid`, the length and bytes of `dcid`, and the one
/// version offered, 1. Lengths are written as single bytes.
pub open spec fn version_negotiation_body(scid: Seq<u8>, dcid: Seq<u8>) -> Seq<u8> {
    seq![0u8, 0u8, 0u8, 0u8] + seq![scid.len() as u8] + scid + seq![dcid.len() as u8] + dcid
        + seq![0u8, 0u8, 0u8, 1u8]
}

/// The length of a version negotiation packet.
pub open spec fn version_negotiation_len(scid: Seq<u8>, dcid: Seq<u8>) -> int {
    11 + scid.len() + dcid.len() as int
}

/// The header of a version 1 retry packet, the packet up to its integrity
/// tag: the first byte `0xf0` (long header, fixed bit, type Retry), the
/// version, the length and bytes of the client's `scid` (the packet's
/// destination), the length and bytes of `new_scid` (its source), and the
/// token. Lengths are written as single bytes.
pub open spec fn retry_header(scid: Seq<u8>, new_scid: Seq<u8>, token: Seq<u8>) -> Seq<u8> {
    seq![0xf0u8, 0u8, 0u8, 0u8, 1u8] + seq![scid.len() as u8] + scid + seq![new_scid.len() as u8]
        + new_scid + token
}

/// The length of a retry header.
pub open spec fn retry_header_len(scid: Seq<u8>, new_scid: Seq<u8>, token: Seq<u8>) -> int {
    7 + scid.len() + new_scid.len() + token.len() as int
}

/// The 16-byte integrity tag that quiche computes with AES-128-GCM over the
/// client's original destination identifier `odcid` and a retry header,
/// with the fixed key and nonce of version 1.
pub uninterp spec fn retry_integrity_tag(odcid: Seq<u8>, header: Seq<u8>) -> Seq<u8>;

/// The outcome of writing a retry packet into a buffer of `out_len` bytes:
/// the packet, or the error. The steps are those of quiche: the version is
/// checked, the header written, the tag computed and written.
pub open spec fn retry_outcome(
    scid: Seq<u8>,
    dcid: Seq<u8>,
    new_scid: Seq<u8>,
    token: Seq<u8>,
    version: u32,
    out_len: int,
) -> Result<Seq<u8>, quiche::Error> {
    let header = retry_header(scid, new_scid, token);
    if !supported_version(version) {
        Err(quiche::Error::UnknownVersion)
    } else if out_len < header.len() {
        Err(quiche::Error::BufferTooShort)
    } else {
        if out_len < header.len() + 16 {
            Err(quiche::Error::BufferTooShort)
        } else {
            Ok(header + retry_integrity_tag(dcid, header))
        }
    }
}

/// What Java receives for a retry outcome: the packet's length and bytes,
/// or the error's code and no bytes.
pub open spec fn retry_filled(outcome: Result<Seq<u8>, quiche::Error>, f: Filled) -> bool {
    match outcome {
        Ok(packet) => f.code == packet.len() as i32 && f.bytes@ == packet,
        Err(e) => f.code == transport_code(e) && f.bytes@ == Seq::<u8>::empty(),
    }
}

/// A parsed packet header, as plain values.
pub struct PacketHeader {
    pub ty: quiche::Type,
    pub version: u32,
    pub dcid: Vec<u8>,
    pub scid: Vec<u8>,
    pub token: Option<Vec<u8>>,
    pub versions: Option<Vec<u32>>,
}

/// The mathematical value of a parsed packet header.
pub struct PacketHeaderView {
    pub ty: quiche::Type,
    pub version: u32,
    pub dcid: Seq<u8>,
    pub scid: Seq<u8>,
    pub token: Option<Seq<u8>>,
    pub versions: Option<Seq<u32>>,
}

impl View for PacketHeader {
    type V = PacketHeaderView;

    open spec fn view(&self) -> PacketHeaderView {
        PacketHeaderView {
            ty: self.ty,
            version: self.version,
            dcid: self.dcid@,
            scid: self.scid@,
            token: match self.token {
                Some(t) => Some(t@),
                None => None,
            },
            versions: match self.versions {
                Some(v) => Some(v@),
                None => None,
            },
        }
    }
}

/// The view of a header parse: the header's view, or the error.
pub open spec fn header_result_view(r: Result<PacketHeader, quiche::Error>) -> Result<
    PacketHeaderView,
    quiche::Error,
> {
    match r {
        Ok(h) => Ok(h@),
        Err(e) => Err(e),
    }
}

/// What quiche's header parser makes of `buf` when destination connection
/// identifiers of short packets are `dcid_len` bytes long.
pub uninterp spec fn parsed_header(buf: Seq<u8>, dcid_len: usize) -> Result<
    PacketHeaderView,
    quiche::Error,
>;

/// The header fields in the Java types that receive them.
pub struct HeaderFields {
    /// The packet type's number: 1 Initial, 2 Retry, 3 Handshake, 4 0-RTT,
    /// 5 Short, 6 Version Negotiation.
    pub packet_type: i32,
    pub version: i32,
    pub dcid: Vec<u8>,
    pub scid: Vec<u8>,
    pub token: Option<Vec<u8>>,
    pub versions: Option<Vec<u32>>,
}

/// The fields of a header view as Java receives them.
pub open spec fn fields_match(f: HeaderFields, h: PacketHeaderView) -> bool {
    &&& f.packet_type == packet_type_number(h.ty)
    &&& f.version == h.version as i32
    &&& f.dcid@ == h.dcid
    &&& f.scid@ == h.scid
    &&& match (f.token, h.token) {
        (Some(a), Some(b)) => a@ == b,
        (None, None) => true,
        _ => false,
    }
    &&& match (f.versions, h.versions) {
        (Some(a), Some(b)) => a@ == b,
        (None, None) => true,
        _ => false,
    }
}

/// `quiche::version_is_supported`: true exactly for version 1, the only
/// version that quiche 0.30 speaks.
#[verifier::external_body]
fn quiche_version_is_supported(version: u32) -> (supported: bool)
    ensures
        supported == supported_version(version),
{
    quiche::version_is_supported(version)
}

/// `quiche::negotiate_version`: writes a version negotiation packet into
/// `out`. Its first byte is random with the top bit set; the rest is the
/// body above. When `out` is too short, the error is `BufferTooShort` and
/// nothing is claimed of what was written.
#[verifier::external_body]
fn quiche_negotiate_version(
    scid: &[u8],
    dcid: &[u8],
    out: &mut Vec<u8>,
) -> (r: Result<usize, quiche::Error>)
    ensures
        final(out)@.len() == old(out)@.len(),
        version_negotiation_len(scid@, dcid@) <= old(out).len() ==> {
            &&& r is Ok && r->Ok_0 == version_negotiation_len(scid@, dcid@)
            &&& final(out)@[0] >= 0x80
            &&& final(out)@.subrange(1, version_negotiation_len(scid@, dcid@))
                == version_negotiation_body(scid@, dcid@)
        },
        version_negotiation_len(scid@, dcid@) > old(out).len() ==> r is Err && r->Err_0 == quiche::Error::BufferTooShort,
{
    let scid = quiche::ConnectionId::from_ref(scid);
    let dcid = quiche::ConnectionId::from_ref(dcid);
    quiche::negotiate_version(&scid, &dcid, out.as_mut_slice())
}

/// `quiche::retry`: writes a retry packet into `out`. An unsupported version
/// gives `UnknownVersion`; a buffer shorter than the header gives
/// `BufferTooShort`; a buffer with no room for the 16-byte tag after the
/// header gives `BufferTooShort`; otherwise the packet is the header and the
/// tag, and its length is returned. The tag is computed with a fixed,
/// well-formed AES-128-GCM key and nonce, so the cipher step does not fail;
/// the tag's bytes are named, not stated.
#[verifier::external_body]
fn quiche_retry(
    scid: &[u8],
    dcid: &[u8],
    new_scid: &[u8],
    token: &[u8],
    version: u32,
    out: &mut Vec<u8>,
) -> (r: Result<usize, quiche::Error>)
    ensures
        final(out)@.len() == old(out)@.len(),
        retry_outcome(scid@, dcid@, new_scid@, token@, version, old(out)@.len() as int) matches Ok(
            packet,
        ) ==> r is Ok && r->Ok_0 == packet.len() && final(out)@.subrange(0, packet.len() as int)
            == packet,
        retry_outcome(scid@, dcid@, new_scid@, token@, version, old(out)@.len() as int) matches Err(
            e,
        ) ==> r is Err && r->Err_0 == e,
        r is Ok ==> retry_integrity_tag(dcid@, retry_header(scid@, new_scid@, token@)).len() == 16,
{
    let scid = quiche::ConnectionId::from_ref(scid);
    let dcid = quiche::ConnectionId::from_ref(dcid);
    let new_scid = quiche::ConnectionId::from_ref(new_scid);
    quiche::retry(&scid, &dcid, &new_scid, token, version, out.as_mut_slice())
}

/// `quiche::Header::from_slice`: parses the header of the packet in `buf`
/// (a copy of it, since the parser takes a mutable buffer). The result is
/// `parsed_header` of the bytes and `dcid_len`; the connection identifiers
/// are copied out as bytes.
#[verifier::external_body]
fn quiche_header_from_slice(buf: &[u8], dcid_len: usize) -> (r: Result<
    PacketHeader,
    quiche::Error,
>)
    ensures
        header_result_view(r) == parsed_header(buf@, dcid_len),
{
    let mut copy = buf.to_vec();
    let hdr = quiche::Header::from_slice(&mut copy, dcid_len)?;
    let dcid = hdr.dcid.as_ref().to_vec();
    let scid = hdr.scid.as_ref().to_vec();
    Ok(PacketHeader { ty: hdr.ty, version: hdr.version, dcid, scid, token: hdr.token, versions: hdr.versions })
}

/// Whether quiche supports the QUIC version given as a Java `int`.
pub fn version_is_supported(version: i32) -> (supported: bool)
    ensures
        supported == supported_version(version as u32),
{
    quiche_version_is_supported(version as u32)
}

/// Writes a version negotiation packet into a buffer of `buf_len` bytes.
/// When the packet fits, the code is its length and the bytes are the packet;
/// otherwise the code is that of `BufferTooShort` and there are no bytes.
pub fn negotiate_version(scid: &[u8], dcid: &[u8], buf_len: usize) -> (f: Filled)
    ensures
        version_negotiation_len(scid@, dcid@) <= buf_len ==> {
            &&& f.code == version_negotiation_len(scid@, dcid@) as i32
            &&& f.bytes.len() == version_negotiation_len(scid@, dcid@)
            &&& f.bytes@[0] >= 0x80
            &&& f.bytes@.subrange(1, f.bytes.len() as int) == version_negotiation_body(
                scid@,
                dcid@,
            )
        },
        version_negotiation_len(scid@, dcid@) > buf_len ==> f.code == -2 && f.bytes.len() == 0,
{
    let mut buf = zeroed(buf_len);
    let r = quiche_negotiate_version(scid, dcid, &mut buf);
    let f = filled_outcome(r, buf);
    proof {
        if version_negotiation_len(scid@, dcid@) <= buf_len {
            let n = version_negotiation_len(scid@, dcid@);
            assert(f.bytes@.subrange(1, n) =~= buf@.subrange(1, n));
        }
    }
    f
}

/// Writes a retry packet into a buffer of `buf_len` bytes, for the version
/// given as a Java `int`, answering a client whose source identifier is
/// `scid` and whose original destination identifier is `dcid`. For version
/// 1 with room for the whole packet (`retry_header_len` plus the 16-byte
/// tag), the code is the packet's length and the bytes are the packet;
/// otherwise the code is that of the error (-3 for another version, -2 for a
/// short buffer) and there are no bytes.
pub fn retry(
    scid: &[u8],
    dcid: &[u8],
    new_scid: &[u8],
    token: &[u8],
    version: i32,
    buf_len: usize,
) -> (f: Filled)
    ensures
        retry_filled(
            retry_outcome(scid@, dcid@, new_scid@, token@, version as u32, buf_len as int),
            f,
        ),
        retry_outcome(scid@, dcid@, new_scid@, token@, version as u32, buf_len as int) is Ok
            ==> f.bytes.len() == retry_header_len(scid@, new_scid@, token@) + 16,
{
    let mut buf = zeroed(buf_len);
    let r = quiche_retry(scid, dcid, new_scid, token, version as u32, &mut buf);
    let f = filled_outcome(r, buf);
    proof {
        let outcome = retry_outcome(scid@, dcid@, new_scid@, token@, version as u32, buf_len as int);
        if let Ok(packet) = outcome {
            assert(f.bytes@ =~= packet);
        }
    }
    f
}

/// For version 1, a retry packet is written exactly when the buffer holds
/// the header and the 16-byte tag; any shorter buffer is refused with
/// `BufferTooShort`. A packet that is written starts with the retry header.
pub proof fn lemma_retry_packet_length(
    scid: Seq<u8>,
    dcid: Seq<u8>,
    new_scid: Seq<u8>,
    token: Seq<u8>,
    out_len: int,
)
    ensures
        out_len < retry_header_len(scid, new_scid, token) + 16 ==> retry_outcome(
            scid,
            dcid,
            new_scid,
            token,
            1,
            out_len,
        ) == Err::<Seq<u8>, quiche::Error>(quiche::Error::BufferTooShort),
        out_len >= retry_header_len(scid, new_scid, token) + 16 ==> retry_outcome(
            scid,
            dcid,
            new_scid,
            token,
            1,
            out_len,
        ) is Ok,
        retry_outcome(scid, dcid, new_scid, token, 1, out_len) matches Ok(packet)
            ==> packet.subrange(0, retry_header_len(scid, new_scid, token)) == retry_header(
            scid,
            new_scid,
            token,
        ),
{
    let header = retry_header(scid, new_scid, token);
    assert(header.len() == retry_header_len(scid, new_scid, token));
    if out_len >= header.len() + 16 {
        let tag = retry_integrity_tag(dcid, header);
        assert((header + tag).subrange(0, header.len() as int) =~= header);
    }
}

/// The header fields of a parsed header, in the Java types that receive
/// them.
pub fn header_fields(h: PacketHeader) -> (f: HeaderFields)
    ensures
        fields_match(f, h@),
{
    HeaderFields {
        packet_type: packet_type_code(h.ty),
        version: h.version as i32,
        dcid: h.dcid,
        scid: h.scid,
        token: h.token,
        versions: h.versions,
    }
}

/// Parses the header of the packet in `buf`, with `dcid_len` given as a Java
/// `int`, and reports its fields.
pub fn header_from_slice(buf: &[u8], dcid_len: i32) -> (r: Result<HeaderFields, quiche::Error>)
    ensures
        match parsed_header(buf@, dcid_len as usize) {
            Ok(h) => r is Ok && fields_match(r->Ok_0, h),
            Err(e) => r is Err && r->Err_0 == e,
        },
{
    match quiche_header_from_slice(buf, dcid_len as usize) {
        Ok(h) => Ok(header_fields(h)),
        Err(e) => Err(e),
    }
}

} // verus!
