//! Transport configuration: creating a quiche `Config` and setting its
//! parameters from the values Java hands over.

use vstd::prelude::*;
use crate::outcome::{status_code, status_to_c};
use crate::packet::supported_version;

verus! {

#[verifier::external_type_specification]
#[verifier::external_body]
pub struct ExConfig(quiche::Config);

/// A quiche configuration with the record of what has been set on it
/// through this library. Loading certificates and keys does not change the
/// settings recorded.
pub struct QuicConfig {
    pub(crate) inner: quiche::Config,
    settings: Ghost<ConfigSettings>,
    created: Ghost<Seq<Result<(), quiche::Error>>>,
    protos_set: Ghost<Option<Result<(), quiche::Error>>>,
    loaded: Ghost<Option<Result<(), quiche::Error>>>,
}

/// The settings in effect on a configuration through what was handed to
/// quiche since it was created; `None` (or `false`) where quiche's default
/// stands. Values that quiche bounds are recorded as bounded.
pub struct ConfigSettings {
    pub version: u32,
    pub verify_peer: Option<bool>,
    pub grease: Option<bool>,
    pub log_keys: bool,
    pub early_data: bool,
    pub application_protos: Option<Seq<u8>>,
    pub max_idle_timeout: Option<u64>,
    pub max_send_udp_payload_size: Option<usize>,
    pub initial_max_data: Option<u64>,
    pub initial_max_stream_data_bidi_local: Option<u64>,
    pub initial_max_stream_data_bidi_remote: Option<u64>,
    pub initial_max_stream_data_uni: Option<u64>,
    pub initial_max_streams_bidi: Option<u64>,
    pub initial_max_streams_uni: Option<u64>,
    pub ack_delay_exponent: Option<u64>,
    pub max_ack_delay: Option<u64>,
    pub disable_active_migration: Option<bool>,
    pub cc_algorithm: Option<Seq<char>>,
    pub hystart: Option<bool>,
}

impl View for QuicConfig {
    type V = ConfigSettings;

    closed spec fn view(&self) -> ConfigSettings {
        self.settings@
    }
}

impl QuicConfig {
    /// The outcomes of the connections created from this configuration, in
    /// order: success, or quiche's error.
    pub closed spec fn creations(&self) -> Seq<Result<(), quiche::Error>> {
        self.created@
    }

    /// What the TLS library answered when the application protocols were
    /// last set; none before they were set.
    pub closed spec fn protos_outcome(&self) -> Option<Result<(), quiche::Error>> {
        self.protos_set@
    }

    /// What the TLS library answered to the last load of a certificate
    /// chain, a key or trusted certificates; none before any load.
    pub closed spec fn load_outcome(&self) -> Option<Result<(), quiche::Error>> {
        self.loaded@
    }
}

/// The record of a configuration just created for `version`: nothing set.
pub open spec fn initial_settings(version: u32) -> ConfigSettings {
    ConfigSettings {
        version,
        verify_peer: None,
        grease: None,
        log_keys: false,
        early_data: false,
        application_protos: None,
        max_idle_timeout: None,
        max_send_udp_payload_size: None,
        initial_max_data: None,
        initial_max_stream_data_bidi_local: None,
        initial_max_stream_data_bidi_remote: None,
        initial_max_stream_data_uni: None,
        initial_max_streams_bidi: None,
        initial_max_streams_uni: None,
        ack_delay_exponent: None,
        max_ack_delay: None,
        disable_active_migration: None,
        cc_algorithm: None,
        hystart: None,
    }
}

/// The largest value of a QUIC variable-length integer, 2^62 - 1.
pub open spec fn max_varint() -> u64 {
    0x3fff_ffff_ffff_ffff
}

/// A transport parameter as quiche keeps it: bounded by the largest
/// variable-length integer.
pub open spec fn varint_clamp(v: u64) -> u64 {
    if v > max_varint() {
        max_varint()
    } else {
        v
    }
}

/// The ACK delay exponent as quiche keeps it: at most 20.
pub open spec fn ack_delay_exponent_clamp(v: u64) -> u64 {
    if v > 20 {
        20
    } else {
        v
    }
}

/// The largest UDP payload to send as quiche keeps it: at least 1200 bytes.
pub open spec fn payload_size_floor(v: usize) -> usize {
    if v < 1200 {
        1200
    } else {
        v
    }
}

/// The names of the congestion control algorithms that quiche knows.
pub open spec fn known_cc_algorithm(name: Seq<char>) -> bool {
    ||| name == "reno"@
    ||| name == "cubic"@
    ||| name == "bbr"@
    ||| name == "bbr2"@
    ||| name == "bbr2_gcongestion"@
}

/// Versions that quiche reserves for exercising version negotiation: those
/// whose bits all lie within `0xfafafafa`.
pub open spec fn reserved_version(version: u32) -> bool {
    version & 0xfafafafa == version
}

/// `quiche::Config::new`: creates the TLS context first, failing with
/// `TlsFail` when the TLS library cannot, and then refuses with
/// `UnknownVersion` a version that is neither supported nor reserved.
/// Whether the TLS library can create the context is not stated.
#[verifier::external_body]
fn quiche_config_new(version: u32) -> (r: Result<QuicConfig, quiche::Error>)
    ensures
        r is Ok ==> r->Ok_0@ == initial_settings(version),
        r is Ok ==> r->Ok_0.creations().len() == 0,
        r is Ok ==> supported_version(version) || reserved_version(version),
        !(supported_version(version) || reserved_version(version)) ==> r is Err,
        r is Err ==> r->Err_0 == quiche::Error::TlsFail || (r->Err_0
            == quiche::Error::UnknownVersion && !(supported_version(version) || reserved_version(
            version,
        ))),
{
    quiche::Config::new(version).map(|inner| QuicConfig { inner, settings: Ghost(initial_settings(version)), created: Ghost(Seq::empty()), protos_set: Ghost(None), loaded: Ghost(None) })
}

/// `quiche::Config::verify_peer`.
#[verifier::external_body]
fn quiche_config_verify_peer(config: &mut QuicConfig, verify: bool)
    ensures
        final(config)@ == (ConfigSettings { verify_peer: Some(verify), ..old(config)@ }),
{
    config.inner.verify_peer(verify)
}

/// `quiche::Config::grease`.
#[verifier::external_body]
fn quiche_config_grease(config: &mut QuicConfig, grease: bool)
    ensures
        final(config)@ == (ConfigSettings { grease: Some(grease), ..old(config)@ }),
{
    config.inner.grease(grease)
}

/// `quiche::Config::log_keys`.
#[verifier::external_body]
fn quiche_config_log_keys(config: &mut QuicConfig)
    ensures
        final(config)@ == (ConfigSettings { log_keys: true, ..old(config)@ }),
{
    config.inner.log_keys()
}

/// `quiche::Config::enable_early_data`.
#[verifier::external_body]
fn quiche_config_enable_early_data(config: &mut QuicConfig)
    ensures
        final(config)@ == (ConfigSettings { early_data: true, ..old(config)@ }),
{
    config.inner.enable_early_data()
}

/// `quiche::Config::set_application_protos_wire_format`: the only error is
/// `TlsFail`, when the TLS library refuses the protocol list. When it does is
/// not stated.
#[verifier::external_body]
fn quiche_config_set_application_protos_wire_format(
    config: &mut QuicConfig,
    protos: &[u8],
) -> (r: Result<(), quiche::Error>)
    ensures
        r is Err ==> r->Err_0 == quiche::Error::TlsFail,
        final(config)@ == (ConfigSettings { application_protos: Some(protos@), ..old(config)@ }),
        final(config).protos_outcome() == Some(r),
{
    config.inner.set_application_protos_wire_format(protos)
}

/// `quiche::Config::set_max_idle_timeout`: the value is kept bounded by the largest variable-length integer.
#[verifier::external_body]
fn quiche_config_set_max_idle_timeout(config: &mut QuicConfig, v: u64)
    ensures
        final(config)@ == (ConfigSettings { max_idle_timeout: Some(varint_clamp(v)), ..old(config)@ }),
{
    config.inner.set_max_idle_timeout(v)
}

/// `quiche::Config::set_max_send_udp_payload_size`: the value is kept raised to at least 1200.
#[verifier::external_body]
fn quiche_config_set_max_send_udp_payload_size(config: &mut QuicConfig, v: usize)
    ensures
        final(config)@ == (ConfigSettings { max_send_udp_payload_size: Some(payload_size_floor(v)), ..old(config)@ }),
{
    config.inner.set_max_send_udp_payload_size(v)
}

/// `quiche::Config::set_initial_max_data`: the value is kept bounded by the largest variable-length integer.
#[verifier::external_body]
fn quiche_config_set_initial_max_data(config: &mut QuicConfig, v: u64)
    ensures
        final(config)@ == (ConfigSettings { initial_max_data: Some(varint_clamp(v)), ..old(config)@ }),
{
    config.inner.set_initial_max_data(v)
}

/// `quiche::Config::set_initial_max_stream_data_bidi_local`: the value is kept bounded by the largest variable-length integer.
#[verifier::external_body]
fn quiche_config_set_initial_max_stream_data_bidi_local(config: &mut QuicConfig, v: u64)
    ensures
        final(config)@ == (ConfigSettings { initial_max_stream_data_bidi_local: Some(varint_clamp(v)), ..old(config)@ }),
{
    config.inner.set_initial_max_stream_data_bidi_local(v)
}

/// `quiche::Config::set_initial_max_stream_data_bidi_remote`: the value is kept bounded by the largest variable-length integer.
#[verifier::external_body]
fn quiche_config_set_initial_max_stream_data_bidi_remote(config: &mut QuicConfig, v: u64)
    ensures
        final(config)@ == (ConfigSettings { initial_max_stream_data_bidi_remote: Some(varint_clamp(v)), ..old(config)@ }),
{
    config.inner.set_initial_max_stream_data_bidi_remote(v)
}

/// `quiche::Config::set_initial_max_stream_data_uni`: the value is kept bounded by the largest variable-length integer.
#[verifier::external_body]
fn quiche_config_set_initial_max_stream_data_uni(config: &mut QuicConfig, v: u64)
    ensures
        final(config)@ == (ConfigSettings { initial_max_stream_data_uni: Some(varint_clamp(v)), ..old(config)@ }),
{
    config.inner.set_initial_max_stream_data_uni(v)
}

/// `quiche::Config::set_initial_max_streams_bidi`: the value is kept bounded by the largest variable-length integer.
#[verifier::external_body]
fn quiche_config_set_initial_max_streams_bidi(config: &mut QuicConfig, v: u64)
    ensures
        final(config)@ == (ConfigSettings { initial_max_streams_bidi: Some(varint_clamp(v)), ..old(config)@ }),
{
    config.inner.set_initial_max_streams_bidi(v)
}

/// `quiche::Config::set_initial_max_streams_uni`: the value is kept bounded by the largest variable-length integer.
#[verifier::external_body]
fn quiche_config_set_initial_max_streams_uni(config: &mut QuicConfig, v: u64)
    ensures
        final(config)@ == (ConfigSettings { initial_max_streams_uni: Some(varint_clamp(v)), ..old(config)@ }),
{
    config.inner.set_initial_max_streams_uni(v)
}

/// `quiche::Config::set_ack_delay_exponent`: the value is kept bounded by 20.
#[verifier::external_body]
fn quiche_config_set_ack_delay_exponent(config: &mut QuicConfig, v: u64)
    ensures
        final(config)@ == (ConfigSettings { ack_delay_exponent: Some(ack_delay_exponent_clamp(v)), ..old(config)@ }),
{
    config.inner.set_ack_delay_exponent(v)
}

/// `quiche::Config::set_max_ack_delay`: the value is kept bounded by the largest variable-length integer.
#[verifier::external_body]
fn quiche_config_set_max_ack_delay(config: &mut QuicConfig, v: u64)
    ensures
        final(config)@ == (ConfigSettings { max_ack_delay: Some(varint_clamp(v)), ..old(config)@ }),
{
    config.inner.set_max_ack_delay(v)
}

/// `quiche::Config::set_disable_active_migration`.
#[verifier::external_body]
fn quiche_config_set_disable_active_migration(config: &mut QuicConfig, v: bool)
    ensures
        final(config)@ == (ConfigSettings { disable_active_migration: Some(v), ..old(config)@ }),
{
    config.inner.set_disable_active_migration(v)
}

/// `quiche::Config::set_cc_algorithm_name`: succeeds exactly for the names
/// that quiche knows, and fails with `CongestionControl` for any other.
#[verifier::external_body]
fn quiche_config_set_cc_algorithm_name(config: &mut QuicConfig, name: &str) -> (r: Result<
    (),
    quiche::Error,
>)
    ensures
        r is Ok <==> known_cc_algorithm(name@),
        r is Err ==> r->Err_0 == quiche::Error::CongestionControl,
        r is Ok ==> final(config)@ == (ConfigSettings { cc_algorithm: Some(name@), ..old(config)@ }),
        r is Err ==> final(config)@ == old(config)@,
{
    config.inner.set_cc_algorithm_name(name)
}

/// `quiche::Config::enable_hystart`.
#[verifier::external_body]
fn quiche_config_enable_hystart(config: &mut QuicConfig, v: bool)
    ensures
        final(config)@ == (ConfigSettings { hystart: Some(v), ..old(config)@ }),
{
    config.inner.enable_hystart(v)
}

/// `quiche::Config::load_cert_chain_from_pem_file`: the TLS library reads
/// the certificate chain from the file. The recorded settings do not
/// change. Whether the file can be read and parsed is not stated.
#[verifier::external_body]
fn quiche_config_load_cert_chain_from_pem_file(config: &mut QuicConfig, path: &str) -> (r: Result<
    (),
    quiche::Error,
>)
    ensures
        final(config)@ == old(config)@,
        final(config).load_outcome() == Some(r),
{
    config.inner.load_cert_chain_from_pem_file(path)
}

/// `quiche::Config::load_priv_key_from_pem_file`: as for the certificate
/// chain, with the private key.
#[verifier::external_body]
fn quiche_config_load_priv_key_from_pem_file(config: &mut QuicConfig, path: &str) -> (r: Result<
    (),
    quiche::Error,
>)
    ensures
        final(config)@ == old(config)@,
        final(config).load_outcome() == Some(r),
{
    config.inner.load_priv_key_from_pem_file(path)
}

/// `quiche::Config::load_verify_locations_from_file`: the TLS library reads
/// trusted certificates from the file. The recorded settings do not change.
#[verifier::external_body]
fn quiche_config_load_verify_locations_from_file(config: &mut QuicConfig, path: &str) -> (r:
    Result<(), quiche::Error>)
    ensures
        final(config)@ == old(config)@,
        final(config).load_outcome() == Some(r),
{
    config.inner.load_verify_locations_from_file(path)
}

/// `quiche::Config::load_verify_locations_from_directory`: as for the file,
/// from the certificates in a directory.
#[verifier::external_body]
fn quiche_config_load_verify_locations_from_directory(config: &mut QuicConfig, path: &str) -> (r:
    Result<(), quiche::Error>)
    ensures
        final(config)@ == old(config)@,
        final(config).load_outcome() == Some(r),
{
    config.inner.load_verify_locations_from_directory(path)
}

/// Creates a configuration for the QUIC version given as a Java `int`. A
/// version that is neither supported nor reserved is refused; otherwise only
/// a failure of the TLS library (`TlsFail`) can stop it.
pub fn config_new(version: i32) -> (r: Result<QuicConfig, quiche::Error>)
    ensures
        r is Ok ==> r->Ok_0@ == initial_settings(version as u32),
        r is Ok ==> r->Ok_0.creations().len() == 0,
        r is Ok ==> supported_version(version as u32) || reserved_version(version as u32),
        !(supported_version(version as u32) || reserved_version(version as u32)) ==> r is Err,
        r is Err ==> r->Err_0 == quiche::Error::TlsFail || (r->Err_0
            == quiche::Error::UnknownVersion && !(supported_version(version as u32)
            || reserved_version(version as u32))),
{
    quiche_config_new(version as u32)
}

/// Turns checking of the peer's certificate on (any non-zero Java boolean)
/// or off.
pub fn config_verify_peer(config: &mut QuicConfig, v: u8)
    ensures
        final(config)@ == (ConfigSettings { verify_peer: Some(v != 0), ..old(config)@ }),
{
    quiche_config_verify_peer(config, v != 0)
}

/// Turns greasing on (any non-zero Java boolean) or off.
pub fn config_grease(config: &mut QuicConfig, v: u8)
    ensures
        final(config)@ == (ConfigSettings { grease: Some(v != 0), ..old(config)@ }),
{
    quiche_config_grease(config, v != 0)
}

/// Turns logging of TLS secrets on.
pub fn config_log_keys(config: &mut QuicConfig)
    ensures
        final(config)@ == (ConfigSettings { log_keys: true, ..old(config)@ }),
{
    quiche_config_log_keys(config)
}

/// Turns sending and receiving of early data on.
pub fn config_enable_early_data(config: &mut QuicConfig)
    ensures
        final(config)@ == (ConfigSettings { early_data: true, ..old(config)@ }),
{
    quiche_config_enable_early_data(config)
}

/// Sets the application protocols from their wire format (each name
/// preceded by its length in one byte). The code is 0, or -10 (the code of
/// `TlsFail`) when the TLS library refuses the list.
pub fn config_set_application_protos(config: &mut QuicConfig, protos: &[u8]) -> (c: i32)
    ensures
        c == 0 || c == -10,
        final(config)@ == (ConfigSettings { application_protos: Some(protos@), ..old(config)@ }),
        final(config).protos_outcome() is Some,
        c == status_code(final(config).protos_outcome()->0),
{
    let r = quiche_config_set_application_protos_wire_format(config, protos);
    status_to_c(r)
}

/// Sets the idle timeout in milliseconds; the Java `long` is taken as an
/// unsigned 64-bit number.
pub fn config_set_max_idle_timeout(config: &mut QuicConfig, v: i64)
    ensures
        final(config)@ == (ConfigSettings { max_idle_timeout: Some(varint_clamp(v as u64)), ..old(config)@ }),
{
    quiche_config_set_max_idle_timeout(config, v as u64)
}

/// Sets the largest UDP payload that quiche sends.
pub fn config_set_max_udp_payload_size(config: &mut QuicConfig, v: i64)
    ensures
        final(config)@ == (ConfigSettings { max_send_udp_payload_size: Some(payload_size_floor(v as usize)), ..old(config)@ }),
{
    quiche_config_set_max_send_udp_payload_size(config, v as usize)
}

/// Sets the initial connection-wide flow control limit.
pub fn config_set_initial_max_data(config: &mut QuicConfig, v: i64)
    ensures
        final(config)@ == (ConfigSettings { initial_max_data: Some(varint_clamp(v as u64)), ..old(config)@ }),
{
    quiche_config_set_initial_max_data(config, v as u64)
}

/// Sets the initial flow control limit of locally opened bidirectional
/// streams.
pub fn config_set_initial_max_stream_data_bidi_local(config: &mut QuicConfig, v: i64)
    ensures
        final(config)@ == (ConfigSettings { initial_max_stream_data_bidi_local: Some(varint_clamp(v as u64)), ..old(config)@ }),
{
    quiche_config_set_initial_max_stream_data_bidi_local(config, v as u64)
}

/// Sets the initial flow control limit of remotely opened bidirectional
/// streams.
pub fn config_set_initial_max_stream_data_bidi_remote(config: &mut QuicConfig, v: i64)
    ensures
        final(config)@ == (ConfigSettings { initial_max_stream_data_bidi_remote: Some(varint_clamp(v as u64)), ..old(config)@ }),
{
    quiche_config_set_initial_max_stream_data_bidi_remote(config, v as u64)
}

/// Sets the initial flow control limit of unidirectional streams.
pub fn config_set_initial_max_stream_data_uni(config: &mut QuicConfig, v: i64)
    ensures
        final(config)@ == (ConfigSettings { initial_max_stream_data_uni: Some(varint_clamp(v as u64)), ..old(config)@ }),
{
    quiche_config_set_initial_max_stream_data_uni(config, v as u64)
}

/// Sets how many bidirectional streams the peer may open at first.
pub fn config_set_initial_max_streams_bidi(config: &mut QuicConfig, v: i64)
    ensures
        final(config)@ == (ConfigSettings { initial_max_streams_bidi: Some(varint_clamp(v as u64)), ..old(config)@ }),
{
    quiche_config_set_initial_max_streams_bidi(config, v as u64)
}

/// Sets how many unidirectional streams the peer may open at first.
pub fn config_set_initial_max_streams_uni(config: &mut QuicConfig, v: i64)
    ensures
        final(config)@ == (ConfigSettings { initial_max_streams_uni: Some(varint_clamp(v as u64)), ..old(config)@ }),
{
    quiche_config_set_initial_max_streams_uni(config, v as u64)
}

/// Sets the ACK delay exponent.
pub fn config_set_ack_delay_exponent(config: &mut QuicConfig, v: i64)
    ensures
        final(config)@ == (ConfigSettings { ack_delay_exponent: Some(ack_delay_exponent_clamp(v as u64)), ..old(config)@ }),
{
    quiche_config_set_ack_delay_exponent(config, v as u64)
}

/// Sets the largest ACK delay, in milliseconds.
pub fn config_set_max_ack_delay(config: &mut QuicConfig, v: i64)
    ensures
        final(config)@ == (ConfigSettings { max_ack_delay: Some(varint_clamp(v as u64)), ..old(config)@ }),
{
    quiche_config_set_max_ack_delay(config, v as u64)
}

/// Turns active connection migration off (any non-zero Java boolean) or on.
pub fn config_set_disable_active_migration(config: &mut QuicConfig, v: u8)
    ensures
        final(config)@ == (ConfigSettings { disable_active_migration: Some(v != 0), ..old(config)@ }),
{
    quiche_config_set_disable_active_migration(config, v != 0)
}

/// Chooses the congestion control algorithm by name. The code is 0 for a
/// name that quiche knows and -14, the code of `CongestionControl`, for any
/// other.
pub fn config_set_cc_algorithm_name(config: &mut QuicConfig, name: &str) -> (c: i32)
    ensures
        known_cc_algorithm(name@) ==> c == 0,
        !known_cc_algorithm(name@) ==> c == -14,
        known_cc_algorithm(name@) ==> final(config)@ == (ConfigSettings {
            cc_algorithm: Some(name@),
            ..old(config)@
        }),
        !known_cc_algorithm(name@) ==> final(config)@ == old(config)@,
{
    let r = quiche_config_set_cc_algorithm_name(config, name);
    status_to_c(r)
}

/// Turns HyStart++ on (any non-zero Java boolean) or off.
pub fn config_enable_hystart(config: &mut QuicConfig, v: u8)
    ensures
        final(config)@ == (ConfigSettings { hystart: Some(v != 0), ..old(config)@ }),
{
    quiche_config_enable_hystart(config, v != 0)
}

/// Loads the certificate chain from a PEM file; the settings are
/// unchanged.
pub fn config_load_cert_chain_from_pem_file(config: &mut QuicConfig, path: &str) -> (r: Result<
    (),
    quiche::Error,
>)
    ensures
        final(config)@ == old(config)@,
        final(config).load_outcome() == Some(r),
{
    quiche_config_load_cert_chain_from_pem_file(config, path)
}

/// Loads the private key from a PEM file; the settings are unchanged.
pub fn config_load_priv_key_from_pem_file(config: &mut QuicConfig, path: &str) -> (r: Result<
    (),
    quiche::Error,
>)
    ensures
        final(config)@ == old(config)@,
        final(config).load_outcome() == Some(r),
{
    quiche_config_load_priv_key_from_pem_file(config, path)
}

/// Loads trusted certificates from a PEM file. The code is 0 when it
/// worked and -1 whatever the error; the settings are unchanged.
pub fn config_load_verify_locations_from_file(config: &mut QuicConfig, path: &str) -> (c: i32)
    ensures
        c == 0 || c == -1,
        final(config)@ == old(config)@,
        final(config).load_outcome() is Some,
        c == 0 <==> final(config).load_outcome()->0 is Ok,
{
    let r = quiche_config_load_verify_locations_from_file(config, path);
    load_status(r)
}

/// Loads trusted certificates from the PEM files of a directory. The code
/// is 0 when it worked and -1 whatever the error; the settings are
/// unchanged.
pub fn config_load_verify_locations_from_directory(config: &mut QuicConfig, path: &str) -> (c: i32)
    ensures
        c == 0 || c == -1,
        final(config)@ == old(config)@,
        final(config).load_outcome() is Some,
        c == 0 <==> final(config).load_outcome()->0 is Ok,
{
    let r = quiche_config_load_verify_locations_from_directory(config, path);
    load_status(r)
}

/// The code for loading trusted certificates from a file or a directory: 0
/// when it worked, -1 whatever the error.
pub fn load_status(r: Result<(), quiche::Error>) -> (c: i32)
    ensures
        r is Ok ==> c == 0,
        r is Err ==> c == -1,
{
    match r {
        Ok(_) => 0,
        Err(_) => -1,
    }
}

} // verus!
