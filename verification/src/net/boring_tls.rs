//! Handshake policy decisions: which Chrome version a connection imitates,
//! the ALPN protocols it offers and the per-connection settings it applies.

use vstd::prelude::*;
use crate::net::chrome_tls::{ChromeTlsProfile};

verus! {

/// ALPN advertisement policy: normal browsing negotiates h2 and HTTP/1.1,
/// WebSocket connections speak HTTP/1.1 only.
#[derive(Clone, Copy, PartialEq, Eq, Debug, Structural)]
pub enum AlpnMode {
    Browser,
    Http1Only,
}

/// The Chrome version a connection imitates: the configured one, or the
/// process-wide active version when none (0) is configured.
pub fn resolve_chrome_version(configured: u32, active: u32) -> (v: u32)
    ensures
        v == if configured != 0 { configured } else { active },
{
    if configured != 0 {
        configured
    } else {
        active
    }
}

/// The wire-format ALPN list for a mode: length-prefixed protocol names,
/// h2 first for browsing, HTTP/1.1 alone for WebSockets.
pub open spec fn spec_alpn_protos(mode: AlpnMode) -> Seq<u8> {
    let http11: Seq<u8> = seq![8u8, 104u8, 116u8, 116u8, 112u8, 47u8, 49u8, 46u8, 49u8];
    match mode {
        AlpnMode::Browser => seq![2u8, 104u8, 50u8] + http11,
        AlpnMode::Http1Only => http11,
    }
}

/// The ALPN protocol list offered in the ClientHello.
pub fn alpn_protos(mode: AlpnMode) -> (p: Vec<u8>)
    ensures
        p@ == spec_alpn_protos(mode),
{
    match mode {
        AlpnMode::Browser => {
            let p: Vec<u8> = vec![2u8, 104, 50, 8, 104, 116, 116, 112, 47, 49, 46, 49];
            assert(p@ =~= spec_alpn_protos(mode));
            p
        },
        AlpnMode::Http1Only => {
            let p: Vec<u8> = vec![8u8, 104, 116, 116, 112, 47, 49, 46, 49];
            assert(p@ =~= spec_alpn_protos(mode));
            p
        },
    }
}

/// The settings applied to each connection (rather than to the shared
/// context): ECH grease, the new ALPS codepoint, and whether ALPS is
/// advertised for h2.
#[derive(Clone, Copy, PartialEq, Eq, Debug, Structural)]
pub struct ConnectionSettings {
    pub enable_ech_grease: bool,
    pub alps_use_new_codepoint: bool,
    pub advertise_alps_h2: bool,
}

/// The per-connection settings for a profile: ECH grease as the profile
/// says; ALPS (with the new codepoint when the profile says so) only when
/// browsing.
pub fn connection_settings(profile: &ChromeTlsProfile, alpn_mode: AlpnMode) -> (s: ConnectionSettings)
    ensures
        s.enable_ech_grease == profile.enable_ech_grease,
        s.alps_use_new_codepoint == (alpn_mode == AlpnMode::Browser && profile.alps_use_new_codepoint),
        s.advertise_alps_h2 == (alpn_mode == AlpnMode::Browser),
{
    let browser = match alpn_mode {
        AlpnMode::Browser => true,
        AlpnMode::Http1Only => false,
    };
    ConnectionSettings {
        enable_ech_grease: profile.enable_ech_grease,
        alps_use_new_codepoint: browser && profile.alps_use_new_codepoint,
        advertise_alps_h2: browser,
    }
}

/// What `brotli::CompressorWriter` writes for `input`, made with the given
/// buffer size, quality and window size and then flushed and dropped.
pub uninterp spec fn brotli_compressed(input: Seq<u8>, buffer_size: usize, quality: u32, lgwin: u32) -> Seq<u8>;

/// What reading `brotli::Decompressor` over `input`, made with the given
/// buffer size, to its end gives: the decompressed bytes, or `None` when it
/// reports an error.
pub uninterp spec fn brotli_decompressed(input: Seq<u8>, buffer_size: usize) -> Option<Seq<u8>>;

/// Compress `input` with `brotli::CompressorWriter` into a vector. The
/// contract claims that the result is the stream that the writer produces
/// for these arguments (writing into a vector does not fail, and dropping
/// the writer finishes the stream), and that, brotli being lossless,
/// `brotli::Decompressor` reads that stream back to `input` whatever its
/// buffer size. Nothing more is claimed of the bytes themselves.
#[verifier::external_body]
fn brotli_compress(input: &[u8], buffer_size: usize, quality: u32, lgwin: u32) -> (out: Vec<u8>)
    ensures
        out@ == brotli_compressed(input@, buffer_size, quality, lgwin),
        forall|b: usize| #[trigger] brotli_decompressed(out@, b) == Some(input@),
{
    let mut out: Vec<u8> = Vec::new();
    {
        let mut writer = brotli::CompressorWriter::new(&mut out, buffer_size, quality, lgwin);
        let _ = std::io::Write::write_all(&mut writer, input);
        let _ = std::io::Write::flush(&mut writer);
    }
    out
}

/// Decompress `input` by copying `brotli::Decompressor` into a vector. The
/// contract claims only that the result is what the decompressor gives for
/// these arguments, `None` when the copy reports an error.
#[verifier::external_body]
fn brotli_decompress(input: &[u8], buffer_size: usize) -> (out: Option<Vec<u8>>)
    ensures
        out is Some <==> brotli_decompressed(input@, buffer_size) is Some,
        out matches Some(v) ==> v@ == brotli_decompressed(input@, buffer_size)->Some_0,
{
    let mut reader = brotli::Decompressor::new(input, buffer_size);
    let mut out: Vec<u8> = Vec::new();
    match std::io::copy(&mut reader, &mut out) {
        Ok(_) => Some(out),
        Err(_) => None,
    }
}

/// The brotli quality certificates are compressed with.
pub const CERT_COMPRESSION_QUALITY: u32 = 11;

/// The brotli window size certificates are compressed with.
pub const CERT_COMPRESSION_LGWIN: u32 = 32;

/// The read buffer size for decompressing certificates.
pub const CERT_DECOMPRESSION_BUFFER: usize = 4096;

/// Compress a certificate for the TLS certificate compression extension:
/// brotli at the highest quality, with a buffer as large as the input.
/// What it returns, [`decompress`] turns back into `input`.
pub fn compress(input: &[u8]) -> (out: Vec<u8>)
    ensures
        out@ == brotli_compressed(input@, input@.len() as usize, CERT_COMPRESSION_QUALITY, CERT_COMPRESSION_LGWIN),
        brotli_decompressed(out@, CERT_DECOMPRESSION_BUFFER) == Some(input@),
{
    brotli_compress(input, input.len(), CERT_COMPRESSION_QUALITY, CERT_COMPRESSION_LGWIN)
}

/// Decompress a brotli-compressed certificate; `None` when the input is
/// no valid brotli stream.
pub fn decompress(input: &[u8]) -> (out: Option<Vec<u8>>)
    ensures
        out is Some <==> brotli_decompressed(input@, CERT_DECOMPRESSION_BUFFER) is Some,
        out matches Some(v) ==> v@ == brotli_decompressed(input@, CERT_DECOMPRESSION_BUFFER)->Some_0,
{
    brotli_decompress(input, CERT_DECOMPRESSION_BUFFER)
}

} // verus!
