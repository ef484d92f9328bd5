//! Per-version Chrome TLS fingerprints: which ClientHello options each
//! Chrome release turns on, and the key-share curves it offers.

use vstd::prelude::*;

verus! {

/// The TLS 1.3 and ECDHE cipher suites Chrome offers, in offer order.
pub const CHROME_CIPHER_LIST: &'static str = "TLS_AES_128_GCM_SHA256:TLS_AES_256_GCM_SHA384:TLS_CHACHA20_POLY1305_SHA256:TLS_ECDHE_ECDSA_WITH_AES_128_GCM_SHA256:TLS_ECDHE_RSA_WITH_AES_128_GCM_SHA256:TLS_ECDHE_ECDSA_WITH_AES_256_GCM_SHA384:TLS_ECDHE_RSA_WITH_AES_256_GCM_SHA384:TLS_ECDHE_ECDSA_WITH_CHACHA20_POLY1305_SHA256:TLS_ECDHE_RSA_WITH_CHACHA20_POLY1305_SHA256:TLS_ECDHE_RSA_WITH_AES_128_CBC_SHA:TLS_ECDHE_RSA_WITH_AES_256_CBC_SHA:TLS_RSA_WITH_AES_128_GCM_SHA256:TLS_RSA_WITH_AES_256_GCM_SHA384:TLS_RSA_WITH_AES_128_CBC_SHA:TLS_RSA_WITH_AES_256_CBC_SHA";

/// The signature algorithms Chrome offers, in order.
pub const CHROME_SIGALGS_LIST: &'static str = "ecdsa_secp256r1_sha256:rsa_pss_rsae_sha256:rsa_pkcs1_sha256:ecdsa_secp384r1_sha384:rsa_pss_rsae_sha384:rsa_pkcs1_sha384:rsa_pss_rsae_sha512:rsa_pkcs1_sha512";

/// The curve list of Chrome 100 to 123.
pub const CURVES_CLASSIC: &'static str = "X25519:P-256:P-384";
/// The curve list of Chrome 124 to 130, with the Kyber draft hybrid.
pub const CURVES_KYBER: &'static str = "X25519Kyber768Draft00:X25519:P-256:P-384";
/// The curve list of Chrome 131 on, with the ML-KEM hybrid.
pub const CURVES_MLKEM: &'static str = "X25519MLKEM768:X25519:P-256:P-384";

/// The version-dependent part of a Chrome ClientHello.
#[derive(Clone, Copy, Debug)]
pub struct ChromeTlsProfile {
    pub enable_ech_grease: bool,
    pub permute_extensions: bool,
    pub pre_shared_key: bool,
    pub alps_use_new_codepoint: bool,
    pub curves: &'static str,
}

/// The profile used for a version without an entry: that of Chrome 131.
pub fn default_profile() -> (p: ChromeTlsProfile)
    ensures
        p.enable_ech_grease && p.permute_extensions && p.pre_shared_key && !p.alps_use_new_codepoint,
        p.curves@ == CURVES_MLKEM@,
{
    profile(true, true, true, false, CURVES_MLKEM)
}

/// Which of the three curve lists a version offers.
pub open spec fn spec_curves(v: u32) -> Seq<char> {
    if 124 <= v <= 130 && v != 125 {
        CURVES_KYBER@
    } else if (100 <= v <= 101) || v == 104 || v == 105 || (106 <= v <= 110) || v == 114 || (116 <= v
        <= 120) || v == 123 {
        CURVES_CLASSIC@
    } else {
        CURVES_MLKEM@
    }
}

/// The flags of a version's profile: ECH grease, extension permutation,
/// pre-shared key, new ALPS codepoint.
pub open spec fn spec_flags(v: u32) -> (bool, bool, bool, bool) {
    if 100 <= v <= 101 || v == 104 || v == 110 {
        (false, false, false, false)
    } else if v == 105 {
        (true, false, false, false)
    } else if 106 <= v <= 109 || v == 114 {
        (false, true, false, false)
    } else if v == 116 || 118 <= v <= 119 {
        (true, true, false, false)
    } else if v == 117 || v == 120 || v == 123 || v == 124 || 126 <= v <= 131 {
        (true, true, true, false)
    } else if 132 <= v <= 148 {
        (true, true, true, true)
    } else {
        (true, true, true, false)
    }
}

/// A profile with the given flags and curve list.
fn profile(ech: bool, permute: bool, psk: bool, alps_new: bool, curves: &'static str) -> (p: ChromeTlsProfile)
    ensures
        p.enable_ech_grease == ech,
        p.permute_extensions == permute,
        p.pre_shared_key == psk,
        p.alps_use_new_codepoint == alps_new,
        p.curves@ == curves@,
{
    ChromeTlsProfile {
        enable_ech_grease: ech,
        permute_extensions: permute,
        pre_shared_key: psk,
        alps_use_new_codepoint: alps_new,
        curves,
    }
}

/// The TLS profile of a Chrome version; versions without an entry get
/// [`default_profile`].
pub fn profile_for(chrome_version: u32) -> (p: ChromeTlsProfile)
    ensures
        (p.enable_ech_grease, p.permute_extensions, p.pre_shared_key, p.alps_use_new_codepoint)
            == spec_flags(chrome_version),
        p.curves@ == spec_curves(chrome_version),
{
    let v = chrome_version;
    if 100 <= v && v <= 101 {
        profile(false, false, false, false, CURVES_CLASSIC)
    } else if v == 104 {
        profile(false, false, false, false, CURVES_CLASSIC)
    } else if v == 105 {
        profile(true, false, false, false, CURVES_CLASSIC)
    } else if 106 <= v && v <= 109 {
        profile(false, true, false, false, CURVES_CLASSIC)
    } else if v == 110 {
        profile(false, false, false, false, CURVES_CLASSIC)
    } else if v == 114 {
        profile(false, true, false, false, CURVES_CLASSIC)
    } else if v == 116 {
        profile(true, true, false, false, CURVES_CLASSIC)
    } else if v == 117 {
        profile(true, true, true, false, CURVES_CLASSIC)
    } else if 118 <= v && v <= 119 {
        profile(true, true, false, false, CURVES_CLASSIC)
    } else if v == 120 {
        profile(true, true, true, false, CURVES_CLASSIC)
    } else if v == 123 {
        profile(true, true, true, false, CURVES_CLASSIC)
    } else if v == 124 {
        profile(true, true, true, false, CURVES_KYBER)
    } else if 126 <= v && v <= 130 {
        profile(true, true, true, false, CURVES_KYBER)
    } else if v == 131 {
        profile(true, true, true, false, CURVES_MLKEM)
    } else if 132 <= v && v <= 148 {
        profile(true, true, true, true, CURVES_MLKEM)
    } else {
        default_profile()
    }
}

} // verus!
