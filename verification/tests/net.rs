use obscura_webgl::net::boring_tls::{alpn_protos, connection_settings, resolve_chrome_version, AlpnMode, ConnectionSettings};
use obscura_webgl::net::chrome_tls::{default_profile, profile_for, CURVES_CLASSIC, CURVES_KYBER, CURVES_MLKEM};
use obscura_webgl::net::connector::{
    bytes_eq, ca_override_certificates, CACertificates, CertificateErrorOverrideManagerInternal, InstrumentedConnector,
};

#[test]
fn profiles_by_version() {
    let p = profile_for(100);
    assert!(!p.enable_ech_grease && !p.permute_extensions && !p.pre_shared_key);
    assert_eq!(p.curves, CURVES_CLASSIC);
    let p = profile_for(124);
    assert!(p.enable_ech_grease && p.permute_extensions && p.pre_shared_key && !p.alps_use_new_codepoint);
    assert_eq!(p.curves, CURVES_KYBER);
    let p = profile_for(133);
    assert!(p.alps_use_new_codepoint);
    assert_eq!(p.curves, CURVES_MLKEM);
    let p = profile_for(116);
    assert!(p.enable_ech_grease && p.permute_extensions && !p.pre_shared_key);
    let d = default_profile();
    for v in [0u32, 99, 102, 125, 149, 500] {
        let p = profile_for(v);
        assert_eq!(
            (p.enable_ech_grease, p.permute_extensions, p.pre_shared_key, p.alps_use_new_codepoint, p.curves),
            (d.enable_ech_grease, d.permute_extensions, d.pre_shared_key, d.alps_use_new_codepoint, d.curves)
        );
    }
}

#[test]
fn configured_version_wins() {
    assert_eq!(resolve_chrome_version(120, 131), 120);
    assert_eq!(resolve_chrome_version(0, 131), 131);
}

#[test]
fn alpn_lists() {
    assert_eq!(alpn_protos(AlpnMode::Browser), b"\x02h2\x08http/1.1".to_vec());
    assert_eq!(alpn_protos(AlpnMode::Http1Only), b"\x08http/1.1".to_vec());
}

#[test]
fn per_connection_settings() {
    let p = profile_for(140);
    assert_eq!(
        connection_settings(&p, AlpnMode::Browser),
        ConnectionSettings { enable_ech_grease: true, alps_use_new_codepoint: true, advertise_alps_h2: true }
    );
    assert_eq!(
        connection_settings(&p, AlpnMode::Http1Only),
        ConnectionSettings { enable_ech_grease: true, alps_use_new_codepoint: false, advertise_alps_h2: false }
    );
}

#[test]
fn ca_certificates() {
    assert!(ca_override_certificates(CACertificates::Default).is_empty());
    let certs = vec![vec![1u8, 2], vec![3u8]];
    assert_eq!(ca_override_certificates(CACertificates::Override(certs.clone())), certs);
    assert!(bytes_eq(&vec![1, 2], &vec![1, 2]));
    assert!(!bytes_eq(&vec![1, 2], &vec![1]));
}

#[test]
fn certificate_overrides() {
    let mut m = CertificateErrorOverrideManagerInternal::new();
    assert!(!m.on_verification_failure(vec![1, 2, 3]));
    assert!(!m.on_verification_failure(vec![4]));
    assert_eq!(m.remove_certificate_failing_verification("example.com"), Some(vec![4]));
    assert_eq!(m.remove_certificate_failing_verification("example.com"), Some(vec![1, 2, 3]));
    assert_eq!(m.remove_certificate_failing_verification("example.com"), None);
    m.add_override(&[1, 2, 3]);
    assert!(m.is_overridden(&vec![1, 2, 3]));
    assert!(!m.is_overridden(&vec![1, 2]));
    assert!(m.on_verification_failure(vec![1, 2, 3]));
    assert_eq!(m.remove_certificate_failing_verification("example.com"), None);
}

#[test]
fn instrumented_connector_keeps_its_inner_value() {
    let c = InstrumentedConnector::new(7u32);
    assert_eq!(*c.inner(), 7);
}
