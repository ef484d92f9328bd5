//! Connection-level types of the HTTP client and the bookkeeping of
//! certificate verification overrides.

use vstd::prelude::*;

verus! {

/// Size of the buffers of the HTTP client.
pub const BUF_SIZE: usize = 32768;

/// The error type of the connectors.
#[derive(Debug)]
pub enum ConnectionError {
    HttpError(String),
    ProxyError(String),
    TlsError(String),
}

/// What a finished TLS handshake negotiated, for the devtools protocol.
#[derive(Clone, Debug)]
pub struct TlsHandshakeInfo {
    pub protocol_version: Option<String>,
    pub cipher_suite: Option<String>,
    pub kea_group_name: Option<String>,
    pub signature_scheme_name: Option<String>,
    pub alpn_protocol: Option<String>,
    pub certificate_chain_der: Vec<Vec<u8>>,
    pub used_ech: bool,
}

/// Wraps a connector to attach [`TlsHandshakeInfo`] to its streams.
#[derive(Clone)]
pub struct InstrumentedConnector<T> {
    inner: T,
}

impl<T> InstrumentedConnector<T> {
    /// The wrapped connector.
    pub closed spec fn spec_inner(&self) -> T {
        self.inner
    }

    pub fn new(inner: T) -> (c: Self)
        ensures
            c.spec_inner() == inner,
    {
        InstrumentedConnector { inner }
    }

    /// The wrapped connector.
    pub fn inner(&self) -> (r: &T)
        ensures
            *r == self.spec_inner(),
    {
        &self.inner
    }
}

/// Where the trusted CA certificates come from: the platform store, or the
/// platform store plus the given DER certificates.
#[derive(Clone, Debug)]
pub enum CACertificates {
    Default,
    Override(Vec<Vec<u8>>),
}

/// The extra CA certificates (DER) that a CA configuration adds.
pub fn ca_override_certificates(ca_certificates: CACertificates) -> (v: Vec<Vec<u8>>)
    ensures
        match ca_certificates {
            CACertificates::Default => v@.len() == 0,
            CACertificates::Override(certs) => v@ == certs@,
        },
{
    match ca_certificates {
        CACertificates::Default => Vec::new(),
        CACertificates::Override(certificates) => certificates,
    }
}

/// Whether two byte strings are equal.
pub fn bytes_eq(a: &Vec<u8>, b: &Vec<u8>) -> (r: bool)
    ensures
        r == (a@ == b@),
{
    if a.len() != b.len() {
        return false;
    }
    let mut i: usize = 0;
    while i < a.len()
        invariant
            a@.len() == b@.len(),
            0 <= i <= a@.len(),
            forall|k: int| 0 <= k < i ==> a@[k] == b@[k],
        decreases a@.len() - i,
    {
        if a[i] != b[i] {
            return false;
        }
        i = i + 1;
    }
    assert(a@ =~= b@);
    true
}

/// The certificates accepted despite failed verification, and those that
/// recently failed verification, both as DER bytes.
#[derive(Clone, Debug)]
pub struct CertificateErrorOverrideManagerInternal {
    overrides: Vec<Vec<u8>>,
    certificates_failing_to_verify: Vec<Vec<u8>>,
}

impl CertificateErrorOverrideManagerInternal {
    /// The overridden certificates, in the order they were added.
    pub closed spec fn spec_overrides(&self) -> Seq<Seq<u8>> {
        self.overrides@.map_values(|c: Vec<u8>| c@)
    }

    /// The certificates that failed verification, oldest first.
    pub closed spec fn spec_failing(&self) -> Seq<Seq<u8>> {
        self.certificates_failing_to_verify@.map_values(|c: Vec<u8>| c@)
    }

    /// A manager with no overrides and no recorded failures.
    pub fn new() -> (m: Self)
        ensures
            m.spec_overrides() == Seq::<Seq<u8>>::empty(),
            m.spec_failing() == Seq::<Seq<u8>>::empty(),
    {
        let m = CertificateErrorOverrideManagerInternal {
            overrides: Vec::new(),
            certificates_failing_to_verify: Vec::new(),
        };
        assert(m.spec_overrides() =~= Seq::<Seq<u8>>::empty());
        assert(m.spec_failing() =~= Seq::<Seq<u8>>::empty());
        m
    }

    /// Accept `certificate` from now on despite verification errors.
    pub fn add_override(&mut self, certificate: &[u8])
        ensures
            final(self).spec_overrides() == old(self).spec_overrides().push(certificate@),
            final(self).spec_failing() == old(self).spec_failing(),
    {
        let c = vstd::slice::slice_to_vec(certificate);
        self.overrides.push(c);
        assert(self.spec_overrides() =~= old(self).spec_overrides().push(certificate@));
    }

    /// Take the most recently failed certificate, if any.
    pub fn remove_certificate_failing_verification(&mut self, _host: &str) -> (r: Option<Vec<u8>>)
        ensures
            final(self).spec_overrides() == old(self).spec_overrides(),
            old(self).spec_failing().len() == 0 ==> r is None && final(self).spec_failing()
                == old(self).spec_failing(),
            old(self).spec_failing().len() > 0 ==> (r matches Some(c) && c@ == old(self).spec_failing().last()
                && final(self).spec_failing() == old(self).spec_failing().drop_last()),
    {
        let r = self.certificates_failing_to_verify.pop();
        assert(self.spec_failing() =~= old(self).spec_failing().take(self.certificates_failing_to_verify@.len() as int));
        r
    }

    /// Whether `certificate_der` is overridden.
    pub fn is_overridden(&self, certificate_der: &Vec<u8>) -> (r: bool)
        ensures
            r == self.spec_overrides().contains(certificate_der@),
    {
        let mut i: usize = 0;
        while i < self.overrides.len()
            invariant
                0 <= i <= self.overrides@.len(),
                forall|k: int| 0 <= k < i ==> self.overrides@[k]@ != certificate_der@,
            decreases self.overrides@.len() - i,
        {
            if bytes_eq(&self.overrides[i], certificate_der) {
                assert(self.spec_overrides()[i as int] == certificate_der@);
                return true;
            }
            i = i + 1;
        }
        assert(!self.spec_overrides().contains(certificate_der@)) by {
            if self.spec_overrides().contains(certificate_der@) {
                let k = choose|k: int| 0 <= k < self.spec_overrides().len() && self.spec_overrides()[k] == certificate_der@;
                assert(self.overrides@[k]@ == certificate_der@);
            }
        }
        false
    }

    /// Called when a certificate fails verification: an overridden
    /// certificate is accepted; any other is recorded as failing and refused.
    pub fn on_verification_failure(&mut self, certificate_der: Vec<u8>) -> (accepted: bool)
        ensures
            accepted == old(self).spec_overrides().contains(certificate_der@),
            final(self).spec_overrides() == old(self).spec_overrides(),
            accepted ==> final(self).spec_failing() == old(self).spec_failing(),
            !accepted ==> final(self).spec_failing() == old(self).spec_failing().push(certificate_der@),
    {
        if self.is_overridden(&certificate_der) {
            return true;
        }
        let ghost d = certificate_der@;
        self.certificates_failing_to_verify.push(certificate_der);
        assert(self.spec_failing() =~= old(self).spec_failing().push(d));
        false
    }
}

/// An overridden certificate is always accepted, and accepting it records
/// no failure.
pub proof fn lemma_override_accepted(
    m: CertificateErrorOverrideManagerInternal,
    m2: CertificateErrorOverrideManagerInternal,
    c: Seq<u8>,
)
    requires
        m2.spec_overrides() == m.spec_overrides().push(c),
    ensures
        m2.spec_overrides().contains(c),
{
    assert(m2.spec_overrides()[m.spec_overrides().len() as int] == c);
}

} // verus!
