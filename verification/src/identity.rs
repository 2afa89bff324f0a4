use vstd::prelude::*;

verus! {

/// Why a server identity could not be built from the supplied PEM input.
#[derive(Clone, Copy, Debug, PartialEq, Eq, Structural)]
pub enum CredentialError {
    /// A certificate section of the PEM input could not be decoded.
    BadCertificate,
    /// The PEM input held no certificate at all.
    NoCertificate,
    /// The PEM input held no usable private key.
    NoPrivateKey,
}

impl CredentialError {
    /// A short description of the failure, for reporting at startup.
    pub fn describe(&self) -> (r: &'static str)
        ensures
            *self is BadCertificate ==> r@ == "invalid certificate data"@,
            *self is NoCertificate ==> r@ == "no certificates found"@,
            *self is NoPrivateKey ==> r@ == "no private keys found"@,
    {
        match self {
            CredentialError::BadCertificate => "invalid certificate data",
            CredentialError::NoCertificate => "no certificates found",
            CredentialError::NoPrivateKey => "no private keys found",
        }
    }
}

/// The certificate records that `rustls_pemfile::certs` decodes out of
/// `input`, in order, or nothing if it reports any decoding error.  The
/// result depends on the input bytes alone.
pub uninterp spec fn pem_certificates(input: Seq<u8>) -> Option<Seq<Seq<u8>>>;

/// The PKCS#8 private key records that `rustls_pemfile::pkcs8_private_keys`
/// decodes out of `input`, in order, with undecodable entries left out.
/// The result depends on the input bytes alone.
pub uninterp spec fn pem_pkcs8_keys(input: Seq<u8>) -> Seq<Seq<u8>>;

/// Relies on rustls_pemfile::certs to decode every CERTIFICATE section of
/// the PEM input into its DER bytes, in order, erring if any section is
/// malformed; other section kinds are skipped.
#[verifier::external_body]
fn parse_certificates(input: &Vec<u8>) -> (r: Option<Vec<Vec<u8>>>)
    ensures
        r is Some <==> pem_certificates(input@) is Some,
        r matches Some(cs) ==> Some(cs.deep_view()) == pem_certificates(input@),
{
    let mut reader = &input[..];
    match rustls_pemfile::certs(&mut reader).collect::<Result<Vec<_>, _>>() {
        Ok(certs) => Some(certs.into_iter().map(|c| c.as_ref().to_vec()).collect()),
        Err(_) => None,
    }
}

/// Relies on rustls_pemfile::pkcs8_private_keys to decode every well-formed
/// PRIVATE KEY section of the PEM input into its DER bytes, in order;
/// malformed entries and other section kinds are skipped.
#[verifier::external_body]
fn parse_pkcs8_keys(input: &Vec<u8>) -> (r: Vec<Vec<u8>>)
    ensures
        r.deep_view() == pem_pkcs8_keys(input@),
{
    let mut reader = &input[..];
    rustls_pemfile::pkcs8_private_keys(&mut reader)
        .filter_map(|k| k.ok())
        .map(|k| k.secret_pkcs8_der().to_vec())
        .collect()
}

/// The server's identity: the certificate chain it presents during the
/// secure handshake and the one private key it proves it with.  Loaded
/// once at startup and read-only afterwards.
#[derive(Debug)]
pub struct ServerIdentity {
    certificates: Vec<Vec<u8>>,
    key: Vec<u8>,
}

impl ServerIdentity {
    /// The DER bytes of each certificate, in the order they were supplied.
    pub closed spec fn certificate_chain(self) -> Seq<Seq<u8>> {
        self.certificates.deep_view()
    }

    /// The DER bytes of the private key.
    pub closed spec fn key_bytes(self) -> Seq<u8> {
        self.key@
    }

    /// An identity presents at least one certificate.
    pub open spec fn wf(self) -> bool {
        self.certificate_chain().len() >= 1
    }

    /// Build the server identity out of PEM-encoded input: every
    /// certificate of `cert_pem`, in order, and the first usable private
    /// key of `key_pem`.  Fails exactly when a certificate section is
    /// malformed, when there is no certificate, or when there is no usable
    /// key — each a fatal startup condition.
    pub fn from_pem(cert_pem: &Vec<u8>, key_pem: &Vec<u8>) -> (r: Result<
        ServerIdentity,
        CredentialError,
    >)
        ensures
            match r {
                Ok(id) => {
                    &&& id.wf()
                    &&& pem_certificates(cert_pem@) matches Some(cs) && cs == id.certificate_chain()
                        && cs.len() >= 1
                    &&& pem_pkcs8_keys(key_pem@).len() >= 1
                    &&& id.key_bytes() == pem_pkcs8_keys(key_pem@)[0]
                },
                Err(CredentialError::BadCertificate) => pem_certificates(cert_pem@) is None,
                Err(CredentialError::NoCertificate) => pem_certificates(cert_pem@) matches Some(cs)
                    && cs.len() == 0,
                Err(CredentialError::NoPrivateKey) => pem_certificates(cert_pem@) matches Some(cs)
                    && cs.len() >= 1 && pem_pkcs8_keys(key_pem@).len() == 0,
            },
    {
        let certificates: Vec<Vec<u8>> = match parse_certificates(cert_pem) {
            Some(cs) => cs,
            None => {
                return Err(CredentialError::BadCertificate);
            },
        };
        if certificates.len() == 0 {
            return Err(CredentialError::NoCertificate);
        }
        let mut keys: Vec<Vec<u8>> = parse_pkcs8_keys(key_pem);
        if keys.len() == 0 {
            return Err(CredentialError::NoPrivateKey);
        }
        let key: Vec<u8> = keys.remove(0);
        Ok(ServerIdentity { certificates, key })
    }

    /// The certificate chain, for handing to the transport acceptor.
    pub fn certificates(&self) -> (r: &Vec<Vec<u8>>)
        ensures
            r.deep_view() == self.certificate_chain(),
    {
        &self.certificates
    }

    /// The private key bytes, for handing to the transport acceptor.
    pub fn key(&self) -> (r: &Vec<u8>)
        ensures
            r@ == self.key_bytes(),
    {
        &self.key
    }
}

} // verus!
