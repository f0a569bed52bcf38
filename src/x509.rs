//! Certificates, signing requests, and the certification authority that
//! the dispatcher hands signing requests to.
use vstd::prelude::*;
use vstd::string::*;

verus! {

/// The encoding of a certificate or signing request.
#[allow(non_camel_case_types, clippy::upper_case_acronyms)]
#[derive(Clone, Copy, Debug, PartialEq, Eq, Structural)]
pub enum Format {
    DER,
    PEM,
}

/// Why a certification authority produced no certificate.
#[derive(Clone, Copy, Debug, PartialEq, Eq, Structural)]
pub enum SigningError {
    /// The request is not in PEM format.
    UnsupportedFormat,
    /// The authority holds no key pair to sign with.
    NoSigningKey,
    /// The signing operation failed.
    SigningFailed,
    /// The signed certificate could not be read back.
    ReadFailed,
}

/// Signs certificate requests. On success the result holds at least one
/// certificate; a request that is not in PEM format is refused.
pub trait CertificationAuthority {
    fn sign(&self, csr: CertificateSignRequest) -> Result<Vec<Certificate>, SigningError>;
}

#[derive(Debug, PartialEq)]
pub struct Certificate {
    pub data: Vec<u8>,
    pub format: Format,
}

#[derive(Debug, PartialEq)]
pub struct CertificateSignRequest {
    pub data: Vec<u8>,
    pub format: Format,
}

impl CertificateSignRequest {
    /// A PEM request whose bytes are those of `text`.
    pub fn pem(text: &str) -> (r: CertificateSignRequest)
        ensures
            r.data@ == text.spec_bytes(),
            r.format == Format::PEM,
    {
        CertificateSignRequest { data: text.as_bytes_vec(), format: Format::PEM }
    }

    /// Whether an authority accepts the request's format: PEM only.
    pub fn check_format(&self) -> (r: Result<(), SigningError>)
        ensures
            r is Ok <==> self.format == Format::PEM,
            r is Err ==> r == Err::<(), SigningError>(SigningError::UnsupportedFormat),
    {
        match self.format {
            Format::PEM => Ok(()),
            Format::DER => Err(SigningError::UnsupportedFormat),
        }
    }
}

pub struct DefaultCertificationAuthoritySettings {
    /// Working directory for keys, certificates and requests; ends with a
    /// path separator.
    pub directory: String,
    /// Whether a new root key and certificate are to be made at start.
    pub new: bool,
}

/// The file names of a key and of the certificate made with it.
pub struct CertificateKeyPair {
    key: String,
    certificate: String,
}

impl CertificateKeyPair {
    pub closed spec fn key_spec(&self) -> Seq<char> {
        self.key@
    }

    pub closed spec fn certificate_spec(&self) -> Seq<char> {
        self.certificate@
    }

    pub fn new(key: String, certificate: String) -> (r: CertificateKeyPair)
        ensures
            r.key_spec() == key@,
            r.certificate_spec() == certificate@,
    {
        CertificateKeyPair { key, certificate }
    }

    pub fn get_key(&self) -> (r: &str)
        ensures
            r@ == self.key_spec(),
    {
        self.key.as_str()
    }

    pub fn get_certificate(&self) -> (r: &str)
        ensures
            r@ == self.certificate_spec(),
    {
        self.certificate.as_str()
    }
}

/// A certification authority kept in a working directory, with the root key
/// pairs it signs with.
pub struct DefaultCertificationAuthority {
    settings: DefaultCertificationAuthoritySettings,
    certificates: Vec<CertificateKeyPair>,
}

impl DefaultCertificationAuthority {
    pub closed spec fn directory(&self) -> Seq<char> {
        self.settings.directory@
    }

    pub closed spec fn makes_new(&self) -> bool {
        self.settings.new
    }

    /// The key pairs held, oldest first.
    pub closed spec fn pairs(&self) -> Seq<CertificateKeyPair> {
        self.certificates@
    }

    /// An authority with the given settings and no key pair yet.
    pub fn new(settings: DefaultCertificationAuthoritySettings) -> (r: DefaultCertificationAuthority)
        ensures
            r.directory() == settings.directory@,
            r.makes_new() == settings.new,
            r.pairs().len() == 0,
    {
        DefaultCertificationAuthority { settings, certificates: Vec::new() }
    }

    pub fn get_workdir(&self) -> (r: &str)
        ensures
            r@ == self.directory(),
    {
        self.settings.directory.as_str()
    }

    /// Whether a new root key and certificate are to be made at start.
    pub fn makes_new_root(&self) -> (r: bool)
        ensures
            r == self.makes_new(),
    {
        self.settings.new
    }

    /// The file names of the root key and certificate in the working
    /// directory.
    pub fn root_pair(&self) -> (r: CertificateKeyPair)
        ensures
            r.key_spec() == self.directory() + "root-key.pem"@,
            r.certificate_spec() == self.directory() + "root-cert.pem"@,
    {
        let key = self.settings.directory.clone().concat("root-key.pem");
        let certificate = self.settings.directory.clone().concat("root-cert.pem");
        CertificateKeyPair::new(key, certificate)
    }

    /// Keeps a key pair that has been made, as the last one held.
    pub fn add_pair(&mut self, pair: CertificateKeyPair)
        ensures
            final(self).pairs() == old(self).pairs().push(pair),
            final(self).directory() == old(self).directory(),
            final(self).makes_new() == old(self).makes_new(),
    {
        self.certificates.push(pair);
    }

    /// The key pair that requests are signed with: the first one held.
    pub fn signing_pair(&self) -> (r: Result<&CertificateKeyPair, SigningError>)
        ensures
            self.pairs().len() == 0 ==> r == Err::<&CertificateKeyPair, SigningError>(
                SigningError::NoSigningKey,
            ),
            self.pairs().len() > 0 ==> (r matches Ok(p) && *p == self.pairs()[0]),
    {
        if self.certificates.len() == 0 {
            Err(SigningError::NoSigningKey)
        } else {
            Ok(&self.certificates[0])
        }
    }

    /// The file names for a request and for the certificate signed from it,
    /// both in the working directory and told apart by `stamp`.
    pub fn request_files(&self, stamp: &str) -> (r: (String, String))
        ensures
            r.0@ == self.directory() + "csr"@ + stamp@,
            r.1@ == self.directory() + "cert"@ + stamp@,
    {
        let csr = self.settings.directory.clone().concat("csr").concat(stamp);
        let cert = self.settings.directory.clone().concat("cert").concat(stamp);
        (csr, cert)
    }
}

} // verus!
