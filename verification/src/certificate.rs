//! The certificate under which a server is known.

use native_tls::Identity;
use openssl::error::ErrorStack;
use openssl::pkcs12::Pkcs12;
use openssl::pkey::{PKey, Private};
use openssl::x509::X509;
use vstd::prelude::*;
#[allow(unused_imports)]
use vstd::string::to_string_from_display_ensures;
#[allow(unused_imports)]
use vstd::utf8::encode_utf8;

use crate::error::{Error, ErrorKind};
use crate::text::append_list;
#[allow(unused_imports)]
use crate::text::{list_text, optional_text};
use crate::tls::{
    build_archive, encode_archive, is_nul_free, open_identity, read_certificates,
    read_private_key, CaStack, MAX_LENGTH,
};
#[allow(unused_imports)]
use crate::tls::{
    archive_built, archive_encoded, certificates_read, identity_opened, is_password, nul_free,
    private_key_read, stack_not_grown, stack_not_made, stacked,
};

verus! {

/// A private key in full.
pub enum KeyBytes {
    /// In PEM format.
    Pem(Vec<u8>),
}

/// A private key, or how to get at it.
pub enum PrivateKey {
    /// A reference under which the key is kept elsewhere.
    Ref(String),
    /// The key itself.
    Key(KeyBytes),
}

impl PrivateKey {
    /// The octets that stand for the key.
    pub open spec fn octets(self) -> Seq<u8> {
        match self {
            PrivateKey::Ref(reference) => encode_utf8(reference@),
            PrivateKey::Key(KeyBytes::Pem(pem)) => pem@,
        }
    }
}

/// A certificate in PEM format, alone or with the certificates of the
/// authorities behind it, and what goes with it.
pub struct PemCertificate {
    cert: Vec<u8>,
    key: Option<Vec<u8>>,
    username: Option<String>,
    password: Option<String>,
}

/// [`PemCertificate`] as contracts see it.
#[verifier::ext_equal]
pub struct PemCertificateView {
    /// The certificates.
    pub cert: Seq<u8>,
    /// The private key.
    pub key: Option<Seq<u8>>,
    /// The user name.
    pub username: Option<Seq<char>>,
    /// The password.
    pub password: Option<Seq<char>>,
}

/// The octets of an optional vector.
pub open spec fn optional_octets(octets: Option<Vec<u8>>) -> Option<Seq<u8>> {
    match octets {
        Some(octets) => Some(octets@),
        None => None,
    }
}

impl View for PemCertificate {
    type V = PemCertificateView;

    closed spec fn view(&self) -> PemCertificateView {
        PemCertificateView {
            cert: self.cert@,
            key: optional_octets(self.key),
            username: optional_text(self.username),
            password: optional_text(self.password),
        }
    }
}

impl Clone for PemCertificate {
    fn clone(&self) -> (r: Self)
        ensures
            r@ == self@,
    {
        let cert = self.cert.clone();
        assert(cert@ =~= self.cert@);
        let key = match &self.key {
            Some(key) => {
                let copy = key.clone();
                assert(copy@ =~= key@);
                Some(copy)
            },
            None => None,
        };
        let username = match &self.username {
            Some(username) => Some(username.clone()),
            None => None,
        };
        let password = match &self.password {
            Some(password) => Some(password.clone()),
            None => None,
        };
        PemCertificate { cert, key, username, password }
    }
}

impl PemCertificate {
    /// A certificate with these parts.
    pub fn new(
        cert: Vec<u8>,
        key: Option<Vec<u8>>,
        username: Option<String>,
        password: Option<String>,
    ) -> (r: Self)
        ensures
            r@ == (PemCertificateView {
                cert: cert@,
                key: optional_octets(key),
                username: optional_text(username),
                password: optional_text(password),
            }),
            r@.cert == cert@,
            key is None ==> r@.key is None,
            key matches Some(key) ==> r@.key == Some(key@),
            username is None ==> r@.username is None,
            username matches Some(username) ==> r@.username == Some(username@),
            password is None ==> r@.password is None,
            password matches Some(password) ==> r@.password == Some(password@),
    {
        PemCertificate { cert, key, username, password }
    }

    /// The certificate in PEM format.
    pub fn get_certificate(&self) -> (r: &[u8])
        ensures
            r@ == self@.cert,
    {
        &self.cert
    }

    /// A certificate made of what another kind of certificate says of itself:
    /// its PEM format and its private key. It has neither user name nor
    /// password.
    ///
    /// An error of the PEM format is the cause of the error here; one of the
    /// private key is not kept.
    pub fn from<E, F>(pem: Result<Vec<u8>, E>, private_key: Result<Option<PrivateKey>, F>) -> (r:
        Result<Self, Error<E>>)
        ensures
            match (pem, private_key) {
                (Err(cause), _) => r == Err::<Self, Error<E>>(
                    Error { kind: ErrorKind::IdentityCertificate, cause: Some(cause) },
                ),
                (Ok(_), Err(_)) => r == Err::<Self, Error<E>>(
                    Error { kind: ErrorKind::IdentityPrivateKey, cause: None },
                ),
                (Ok(cert), Ok(key)) => r matches Ok(certificate) && certificate@ == (
                PemCertificateView {
                    cert: cert@,
                    key: match key {
                        Some(key) => Some(key.octets()),
                        None => None,
                    },
                    username: None,
                    password: None,
                }),
            },
    {
        let cert = match pem {
            Ok(cert) => cert,
            Err(cause) => {
                return Err(
                    Error { kind: ErrorKind::IdentityCertificate, cause: Some(cause) },
                );
            },
        };
        let key = match private_key {
            Ok(Some(PrivateKey::Ref(reference))) => Some(reference.as_str().as_bytes_vec()),
            Ok(Some(PrivateKey::Key(KeyBytes::Pem(buffer)))) => Some(buffer),
            Ok(None) => None,
            Err(_) => {
                return Err(Error { kind: ErrorKind::IdentityPrivateKey, cause: None });
            },
        };
        Ok(PemCertificate::new(cert, key, None, None))
    }

    /// The certificate as text for a log. Neither the private key nor the user
    /// name nor the password is in it.
    pub fn debug_text(&self) -> (r: String)
        ensures
            r@ == log_text(self@),
    {
        let mut text = "Certificate: ".to_owned();
        append_list(&mut text, self.cert.as_slice());
        text
    }
}

/// What is logged of a certificate.
pub open spec fn log_text(certificate: PemCertificateView) -> Seq<char> {
    "Certificate: "@ + list_text(certificate.cert)
}

/// What is logged of a certificate does not depend on its private key, its user
/// name or its password.
pub proof fn law_log_hides_secrets(
    certificate: PemCertificateView,
    key: Option<Seq<u8>>,
    username: Option<Seq<char>>,
    password: Option<Seq<char>>,
)
    ensures
        log_text(certificate) == log_text(
            PemCertificateView { key, username, password, ..certificate },
        ),
{
}

/// An optional text, or the empty one.
pub open spec fn text_or_empty(text: Option<Seq<char>>) -> Seq<char> {
    match text {
        Some(text) => text,
        None => Seq::empty(),
    }
}

/// The error behind a failure to make an identity.
pub enum IdentityCause {
    /// One of OpenSSL.
    OpenSsl(ErrorStack),
    /// One of the TLS library.
    Tls(native_tls::Error),
}

/// What comes of making an identity; nothing where it cannot even be tried.
pub type IdentityResult = Option<Result<Identity, Error<IdentityCause>>>;

/// It failed in this way, with this error behind it.
pub open spec fn fails(r: IdentityResult, kind: ErrorKind, cause: Option<IdentityCause>) -> bool {
    r == Some(Err::<Identity, Error<IdentityCause>>(Error { kind, cause }))
}

/// The identity certificate could not be used, because of an error of OpenSSL.
pub open spec fn certificate_unusable(r: IdentityResult, cause: ErrorStack) -> bool {
    fails(r, ErrorKind::IdentityCertificate, Some(IdentityCause::OpenSsl(cause)))
}

/// What may come of opening an encoded archive. It is opened with the empty
/// password.
pub open spec fn opening_result(der: Seq<u8>, r: IdentityResult) -> bool {
    exists|opened: Result<Identity, native_tls::Error>| #[trigger]
        identity_opened(der, Seq::empty(), opened) && match opened {
            Ok(identity) => r == Some(Ok::<Identity, Error<IdentityCause>>(identity)),
            Err(error) => exists|reason: String| #[trigger]
                to_string_from_display_ensures(&error, reason) && fails(
                    r,
                    ErrorKind::PKCS12Identity(reason),
                    Some(IdentityCause::Tls(error)),
                ),
        }
}

/// What may come of encoding an archive and going on from there.
pub open spec fn encoding_result(archive: Pkcs12, r: IdentityResult) -> bool {
    exists|encoded: Result<Seq<u8>, ErrorStack>| #[trigger]
        archive_encoded(archive, encoded) && match encoded {
            Ok(der) => opening_result(der, r),
            Err(error) => certificate_unusable(r, error),
        }
}

/// What may come of packing an archive and going on from there. The first
/// certificate is the one to be known by, the others are those of authorities.
/// The password is the certificate's and the name is its user name. Where one of
/// them has a NUL character in it, or the encoding of the password is longer than
/// [`MAX_LENGTH`], nothing comes of it.
pub open spec fn packing_result(
    parts: PemCertificateView,
    certificates: Seq<X509>,
    key: PKey<Private>,
    r: IdentityResult,
) -> bool {
    let password = text_or_empty(parts.password);
    let name = text_or_empty(parts.username);
    if !is_password(password) || !nul_free(name) {
        r is None
    } else {
        exists|built: Result<Pkcs12, ErrorStack>| #[trigger]
            archive_built(certificates.skip(1), password, name, key, certificates[0], built)
                && match built {
                Ok(archive) => encoding_result(archive, r),
                Err(error) => certificate_unusable(r, error),
            }
    }
}

/// What may come of reading the private key and going on from there.
pub open spec fn key_result(
    parts: PemCertificateView,
    certificates: Seq<X509>,
    r: IdentityResult,
) -> bool {
    match parts.key {
        None => fails(r, ErrorKind::IdentityPrivateKey, None),
        Some(pem) => if pem.len() > MAX_LENGTH {
            r is None
        } else {
            exists|read: Result<PKey<Private>, ErrorStack>| #[trigger]
                private_key_read(pem, read) && match read {
                    Ok(key) => packing_result(parts, certificates, key, r),
                    Err(error) => exists|reason: String| #[trigger]
                        to_string_from_display_ensures(&error, reason) && fails(
                            r,
                            ErrorKind::IdentityPrivateKeyRead(reason),
                            Some(IdentityCause::OpenSsl(error)),
                        ),
                }
        },
    }
}

/// OpenSSL may fail with `error` to make the stack of all certificates but the
/// first.
pub open spec fn stacking_may_fail(certificates: Seq<X509>, error: ErrorStack) -> bool {
    ||| stack_not_made(error)
    ||| exists|n: int|
        1 <= n < certificates.len() && #[trigger] stack_not_grown(
            certificates.subrange(1, n),
            certificates[n],
            error,
        )
}

/// What may come of stacking the certificates of authorities and going on from
/// there. Of no certificates, nothing comes.
pub open spec fn chain_result(
    parts: PemCertificateView,
    certificates: Seq<X509>,
    r: IdentityResult,
) -> bool {
    if certificates.len() == 0 {
        r is None
    } else {
        ||| exists|error: ErrorStack| #[trigger]
            stacking_may_fail(certificates, error) && certificate_unusable(r, error)
        ||| key_result(parts, certificates, r)
    }
}

/// What may come of making an identity of a certificate.
pub open spec fn identity_result(parts: PemCertificateView, r: IdentityResult) -> bool {
    if parts.cert.len() > MAX_LENGTH {
        r is None
    } else {
        exists|read: Result<Seq<X509>, ErrorStack>| #[trigger]
            certificates_read(parts.cert, read) && match read {
                Ok(certificates) => chain_result(parts, certificates, r),
                Err(error) => certificate_unusable(r, error),
            }
    }
}

/// The text of an optional string, or the empty text.
fn or_empty(text: &Option<String>) -> (r: &str)
    ensures
        r@ == text_or_empty(optional_text(*text)),
{
    match text {
        Some(text) => text.as_str(),
        None => {
            proof {
                reveal_strlit("");
            }
            assert(""@ =~= Seq::<char>::empty());
            ""
        },
    }
}

/// Puts all certificates but the first on a stack, and gives the first back
/// beside it.
fn split_chain(certificates: Vec<X509>) -> (r: Result<(X509, CaStack), ErrorStack>)
    requires
        certificates@.len() > 0,
    ensures
        match r {
            Ok((certificate, authorities)) => certificate == certificates@[0] && stacked(
                authorities,
            ) == certificates@.skip(1),
            Err(error) => stacking_may_fail(certificates@, error),
        },
{
    let ghost all = certificates@;
    let mut certificates = certificates;
    let mut authorities = match CaStack::new() {
        Ok(stack) => stack,
        Err(error) => {
            return Err(error);
        },
    };
    #[verifier::loop_isolation(false)]
    while certificates.len() > 1
        invariant
            1 <= certificates@.len() <= all.len(),
            certificates@[0] == all[0],
            certificates@.skip(1) == all.skip(all.len() - certificates@.len() + 1),
            stacked(authorities) == all.subrange(1, all.len() - certificates@.len() + 1),
        decreases certificates@.len(),
    {
        let ghost n = all.len() - certificates@.len() + 1;
        let ghost rest = certificates@.skip(1);
        let certificate = certificates.remove(1);
        assert(certificate == rest[0]);
        assert(certificates@.skip(1) =~= rest.skip(1));
        assert(rest.skip(1) =~= all.skip(n + 1));
        match authorities.push(certificate) {
            Ok(()) => {},
            Err(error) => {
                assert(stack_not_grown(all.subrange(1, n), all[n], error));
                return Err(error);
            },
        }
        assert(stacked(authorities) =~= all.subrange(1, n + 1));
    }
    assert(stacked(authorities) =~= all.skip(1));
    Ok((certificates.remove(0), authorities))
}

impl PemCertificate {
    /// The error of a certificate that OpenSSL cannot use.
    fn unusable(cause: ErrorStack) -> (r: Error<IdentityCause>)
        ensures
            certificate_unusable(Some(Err(r)), cause),
    {
        Error { kind: ErrorKind::IdentityCertificate, cause: Some(IdentityCause::OpenSsl(cause)) }
    }

    /// The identity in an encoded archive.
    fn identity_of_der(der: &[u8]) -> (r: Result<Identity, Error<IdentityCause>>)
        ensures
            opening_result(der@, Some(r)),
    {
        proof {
            reveal_strlit("");
        }
        assert(""@ =~= Seq::<char>::empty());
        match open_identity(der, "") {
            Ok(identity) => Ok(identity),
            Err(error) => {
                let reason = error.to_string();
                Err(
                    Error {
                        kind: ErrorKind::PKCS12Identity(reason),
                        cause: Some(IdentityCause::Tls(error)),
                    },
                )
            },
        }
    }

    /// The identity in an archive.
    fn identity_of_archive(archive: &Pkcs12) -> (r: Result<Identity, Error<IdentityCause>>)
        ensures
            encoding_result(*archive, Some(r)),
    {
        match encode_archive(archive) {
            Ok(der) => Self::identity_of_der(der.as_slice()),
            Err(error) => Err(Self::unusable(error)),
        }
    }

    /// The identity of a certificate that has been read, with the certificates
    /// of the authorities behind it and its key.
    fn identity_of_parts(
        &self,
        certificate: &X509,
        authorities: CaStack,
        key: &PKey<Private>,
    ) -> (r: IdentityResult)
        ensures
            packing_result(self@, seq![*certificate] + stacked(authorities), *key, r),
    {
        let ghost certificates = seq![*certificate] + stacked(authorities);
        assert(certificates.skip(1) =~= stacked(authorities));
        let password = or_empty(&self.password);
        let name = or_empty(&self.username);
        if !is_nul_free(password) || password.as_bytes().len() > MAX_LENGTH || !is_nul_free(name) {
            return None;
        }
        let built = build_archive(authorities, password, name, key, certificate);
        assert(archive_built(
            certificates.skip(1),
            text_or_empty(self@.password),
            text_or_empty(self@.username),
            *key,
            certificates[0],
            built,
        ));
        match built {
            Ok(archive) => Some(Self::identity_of_archive(&archive)),
            Err(error) => Some(Err(Self::unusable(error))),
        }
    }

    /// The identity of this certificate, once its text has been read. The first
    /// certificate is the one to be known by, the others are those of
    /// authorities.
    ///
    /// There is no result where there is no certificate at all, where the text
    /// of the private key or the encoding of the password is longer than
    /// [`MAX_LENGTH`], or where there is a NUL character in the password or the
    /// user name.
    pub fn identity_of_chain(&self, certificates: Vec<X509>) -> (r: IdentityResult)
        ensures
            chain_result(self@, certificates@, r),
    {
        if certificates.len() == 0 {
            return None;
        }
        let (certificate, authorities) = match split_chain(certificates) {
            Ok(parts) => parts,
            Err(error) => {
                return Some(Err(Self::unusable(error)));
            },
        };
        assert(seq![certificate] + stacked(authorities) =~= certificates@);
        match &self.key {
            None => Some(Err(Error { kind: ErrorKind::IdentityPrivateKey, cause: None })),
            Some(pem) => {
                if pem.len() > MAX_LENGTH {
                    return None;
                }
                match read_private_key(pem.as_slice()) {
                    Ok(key) => self.identity_of_parts(&certificate, authorities, &key),
                    Err(error) => {
                        let reason = error.to_string();
                        Some(
                            Err(
                                Error {
                                    kind: ErrorKind::IdentityPrivateKeyRead(reason),
                                    cause: Some(IdentityCause::OpenSsl(error)),
                                },
                            ),
                        )
                    },
                }
            },
        }
    }

    /// The identity that a TLS server with this certificate shows.
    ///
    /// There is no result where this text holds no certificate, and where
    /// OpenSSL cannot be handed the certificate, the private key, the password
    /// or the user name: the certificate's or the key's text or the encoding of
    /// the password is longer than [`MAX_LENGTH`], or there is a NUL character
    /// in the password or the user name.
    pub fn get_identity(&self) -> (r: IdentityResult)
        ensures
            identity_result(self@, r),
    {
        if self.cert.len() > MAX_LENGTH {
            return None;
        }
        match read_certificates(self.cert.as_slice()) {
            Ok(certificates) => self.identity_of_chain(certificates),
            Err(error) => Some(Err(Self::unusable(error))),
        }
    }
}

/// Without a private key there is no identity: the attempt ends with the error
/// of a missing key or, if OpenSSL fails before that, of an unusable
/// certificate.
pub proof fn law_no_identity_without_key(parts: PemCertificateView, r: IdentityResult)
    requires
        parts.key is None,
        identity_result(parts, r),
    ensures
        r matches Some(result) ==> (result matches Err(error) && (error.kind is IdentityPrivateKey
            || error.kind is IdentityCertificate)),
{
}

/// An attempt at an identity fails for four reasons only: the certificate is
/// unusable, there is no private key, the key cannot be read, or the archive
/// cannot be opened; the last two only if there is a key. Behind a missing key
/// there is no other error, behind the others there is one: of the TLS library
/// if the archive cannot be opened, else of OpenSSL.
pub proof fn law_identity_errors(parts: PemCertificateView, error: Error<IdentityCause>)
    requires
        identity_result(parts, Some(Err(error))),
    ensures
        match error.kind {
            ErrorKind::IdentityCertificate => error.cause matches Some(IdentityCause::OpenSsl(_)),
            ErrorKind::IdentityPrivateKey => error.cause is None && parts.key is None,
            ErrorKind::IdentityPrivateKeyRead(_) => error.cause matches Some(
                IdentityCause::OpenSsl(_),
            ) && parts.key is Some,
            ErrorKind::PKCS12Identity(_) => error.cause matches Some(IdentityCause::Tls(_))
                && parts.key is Some,
            _ => false,
        },
{
}

/// A certificate of the given parts has these parts, whole, and gives its PEM
/// format back as it was given.
pub proof fn law_certificate_keeps_its_parts(
    cert: Vec<u8>,
    key: Option<Vec<u8>>,
    username: Option<String>,
    password: Option<String>,
    certificate: PemCertificate,
    read_back: &[u8],
)
    requires
        call_ensures(PemCertificate::new, (cert, key, username, password), certificate),
        call_ensures(PemCertificate::get_certificate, (&certificate,), read_back),
    ensures
        read_back@ == cert@,
        certificate@.cert == cert@,
        match key {
            Some(key) => certificate@.key == Some(key@),
            None => certificate@.key is None,
        },
        match username {
            Some(username) => certificate@.username == Some(username@),
            None => certificate@.username is None,
        },
        match password {
            Some(password) => certificate@.password == Some(password@),
            None => certificate@.password is None,
        },
{
}

/// The key of a certificate is the whole private key that it is made of, however
/// long: the key itself in PEM format, or the UTF-8 encoding of the reference to
/// it. The PEM format is taken over whole, too. There is no user name and no
/// password.
pub proof fn law_private_key_is_taken_whole<E, F>(
    cert: Vec<u8>,
    pem: Vec<u8>,
    reference: String,
    with_key: Result<PemCertificate, Error<E>>,
    with_reference: Result<PemCertificate, Error<E>>,
    without: Result<PemCertificate, Error<E>>,
)
    requires
        call_ensures(
            PemCertificate::from::<E, F>,
            (Ok(cert), Ok(Some(PrivateKey::Key(KeyBytes::Pem(pem))))),
            with_key,
        ),
        call_ensures(
            PemCertificate::from::<E, F>,
            (Ok(cert), Ok(Some(PrivateKey::Ref(reference)))),
            with_reference,
        ),
        call_ensures(PemCertificate::from::<E, F>, (Ok(cert), Ok(None)), without),
    ensures
        with_key matches Ok(certificate) && certificate@.key == Some(pem@) && certificate@.cert
            == cert@ && certificate@.username is None && certificate@.password is None,
        with_reference matches Ok(certificate) && certificate@.key == Some(
            encode_utf8(reference@),
        ) && certificate@.cert == cert@ && certificate@.username is None
            && certificate@.password is None,
        without matches Ok(certificate) && certificate@.key is None && certificate@.cert == cert@
            && certificate@.username is None && certificate@.password is None,
{
}

/// A certificate that cannot say its PEM format is unusable, with the error
/// behind it, whatever it says of its key; one that cannot say its private key
/// has none to use.
pub proof fn law_certificate_without_its_parts<E, F>(
    cert: Vec<u8>,
    cause: E,
    private_key: Result<Option<PrivateKey>, F>,
    error: F,
    without_pem: Result<PemCertificate, Error<E>>,
    without_key: Result<PemCertificate, Error<E>>,
)
    requires
        call_ensures(PemCertificate::from::<E, F>, (Err(cause), private_key), without_pem),
        call_ensures(PemCertificate::from::<E, F>, (Ok(cert), Err(error)), without_key),
    ensures
        without_pem matches Err(e) && e.kind is IdentityCertificate && e.cause == Some(cause),
        without_key matches Err(e) && e.kind is IdentityPrivateKey && e.cause is None,
{
}

/// A copy of a certificate has the same parts.
pub proof fn law_copy_has_the_same_parts(certificate: PemCertificate, copy: PemCertificate)
    requires
        call_ensures(PemCertificate::clone, (&certificate,), copy),
    ensures
        copy@.cert == certificate@.cert,
        copy@.key == certificate@.key,
        copy@.username == certificate@.username,
        copy@.password == certificate@.password,
{
}

/// All octets of a certificate's PEM format are logged, and nothing else is.
pub proof fn law_log_shows_the_certificate(certificate: PemCertificate, r: String)
    requires
        call_ensures(PemCertificate::debug_text, (&certificate,), r),
    ensures
        r@ == "Certificate: "@ + list_text(certificate@.cert),
{
}

/// What comes of asking a certificate for its identity is what may come of its
/// parts; and what comes of certificates that have been read already is what may
/// come of all of them.
pub proof fn law_identity_of_the_parts(
    certificate: PemCertificate,
    certificates: Vec<X509>,
    of_chain: IdentityResult,
    of_text: IdentityResult,
)
    requires
        call_ensures(PemCertificate::identity_of_chain, (&certificate, certificates), of_chain),
        call_ensures(PemCertificate::get_identity, (&certificate,), of_text),
    ensures
        chain_result(certificate@, certificates@, of_chain),
        identity_result(certificate@, of_text),
{
}

/// However many certificates there are, if there is one, something comes of
/// them: an identity or an error. Only a key or a password that is too long for
/// OpenSSL, or a NUL character in the password or the user name, prevents that.
pub proof fn law_chain_has_result(
    parts: PemCertificateView,
    certificates: Seq<X509>,
    r: IdentityResult,
)
    requires
        chain_result(parts, certificates, r),
        certificates.len() > 0,
        parts.key matches Some(key) ==> key.len() <= 0x7fff_ffff,
        parts.password matches Some(password) ==> encode_utf8(password).len() <= 0x7fff_ffff && (
        forall|i: int| 0 <= i < password.len() ==> #[trigger] password[i] != '\0'),
        parts.username matches Some(name) ==> (forall|i: int|
            0 <= i < name.len() ==> #[trigger] name[i] != '\0'),
    ensures
        r is Some,
{
    assert(encode_utf8(Seq::<char>::empty()).len() == 0);
}

/// If the text of a certificate is read and holds a certificate at all, something
/// comes of it: an identity or an error. Only a certificate, a key or a password
/// that is too long for OpenSSL, or a NUL character in the password or the user
/// name, prevents that.
pub proof fn law_certificate_has_result(parts: PemCertificateView, r: IdentityResult)
    requires
        identity_result(parts, r),
        parts.cert.len() <= 0x7fff_ffff,
        parts.key matches Some(key) ==> key.len() <= 0x7fff_ffff,
        parts.password matches Some(password) ==> encode_utf8(password).len() <= 0x7fff_ffff && (
        forall|i: int| 0 <= i < password.len() ==> #[trigger] password[i] != '\0'),
        parts.username matches Some(name) ==> (forall|i: int|
            0 <= i < name.len() ==> #[trigger] name[i] != '\0'),
    ensures
        r is None ==> certificates_read(parts.cert, Ok(Seq::empty())),
{
    if r is None {
        let read = choose|read: Result<Seq<X509>, ErrorStack>| #[trigger]
            certificates_read(parts.cert, read) && match read {
                Ok(certificates) => chain_result(parts, certificates, r),
                Err(error) => certificate_unusable(r, error),
            };
        let certificates = read->Ok_0;
        if certificates.len() > 0 {
            law_chain_has_result(parts, certificates, r);
        }
        assert(certificates =~= Seq::empty());
    }
}

/// Nothing comes of no certificates, or of a certificate that is too long for
/// OpenSSL; and no identity comes of a key or a password that is too long, or of a
/// NUL character in the password or the user name, wherever it stands.
pub proof fn law_unfit_parts_give_no_identity(
    parts: PemCertificateView,
    certificates: Seq<X509>,
    of_chain: IdentityResult,
    of_text: IdentityResult,
)
    requires
        chain_result(parts, certificates, of_chain),
        identity_result(parts, of_text),
    ensures
        certificates.len() == 0 ==> of_chain is None,
        parts.cert.len() > 0x7fff_ffff ==> of_text is None,
        ({
            ||| parts.key matches Some(key) && key.len() > 0x7fff_ffff
            ||| parts.password matches Some(password) && encode_utf8(password).len() > 0x7fff_ffff
            ||| parts.password matches Some(password) && password.contains('\0')
            ||| parts.username matches Some(name) && name.contains('\0')
        }) ==> !(of_chain matches Some(Ok(_))) && !(of_text matches Some(Ok(_))),
{
}

/// An identity of certificates comes from an archive that was packed of the first
/// of them, the key, and all the others in their order, under the password and
/// named by the user name, or under and by the empty text. It was opened with the
/// empty password.
pub proof fn law_where_an_identity_of_a_chain_comes_from(
    parts: PemCertificateView,
    certificates: Seq<X509>,
    identity: Identity,
) -> (r: (PKey<Private>, Pkcs12, Seq<u8>))
    requires
        chain_result(parts, certificates, Some(Ok(identity))),
    ensures
        ({
            let (key, archive, der) = r;
            &&& certificates.len() > 0
            &&& parts.key matches Some(pem) && private_key_read(pem, Ok(key))
            &&& archive_built(
                certificates.skip(1),
                match parts.password {
                    Some(password) => password,
                    None => Seq::empty(),
                },
                match parts.username {
                    Some(name) => name,
                    None => Seq::empty(),
                },
                key,
                certificates[0],
                Ok(archive),
            )
            &&& archive_encoded(archive, Ok(der))
            &&& identity_opened(der, Seq::empty(), Ok(identity))
        }),
{
    let result: IdentityResult = Some(Ok(identity));
    let pem = parts.key->0;
    let key_read = choose|read: Result<PKey<Private>, ErrorStack>| #[trigger]
        private_key_read(pem, read) && match read {
            Ok(key) => packing_result(parts, certificates, key, result),
            Err(error) => exists|reason: String| #[trigger]
                to_string_from_display_ensures(&error, reason) && fails(
                    result,
                    ErrorKind::IdentityPrivateKeyRead(reason),
                    Some(IdentityCause::OpenSsl(error)),
                ),
        };
    let key = key_read->Ok_0;
    let built = choose|built: Result<Pkcs12, ErrorStack>| #[trigger]
        archive_built(
            certificates.skip(1),
            text_or_empty(parts.password),
            text_or_empty(parts.username),
            key,
            certificates[0],
            built,
        ) && match built {
            Ok(archive) => encoding_result(archive, result),
            Err(error) => certificate_unusable(result, error),
        };
    let archive = built->Ok_0;
    let encoded = choose|encoded: Result<Seq<u8>, ErrorStack>| #[trigger]
        archive_encoded(archive, encoded) && match encoded {
            Ok(der) => opening_result(der, result),
            Err(error) => certificate_unusable(result, error),
        };
    (key, archive, encoded->Ok_0)
}

/// An identity comes from an archive that was packed of the first certificate
/// of the text, the key, and the other certificates of the text in their order,
/// under the certificate's password and named by its user name. It was opened
/// with the empty password.
pub proof fn law_where_an_identity_comes_from(
    parts: PemCertificateView,
    identity: Identity,
) -> (r: (Seq<X509>, PKey<Private>, Pkcs12, Seq<u8>))
    requires
        identity_result(parts, Some(Ok(identity))),
    ensures
        ({
            let (certificates, key, archive, der) = r;
            &&& certificates_read(parts.cert, Ok(certificates))
            &&& certificates.len() > 0
            &&& parts.key matches Some(pem) && private_key_read(pem, Ok(key))
            &&& archive_built(
                certificates.skip(1),
                match parts.password {
                    Some(password) => password,
                    None => Seq::empty(),
                },
                match parts.username {
                    Some(name) => name,
                    None => Seq::empty(),
                },
                key,
                certificates[0],
                Ok(archive),
            )
            &&& archive_encoded(archive, Ok(der))
            &&& identity_opened(der, Seq::empty(), Ok(identity))
        }),
{
    let result: IdentityResult = Some(Ok(identity));
    let read = choose|read: Result<Seq<X509>, ErrorStack>| #[trigger]
        certificates_read(parts.cert, read) && match read {
            Ok(certificates) => chain_result(parts, certificates, result),
            Err(error) => certificate_unusable(result, error),
        };
    let certificates = read->Ok_0;
    let (key, archive, der) = law_where_an_identity_of_a_chain_comes_from(
        parts,
        certificates,
        identity,
    );
    (certificates, key, archive, der)
}

/// Certificates give an error only where a step failed, and with the error of
/// that step: where the stack of all but the first could not be made, the whole
/// key not be read, the archive of all of them not be packed, encoded or opened;
/// or where there is no key. What is returned is what the steps before gave.
pub proof fn law_failed_step_of_a_chain(
    parts: PemCertificateView,
    certificates: Seq<X509>,
    password: Seq<char>,
    name: Seq<char>,
    error: Error<IdentityCause>,
) -> (r: (PKey<Private>, Pkcs12, Seq<u8>))
    requires
        chain_result(parts, certificates, Some(Err(error))),
        password == match parts.password {
            Some(password) => password,
            None => Seq::empty(),
        },
        name == match parts.username {
            Some(name) => name,
            None => Seq::empty(),
        },
    ensures
        ({
            let (key, archive, der) = r;
            let authorities = certificates.skip(1);
            let first = certificates[0];
            match error.kind {
                ErrorKind::IdentityCertificate => {
                    &&& error.cause matches Some(IdentityCause::OpenSsl(cause))
                    &&& {
                        ||| stack_not_made(cause)
                        ||| exists|n: int|
                            1 <= n < certificates.len() && #[trigger] stack_not_grown(
                                certificates.subrange(1, n),
                                certificates[n],
                                cause,
                            )
                        ||| private_key_read(parts.key->0, Ok(key)) && archive_built(
                            authorities,
                            password,
                            name,
                            key,
                            first,
                            Err(cause),
                        )
                        ||| private_key_read(parts.key->0, Ok(key)) && archive_built(
                            authorities,
                            password,
                            name,
                            key,
                            first,
                            Ok(archive),
                        ) && archive_encoded(archive, Err(cause))
                    }
                },
                ErrorKind::IdentityPrivateKey => parts.key is None && error.cause is None,
                ErrorKind::IdentityPrivateKeyRead(reason) => {
                    &&& error.cause matches Some(IdentityCause::OpenSsl(cause))
                    &&& parts.key matches Some(pem) && private_key_read(pem, Err(cause))
                    &&& to_string_from_display_ensures(&cause, reason)
                },
                ErrorKind::PKCS12Identity(reason) => {
                    &&& error.cause matches Some(IdentityCause::Tls(cause))
                    &&& parts.key matches Some(pem) && private_key_read(pem, Ok(key))
                    &&& archive_built(authorities, password, name, key, first, Ok(archive))
                    &&& archive_encoded(archive, Ok(der))
                    &&& identity_opened(der, Seq::empty(), Err(cause))
                    &&& to_string_from_display_ensures(&cause, reason)
                },
                _ => false,
            }
        }),
{
    let result: IdentityResult = Some(Err(error));
    let pem = parts.key->0;
    let key_read = choose|read: Result<PKey<Private>, ErrorStack>| #[trigger]
        private_key_read(pem, read) && match read {
            Ok(key) => packing_result(parts, certificates, key, result),
            Err(error) => exists|reason: String| #[trigger]
                to_string_from_display_ensures(&error, reason) && fails(
                    result,
                    ErrorKind::IdentityPrivateKeyRead(reason),
                    Some(IdentityCause::OpenSsl(error)),
                ),
        };
    let key = key_read->Ok_0;
    let built = choose|built: Result<Pkcs12, ErrorStack>| #[trigger]
        archive_built(certificates.skip(1), password, name, key, certificates[0], built)
            && match built {
            Ok(archive) => encoding_result(archive, result),
            Err(error) => certificate_unusable(result, error),
        };
    let archive = built->Ok_0;
    let encoded = choose|encoded: Result<Seq<u8>, ErrorStack>| #[trigger]
        archive_encoded(archive, encoded) && match encoded {
            Ok(der) => opening_result(der, result),
            Err(error) => certificate_unusable(result, error),
        };
    (key, archive, encoded->Ok_0)
}

/// The text of a certificate gives an error only where it could not be read, with
/// the error of that, or where the certificates in it give one.
pub proof fn law_failed_step(parts: PemCertificateView, error: Error<IdentityCause>) -> (r: Result<
    Seq<X509>,
    ErrorStack,
>)
    requires
        identity_result(parts, Some(Err(error))),
    ensures
        certificates_read(parts.cert, r),
        match r {
            Ok(certificates) => certificates.len() > 0 && chain_result(
                parts,
                certificates,
                Some(Err(error)),
            ),
            Err(cause) => error.kind is IdentityCertificate && error.cause == Some(
                IdentityCause::OpenSsl(cause),
            ),
        },
{
    let result: IdentityResult = Some(Err(error));
    choose|read: Result<Seq<X509>, ErrorStack>| #[trigger]
        certificates_read(parts.cert, read) && match read {
            Ok(certificates) => chain_result(parts, certificates, result),
            Err(error) => certificate_unusable(result, error),
        }
}

/// Where no step can fail, certificates give an identity, however many there are:
/// the stack is made, the key is read, and the archive is packed, encoded and
/// opened. The key and the password are not too long for OpenSSL, and no NUL
/// character is in the password or the user name.
pub proof fn law_identity_if_every_step_succeeds(
    parts: PemCertificateView,
    certificates: Seq<X509>,
    pem: Seq<u8>,
    r: IdentityResult,
)
    requires
        chain_result(parts, certificates, r),
        certificates.len() > 0,
        parts.key == Some(pem),
        pem.len() <= 0x7fff_ffff,
        parts.password matches Some(password) ==> encode_utf8(password).len() <= 0x7fff_ffff && (
        forall|i: int| 0 <= i < password.len() ==> #[trigger] password[i] != '\0'),
        parts.username matches Some(name) ==> (forall|i: int|
            0 <= i < name.len() ==> #[trigger] name[i] != '\0'),
        forall|error: ErrorStack| !#[trigger] stack_not_made(error),
        forall|others: Seq<X509>, certificate: X509, error: ErrorStack|
            !#[trigger] stack_not_grown(others, certificate, error),
        forall|error: ErrorStack| !#[trigger] private_key_read(pem, Err(error)),
        forall|password: Seq<char>, name: Seq<char>, key: PKey<Private>, error: ErrorStack|
            !#[trigger] archive_built(
                certificates.skip(1),
                password,
                name,
                key,
                certificates[0],
                Err(error),
            ),
        forall|archive: Pkcs12, error: ErrorStack|
            !#[trigger] archive_encoded(archive, Err(error)),
        forall|der: Seq<u8>, error: native_tls::Error|
            !#[trigger] identity_opened(der, Seq::empty(), Err(error)),
    ensures
        r matches Some(Ok(_)),
{
    law_chain_has_result(parts, certificates, r);
    if let Some(Err(error)) = r {
        let (key, archive, der) = law_failed_step_of_a_chain(
            parts,
            certificates,
            text_or_empty(parts.password),
            text_or_empty(parts.username),
            error,
        );
    }
}

/// Where no step can fail, and the text that is read holds a certificate, the
/// text gives an identity. The certificate, the key and the password are not too
/// long for OpenSSL, and no NUL character is in the password or the user name.
pub proof fn law_certificate_gives_identity_if_every_step_succeeds(
    parts: PemCertificateView,
    pem: Seq<u8>,
    r: IdentityResult,
)
    requires
        identity_result(parts, r),
        parts.cert.len() <= 0x7fff_ffff,
        parts.key == Some(pem),
        pem.len() <= 0x7fff_ffff,
        parts.password matches Some(password) ==> encode_utf8(password).len() <= 0x7fff_ffff && (
        forall|i: int| 0 <= i < password.len() ==> #[trigger] password[i] != '\0'),
        parts.username matches Some(name) ==> (forall|i: int|
            0 <= i < name.len() ==> #[trigger] name[i] != '\0'),
        forall|error: ErrorStack| !#[trigger] certificates_read(parts.cert, Err(error)),
        !certificates_read(parts.cert, Ok(Seq::empty())),
        forall|error: ErrorStack| !#[trigger] stack_not_made(error),
        forall|others: Seq<X509>, certificate: X509, error: ErrorStack|
            !#[trigger] stack_not_grown(others, certificate, error),
        forall|error: ErrorStack| !#[trigger] private_key_read(pem, Err(error)),
        forall|
            authorities: Seq<X509>,
            password: Seq<char>,
            name: Seq<char>,
            key: PKey<Private>,
            certificate: X509,
            error: ErrorStack,
        |
            !#[trigger] archive_built(authorities, password, name, key, certificate, Err(error)),
        forall|archive: Pkcs12, error: ErrorStack|
            !#[trigger] archive_encoded(archive, Err(error)),
        forall|der: Seq<u8>, error: native_tls::Error|
            !#[trigger] identity_opened(der, Seq::empty(), Err(error)),
    ensures
        r matches Some(Ok(_)),
{
    law_certificate_has_result(parts, r);
    if let Some(Err(error)) = r {
        let read = law_failed_step(parts, error);
        law_identity_if_every_step_succeeds(parts, read->Ok_0, pem, r);
    }
}

} // verus!
