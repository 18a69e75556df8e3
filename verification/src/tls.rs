//! OpenSSL and TLS identities, as far as this crate calls them.
//!
//! OpenSSL may ask for a passphrase, it salts what it encrypts, and what it
//! supports depends on the machine. So what its functions return is not a
//! function of what they are given. For each of them there is a relation
//! between what it is given and what it may return; no more is claimed of the
//! relation than that it holds of what came back.

use native_tls::{Error as NativeTlsError, Identity};
use openssl::error::ErrorStack;
use openssl::pkcs12::Pkcs12;
use openssl::pkey::{PKey, Private};
use openssl::stack::Stack;
use openssl::x509::X509;
use vstd::prelude::*;
#[allow(unused_imports)]
use vstd::utf8::encode_utf8;

verus! {

/// `openssl::x509::X509`, a certificate. Nothing is claimed of what is in it.
#[verifier::external_type_specification]
#[verifier::external_body]
pub struct ExX509(X509);

/// `openssl::pkey::Private`, the mark of a private key.
#[verifier::external_type_specification]
#[verifier::external_body]
pub struct ExPrivate(Private);

/// `openssl::pkey::PKey`, a key. Nothing is claimed of what is in it.
#[verifier::external_type_specification]
#[verifier::external_body]
#[verifier::reject_recursive_types(T)]
pub struct ExPKey<T>(PKey<T>);

/// `openssl::error::ErrorStack`, what OpenSSL says of a failure.
#[verifier::external_type_specification]
#[verifier::external_body]
pub struct ExErrorStack(ErrorStack);

/// `openssl::pkcs12::Pkcs12`, an archive. Nothing is claimed of what is in it.
#[verifier::external_type_specification]
#[verifier::external_body]
pub struct ExPkcs12(Pkcs12);

/// `native_tls::Identity`, a TLS identity. Nothing is claimed of what is in it.
#[verifier::external_type_specification]
#[verifier::external_body]
pub struct ExIdentity(Identity);

/// `native_tls::Error`, why there is no TLS identity.
#[verifier::external_type_specification]
#[verifier::external_body]
pub struct ExTlsError(NativeTlsError);

/// The greatest length that OpenSSL takes for a text or a buffer.
pub const MAX_LENGTH: usize = 0x7fff_ffff;

/// There is no NUL character in the text, so it can be handed over as a C
/// string.
pub open spec fn nul_free(text: Seq<char>) -> bool {
    forall|i: int| 0 <= i < text.len() ==> #[trigger] text[i] != '\0'
}

/// The text can be the password of an archive.
pub open spec fn is_password(text: Seq<char>) -> bool {
    nul_free(text) && encode_utf8(text).len() <= MAX_LENGTH
}

/// Whether there is no NUL character in the text.
pub(crate) fn is_nul_free(text: &str) -> (r: bool)
    ensures
        r == nul_free(text@),
{
    for c in it: text.chars()
        invariant
            it.seq() == text@,
            forall|i: int| 0 <= i < it.index() ==> #[trigger] text@[i] != '\0',
    {
        if c == '\0' {
            assert(text@[it.index()] == '\0');
            return false;
        }
    }
    true
}

/// `X509::stack_from_pem` may return `outcome` for `pem`.
pub uninterp spec fn certificates_read(
    pem: Seq<u8>,
    outcome: Result<Seq<X509>, ErrorStack>,
) -> bool;

/// Calls `X509::stack_from_pem`, which reads all certificates of a PEM text in
/// their order, and gives an error where one cannot be read. A text without
/// certificates gives none and no error. An encrypted one makes OpenSSL ask for
/// a passphrase at the terminal. It panics on a text longer than [`MAX_LENGTH`].
#[verifier::external_body]
pub(crate) fn read_certificates(pem: &[u8]) -> (r: Result<Vec<X509>, ErrorStack>)
    requires
        pem@.len() <= MAX_LENGTH,
    ensures
        match r {
            Ok(certificates) => certificates_read(pem@, Ok(certificates@)),
            Err(error) => certificates_read(pem@, Err(error)),
        },
{
    X509::stack_from_pem(pem)
}

/// `PKey::private_key_from_pem` may return `outcome` for `pem`.
pub uninterp spec fn private_key_read(
    pem: Seq<u8>,
    outcome: Result<PKey<Private>, ErrorStack>,
) -> bool;

/// Calls `PKey::private_key_from_pem`, which reads a private key. An encrypted
/// one makes OpenSSL ask for a passphrase at the terminal. It panics on a text
/// longer than [`MAX_LENGTH`].
#[verifier::external_body]
pub(crate) fn read_private_key(pem: &[u8]) -> (r: Result<PKey<Private>, ErrorStack>)
    requires
        pem@.len() <= MAX_LENGTH,
    ensures
        private_key_read(pem@, r),
{
    PKey::private_key_from_pem(pem)
}

/// Certificates of authorities, in the stack in which OpenSSL takes them.
#[verifier::external_body]
pub struct CaStack {
    stack: Stack<X509>,
}

/// The certificates on a stack, from the bottom to the top.
pub uninterp spec fn stacked(stack: CaStack) -> Seq<X509>;

/// `Stack::new` may fail with `error`.
pub uninterp spec fn stack_not_made(error: ErrorStack) -> bool;

/// `StackRef::push` may fail with `error` for a certificate on top of others.
pub uninterp spec fn stack_not_grown(
    others: Seq<X509>,
    certificate: X509,
    error: ErrorStack,
) -> bool;

impl CaStack {
    /// Calls `Stack::new`, which makes an empty stack.
    #[verifier::external_body]
    pub(crate) fn new() -> (r: Result<CaStack, ErrorStack>)
        ensures
            match r {
                Ok(stack) => stacked(stack) == Seq::<X509>::empty(),
                Err(error) => stack_not_made(error),
            },
    {
        Ok(CaStack { stack: Stack::new()? })
    }

    /// Calls `StackRef::push`, which puts a certificate on top of the stack.
    #[verifier::external_body]
    pub(crate) fn push(&mut self, certificate: X509) -> (r: Result<(), ErrorStack>)
        ensures
            match r {
                Ok(()) => stacked(*final(self)) == stacked(*old(self)).push(certificate),
                Err(error) => stack_not_grown(stacked(*old(self)), certificate, error),
            },
    {
        self.stack.push(certificate)
    }
}

/// `Pkcs12Builder::build` may return `outcome` for a builder that was given
/// these authorities, with this password, friendly name, key and certificate.
pub uninterp spec fn archive_built(
    authorities: Seq<X509>,
    password: Seq<char>,
    friendly_name: Seq<char>,
    key: PKey<Private>,
    certificate: X509,
    outcome: Result<Pkcs12, ErrorStack>,
) -> bool;

/// Calls `Pkcs12::builder`, gives the builder the authorities
/// (`Pkcs12Builder::ca`) and calls `Pkcs12Builder::build`, which packs all of
/// them into an archive under the password. It panics on a password or a name
/// with a NUL character, and on a password whose encoding is longer than
/// [`MAX_LENGTH`].
#[allow(deprecated)]
#[verifier::external_body]
pub(crate) fn build_archive(
    authorities: CaStack,
    password: &str,
    friendly_name: &str,
    key: &PKey<Private>,
    certificate: &X509,
) -> (r: Result<Pkcs12, ErrorStack>)
    requires
        is_password(password@),
        nul_free(friendly_name@),
    ensures
        archive_built(stacked(authorities), password@, friendly_name@, *key, *certificate, r),
{
    let mut builder = Pkcs12::builder();
    builder.ca(authorities.stack);
    builder.build(password, friendly_name, key, certificate)
}

/// `Pkcs12Ref::to_der` may return `outcome` for an archive.
pub uninterp spec fn archive_encoded(
    archive: Pkcs12,
    outcome: Result<Seq<u8>, ErrorStack>,
) -> bool;

/// Calls `Pkcs12Ref::to_der`, which encodes an archive.
#[verifier::external_body]
pub(crate) fn encode_archive(archive: &Pkcs12) -> (r: Result<Vec<u8>, ErrorStack>)
    ensures
        match r {
            Ok(der) => archive_encoded(*archive, Ok(der@)),
            Err(error) => archive_encoded(*archive, Err(error)),
        },
{
    archive.to_der()
}

/// `Identity::from_pkcs12` may return `outcome` for an encoded archive and a
/// password.
pub uninterp spec fn identity_opened(
    der: Seq<u8>,
    password: Seq<char>,
    outcome: Result<Identity, NativeTlsError>,
) -> bool;

/// Calls `Identity::from_pkcs12`, which opens an archive with a password and
/// takes the identity out. It panics on a password with a NUL character. What
/// the identity consists of is left unsaid: OpenSSL alone sees into an archive.
#[verifier::external_body]
pub(crate) fn open_identity(der: &[u8], password: &str) -> (r: Result<
    Identity,
    NativeTlsError,
>)
    requires
        nul_free(password@),
    ensures
        identity_opened(der@, password@, r),
{
    Identity::from_pkcs12(der, password)
}

} // verus!
