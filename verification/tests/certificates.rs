use edgelet_http::certificate::{IdentityCause, IdentityResult, KeyBytes, PrivateKey};
use edgelet_http::{Error, ErrorKind, PemCertificate};
use openssl::asn1::Asn1Time;
use openssl::ec::{EcGroup, EcKey};
use openssl::hash::MessageDigest;
use openssl::nid::Nid;
use openssl::pkey::{PKey, Private};
use openssl::x509::{X509Name, X509};

fn key() -> PKey<Private> {
    let group = EcGroup::from_curve_name(Nid::X9_62_PRIME256V1).unwrap();
    PKey::from_ec_key(EcKey::generate(&group).unwrap()).unwrap()
}

fn certificate(name: &str, key: &PKey<Private>) -> X509 {
    let mut subject = X509Name::builder().unwrap();
    subject.append_entry_by_nid(Nid::COMMONNAME, name).unwrap();
    let subject = subject.build();
    let mut builder = X509::builder().unwrap();
    builder.set_version(2).unwrap();
    builder.set_not_before(&Asn1Time::days_from_now(0).unwrap()).unwrap();
    builder.set_not_after(&Asn1Time::days_from_now(30).unwrap()).unwrap();
    builder.set_subject_name(&subject).unwrap();
    builder.set_issuer_name(&subject).unwrap();
    builder.set_pubkey(key).unwrap();
    builder.sign(key, MessageDigest::sha256()).unwrap();
    builder.build()
}

fn pem_of(key: &PKey<Private>) -> Vec<u8> {
    key.private_key_to_pem_pkcs8().unwrap()
}

fn chain(leaf: &PKey<Private>) -> Vec<u8> {
    let mut pem = certificate("leaf", leaf).to_pem().unwrap();
    pem.extend(certificate("authority", &key()).to_pem().unwrap());
    pem.extend(certificate("root", &key()).to_pem().unwrap());
    pem
}

/// OpenSSL could not use the certificate, and says why.
fn unusable(result: &IdentityResult) -> bool {
    match result {
        Some(Err(Error {
            kind: ErrorKind::IdentityCertificate,
            cause: Some(IdentityCause::OpenSsl(_)),
        })) => true,
        _ => false,
    }
}

/// There is no private key, and nothing else behind that.
fn keyless(result: &IdentityResult) -> bool {
    matches!(
        result,
        Some(Err(Error { kind: ErrorKind::IdentityPrivateKey, cause: None }))
    )
}

#[test]
fn a_certificate_has_the_parts_it_was_made_of() {
    let certificate = PemCertificate::new(vec![1, 2, 3], None, None, None);
    assert_eq!(certificate.get_certificate(), &[1, 2, 3]);
}

#[test]
fn a_certificate_is_made_of_what_another_says() {
    let made = PemCertificate::from::<(), ()>(Ok(vec![9]), Ok(None)).ok().unwrap();
    assert_eq!(made.get_certificate(), &[9]);
    let unreadable = PemCertificate::from::<&str, ()>(Err("no"), Ok(None)).err();
    assert_eq!(
        unreadable,
        Some(Error { kind: ErrorKind::IdentityCertificate, cause: Some("no") })
    );
    let keyless = PemCertificate::from::<(), &str>(Ok(vec![9]), Err("no")).err();
    assert_eq!(keyless, Some(Error { kind: ErrorKind::IdentityPrivateKey, cause: None }));
    let both = PemCertificate::from::<u8, u8>(Err(1), Err(2)).err();
    assert_eq!(both, Some(Error { kind: ErrorKind::IdentityCertificate, cause: Some(1) }));
}

#[test]
fn a_key_can_be_given_in_full_or_by_reference() {
    let leaf = key();
    let pem = pem_of(&leaf);
    let in_full = PrivateKey::Key(KeyBytes::Pem(pem.clone()));
    let made = PemCertificate::from::<(), ()>(Ok(chain(&leaf)), Ok(Some(in_full))).ok().unwrap();
    assert!(matches!(made.get_identity(), Some(Ok(_))));
    let reference = PrivateKey::Ref(String::from_utf8(pem).unwrap());
    let made = PemCertificate::from::<(), ()>(Ok(chain(&leaf)), Ok(Some(reference))).ok().unwrap();
    assert!(matches!(made.get_identity(), Some(Ok(_))));
}

#[test]
fn secrets_are_not_logged() {
    let text = "Certificate: [0, 9, 10, 99, 100, 255]";
    let cert = vec![0, 9, 10, 99, 100, 255];
    let plain = PemCertificate::new(cert.clone(), None, None, None);
    assert_eq!(plain.debug_text(), text);
    let secret = PemCertificate::new(
        cert.clone(),
        Some(vec![42]),
        Some("user".to_string()),
        Some("secret".to_string()),
    );
    assert_eq!(secret.debug_text(), text);
    assert_eq!(secret.clone().debug_text(), format!("Certificate: {:?}", cert));
    assert_eq!(PemCertificate::new(vec![], None, None, None).debug_text(), "Certificate: []");
    assert_eq!(PemCertificate::new(vec![7], None, None, None).debug_text(), "Certificate: [7]");
}

#[test]
fn a_certificate_with_its_key_is_an_identity() {
    let leaf = key();
    let alone = certificate("leaf", &leaf).to_pem().unwrap();
    for cert in [alone, chain(&leaf)] {
        let certificate = PemCertificate::new(cert, Some(pem_of(&leaf)), None, None);
        match certificate.get_identity() {
            Some(Ok(identity)) => assert!(native_tls::TlsAcceptor::new(identity).is_ok()),
            _ => panic!("expected an identity"),
        }
    }
}

#[test]
fn an_identity_may_have_a_user_name() {
    let leaf = key();
    let name = Some("user".to_string());
    let certificate = PemCertificate::new(chain(&leaf), Some(pem_of(&leaf)), name, None);
    assert!(matches!(certificate.get_identity(), Some(Ok(_))));
}

#[test]
fn an_archive_under_a_password_is_not_opened() {
    let leaf = key();
    let empty = Some(String::new());
    let certificate = PemCertificate::new(chain(&leaf), Some(pem_of(&leaf)), None, empty);
    assert!(matches!(certificate.get_identity(), Some(Ok(_))));
    let password = Some("password".to_string());
    let certificate = PemCertificate::new(chain(&leaf), Some(pem_of(&leaf)), None, password);
    match certificate.get_identity() {
        Some(Err(Error {
            kind: ErrorKind::PKCS12Identity(reason),
            cause: Some(IdentityCause::Tls(cause)),
        })) => assert_eq!(reason, cause.to_string()),
        _ => panic!("expected that the archive cannot be opened"),
    }
}

#[test]
fn there_is_no_identity_without_a_key() {
    let certificate = PemCertificate::new(chain(&key()), None, None, None);
    assert!(keyless(&certificate.get_identity()));
}

#[test]
fn an_unreadable_key_is_reported() {
    let certificate = PemCertificate::new(chain(&key()), Some(b"no key".to_vec()), None, None);
    match certificate.get_identity() {
        Some(Err(Error {
            kind: ErrorKind::IdentityPrivateKeyRead(reason),
            cause: Some(IdentityCause::OpenSsl(cause)),
        })) => assert_eq!(reason, cause.to_string()),
        _ => panic!("expected that the key cannot be read"),
    }
}

#[test]
fn an_unreadable_certificate_is_reported_first() {
    let broken = b"-----BEGIN CERTIFICATE-----\nnone\n-----END CERTIFICATE-----\n".to_vec();
    let certificate = PemCertificate::new(broken, None, None, None);
    assert!(unusable(&certificate.get_identity()));
}

#[test]
fn another_certificates_key_is_refused() {
    let certificate = PemCertificate::new(chain(&key()), Some(pem_of(&key())), None, None);
    assert!(unusable(&certificate.get_identity()));
}

#[test]
fn nothing_comes_of_no_certificate() {
    let certificate = PemCertificate::new(Vec::new(), Some(pem_of(&key())), None, None);
    assert!(certificate.get_identity().is_none());
    assert!(certificate.identity_of_chain(Vec::new()).is_none());
}

#[test]
fn nothing_comes_of_a_nul_character() {
    let leaf = key();
    let nul = Some("a\0b".to_string());
    let password = PemCertificate::new(chain(&leaf), Some(pem_of(&leaf)), None, nul.clone());
    assert!(password.get_identity().is_none());
    let name = PemCertificate::new(chain(&leaf), Some(pem_of(&leaf)), nul.clone(), None);
    assert!(name.get_identity().is_none());
    let without_key = PemCertificate::new(chain(&leaf), None, nul.clone(), nul);
    assert!(keyless(&without_key.get_identity()));
}

#[test]
fn certificates_that_were_read_make_an_identity() {
    let leaf = key();
    let certificate = PemCertificate::new(Vec::new(), Some(pem_of(&leaf)), None, None);
    let read = X509::stack_from_pem(&chain(&leaf)).unwrap();
    assert!(matches!(certificate.identity_of_chain(read), Some(Ok(_))));
    let mut misplaced = X509::stack_from_pem(&chain(&leaf)).unwrap();
    misplaced.reverse();
    assert!(unusable(&certificate.identity_of_chain(misplaced)));
}
