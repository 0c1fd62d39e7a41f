use std::cell::RefCell;
use std::collections::VecDeque;
use std::io::{self, Read, Write};
use std::rc::Rc;

use openssl::asn1::Asn1Time;
use openssl::bn::BigNum;
use openssl::ec::{EcGroup, EcKey};
use openssl::hash::MessageDigest;
use openssl::nid::Nid;
use openssl::pkey::{PKey, Private};
use openssl::rsa::Rsa;
use openssl::ssl::{HandshakeError, Ssl, SslContext, SslMethod, SslStream, SslVerifyMode};
use openssl::x509::extension::SubjectAlternativeName;
use openssl::x509::{X509Builder, X509Name, X509NameBuilder, X509};

use tls_inspect::Certificate;

/// One direction of an in-memory byte channel: reads from `inbox`, writes to `outbox`.
#[derive(Debug)]
struct Pipe {
    inbox: Rc<RefCell<VecDeque<u8>>>,
    outbox: Rc<RefCell<VecDeque<u8>>>,
}

impl Read for Pipe {
    fn read(&mut self, buf: &mut [u8]) -> io::Result<usize> {
        let mut q = self.inbox.borrow_mut();
        if q.is_empty() {
            return Err(io::ErrorKind::WouldBlock.into());
        }
        let n = buf.len().min(q.len());
        for b in buf[..n].iter_mut() {
            *b = q.pop_front().unwrap();
        }
        Ok(n)
    }
}

impl Write for Pipe {
    fn write(&mut self, buf: &[u8]) -> io::Result<usize> {
        self.outbox.borrow_mut().extend(buf.iter().copied());
        Ok(buf.len())
    }

    fn flush(&mut self) -> io::Result<()> {
        Ok(())
    }
}

fn name(entries: &[(Nid, &str)]) -> X509Name {
    let mut b = X509NameBuilder::new().unwrap();
    for (nid, value) in entries {
        b.append_entry_by_nid(*nid, value).unwrap();
    }
    b.build()
}

struct Spec<'a> {
    subject: X509Name,
    issuer: X509Name,
    serial: &'a str,
    not_before: Asn1Time,
    not_after: Asn1Time,
    sans: &'a [&'a str],
}

fn build(spec: Spec, key: &PKey<Private>, digest: MessageDigest) -> X509 {
    let mut b = X509Builder::new().unwrap();
    b.set_version(2).unwrap();
    let serial = BigNum::from_dec_str(spec.serial).unwrap();
    b.set_serial_number(&serial.to_asn1_integer().unwrap()).unwrap();
    b.set_subject_name(&spec.subject).unwrap();
    b.set_issuer_name(&spec.issuer).unwrap();
    b.set_pubkey(key).unwrap();
    b.set_not_before(&spec.not_before).unwrap();
    b.set_not_after(&spec.not_after).unwrap();
    if !spec.sans.is_empty() {
        let mut san = SubjectAlternativeName::new();
        for dns in spec.sans {
            san.dns(dns);
        }
        let ext = san.build(&b.x509v3_context(None, None)).unwrap();
        b.append_extension(ext).unwrap();
    }
    b.sign(key, digest).unwrap();
    b.build()
}

fn rsa_key() -> PKey<Private> {
    PKey::from_rsa(Rsa::generate(2048).unwrap()).unwrap()
}

fn p384_key() -> PKey<Private> {
    let group = EcGroup::from_curve_name(Nid::SECP384R1).unwrap();
    PKey::from_ec_key(EcKey::generate(&group).unwrap()).unwrap()
}

fn days_ago(days: i64) -> Asn1Time {
    let now = std::time::SystemTime::now()
        .duration_since(std::time::UNIX_EPOCH)
        .unwrap()
        .as_secs() as i64;
    Asn1Time::from_unix(now - days * 86400).unwrap()
}

/// Completes a TLS handshake in memory between a client configured as the
/// inspector configures it and a server presenting `leaf` (with `extra` after
/// it), and returns the client's side.
fn handshake(host: &str, leaf: &X509, key: &PKey<Private>, extra: &[X509]) -> SslStream<Pipe> {
    let to_client = Rc::new(RefCell::new(VecDeque::new()));
    let to_server = Rc::new(RefCell::new(VecDeque::new()));
    let client_io = Pipe { inbox: to_client.clone(), outbox: to_server.clone() };
    let server_io = Pipe { inbox: to_server, outbox: to_client };

    let mut server_ctx = SslContext::builder(SslMethod::tls()).unwrap();
    server_ctx.set_certificate(leaf).unwrap();
    server_ctx.set_private_key(key).unwrap();
    for c in extra {
        server_ctx.add_extra_chain_cert(c.clone()).unwrap();
    }
    let server_ctx = server_ctx.build();
    let mut client_ctx = SslContext::builder(SslMethod::tls()).unwrap();
    client_ctx.set_verify(SslVerifyMode::empty());
    let client_ctx = client_ctx.build();

    let mut client = Ssl::new(&client_ctx).unwrap();
    client.set_hostname(host).unwrap();
    let server = Ssl::new(&server_ctx).unwrap();

    let mut client = match client.connect(client_io) {
        Ok(stream) => return stream,
        Err(HandshakeError::WouldBlock(mid)) => mid,
        Err(e) => panic!("client handshake: {}", e),
    };
    let mut server = match server.accept(server_io) {
        Ok(_) => None,
        Err(HandshakeError::WouldBlock(mid)) => Some(mid),
        Err(e) => panic!("server handshake: {}", e),
    };
    for _ in 0..16 {
        client = match client.handshake() {
            Ok(stream) => return stream,
            Err(HandshakeError::WouldBlock(mid)) => mid,
            Err(e) => panic!("client handshake: {}", e),
        };
        if let Some(mid) = server.take() {
            server = match mid.handshake() {
                Ok(_) => None,
                Err(HandshakeError::WouldBlock(mid)) => Some(mid),
                Err(e) => panic!("server handshake: {}", e),
            };
        }
    }
    panic!("handshake did not complete");
}

#[test]
fn test_check_tls_for_expired_host() {
    let host = "expired.badssl.com";
    let key = rsa_key();
    let leaf = build(
        Spec {
            subject: name(&[
                (Nid::ORGANIZATIONALUNITNAME, "Domain Control Validated"),
                (Nid::ORGANIZATIONALUNITNAME, "PositiveSSL Wildcard"),
                (Nid::COMMONNAME, "*.badssl.com"),
            ]),
            issuer: name(&[
                (Nid::COUNTRYNAME, "GB"),
                (Nid::STATEORPROVINCENAME, "Greater Manchester"),
                (Nid::LOCALITYNAME, "Salford"),
                (Nid::ORGANIZATIONNAME, "COMODO CA Limited"),
                (Nid::COMMONNAME, "COMODO RSA Domain Validation Secure Server CA"),
            ]),
            serial: "99565320202650452861752791156765321481",
            not_before: Asn1Time::from_str("20150409000000Z").unwrap(),
            not_after: Asn1Time::from_str("20150412235959Z").unwrap(),
            sans: &["*.badssl.com", "badssl.com"],
        },
        &key,
        MessageDigest::sha256(),
    );
    let stream = handshake(host, &leaf, &key, &[]);
    let cert = Certificate::from(host, stream.ssl()).unwrap();
    println!("Expired: {}", cert.is_expired);
    assert!(cert.is_expired);
    assert_eq!(cert.cert_alg, "sha256WithRSAEncryption");
    assert_eq!(cert.subject.common_name.as_deref(), Some("*.badssl.com"));
    assert_eq!(cert.subject.organization, None);
    assert_eq!(
        cert.issued.common_name.as_deref(),
        Some("COMODO RSA Domain Validation Secure Server CA")
    );
    assert!(cert.validity_days < 0);
    assert_eq!(cert.cert_sn, "99565320202650452861752791156765321481");
    assert_eq!(cert.cert_ver, "2");
    assert_eq!(cert.hostname, host)
}

fn lets_encrypt_intermediate(cn: &str, key: &PKey<Private>, digest: MessageDigest) -> X509 {
    build(
        Spec {
            subject: name(&[
                (Nid::COUNTRYNAME, "US"),
                (Nid::ORGANIZATIONNAME, "Let's Encrypt"),
                (Nid::COMMONNAME, cn),
            ]),
            issuer: name(&[
                (Nid::COUNTRYNAME, "US"),
                (Nid::ORGANIZATIONNAME, "Internet Security Research Group"),
                (Nid::COMMONNAME, "ISRG Root X1"),
            ]),
            serial: "1",
            not_before: days_ago(300),
            not_after: days_ago(-600),
            sans: &[],
        },
        key,
        digest,
    )
}

#[test]
fn test_check_tls_for_valid_host() {
    let host = "jpbd.dev";
    let key = p384_key();
    let leaf = build(
        Spec {
            subject: name(&[(Nid::COMMONNAME, host)]),
            issuer: name(&[
                (Nid::COUNTRYNAME, "US"),
                (Nid::ORGANIZATIONNAME, "Let's Encrypt"),
                (Nid::COMMONNAME, "E1"),
            ]),
            serial: "331820145325187462925437596367128746390317",
            not_before: days_ago(30),
            not_after: days_ago(-60),
            sans: &["jpbd.dev", "www.jpbd.dev"],
        },
        &key,
        MessageDigest::sha384(),
    );
    let intermediate = lets_encrypt_intermediate("E1", &key, MessageDigest::sha384());
    let stream = handshake(host, &leaf, &key, &[intermediate]);
    let cert = Certificate::from(host, stream.ssl()).unwrap();
    println!("Expired: {}", cert.is_expired);
    assert!(!cert.is_expired);
    assert_eq!(cert.cert_alg, "ecdsa-with-SHA384");
    assert_eq!(cert.subject.common_name.as_deref(), Some(host));
    assert_eq!(cert.subject.organization, None);
    assert_eq!(cert.issued.common_name.as_deref(), Some("E1"));
    assert!(cert.validity_days > 0);
    assert!(!cert.cert_sn.is_empty());
    assert_eq!(cert.cert_ver, "2");
    assert_eq!(cert.sans.len(), 2);
    assert_eq!(cert.hostname, host);
    assert!(!cert.chain.unwrap().is_empty());
}

#[test]
fn test_check_tls_for_valid_host_without_sans() {
    let host = "acme-staging-v02.api.letsencrypt.org";
    let key = rsa_key();
    let leaf = build(
        Spec {
            subject: name(&[(Nid::COMMONNAME, "acme-staging-v02.api.letsencrypt.org")]),
            issuer: name(&[
                (Nid::COUNTRYNAME, "US"),
                (Nid::ORGANIZATIONNAME, "Let's Encrypt"),
                (Nid::COMMONNAME, "R3"),
            ]),
            serial: "308093466417541866466853367361497353463081",
            not_before: days_ago(20),
            not_after: days_ago(-70),
            sans: &["acme-staging-v02.api.letsencrypt.org"],
        },
        &key,
        MessageDigest::sha256(),
    );
    let intermediate = lets_encrypt_intermediate("R3", &key, MessageDigest::sha256());
    let stream = handshake(host, &leaf, &key, &[intermediate]);
    let cert = Certificate::from(host, stream.ssl()).unwrap();
    assert!(!cert.is_expired);
    assert!(cert.validity_days > 0);
    assert!(!cert.sans.is_empty());

    assert_eq!(cert.subject.country_or_region, None);
    assert_eq!(cert.subject.state_or_province, None);
    assert_eq!(cert.subject.locality, None);
    assert_eq!(cert.subject.organization_unit, None);
    assert_eq!(cert.subject.organization, None);
    assert!(cert.subject.common_name.is_some_and(|cn| !cn.is_empty()));

    assert_eq!(cert.issued.common_name.as_deref(), Some("R3"));
    assert_eq!(cert.issued.organization.as_deref(), Some("Let's Encrypt"));
    assert_eq!(cert.issued.country_or_region.as_deref(), Some("US"));
    assert_eq!(cert.hostname, host);

    assert!(!cert.chain.unwrap().is_empty());
}

#[test]
fn presented_chain_starts_with_the_leaf() {
    let host = "chain.example";
    let key = p384_key();
    let leaf = build(
        Spec {
            subject: name(&[(Nid::COMMONNAME, host)]),
            issuer: name(&[(Nid::COMMONNAME, "E1")]),
            serial: "77",
            not_before: days_ago(1),
            not_after: days_ago(-10),
            sans: &[],
        },
        &key,
        MessageDigest::sha384(),
    );
    let intermediate = lets_encrypt_intermediate("E1", &key, MessageDigest::sha384());
    let stream = handshake(host, &leaf, &key, &[intermediate]);
    let cert = Certificate::from(host, stream.ssl()).unwrap();
    let chain = cert.chain.unwrap();
    assert_eq!(chain.len(), 2);
    assert_eq!(chain[0].subject, cert.subject.common_name);
    assert_eq!(chain[0].issuer, cert.issued.common_name);
    assert_eq!(chain[0].valid_to, cert.valid_to);
    assert_eq!(chain[0].signature_algorithm, "ecdsa-with-SHA384");
    assert_eq!(chain[1].subject.as_deref(), Some("E1"));
    assert_eq!(chain[1].issuer.as_deref(), Some("ISRG Root X1"));
    assert!(cert.sans.is_empty());
    assert_eq!(cert.cert_sn, "77");
    assert_eq!(cert.validity_hours, cert.validity_days * 24);
}
