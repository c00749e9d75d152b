use openssl::asn1::Asn1Time;
use openssl::bn::BigNum;
use openssl::ec::{EcGroup, EcKey};
use openssl::hash::{hash, MessageDigest};
use openssl::nid::Nid;
use openssl::pkey::{PKey, Private};
use openssl::rsa::Rsa;
use openssl::ssl::{Ssl, SslContext, SslMethod};
use openssl::x509::{X509NameBuilder, X509};
use pg_connect::binding::{select_digest, NID_MD5, NID_SHA1, NID_SHA256};
use pg_connect::{binding_of, channel_binding, tls_server_end_point, ChannelBinding};

fn rsa_key() -> PKey<Private> {
    PKey::from_rsa(Rsa::generate(2048).unwrap()).unwrap()
}

fn ec_key() -> PKey<Private> {
    let group = EcGroup::from_curve_name(Nid::X9_62_PRIME256V1).unwrap();
    PKey::from_ec_key(EcKey::generate(&group).unwrap()).unwrap()
}

/// The DER encoding of a new self-signed certificate, signed under `digest`.
fn certificate(key: &PKey<Private>, digest: MessageDigest) -> Vec<u8> {
    let mut name = X509NameBuilder::new().unwrap();
    name.append_entry_by_text("CN", "localhost").unwrap();
    let name = name.build();
    let mut builder = X509::builder().unwrap();
    builder.set_version(2).unwrap();
    builder.set_subject_name(&name).unwrap();
    builder.set_issuer_name(&name).unwrap();
    builder.set_pubkey(key).unwrap();
    builder.set_not_before(&Asn1Time::days_from_now(0).unwrap()).unwrap();
    builder.set_not_after(&Asn1Time::days_from_now(30).unwrap()).unwrap();
    let serial = BigNum::from_u32(1).unwrap().to_asn1_integer().unwrap();
    builder.set_serial_number(&serial).unwrap();
    builder.sign(key, digest).unwrap();
    builder.build().to_der().unwrap()
}

fn digest_of(digest: MessageDigest, der: &[u8]) -> Vec<u8> {
    hash(digest, der).unwrap().to_vec()
}

#[test]
fn identifiers_are_those_of_openssl() {
    assert_eq!(NID_MD5, Nid::MD5.as_raw());
    assert_eq!(NID_SHA1, Nid::SHA1.as_raw());
    assert_eq!(NID_SHA256, Nid::SHA256.as_raw());
}

#[test]
fn legacy_digests_are_replaced_by_sha256() {
    assert_eq!(select_digest(4), 672);
    assert_eq!(select_digest(64), 672);
    assert_eq!(select_digest(Nid::MD5.as_raw()), Nid::SHA256.as_raw());
    assert_eq!(select_digest(Nid::SHA1.as_raw()), Nid::SHA256.as_raw());
}

#[test]
fn other_digests_are_kept() {
    assert_eq!(select_digest(672), 672);
    assert_eq!(select_digest(Nid::SHA384.as_raw()), Nid::SHA384.as_raw());
    assert_eq!(select_digest(Nid::SHA512.as_raw()), Nid::SHA512.as_raw());
    assert_eq!(select_digest(Nid::SHA224.as_raw()), Nid::SHA224.as_raw());
    assert_eq!(select_digest(Nid::MD5_SHA1.as_raw()), Nid::MD5_SHA1.as_raw());
    assert_eq!(select_digest(0), 0);
    assert_eq!(select_digest(-1), -1);
    assert_eq!(select_digest(i32::MAX), i32::MAX);
}

#[test]
fn no_certificate_gives_no_binding() {
    assert_eq!(tls_server_end_point(None), None);
}

#[test]
fn bytes_that_are_no_certificate_give_no_binding() {
    assert_eq!(tls_server_end_point(Some(&[])), None);
    assert_eq!(tls_server_end_point(Some(&[0x30, 0x03, 0x02, 0x01, 0x00])), None);
    assert_eq!(tls_server_end_point(Some(b"not a certificate")), None);
}

#[test]
fn sha1_signed_certificate_is_bound_under_sha256() {
    let der = certificate(&rsa_key(), MessageDigest::sha1());
    let binding = tls_server_end_point(Some(&der)).unwrap();
    assert_eq!(binding, digest_of(MessageDigest::sha256(), &der));
    assert_ne!(binding, digest_of(MessageDigest::sha1(), &der));
    assert_eq!(binding.len(), 32);
}

#[test]
fn md5_signed_certificate_is_bound_under_sha256() {
    let der = certificate(&rsa_key(), MessageDigest::md5());
    let binding = tls_server_end_point(Some(&der)).unwrap();
    assert_eq!(binding, digest_of(MessageDigest::sha256(), &der));
    assert_ne!(binding, digest_of(MessageDigest::md5(), &der));
}

#[test]
fn ecdsa_sha1_signed_certificate_is_bound_under_sha256() {
    let der = certificate(&ec_key(), MessageDigest::sha1());
    assert_eq!(tls_server_end_point(Some(&der)), Some(digest_of(MessageDigest::sha256(), &der)));
}

#[test]
fn sha256_signed_certificate_is_bound_under_sha256() {
    let der = certificate(&rsa_key(), MessageDigest::sha256());
    assert_eq!(tls_server_end_point(Some(&der)), Some(digest_of(MessageDigest::sha256(), &der)));
}

#[test]
fn sha384_signed_certificate_is_bound_under_sha384() {
    let der = certificate(&ec_key(), MessageDigest::sha384());
    let binding = tls_server_end_point(Some(&der)).unwrap();
    assert_eq!(binding, digest_of(MessageDigest::sha384(), &der));
    assert_eq!(binding.len(), 48);
}

#[test]
fn sha512_signed_certificate_is_bound_under_sha512() {
    let der = certificate(&rsa_key(), MessageDigest::sha512());
    let binding = tls_server_end_point(Some(&der)).unwrap();
    assert_eq!(binding, digest_of(MessageDigest::sha512(), &der));
    assert_eq!(binding.len(), 64);
}

#[test]
fn signature_without_a_digest_gives_no_binding() {
    let key = PKey::generate_ed25519().unwrap();
    let der = certificate(&key, MessageDigest::null());
    assert_eq!(tls_server_end_point(Some(&der)), None);
}

#[test]
fn session_without_a_peer_certificate_has_no_binding() {
    let context = SslContext::builder(SslMethod::tls()).unwrap().build();
    let ssl = Ssl::new(&context).unwrap();
    assert_eq!(channel_binding(&ssl), ChannelBinding::none());
}

#[test]
fn derived_bytes_give_the_binding_that_holds_them() {
    assert_eq!(
        binding_of(Some(vec![0x01, 0x02, 0xff])),
        ChannelBinding::tls_server_end_point(vec![0x01, 0x02, 0xff])
    );
    assert_eq!(binding_of(Some(vec![9, 8, 7])).into_bytes(), Some(vec![9, 8, 7]));
    assert_eq!(binding_of(Some(vec![])).into_bytes(), Some(vec![]));
}

#[test]
fn nothing_derived_gives_the_empty_binding() {
    assert_eq!(binding_of(None), ChannelBinding::none());
    assert_eq!(binding_of(None).into_bytes(), None);
}

#[test]
fn binding_of_a_certificate_is_the_binding_of_its_end_point() {
    let der = certificate(&ec_key(), MessageDigest::sha256());
    assert_eq!(
        binding_of(tls_server_end_point(Some(&der))),
        ChannelBinding::tls_server_end_point(digest_of(MessageDigest::sha256(), &der))
    );
    let key = PKey::generate_ed25519().unwrap();
    let unbound = certificate(&key, MessageDigest::null());
    assert_eq!(binding_of(tls_server_end_point(Some(&unbound))), ChannelBinding::none());
}
