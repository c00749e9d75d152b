//! The `tls-server-end-point` channel binding of a TLS session: a digest of
//! the server's certificate, under the digest of the certificate's own
//! signature unless that digest is MD5 or SHA-1.

use vstd::prelude::*;
use openssl::hash::MessageDigest;
use openssl::nid::Nid;
use openssl::ssl::SslRef;
use openssl::x509::X509;
use crate::tls::ChannelBinding;

verus! {

#[verifier::external_type_specification]
#[verifier::external_body]
pub struct ExSslRef(openssl::ssl::SslRef);

/// OpenSSL's identifier of MD5.
pub const NID_MD5: i32 = 4;

/// OpenSSL's identifier of SHA-1.
pub const NID_SHA1: i32 = 64;

/// OpenSSL's identifier of SHA-256.
pub const NID_SHA256: i32 = 672;

/// The identifier of the digest under which the certificate encoded in
/// `der` is signed, as OpenSSL reads the certificate and finds its signature
/// algorithm in its table. `None` where `der` does not begin with a
/// certificate, or where the table does not hold the certificate's signature
/// algorithm. An algorithm that signs without a digest has the identifier 0.
pub uninterp spec fn certificate_signature_digest(der: Seq<u8>) -> Option<i32>;

/// Whether OpenSSL knows a digest by the identifier `digest`.
pub uninterp spec fn digest_known(digest: i32) -> bool;

/// The digest, under the algorithm identified by `digest`, of the
/// certificate encoded in `der`.
pub uninterp spec fn certificate_digest(der: Seq<u8>, digest: i32) -> Seq<u8>;

/// Whether `digest` is MD5 or SHA-1.
pub open spec fn is_legacy_digest(digest: i32) -> bool {
    digest == NID_MD5 || digest == NID_SHA1
}

/// The digest a certificate is bound under, given the digest of its
/// signature: SHA-256 in place of MD5 and SHA-1, otherwise the same one.
pub open spec fn binding_digest(signature_digest: i32) -> i32 {
    if is_legacy_digest(signature_digest) {
        NID_SHA256
    } else {
        signature_digest
    }
}

/// The digest that the certificate encoded in `der` is bound under: that of
/// its signature where OpenSSL knows it, and SHA-256 where that is MD5 or
/// SHA-1. `None` where the certificate has no signature digest that is one
/// of these.
pub open spec fn end_point_digest(der: Seq<u8>) -> Option<i32> {
    match certificate_signature_digest(der) {
        Some(digest) => if is_legacy_digest(digest) || digest_known(digest) {
            Some(binding_digest(digest))
        } else {
            None
        },
        None => None,
    }
}

/// Whether `binding` may be derived from a session whose peer presented
/// `certificate`: nothing without a certificate or without a digest to bind
/// it under; otherwise that digest of the certificate, or nothing where the
/// digest could not be computed.
pub open spec fn is_end_point_of(certificate: Option<Seq<u8>>, binding: Option<Seq<u8>>) -> bool {
    match certificate {
        None => binding is None,
        Some(der) => match end_point_digest(der) {
            None => binding is None,
            Some(digest) => binding matches Some(bytes) ==> bytes == certificate_digest(
                der,
                digest,
            ),
        },
    }
}

/// Whether the certificate encoded in `der` is signed under MD5 or SHA-1.
pub open spec fn signed_under_legacy_digest(der: Seq<u8>) -> bool {
    certificate_signature_digest(der) matches Some(digest) && is_legacy_digest(digest)
}

/// Whether the certificate encoded in `der` is signed under a digest that
/// is neither MD5 nor SHA-1 and that OpenSSL does not know.
pub open spec fn signed_under_unknown_digest(der: Seq<u8>) -> bool {
    certificate_signature_digest(der) matches Some(digest) && !is_legacy_digest(digest)
        && !digest_known(digest)
}

/// Whether `binding`, where it is one of a certificate signed under MD5 or
/// SHA-1, is the SHA-256 digest of that certificate.
pub open spec fn replaces_legacy_digest(
    certificate: Option<Seq<u8>>,
    binding: Option<Seq<u8>>,
) -> bool {
    match (certificate, binding) {
        (Some(der), Some(bytes)) => signed_under_legacy_digest(der) ==> bytes
            == certificate_digest(der, NID_SHA256),
        _ => true,
    }
}

/// Whether `binding` is nothing where `certificate` is signed under a digest
/// that OpenSSL does not know: SHA-256 stands in for MD5 and SHA-1 only.
pub open spec fn refuses_unknown_digest(
    certificate: Option<Seq<u8>>,
    binding: Option<Seq<u8>>,
) -> bool {
    match certificate {
        Some(der) => signed_under_unknown_digest(der) ==> binding is None,
        None => true,
    }
}

/// Calls `X509::from_der`, reads the certificate's signature algorithm with
/// `X509Ref::signature_algorithm`, `X509AlgorithmRef::object` and
/// `Asn1ObjectRef::nid`, and looks it up with `Nid::signature_algorithms`
/// for the digest's identifier. OpenSSL's table of signature algorithms is
/// fixed, so the result is a function of the bytes.
#[verifier::external_body]
fn read_signature_digest(der: &[u8]) -> (r: Option<i32>)
    ensures
        r == certificate_signature_digest(der@),
{
    match X509::from_der(der) {
        Ok(certificate) => {
            match certificate.signature_algorithm().object().nid().signature_algorithms() {
                Some(algorithms) => Some(algorithms.digest.as_raw()),
                None => None,
            }
        },
        Err(_) => None,
    }
}

/// Calls `MessageDigest::from_nid`, and says whether it found a digest.
#[verifier::external_body]
fn digest_is_known(digest: i32) -> (known: bool)
    ensures
        known == digest_known(digest),
{
    match MessageDigest::from_nid(Nid::from_raw(digest)) {
        Some(_) => true,
        None => false,
    }
}

/// Calls `X509Ref::digest` on the certificate that `X509::from_der` reads,
/// with the digest that `MessageDigest::from_nid` finds. Whether OpenSSL can
/// compute the digest is left open; the bytes, where it does, are the
/// digest of that certificate under that algorithm.
#[verifier::external_body]
fn digest_certificate(der: &[u8], digest: i32) -> (r: Option<Vec<u8>>)
    ensures
        r matches Some(bytes) ==> bytes@ == certificate_digest(der@, digest),
{
    match (MessageDigest::from_nid(Nid::from_raw(digest)), X509::from_der(der)) {
        (Some(algorithm), Ok(certificate)) => match certificate.digest(algorithm) {
            Ok(bytes) => Some(bytes.to_vec()),
            Err(_) => None,
        },
        _ => None,
    }
}

/// Calls `SslRef::peer_certificate` and encodes the certificate with
/// `X509Ref::to_der`. Nothing is claimed of the result: it is what the peer
/// sent in this session.
#[verifier::external_body]
fn peer_certificate(ssl: &SslRef) -> Option<Vec<u8>> {
    match ssl.peer_certificate() {
        Some(certificate) => match certificate.to_der() {
            Ok(der) => Some(der),
            Err(_) => None,
        },
        None => None,
    }
}

/// Chooses the digest to bind a certificate under from the digest of its
/// signature.
pub fn select_digest(signature_digest: i32) -> (digest: i32)
    ensures
        digest == binding_digest(signature_digest),
        digest != signature_digest <==> is_legacy_digest(signature_digest),
{
    if signature_digest == NID_MD5 || signature_digest == NID_SHA1 {
        NID_SHA256
    } else {
        signature_digest
    }
}

/// The bytes of an optional slice, as contracts speak of them.
pub open spec fn bytes_of(certificate: Option<&[u8]>) -> Option<Seq<u8>> {
    match certificate {
        Some(der) => Some(der@),
        None => None,
    }
}

/// The bytes of an optional vector, as contracts speak of them.
pub open spec fn vec_bytes_of(bytes: Option<Vec<u8>>) -> Option<Seq<u8>> {
    match bytes {
        Some(b) => Some(b@),
        None => None,
    }
}

/// Derives the bytes of the `tls-server-end-point` binding from the peer's
/// DER-encoded certificate: its digest under the digest of its signature,
/// and under SHA-256 where that is MD5 or SHA-1. Without a certificate,
/// with a signature digest that OpenSSL does not know, and wherever a step
/// on the way fails, the result is `None`, never an error.
pub fn tls_server_end_point(certificate: Option<&[u8]>) -> (binding: Option<Vec<u8>>)
    ensures
        is_end_point_of(bytes_of(certificate), vec_bytes_of(binding)),
        replaces_legacy_digest(bytes_of(certificate), vec_bytes_of(binding)),
        refuses_unknown_digest(bytes_of(certificate), vec_bytes_of(binding)),
        certificate is None ==> binding is None,
{
    let der = certificate?;
    let signature_digest = read_signature_digest(der)?;
    let digest = select_digest(signature_digest);
    let legacy = digest != signature_digest;
    if legacy || digest_is_known(digest) {
        digest_certificate(der, digest)
    } else {
        None
    }
}

/// Makes the channel binding of what was derived for a session: the binding
/// that holds exactly the derived bytes, and the empty binding where
/// nothing was derived.
pub fn binding_of(end_point: Option<Vec<u8>>) -> (binding: ChannelBinding)
    ensures
        binding@ == vec_bytes_of(end_point),
{
    match end_point {
        Some(bytes) => ChannelBinding::tls_server_end_point(bytes),
        None => ChannelBinding::none(),
    }
}

/// Derives the channel binding of an established session from the
/// certificate that the peer presented in it.
pub fn channel_binding(ssl: &SslRef) -> (binding: ChannelBinding)
    ensures
        exists|certificate: Option<Seq<u8>>| is_end_point_of(certificate, binding@),
{
    let certificate = peer_certificate(ssl);
    let end_point = match &certificate {
        Some(der) => tls_server_end_point(Some(der.as_slice())),
        None => tls_server_end_point(None),
    };
    assert(is_end_point_of(vec_bytes_of(certificate), vec_bytes_of(end_point)));
    binding_of(end_point)
}

} // verus!
