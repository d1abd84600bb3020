use certified_assets::certification::{
    body_digest, bytes_equal, check_certificate, check_response, public_key_to_der, check_certified_content, content_encoding, decode_body_to_sha256,
    validate_certification, ContentEncoding, DecompressionLimits,
};
use flate2::write::{DeflateEncoder, GzEncoder};
use flate2::Compression;
use ic_certification::{fork, labeled, leaf, Certificate, HashTree};
use sha2::{Digest, Sha256};
use std::io::Write;

const CANISTER: [u8; 10] = [0, 0, 0, 0, 0, 0, 0, 7, 1, 1];

fn sha(b: &[u8]) -> Vec<u8> {
    Sha256::digest(b).as_slice().to_vec()
}

fn gzip(b: &[u8]) -> Vec<u8> {
    let mut e = GzEncoder::new(Vec::new(), Compression::default());
    e.write_all(b).unwrap();
    e.finish().unwrap()
}

fn deflate(b: &[u8]) -> Vec<u8> {
    let mut e = DeflateEncoder::new(Vec::new(), Compression::default());
    e.write_all(b).unwrap();
    e.finish().unwrap()
}

/// A tree certifying `/` and, optionally, `/index.html`.
fn asset_tree(root: &[u8], index: Option<&[u8]>) -> HashTree {
    let root_leaf = labeled("/", leaf(sha(root)));
    let assets = match index {
        Some(i) => fork(root_leaf, labeled("/index.html", leaf(sha(i)))),
        None => root_leaf,
    };
    labeled("http_assets", assets)
}

fn certificate_for(witness: Vec<u8>) -> Vec<u8> {
    let tree = labeled(
        "canister",
        labeled(CANISTER.to_vec(), labeled("certified_data", leaf(witness))),
    );
    let cert = Certificate { tree, signature: vec![1, 2, 3], delegation: None };
    serde_cbor::to_vec(&cert).unwrap()
}

fn blobs(root: &[u8], index: Option<&[u8]>) -> (Vec<u8>, Vec<u8>) {
    let tree = asset_tree(root, index);
    let cert = certificate_for(tree.digest().to_vec());
    (cert, serde_cbor::to_vec(&tree).unwrap())
}

fn small_limits() -> DecompressionLimits {
    DecompressionLimits { chunk_size: 4, max_chunks: 8 }
}

#[test]
fn identity_digest_is_sha256() {
    let d = body_digest(b"abc", ContentEncoding::Identity, DecompressionLimits::standard()).unwrap();
    let expected: [u8; 32] = [
        0xba, 0x78, 0x16, 0xbf, 0x8f, 0x01, 0xcf, 0xea, 0x41, 0x41, 0x40, 0xde, 0x5d, 0xae, 0x22,
        0x23, 0xb0, 0x03, 0x61, 0xa3, 0x96, 0x17, 0x7a, 0x9c, 0xb4, 0x10, 0xff, 0x61, 0xf2, 0x00,
        0x15, 0xad,
    ];
    assert_eq!(d, expected);
}

#[test]
fn gzip_digest_hashes_decompressed_bytes() {
    let body = b"hello certified world".to_vec();
    let d = body_digest(&gzip(&body), ContentEncoding::Gzip, DecompressionLimits::standard()).unwrap();
    assert_eq!(d.to_vec(), sha(&body));
    assert_ne!(d.to_vec(), sha(&gzip(&body)));
}

#[test]
fn deflate_digest_hashes_decompressed_bytes() {
    let body = b"deflated content".to_vec();
    let d = body_digest(&deflate(&body), ContentEncoding::Deflate, DecompressionLimits::standard())
        .unwrap();
    assert_eq!(d.to_vec(), sha(&body));
}

#[test]
fn gzip_body_within_small_bound_is_accepted() {
    let body = vec![b'a'; 8];
    let d = body_digest(&gzip(&body), ContentEncoding::Gzip, small_limits()).unwrap();
    assert_eq!(d.to_vec(), sha(&body));
}

#[test]
fn gzip_body_beyond_bound_is_rejected() {
    let body = vec![b'a'; 33];
    assert_eq!(body_digest(&gzip(&body), ContentEncoding::Gzip, small_limits()), None);
}

#[test]
fn gzip_bomb_beyond_standard_bound_is_rejected() {
    let body = vec![0u8; 1024 * 10240 + 1];
    assert_eq!(decode_body_to_sha256(&gzip(&body), Some("gzip".to_string())), None);
}

#[test]
fn invalid_gzip_is_rejected() {
    assert_eq!(
        body_digest(b"not gzip at all", ContentEncoding::Gzip, DecompressionLimits::standard()),
        None
    );
    assert_eq!(decode_body_to_sha256(b"not gzip", Some("gzip".to_string())), None);
}

#[test]
fn unknown_encoding_hashes_body_as_is() {
    let d = decode_body_to_sha256(b"abc", Some("br".to_string())).unwrap();
    assert_eq!(d.to_vec(), sha(b"abc"));
    let d = decode_body_to_sha256(b"abc", None).unwrap();
    assert_eq!(d.to_vec(), sha(b"abc"));
}

#[test]
fn encodings_are_recognised() {
    assert_eq!(content_encoding(&Some("gzip".to_string())), ContentEncoding::Gzip);
    assert_eq!(content_encoding(&Some("deflate".to_string())), ContentEncoding::Deflate);
    assert_eq!(content_encoding(&Some("GZIP".to_string())), ContentEncoding::Identity);
    assert_eq!(content_encoding(&None), ContentEncoding::Identity);
}

#[test]
fn bytes_equal_compares_exactly() {
    assert!(bytes_equal(b"abc", b"abc"));
    assert!(!bytes_equal(b"abc", b"abd"));
    assert!(!bytes_equal(b"abc", b"ab"));
}

#[test]
fn certified_body_is_accepted() {
    let (cert, tree) = blobs(b"root page", Some(b"index page"));
    let ok = check_certified_content(
        &cert, &tree, &CANISTER, "/", b"root page", ContentEncoding::Identity,
        DecompressionLimits::standard(),
    );
    assert!(ok);
}

#[test]
fn certified_gzip_body_is_accepted() {
    let (cert, tree) = blobs(b"root page", None);
    let ok = check_certified_content(
        &cert, &tree, &CANISTER, "/", &gzip(b"root page"), ContentEncoding::Gzip,
        DecompressionLimits::standard(),
    );
    assert!(ok);
}

#[test]
fn wrong_body_is_rejected() {
    let (cert, tree) = blobs(b"root page", Some(b"index page"));
    let ok = check_certified_content(
        &cert, &tree, &CANISTER, "/", b"other page", ContentEncoding::Identity,
        DecompressionLimits::standard(),
    );
    assert!(!ok);
}

#[test]
fn mismatched_witness_is_rejected() {
    let tree = asset_tree(b"root page", None);
    let mut witness = tree.digest().to_vec();
    witness[0] ^= 1;
    let cert = certificate_for(witness);
    let ok = check_certified_content(
        &cert, &serde_cbor::to_vec(&tree).unwrap(), &CANISTER, "/", b"root page",
        ContentEncoding::Identity, DecompressionLimits::standard(),
    );
    assert!(!ok);
}

#[test]
fn other_canister_is_rejected() {
    let (cert, tree) = blobs(b"root page", None);
    let ok = check_certified_content(
        &cert, &tree, &[9, 9, 9], "/", b"root page", ContentEncoding::Identity,
        DecompressionLimits::standard(),
    );
    assert!(!ok);
}

#[test]
fn absent_path_falls_back_to_index() {
    let (cert, tree) = blobs(b"root page", Some(b"index page"));
    let ok = check_certified_content(
        &cert, &tree, &CANISTER, "/some/route", b"index page", ContentEncoding::Identity,
        DecompressionLimits::standard(),
    );
    assert!(ok);
    let ok = check_certified_content(
        &cert, &tree, &CANISTER, "/some/route", b"root page", ContentEncoding::Identity,
        DecompressionLimits::standard(),
    );
    assert!(!ok);
}

#[test]
fn absent_path_without_index_is_rejected() {
    let (cert, tree) = blobs(b"root page", None);
    let ok = check_certified_content(
        &cert, &tree, &CANISTER, "/zzz", b"root page", ContentEncoding::Identity,
        DecompressionLimits::standard(),
    );
    assert!(!ok);
}

#[test]
fn flipped_byte_is_rejected() {
    let (cert, tree) = blobs(b"root page", None);
    for i in 0..tree.len() {
        let mut t = tree.clone();
        t[i] ^= 0x55;
        let ok = check_certified_content(
            &cert, &t, &CANISTER, "/", b"root page", ContentEncoding::Identity,
            DecompressionLimits::standard(),
        );
        assert!(!ok, "byte {} of the tree", i);
    }
    for i in 0..cert.len() {
        let mut c = cert.clone();
        c[i] ^= 0x55;
        let ok = check_certified_content(
            &c, &tree, &CANISTER, "/", b"root page", ContentEncoding::Identity,
            DecompressionLimits::standard(),
        );
        // The signature bytes are not checked at this stage.
        if !ok {
            continue;
        }
        let cert_value: Certificate = serde_cbor::from_slice(&c).unwrap();
        assert_ne!(cert_value.signature, vec![1u8, 2, 3]);
    }
}

#[test]
fn undecodable_blobs_are_rejected() {
    let (cert, tree) = blobs(b"root page", None);
    assert!(!check_certified_content(
        b"garbage", &tree, &CANISTER, "/", b"root page", ContentEncoding::Identity,
        DecompressionLimits::standard(),
    ));
    assert!(!check_certified_content(
        &cert, b"garbage", &CANISTER, "/", b"root page", ContentEncoding::Identity,
        DecompressionLimits::standard(),
    ));
    assert!(!validate_certification(
        &b"garbage".to_vec(), &tree, &CANISTER, "/", b"root page", None, &[0u8; 96],
    ));
}

#[test]
fn unsigned_certificate_fails_validation() {
    let (cert, tree) = blobs(b"root page", None);
    assert!(!validate_certification(&cert, &tree, &CANISTER, "/", b"root page", None, &[0u8; 96]));
}

#[test]
fn repeated_checks_agree() {
    let (cert, tree) = blobs(b"root page", Some(b"index page"));
    for (path, body) in [("/", &b"root page"[..]), ("/x", &b"index page"[..]), ("/", &b"nope"[..])] {
        let a = check_certified_content(
            &cert, &tree, &CANISTER, path, body, ContentEncoding::Identity,
            DecompressionLimits::standard(),
        );
        let b = check_certified_content(
            &cert, &tree, &CANISTER, path, body, ContentEncoding::Identity,
            DecompressionLimits::standard(),
        );
        assert_eq!(a, b);
    }
}

#[test]
fn large_gzip_body_within_ceiling_gets_digest() {
    let body: Vec<u8> = (0..300_000u32).map(|i| (i % 251) as u8).collect();
    let d = decode_body_to_sha256(&gzip(&body), Some("gzip".to_string())).unwrap();
    assert_eq!(d.to_vec(), sha(&body));
    let d = decode_body_to_sha256(&deflate(&body), Some("deflate".to_string())).unwrap();
    assert_eq!(d.to_vec(), sha(&body));
}

#[test]
fn raw_key_gets_der_prefix() {
    let key = [7u8; 96];
    let der = public_key_to_der(&key).unwrap();
    assert_eq!(der.len(), 133);
    assert_eq!(&der[..5], &[0x30, 0x81, 0x82, 0x30, 0x1d]);
    assert_eq!(&der[34..37], &[0x03, 0x61, 0x00]);
    assert_eq!(&der[37..], &key[..]);
    assert_eq!(public_key_to_der(&[1u8; 95]), None);
}

#[test]
fn wrong_key_length_fails_validation() {
    let (cert, tree) = blobs(b"root page", None);
    assert!(!validate_certification(&cert, &tree, &CANISTER, "/", b"root page", None, &[0u8; 133]));
}

#[test]
fn unsigned_certificate_is_not_valid() {
    let (cert, tree) = blobs(b"root page", None);
    assert_ne!(check_certificate(&cert, &CANISTER, &[0u8; 96]), Some(true));
    assert_eq!(check_certificate(b"garbage", &CANISTER, &[0u8; 96]), Some(false));
    assert_eq!(check_certificate(&cert, &[0u8; 30], &[0u8; 96]), Some(false));
    assert_eq!(check_certificate(&cert, &CANISTER, &[0u8; 95]), Some(false));
    assert_ne!(check_response(&cert, &tree, &CANISTER, "/", b"root page", &None, &[0u8; 96]), Some(true));
    assert_eq!(check_response(b"garbage", &tree, &CANISTER, "/", b"root page", &None, &[0u8; 96]), Some(false));
}
