//! Checking that an HTTP response body is the content that a canister
//! certified for the requested path.
//!
//! The check runs in stages, each a hard precondition of the next: the
//! certificate and the hash tree decode; the certificate verifies against the
//! root key for the canister; the certified data of the canister equals the
//! tree's root hash; the requested path (or, failing that, `/index.html`)
//! resolves to a content digest in the tree; and the body, decompressed under
//! a bound, hashes to that digest.
use crate::bindings::{
    cbor_certificate, certificate_authentic, deflate_reads_left, deflate_reads_needed,
    gz_reads_left, gz_reads_needed, cbor_tree, certificate_lookup, decode_certificate, decode_tree,
    deflate_pending, deflate_read, digest_of_tree, gunzip, gz_pending, gz_read, hasher_finalize,
    hasher_input, hasher_update, inflate, lookup_in_certificate, lookup_in_tree, new_agent,
    new_deflate_decoder, new_gz_decoder, new_hasher, principal_from_bytes, set_root_key, sha256,
    tree_digest, tree_lookup, verify_certificate, CertificateValue, Lookup, LookupOutcome,
    TreeValue,
};
use crate::assets::append_bytes;
use flate2::read::{DeflateDecoder, GzDecoder};
use vstd::prelude::*;
use vstd::slice::slice_subrange;
use vstd::string::StringSliceAdditionalSpecFns;

verus! {

/// The size of the buffer that decompressed output is pulled into.
pub const MAX_CHUNK_SIZE_TO_DECOMPRESS: usize = 1024;

/// The most chunks pulled from a decompressor before the body is rejected
/// (about 10 MB with the default chunk size).
pub const MAX_CHUNKS_TO_DECOMPRESS: u64 = 10_240;

/// The bound on decompression: the buffer size and the number of chunks.
#[derive(Clone, Copy, Debug)]
pub struct DecompressionLimits {
    pub chunk_size: usize,
    pub max_chunks: u64,
}

impl DecompressionLimits {
    /// The limits used by `validate_certification`.
    pub fn standard() -> (r: DecompressionLimits)
        ensures
            r.chunk_size == MAX_CHUNK_SIZE_TO_DECOMPRESS,
            r.max_chunks == MAX_CHUNKS_TO_DECOMPRESS,
    {
        DecompressionLimits {
            chunk_size: MAX_CHUNK_SIZE_TO_DECOMPRESS,
            max_chunks: MAX_CHUNKS_TO_DECOMPRESS,
        }
    }
}

/// The transport compression declared for a body.
#[derive(Debug, PartialEq, Eq, Structural, Clone, Copy)]
pub enum ContentEncoding {
    Identity,
    Gzip,
    Deflate,
}

/// The encoding that a declared `Content-Encoding` value stands for; any
/// value other than `gzip` or `deflate` leaves the body as it is.
pub open spec fn encoding_of(e: Option<Seq<char>>) -> ContentEncoding {
    match e {
        Some(s) => if s == "gzip"@ {
            ContentEncoding::Gzip
        } else if s == "deflate"@ {
            ContentEncoding::Deflate
        } else {
            ContentEncoding::Identity
        },
        None => ContentEncoding::Identity,
    }
}

/// The view of an optional declared encoding.
pub open spec fn encoding_view(e: Option<String>) -> Option<Seq<char>> {
    match e {
        Some(s) => Some(s@),
        None => None,
    }
}

/// The bytes that a body stands for once its declared compression is
/// reversed; `None` where the body is not a valid stream of that kind.
pub open spec fn decompressed(body: Seq<u8>, e: ContentEncoding) -> Option<Seq<u8>> {
    match e {
        ContentEncoding::Identity => Some(body),
        ContentEncoding::Gzip => gunzip(body),
        ContentEncoding::Deflate => inflate(body),
    }
}

/// The bytes of the label under which certified assets are stored.
pub open spec fn assets_label() -> Seq<u8> {
    "http_assets".spec_bytes()
}

/// The path that stands in for a path that the tree does not certify.
pub open spec fn fallback_path() -> Seq<u8> {
    "/index.html".spec_bytes()
}

/// The path of a canister's certified data in a certificate.
pub open spec fn witness_path(canister_id: Seq<u8>) -> Seq<Seq<u8>> {
    seq!["canister".spec_bytes(), canister_id, "certified_data".spec_bytes()]
}

/// The content digest that a tree certifies for a path: the value at the
/// path itself, or, where the path is absent or unknown, the value at the
/// fallback path.
pub open spec fn expected_digest(t: TreeValue, path: Seq<u8>) -> Option<Seq<u8>> {
    match tree_lookup(t, seq![assets_label(), path]) {
        Lookup::Found(d) => Some(d),
        Lookup::Absent | Lookup::Unknown => match tree_lookup(t, seq![assets_label(), fallback_path()]) {
            Lookup::Found(d) => Some(d),
            _ => None,
        },
        Lookup::Error => None,
    }
}

/// The certificate vouches for the tree: the canister's certified data is
/// the tree's root hash.
pub open spec fn tree_is_certified(c: CertificateValue, t: TreeValue, canister_id: Seq<u8>) -> bool {
    certificate_lookup(c, witness_path(canister_id)) == Some(tree_digest(t))
}

/// The body, once decompressed, hashes to the digest certified for the path.
pub open spec fn body_matches(t: TreeValue, path: Seq<u8>, body: Seq<u8>, e: ContentEncoding) -> bool {
    &&& expected_digest(t, path) is Some
    &&& decompressed(body, e) is Some
    &&& sha256(decompressed(body, e)->0) == expected_digest(t, path)->0
}

/// Everything that a valid response needs besides the certificate's
/// signature: both blobs decode, the tree is certified, and the body matches.
pub open spec fn content_certified(
    certificate: Seq<u8>,
    tree: Seq<u8>,
    canister_id: Seq<u8>,
    path: Seq<u8>,
    body: Seq<u8>,
    e: ContentEncoding,
) -> bool {
    &&& cbor_certificate(certificate) is Some
    &&& cbor_tree(tree) is Some
    &&& tree_is_certified(cbor_certificate(certificate)->0, cbor_tree(tree)->0, canister_id)
    &&& body_matches(cbor_tree(tree)->0, path, body, e)
}

/// The decompressed body is short enough that every decompressor must have
/// delivered it within the chunk limit.
pub open spec fn surely_within_bound(body: Seq<u8>, e: ContentEncoding, limits: DecompressionLimits) -> bool {
    e == ContentEncoding::Identity || (decompressed(body, e) is Some && decompressed(body, e)->0.len()
        <= limits.max_chunks)
}

/// How many non-empty chunks of `cap` bytes the decompressor of a body
/// delivers before the end of its output; `None` where it fails first.
pub open spec fn reads_needed(body: Seq<u8>, e: ContentEncoding, cap: nat) -> Option<nat> {
    match e {
        ContentEncoding::Identity => Some(0),
        ContentEncoding::Gzip => gz_reads_needed(body, cap),
        ContentEncoding::Deflate => deflate_reads_needed(body, cap),
    }
}

/// The body is uncompressed, or its decompressor delivers its whole output
/// within the chunk limit.
pub open spec fn within_ceiling(body: Seq<u8>, e: ContentEncoding, limits: DecompressionLimits) -> bool {
    reads_needed(body, e, limits.chunk_size as nat) matches Some(k) && k <= limits.max_chunks
}

/// The decompressed body is longer than the chunk limit can ever hold.
pub open spec fn beyond_bound(body: Seq<u8>, e: ContentEncoding, limits: DecompressionLimits) -> bool {
    &&& e != ContentEncoding::Identity
    &&& decompressed(body, e) is Some
    &&& decompressed(body, e)->0.len() > limits.chunk_size as int * limits.max_chunks as int
}

/// What a digest computation under `limits` returns for a body: a digest
/// exactly when decompression ends within the chunk limit, and then the
/// digest of the whole decompressed output.
pub open spec fn digest_outcome(
    r: Option<Seq<u8>>,
    body: Seq<u8>,
    e: ContentEncoding,
    limits: DecompressionLimits,
) -> bool {
    &&& (r is Some <==> within_ceiling(body, e, limits))
    &&& (r matches Some(d) ==> decompressed(body, e) is Some && d == sha256(decompressed(body, e)->0))
    &&& (decompressed(body, e) is None ==> r is None)
    &&& (beyond_bound(body, e, limits) ==> r is None)
    &&& (decompressed(body, e) is Some && surely_within_bound(body, e, limits) ==> r is Some)
}

/// What `check_certified_content` returns: exactly whether the content is
/// certified and its decompression stays within the chunk limit.
pub open spec fn content_check_outcome(
    r: bool,
    certificate: Seq<u8>,
    tree: Seq<u8>,
    canister_id: Seq<u8>,
    path: Seq<u8>,
    body: Seq<u8>,
    e: ContentEncoding,
    limits: DecompressionLimits,
) -> bool {
    &&& (r == (content_certified(certificate, tree, canister_id, path, body, e) && within_ceiling(
        body,
        e,
        limits,
    )))
    &&& (content_certified(certificate, tree, canister_id, path, body, e) && surely_within_bound(
        body,
        e,
        limits,
    ) ==> r)
    &&& (beyond_bound(body, e, limits) ==> !r)
}

/// The view of an optional digest.
pub open spec fn digest_view(r: Option<[u8; 32]>) -> Option<Seq<u8>> {
    match r {
        Some(d) => Some(d@),
        None => None,
    }
}

/// The encoding named by a declared `Content-Encoding` value.
pub fn content_encoding(e: &Option<String>) -> (r: ContentEncoding)
    ensures
        r == encoding_of(encoding_view(*e)),
{
    proof {
        reveal_strlit("gzip");
        reveal_strlit("deflate");
    }
    match e {
        Some(s) => {
            let gzip = "gzip".to_owned();
            let deflate = "deflate".to_owned();
            if s.eq(&gzip) {
                ContentEncoding::Gzip
            } else if s.eq(&deflate) {
                ContentEncoding::Deflate
            } else {
                ContentEncoding::Identity
            }
        },
        None => ContentEncoding::Identity,
    }
}

/// Whether two byte strings are equal.
pub fn bytes_equal(a: &[u8], b: &[u8]) -> (r: bool)
    ensures
        r == (a@ == b@),
{
    if a.len() != b.len() {
        return false;
    }
    let mut i: usize = 0;
    while i < a.len()
        invariant
            a@.len() == b@.len(),
            i <= a@.len(),
            forall|j: int| 0 <= j < i ==> a@[j] == b@[j],
        decreases a@.len() - i,
    {
        if a[i] != b[i] {
            return false;
        }
        i = i + 1;
    }
    assert(a@ =~= b@);
    true
}


/// A streaming decompressor over a body.
pub enum Decompressor<'a> {
    Gzip(GzDecoder<&'a [u8]>),
    Deflate(DeflateDecoder<&'a [u8]>),
}

/// The output that a decompressor has yet to deliver before its stream ends
/// cleanly, `None` where it will report an error first.
pub open spec fn pending(d: Decompressor) -> Option<Seq<u8>> {
    match d {
        Decompressor::Gzip(g) => gz_pending(g),
        Decompressor::Deflate(f) => deflate_pending(f),
    }
}

/// How many more non-empty reads into a buffer of `cap` bytes a
/// decompressor delivers before it reports the end of its output; `None`
/// where it reports an error first.
pub open spec fn reads_left(d: Decompressor, cap: nat) -> Option<nat> {
    match d {
        Decompressor::Gzip(g) => gz_reads_left(g, cap),
        Decompressor::Deflate(f) => deflate_reads_left(f, cap),
    }
}

/// Reads the next chunk of a decompressor's output into the front of `buf`;
/// `None` where the stream is found invalid.
fn read_chunk(d: &mut Decompressor, buf: &mut Vec<u8>) -> (r: Option<usize>)
    requires
        old(buf)@.len() > 0,
    ensures
        final(buf)@.len() == old(buf)@.len(),
        r is None ==> pending(*old(d)) is None,
        r is Some && pending(*old(d)) is None ==> pending(*final(d)) is None,
        r matches Some(n) ==> n <= old(buf)@.len(),
        r matches Some(n) ==> (pending(*old(d)) matches Some(p) ==> (n <= p.len()
            && final(buf)@.subrange(0, n as int) == p.subrange(0, n as int)
            && pending(*final(d)) == Some(p.subrange(n as int, p.len() as int)))),
        r == Some(0usize) ==> pending(*old(d)) == Some(Seq::<u8>::empty()),
        ({
            let cap = old(buf)@.len() as nat;
            &&& (reads_left(*old(d), cap) matches Some(k) ==> r is Some && (k == 0 <==> r == Some(
                0usize,
            )))
            &&& (reads_left(*old(d), cap) matches Some(k) ==> k > 0 ==> reads_left(*final(d), cap)
                == Some((k - 1) as nat))
            &&& (reads_left(*old(d), cap) is None && r is Some ==> r != Some(0usize) && reads_left(
                *final(d),
                cap,
            ) is None)
        }),
{
    match d {
        Decompressor::Gzip(g) => gz_read(g, buf),
        Decompressor::Deflate(f) => deflate_read(f, buf),
    }
}

/// The SHA-256 digest of a decompressor's output, pulled in chunks of
/// `limits.chunk_size` bytes. After `limits.max_chunks` non-empty chunks the
/// output must be at its end, or the result is `None`.
fn chunked_digest(d: Decompressor, limits: DecompressionLimits) -> (r: Option<[u8; 32]>)
    requires
        limits.chunk_size > 0,
    ensures
        r is Some <==> (reads_left(d, limits.chunk_size as nat) matches Some(k) && k
            <= limits.max_chunks),
        r matches Some(x) ==> pending(d) matches Some(out) && x@ == sha256(out),
        pending(d) is None ==> r is None,
        pending(d) matches Some(out) && out.len() > limits.chunk_size as int
            * limits.max_chunks as int ==> r is None,
        pending(d) matches Some(out) && out.len() <= limits.max_chunks ==> r is Some,
{
    let ghost start = d;
    let ghost cap = limits.chunk_size as nat;
    let mut decoder = d;
    let mut hasher = new_hasher();
    let mut buf: Vec<u8> = vec![0u8; limits.chunk_size];
    let mut i: u64 = 0;
    while i < limits.max_chunks
        invariant
            limits.chunk_size > 0,
            start == d,
            cap == limits.chunk_size as nat,
            buf@.len() == limits.chunk_size,
            i <= limits.max_chunks,
            pending(start) is None ==> pending(decoder) is None,
            pending(start) matches Some(out) ==> (pending(decoder) matches Some(p) && out
                == hasher_input(hasher) + p),
            hasher_input(hasher).len() <= i as int * limits.chunk_size as int,
            pending(start) is Some ==> hasher_input(hasher).len() >= i,
            reads_left(start, cap) matches Some(k) ==> k >= i && reads_left(decoder, cap) == Some(
                (k - i) as nat,
            ),
            reads_left(start, cap) is None ==> reads_left(decoder, cap) is None,
        decreases limits.max_chunks - i,
    {
        let ghost before = decoder;
        let n = match read_chunk(&mut decoder, &mut buf) {
            Some(n) => n,
            None => {
                assert(reads_left(before, cap) is None);
                return None;
            },
        };
        if n == 0 {
            proof {
                assert(pending(before) == Some(Seq::<u8>::empty()));
                assert(reads_left(before, cap) is Some);

                assert(i as int * limits.chunk_size as int <= limits.max_chunks as int
                    * limits.chunk_size as int) by (nonlinear_arith)
                    requires
                        i <= limits.max_chunks,
                ;
                if let Some(out) = pending(start) {
                    assert(out =~= hasher_input(hasher));
                }
            }
            return Some(hasher_finalize(hasher));
        }
        hasher_update(&mut hasher, slice_subrange(buf.as_slice(), 0, n));
        proof {
            assert((i as int + 1) * limits.chunk_size as int == i as int * limits.chunk_size as int
                + limits.chunk_size as int) by (nonlinear_arith);
            if let Some(out) = pending(start) {
                let p = pending(decoder)->0;
                assert(out =~= hasher_input(hasher) + p);
            }
        }
        i = i + 1;
    }
    // Output still pending after the last chunk means the bound is exceeded.
    let ghost before = decoder;
    match read_chunk(&mut decoder, &mut buf) {
        Some(0) => {
            proof {
                assert(i as int * limits.chunk_size as int <= limits.max_chunks as int
                    * limits.chunk_size as int) by (nonlinear_arith)
                    requires
                        i <= limits.max_chunks,
                ;
                if let Some(out) = pending(start) {
                    assert(out =~= hasher_input(hasher));
                }
            }
            Some(hasher_finalize(hasher))
        },
        _ => {
            proof {
                if let Some(out) = pending(start) {
                    assert(out.len() == hasher_input(hasher).len() + pending(before)->0.len());
                    assert(out.len() > limits.max_chunks);
                }
            }
            None
        },
    }
}

/// The SHA-256 digest of a body after its declared compression is reversed,
/// or `None` where decompression fails or exceeds `limits`.
pub fn body_digest(body: &[u8], encoding: ContentEncoding, limits: DecompressionLimits) -> (r:
    Option<[u8; 32]>)
    requires
        limits.chunk_size > 0,
    ensures
        digest_outcome(digest_view(r), body@, encoding, limits),
{
    match encoding {
        ContentEncoding::Identity => {
            let mut hasher = new_hasher();
            hasher_update(&mut hasher, body);
            assert(hasher_input(hasher) =~= body@);
            Some(hasher_finalize(hasher))
        },
        ContentEncoding::Gzip => {
            let g = new_gz_decoder(body);
            assert(gz_reads_left(g, limits.chunk_size as nat) == gz_reads_needed(
                body@,
                limits.chunk_size as nat,
            ));
            chunked_digest(Decompressor::Gzip(g), limits)
        },
        ContentEncoding::Deflate => {
            let f = new_deflate_decoder(body);
            assert(deflate_reads_left(f, limits.chunk_size as nat) == deflate_reads_needed(
                body@,
                limits.chunk_size as nat,
            ));
            chunked_digest(Decompressor::Deflate(f), limits)
        },
    }
}

/// The SHA-256 digest of a body under its declared `Content-Encoding` and the
/// standard decompression bound.
pub fn decode_body_to_sha256(body: &[u8], encoding: Option<String>) -> (r: Option<[u8; 32]>)
    ensures
        digest_outcome(
            digest_view(r),
            body@,
            encoding_of(encoding_view(encoding)),
            DecompressionLimits { chunk_size: MAX_CHUNK_SIZE_TO_DECOMPRESS, max_chunks: MAX_CHUNKS_TO_DECOMPRESS },
        ),
{
    body_digest(body, content_encoding(&encoding), DecompressionLimits::standard())
}

/// The content digest that the tree certifies for `uri_path`, falling back
/// to `/index.html` where the path is absent or unknown.
pub fn resolve_expected_digest(tree: &TreeValue, uri_path: &[u8]) -> (r: Option<Vec<u8>>)
    ensures
        r is Some == expected_digest(*tree, uri_path@) is Some,
        r is Some ==> r->0@ == expected_digest(*tree, uri_path@)->0,
{
    let assets = "http_assets".as_bytes();
    match lookup_in_tree(tree, assets, uri_path) {
        LookupOutcome::Found(v) => Some(v),
        LookupOutcome::Absent | LookupOutcome::Unknown => {
            match lookup_in_tree(tree, assets, "/index.html".as_bytes()) {
                LookupOutcome::Found(v) => Some(v),
                _ => None,
            }
        },
        LookupOutcome::Error => None,
    }
}

/// Whether the response content is certified, given that the certificate's
/// signature has been checked: both blobs decode, the canister's certified
/// data equals the tree's root hash, and the body matches the digest that the
/// tree certifies for the path.
pub fn check_certified_content(
    certificate_blob: &[u8],
    tree_blob: &[u8],
    canister_id: &[u8],
    uri_path: &str,
    body: &[u8],
    encoding: ContentEncoding,
    limits: DecompressionLimits,
) -> (r: bool)
    requires
        limits.chunk_size > 0,
    ensures
        content_check_outcome(
            r,
            certificate_blob@,
            tree_blob@,
            canister_id@,
            uri_path.spec_bytes(),
            body@,
            encoding,
            limits,
        ),
{
    let cert = match decode_certificate(certificate_blob) {
        Some(c) => c,
        None => return false,
    };
    let tree = match decode_tree(tree_blob) {
        Some(t) => t,
        None => return false,
    };
    let witness = match lookup_in_certificate(
        &cert,
        "canister".as_bytes(),
        canister_id,
        "certified_data".as_bytes(),
    ) {
        Some(w) => w,
        None => return false,
    };
    let digest = digest_of_tree(&tree);
    if !bytes_equal(witness.as_slice(), digest.as_slice()) {
        return false;
    }
    let expected = match resolve_expected_digest(&tree, uri_path.as_bytes()) {
        Some(d) => d,
        None => return false,
    };
    match body_digest(body, encoding, limits) {
        Some(actual) => bytes_equal(actual.as_slice(), expected.as_slice()),
        None => false,
    }
}

/// The DER prefix of a BLS12-381 threshold public key.
pub const THRESHOLD_KEY_DER_PREFIX: [u8; 37] = [
    0x30, 0x81, 0x82, 0x30, 0x1d, 0x06, 0x0d, 0x2b, 0x06, 0x01, 0x04, 0x01, 0x82, 0xdc, 0x7c, 0x05,
    0x03, 0x01, 0x02, 0x01, 0x06, 0x0c, 0x2b, 0x06, 0x01, 0x04, 0x01, 0x82, 0xdc, 0x7c, 0x05, 0x03,
    0x02, 0x01, 0x03, 0x61, 0x00,
];

/// The length in bytes of a raw threshold public key.
pub const THRESHOLD_KEY_LEN: usize = 96;

/// The DER encoding of a raw threshold public key.
pub open spec fn der_of(key: Seq<u8>) -> Seq<u8> {
    THRESHOLD_KEY_DER_PREFIX@ + key
}

/// The DER encoding of a raw 96-byte threshold public key; `None` for a key
/// of any other length.
pub fn public_key_to_der(key: &[u8]) -> (r: Option<Vec<u8>>)
    ensures
        r is Some <==> key@.len() == THRESHOLD_KEY_LEN,
        r matches Some(der) ==> der@ == der_of(key@),
{
    if key.len() != THRESHOLD_KEY_LEN {
        return None;
    }
    let mut der: Vec<u8> = Vec::new();
    let mut i: usize = 0;
    while i < 37
        invariant
            i <= 37,
            der@ == THRESHOLD_KEY_DER_PREFIX@.subrange(0, i as int),
        decreases 37 - i,
    {
        der.push(THRESHOLD_KEY_DER_PREFIX[i]);
        i = i + 1;
        assert(der@ =~= THRESHOLD_KEY_DER_PREFIX@.subrange(0, i as int));
    }
    assert(THRESHOLD_KEY_DER_PREFIX@.subrange(0, 37) =~= THRESHOLD_KEY_DER_PREFIX@);
    append_bytes(&mut der, key);
    Some(der)
}

/// The certificate decodes, the canister id and the raw root key have valid
/// lengths, and the certificate is authentic for the canister under the key.
pub open spec fn certificate_valid(certificate: Seq<u8>, canister_id: Seq<u8>, root_key: Seq<u8>) -> bool {
    &&& cbor_certificate(certificate) is Some
    &&& canister_id.len() <= 29
    &&& root_key.len() == THRESHOLD_KEY_LEN
    &&& certificate_authentic(der_of(root_key), cbor_certificate(certificate)->0, canister_id)
}

/// Whether the certificate decodes and its signature and delegation verify
/// against the raw `root_key` for the canister; `None` only where no
/// verifying agent can be built on this machine (no TLS backend).
pub fn check_certificate(certificate_blob: &[u8], canister_id: &[u8], root_key: &[u8]) -> (r: Option<bool>)
    ensures
        r matches Some(b) ==> b == certificate_valid(certificate_blob@, canister_id@, root_key@),
        r is None ==> cbor_certificate(certificate_blob@) is Some && canister_id@.len() <= 29
            && root_key@.len() == THRESHOLD_KEY_LEN,
{
    let cert = match decode_certificate(certificate_blob) {
        Some(c) => c,
        None => return Some(false),
    };
    let canister = match principal_from_bytes(canister_id) {
        Some(p) => p,
        None => return Some(false),
    };
    let der = match public_key_to_der(root_key) {
        Some(d) => d,
        None => return Some(false),
    };
    let mut agent = match new_agent() {
        Some(a) => a,
        None => return None,
    };
    set_root_key(&mut agent, der.as_slice());
    Some(verify_certificate(&agent, &cert, canister))
}

/// Everything that a valid response needs: a valid certificate, certified
/// content, and decompression within the standard chunk limit.
pub open spec fn response_valid(
    certificate: Seq<u8>,
    tree: Seq<u8>,
    canister_id: Seq<u8>,
    path: Seq<u8>,
    body: Seq<u8>,
    e: ContentEncoding,
    root_key: Seq<u8>,
) -> bool {
    &&& certificate_valid(certificate, canister_id, root_key)
    &&& content_certified(certificate, tree, canister_id, path, body, e)
    &&& within_ceiling(
        body,
        e,
        DecompressionLimits { chunk_size: MAX_CHUNK_SIZE_TO_DECOMPRESS, max_chunks: MAX_CHUNKS_TO_DECOMPRESS },
    )
}

/// Whether `body` is the content certified for `uri_path` by the canister,
/// under a certificate that verifies against the raw threshold `root_key`;
/// `None` only where no verifying agent can be built on this machine.
pub fn check_response(
    certificate_blob: &[u8],
    tree_blob: &[u8],
    canister_id: &[u8],
    uri_path: &str,
    body: &[u8],
    encoding: &Option<String>,
    root_key: &[u8],
) -> (r: Option<bool>)
    ensures
        r matches Some(b) ==> b == response_valid(
            certificate_blob@,
            tree_blob@,
            canister_id@,
            uri_path.spec_bytes(),
            body@,
            encoding_of(encoding_view(*encoding)),
            root_key@,
        ),
        beyond_bound(
            body@,
            encoding_of(encoding_view(*encoding)),
            DecompressionLimits { chunk_size: MAX_CHUNK_SIZE_TO_DECOMPRESS, max_chunks: MAX_CHUNKS_TO_DECOMPRESS },
        ) ==> r != Some(true),
{
    match check_certificate(certificate_blob, canister_id, root_key) {
        Some(true) => {},
        Some(false) => return Some(false),
        None => return None,
    }
    let e = content_encoding(encoding);
    Some(
        check_certified_content(
            certificate_blob,
            tree_blob,
            canister_id,
            uri_path,
            body,
            e,
            DecompressionLimits::standard(),
        ),
    )
}

/// Whether `body` is the content certified for `uri_path` by the canister,
/// under a certificate that verifies against the raw threshold `root_key`.
/// The result is exactly `response_valid` wherever a verifying agent can be
/// built on this machine; where none can, it is `false`.
pub fn validate_certification(
    certificate_blob: &Vec<u8>,
    tree_blob: &Vec<u8>,
    canister_id: &[u8],
    uri_path: &str,
    body: &[u8],
    encoding: Option<String>,
    root_key: &[u8],
) -> (r: bool)
    ensures
        r ==> response_valid(
            certificate_blob@,
            tree_blob@,
            canister_id@,
            uri_path.spec_bytes(),
            body@,
            encoding_of(encoding_view(encoding)),
            root_key@,
        ),
        beyond_bound(
            body@,
            encoding_of(encoding_view(encoding)),
            DecompressionLimits { chunk_size: MAX_CHUNK_SIZE_TO_DECOMPRESS, max_chunks: MAX_CHUNKS_TO_DECOMPRESS },
        ) ==> !r,
{
    match check_response(
        certificate_blob.as_slice(),
        tree_blob.as_slice(),
        canister_id,
        uri_path,
        body,
        &encoding,
        root_key,
    ) {
        Some(b) => b,
        None => false,
    }
}

} // verus!
