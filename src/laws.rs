//! Properties of certification checking that relate several inputs or
//! several calls, proved over the specifications of `certification`.
use crate::bindings::{
    cbor_certificate, cbor_tree, certificate_lookup, tree_digest, tree_lookup, Lookup, TreeValue,
};
use crate::certification::{
    assets_label, body_matches, content_certified, content_check_outcome,
    decompressed, digest_outcome, expected_digest, fallback_path, witness_path,
    response_valid, ContentEncoding, DecompressionLimits,
};
use vstd::prelude::*;

verus! {

/// A certificate or tree blob that does not decode is never accepted.
pub proof fn undecodable_blob_rejected(
    certificate: Seq<u8>,
    tree: Seq<u8>,
    canister_id: Seq<u8>,
    path: Seq<u8>,
    body: Seq<u8>,
    e: ContentEncoding,
)
    requires
        cbor_certificate(certificate) is None || cbor_tree(tree) is None,
    ensures
        !content_certified(certificate, tree, canister_id, path, body, e),
{
}

/// Where the canister's certified data is not the tree's root hash, the
/// response is rejected, whatever the body.
pub proof fn witness_mismatch_rejected(
    certificate: Seq<u8>,
    tree: Seq<u8>,
    canister_id: Seq<u8>,
    path: Seq<u8>,
    body: Seq<u8>,
    e: ContentEncoding,
)
    requires
        cbor_certificate(certificate) is Some,
        cbor_tree(tree) is Some,
        certificate_lookup(cbor_certificate(certificate)->0, witness_path(canister_id)) != Some(
            tree_digest(cbor_tree(tree)->0),
        ),
    ensures
        !content_certified(certificate, tree, canister_id, path, body, e),
{
}

/// A path that the tree marks absent or unknown is answered by the digest
/// certified for `/index.html`; where that is not found either, no body
/// matches.
pub proof fn absent_path_falls_back(t: TreeValue, path: Seq<u8>, body: Seq<u8>, e: ContentEncoding)
    requires
        tree_lookup(t, seq![assets_label(), path]) is Absent || tree_lookup(t, seq![assets_label(), path])
            is Unknown,
    ensures
        tree_lookup(t, seq![assets_label(), fallback_path()]) matches Lookup::Found(d) ==> expected_digest(
            t,
            path,
        ) == Some(d),
        !(tree_lookup(t, seq![assets_label(), fallback_path()]) is Found) ==> !body_matches(t, path, body, e),
{
}

/// A body that is not a valid stream of its declared compression is never
/// accepted.
pub proof fn invalid_compression_rejected(
    certificate: Seq<u8>,
    tree: Seq<u8>,
    canister_id: Seq<u8>,
    path: Seq<u8>,
    body: Seq<u8>,
    e: ContentEncoding,
)
    requires
        decompressed(body, e) is None,
    ensures
        !content_certified(certificate, tree, canister_id, path, body, e),
{
}

/// Two content checks on the same inputs give the same answer.
pub proof fn content_check_deterministic(
    r1: bool,
    r2: bool,
    certificate: Seq<u8>,
    tree: Seq<u8>,
    canister_id: Seq<u8>,
    path: Seq<u8>,
    body: Seq<u8>,
    e: ContentEncoding,
    limits: DecompressionLimits,
)
    requires
        content_check_outcome(r1, certificate, tree, canister_id, path, body, e, limits),
        content_check_outcome(r2, certificate, tree, canister_id, path, body, e, limits),
    ensures
        r1 == r2,
{
}

/// Two digest computations of the same body under the same limits give the
/// same result.
pub proof fn body_digest_deterministic(
    r1: Option<Seq<u8>>,
    r2: Option<Seq<u8>>,
    body: Seq<u8>,
    e: ContentEncoding,
    limits: DecompressionLimits,
)
    requires
        digest_outcome(r1, body, e, limits),
        digest_outcome(r2, body, e, limits),
    ensures
        r1 == r2,
{
}

/// Two full checks of a response on the same inputs give the same answer:
/// with the age check lifted, nothing in it depends on the clock or on
/// earlier calls.
pub proof fn response_check_deterministic(
    r1: bool,
    r2: bool,
    certificate: Seq<u8>,
    tree: Seq<u8>,
    canister_id: Seq<u8>,
    path: Seq<u8>,
    body: Seq<u8>,
    e: ContentEncoding,
    root_key: Seq<u8>,
)
    requires
        r1 == response_valid(certificate, tree, canister_id, path, body, e, root_key),
        r2 == response_valid(certificate, tree, canister_id, path, body, e, root_key),
    ensures
        r1 == r2,
{
}

} // verus!
