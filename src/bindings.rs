//! The outside capabilities that certification checking relies on:
//! CBOR decoding, certificate verification and lookup, hash-tree digests
//! and lookups, gzip and deflate decompression, and SHA-256.
//!
//! Each item here is trusted: its contract is read off the outside crate.
use flate2::read::{DeflateDecoder, GzDecoder};
use ic_agent::export::Principal;
use ic_agent::hash_tree::HashTree;
use ic_agent::Agent;
use sha2::Digest;
use sha2::Sha256;
use std::io::Read;
use vstd::prelude::*;

verus! {

/// The possible outcomes of looking a path up in a hash tree.
pub ghost enum Lookup {
    Found(Seq<u8>),
    Absent,
    Unknown,
    Error,
}

/// The outcome of a hash-tree lookup, as returned to executable code.
pub enum LookupOutcome {
    Found(Vec<u8>),
    Absent,
    Unknown,
    Error,
}

impl View for LookupOutcome {
    type V = Lookup;

    open spec fn view(&self) -> Lookup {
        match self {
            LookupOutcome::Found(v) => Lookup::Found(v@),
            LookupOutcome::Absent => Lookup::Absent,
            LookupOutcome::Unknown => Lookup::Unknown,
            LookupOutcome::Error => Lookup::Error,
        }
    }
}

/// A decoded certificate. Verus cannot declare the outside type itself
/// (its storage parameter is bounded by `AsRef`), so it is held opaquely.
#[verifier::external_body]
pub struct CertificateValue {
    inner: ic_agent::Certificate,
}

/// A decoded hash tree, held opaquely for the same reason.
#[verifier::external_body]
pub struct TreeValue {
    inner: HashTree<Vec<u8>>,
}

#[verifier::external_type_specification]
#[verifier::external_body]
pub struct ExAgent(Agent);

#[verifier::external_type_specification]
#[verifier::external_body]
pub struct ExPrincipal(Principal);

#[verifier::external_type_specification]
#[verifier::external_body]
pub struct ExSha256(Sha256);

#[verifier::external_type_specification]
#[verifier::external_body]
#[verifier::reject_recursive_types(R)]
pub struct ExGzDecoder<R>(GzDecoder<R>);

#[verifier::external_type_specification]
#[verifier::external_body]
#[verifier::reject_recursive_types(R)]
pub struct ExDeflateDecoder<R>(DeflateDecoder<R>);


/// What the CBOR decoding of a certificate gives: `None` where the bytes are
/// not a well-formed certificate.
pub uninterp spec fn cbor_certificate(b: Seq<u8>) -> Option<CertificateValue>;

/// What the CBOR decoding of a hash tree gives: `None` where the bytes are
/// not a well-formed tree.
pub uninterp spec fn cbor_tree(b: Seq<u8>) -> Option<TreeValue>;

/// The value stored at a path of a certificate's own state tree, if found.
pub uninterp spec fn certificate_lookup(c: CertificateValue, path: Seq<Seq<u8>>) -> Option<Seq<u8>>;

/// The root hash of a hash tree.
pub uninterp spec fn tree_digest(t: TreeValue) -> Seq<u8>;

/// The outcome of looking a path up in a hash tree.
pub uninterp spec fn tree_lookup(t: TreeValue, path: Seq<Seq<u8>>) -> Lookup;

/// The bytes of a principal.
pub uninterp spec fn principal_bytes(p: Principal) -> Seq<u8>;

/// Whether an agent rejects certificates older than its ingress expiry.
pub uninterp spec fn agent_age_limited(a: Agent) -> bool;

/// The DER-encoded root key that an agent verifies certificates against.
pub uninterp spec fn agent_root_key(a: Agent) -> Seq<u8>;

/// The signature and delegation check of a certificate for a canister under a
/// DER-encoded root key, together with the presence of a readable time in the
/// certificate (but not its age).
pub uninterp spec fn certificate_authentic(root_key: Seq<u8>, c: CertificateValue, canister: Seq<u8>) -> bool;

/// The SHA-256 digest of a byte string.
pub uninterp spec fn sha256(b: Seq<u8>) -> Seq<u8>;

/// The bytes fed so far into a SHA-256 hasher.
pub uninterp spec fn hasher_input(h: Sha256) -> Seq<u8>;

/// The full output of decompressing a gzip stream, `None` where the stream is
/// not valid gzip.
pub uninterp spec fn gunzip(b: Seq<u8>) -> Option<Seq<u8>>;

/// The output that a gzip decoder has yet to deliver before its stream ends
/// cleanly, `None` where it will report an error first.
pub uninterp spec fn gz_pending(d: GzDecoder<&[u8]>) -> Option<Seq<u8>>;

/// How many non-empty reads into a buffer of `cap` bytes a gzip decoder over
/// `b` delivers before it reports the end of its output; `None` where it
/// reports an error first.
pub uninterp spec fn gz_reads_needed(b: Seq<u8>, cap: nat) -> Option<nat>;

/// How many more non-empty reads into a buffer of `cap` bytes a gzip decoder
/// delivers before it reports the end of its output; `None` where it reports
/// an error first.
pub uninterp spec fn gz_reads_left(d: GzDecoder<&[u8]>, cap: nat) -> Option<nat>;

/// How many non-empty reads into a buffer of `cap` bytes a deflate decoder
/// over `b` delivers before it reports the end of its output; `None` where
/// it reports an error first.
pub uninterp spec fn deflate_reads_needed(b: Seq<u8>, cap: nat) -> Option<nat>;

/// How many more non-empty reads into a buffer of `cap` bytes a deflate
/// decoder delivers before it reports the end of its output; `None` where it
/// reports an error first.
pub uninterp spec fn deflate_reads_left(d: DeflateDecoder<&[u8]>, cap: nat) -> Option<nat>;

/// The full output of decompressing a raw deflate stream, `None` where the
/// stream is not valid deflate.
pub uninterp spec fn inflate(b: Seq<u8>) -> Option<Seq<u8>>;

/// The output that a deflate decoder has yet to deliver before its stream
/// ends cleanly, `None` where it will report an error first.
pub uninterp spec fn deflate_pending(d: DeflateDecoder<&[u8]>) -> Option<Seq<u8>>;

/// Relies on serde_cbor::from_slice decoding an ic-certification Certificate;
/// a malformed encoding gives an error, never a panic.
#[verifier::external_body]
pub(crate) fn decode_certificate(b: &[u8]) -> (r: Option<CertificateValue>)
    ensures
        r == cbor_certificate(b@),
{
    serde_cbor::from_slice::<ic_agent::Certificate>(b).ok().map(|inner| CertificateValue { inner })
}

/// Relies on serde_cbor::from_slice decoding an ic-certification HashTree;
/// a malformed encoding gives an error, never a panic.
#[verifier::external_body]
pub(crate) fn decode_tree(b: &[u8]) -> (r: Option<TreeValue>)
    ensures
        r == cbor_tree(b@),
{
    serde_cbor::from_slice::<HashTree<Vec<u8>>>(b).ok().map(|inner| TreeValue { inner })
}

/// Relies on ic_agent::lookup_value: the value found at a three-label path
/// of the certificate's tree; absent, unknown and erroneous paths are errors.
#[verifier::external_body]
pub(crate) fn lookup_in_certificate(c: &CertificateValue, a: &[u8], b: &[u8], d: &[u8]) -> (r: Option<Vec<u8>>)
    ensures
        r is Some == certificate_lookup(*c, seq![a@, b@, d@]) is Some,
        r is Some ==> r->0@ == certificate_lookup(*c, seq![a@, b@, d@])->0,
{
    ic_agent::lookup_value(&c.inner, [a, b, d]).ok().map(|v| v.to_vec())
}

/// Relies on HashTree::digest: the 32-byte root hash of the tree.
#[verifier::external_body]
pub(crate) fn digest_of_tree(t: &TreeValue) -> (r: [u8; 32])
    ensures
        r@ == tree_digest(*t),
{
    t.inner.digest()
}

/// Relies on HashTree::lookup_path, whose four outcomes are carried over one
/// for one.
#[verifier::external_body]
pub(crate) fn lookup_in_tree(t: &TreeValue, a: &[u8], b: &[u8]) -> (r: LookupOutcome)
    ensures
        r@ == tree_lookup(*t, seq![a@, b@]),
{
    match t.inner.lookup_path([a, b]) {
        ic_agent::hash_tree::LookupResult::Found(v) => LookupOutcome::Found(v.to_vec()),
        ic_agent::hash_tree::LookupResult::Absent => LookupOutcome::Absent,
        ic_agent::hash_tree::LookupResult::Unknown => LookupOutcome::Unknown,
        ic_agent::hash_tree::LookupResult::Error => LookupOutcome::Error,
    }
}

/// Relies on Principal::try_from_slice, which accepts at most 29 bytes and
/// keeps them as the principal's bytes.
#[verifier::external_body]
pub(crate) fn principal_from_bytes(b: &[u8]) -> (r: Option<Principal>)
    ensures
        r is Some <==> b@.len() <= 29,
        r matches Some(p) ==> principal_bytes(p) == b@,
{
    Principal::try_from_slice(b).ok()
}

/// The endpoint that the verifying agent is configured with; verification
/// itself makes no request.
pub const AGENT_URL: &'static str = "https://identity.ic0.app";

/// Relies on reqwest's ClientBuilder::build, which reports a failure to set
/// up TLS (no system certificates, say) as an error, and on
/// AgentBuilder::build over `AGENT_URL` with that client. The URL is
/// well-formed, so the parse inside `with_url` succeeds; a client handed in
/// through `with_http_client` keeps `Agent::new` from building (and panicking
/// on) one of its own. The ingress expiry is the largest duration, which
/// time's comparison with a signed duration places above every age
/// (time's signed_duration.rs), so `Agent::verify` accepts any age. The agent
/// is used only to verify certificates, which makes no request and never
/// adds the expiry to the clock.
#[verifier::external_body]
pub(crate) fn new_agent() -> (r: Option<Agent>)
    ensures
        r matches Some(a) ==> !agent_age_limited(a),
{
    let client = ic_agent::export::reqwest::Client::builder().build().ok()?;
    Agent::builder()
        .with_url(AGENT_URL)
        .with_http_client(client)
        .with_ingress_expiry(std::time::Duration::MAX)
        .build()
        .ok()
}

/// Relies on Agent::set_root_key, which replaces the key that certificates
/// are verified against.
#[verifier::external_body]
pub(crate) fn set_root_key(agent: &mut Agent, der_key: &[u8])
    ensures
        agent_root_key(*final(agent)) == der_key@,
        agent_age_limited(*final(agent)) == agent_age_limited(*old(agent)),
{
    agent.set_root_key(der_key.to_vec())
}

/// Relies on Agent::verify: the signature and delegation chain of a
/// certificate under the agent's root key for a canister, and then its age
/// against the clock. Where the agent sets no age limit, the age check passes
/// whenever the certificate holds a readable time, and the outcome depends on
/// the arguments alone.
#[verifier::external_body]
pub(crate) fn verify_certificate(agent: &Agent, c: &CertificateValue, canister: Principal) -> (r: bool)
    ensures
        r ==> certificate_authentic(agent_root_key(*agent), *c, principal_bytes(canister)),
        !agent_age_limited(*agent) ==> r == certificate_authentic(
            agent_root_key(*agent),
            *c,
            principal_bytes(canister),
        ),
{
    agent.verify(&c.inner, canister).is_ok()
}

/// Relies on Sha256::new: a hasher that has been fed nothing.
#[verifier::external_body]
pub(crate) fn new_hasher() -> (r: Sha256)
    ensures
        hasher_input(r) == Seq::<u8>::empty(),
{
    Sha256::new()
}

/// Relies on Sha256::update: the data is appended to what was fed.
#[verifier::external_body]
pub(crate) fn hasher_update(h: &mut Sha256, data: &[u8])
    ensures
        hasher_input(*final(h)) == hasher_input(*old(h)) + data@,
{
    h.update(data)
}

/// Relies on Sha256::finalize: the digest of all that was fed.
#[verifier::external_body]
pub(crate) fn hasher_finalize(h: Sha256) -> (r: [u8; 32])
    ensures
        r@ == sha256(hasher_input(h)),
{
    h.finalize().into()
}

/// Relies on GzDecoder::new: a decoder whose whole output is yet to come.
#[verifier::external_body]
pub(crate) fn new_gz_decoder<'a>(b: &'a [u8]) -> (r: GzDecoder<&'a [u8]>)
    ensures
        gz_pending(r) == gunzip(b@),
        forall|cap: nat| gz_reads_left(r, cap) == #[trigger] gz_reads_needed(b@, cap),
{
    GzDecoder::new(b)
}

/// Relies on GzDecoder's `Read::read`: each successful read delivers the next
/// bytes of the output into the front of the buffer; a read of no bytes into a
/// non-empty buffer means the output is complete; an error comes only from an
/// invalid stream. Nothing is claimed of the decoder after it reports an error.
#[verifier::external_body]
pub(crate) fn gz_read(d: &mut GzDecoder<&[u8]>, buf: &mut Vec<u8>) -> (r: Option<usize>)
    ensures
        final(buf)@.len() == old(buf)@.len(),
        r is None ==> gz_pending(*old(d)) is None,
        r is Some && gz_pending(*old(d)) is None ==> gz_pending(*final(d)) is None,
        r matches Some(n) ==> n <= old(buf)@.len(),
        r matches Some(n) ==> (gz_pending(*old(d)) matches Some(p) ==> (n <= p.len()
            && final(buf)@.subrange(0, n as int) == p.subrange(0, n as int)
            && gz_pending(*final(d)) == Some(p.subrange(n as int, p.len() as int)))),
        r == Some(0usize) && old(buf)@.len() > 0 ==> gz_pending(*old(d)) == Some(Seq::<u8>::empty()),
        old(buf)@.len() > 0 ==> ({
            let cap = old(buf)@.len() as nat;
            &&& (gz_reads_left(*old(d), cap) matches Some(k) ==> r is Some && (k == 0 <==> r
                == Some(0usize)))
            &&& (gz_reads_left(*old(d), cap) matches Some(k) ==> k > 0 ==> gz_reads_left(
                *final(d),
                cap,
            ) == Some((k - 1) as nat))
            &&& (gz_reads_left(*old(d), cap) is None && r is Some ==> r != Some(0usize)
                && gz_reads_left(*final(d), cap) is None)
        }),
{
    d.read(buf.as_mut_slice()).ok()
}

/// Relies on DeflateDecoder::new: a decoder whose whole output is yet to come.
#[verifier::external_body]
pub(crate) fn new_deflate_decoder<'a>(b: &'a [u8]) -> (r: DeflateDecoder<&'a [u8]>)
    ensures
        deflate_pending(r) == inflate(b@),
        forall|cap: nat| deflate_reads_left(r, cap) == #[trigger] deflate_reads_needed(b@, cap),
{
    DeflateDecoder::new(b)
}

/// Relies on DeflateDecoder's `Read::read`, with the same guarantees as for
/// gzip.
#[verifier::external_body]
pub(crate) fn deflate_read(d: &mut DeflateDecoder<&[u8]>, buf: &mut Vec<u8>) -> (r: Option<usize>)
    ensures
        final(buf)@.len() == old(buf)@.len(),
        r is None ==> deflate_pending(*old(d)) is None,
        r is Some && deflate_pending(*old(d)) is None ==> deflate_pending(*final(d)) is None,
        r matches Some(n) ==> n <= old(buf)@.len(),
        r matches Some(n) ==> (deflate_pending(*old(d)) matches Some(p) ==> (n <= p.len()
            && final(buf)@.subrange(0, n as int) == p.subrange(0, n as int)
            && deflate_pending(*final(d)) == Some(p.subrange(n as int, p.len() as int)))),
        r == Some(0usize) && old(buf)@.len() > 0 ==> deflate_pending(*old(d)) == Some(Seq::<u8>::empty()),
        old(buf)@.len() > 0 ==> ({
            let cap = old(buf)@.len() as nat;
            &&& (deflate_reads_left(*old(d), cap) matches Some(k) ==> r is Some && (k == 0 <==> r
                == Some(0usize)))
            &&& (deflate_reads_left(*old(d), cap) matches Some(k) ==> k > 0 ==> deflate_reads_left(
                *final(d),
                cap,
            ) == Some((k - 1) as nat))
            &&& (deflate_reads_left(*old(d), cap) is None && r is Some ==> r != Some(0usize)
                && deflate_reads_left(*final(d), cap) is None)
        }),
{
    d.read(buf.as_mut_slice()).ok()
}

} // verus!
