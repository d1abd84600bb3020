//! The static asset table of the demo application: content types, the
//! fixed list of assets, and request resolution by exact path.

use vstd::prelude::*;
use vstd::string::StringSliceAdditionalSpecFns;
use vstd::utf8::{encode_utf8, is_ascii_chars, is_ascii_chars_encode_utf8};
use crate::certification::bytes_equal;

verus! {

/// The content types that the served assets carry.
#[derive(Debug, PartialEq, Eq, Structural, Clone, Copy)]
pub enum ContentType {
    HTML,
    JS,
    JSON,
}

/// The MIME type string of a content type.
pub open spec fn mime_type(c: ContentType) -> Seq<char> {
    match c {
        ContentType::HTML => "text/html"@,
        ContentType::JS => "text/javascript"@,
        ContentType::JSON => "application/json"@,
    }
}

impl ContentType {
    pub fn to_mime_type_string(&self) -> (r: String)
        ensures
            r@ == mime_type(*self),
    {
        proof {
            reveal_strlit("text/html");
            reveal_strlit("text/javascript");
            reveal_strlit("application/json");
        }
        match self {
            ContentType::HTML => "text/html".to_owned(),
            ContentType::JS => "text/javascript".to_owned(),
            ContentType::JSON => "application/json".to_owned(),
        }
    }
}


/// The body of the alternative-origins document when none are configured.
pub const NO_ALTERNATIVE_ORIGINS: &'static str = "{\"alternativeOrigins\":[]}";

/// A fresh vector holding the given bytes.
pub fn copy_bytes(b: &[u8]) -> (r: Vec<u8>)
    ensures
        r@ == b@,
{
    let mut r: Vec<u8> = Vec::new();
    let mut i: usize = 0;
    while i < b.len()
        invariant
            i <= b@.len(),
            r@ == b@.subrange(0, i as int),
        decreases b@.len() - i,
    {
        r.push(b[i]);
        i = i + 1;
    }
    assert(r@ =~= b@);
    r
}

/// The assets that the application serves: the index document at `/` and
/// `/index.html`, the script bundle, and an empty alternative-origins list.
pub fn get_assets(index_html: &[u8], bundle_js: &[u8]) -> (r: Vec<(String, Vec<u8>, ContentType)>)
    ensures
        r@.len() == 4,
        r@[0].0@ == "/"@ && r@[0].1@ == index_html@ && r@[0].2 == ContentType::HTML,
        r@[1].0@ == "/index.html"@ && r@[1].1@ == index_html@ && r@[1].2 == ContentType::HTML,
        r@[2].0@ == "/bundle.js"@ && r@[2].1@ == bundle_js@ && r@[2].2 == ContentType::JS,
        r@[3].0@ == "/.well-known/ii-alternative-origins"@ && r@[3].1@
            == NO_ALTERNATIVE_ORIGINS.spec_bytes() && r@[3].2 == ContentType::JSON,
{
    let mut r: Vec<(String, Vec<u8>, ContentType)> = Vec::new();
    r.push(("/".to_owned(), copy_bytes(index_html), ContentType::HTML));
    r.push(("/index.html".to_owned(), copy_bytes(index_html), ContentType::HTML));
    r.push(("/bundle.js".to_owned(), copy_bytes(bundle_js), ContentType::JS));
    r.push(
        (
            "/.well-known/ii-alternative-origins".to_owned(),
            copy_bytes(NO_ALTERNATIVE_ORIGINS.as_bytes()),
            ContentType::JSON,
        ),
    );
    r
}

/// One served asset: its path, its response headers and its content.
pub struct Asset {
    pub path: String,
    pub headers: Vec<(String, String)>,
    pub body: Vec<u8>,
}

/// The bytes of an asset's path, which requests are matched against.
pub open spec fn asset_key(a: Asset) -> Seq<u8> {
    encode_utf8(a.path@)
}

/// The assets served, at most one per path.
pub struct AssetTable {
    pub(crate) entries: Vec<Asset>,
}

/// A header of a response: a name and a value.
pub open spec fn header_is(h: (String, String), name: Seq<char>, value: Seq<char>) -> bool {
    h.0@ == name && h.1@ == value
}

/// A request as the HTTP gateway hands it over.
pub struct HttpRequest {
    pub method: String,
    pub url: String,
    pub headers: Vec<(String, String)>,
    pub body: Vec<u8>,
}

/// A response: status code, headers and body.
pub struct HttpResponse {
    pub status_code: u16,
    pub headers: Vec<(String, String)>,
    pub body: Vec<u8>,
}

/// `p` is the path part of the URL `u`: everything before the first `?`.
pub open spec fn is_url_path(u: Seq<u8>, p: Seq<u8>) -> bool {
    &&& p.len() <= u.len()
    &&& p == u.subrange(0, p.len() as int)
    &&& forall|j: int| 0 <= j < p.len() ==> p[j] != 63u8
    &&& (p.len() == u.len() || u[p.len() as int] == 63u8)
}

/// The path part of a URL.
pub open spec fn url_path(u: Seq<u8>) -> Seq<u8> {
    choose|p: Seq<u8>| is_url_path(u, p)
}

/// A URL has one path part.
pub proof fn url_path_unique(u: Seq<u8>, p: Seq<u8>, q: Seq<u8>)
    requires
        is_url_path(u, p),
        is_url_path(u, q),
    ensures
        p == q,
{
    if p.len() < q.len() {
        assert(q[p.len() as int] == u[p.len() as int]);
    } else if q.len() < p.len() {
        assert(p[q.len() as int] == u[q.len() as int]);
    } else {
        assert(p =~= q);
    }
}

/// The path part of a URL: the bytes before the first `?`.
pub fn path_of_url(u: &[u8]) -> (r: Vec<u8>)
    ensures
        r@ == url_path(u@),
{
    let mut r: Vec<u8> = Vec::new();
    let mut i: usize = 0;
    while i < u.len() && u[i] != 63u8
        invariant
            i <= u@.len(),
            r@ == u@.subrange(0, i as int),
            forall|j: int| 0 <= j < i ==> u@[j] != 63u8,
        decreases u@.len() - i,
    {
        r.push(u[i]);
        i = i + 1;
    }
    proof {
        assert(is_url_path(u@, r@));
        url_path_unique(u@, r@, url_path(u@));
    }
    r
}

/// The body of the response to a request for a path that is not served.
pub open spec fn not_found_body(path: Seq<u8>) -> Seq<u8> {
    "Asset ".spec_bytes() + path + " not found.".spec_bytes()
}

impl AssetTable {
    /// The assets served, in the order in which they were added.
    pub open(crate) spec fn assets(&self) -> Seq<Asset> {
        self.entries@
    }

    /// The number of assets served.
    pub fn len(&self) -> (r: usize)
        ensures
            r == self.assets().len(),
    {
        self.entries.len()
    }

    /// The asset at position `i`.
    pub fn get(&self, i: usize) -> (r: &Asset)
        requires
            i < self.assets().len(),
        ensures
            *r == self.assets()[i as int],
    {
        &self.entries[i]
    }

    /// No two assets share a path.
    pub open spec fn wf(&self) -> bool {
        forall|i: int, j: int|
            0 <= i < j < self.assets().len() ==> asset_key(self.assets()[i]) != asset_key(
                self.assets()[j],
            )
    }

    /// A table with no assets.
    pub fn new() -> (r: AssetTable)
        ensures
            r.wf(),
            r.assets().len() == 0,
    {
        AssetTable { entries: Vec::new() }
    }

    /// The position of the asset served at `path`, if any.
    pub fn find(&self, path: &[u8]) -> (r: Option<usize>)
        ensures
            r matches Some(i) ==> i < self.assets().len() && asset_key(self.assets()[i as int])
                == path@,
            r is None ==> forall|i: int|
                0 <= i < self.assets().len() ==> asset_key(#[trigger] self.assets()[i]) != path@,
    {
        let mut i: usize = 0;
        while i < self.entries.len()
            invariant
                i <= self.assets().len(),
                forall|k: int| 0 <= k < i ==> asset_key(#[trigger] self.assets()[k]) != path@,
            decreases self.assets().len() - i,
        {
            if bytes_equal(self.entries[i].path.as_str().as_bytes(), path) {
                return Some(i);
            }
            i = i + 1;
        }
        None
    }

    /// Serves `body` with `headers` at `path`, replacing any asset there.
    pub fn insert(&mut self, path: String, headers: Vec<(String, String)>, body: Vec<u8>)
        requires
            old(self).wf(),
        ensures
            final(self).wf(),
            ({
                let a = Asset { path, headers, body };
                match old(self).find_spec(encode_utf8(path@)) {
                    Some(i) => final(self).assets() == old(self).assets().update(i, a),
                    None => final(self).assets() == old(self).assets().push(a),
                }
            }),
    {
        let found = self.find(path.as_str().as_bytes());
        proof {
            let k = encode_utf8(path@);
            if let Some(j) = found {
                let i = choose|i: int| 0 <= i < self.assets().len() && asset_key(self.assets()[i]) == k;
                if i < j {
                    assert(asset_key(self.assets()[i]) != asset_key(self.assets()[j as int]));
                } else if j < i {
                    assert(asset_key(self.assets()[j as int]) != asset_key(self.assets()[i]));
                }
                assert(self.find_spec(k) == Some(j as int));
            } else {
                assert(self.find_spec(k) is None);
            }
        }
        let a = Asset { path, headers, body };
        match found {
            Some(i) => {
                let ghost key = asset_key(a);
                self.entries.set(i, a);
                proof {
                    assert(asset_key(old(self).assets()[i as int]) == key);
                    assert forall|x: int, y: int|
                        0 <= x < y < self.assets().len() implies asset_key(self.assets()[x])
                        != asset_key(self.assets()[y]) by {
                        assert(asset_key(old(self).assets()[x]) != asset_key(old(self).assets()[y]));
                    }
                }
            },
            None => {
                let ghost key = asset_key(a);
                self.entries.push(a);
                proof {
                    let n = old(self).assets().len();
                    assert forall|x: int, y: int|
                        0 <= x < y < self.assets().len() implies asset_key(self.assets()[x])
                        != asset_key(self.assets()[y]) by {
                        if y == n {
                            assert(asset_key(old(self).assets()[x]) != key);
                        } else {
                            assert(asset_key(old(self).assets()[x]) != asset_key(
                                old(self).assets()[y],
                            ));
                        }
                    }
                }
            },
        }
    }

    /// In a well-formed table, the asset whose key matches is the one found.
    pub proof fn find_spec_at(&self, key: Seq<u8>, j: int)
        requires
            self.wf(),
            0 <= j < self.assets().len(),
            asset_key(self.assets()[j]) == key,
        ensures
            self.find_spec(key) == Some(j),
    {
        let i = choose|i: int| 0 <= i < self.assets().len() && asset_key(self.assets()[i]) == key;
        if i < j {
            assert(asset_key(self.assets()[i]) != asset_key(self.assets()[j]));
        } else if j < i {
            assert(asset_key(self.assets()[j]) != asset_key(self.assets()[i]));
        }
    }

    /// The position of the asset served at a path, if any.
    pub open spec fn find_spec(&self, key: Seq<u8>) -> Option<int> {
        if exists|i: int| 0 <= i < self.assets().len() && asset_key(self.assets()[i]) == key {
            Some(choose|i: int| 0 <= i < self.assets().len() && asset_key(self.assets()[i]) == key)
        } else {
            None
        }
    }
}


/// Appends the given bytes to a vector.
pub fn append_bytes(v: &mut Vec<u8>, b: &[u8])
    ensures
        final(v)@ == old(v)@ + b@,
{
    let mut i: usize = 0;
    while i < b.len()
        invariant
            i <= b@.len(),
            v@ == old(v)@ + b@.subrange(0, i as int),
        decreases b@.len() - i,
    {
        v.push(b[i]);
        i = i + 1;
        assert(v@ =~= old(v)@ + b@.subrange(0, i as int));
    }
    assert(b@.subrange(0, b@.len() as int) =~= b@);
}

/// The header that lets every origin read a response.
pub fn cors_header() -> (r: (String, String))
    ensures
        header_is(r, "Access-Control-Allow-Origin"@, "*"@),
{
    proof {
        reveal_strlit("Access-Control-Allow-Origin");
        reveal_strlit("*");
    }
    ("Access-Control-Allow-Origin".to_owned(), "*".to_owned())
}

/// The header that declares a content type.
pub fn content_type_header(c: ContentType) -> (r: (String, String))
    ensures
        header_is(r, "Content-Type"@, mime_type(c)),
{
    proof {
        reveal_strlit("Content-Type");
    }
    ("Content-Type".to_owned(), c.to_mime_type_string())
}

/// The response to a request: the asset served at the URL's path, after an
/// `Access-Control-Allow-Origin: *` header, or a 404 that names the path.
pub fn http_request(assets: &AssetTable, req: &HttpRequest) -> (r: HttpResponse)
    requires
        assets.wf(),
    ensures
        r.headers@.len() >= 1,
        header_is(r.headers@[0], "Access-Control-Allow-Origin"@, "*"@),
        ({
            let p = url_path(encode_utf8(req.url@));
            match assets.find_spec(p) {
                Some(i) => {
                    &&& r.status_code == 200
                    &&& r.headers@.subrange(1, r.headers@.len() as int) == assets.assets()[i].headers@
                    &&& r.body@ == assets.assets()[i].body@
                },
                None => {
                    &&& r.status_code == 404
                    &&& r.headers@.len() == 1
                    &&& r.body@ == not_found_body(p)
                },
            }
        }),
{
    let path = path_of_url(req.url.as_str().as_bytes());
    let mut headers: Vec<(String, String)> = Vec::new();
    headers.push(cors_header());
    let found = assets.find(path.as_slice());
    proof {
        let k = path@;
        if let Some(j) = found {
            assets.find_spec_at(k, j as int);
        } else {
            assert(assets.find_spec(k) is None);
        }
    }
    match found {
        Some(i) => {
            let asset = &assets.entries[i];
            let mut k: usize = 0;
            while k < asset.headers.len()
                invariant
                    k <= asset.headers@.len(),
                    headers@.len() == k + 1,
                    header_is(headers@[0], "Access-Control-Allow-Origin"@, "*"@),
                    headers@.subrange(1, k as int + 1) == asset.headers@.subrange(0, k as int),
                decreases asset.headers@.len() - k,
            {
                let h = &asset.headers[k];
                headers.push((h.0.clone(), h.1.clone()));
                k = k + 1;
                assert(headers@.subrange(1, k as int + 1) =~= asset.headers@.subrange(0, k as int));
            }
            assert(asset.headers@.subrange(0, k as int) =~= asset.headers@);
            HttpResponse { status_code: 200, headers, body: copy_bytes(asset.body.as_slice()) }
        },
        None => {
            let mut body = copy_bytes("Asset ".as_bytes());
            append_bytes(&mut body, path.as_slice());
            append_bytes(&mut body, " not found.".as_bytes());
            HttpResponse { status_code: 404, headers, body }
        },
    }
}

/// The entry of an initial asset table built from one listed asset.
pub open spec fn initial_entry(a: Asset, listed: (String, Vec<u8>, ContentType)) -> bool {
    &&& a.path@ == listed.0@
    &&& a.body@ == listed.1@
    &&& a.headers@.len() == 1
    &&& header_is(a.headers@[0], "Content-Type"@, mime_type(listed.2))
}

/// The ASCII path `s` is encoded in as many bytes as it has characters.
proof fn ascii_key_len(s: Seq<char>)
    requires
        is_ascii_chars(s),
    ensures
        encode_utf8(s).len() == s.len(),
{
    is_ascii_chars_encode_utf8(s);
}

/// The table of the application's assets, one per listed asset, each with a
/// `Content-Type` header.
pub fn init_assets(index_html: &[u8], bundle_js: &[u8]) -> (r: AssetTable)
    ensures
        r.wf(),
        r.assets().len() == 4,
        r.assets()[0].path@ == "/"@ && r.assets()[0].body@ == index_html@,
        r.assets()[1].path@ == "/index.html"@ && r.assets()[1].body@ == index_html@,
        r.assets()[2].path@ == "/bundle.js"@ && r.assets()[2].body@ == bundle_js@,
        r.assets()[3].path@ == "/.well-known/ii-alternative-origins"@ && r.assets()[3].body@
            == NO_ALTERNATIVE_ORIGINS.spec_bytes(),
        forall|k: int| 0 <= k < 4 ==> (#[trigger] r.assets()[k]).headers@.len() == 1,
        forall|k: int| 0 <= k < 4 ==> header_is((#[trigger] r.assets()[k]).headers@[0], "Content-Type"@, mime_type(
            if k < 2 { ContentType::HTML } else if k == 2 { ContentType::JS } else { ContentType::JSON },
        )),
{
    let list = get_assets(index_html, bundle_js);
    let mut entries: Vec<Asset> = Vec::new();
    let mut k: usize = 0;
    while k < list.len()
        invariant
            k <= list@.len(),
            entries@.len() == k,
            forall|j: int| 0 <= j < k ==> initial_entry(#[trigger] entries@[j], list@[j]),
        decreases list@.len() - k,
    {
        let listed = &list[k];
        let mut headers: Vec<(String, String)> = Vec::new();
        headers.push(content_type_header(listed.2));
        entries.push(Asset { path: listed.0.clone(), headers, body: copy_bytes(listed.1.as_slice()) });
        k = k + 1;
    }
    proof {
        reveal_strlit("/");
        reveal_strlit("/index.html");
        reveal_strlit("/bundle.js");
        reveal_strlit("/.well-known/ii-alternative-origins");
        assert(initial_entry(entries@[0], list@[0]));
        assert(initial_entry(entries@[1], list@[1]));
        assert(initial_entry(entries@[2], list@[2]));
        assert(initial_entry(entries@[3], list@[3]));
        ascii_key_len("/"@);
        ascii_key_len("/index.html"@);
        ascii_key_len("/bundle.js"@);
        ascii_key_len("/.well-known/ii-alternative-origins"@);
    }
    AssetTable { entries }
}

/// The asset that the alternative-origins document is served as.
pub open spec fn alternative_origins_asset(a: Asset, content: Seq<char>) -> bool {
    &&& asset_key(a) == "/.well-known/ii-alternative-origins".spec_bytes()
    &&& a.body@ == encode_utf8(content)
    &&& a.headers@.len() == 1
    &&& header_is(a.headers@[0], "Content-Type"@, mime_type(ContentType::JSON))
}

/// Replaces the alternative-origins document with `content`, served as JSON.
/// Every other asset keeps its place and value; the document takes the place
/// of the old one, or is appended where there was none.
pub fn update_alternative_origins(assets: &mut AssetTable, content: String)
    requires
        old(assets).wf(),
    ensures
        final(assets).wf(),
        ({
            let key = "/.well-known/ii-alternative-origins".spec_bytes();
            let n = old(assets).assets().len();
            match old(assets).find_spec(key) {
                Some(i) => {
                    &&& final(assets).assets().len() == n
                    &&& forall|j: int| 0 <= j < n && j != i ==> final(assets).assets()[j] == old(assets).assets()[j]
                    &&& alternative_origins_asset(final(assets).assets()[i], content@)
                },
                None => {
                    &&& final(assets).assets().len() == n + 1
                    &&& forall|j: int| 0 <= j < n ==> final(assets).assets()[j] == old(assets).assets()[j]
                    &&& alternative_origins_asset(final(assets).assets()[n as int], content@)
                },
            }
        }),
{
    let mut headers: Vec<(String, String)> = Vec::new();
    headers.push(content_type_header(ContentType::JSON));
    let body = copy_bytes(content.as_str().as_bytes());
    let path = "/.well-known/ii-alternative-origins".to_owned();
    assets.insert(path, headers, body);
    proof {
        reveal_strlit("/.well-known/ii-alternative-origins");
    }
}


/// `s` with every occurrence of the non-empty `from` replaced by `to`, the
/// occurrences taken from the left without overlap.
pub open spec fn replace_all(s: Seq<u8>, from: Seq<u8>, to: Seq<u8>) -> Seq<u8>
    decreases s.len(),
{
    if from.len() == 0 || s.len() < from.len() {
        s
    } else if s.subrange(0, from.len() as int) == from {
        to + replace_all(s.subrange(from.len() as int, s.len() as int), from, to)
    } else {
        seq![s[0]] + replace_all(s.subrange(1, s.len() as int), from, to)
    }
}

/// Whether `from` occurs in `s` at position `i`.
fn occurs_at(s: &[u8], i: usize, from: &[u8]) -> (r: bool)
    requires
        i + from@.len() <= s@.len(),
    ensures
        r == (s@.subrange(i as int, i + from@.len()) == from@),
{
    let n: usize = s.len();
    let mut k: usize = 0;
    while k < from.len()
        invariant
            n == s@.len(),
            i + from@.len() <= s@.len(),
            k <= from@.len(),
            forall|j: int| 0 <= j < k ==> s@[i + j] == from@[j],
        decreases from@.len() - k,
    {
        if s[i + k] != from[k] {
            assert(s@.subrange(i as int, i + from@.len())[k as int] != from@[k as int]);
            return false;
        }
        k = k + 1;
    }
    assert(s@.subrange(i as int, i + from@.len()) =~= from@);
    true
}

/// `s` with every occurrence of the non-empty `from` replaced by `to`.
pub fn replace_bytes(s: &[u8], from: &[u8], to: &[u8]) -> (r: Vec<u8>)
    requires
        from@.len() > 0,
    ensures
        r@ == replace_all(s@, from@, to@),
{
    let mut out: Vec<u8> = Vec::new();
    let mut i: usize = 0;
    assert(s@.subrange(0, s@.len() as int) =~= s@);
    assert(out@ + replace_all(s@, from@, to@) =~= replace_all(s@, from@, to@));
    while i < s.len()
        invariant
            from@.len() > 0,
            i <= s@.len(),
            out@ + replace_all(s@.subrange(i as int, s@.len() as int), from@, to@) == replace_all(
                s@,
                from@,
                to@,
            ),
        decreases s@.len() - i,
    {
        let ghost rest = s@.subrange(i as int, s@.len() as int);
        if from.len() <= s.len() - i && occurs_at(s, i, from) {
            assert(rest.subrange(0, from@.len() as int) =~= s@.subrange(i as int, i + from@.len()));
            assert(rest.subrange(from@.len() as int, rest.len() as int) =~= s@.subrange(
                i + from@.len(),
                s@.len() as int,
            ));
            let ghost before = out@;
            append_bytes(&mut out, to);
            i = i + from.len();
            let ghost tail = replace_all(s@.subrange(i as int, s@.len() as int), from@, to@);
            assert(out@ + tail =~= before + (to@ + tail));
        } else {
            if from.len() <= s.len() - i {
                assert(rest.subrange(0, from@.len() as int) =~= s@.subrange(i as int, i + from@.len()));
            }
            assert(rest.subrange(1, rest.len() as int) =~= s@.subrange(i + 1, s@.len() as int));
            let ghost before = out@;
            out.push(s[i]);
            i = i + 1;
            let ghost tail = replace_all(s@.subrange(i as int, s@.len() as int), from@, to@);
            assert(out@ + tail =~= before + (seq![rest[0]] + tail));
        }
    }
    assert(replace_all(s@.subrange(i as int, s@.len() as int), from@, to@) =~= Seq::<u8>::empty());
    assert(out@ + Seq::<u8>::empty() =~= out@);
    out
}


/// The script tag of the bundle in the index template.
pub const BUNDLE_SCRIPT_TAG: &'static str = "<script defer=\"defer\" src=\"bundle.js\"></script>";

/// The opening of the script that hands the canister id to the page.
pub const SETUP_SCRIPT_OPEN: &'static str = "<script id=\"setupJs\">var canisterId = '";

/// The closing of the script that hands the canister id to the page.
pub const SETUP_SCRIPT_CLOSE: &'static str = "';</script>";

/// The bundle's script tag, preceded by the script that sets the canister id.
pub open spec fn setup_scripts(canister_id: Seq<u8>) -> Seq<u8> {
    SETUP_SCRIPT_OPEN.spec_bytes() + canister_id + SETUP_SCRIPT_CLOSE.spec_bytes()
        + BUNDLE_SCRIPT_TAG.spec_bytes()
}

/// The index page: the template with the script that sets the canister id
/// (given as text) placed before every bundle script tag.
pub fn index_html_with_canister_id(template: &[u8], canister_id: &[u8]) -> (r: Vec<u8>)
    ensures
        r@ == replace_all(template@, BUNDLE_SCRIPT_TAG.spec_bytes(), setup_scripts(canister_id@)),
{
    let mut scripts = copy_bytes(SETUP_SCRIPT_OPEN.as_bytes());
    append_bytes(&mut scripts, canister_id);
    append_bytes(&mut scripts, SETUP_SCRIPT_CLOSE.as_bytes());
    append_bytes(&mut scripts, BUNDLE_SCRIPT_TAG.as_bytes());
    proof {
        reveal_strlit("<script defer=\"defer\" src=\"bundle.js\"></script>");
        ascii_key_len(BUNDLE_SCRIPT_TAG@);
    }
    replace_bytes(template, BUNDLE_SCRIPT_TAG.as_bytes(), scripts.as_slice())
}

} // verus!
