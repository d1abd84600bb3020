use certified_assets::assets::{
    get_assets, http_request, index_html_with_canister_id, replace_bytes, init_assets, path_of_url, update_alternative_origins, AssetTable,
    ContentType, HttpRequest,
};

fn request(url: &str) -> HttpRequest {
    HttpRequest { method: "GET".to_string(), url: url.to_string(), headers: vec![], body: vec![] }
}

#[test]
fn mime_types() {
    assert_eq!(ContentType::HTML.to_mime_type_string(), "text/html");
    assert_eq!(ContentType::JS.to_mime_type_string(), "text/javascript");
    assert_eq!(ContentType::JSON.to_mime_type_string(), "application/json");
}

#[test]
fn asset_list() {
    let list = get_assets(b"<html>", b"js();");
    assert_eq!(list.len(), 4);
    assert_eq!(list[0], ("/".to_string(), b"<html>".to_vec(), ContentType::HTML));
    assert_eq!(list[1], ("/index.html".to_string(), b"<html>".to_vec(), ContentType::HTML));
    assert_eq!(list[2], ("/bundle.js".to_string(), b"js();".to_vec(), ContentType::JS));
    assert_eq!(list[3].0, "/.well-known/ii-alternative-origins");
    assert_eq!(list[3].1, b"{\"alternativeOrigins\":[]}".to_vec());
    assert_eq!(list[3].2, ContentType::JSON);
}

#[test]
fn url_path_stops_at_query() {
    assert_eq!(path_of_url(b"/index.html?x=1?y"), b"/index.html".to_vec());
    assert_eq!(path_of_url(b"/bundle.js"), b"/bundle.js".to_vec());
    assert_eq!(path_of_url(b"?q"), Vec::<u8>::new());
}

#[test]
fn serves_known_asset_with_headers() {
    let table = init_assets(b"<html>", b"js();");
    let r = http_request(&table, &request("/bundle.js?v=3"));
    assert_eq!(r.status_code, 200);
    assert_eq!(r.body, b"js();".to_vec());
    assert_eq!(
        r.headers,
        vec![
            ("Access-Control-Allow-Origin".to_string(), "*".to_string()),
            ("Content-Type".to_string(), "text/javascript".to_string()),
        ]
    );
}

#[test]
fn unknown_asset_is_not_found() {
    let table = init_assets(b"<html>", b"js();");
    let r = http_request(&table, &request("/missing?a=b"));
    assert_eq!(r.status_code, 404);
    assert_eq!(r.body, b"Asset /missing not found.".to_vec());
    assert_eq!(r.headers, vec![("Access-Control-Allow-Origin".to_string(), "*".to_string())]);
}

#[test]
fn empty_table_serves_nothing() {
    let table = AssetTable::new();
    assert_eq!(http_request(&table, &request("/")).status_code, 404);
}

#[test]
fn alternative_origins_can_be_replaced() {
    let mut table = init_assets(b"<html>", b"js();");
    update_alternative_origins(&mut table, "{\"alternativeOrigins\":[\"https://a.b\"]}".to_string());
    assert_eq!(table.len(), 4);
    let r = http_request(&table, &request("/.well-known/ii-alternative-origins"));
    assert_eq!(r.status_code, 200);
    assert_eq!(r.body, b"{\"alternativeOrigins\":[\"https://a.b\"]}".to_vec());
    assert_eq!(r.headers[1], ("Content-Type".to_string(), "application/json".to_string()));
    assert_eq!(http_request(&table, &request("/bundle.js")).body, b"js();".to_vec());
    update_alternative_origins(&mut table, "{\"alternativeOrigins\":[\"https://a.b\"]}".to_string());
    assert_eq!(table.len(), 4);
    assert_eq!(table.get(0).path, "/");
}

#[test]
fn alternative_origins_added_to_empty_table() {
    let mut table = AssetTable::new();
    table.insert("/x".to_string(), vec![], b"X".to_vec());
    update_alternative_origins(&mut table, "[]".to_string());
    assert_eq!(table.len(), 2);
    assert_eq!(table.get(0).body, b"X".to_vec());
    assert_eq!(table.get(1).body, b"[]".to_vec());
}

#[test]
fn insert_adds_new_path() {
    let mut table = AssetTable::new();
    table.insert("/a".to_string(), vec![], b"A".to_vec());
    table.insert("/b".to_string(), vec![], b"B".to_vec());
    table.insert("/a".to_string(), vec![], b"A2".to_vec());
    assert_eq!(table.len(), 2);
    assert_eq!(http_request(&table, &request("/a")).body, b"A2".to_vec());
    assert_eq!(http_request(&table, &request("/b")).body, b"B".to_vec());
}

#[test]
fn replace_bytes_replaces_every_occurrence() {
    assert_eq!(replace_bytes(b"a-b-c", b"-", b"+="), b"a+=b+=c".to_vec());
    assert_eq!(replace_bytes(b"aaa", b"aa", b"x"), b"xa".to_vec());
    assert_eq!(replace_bytes(b"abc", b"zz", b"x"), b"abc".to_vec());
    assert_eq!(replace_bytes(b"", b"a", b"x"), Vec::<u8>::new());
}

#[test]
fn index_page_gets_canister_id() {
    let template = "<head><script defer=\"defer\" src=\"bundle.js\"></script></head>";
    let page = index_html_with_canister_id(template.as_bytes(), b"rrkah-fqaaa-aaaaa-aaaaq-cai");
    assert_eq!(
        String::from_utf8(page).unwrap(),
        "<head><script id=\"setupJs\">var canisterId = 'rrkah-fqaaa-aaaaa-aaaaq-cai';</script><script defer=\"defer\" src=\"bundle.js\"></script></head>"
    );
    assert_eq!(index_html_with_canister_id(b"<p></p>", b"x"), b"<p></p>".to_vec());
}
