use scloud::client_id::{client_id_from_literal, get_client_id, script_links, ClientIdDiscovery, DiscoveryStep};
use scloud::json::parse_json;
use scloud::track::Transcoding;

fn stub() -> Transcoding {
    let j = parse_json(r#"{"url":"https://api/s1","preset":"mp3_0_1","duration":185000,"snipped":false,"format":{"protocol":"progressive","mime_type":"audio/mpeg"}}"#).unwrap();
    Transcoding::from_json(&j).unwrap()
}

#[test]
fn request_url_carries_the_client_id() {
    assert_eq!(stub().request_url("abc123").unwrap(), "https://api/s1?client_id=abc123");
}

#[test]
fn request_url_replaces_the_query() {
    let mut t = stub();
    t.url = String::from("https://api/s1?old=1");
    assert_eq!(t.request_url("abc123").unwrap(), "https://api/s1?client_id=abc123");
    t.url = String::from("no url");
    assert!(t.request_url("abc123").is_err());
}

#[test]
fn response_url_is_resolved() {
    assert_eq!(
        Transcoding::url_from_response(r#"{"url":"https://cdn/final.mp3"}"#).unwrap(),
        "https://cdn/final.mp3"
    );
}

#[test]
fn response_without_url_fails() {
    let r = Transcoding::url_from_response("{}");
    assert!(matches!(r, Err(scloud::error::ScloudError::Missing(ref k)) if k == "url"));
    let r = Transcoding::url_from_response(r#"{"url":3}"#);
    assert!(matches!(r, Err(scloud::error::ScloudError::Mismatch(ref k)) if k == "url"));
    let r = Transcoding::url_from_response("<html>");
    assert!(matches!(r, Err(scloud::error::ScloudError::Mismatch(_))));
}

#[test]
fn client_id_is_read_from_a_script() {
    let text = "a=1,client_id:\"Ab12cD\",b=2,client_id:\"zz\"";
    assert_eq!(get_client_id(text), Some(String::from("Ab12cD")));
    assert_eq!(get_client_id("nothing here"), None);
    assert_eq!(get_client_id("client_id:\"\""), None);
}

#[test]
fn literal_token_is_between_the_quotes() {
    assert_eq!(client_id_from_literal("client_id:\"xyz\""), Some(String::from("xyz")));
    assert_eq!(client_id_from_literal("client_id:\"\""), None);
    assert_eq!(client_id_from_literal("client_ix:\"xyz\""), None);
}

const PAGE: &str = "<html><script crossorigin src=\"https://a-v2.sndcdn.com/assets/0-abc.js\"></script>\
<script crossorigin src=\"http://insecure/x.js\"></script>\
<script crossorigin src=\"https://a-v2.sndcdn.com/assets/1-def.js\"></script></html>";

#[test]
fn script_links_are_the_https_js_references() {
    assert_eq!(
        script_links(PAGE),
        vec![
            String::from("https://a-v2.sndcdn.com/assets/0-abc.js"),
            String::from("https://a-v2.sndcdn.com/assets/1-def.js"),
        ]
    );
    assert!(script_links("").is_empty());
}

#[test]
fn discovery_tries_scripts_in_order() {
    let mut d = ClientIdDiscovery::new(PAGE);
    assert!(matches!(d.step(), DiscoveryStep::Fetch(ref u) if u == "https://a-v2.sndcdn.com/assets/0-abc.js"));
    let s = d.on_script("no id");
    assert!(matches!(s, DiscoveryStep::Fetch(ref u) if u == "https://a-v2.sndcdn.com/assets/1-def.js"));
    let s = d.on_script("x,client_id:\"Tok3n\"");
    assert!(matches!(s, DiscoveryStep::Found(ref id) if id == "Tok3n"));
}

#[test]
fn discovery_is_exhausted_without_a_token() {
    let mut d = ClientIdDiscovery::new(PAGE);
    d.on_script("none");
    assert!(matches!(d.on_script("none"), DiscoveryStep::Exhausted));
    assert!(matches!(d.step(), DiscoveryStep::Exhausted));
    let e = ClientIdDiscovery::new("<html></html>");
    assert!(matches!(e.step(), DiscoveryStep::Exhausted));
}
