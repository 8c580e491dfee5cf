use scloud::error::{check_status, ScloudError};
use scloud::json::parse_json;
use scloud::page::{last_script_src, page_scripts};
use scloud::track::{Track, TrackHydration, Transcoding};

const SOUND: &str = r#"{"title":"Song A","permalink_url":"https://x/a","artwork_url":"https://i1.sndcdn.com/artworks-AAAA-large.jpg","duration":185000,"media":{"transcodings":[]}}"#;
const USER: &str = r#"{"username":"bob","avatar_url":"https://i1.sndcdn.com/avatars-BBBB-large.jpg"}"#;

fn track_page() -> String {
    let mut html = String::from("<html><head>");
    for i in 0..11 {
        html.push_str(&format!("<script>var s{} = {};</script>", i, i));
    }
    let mut entries: Vec<String> = Vec::new();
    for i in 0..6 {
        entries.push(format!("{{\"hydratable\":\"e{}\",\"data\":{{}}}}", i));
    }
    entries.push(format!("{{\"hydratable\":\"user\",\"data\":{}}}", USER));
    entries.push(format!("{{\"hydratable\":\"sound\",\"data\":{}}}", SOUND));
    html.push_str(&format!("<script>window.__sc_hydration = [{}];</script>", entries.join(",")));
    html.push_str("<script crossorigin src=\"https://a-v2.sndcdn.com/assets/1-def.js\"></script>");
    html.push_str("</head><body></body></html>");
    html
}

#[test]
fn track_is_read_from_the_page_text() {
    let t = Track::from_document(&track_page()).unwrap();
    assert_eq!(t.title, "Song A");
    assert_eq!(t.author.username, "bob");
    assert_eq!(t.duration_ms, 185000);
    assert!(t.media.is_empty());
}

#[test]
fn page_without_hydration_fails() {
    let r = Track::from_document("<html><script>var a = 1;</script></html>");
    assert!(matches!(r, Err(ScloudError::Missing(ref k)) if k == "hydration script"));
}

#[test]
fn page_scripts_are_in_document_order() {
    let s = page_scripts("<html><script>a</script><p>x</p><script>b</script></html>");
    assert_eq!(s, vec![String::from("a"), String::from("b")]);
    assert_eq!(page_scripts(&track_page()).len(), 13);
}

#[test]
fn last_script_src_is_read() {
    assert_eq!(last_script_src(&track_page()).unwrap(), "https://a-v2.sndcdn.com/assets/1-def.js");
    let r = last_script_src("<html><script src=\"a.js\"></script><script>x</script></html>");
    assert!(matches!(r, Err(ScloudError::Missing(ref k)) if k == "client id script src"));
    let r = last_script_src("<html></html>");
    assert!(matches!(r, Err(ScloudError::Missing(ref k)) if k == "client id script"));
}

#[test]
fn non_success_status_is_a_transport_failure() {
    assert!(check_status(200).is_ok());
    assert!(check_status(204).is_ok());
    assert!(matches!(check_status(404), Err(ScloudError::Status(404))));
    assert!(matches!(check_status(301), Err(ScloudError::Status(301))));
    let r = Transcoding::url_from_reply(401, r#"{"url":"https://cdn/final.mp3"}"#);
    assert!(matches!(r, Err(ScloudError::Status(401))));
    assert_eq!(
        Transcoding::url_from_reply(200, r#"{"url":"https://cdn/final.mp3"}"#).unwrap(),
        "https://cdn/final.mp3"
    );
}

#[test]
fn getters_report_missing_and_mistyped_fields() {
    let h = TrackHydration { user: parse_json(USER).unwrap(), sound: parse_json(r#"{"duration":"185000"}"#).unwrap() };
    assert!(matches!(Track::get_title(&h), Err(ScloudError::Missing(ref k)) if k == "title"));
    assert!(matches!(Track::get_duration(&h), Err(ScloudError::Mismatch(ref k)) if k == "duration"));
    let h = TrackHydration { user: parse_json(USER).unwrap(), sound: parse_json(r#"{"title":5,"duration":7}"#).unwrap() };
    assert!(matches!(Track::get_title(&h), Err(ScloudError::Mismatch(ref k)) if k == "title"));
    assert_eq!(Track::get_duration(&h).unwrap(), 7);
}
