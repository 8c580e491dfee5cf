use scloud::artwork::Artwork;
use scloud::error::{ScloudError, ScloudInvalid};
use scloud::json::{parse_json, Json};
use scloud::response::{ScloudContext, ScloudKind};
use scloud::track::{HydrationLayout, Track, TrackHydration};

const SOUND: &str = r#"{"title":"Song A","permalink_url":"https://x/a","artwork_url":"https://i1.sndcdn.com/artworks-AAAA-large.jpg","duration":185000,"media":{"transcodings":[{"url":"https://api/s1","preset":"mp3_0_1","duration":185000,"snipped":false,"format":{"protocol":"progressive","mime_type":"audio/mpeg"}}]}}"#;
const USER: &str = r#"{"username":"bob","avatar_url":"https://i1.sndcdn.com/avatars-BBBB-large.jpg"}"#;

fn hydration(user: &str, sound: &str) -> TrackHydration {
    TrackHydration { user: parse_json(user).unwrap(), sound: parse_json(sound).unwrap() }
}

fn hydration_script(user: &str, sound: &str) -> String {
    let mut entries: Vec<String> = Vec::new();
    for i in 0..6 {
        entries.push(format!("{{\"hydratable\":\"e{}\",\"data\":{{}}}}", i));
    }
    entries.push(format!("{{\"hydratable\":\"user\",\"data\":{}}}", user));
    entries.push(format!("{{\"hydratable\":\"sound\",\"data\":{}}}", sound));
    format!("window.__sc_hydration = [{}];", entries.join(","))
}

fn page_scripts(hydration_text: String) -> Vec<String> {
    let mut scripts: Vec<String> = Vec::new();
    for i in 0..11 {
        scripts.push(format!("var s{} = {};", i, i));
    }
    scripts.push(hydration_text);
    scripts.push(String::from("var last = 1;"));
    scripts
}

#[test]
fn assembles_the_end_to_end_track() {
    let t = Track::from_hydration(&hydration(USER, SOUND)).unwrap();
    assert_eq!(t.title, "Song A");
    assert_eq!(t.url, "https://x/a");
    assert_eq!(t.duration_ms, 185000);
    assert_eq!(t.media.len(), 1);
    assert_eq!(t.media[0].get_format_protocol(), "progressive");
    assert_eq!(t.media[0].url, "https://api/s1");
    assert_eq!(t.media[0].preset, "mp3_0_1");
    assert_eq!(t.media[0].duration, 185000);
    assert!(!t.media[0].snipped);
    assert_eq!(t.media[0].format.mime_type, "audio/mpeg");
    assert_eq!(t.author.username, "bob");
    assert_eq!(t.artwork.base, "https://i1.sndcdn.com/artworks-AAAA");
    assert_eq!(t.author.avatar.base, "https://i1.sndcdn.com/avatars-BBBB");
}

#[test]
fn original_artwork_of_the_end_to_end_track() {
    let t = Track::from_hydration(&hydration(USER, SOUND)).unwrap();
    assert_eq!(t.artwork.original(), "https://i1.sndcdn.com/artworks-AAAA-original.jpg");
    assert_eq!(t.artwork.original, "https://i1.sndcdn.com/artworks-AAAA-original.jpg");
}

#[test]
fn assembling_twice_gives_equal_tracks() {
    let h = hydration(USER, SOUND);
    let a = Track::from_hydration(&h).unwrap();
    let b = Track::from_hydration(&h).unwrap();
    assert_eq!(format!("{:?}", a), format!("{:?}", b));
}

#[test]
fn duration_as_text_is_a_type_mismatch() {
    let sound = SOUND.replace("\"duration\":185000,\"media\"", "\"duration\":\"185000\",\"media\"");
    let r = Track::from_hydration(&hydration(USER, &sound));
    assert!(matches!(r, Err(ScloudError::Mismatch(ref k)) if k == "duration"));
}

#[test]
fn absent_title_is_a_missing_field() {
    let sound = SOUND.replace("\"title\":\"Song A\",", "");
    let r = Track::from_hydration(&hydration(USER, &sound));
    assert!(matches!(r, Err(ScloudError::Missing(ref k)) if k == "title"));
}

#[test]
fn float_duration_is_a_type_mismatch() {
    let sound = SOUND.replace("\"duration\":185000,\"media\"", "\"duration\":185000.5,\"media\"");
    let r = Track::from_hydration(&hydration(USER, &sound));
    assert!(matches!(r, Err(ScloudError::Mismatch(ref k)) if k == "duration"));
}

#[test]
fn one_bad_transcoding_fails_the_media() {
    let sound = SOUND.replace("\"snipped\":false", "\"snipped\":\"no\"");
    let r = Track::from_hydration(&hydration(USER, &sound));
    assert!(matches!(r, Err(ScloudError::Mismatch(ref k)) if k == "snipped"));
}

#[test]
fn empty_transcoding_list_is_kept() {
    let sound = SOUND.replace(
        r#"[{"url":"https://api/s1","preset":"mp3_0_1","duration":185000,"snipped":false,"format":{"protocol":"progressive","mime_type":"audio/mpeg"}}]"#,
        "[]",
    );
    let t = Track::from_hydration(&hydration(USER, &sound)).unwrap();
    assert_eq!(t.media.len(), 0);
}

#[test]
fn missing_username_fails_the_track() {
    let user = r#"{"avatar_url":"https://i1.sndcdn.com/avatars-BBBB-large.jpg"}"#;
    let r = Track::from_hydration(&hydration(user, SOUND));
    assert!(matches!(r, Err(ScloudError::Missing(ref k)) if k == "username"));
}

#[test]
fn bad_avatar_fails_the_track() {
    let user = r#"{"username":"bob","avatar_url":"https://i1.sndcdn.com/avatars-BBBB-large.gif"}"#;
    let r = Track::from_hydration(&hydration(user, SOUND));
    assert!(matches!(r, Err(ScloudError::Invalid(_))));
}

#[test]
fn extracts_the_track_from_the_scripts() {
    let scripts = page_scripts(hydration_script(USER, SOUND));
    let t = Track::from_scripts(&scripts).unwrap();
    assert_eq!(t.title, "Song A");
    assert_eq!(t.author.username, "bob");
    let c = ScloudContext::from_page("music.song", &scripts).unwrap();
    assert!(matches!(c.kind, ScloudKind::Track(ref t) if t.title == "Song A"));
}

#[test]
fn other_page_kinds_are_not_implemented() {
    let scripts = page_scripts(hydration_script(USER, SOUND));
    let r = ScloudContext::from_page("music.playlist", &scripts);
    assert!(matches!(r, Err(ScloudError::NoImplemented)));
}

#[test]
fn short_hydration_array_fails() {
    let j = parse_json("[1,2,3,4,5,6,7]").unwrap();
    let r = TrackHydration::from_json(j);
    assert!(matches!(r, Err(ScloudError::Missing(_))));
    let scripts = page_scripts(String::from("window.__sc_hydration = [{\"data\":{}}];"));
    assert!(matches!(TrackHydration::from_scripts(&scripts), Err(ScloudError::Missing(_))));
}

#[test]
fn entry_without_data_fails() {
    let j = parse_json(r#"[0,1,2,3,4,5,{"hydratable":"user"},{"data":{}}]"#).unwrap();
    let r = TrackHydration::from_json(j);
    assert!(matches!(r, Err(ScloudError::Missing(ref k)) if k == "user data"));
}

#[test]
fn too_few_scripts_fail() {
    let scripts: Vec<String> = vec![String::from("a"); 11];
    assert!(matches!(TrackHydration::from_scripts(&scripts), Err(ScloudError::Missing(_))));
}

#[test]
fn short_hydration_script_fails() {
    let mut scripts = page_scripts(String::new());
    scripts[11] = String::from("window");
    assert!(matches!(TrackHydration::from_scripts(&scripts), Err(ScloudError::Missing(_))));
}

#[test]
fn hydration_that_is_not_json_fails() {
    let scripts = page_scripts(String::from("window.__sc_hydration = [oops];"));
    assert!(matches!(TrackHydration::from_scripts(&scripts), Err(ScloudError::Mismatch(_))));
}

#[test]
fn hydration_object_is_not_an_array() {
    let j = parse_json(r#"{"a":1}"#).unwrap();
    assert!(matches!(TrackHydration::from_json(j), Err(ScloudError::Mismatch(_))));
}

#[test]
fn json_lookup_reads_fields() {
    let j = parse_json(r#"{"a":"x","b":7,"c":true,"d":-3}"#).unwrap();
    assert_eq!(j.get("a").unwrap().as_str().unwrap(), "x");
    assert_eq!(j.get("b").unwrap().as_u64(), Some(7));
    assert_eq!(j.get("c").unwrap().as_bool(), Some(true));
    assert_eq!(j.get("d").unwrap().as_u64(), None);
    assert!(j.get("e").is_none());
    assert!(matches!(parse_json("[]"), Some(Json::Array(ref v)) if v.is_empty()));
    assert!(parse_json("not json").is_none());
}

#[test]
fn invalid_host_keeps_the_domain() {
    assert!(matches!(ScloudInvalid::host("a.com"), ScloudInvalid::Host(ref d) if d == "a.com"));
    assert!(matches!(ScloudInvalid::msg("m"), ScloudInvalid::Msg(ref d) if d == "m"));
    assert!(matches!(ScloudError::invalid_host("a.com"), ScloudError::Invalid(ScloudInvalid::Host(_))));
    assert!(matches!(ScloudError::invalid_msg("m"), ScloudError::Invalid(ScloudInvalid::Msg(_))));
}

#[test]
fn artwork_parse_keeps_the_url() {
    let a = Artwork::from("https://i1.sndcdn.com/artworks-AAAA-large.jpg").unwrap();
    assert_eq!(a.to_string(), "https://i1.sndcdn.com/artworks-AAAA-large.jpg");
}

#[test]
fn a_custom_layout_finds_other_positions() {
    let layout = HydrationLayout { script_index: 0, prefix_len: 4, user_index: 1, sound_index: 0 };
    let script = format!("x = [{{\"data\":{}}},{{\"data\":{}}}];", SOUND, USER);
    let h = TrackHydration::from_scripts_with(layout, &vec![script]).unwrap();
    let t = Track::from_hydration(&h).unwrap();
    assert_eq!(t.title, "Song A");
    assert_eq!(t.author.username, "bob");
    let same = HydrationLayout { script_index: 0, prefix_len: 4, user_index: 1, sound_index: 1 };
    let j = parse_json("[0,1]").unwrap();
    assert!(matches!(TrackHydration::from_json_with(same, j), Err(ScloudError::Invalid(_))));
    let std = HydrationLayout::standard();
    assert_eq!((std.script_index, std.prefix_len, std.user_index, std.sound_index), (11, 24, 6, 7));
}
