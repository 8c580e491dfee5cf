use vstd::prelude::*;

use crate::artwork::{artwork_spec, Artwork, ArtworkView};
use crate::error::{Fault, ScloudError};
use crate::json::{bool_of, field, json_parse, parse_json, str_of, u64_of, Json};
use crate::page::{page_scripts, script_texts_of};
use crate::text::{chars_of, slice_string};
use vstd::string::StringExecFns;

verus! {

/// Position, among the page's script elements, of the one holding the hydration state.
pub const HYDRATION_SCRIPT_INDEX: usize = 11;

/// Length of the variable assignment that opens the hydration script.
pub const HYDRATION_PREFIX_LEN: usize = 24;

/// Position of the user entry in the hydration array.
pub const USER_ENTRY_INDEX: usize = 6;

/// Position of the sound entry in the hydration array.
pub const SOUND_ENTRY_INDEX: usize = 7;

/// The `data` objects of the user and sound hydration entries.
#[derive(Debug)]
pub struct TrackHydration {
    pub user: Json,
    pub sound: Json,
}

/// Where the hydration state sits in a page: the position of its script, the
/// length of the assignment that opens that script, and the positions of the
/// user and sound entries in its array.
#[derive(Clone, Copy, Debug)]
pub struct HydrationLayout {
    pub script_index: usize,
    pub prefix_len: usize,
    pub user_index: usize,
    pub sound_index: usize,
}

/// The layout of the pages as they are observed now.
pub open spec fn standard_layout() -> HydrationLayout {
    HydrationLayout {
        script_index: HYDRATION_SCRIPT_INDEX,
        prefix_len: HYDRATION_PREFIX_LEN,
        user_index: USER_ENTRY_INDEX,
        sound_index: SOUND_ENTRY_INDEX,
    }
}

impl HydrationLayout {
    /// The layout of the pages as they are observed now.
    pub fn standard() -> (r: HydrationLayout)
        ensures
            r == standard_layout(),
    {
        HydrationLayout {
            script_index: HYDRATION_SCRIPT_INDEX,
            prefix_len: HYDRATION_PREFIX_LEN,
            user_index: USER_ENTRY_INDEX,
            sound_index: SOUND_ENTRY_INDEX,
        }
    }
}

/// The text of the hydration script without its opening assignment and final `;`.
pub open spec fn payload_of(layout: HydrationLayout, script: Seq<char>) -> Option<Seq<char>> {
    if script.len() < layout.prefix_len + 1 {
        None
    } else {
        Some(script.subrange(layout.prefix_len as int, script.len() - 1))
    }
}

/// The user and sound data of a parsed hydration array.
pub open spec fn hydration_json_spec(layout: HydrationLayout, j: Json) -> Result<(Json, Json), Fault> {
    match j {
        Json::Array(items) => if layout.user_index == layout.sound_index {
            Err(Fault::Invalid)
        } else if items.len() <= layout.user_index || items.len() <= layout.sound_index {
            Err(Fault::Missing("hydration entries"@))
        } else {
            match field(items@[layout.user_index as int], "data"@) {
                None => Err(Fault::Missing("user data"@)),
                Some(user) => match field(items@[layout.sound_index as int], "data"@) {
                    None => Err(Fault::Missing("sound data"@)),
                    Some(sound) => Ok((user, sound)),
                },
            }
        },
        _ => Err(Fault::Mismatch("hydration"@)),
    }
}

/// The user and sound data held by the page's script texts.
pub open spec fn hydration_spec(layout: HydrationLayout, scripts: Seq<Seq<char>>) -> Result<(Json, Json), Fault> {
    if scripts.len() <= layout.script_index {
        Err(Fault::Missing("hydration script"@))
    } else {
        match payload_of(layout, scripts[layout.script_index as int]) {
            None => Err(Fault::Missing("hydration payload"@)),
            Some(text) => match json_parse(text) {
                None => Err(Fault::Mismatch("hydration"@)),
                Some(j) => hydration_json_spec(layout, j),
            },
        }
    }
}

pub open spec fn hydration_result_view(r: Result<TrackHydration, ScloudError>) -> Result<(Json, Json), Fault> {
    match r {
        Ok(h) => Ok((h.user, h.sound)),
        Err(e) => Err(e.fault()),
    }
}

/// Takes the value under `key` out of an object.
fn take_field(v: Json, key: &str) -> (r: Option<Json>)
    ensures
        r == field(v, key@),
{
    match v {
        Json::Object(mut entries) => {
            let ghost all = entries@;
            assert(field(v, key@) == crate::json::lookup_from(all, key@, 0));
            let k = key.to_owned();
            let mut i: usize = 0;
            while i < entries.len()
                invariant
                    i <= entries.len(),
                    entries@ == all,
                    field(v, key@) == crate::json::lookup_from(all, key@, 0),
                    k@ == key@,
                    crate::json::lookup_from(all, key@, 0) == crate::json::lookup_from(all, key@, i as int),
                decreases entries.len() - i,
            {
                if entries[i].0 == k {
                    assert(crate::json::lookup_from(all, key@, i as int) == Some(all[i as int].1));
                    let e = entries.swap_remove(i);
                    return Some(e.1);
                }
                i = i + 1;
            }
            None
        },
        _ => None,
    }
}

impl TrackHydration {
    /// Picks the user and sound data out of a parsed hydration array laid out
    /// as `layout` says.
    pub fn from_json_with(layout: HydrationLayout, j: Json) -> (r: Result<TrackHydration, ScloudError>)
        ensures
            hydration_result_view(r) == hydration_json_spec(layout, j),
    {
        match j {
            Json::Array(mut items) => {
                if layout.user_index == layout.sound_index {
                    return Err(ScloudError::invalid_msg("user and sound entries coincide"));
                }
                if items.len() <= layout.user_index || items.len() <= layout.sound_index {
                    return Err(ScloudError::missing("hydration entries"));
                }
                let ghost all = items@;
                let (user_entry, sound_entry) = if layout.user_index > layout.sound_index {
                    let u = items.remove(layout.user_index);
                    let s = items.remove(layout.sound_index);
                    (u, s)
                } else {
                    let s = items.remove(layout.sound_index);
                    let u = items.remove(layout.user_index);
                    (u, s)
                };
                assert(user_entry == all[layout.user_index as int]);
                assert(sound_entry == all[layout.sound_index as int]);
                let user = match take_field(user_entry, "data") {
                    Some(u) => u,
                    None => return Err(ScloudError::missing("user data")),
                };
                let sound = match take_field(sound_entry, "data") {
                    Some(s) => s,
                    None => return Err(ScloudError::missing("sound data")),
                };
                Ok(TrackHydration { user, sound })
            },
            _ => Err(ScloudError::mismatch("hydration")),
        }
    }

    /// Picks the user and sound data out of the parsed hydration array.
    pub fn from_json(j: Json) -> (r: Result<TrackHydration, ScloudError>)
        ensures
            hydration_result_view(r) == hydration_json_spec(standard_layout(), j),
    {
        TrackHydration::from_json_with(HydrationLayout::standard(), j)
    }

    /// Locates the hydration script among the page's script texts, as `layout`
    /// says, and parses it.
    pub fn from_scripts_with(layout: HydrationLayout, scripts: &Vec<String>) -> (r: Result<TrackHydration, ScloudError>)
        ensures
            hydration_result_view(r) == hydration_spec(layout, scripts@.map_values(|s: String| s@)),
    {
        let ghost sv = scripts@.map_values(|s: String| s@);
        if scripts.len() <= layout.script_index {
            return Err(ScloudError::missing("hydration script"));
        }
        let script = chars_of(scripts[layout.script_index].as_str());
        assert(script@ == sv[layout.script_index as int]);
        if script.len() < 1 || script.len() - 1 < layout.prefix_len {
            return Err(ScloudError::missing("hydration payload"));
        }
        let payload = slice_string(&script, layout.prefix_len, script.len() - 1);
        match parse_json(payload.as_str()) {
            None => Err(ScloudError::mismatch("hydration")),
            Some(j) => TrackHydration::from_json_with(layout, j),
        }
    }

    /// Locates the hydration script among the page's script texts and parses it.
    pub fn from_scripts(scripts: &Vec<String>) -> (r: Result<TrackHydration, ScloudError>)
        ensures
            hydration_result_view(r) == hydration_spec(standard_layout(), scripts@.map_values(|s: String| s@)),
    {
        TrackHydration::from_scripts_with(HydrationLayout::standard(), scripts)
    }
}

} // verus!

verus! {

/// The delivery protocol and mime type of a transcoding.
#[derive(Debug)]
pub struct Format {
    pub protocol: String,
    pub mime_type: String,
}

pub struct FormatView {
    pub protocol: Seq<char>,
    pub mime_type: Seq<char>,
}

impl View for Format {
    type V = FormatView;

    open spec fn view(&self) -> FormatView {
        FormatView { protocol: self.protocol@, mime_type: self.mime_type@ }
    }
}

/// One encoded variant of a track; `url` is a stub that must be resolved.
#[derive(Debug)]
pub struct Transcoding {
    pub url: String,
    pub preset: String,
    pub duration: u64,
    pub snipped: bool,
    pub format: Format,
}

pub struct TranscodingView {
    pub url: Seq<char>,
    pub preset: Seq<char>,
    pub duration: u64,
    pub snipped: bool,
    pub format: FormatView,
}

impl View for Transcoding {
    type V = TranscodingView;

    open spec fn view(&self) -> TranscodingView {
        TranscodingView {
            url: self.url@,
            preset: self.preset@,
            duration: self.duration,
            snipped: self.snipped,
            format: self.format@,
        }
    }
}

/// The text under `key`, or which way it is not there.
pub open spec fn str_field(v: Json, key: Seq<char>) -> Result<Seq<char>, Fault> {
    match field(v, key) {
        None => Err(Fault::Missing(key)),
        Some(x) => match str_of(x) {
            None => Err(Fault::Mismatch(key)),
            Some(s) => Ok(s),
        },
    }
}

/// The non-negative integer under `key`, or which way it is not there.
pub open spec fn u64_field(v: Json, key: Seq<char>) -> Result<u64, Fault> {
    match field(v, key) {
        None => Err(Fault::Missing(key)),
        Some(x) => match u64_of(x) {
            None => Err(Fault::Mismatch(key)),
            Some(n) => Ok(n),
        },
    }
}

/// The boolean under `key`, or which way it is not there.
pub open spec fn bool_field(v: Json, key: Seq<char>) -> Result<bool, Fault> {
    match field(v, key) {
        None => Err(Fault::Missing(key)),
        Some(x) => match bool_of(x) {
            None => Err(Fault::Mismatch(key)),
            Some(b) => Ok(b),
        },
    }
}

pub open spec fn format_spec(v: Json) -> Result<FormatView, Fault> {
    if !(v is Object) {
        Err(Fault::Mismatch("format"@))
    } else {
        match str_field(v, "protocol"@) {
            Err(e) => Err(e),
            Ok(protocol) => match str_field(v, "mime_type"@) {
                Err(e) => Err(e),
                Ok(mime_type) => Ok(FormatView { protocol, mime_type }),
            },
        }
    }
}

/// One transcoding decoded from its JSON object.
pub open spec fn transcoding_spec(v: Json) -> Result<TranscodingView, Fault> {
    if !(v is Object) {
        Err(Fault::Mismatch("transcoding"@))
    } else {
        match str_field(v, "url"@) {
            Err(e) => Err(e),
            Ok(url) => match str_field(v, "preset"@) {
                Err(e) => Err(e),
                Ok(preset) => match u64_field(v, "duration"@) {
                    Err(e) => Err(e),
                    Ok(duration) => match bool_field(v, "snipped"@) {
                        Err(e) => Err(e),
                        Ok(snipped) => match field(v, "format"@) {
                            None => Err(Fault::Missing("format"@)),
                            Some(f) => match format_spec(f) {
                                Err(e) => Err(e),
                                Ok(format) => Ok(TranscodingView { url, preset, duration, snipped, format }),
                            },
                        },
                    },
                },
            },
        }
    }
}

/// Every item decoded in order, or the fault of the first that does not decode.
pub open spec fn transcodings_spec(items: Seq<Json>) -> Result<Seq<TranscodingView>, Fault>
    decreases items.len(),
{
    if items.len() == 0 {
        Ok(Seq::empty())
    } else {
        match transcodings_spec(items.drop_last()) {
            Err(e) => Err(e),
            Ok(done) => match transcoding_spec(items.last()) {
                Err(e) => Err(e),
                Ok(t) => Ok(done.push(t)),
            },
        }
    }
}

/// The transcodings listed under `media.transcodings` of the sound data.
pub open spec fn media_spec(sound: Json) -> Result<Seq<TranscodingView>, Fault> {
    match field(sound, "media"@) {
        None => Err(Fault::Missing("media"@)),
        Some(media) => match field(media, "transcodings"@) {
            None => Err(Fault::Missing("transcodings"@)),
            Some(Json::Array(items)) => transcodings_spec(items@),
            Some(_) => Err(Fault::Mismatch("transcodings"@)),
        },
    }
}

pub proof fn lemma_transcodings_prefix_fault(items: Seq<Json>, n: int, e: Fault)
    requires
        0 <= n <= items.len(),
        transcodings_spec(items.subrange(0, n)) == Err::<Seq<TranscodingView>, Fault>(e),
    ensures
        transcodings_spec(items) == Err::<Seq<TranscodingView>, Fault>(e),
    decreases items.len() - n,
{
    if n < items.len() {
        let next = items.subrange(0, n + 1);
        assert(next.drop_last() =~= items.subrange(0, n));
        lemma_transcodings_prefix_fault(items, n + 1, e);
    } else {
        assert(items.subrange(0, n) =~= items);
    }
}

/// The text under `key` of an object.
fn get_str(v: &Json, key: &str) -> (r: Result<String, ScloudError>)
    ensures
        fault_of_text(r) == str_field(*v, key@),
{
    match v.get(key) {
        None => Err(ScloudError::missing(key)),
        Some(x) => match x.as_str() {
            None => Err(ScloudError::mismatch(key)),
            Some(s) => Ok(s.clone()),
        },
    }
}

pub open spec fn fault_of_text(r: Result<String, ScloudError>) -> Result<Seq<char>, Fault> {
    match r {
        Ok(s) => Ok(s@),
        Err(e) => Err(e.fault()),
    }
}

fn get_u64(v: &Json, key: &str) -> (r: Result<u64, ScloudError>)
    ensures
        crate::error::fault_of(r) == u64_field(*v, key@),
{
    match v.get(key) {
        None => Err(ScloudError::missing(key)),
        Some(x) => match x.as_u64() {
            None => Err(ScloudError::mismatch(key)),
            Some(n) => Ok(n),
        },
    }
}

fn get_bool(v: &Json, key: &str) -> (r: Result<bool, ScloudError>)
    ensures
        crate::error::fault_of(r) == bool_field(*v, key@),
{
    match v.get(key) {
        None => Err(ScloudError::missing(key)),
        Some(x) => match x.as_bool() {
            None => Err(ScloudError::mismatch(key)),
            Some(b) => Ok(b),
        },
    }
}

pub open spec fn format_result_view(r: Result<Format, ScloudError>) -> Result<FormatView, Fault> {
    match r {
        Ok(f) => Ok(f@),
        Err(e) => Err(e.fault()),
    }
}

pub open spec fn transcoding_result_view(r: Result<Transcoding, ScloudError>) -> Result<TranscodingView, Fault> {
    match r {
        Ok(t) => Ok(t@),
        Err(e) => Err(e.fault()),
    }
}

pub open spec fn transcodings_view(v: Seq<Transcoding>) -> Seq<TranscodingView> {
    v.map_values(|t: Transcoding| t@)
}

pub open spec fn media_result_view(r: Result<Vec<Transcoding>, ScloudError>) -> Result<Seq<TranscodingView>, Fault> {
    match r {
        Ok(m) => Ok(transcodings_view(m@)),
        Err(e) => Err(e.fault()),
    }
}

impl Format {
    /// Decodes a format object.
    pub fn from_json(v: &Json) -> (r: Result<Format, ScloudError>)
        ensures
            format_result_view(r) == format_spec(*v),
    {
        if !matches!(v, Json::Object(_)) {
            return Err(ScloudError::mismatch("format"));
        }
        let protocol = get_str(v, "protocol")?;
        let mime_type = get_str(v, "mime_type")?;
        Ok(Format { protocol, mime_type })
    }
}

impl Transcoding {
    /// Decodes one transcoding object.
    pub fn from_json(v: &Json) -> (r: Result<Transcoding, ScloudError>)
        ensures
            transcoding_result_view(r) == transcoding_spec(*v),
    {
        if !matches!(v, Json::Object(_)) {
            return Err(ScloudError::mismatch("transcoding"));
        }
        let url = get_str(v, "url")?;
        let preset = get_str(v, "preset")?;
        let duration = get_u64(v, "duration")?;
        let snipped = get_bool(v, "snipped")?;
        let format = match v.get("format") {
            None => return Err(ScloudError::missing("format")),
            Some(f) => Format::from_json(f)?,
        };
        Ok(Transcoding { url, preset, duration, snipped, format })
    }

    /// The delivery protocol of this variant.
    pub fn get_format_protocol(&self) -> (r: &str)
        ensures
            r@ == self.format.protocol@,
    {
        self.format.protocol.as_str()
    }
}

/// Decodes every transcoding of the list; one that does not decode fails them all.
pub fn decode_transcodings(items: &Vec<Json>) -> (r: Result<Vec<Transcoding>, ScloudError>)
    ensures
        media_result_view(r) == transcodings_spec(items@),
{
    let mut out: Vec<Transcoding> = Vec::new();
    let mut i: usize = 0;
    assert(transcodings_view(out@) =~= Seq::<TranscodingView>::empty());
    assert(items@.subrange(0, 0).len() == 0);
    while i < items.len()
        invariant
            i <= items.len(),
            transcodings_spec(items@.subrange(0, i as int)) == Ok::<Seq<TranscodingView>, Fault>(
                transcodings_view(out@),
            ),
        decreases items.len() - i,
    {
        let ghost prefix = items@.subrange(0, i as int + 1);
        assert(prefix.drop_last() =~= items@.subrange(0, i as int));
        assert(prefix.last() == items@[i as int]);
        match Transcoding::from_json(&items[i]) {
            Err(e) => {
                proof {
                    lemma_transcodings_prefix_fault(items@, i as int + 1, e.fault());
                }
                return Err(e);
            },
            Ok(t) => {
                let ghost before = out@;
                out.push(t);
                assert(transcodings_view(out@) =~= transcodings_view(before).push(t@));
            },
        }
        i = i + 1;
    }
    assert(items@.subrange(0, i as int) =~= items@);
    Ok(out)
}

} // verus!

verus! {

/// The uploader of a track.
#[derive(Debug)]
pub struct Author {
    pub username: String,
    pub avatar: Artwork,
}

pub struct AuthorView {
    pub username: Seq<char>,
    pub avatar: ArtworkView,
}

impl View for Author {
    type V = AuthorView;

    open spec fn view(&self) -> AuthorView {
        AuthorView { username: self.username@, avatar: self.avatar@ }
    }
}

/// A track as read from its page; `duration_ms` is its length in milliseconds.
#[derive(Debug)]
pub struct Track {
    pub title: String,
    pub url: String,
    pub artwork: Artwork,
    pub author: Author,
    pub duration_ms: u64,
    pub media: Vec<Transcoding>,
}

pub struct TrackView {
    pub title: Seq<char>,
    pub url: Seq<char>,
    pub artwork: ArtworkView,
    pub author: AuthorView,
    pub duration_ms: u64,
    pub media: Seq<TranscodingView>,
}

impl View for Track {
    type V = TrackView;

    open spec fn view(&self) -> TrackView {
        TrackView {
            title: self.title@,
            url: self.url@,
            artwork: self.artwork@,
            author: self.author@,
            duration_ms: self.duration_ms,
            media: transcodings_view(self.media@),
        }
    }
}

/// The artwork whose URL is the text under `key`.
pub open spec fn artwork_field(v: Json, key: Seq<char>) -> Result<ArtworkView, Fault> {
    match str_field(v, key) {
        Err(e) => Err(e),
        Ok(url) => artwork_spec(url),
    }
}

/// The author described by the user data.
pub open spec fn author_spec(user: Json) -> Result<AuthorView, Fault> {
    match str_field(user, "username"@) {
        Err(e) => Err(e),
        Ok(username) => match artwork_field(user, "avatar_url"@) {
            Err(e) => Err(e),
            Ok(avatar) => Ok(AuthorView { username, avatar }),
        },
    }
}

/// The track described by the user and sound data; the first field that is
/// missing or mistyped, in the order title, permalink, artwork, author,
/// duration, media, decides the fault.
pub open spec fn track_spec(user: Json, sound: Json) -> Result<TrackView, Fault> {
    match str_field(sound, "title"@) {
        Err(e) => Err(e),
        Ok(title) => match str_field(sound, "permalink_url"@) {
            Err(e) => Err(e),
            Ok(url) => match artwork_field(sound, "artwork_url"@) {
                Err(e) => Err(e),
                Ok(artwork) => match author_spec(user) {
                    Err(e) => Err(e),
                    Ok(author) => match u64_field(sound, "duration"@) {
                        Err(e) => Err(e),
                        Ok(duration_ms) => match media_spec(sound) {
                            Err(e) => Err(e),
                            Ok(media) => Ok(TrackView { title, url, artwork, author, duration_ms, media }),
                        },
                    },
                },
            },
        },
    }
}

/// The track held by the page's script texts.
pub open spec fn track_from_scripts_spec(scripts: Seq<Seq<char>>) -> Result<TrackView, Fault> {
    match hydration_spec(standard_layout(), scripts) {
        Err(e) => Err(e),
        Ok((user, sound)) => track_spec(user, sound),
    }
}

pub open spec fn author_result_view(r: Result<Author, ScloudError>) -> Result<AuthorView, Fault> {
    match r {
        Ok(a) => Ok(a@),
        Err(e) => Err(e.fault()),
    }
}

pub open spec fn track_result_view(r: Result<Track, ScloudError>) -> Result<TrackView, Fault> {
    match r {
        Ok(t) => Ok(t@),
        Err(e) => Err(e.fault()),
    }
}

/// The artwork whose URL is the text under `key`.
fn get_artwork_at(v: &Json, key: &str) -> (r: Result<Artwork, ScloudError>)
    ensures
        crate::artwork::artwork_result_view(r) == artwork_field(*v, key@),
{
    let url = get_str(v, key)?;
    Artwork::from(url.as_str())
}

impl Author {
    pub fn get_username(hydration: &TrackHydration) -> (r: Result<String, ScloudError>)
        ensures
            fault_of_text(r) == str_field(hydration.user, "username"@),
    {
        get_str(&hydration.user, "username")
    }

    pub fn get_avatar_url(hydration: &TrackHydration) -> (r: Result<Artwork, ScloudError>)
        ensures
            crate::artwork::artwork_result_view(r) == artwork_field(hydration.user, "avatar_url"@),
    {
        get_artwork_at(&hydration.user, "avatar_url")
    }

    /// The author described by the user data of the hydration state.
    pub fn from(hydration: &TrackHydration) -> (r: Result<Author, ScloudError>)
        ensures
            author_result_view(r) == author_spec(hydration.user),
    {
        let username = Author::get_username(hydration)?;
        let avatar = Author::get_avatar_url(hydration)?;
        Ok(Author { username, avatar })
    }
}

impl Track {
    pub fn get_title(hydration: &TrackHydration) -> (r: Result<String, ScloudError>)
        ensures
            fault_of_text(r) == str_field(hydration.sound, "title"@),
    {
        get_str(&hydration.sound, "title")
    }

    pub fn get_url(hydration: &TrackHydration) -> (r: Result<String, ScloudError>)
        ensures
            fault_of_text(r) == str_field(hydration.sound, "permalink_url"@),
    {
        get_str(&hydration.sound, "permalink_url")
    }

    pub fn get_artwork(hydration: &TrackHydration) -> (r: Result<Artwork, ScloudError>)
        ensures
            crate::artwork::artwork_result_view(r) == artwork_field(hydration.sound, "artwork_url"@),
    {
        get_artwork_at(&hydration.sound, "artwork_url")
    }

    pub fn get_duration(hydration: &TrackHydration) -> (r: Result<u64, ScloudError>)
        ensures
            crate::error::fault_of(r) == u64_field(hydration.sound, "duration"@),
    {
        get_u64(&hydration.sound, "duration")
    }

    pub fn get_media(hydration: &TrackHydration) -> (r: Result<Vec<Transcoding>, ScloudError>)
        ensures
            media_result_view(r) == media_spec(hydration.sound),
    {
        let media = match hydration.sound.get("media") {
            None => return Err(ScloudError::missing("media")),
            Some(m) => m,
        };
        match media.get("transcodings") {
            None => Err(ScloudError::missing("transcodings")),
            Some(Json::Array(items)) => decode_transcodings(items),
            Some(_) => Err(ScloudError::mismatch("transcodings")),
        }
    }

    pub fn get_author(hydration: &TrackHydration) -> (r: Result<Author, ScloudError>)
        ensures
            author_result_view(r) == author_spec(hydration.user),
    {
        Author::from(hydration)
    }

    /// Assembles the track from the hydration state; fails on the first field
    /// that is missing or of the wrong type.
    pub fn from_hydration(hydration: &TrackHydration) -> (r: Result<Track, ScloudError>)
        ensures
            track_result_view(r) == track_spec(hydration.user, hydration.sound),
    {
        let title = Track::get_title(hydration)?;
        let url = Track::get_url(hydration)?;
        let artwork = Track::get_artwork(hydration)?;
        let author = Track::get_author(hydration)?;
        let duration_ms = Track::get_duration(hydration)?;
        let media = Track::get_media(hydration)?;
        Ok(Track { title, url, artwork, author, duration_ms, media })
    }

    /// Extracts and assembles the track from the page's script texts.
    pub fn from_scripts(scripts: &Vec<String>) -> (r: Result<Track, ScloudError>)
        ensures
            track_result_view(r) == track_from_scripts_spec(scripts@.map_values(|s: String| s@)),
    {
        let hydration = TrackHydration::from_scripts(scripts)?;
        Track::from_hydration(&hydration)
    }

    /// Extracts and assembles the track from the HTML text of a track page.
    pub fn from_document(html: &str) -> (r: Result<Track, ScloudError>)
        ensures
            track_result_view(r) == track_from_scripts_spec(script_texts_of(html@)),
    {
        let scripts = page_scripts(html);
        Track::from_scripts(&scripts)
    }
}

} // verus!

verus! {

/// Extraction fails, with a structural fault, on a hydration array of fewer
/// entries than the sound entry's position needs.
pub proof fn lemma_short_hydration_fails(items: Vec<Json>)
    requires
        items.len() <= SOUND_ENTRY_INDEX,
    ensures
        hydration_json_spec(standard_layout(), Json::Array(items)) == Err::<(Json, Json), Fault>(Fault::Missing("hydration entries"@)),
{
}

/// Assembling the same hydration state twice gives field-for-field equal results.
pub proof fn lemma_assemble_deterministic(
    first: Result<Track, ScloudError>,
    second: Result<Track, ScloudError>,
    hydration: TrackHydration,
)
    requires
        track_result_view(first) == track_spec(hydration.user, hydration.sound),
        track_result_view(second) == track_spec(hydration.user, hydration.sound),
    ensures
        track_result_view(first) == track_result_view(second),
{
}

/// A missing title and a duration that is text are told apart: the first fails
/// as an absent `title`, the second, once the fields before it are sound, as a
/// mistyped `duration`.
pub proof fn lemma_title_and_duration_faults(user: Json, sound: Json)
    ensures
        field(sound, "title"@) is None ==> track_spec(user, sound) == Err::<TrackView, Fault>(
            Fault::Missing("title"@),
        ),
        (str_field(sound, "title"@) is Ok && str_field(sound, "permalink_url"@) is Ok && artwork_field(
            sound,
            "artwork_url"@,
        ) is Ok && author_spec(user) is Ok && field(sound, "duration"@) matches Some(Json::Str(_)))
            ==> track_spec(user, sound) == Err::<TrackView, Fault>(Fault::Mismatch("duration"@)),
        Fault::Missing("title"@) != Fault::Mismatch("duration"@),
{
}

} // verus!

verus! {

/// What the URL parser makes of `url` with its query replaced by `query`:
/// `None` where `url` does not parse, else the new serialization.
pub uninterp spec fn url_with_query(url: Seq<char>, query: Seq<char>) -> Option<Seq<char>>;

/// Relies on `url::Url::parse` (re-exported by reqwest) and `Url::set_query`:
/// the URL with its query replaced, which depends on the two texts alone.
#[verifier::external_body]
fn set_url_query(url: &str, query: &str) -> (r: Option<String>)
    ensures
        match r {
            Some(s) => url_with_query(url@, query@) == Some(s@),
            None => url_with_query(url@, query@) is None,
        },
{
    let mut u = reqwest::Url::parse(url).ok()?;
    u.set_query(Some(query));
    Some(u.as_str().to_owned())
}

/// The query that carries a client id.
pub open spec fn client_id_query(client_id: Seq<char>) -> Seq<char> {
    "client_id="@ + client_id
}

/// The playable URL that a resolution response holds.
pub open spec fn resolved_url_spec(body: Seq<char>) -> Result<Seq<char>, Fault> {
    match json_parse(body) {
        None => Err(Fault::Mismatch("response"@)),
        Some(v) => str_field(v, "url"@),
    }
}

impl Transcoding {
    /// The URL to ask for this variant's playable URL: the stub URL with the
    /// client id as its only query parameter.
    pub fn request_url(&self, client_id: &str) -> (r: Result<String, ScloudError>)
        ensures
            match url_with_query(self.url@, client_id_query(client_id@)) {
                Some(u) => r matches Ok(s) && s@ == u,
                None => r matches Err(e) && e.fault() == Fault::Invalid,
            },
    {
        let mut query = String::from_str("client_id=");
        query.append(client_id);
        match set_url_query(self.url.as_str(), query.as_str()) {
            Some(u) => Ok(u),
            None => Err(ScloudError::invalid_msg("transcoding URL does not parse")),
        }
    }

    /// The playable URL under `url` of a parsed resolution response.
    pub fn url_from_json(response: &Json) -> (r: Result<String, ScloudError>)
        ensures
            fault_of_text(r) == str_field(*response, "url"@),
    {
        get_str(response, "url")
    }

    /// The playable URL of a resolution response with this HTTP status and body:
    /// a status other than success fails as a transport failure.
    pub fn url_from_reply(status: u16, body: &str) -> (r: Result<String, ScloudError>)
        ensures
            !crate::error::success_status(status) ==> (r matches Err(ScloudError::Status(s)) && s == status),
            crate::error::success_status(status) ==> fault_of_text(r) == resolved_url_spec(body@),
    {
        crate::error::check_status(status)?;
        Transcoding::url_from_response(body)
    }

    /// The playable URL held by the body of a resolution response.
    pub fn url_from_response(body: &str) -> (r: Result<String, ScloudError>)
        ensures
            fault_of_text(r) == resolved_url_spec(body@),
    {
        match parse_json(body) {
            None => Err(ScloudError::mismatch("response")),
            Some(v) => Transcoding::url_from_json(&v),
        }
    }
}

} // verus!
