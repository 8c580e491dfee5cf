use vstd::prelude::*;

use crate::error::{Fault, ScloudError};
use crate::track::{track_from_scripts_spec, Track, TrackView};
use vstd::string::StringExecFns;

verus! {

/// The kinds of page that a URL can lead to.
#[derive(Debug)]
pub enum ScloudKind {
    Track(Track),
    Playlist,
    Likes,
    Weekly,
    Daily,
    SecretSharePlaylist,
}

/// What a page was found to be.
#[derive(Debug)]
pub struct ScloudContext {
    pub kind: ScloudKind,
}

/// The `og:type` of a track page.
pub open spec fn track_page_type() -> Seq<char> {
    "music.song"@
}

pub open spec fn context_result_view(r: Result<ScloudContext, ScloudError>) -> Result<TrackView, Fault> {
    match r {
        Ok(ScloudContext { kind: ScloudKind::Track(t) }) => Ok(t@),
        Ok(_) => Err(Fault::NoImplemented),
        Err(e) => Err(e.fault()),
    }
}

/// What a page of this `og:type` with these script texts is.
pub open spec fn context_spec(page_type: Seq<char>, scripts: Seq<Seq<char>>) -> Result<TrackView, Fault> {
    if page_type == track_page_type() {
        track_from_scripts_spec(scripts)
    } else {
        Err(Fault::NoImplemented)
    }
}

impl ScloudContext {
    /// Dispatches on the page's `og:type`: a track page is read as a track, no
    /// other kind is handled yet.
    pub fn from_page(page_type: &str, scripts: &Vec<String>) -> (r: Result<ScloudContext, ScloudError>)
        ensures
            context_result_view(r) == context_spec(page_type@, scripts@.map_values(|s: String| s@)),
            r matches Ok(c) ==> c.kind is Track,
    {
        let song = String::from_str("music.song");
        let given = page_type.to_owned();
        if given == song {
            let track = Track::from_scripts(scripts)?;
            Ok(ScloudContext { kind: ScloudKind::Track(track) })
        } else {
            Err(ScloudError::NoImplemented)
        }
    }
}

} // verus!
