use vstd::prelude::*;
use vstd::string::StringExecFns;

use crate::error::{Fault, ScloudError};
use crate::text::{
    chars_of, ends_with, find_char, find_char_from, has_suffix, lemma_find_char_agree,
    lemma_find_char_is, lemma_find_char_none, lemma_find_char_range, lemma_rfind_char_is,
    lemma_rfind_char_range,
    lemma_rfind_char_at_least, rfind_char, rfind_char_before, slice_string,
};

verus! {

/// What the URL parser makes of a text: `None` where it does not parse, else its
/// serialization, its host (if it has one) and its path.
pub uninterp spec fn url_parts(s: Seq<char>) -> Option<(Seq<char>, Option<Seq<char>>, Seq<char>)>;

/// A parsed URL, as plain text.
pub struct UrlParts {
    pub serialization: String,
    pub host: Option<String>,
    pub path: String,
}

impl UrlParts {
    pub open spec fn view_host(&self) -> Option<Seq<char>> {
        match self.host {
            Some(h) => Some(h@),
            None => None,
        }
    }
}

/// Relies on `url::Url::parse` (re-exported by reqwest) and on its `as_str`,
/// `host_str` and `path`: the parts of a URL, which depend on the text alone.
#[verifier::external_body]
fn parse_url(s: &str) -> (r: Option<UrlParts>)
    ensures
        match r {
            Some(p) => url_parts(s@) == Some((p.serialization@, p.view_host(), p.path@)),
            None => url_parts(s@) is None,
        },
{
    reqwest::Url::parse(s).ok().map(
        |u| UrlParts {
            serialization: u.as_str().to_owned(),
            host: u.host_str().map(|h| h.to_owned()),
            path: u.path().to_owned(),
        },
    )
}

/// An image of the site: the URL it was given by, the base with the resolution
/// token taken off, and its extension.
#[derive(Debug)]
pub struct Artwork {
    pub url: String,
    pub original: String,
    pub base: String,
    pub extension: String,
}

pub struct ArtworkView {
    pub url: Seq<char>,
    pub original: Seq<char>,
    pub base: Seq<char>,
    pub extension: Seq<char>,
}

impl View for Artwork {
    type V = ArtworkView;

    open spec fn view(&self) -> ArtworkView {
        ArtworkView {
            url: self.url@,
            original: self.original@,
            base: self.base@,
            extension: self.extension@,
        }
    }
}

/// The second `.`-separated segment of a path, if there is one.
pub open spec fn extension_of(path: Seq<char>) -> Option<Seq<char>> {
    let d1 = find_char_from(path, '.', 0);
    let d2 = find_char_from(path, '.', d1 + 1);
    if d1 < 0 {
        None
    } else if d2 < 0 {
        Some(path.subrange(d1 + 1, path.len() as int))
    } else {
        Some(path.subrange(d1 + 1, d2))
    }
}

pub open spec fn allowed_extension(e: Seq<char>) -> bool {
    e == "jpg"@ || e == "png"@
}

/// The marker that the part of the path before its first `-` ends with.
pub open spec fn known_category(first: Seq<char>) -> bool {
    ends_with(first, "artworks"@) || ends_with(first, "avatars"@)
}

/// `base-resolution.extension`.
pub open spec fn raw_of(base: Seq<char>, resolution: Seq<char>, extension: Seq<char>) -> Seq<char> {
    base + "-"@ + resolution + "."@ + extension
}

/// The artwork that a URL with this serialization, host and path stands for.
pub open spec fn artwork_from_parts_spec(url: Seq<char>, host: Seq<char>, path: Seq<char>) -> Result<ArtworkView, Fault> {
    let h1 = find_char_from(path, '-', 0);
    let hl = rfind_char_before(path, '-', path.len() as int);
    let base = "https://"@ + host + path.subrange(0, hl);
    match extension_of(path) {
        None => Err(Fault::Invalid),
        Some(ext) => if !allowed_extension(ext) {
            Err(Fault::Invalid)
        } else if h1 < 0 {
            Err(Fault::Invalid)
        } else if !known_category(path.subrange(0, h1)) {
            Err(Fault::Invalid)
        } else {
            Ok(ArtworkView {
                url,
                original: raw_of(base, "original"@, ext),
                base,
                extension: ext,
            })
        },
    }
}

/// The artwork for a URL text.
pub open spec fn artwork_spec(s: Seq<char>) -> Result<ArtworkView, Fault> {
    match url_parts(s) {
        None => Err(Fault::Invalid),
        Some((url, host, path)) => match host {
            None => Err(Fault::Invalid),
            Some(h) => artwork_from_parts_spec(url, h, path),
        },
    }
}

pub open spec fn artwork_result_view(r: Result<Artwork, ScloudError>) -> Result<ArtworkView, Fault> {
    match r {
        Ok(a) => Ok(a@),
        Err(e) => Err(e.fault()),
    }
}

/// Whether the characters equal those of the text.
fn eq_text(a: &Vec<char>, b: &str) -> (r: bool)
    ensures
        r == (a@ == b@),
{
    let bc = chars_of(b);
    if a.len() != bc.len() {
        return false;
    }
    let r = crate::text::matches_at(a, &bc, 0);
    proof {
        if r {
            assert(a@ =~= a@.subrange(0, bc@.len() as int));
        } else {
            assert(a@.subrange(0, bc@.len() as int) =~= a@);
        }
    }
    r
}

impl Artwork {
    /// Builds the artwork from the parts of its parsed URL.
    pub fn from_parts(url: &str, host: &str, path: &str) -> (r: Result<Artwork, ScloudError>)
        ensures
            artwork_result_view(r) == artwork_from_parts_spec(url@, host@, path@),
    {
        let p = chars_of(path);
        let d1 = match find_char(&p, '.', 0) {
            Some(d) => d,
            None => return Err(ScloudError::invalid_msg("artwork path has no extension")),
        };
        proof {
            lemma_find_char_range(p@, '.', 0);
        }
        let end = match find_char(&p, '.', d1 + 1) {
            Some(d) => d,
            None => p.len(),
        };
        proof {
            lemma_find_char_range(p@, '.', d1 + 1);
        }
        let extension = slice_string(&p, d1 + 1, end);
        let ext = chars_of(extension.as_str());
        if !(eq_text(&ext, "jpg") || eq_text(&ext, "png")) {
            return Err(ScloudError::invalid_msg("artwork extension is not jpg or png"));
        }
        let h1 = match find_char(&p, '-', 0) {
            Some(h) => h,
            None => return Err(ScloudError::invalid_msg("artwork path has no resolution segment")),
        };
        proof {
            lemma_find_char_range(p@, '-', 0);
            lemma_rfind_char_at_least(p@, '-', h1 as int, p@.len() as int);
        }
        let first = slice_string(&p, 0, h1);
        let first_chars = chars_of(first.as_str());
        if !(has_suffix(&first_chars, &chars_of("artworks")) || has_suffix(
            &first_chars,
            &chars_of("avatars"),
        )) {
            return Err(ScloudError::invalid_msg("artwork path is not of a known category"));
        }
        let hl = match rfind_char(&p, '-', p.len()) {
            Some(h) => h,
            None => h1,
        };
        assert(hl as int == rfind_char_before(p@, '-', p@.len() as int));
        let mut base = String::from_str("https://");
        base.append(host);
        base.append(slice_string(&p, 0, hl).as_str());
        let original = Artwork::raw_with(&base, "original", extension.as_str());
        Ok(Artwork { url: url.to_owned(), original, base, extension })
    }

    /// Parses an artwork or avatar URL.
    pub fn from(url: &str) -> (r: Result<Artwork, ScloudError>)
        ensures
            artwork_result_view(r) == artwork_spec(url@),
    {
        match parse_url(url) {
            None => Err(ScloudError::invalid_msg("artwork URL does not parse")),
            Some(parts) => match parts.host {
                None => Err(ScloudError::invalid_msg("artwork URL has no host")),
                Some(host) => Artwork::from_parts(
                    parts.serialization.as_str(),
                    host.as_str(),
                    parts.path.as_str(),
                ),
            },
        }
    }

    fn raw_with(base: &String, resolution: &str, extension: &str) -> (r: String)
        ensures
            r@ == raw_of(base@, resolution@, extension@),
    {
        let mut s = base.clone();
        s.append("-");
        s.append(resolution);
        s.append(".");
        s.append(extension);
        s
    }

    /// The URL of this image at a resolution and with an extension.
    pub fn raw(&self, resolution: &str, extension: &str) -> (r: String)
        ensures
            r@ == raw_of(self.base@, resolution@, extension@),
    {
        Artwork::raw_with(&self.base, resolution, extension)
    }

    /// The URL of the image at its full size; the one to prefer.
    pub fn original(&self) -> (r: String)
        ensures
            r@ == raw_of(self.base@, "original"@, self.extension@),
    {
        self.raw("original", self.extension.as_str())
    }

    /// The URL of the 500x500 variant; `original` is to be preferred.
    pub fn t500x500(&self) -> (r: String)
        ensures
            r@ == raw_of(self.base@, "t500x500"@, self.extension@),
    {
        self.raw("t500x500", self.extension.as_str())
    }

    /// The URL of the 200x200 variant; `original` is to be preferred.
    pub fn t200x200(&self) -> (r: String)
        ensures
            r@ == raw_of(self.base@, "t200x200"@, self.extension@),
    {
        self.raw("t200x200", self.extension.as_str())
    }

    /// The URL of the 120x120 variant; `original` is to be preferred.
    pub fn t120x120(&self) -> (r: String)
        ensures
            r@ == raw_of(self.base@, "t120x120"@, self.extension@),
    {
        self.raw("t120x120", self.extension.as_str())
    }

    /// The URL the artwork was given by.
    pub fn to_string(&self) -> (r: String)
        ensures
            r@ == self.url@,
    {
        self.url.clone()
    }
}

} // verus!

verus! {

/// The path of an artwork's base: its path up to the last `-`.
pub open spec fn base_path_of(path: Seq<char>) -> Seq<char> {
    path.subrange(0, rfind_char_before(path, '-', path.len() as int))
}

/// A resolution token that holds neither `-` nor `.`.
pub open spec fn plain_token(t: Seq<char>) -> bool {
    forall|i: int| 0 <= i < t.len() ==> t[i] != '-' && t[i] != '.'
}

/// Resolving a variant of an artwork again gives the same base: where a path
/// resolves, the path `base-resolution.extension` of any of its variants, with
/// a plain resolution token and an allowed extension, resolves under the same
/// host to the same base.
pub proof fn lemma_variant_path_round_trip(
    url: Seq<char>,
    host: Seq<char>,
    path: Seq<char>,
    variant_url: Seq<char>,
    resolution: Seq<char>,
    extension: Seq<char>,
)
    requires
        artwork_from_parts_spec(url, host, path) is Ok,
        plain_token(resolution),
        allowed_extension(extension),
    ensures
        artwork_from_parts_spec(variant_url, host, raw_of(base_path_of(path), resolution, extension)) is Ok,
        artwork_from_parts_spec(variant_url, host, raw_of(base_path_of(path), resolution, extension))->Ok_0.base
            == artwork_from_parts_spec(url, host, path)->Ok_0.base,
{
    reveal_strlit("jpg");
    reveal_strlit("png");
    reveal_strlit("-");
    reveal_strlit(".");
    let p = path;
    let n = p.len() as int;
    let d1 = find_char_from(p, '.', 0);
    let d2 = find_char_from(p, '.', d1 + 1);
    let h1 = find_char_from(p, '-', 0);
    let hl = rfind_char_before(p, '-', n);
    lemma_find_char_range(p, '.', 0);
    lemma_find_char_range(p, '.', d1 + 1);
    lemma_find_char_range(p, '-', 0);
    lemma_rfind_char_at_least(p, '-', h1, n);
    lemma_rfind_char_range(p, '-', n);
    let e0 = extension_of(p)->Some_0;
    assert(e0.len() == 3);
    assert(forall|i: int| 0 <= i < 3 ==> e0[i] != '-' && e0[i] != '.');
    assert(forall|i: int| 0 <= i < 3 ==> extension[i] != '-' && extension[i] != '.');
    let bp = base_path_of(p);
    let p2 = raw_of(bp, resolution, extension);
    let q = hl + 1 + resolution.len();
    assert(bp.len() == hl);
    assert(p2.len() == q + 1 + extension.len());
    assert(forall|i: int| 0 <= i < hl ==> p2[i] == p[i]);
    assert(p2[hl] == '-');
    assert(forall|i: int| 0 <= i < resolution.len() ==> p2[hl + 1 + i] == resolution[i]);
    assert(p2[q] == '.');
    assert(forall|i: int| 0 <= i < extension.len() ==> p2[q + 1 + i] == extension[i]);
    // the last `-` of the variant path is the one before the resolution
    assert forall|i: int| hl < i < p2.len() implies p2[i] != '-' by {
        if i <= q - 1 {
            assert(p2[i] == resolution[i - hl - 1]);
        } else if i > q {
            assert(p2[i] == extension[i - q - 1]);
        }
    }
    lemma_rfind_char_is(p2, '-', hl, p2.len() as int);
    assert(base_path_of(p2) =~= bp);
    // the first `-` is the same
    lemma_find_char_agree(p, p2, '-', 0, hl);
    if !(0 <= h1 < hl) {
        lemma_find_char_is(p2, '-', hl, hl);
    }
    let h2 = find_char_from(p2, '-', 0);
    assert(h2 == h1);
    assert(p2.subrange(0, h2) =~= p.subrange(0, h1));
    // the extension segment is still allowed
    lemma_find_char_agree(p, p2, '.', 0, hl);
    if 0 <= d1 < hl {
        if !(d1 + 1 <= d2 < hl) {
            let end = if d2 < 0 { n } else { d2 };
            assert(d2 < 0 || d2 > hl) by {
                if d2 == hl {
                    assert(p[hl] == '-');
                }
            }
            assert(e0 == p.subrange(d1 + 1, end));
            assert(e0[hl - d1 - 1] == p[hl]);
            assert(false);
        }
        lemma_find_char_agree(p, p2, '.', d1 + 1, hl);
        assert(extension_of(p2) =~= extension_of(p));
    } else {
        assert forall|i: int| hl <= i < q implies p2[i] != '.' by {
            if i > hl {
                assert(p2[i] == resolution[i - hl - 1]);
            }
        }
        lemma_find_char_is(p2, '.', hl, q);
        assert forall|i: int| q + 1 <= i < p2.len() implies p2[i] != '.' by {
            assert(p2[i] == extension[i - q - 1]);
        }
        lemma_find_char_none(p2, '.', q + 1);
        assert(p2.subrange(q + 1, p2.len() as int) =~= extension);
        assert(extension_of(p2) == Some(extension));
    }
}

} // verus!

verus! {

/// Resolving a variant URL of an artwork gives the artwork's base again, where
/// the URL parser reads the variant back under the same host with the variant
/// path.
pub proof fn lemma_variant_url_round_trip(original_url: Seq<char>, resolution: Seq<char>, extension: Seq<char>)
    requires
        artwork_spec(original_url) is Ok,
        plain_token(resolution),
        allowed_extension(extension),
        url_parts(original_url) matches Some((_, Some(host), path)) && url_parts(
            raw_of(artwork_spec(original_url)->Ok_0.base, resolution, extension),
        ) matches Some((_, Some(h2), p2)) && h2 == host && p2 == raw_of(base_path_of(path), resolution, extension),
    ensures
        artwork_spec(raw_of(artwork_spec(original_url)->Ok_0.base, resolution, extension)) is Ok,
        artwork_spec(raw_of(artwork_spec(original_url)->Ok_0.base, resolution, extension))->Ok_0.base
            == artwork_spec(original_url)->Ok_0.base,
{
    let (url, host, path) = (url_parts(original_url)->Some_0.0, url_parts(original_url)->Some_0.1->Some_0, url_parts(original_url)->Some_0.2);
    let variant = raw_of(artwork_spec(original_url)->Ok_0.base, resolution, extension);
    lemma_variant_path_round_trip(url, host, path, url_parts(variant)->Some_0.0, resolution, extension);
}

/// An artwork path is rejected when its extension segment is missing or not
/// `jpg` or `png`, and when it has no `-<resolution>` segment.
pub proof fn lemma_rejected_paths(url: Seq<char>, host: Seq<char>, path: Seq<char>)
    ensures
        !(extension_of(path) matches Some(e) && allowed_extension(e)) ==> artwork_from_parts_spec(url, host, path)
            == Err::<ArtworkView, Fault>(Fault::Invalid),
        (forall|i: int| 0 <= i < path.len() ==> path[i] != '-') ==> artwork_from_parts_spec(url, host, path)
            == Err::<ArtworkView, Fault>(Fault::Invalid),
{
    if forall|i: int| 0 <= i < path.len() ==> path[i] != '-' {
        lemma_find_char_none(path, '-', 0);
    }
}

} // verus!
