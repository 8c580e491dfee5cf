use scloud::artwork::Artwork;
use scloud::error::ScloudError;

#[test]
fn parses_a_track_artwork() {
    let a = Artwork::from("https://i1.sndcdn.com/artworks-AAAA-large.jpg").unwrap();
    assert_eq!(a.base, "https://i1.sndcdn.com/artworks-AAAA");
    assert_eq!(a.extension, "jpg");
    assert_eq!(a.url, "https://i1.sndcdn.com/artworks-AAAA-large.jpg");
}

#[test]
fn parses_an_avatar() {
    let a = Artwork::from("https://i1.sndcdn.com/avatars-000123-abc-t500x500.png").unwrap();
    assert_eq!(a.base, "https://i1.sndcdn.com/avatars-000123-abc");
    assert_eq!(a.extension, "png");
    assert_eq!(a.original(), "https://i1.sndcdn.com/avatars-000123-abc-original.png");
}

#[test]
fn variants_have_fixed_sizes() {
    let a = Artwork::from("https://i1.sndcdn.com/artworks-AAAA-large.jpg").unwrap();
    assert_eq!(a.t500x500(), "https://i1.sndcdn.com/artworks-AAAA-t500x500.jpg");
    assert_eq!(a.t200x200(), "https://i1.sndcdn.com/artworks-AAAA-t200x200.jpg");
    assert_eq!(a.t120x120(), "https://i1.sndcdn.com/artworks-AAAA-t120x120.jpg");
    assert_eq!(a.raw("crop", "png"), "https://i1.sndcdn.com/artworks-AAAA-crop.png");
}

#[test]
fn a_variant_resolves_to_the_same_base() {
    let a = Artwork::from("https://i1.sndcdn.com/artworks-000123-abc-large.jpg").unwrap();
    let v = Artwork::from(&a.raw("t500x500", "png")).unwrap();
    assert_eq!(v.base, a.base);
    let o = Artwork::from(&a.original()).unwrap();
    assert_eq!(o.base, a.base);
}

#[test]
fn gif_of_unknown_category_is_rejected() {
    let r = Artwork::from("https://i1.sndcdn.com/other-CCCC-large.gif");
    assert!(matches!(r, Err(ScloudError::Invalid(_))));
}

#[test]
fn unsupported_extension_is_rejected() {
    let r = Artwork::from("https://i1.sndcdn.com/artworks-AAAA-large.webp");
    assert!(matches!(r, Err(ScloudError::Invalid(_))));
}

#[test]
fn unknown_category_is_rejected() {
    let r = Artwork::from("https://i1.sndcdn.com/other-CCCC-large.jpg");
    assert!(matches!(r, Err(ScloudError::Invalid(_))));
}

#[test]
fn path_without_resolution_is_rejected() {
    let r = Artwork::from("https://i1.sndcdn.com/artworks.jpg");
    assert!(matches!(r, Err(ScloudError::Invalid(_))));
    let r = Artwork::from_parts("https://h/artworks.jpg", "h", "/artworks.jpg");
    assert!(matches!(r, Err(ScloudError::Invalid(_))));
}

#[test]
fn path_without_extension_is_rejected() {
    let r = Artwork::from("https://i1.sndcdn.com/artworks-AAAA-large");
    assert!(matches!(r, Err(ScloudError::Invalid(_))));
}

#[test]
fn unparsable_url_is_rejected() {
    assert!(matches!(Artwork::from("not a url"), Err(ScloudError::Invalid(_))));
    assert!(matches!(Artwork::from("data:text/plain,artworks-a-b.jpg"), Err(ScloudError::Invalid(_))));
}

#[test]
fn from_parts_builds_on_the_host() {
    let a = Artwork::from_parts("u", "example.org", "/avatars-X-large.png").unwrap();
    assert_eq!(a.base, "https://example.org/avatars-X");
    assert_eq!(a.original, "https://example.org/avatars-X-original.png");
    assert_eq!(a.url, "u");
}
