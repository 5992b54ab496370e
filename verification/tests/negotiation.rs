use image_converter::text::chars_of;
use image_converter::web::negotiation::{contains_text, negotiate_format, OutputFormat};

fn contains(hay: &str, needle: &str) -> bool {
    contains_text(&chars_of(hay), &chars_of(needle))
}

#[test]
fn suffixes_and_mime_types() {
    assert_eq!(OutputFormat::Avif.suffix(), ".avif");
    assert_eq!(OutputFormat::Webp.suffix(), ".webp");
    assert_eq!(OutputFormat::Png.suffix(), ".png");
    assert_eq!(OutputFormat::Jpg.suffix(), ".jpg");
    assert_eq!(OutputFormat::Avif.mime(), "image/avif");
    assert_eq!(OutputFormat::Webp.mime(), "image/webp");
    assert_eq!(OutputFormat::Png.mime(), "image/png");
    assert_eq!(OutputFormat::Jpg.mime(), "image/jpeg");
}

#[test]
fn absent_header_gives_jpeg() {
    assert_eq!(negotiate_format(None), OutputFormat::Jpg);
}

#[test]
fn header_without_a_known_mime_gives_jpeg() {
    for accept in ["", "*/*", "image/*", "text/html", "image/gif, image/tiff", "image/web", "mage/webp"] {
        let format = negotiate_format(Some(accept));
        assert_eq!(format, OutputFormat::Jpg, "{:?}", accept);
        assert_eq!(format.mime(), "image/jpeg");
        assert_eq!(format.suffix(), ".jpg");
    }
}

#[test]
fn single_known_mime_is_chosen() {
    assert_eq!(negotiate_format(Some("image/avif")), OutputFormat::Avif);
    assert_eq!(negotiate_format(Some("image/webp")), OutputFormat::Webp);
    assert_eq!(negotiate_format(Some("image/png")), OutputFormat::Png);
    assert_eq!(negotiate_format(Some("image/jpeg")), OutputFormat::Jpg);
}

#[test]
fn preference_decides_not_the_order_in_the_header() {
    assert_eq!(negotiate_format(Some("image/jpeg, image/png, image/webp, image/avif")), OutputFormat::Avif);
    assert_eq!(negotiate_format(Some("image/png,image/webp")), OutputFormat::Webp);
    assert_eq!(negotiate_format(Some("image/jpeg,image/png")), OutputFormat::Png);
}

#[test]
fn quality_values_are_not_read() {
    assert_eq!(negotiate_format(Some("image/avif;q=0, image/webp;q=1.0")), OutputFormat::Avif);
}

#[test]
fn mime_is_found_anywhere_in_the_value() {
    assert_eq!(
        negotiate_format(Some("text/html,application/xhtml+xml,image/webp,*/*;q=0.8")),
        OutputFormat::Webp
    );
    assert_eq!(negotiate_format(Some("ximage/pngx")), OutputFormat::Png);
}

#[test]
fn mime_match_is_case_sensitive() {
    assert_eq!(negotiate_format(Some("IMAGE/WEBP")), OutputFormat::Jpg);
}

#[test]
fn contains_text_finds_a_text_at_every_place() {
    assert!(contains("image/webp", "image/webp"));
    assert!(contains("image/webp, */*", "image/webp"));
    assert!(contains("*/*, image/webp", "image/webp"));
    assert!(contains("aab", "ab"));
    assert!(contains("abc", "c"));
    assert!(!contains("abc", "d"));
    assert!(!contains("image/web", "image/webp"));
    assert!(!contains("ab", "abc"));
    assert!(!contains("", "a"));
}

#[test]
fn contains_text_finds_the_empty_text_everywhere() {
    assert!(contains("", ""));
    assert!(contains("abc", ""));
}

#[test]
fn contains_text_agrees_with_the_standard_search() {
    let hays = ["", "a", "aaa", "abab", "image/png;image/jpeg", "é/é", "ababc"];
    let needles = ["", "a", "aa", "ab", "abc", "bab", "é", "/", "image/jpeg"];
    for hay in hays {
        for needle in needles {
            assert_eq!(contains(hay, needle), hay.contains(needle), "{:?} in {:?}", needle, hay);
        }
    }
}
