//! Text utilities and asset-status mapping on concrete values.

use tanin::assets::AssetStatus;
use tanin::assets::asset_status_of;
use tanin::text::base_name;
use tanin::text::file_stem;
use tanin::text::join_path;
use tanin::text::parse_hundredths;
use tanin::text::sanitize_name;
use tanin::text::str_contains;
use tanin::text::trim_str;

#[test]
fn trimming_removes_surrounding_whitespace_only() {
    assert_eq!(trim_str("  hello world \t"), "hello world");
    assert_eq!(trim_str("unchanged"), "unchanged");
    assert_eq!(trim_str("   "), "");
    assert_eq!(trim_str(""), "");
}

#[test]
fn sanitizing_replaces_non_alphanumerics() {
    assert_eq!(sanitize_name("My Sound!!"), "My_Sound__");
    assert_eq!(sanitize_name("abc123"), "abc123");
    assert_eq!(sanitize_name("a-b.c"), "a_b_c");
    assert_eq!(sanitize_name(""), "");
}

#[test]
fn substring_search() {
    assert!(str_contains("[download]  45.2%", "[download]"));
    assert!(!str_contains("[ExtractAudio] x", "[download]"));
    assert!(str_contains("anything", ""));
}

#[test]
fn base_names_and_stems() {
    assert_eq!(base_name("/sounds/rain.ogg"), "rain.ogg");
    assert_eq!(base_name("rain.ogg"), "rain.ogg");
    assert_eq!(base_name("/sounds/"), "");
    assert_eq!(file_stem("rain.ogg"), "rain");
    assert_eq!(file_stem("clip.tar.mp3"), "clip.tar");
    assert_eq!(file_stem(".hidden"), ".hidden");
    assert_eq!(file_stem("plain"), "plain");
    assert_eq!(join_path("/data/sounds", "rain.ogg"), "/data/sounds/rain.ogg");
}

#[test]
fn percentage_tokens() {
    assert_eq!(parse_hundredths("45.2"), Some(4520));
    assert_eq!(parse_hundredths("100"), Some(10000));
    assert_eq!(parse_hundredths("0"), Some(0));
    assert_eq!(parse_hundredths("7.25"), Some(725));
    assert_eq!(parse_hundredths("7.259"), Some(725));
    assert_eq!(parse_hundredths("5."), Some(500));
    assert_eq!(parse_hundredths(""), None);
    assert_eq!(parse_hundredths(".5"), None);
    assert_eq!(parse_hundredths("N/A"), None);
    assert_eq!(parse_hundredths("100.01"), None);
    assert_eq!(parse_hundredths("245.0"), None);
}

#[test]
fn asset_status_follows_the_probe() {
    assert_eq!(asset_status_of(&Some("assets/sounds.toml".to_string())), AssetStatus::Present);
    assert_eq!(asset_status_of(&None), AssetStatus::Missing);
}
