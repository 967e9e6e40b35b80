use anime_downloader::media::locate_media;
use anime_downloader::media::select_media;
use anime_downloader::probe::contains_str;
use anime_downloader::probe::episode_page_exists;
use anime_downloader::error::Error;
use anime_downloader::resolution::Resolution;

const MARKER: &str = "Страницы не существует или она была удалена.";

#[test]
fn marker_means_missing_whatever_else_is_there() {
    let body = format!("<html><body><h1>Oops</h1><p>{MARKER}</p><footer>x</footer></body></html>");
    assert!(!episode_page_exists(&body));
    assert!(!episode_page_exists(MARKER));
}

#[test]
fn body_without_marker_means_exists() {
    assert!(episode_page_exists("<html><body>Episode 1</body></html>"));
    assert!(episode_page_exists(""));
    // A prefix of the marker is not the marker.
    assert!(episode_page_exists("Страницы не существует"));
}

#[test]
fn substring_search_finds_patterns() {
    assert!(contains_str("hello world", "o w"));
    assert!(contains_str("hello", "hello"));
    assert!(contains_str("hello", ""));
    assert!(!contains_str("hello", "hello!"));
    assert!(!contains_str("", "x"));
    assert!(!contains_str("abab", "bb"));
}

#[test]
fn locate_media_keeps_document_order() {
    // Exactly the two sources, highest quality first.
    let html = r#"<html><body><video>
        <source src="a.mp4" type="video/mp4">
        <source src="b.mp4" type="video/mp4">
    </video></body></html>"#;
    let urls = locate_media(html);
    assert_eq!(urls, vec!["a.mp4".to_string(), "b.mp4".to_string()]);
}

#[test]
fn locate_media_of_empty_page_is_empty() {
    assert_eq!(locate_media("<html><body><p>nothing here</p></body></html>"), Vec::<String>::new());
    assert_eq!(locate_media(""), Vec::<String>::new());
}

#[test]
fn locate_media_ignores_other_tags_and_sourceless_video() {
    let html = r#"<video poster="p.jpg"></video><a href="x.mp4">link</a><img src="i.png">"#;
    assert_eq!(locate_media(html), Vec::<String>::new());
}

#[test]
fn locate_media_drops_unparseable_urls() {
    let html = r#"<video>
        <source src="http://[broken">
        <source src="https://cdn.example/ep.mp4">
    </video>"#;
    let urls = locate_media(html);
    assert_eq!(urls, vec!["https://cdn.example/ep.mp4".to_string()]);
}

#[test]
fn select_media_picks_the_tier_index() {
    let urls = vec!["fhd.mp4".to_string(), "hd.mp4".to_string(), "sd.mp4".to_string()];
    assert_eq!(select_media(&urls, 1, Resolution::FullHD).unwrap(), "fhd.mp4");
    assert_eq!(select_media(&urls, 1, Resolution::HD).unwrap(), "hd.mp4");
    assert_eq!(select_media(&urls, 1, Resolution::SD).unwrap(), "sd.mp4");
}

#[test]
fn select_media_on_empty_list_reports_no_links() {
    let urls: Vec<String> = Vec::new();
    assert!(matches!(
        select_media(&urls, 4, Resolution::FullHD),
        Err(Error::NoVideoLinksFound(4))
    ));
}

#[test]
fn select_media_past_the_end_reports_resolution_unavailable() {
    // Two candidates, but the SD tier maps to index 2.
    let urls = vec!["fhd.mp4".to_string(), "hd.mp4".to_string()];
    assert!(matches!(
        select_media(&urls, 1, Resolution::SD),
        Err(Error::ResolutionUnavailable(1, Resolution::SD))
    ));
}

#[test]
fn resolution_keywords_parse_up_to_ascii_case() {
    for (word, tier) in [
        ("fullhd", Resolution::FullHD),
        ("FullHD", Resolution::FullHD),
        ("1080p", Resolution::FullHD),
        ("1080P", Resolution::FullHD),
        ("hd", Resolution::HD),
        ("HD", Resolution::HD),
        ("720p", Resolution::HD),
        ("sd", Resolution::SD),
        ("Sd", Resolution::SD),
        ("480p", Resolution::SD),
    ] {
        assert_eq!(Resolution::from_str(word).unwrap(), tier, "{word}");
    }
}

#[test]
fn unknown_resolutions_are_rejected() {
    for bad in ["", "4k", "fullhd ", "108p", "hd2", "720", "ｆｕｌｌｈｄ"] {
        assert!(
            matches!(Resolution::from_str(bad), Err(Error::InvalidResolutionFormat(_))),
            "{bad:?} should be rejected"
        );
    }
}

#[test]
fn tier_indices_are_fixed() {
    assert_eq!(Resolution::FullHD.index(), 0);
    assert_eq!(Resolution::HD.index(), 1);
    assert_eq!(Resolution::SD.index(), 2);
    assert_eq!(Resolution::FullHD.text(), "fullhd");
    assert_eq!(Resolution::HD.text(), "hd");
    assert_eq!(Resolution::SD.text(), "sd");
}
