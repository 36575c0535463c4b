use january::metadata::Metadata;
use january::special::{classify, special_for, BandcampType, ProviderMatches, Special, TwitchType};

fn special_of_page(url: &str, head: &str) -> Special {
    let html = format!("<html><head>{}</head></html>", head);
    let md = Metadata::from(&html, url.to_string()).unwrap();
    md.generate_special()
}

fn special(url: &str) -> Special {
    special_for(&url.to_string(), None)
}

#[test]
fn youtube_with_timestamp() {
    let s = special_of_page(
        "https://www.youtube.com/watch?v=abc123&t=30",
        "<meta property=\"og:video\" content=\"https://www.youtube.com/watch?v=abc123&t=30\">",
    );
    assert_eq!(
        s,
        Special::YouTube { id: "abc123".to_string(), timestamp: Some("30".to_string()) }
    );
}

#[test]
fn youtube_without_video_tag() {
    let s = special("https://www.youtube.com/watch?v=abc123&t=30");
    assert_eq!(s, Special::YouTube { id: "abc123".to_string(), timestamp: None });
}

#[test]
fn youtube_video_without_timestamp() {
    let video = "https://www.youtube.com/embed/abc123".to_string();
    let s = special_for(&"https://youtu.be/abc123".to_string(), Some(&video));
    assert_eq!(s, Special::YouTube { id: "abc123".to_string(), timestamp: None });
}

#[test]
fn twitch_kinds() {
    assert_eq!(
        special("https://twitch.tv/videos/998877"),
        Special::Twitch { id: "998877".to_string(), content_type: TwitchType::Video }
    );
    assert_eq!(
        special("https://twitch.tv/someuser"),
        Special::Twitch { id: "someuser".to_string(), content_type: TwitchType::Channel }
    );
    assert_eq!(
        special("https://twitch.tv/someuser/clip/AbCd12"),
        Special::Twitch { id: "AbCd12".to_string(), content_type: TwitchType::Clip }
    );
}

#[test]
fn spotify_album() {
    assert_eq!(
        special("https://open.spotify.com/album/XYZ"),
        Special::Spotify { content_type: "album".to_string(), id: "XYZ".to_string() }
    );
}

#[test]
fn soundcloud_track() {
    assert_eq!(special("https://soundcloud.com/artist/song"), Special::Soundcloud);
}

#[test]
fn bandcamp_reads_video_query() {
    let s = special_of_page(
        "https://artist.bandcamp.com/track/a-song",
        "<meta property=\"og:video\" content=\"https://bandcamp.com/EmbeddedPlayer/v=2/track=12345/size=large\">",
    );
    assert_eq!(s, Special::Bandcamp { content_type: BandcampType::Track, id: "12345".to_string() });
    let s = special_of_page(
        "https://artist.bandcamp.com/album/a-record",
        "<meta property=\"og:video\" content=\"https://bandcamp.com/EmbeddedPlayer/v=2/album=777/\">",
    );
    assert_eq!(s, Special::Bandcamp { content_type: BandcampType::Album, id: "777".to_string() });
}

#[test]
fn bandcamp_without_video_is_unknown() {
    assert_eq!(special("https://artist.bandcamp.com/track/a-song"), Special::Unknown);
}

#[test]
fn unrelated_address_is_unknown() {
    assert_eq!(special("https://example.com/page"), Special::Unknown);
}

#[test]
fn resolve_special_records_provider() {
    let mut md = Metadata::from("", "https://open.spotify.com/track/T1".to_string()).unwrap();
    md.resolve_special();
    assert_eq!(
        md.special(),
        Some(&Special::Spotify { content_type: "track".to_string(), id: "T1".to_string() })
    );
}

fn groups(gs: &[Option<&str>]) -> Option<Vec<Option<String>>> {
    Some(gs.iter().map(|g| g.map(|s| s.to_string())).collect())
}

fn no_matches() -> ProviderMatches {
    ProviderMatches {
        youtube: None,
        twitch_video: None,
        twitch_clip: None,
        twitch_channel: None,
        spotify: None,
        soundcloud: None,
        bandcamp: None,
        timestamp: None,
        bandcamp_track: None,
        bandcamp_album: None,
    }
}

#[test]
fn classify_nothing_matched() {
    assert_eq!(classify(&no_matches()), Special::Unknown);
}

#[test]
fn classify_first_rule_wins() {
    let mut m = no_matches();
    m.youtube = groups(&[Some("u"), Some("vid")]);
    m.spotify = groups(&[Some("u"), Some("track"), Some("T")]);
    m.timestamp = groups(&[Some("&t=5"), Some("5")]);
    assert_eq!(
        classify(&m),
        Special::YouTube { id: "vid".to_string(), timestamp: Some("5".to_string()) }
    );
}

#[test]
fn classify_matched_rule_without_group_is_unknown() {
    let mut m = no_matches();
    m.twitch_clip = groups(&[Some("u"), None]);
    m.twitch_channel = groups(&[Some("u"), Some("chan")]);
    assert_eq!(classify(&m), Special::Unknown);
}

#[test]
fn classify_bandcamp_prefers_track() {
    let mut m = no_matches();
    m.bandcamp = groups(&[Some("u")]);
    m.bandcamp_track = groups(&[Some("track=1"), Some("1")]);
    m.bandcamp_album = groups(&[Some("album=2"), Some("2")]);
    assert_eq!(
        classify(&m),
        Special::Bandcamp { content_type: BandcampType::Track, id: "1".to_string() }
    );
    m.bandcamp_track = None;
    assert_eq!(
        classify(&m),
        Special::Bandcamp { content_type: BandcampType::Album, id: "2".to_string() }
    );
}
