//! Recognition of embeddable media providers from a page's address.
use vstd::prelude::*;
use crate::pattern::{captures_view, first_captures, group, group_of, regex_captures};

verus! {

#[derive(Debug, Clone, Copy, PartialEq, Eq, Structural)]
pub enum TwitchType {
    Channel,
    Video,
    Clip,
}

#[derive(Debug, Clone, Copy, PartialEq, Eq, Structural)]
pub enum BandcampType {
    Album,
    Track,
}

/// The provider that a page belongs to, with what its embed needs.
#[derive(Debug, PartialEq, Eq)]
#[allow(inconsistent_fields)]
pub enum Special {
    Unknown,
    YouTube { id: String, timestamp: Option<String> },
    Twitch { content_type: TwitchType, id: String },
    Spotify { content_type: String, id: String },
    Soundcloud,
    Bandcamp { content_type: BandcampType, id: String },
}

/// A provider as values.
#[allow(inconsistent_fields)]
pub enum SpecialView {
    Unknown,
    YouTube { id: Seq<char>, timestamp: Option<Seq<char>> },
    Twitch { content_type: TwitchType, id: Seq<char> },
    Spotify { content_type: Seq<char>, id: Seq<char> },
    Soundcloud,
    Bandcamp { content_type: BandcampType, id: Seq<char> },
}

pub open spec fn opt_view(s: Option<String>) -> Option<Seq<char>> {
    match s {
        Some(t) => Some(t@),
        None => None,
    }
}

impl View for Special {
    type V = SpecialView;

    open spec fn view(&self) -> SpecialView {
        match self {
            Special::Unknown => SpecialView::Unknown,
            Special::YouTube { id, timestamp } => SpecialView::YouTube { id: id@, timestamp: opt_view(*timestamp) },
            Special::Twitch { content_type, id } => SpecialView::Twitch { content_type: *content_type, id: id@ },
            Special::Spotify { content_type, id } => SpecialView::Spotify { content_type: content_type@, id: id@ },
            Special::Soundcloud => SpecialView::Soundcloud,
            Special::Bandcamp { content_type, id } => SpecialView::Bandcamp { content_type: *content_type, id: id@ },
        }
    }
}

/// YouTube watch, short, embed and `v/` addresses; group 1 is the video id.
pub const YOUTUBE: &'static str = "^(?:(?:https?:)?//)?(?:(?:www|m)\\.)?(?:(?:youtube\\.com|youtu.be))(?:/(?:[\\w\\-]+\\?v=|embed/|v/)?)([\\w\\-]+)(?:\\S+)?$";

/// A `t=` or `start=` query parameter; group 1 is the timestamp.
pub const TIMESTAMP: &'static str = "(?:\\?|&)(?:t|start)=([\\w]+)";

/// A Twitch channel; group 1 is its name.
pub const TWITCH_CHANNEL: &'static str = "^(?:https?://)?(?:www\\.|go\\.)?twitch\\.tv/([a-z0-9_]+)($|\\?)";

/// A Twitch VOD; group 1 is its number.
pub const TWITCH_VIDEO: &'static str = "^(?:https?://)?(?:www\\.|go\\.)?twitch\\.tv/videos/([0-9]+)($|\\?)";

/// A Twitch clip; group 1 is its id.
pub const TWITCH_CLIP: &'static str = "^(?:https?://)?(?:www\\.|go\\.)?twitch\\.tv/(?:[a-z0-9_]+)/clip/([A-z0-9_-]+)($|\\?)";

/// A Spotify item; group 1 is its kind, group 2 its id.
pub const SPOTIFY: &'static str = "^(?:https?://)?open.spotify.com/(track|user|artist|album|playlist)/([A-z0-9]+)";

/// A SoundCloud track.
pub const SOUNDCLOUD: &'static str = "^(?:https?://)?soundcloud.com/([a-zA-Z0-9-]+)/([A-z0-9-]+)";

/// A Bandcamp track or album page.
pub const BANDCAMP: &'static str = "^(?:https?://)?(?:[A-z0-9_-]+).bandcamp.com/(track|album)/([A-z0-9_-]+)";

/// A Bandcamp track number in a query; group 1 is the number.
pub const BANDCAMP_TRACK: &'static str = "track=(\\d+)";

/// A Bandcamp album number in a query; group 1 is the number.
pub const BANDCAMP_ALBUM: &'static str = "album=(\\d+)";

/// Whether `pattern` matches somewhere in `text`.
pub open spec fn matches_at(pattern: &'static str, text: Seq<char>) -> bool {
    regex_captures(pattern@, text) is Some
}

/// Whether no provider rule matches `url`.
pub open spec fn no_provider_matches(url: Seq<char>) -> bool {
    &&& !matches_at(YOUTUBE, url)
    &&& !matches_at(TWITCH_VIDEO, url)
    &&& !matches_at(TWITCH_CLIP, url)
    &&& !matches_at(TWITCH_CHANNEL, url)
    &&& !matches_at(SPOTIFY, url)
    &&& !matches_at(SOUNDCLOUD, url)
    &&& !matches_at(BANDCAMP, url)
}

/// What each provider pattern found: the first seven in a page's address,
/// the last three in its video's address.
pub struct ProviderMatches {
    pub youtube: Option<Vec<Option<String>>>,
    pub twitch_video: Option<Vec<Option<String>>>,
    pub twitch_clip: Option<Vec<Option<String>>>,
    pub twitch_channel: Option<Vec<Option<String>>>,
    pub spotify: Option<Vec<Option<String>>>,
    pub soundcloud: Option<Vec<Option<String>>>,
    pub bandcamp: Option<Vec<Option<String>>>,
    pub timestamp: Option<Vec<Option<String>>>,
    pub bandcamp_track: Option<Vec<Option<String>>>,
    pub bandcamp_album: Option<Vec<Option<String>>>,
}

/// The groups of one match, if there was one.
pub type CapturesView = Option<Seq<Option<Seq<char>>>>;

/// The pattern results as values.
pub struct ProviderMatchesView {
    pub youtube: CapturesView,
    pub twitch_video: CapturesView,
    pub twitch_clip: CapturesView,
    pub twitch_channel: CapturesView,
    pub spotify: CapturesView,
    pub soundcloud: CapturesView,
    pub bandcamp: CapturesView,
    pub timestamp: CapturesView,
    pub bandcamp_track: CapturesView,
    pub bandcamp_album: CapturesView,
}

impl View for ProviderMatches {
    type V = ProviderMatchesView;

    open spec fn view(&self) -> ProviderMatchesView {
        ProviderMatchesView {
            youtube: captures_view(self.youtube),
            twitch_video: captures_view(self.twitch_video),
            twitch_clip: captures_view(self.twitch_clip),
            twitch_channel: captures_view(self.twitch_channel),
            spotify: captures_view(self.spotify),
            soundcloud: captures_view(self.soundcloud),
            bandcamp: captures_view(self.bandcamp),
            timestamp: captures_view(self.timestamp),
            bandcamp_track: captures_view(self.bandcamp_track),
            bandcamp_album: captures_view(self.bandcamp_album),
        }
    }
}

/// What the patterns find for a page at `url` whose video, if any, is at
/// `video`; with no video the last three find nothing.
pub open spec fn matches_of(url: Seq<char>, video: Option<Seq<char>>) -> ProviderMatchesView {
    let in_video = |pattern: &'static str|
        match video {
            Some(v) => regex_captures(pattern@, v),
            None => None,
        };
    ProviderMatchesView {
        youtube: regex_captures(YOUTUBE@, url),
        twitch_video: regex_captures(TWITCH_VIDEO@, url),
        twitch_clip: regex_captures(TWITCH_CLIP@, url),
        twitch_channel: regex_captures(TWITCH_CHANNEL@, url),
        spotify: regex_captures(SPOTIFY@, url),
        soundcloud: regex_captures(SOUNDCLOUD@, url),
        bandcamp: regex_captures(BANDCAMP@, url),
        timestamp: in_video(TIMESTAMP),
        bandcamp_track: in_video(BANDCAMP_TRACK),
        bandcamp_album: in_video(BANDCAMP_ALBUM),
    }
}

/// A Twitch provider of the given kind with the id in group 1, or unknown
/// where that group is missing.
pub open spec fn twitch_of(c: CapturesView, kind: TwitchType) -> SpecialView {
    match group_of(c, 1) {
        Some(id) => SpecialView::Twitch { content_type: kind, id },
        None => SpecialView::Unknown,
    }
}

/// The provider that the pattern results `m` point to. The rules are tried
/// in order and the first whose pattern matched decides, even where it then
/// lacks what it needs.
pub open spec fn provider_of(m: ProviderMatchesView) -> SpecialView {
    if m.youtube is Some {
        match group_of(m.youtube, 1) {
            Some(id) => SpecialView::YouTube { id, timestamp: group_of(m.timestamp, 1) },
            None => SpecialView::Unknown,
        }
    } else if m.twitch_video is Some {
        twitch_of(m.twitch_video, TwitchType::Video)
    } else if m.twitch_clip is Some {
        twitch_of(m.twitch_clip, TwitchType::Clip)
    } else if m.twitch_channel is Some {
        twitch_of(m.twitch_channel, TwitchType::Channel)
    } else if m.spotify is Some {
        match (group_of(m.spotify, 1), group_of(m.spotify, 2)) {
            (Some(kind), Some(id)) => SpecialView::Spotify { content_type: kind, id },
            _ => SpecialView::Unknown,
        }
    } else if m.soundcloud is Some {
        SpecialView::Soundcloud
    } else if m.bandcamp is Some {
        match group_of(m.bandcamp_track, 1) {
            Some(id) => SpecialView::Bandcamp { content_type: BandcampType::Track, id },
            None => match group_of(m.bandcamp_album, 1) {
                Some(id) => SpecialView::Bandcamp { content_type: BandcampType::Album, id },
                None => SpecialView::Unknown,
            },
        }
    } else {
        SpecialView::Unknown
    }
}

/// The provider of a page at `url` whose video, if any, is at `video`.
pub open spec fn special_of(url: Seq<char>, video: Option<Seq<char>>) -> SpecialView {
    provider_of(matches_of(url, video))
}

fn twitch(caps: &Option<Vec<Option<String>>>, kind: TwitchType) -> (r: Special)
    ensures
        r@ == twitch_of(captures_view(*caps), kind),
{
    match group(caps, 1) {
        Some(id) => Special::Twitch { content_type: kind, id },
        None => Special::Unknown,
    }
}

/// The provider that the pattern results `m` point to.
pub fn classify(m: &ProviderMatches) -> (r: Special)
    ensures
        r@ == provider_of(m@),
{
    if m.youtube.is_some() {
        match group(&m.youtube, 1) {
            Some(id) => Special::YouTube { id, timestamp: group(&m.timestamp, 1) },
            None => Special::Unknown,
        }
    } else if m.twitch_video.is_some() {
        twitch(&m.twitch_video, TwitchType::Video)
    } else if m.twitch_clip.is_some() {
        twitch(&m.twitch_clip, TwitchType::Clip)
    } else if m.twitch_channel.is_some() {
        twitch(&m.twitch_channel, TwitchType::Channel)
    } else if m.spotify.is_some() {
        match (group(&m.spotify, 1), group(&m.spotify, 2)) {
            (Some(kind), Some(id)) => Special::Spotify { content_type: kind, id },
            _ => Special::Unknown,
        }
    } else if m.soundcloud.is_some() {
        Special::Soundcloud
    } else if m.bandcamp.is_some() {
        match group(&m.bandcamp_track, 1) {
            Some(id) => Special::Bandcamp { content_type: BandcampType::Track, id },
            None => match group(&m.bandcamp_album, 1) {
                Some(id) => Special::Bandcamp { content_type: BandcampType::Album, id },
                None => Special::Unknown,
            },
        }
    } else {
        Special::Unknown
    }
}

fn captures_in(pattern: &'static str, text: Option<&String>) -> (r: Option<Vec<Option<String>>>)
    ensures
        captures_view(r) == (match text {
            Some(t) => regex_captures(pattern@, t@),
            None => None,
        }),
{
    match text {
        Some(t) => first_captures(pattern, t.as_str()),
        None => None,
    }
}

/// The provider of a page at `url` whose video, if any, is at `video`.
pub fn special_for(url: &String, video: Option<&String>) -> (r: Special)
    ensures
        r@ == special_of(
            url@,
            match video {
                Some(v) => Some(v@),
                None => None,
            },
        ),
{
    let m = ProviderMatches {
        youtube: first_captures(YOUTUBE, url.as_str()),
        twitch_video: first_captures(TWITCH_VIDEO, url.as_str()),
        twitch_clip: first_captures(TWITCH_CLIP, url.as_str()),
        twitch_channel: first_captures(TWITCH_CHANNEL, url.as_str()),
        spotify: first_captures(SPOTIFY, url.as_str()),
        soundcloud: first_captures(SOUNDCLOUD, url.as_str()),
        bandcamp: first_captures(BANDCAMP, url.as_str()),
        timestamp: captures_in(TIMESTAMP, video),
        bandcamp_track: captures_in(BANDCAMP_TRACK, video),
        bandcamp_album: captures_in(BANDCAMP_ALBUM, video),
    };
    classify(&m)
}

} // verus!
