//! The preview record of a page: how it is read from the page's tags, and
//! the two passes that enrich it.
use vstd::prelude::*;
use crate::error::Error;
use crate::html::{html_tags, keys_view, parse_tags, value_of, HtmlTag, TagView};
use crate::media::{blank_image, blank_video, Image, ImageSize, ImageView, Video, VideoView};
use crate::special::{no_provider_matches, opt_view, special_for, special_of, Special, SpecialView};
use crate::text::{dimension_of, is_word, parse_dimension};

verus! {

/// What a page says about itself, for its preview.
#[derive(Debug)]
pub struct Metadata {
    url: String,
    special: Option<Special>,
    title: Option<String>,
    description: Option<String>,
    image: Option<Image>,
    video: Option<Video>,
    opengraph_type: Option<String>,
    site_name: Option<String>,
    icon_url: Option<String>,
    colour: Option<String>,
}

/// A preview record as values.
pub struct MetadataView {
    pub url: Seq<char>,
    pub special: Option<SpecialView>,
    pub title: Option<Seq<char>>,
    pub description: Option<Seq<char>>,
    pub image: Option<ImageView>,
    pub video: Option<VideoView>,
    pub opengraph_type: Option<Seq<char>>,
    pub site_name: Option<Seq<char>>,
    pub icon_url: Option<Seq<char>>,
    pub colour: Option<Seq<char>>,
}

impl View for Metadata {
    type V = MetadataView;

    closed spec fn view(&self) -> MetadataView {
        MetadataView {
            url: self.url@,
            special: match self.special {
                Some(s) => Some(s@),
                None => None,
            },
            title: opt_view(self.title),
            description: opt_view(self.description),
            image: match self.image {
                Some(i) => Some(i@),
                None => None,
            },
            video: match self.video {
                Some(v) => Some(v@),
                None => None,
            },
            opengraph_type: opt_view(self.opengraph_type),
            site_name: opt_view(self.site_name),
            icon_url: opt_view(self.icon_url),
            colour: opt_view(self.colour),
        }
    }
}

/// Position of `rel` among the attribute keys that the scan reads.
pub const REL: usize = 0;

/// Position of `href` among the attribute keys.
pub const HREF: usize = 1;

/// Position of `property` among the attribute keys.
pub const PROPERTY: usize = 2;

/// Position of `name` among the attribute keys.
pub const NAME: usize = 3;

/// Position of `content` among the attribute keys.
pub const CONTENT: usize = 4;

/// The attribute keys that the scan reads, in the order of the positions above.
pub open spec fn tag_keys() -> Seq<Seq<char>> {
    seq!["rel"@, "href"@, "property"@, "name"@, "content"@]
}

/// A `<link>` tag naming an icon, with an address.
pub open spec fn is_icon_link(t: TagView) -> bool {
    &&& t.name == "link"@
    &&& value_of(t, HREF as int) is Some
    &&& (value_of(t, REL as int) == Some("icon"@) || value_of(t, REL as int) == Some(
        "apple-touch-icon"@,
    ))
}

/// The address of the first icon link among `tags`.
pub open spec fn icon_href(tags: Seq<TagView>) -> Option<Seq<char>>
    decreases tags.len(),
{
    if tags.len() == 0 {
        None
    } else if is_icon_link(tags[0]) {
        value_of(tags[0], HREF as int)
    } else {
        icon_href(tags.drop_first())
    }
}

/// The key and the content of a `<meta>` tag: the key is its `property`,
/// or its `name` where it has no `property`; both must be there.
pub open spec fn meta_entry(t: TagView) -> Option<(Seq<char>, Seq<char>)> {
    if t.name == "meta"@ {
        let key = if value_of(t, PROPERTY as int) is Some {
            value_of(t, PROPERTY as int)
        } else {
            value_of(t, NAME as int)
        };
        match (key, value_of(t, CONTENT as int)) {
            (Some(k), Some(c)) => Some((k, c)),
            _ => None,
        }
    } else {
        None
    }
}

pub open spec fn is_title_key(k: Seq<char>) -> bool {
    k == "og:title"@ || k == "twitter:title"@ || k == "title"@
}

pub open spec fn is_description_key(k: Seq<char>) -> bool {
    k == "og:description"@ || k == "twitter:description"@ || k == "description"@
}

pub open spec fn is_image_key(k: Seq<char>) -> bool {
    k == "og:image"@ || k == "og:image:secure_url"@ || k == "twitter:image"@ || k
        == "twitter:image:src"@
}

pub open spec fn is_video_key(k: Seq<char>) -> bool {
    k == "og:video"@ || k == "og:video:secure_url"@ || k == "twitter:video"@ || k
        == "twitter:video:src"@
}

pub open spec fn image_or_blank(i: Option<ImageView>) -> ImageView {
    match i {
        Some(i) => i,
        None => blank_image(),
    }
}

pub open spec fn video_or_blank(v: Option<VideoView>) -> VideoView {
    match v {
        Some(v) => v,
        None => blank_video(),
    }
}

/// The record after one `<meta>` entry with key `k` and content `c`.
pub open spec fn with_meta(md: MetadataView, k: Seq<char>, c: Seq<char>) -> MetadataView {
    if is_title_key(k) {
        if md.title is Some {
            md
        } else {
            MetadataView { title: Some(c), ..md }
        }
    } else if is_description_key(k) {
        if md.description is Some {
            md
        } else {
            MetadataView { description: Some(c), ..md }
        }
    } else if is_image_key(k) {
        if md.image is Some {
            md
        } else {
            MetadataView { image: Some(ImageView { url: c, ..blank_image() }), ..md }
        }
    } else if k == "og:image:width"@ {
        MetadataView {
            image: Some(ImageView { width: dimension_of(c), ..image_or_blank(md.image) }),
            ..md
        }
    } else if k == "og:image:height"@ {
        MetadataView {
            image: Some(ImageView { height: dimension_of(c), ..image_or_blank(md.image) }),
            ..md
        }
    } else if is_video_key(k) {
        if md.video is Some {
            md
        } else {
            MetadataView { video: Some(VideoView { url: c, ..blank_video() }), ..md }
        }
    } else if k == "og:video:width"@ {
        MetadataView {
            video: Some(VideoView { width: dimension_of(c), ..video_or_blank(md.video) }),
            ..md
        }
    } else if k == "og:video:height"@ {
        MetadataView {
            video: Some(VideoView { height: dimension_of(c), ..video_or_blank(md.video) }),
            ..md
        }
    } else if k == "twitter:card"@ {
        if c == "summary_large_image"@ {
            MetadataView {
                image: Some(ImageView { size: ImageSize::Large, ..image_or_blank(md.image) }),
                ..md
            }
        } else {
            md
        }
    } else if k == "theme-color"@ {
        MetadataView { colour: Some(c), ..md }
    } else if k == "og:type"@ {
        MetadataView { opengraph_type: Some(c), ..md }
    } else if k == "og:site_name"@ {
        MetadataView { site_name: Some(c), ..md }
    } else if k == "og:url"@ {
        MetadataView { url: c, ..md }
    } else {
        md
    }
}

/// The record after one tag: only `<meta>` entries change it.
pub open spec fn with_tag(md: MetadataView, t: TagView) -> MetadataView {
    match meta_entry(t) {
        Some((k, c)) => with_meta(md, k, c),
        None => md,
    }
}

/// The record after the tags, in order.
pub open spec fn scan(md: MetadataView, tags: Seq<TagView>) -> MetadataView
    decreases tags.len(),
{
    if tags.len() == 0 {
        md
    } else {
        with_tag(scan(md, tags.drop_last()), tags.last())
    }
}

/// A record with the address `url` and nothing else.
pub open spec fn fresh(url: Seq<char>) -> MetadataView {
    MetadataView {
        url,
        special: None,
        title: None,
        description: None,
        image: None,
        video: None,
        opengraph_type: None,
        site_name: None,
        icon_url: None,
        colour: None,
    }
}

/// The record of a page with the tags `tags`, fetched from `url`: the first
/// icon link's address stands in for `url`, then the tags are scanned.
pub open spec fn metadata_of(tags: Seq<TagView>, url: Seq<char>) -> MetadataView {
    let start = match icon_href(tags) {
        Some(h) => h,
        None => url,
    };
    scan(fresh(start), tags)
}

/// The address of the page's video, if it declared one.
pub open spec fn video_url(md: MetadataView) -> Option<Seq<char>> {
    match md.video {
        Some(v) => Some(v.url),
        None => None,
    }
}

/// The address whose image has to be fetched to learn its size: none where
/// there is no image or the page declared both dimensions.
pub open spec fn image_to_measure(md: MetadataView) -> Option<Seq<char>> {
    match md.image {
        Some(i) => if i.width != 0 && i.height != 0 {
            None
        } else {
            Some(i.url)
        },
        None => None,
    }
}

pub open spec fn tags_seq(tags: Seq<HtmlTag>) -> Seq<TagView> {
    tags.map_values(|t: HtmlTag| t@)
}

pub open spec fn ref_view(s: Option<&String>) -> Option<Seq<char>> {
    match s {
        Some(t) => Some(t@),
        None => None,
    }
}

fn field_ref(s: &Option<String>) -> (r: Option<&String>)
    ensures
        ref_view(r) == opt_view(*s),
{
    match s {
        Some(t) => Some(t),
        None => None,
    }
}

fn is_title_word(k: &String) -> (r: bool)
    ensures
        r == is_title_key(k@),
{
    is_word(k, "og:title") || is_word(k, "twitter:title") || is_word(k, "title")
}

fn is_description_word(k: &String) -> (r: bool)
    ensures
        r == is_description_key(k@),
{
    is_word(k, "og:description") || is_word(k, "twitter:description") || is_word(k, "description")
}

fn is_image_word(k: &String) -> (r: bool)
    ensures
        r == is_image_key(k@),
{
    is_word(k, "og:image") || is_word(k, "og:image:secure_url") || is_word(k, "twitter:image")
        || is_word(k, "twitter:image:src")
}

fn is_video_word(k: &String) -> (r: bool)
    ensures
        r == is_video_key(k@),
{
    is_word(k, "og:video") || is_word(k, "og:video:secure_url") || is_word(k, "twitter:video")
        || is_word(k, "twitter:video:src")
}

fn is_icon(t: &HtmlTag) -> (r: bool)
    ensures
        r == is_icon_link(t@),
{
    if !is_word(&t.name, "link") || t.value(HREF).is_none() {
        return false;
    }
    match t.value(REL) {
        Some(rel) => is_word(rel, "icon") || is_word(rel, "apple-touch-icon"),
        None => false,
    }
}

/// The address of the first icon link among `tags`.
fn find_icon(tags: &Vec<HtmlTag>) -> (r: Option<String>)
    ensures
        opt_view(r) == icon_href(tags_seq(tags@)),
{
    let ghost all = tags_seq(tags@);
    let mut i: usize = 0;
    assert(all.subrange(0, all.len() as int) =~= all);
    while i < tags.len()
        invariant
            0 <= i <= tags.len(),
            all == tags_seq(tags@),
            icon_href(all) == icon_href(all.subrange(i as int, all.len() as int)),
        decreases tags.len() - i,
    {
        let ghost rest = all.subrange(i as int, all.len() as int);
        assert(rest[0] == tags@[i as int]@);
        assert(rest.drop_first() =~= all.subrange(i + 1, all.len() as int));
        if is_icon(&tags[i]) {
            return match tags[i].value(HREF) {
                Some(h) => Some(h.clone()),
                None => None,
            };
        }
        i = i + 1;
    }
    assert(all.subrange(i as int, all.len() as int).len() == 0);
    None
}

/// Scanning one more tag is taking it in after the others.
proof fn lemma_scan_push(md: MetadataView, tags: Seq<TagView>, t: TagView)
    ensures
        scan(md, tags.push(t)) == with_tag(scan(md, tags), t),
{
    assert(tags.push(t).drop_last() =~= tags);
}

/// Once a page has set its title, description, image or video, a later tag
/// of the same kind leaves what was set as it is.
pub proof fn lemma_first_value_kept(md: MetadataView, tags: Seq<TagView>, t: TagView)
    requires
        meta_entry(t) is Some,
    ensures
        ({
            let (k, c) = meta_entry(t)->0;
            let before = scan(md, tags);
            let after = scan(md, tags.push(t));
            &&& is_title_key(k) && before.title is Some ==> after.title == before.title
            &&& is_description_key(k) && before.description is Some ==> after.description
                == before.description
            &&& is_image_key(k) && before.image is Some ==> after.image == before.image
            &&& is_video_key(k) && before.video is Some ==> after.video == before.video
        }),
{
    lemma_scan_push(md, tags, t);
}

/// A width, height, theme colour or canonical address tag always sets its
/// value, whatever came before it.
pub proof fn lemma_latest_value_applies(md: MetadataView, tags: Seq<TagView>, t: TagView)
    requires
        meta_entry(t) is Some,
    ensures
        ({
            let (k, c) = meta_entry(t)->0;
            let after = scan(md, tags.push(t));
            &&& k == "og:image:width"@ ==> after.image is Some && after.image->0.width
                == dimension_of(c)
            &&& k == "og:image:height"@ ==> after.image is Some && after.image->0.height
                == dimension_of(c)
            &&& k == "og:video:width"@ ==> after.video is Some && after.video->0.width
                == dimension_of(c)
            &&& k == "og:video:height"@ ==> after.video is Some && after.video->0.height
                == dimension_of(c)
            &&& k == "theme-color"@ ==> after.colour == Some(c)
            &&& k == "og:url"@ ==> after.url == c
        }),
{
    lemma_scan_push(md, tags, t);
    reveal_strlit("og:title");
    reveal_strlit("twitter:title");
    reveal_strlit("title");
    reveal_strlit("og:description");
    reveal_strlit("twitter:description");
    reveal_strlit("description");
    reveal_strlit("og:image");
    reveal_strlit("og:image:secure_url");
    reveal_strlit("twitter:image");
    reveal_strlit("twitter:image:src");
    reveal_strlit("og:image:width");
    reveal_strlit("og:image:height");
    reveal_strlit("og:video");
    reveal_strlit("og:video:secure_url");
    reveal_strlit("twitter:video");
    reveal_strlit("twitter:video:src");
    reveal_strlit("og:video:width");
    reveal_strlit("og:video:height");
    reveal_strlit("twitter:card");
    reveal_strlit("theme-color");
    reveal_strlit("og:type");
    reveal_strlit("og:site_name");
    reveal_strlit("og:url");
    assert("og:image:width"@[3] != "og:description"@[3]);
    assert("og:video:width"@[3] != "og:description"@[3]);
    assert("og:video:width"@[3] != "og:image:width"@[3]);
    assert("og:video:height"@[3] != "og:image:height"@[3]);
    assert("theme-color"@[0] != "description"@[0]);
    assert("og:title"@.len() == 8);
    assert("twitter:title"@.len() == 13);
    assert("title"@.len() == 5);
    assert("og:description"@.len() == 14);
    assert("twitter:description"@.len() == 19);
    assert("description"@.len() == 11);
    assert("og:image"@.len() == 8);
    assert("og:image:secure_url"@.len() == 19);
    assert("twitter:image"@.len() == 13);
    assert("twitter:image:src"@.len() == 17);
    assert("og:image:width"@.len() == 14);
    assert("og:image:height"@.len() == 15);
    assert("og:video"@.len() == 8);
    assert("og:video:secure_url"@.len() == 19);
    assert("twitter:video"@.len() == 13);
    assert("twitter:video:src"@.len() == 17);
    assert("og:video:width"@.len() == 14);
    assert("og:video:height"@.len() == 15);
    assert("twitter:card"@.len() == 12);
    assert("theme-color"@.len() == 11);
    assert("og:type"@.len() == 7);
    assert("og:site_name"@.len() == 12);
    assert("og:url"@.len() == 6);
}

/// A tag repeated right after itself changes nothing more.
pub proof fn lemma_repeated_tag(md: MetadataView, tags: Seq<TagView>, t: TagView)
    ensures
        scan(md, tags.push(t).push(t)) == scan(md, tags.push(t)),
{
    lemma_scan_push(md, tags, t);
    lemma_scan_push(md, tags.push(t), t);
}

proof fn lemma_no_icon(tags: Seq<TagView>)
    requires
        forall|i: int| 0 <= i < tags.len() ==> (#[trigger] tags[i]).name != "link"@,
    ensures
        icon_href(tags) is None,
    decreases tags.len(),
{
    if tags.len() > 0 {
        assert(tags[0].name != "link"@);
        let rest = tags.drop_first();
        assert forall|i: int| 0 <= i < rest.len() implies (#[trigger] rest[i]).name != "link"@ by {
            assert(rest[i] == tags[i + 1]);
        }
        lemma_no_icon(rest);
    }
}

proof fn lemma_no_meta(md: MetadataView, tags: Seq<TagView>)
    requires
        forall|i: int| 0 <= i < tags.len() ==> (#[trigger] tags[i]).name != "meta"@,
    ensures
        scan(md, tags) == md,
    decreases tags.len(),
{
    if tags.len() > 0 {
        let rest = tags.drop_last();
        assert(tags.last() == tags[tags.len() - 1]);
        assert forall|i: int| 0 <= i < rest.len() implies (#[trigger] rest[i]).name != "meta"@ by {
            assert(rest[i] == tags[i]);
        }
        lemma_no_meta(md, rest);
    }
}

/// A page without `<meta>` and `<link>` tags gives a record that has nothing
/// to show, at the address it was fetched from; where no provider rule
/// matches that address, its provider is unknown.
pub proof fn lemma_tag_free_page(tags: Seq<TagView>, url: Seq<char>)
    requires
        forall|i: int|
            0 <= i < tags.len() ==> (#[trigger] tags[i]).name != "meta"@ && tags[i].name
                != "link"@,
    ensures
        metadata_of(tags, url) == fresh(url),
        metadata_of(tags, url).title is None,
        metadata_of(tags, url).description is None,
        metadata_of(tags, url).image is None,
        no_provider_matches(url) ==> special_of(
            metadata_of(tags, url).url,
            video_url(metadata_of(tags, url)),
        ) == SpecialView::Unknown,
{
    lemma_no_icon(tags);
    lemma_no_meta(fresh(url), tags);
}

impl Metadata {
    fn fresh(url: String) -> (r: Metadata)
        ensures
            r@ == fresh(url@),
    {
        Metadata {
            url,
            special: None,
            title: None,
            description: None,
            image: None,
            video: None,
            opengraph_type: None,
            site_name: None,
            icon_url: None,
            colour: None,
        }
    }

    fn image_or_blank(&mut self) -> (r: Image)
        ensures
            r@ == image_or_blank(old(self)@.image),
            final(self)@ == (MetadataView { image: None, ..old(self)@ }),
    {
        match self.image.take() {
            Some(i) => i,
            None => Image::blank(),
        }
    }

    fn video_or_blank(&mut self) -> (r: Video)
        ensures
            r@ == video_or_blank(old(self)@.video),
            final(self)@ == (MetadataView { video: None, ..old(self)@ }),
    {
        match self.video.take() {
            Some(v) => v,
            None => Video::blank(),
        }
    }

    /// Takes in one `<meta>` entry with key `k` and content `c`.
    fn apply_meta(&mut self, k: &String, c: &String)
        ensures
            final(self)@ == with_meta(old(self)@, k@, c@),
    {
        if is_title_word(k) {
            if self.title.is_none() {
                self.title = Some(c.clone());
            }
        } else if is_description_word(k) {
            if self.description.is_none() {
                self.description = Some(c.clone());
            }
        } else if is_image_word(k) {
            if self.image.is_none() {
                let mut image = Image::blank();
                image.url = c.clone();
                self.image = Some(image);
            }
        } else if is_word(k, "og:image:width") {
            let mut image = self.image_or_blank();
            image.width = parse_dimension(c);
            self.image = Some(image);
        } else if is_word(k, "og:image:height") {
            let mut image = self.image_or_blank();
            image.height = parse_dimension(c);
            self.image = Some(image);
        } else if is_video_word(k) {
            if self.video.is_none() {
                let mut video = Video::blank();
                video.url = c.clone();
                self.video = Some(video);
            }
        } else if is_word(k, "og:video:width") {
            let mut video = self.video_or_blank();
            video.width = parse_dimension(c);
            self.video = Some(video);
        } else if is_word(k, "og:video:height") {
            let mut video = self.video_or_blank();
            video.height = parse_dimension(c);
            self.video = Some(video);
        } else if is_word(k, "twitter:card") {
            if is_word(c, "summary_large_image") {
                let mut image = self.image_or_blank();
                image.size = ImageSize::Large;
                self.image = Some(image);
            }
        } else if is_word(k, "theme-color") {
            self.colour = Some(c.clone());
        } else if is_word(k, "og:type") {
            self.opengraph_type = Some(c.clone());
        } else if is_word(k, "og:site_name") {
            self.site_name = Some(c.clone());
        } else if is_word(k, "og:url") {
            self.url = c.clone();
        }
    }

    /// Takes in one tag of the page.
    fn apply_tag(&mut self, t: &HtmlTag)
        ensures
            final(self)@ == with_tag(old(self)@, t@),
    {
        if is_word(&t.name, "meta") {
            let key = match t.value(PROPERTY) {
                Some(p) => Some(p),
                None => t.value(NAME),
            };
            if let (Some(k), Some(c)) = (key, t.value(CONTENT)) {
                self.apply_meta(k, c);
            }
        }
    }

    /// Reads the record of a page from its HTML `text`; `url` is the address
    /// it was fetched from. Fails only where the text is not parseable as HTML.
    pub fn from(text: &str, url: String) -> (r: Result<Metadata, Error>)
        ensures
            match r {
                Ok(md) => html_tags(text@, tag_keys()) is Some && md@ == metadata_of(
                    html_tags(text@, tag_keys())->0,
                    url@,
                ),
                Err(e) => html_tags(text@, tag_keys()) is None && e == Error::FailedToConsumeText,
            },
    {
        let keys: Vec<&'static str> = vec!["rel", "href", "property", "name", "content"];
        assert(keys_view(keys@) =~= tag_keys());
        match parse_tags(text, &keys) {
            Some(tags) => Ok(Metadata::from_tags(&tags, url)),
            None => Err(Error::FailedToConsumeText),
        }
    }

    /// The record of a page with the tags `tags`, in document order, each
    /// with the values of `rel`, `href`, `property`, `name` and `content` in
    /// that order; `url` is the address it was fetched from.
    pub fn from_tags(tags: &Vec<HtmlTag>, url: String) -> (r: Metadata)
        ensures
            r@ == metadata_of(tags_seq(tags@), url@),
    {
        let ghost all = tags_seq(tags@);
        let start = match find_icon(tags) {
            Some(h) => h,
            None => url,
        };
        let ghost start_view = start@;
        let mut md = Metadata::fresh(start);
        let mut i: usize = 0;
        while i < tags.len()
            invariant
                0 <= i <= tags.len(),
                all == tags_seq(tags@),
                md@ == scan(fresh(start_view), all.subrange(0, i as int)),
            decreases tags.len() - i,
        {
            md.apply_tag(&tags[i]);
            assert(all.subrange(0, i + 1).drop_last() =~= all.subrange(0, i as int));
            i = i + 1;
        }
        assert(all.subrange(0, i as int) =~= all);
        md
    }

    /// The provider of this page, from its address and its video's address.
    pub fn generate_special(&self) -> (r: Special)
        ensures
            r@ == special_of(self@.url, video_url(self@)),
    {
        match &self.video {
            Some(v) => special_for(&self.url, Some(&v.url)),
            None => special_for(&self.url, None),
        }
    }

    /// Records the provider of this page.
    pub fn resolve_special(&mut self)
        ensures
            final(self)@ == (MetadataView {
                special: Some(special_of(old(self)@.url, video_url(old(self)@))),
                ..old(self)@
            }),
    {
        let special = self.generate_special();
        self.special = Some(special);
    }

    /// The address of the image to fetch to learn its pixel size, where the
    /// page did not declare both dimensions.
    pub fn image_fetch_target(&self) -> (r: Option<String>)
        ensures
            opt_view(r) == image_to_measure(self@),
    {
        match &self.image {
            Some(image) => if image.width != 0 && image.height != 0 {
                None
            } else {
                Some(image.url.clone())
            },
            None => None,
        }
    }

    /// Takes in what measuring the image gave: its width and height, or a
    /// failure, after which the record has no image at all.
    pub fn resolve_image(&mut self, measured: Result<(isize, isize), Error>)
        ensures
            final(self)@ == (match measured {
                Ok((w, h)) => MetadataView {
                    image: match old(self)@.image {
                        Some(i) => Some(ImageView { width: w as int, height: h as int, ..i }),
                        None => None,
                    },
                    ..old(self)@
                },
                Err(_) => MetadataView { image: None, ..old(self)@ },
            }),
    {
        match measured {
            Ok((w, h)) => {
                if let Some(mut image) = self.image.take() {
                    image.width = w;
                    image.height = h;
                    self.image = Some(image);
                }
            },
            Err(_) => {
                self.image = None;
            },
        }
    }

    /// Whether the page gave nothing to show: no title, no description and no image.
    pub fn is_none(&self) -> (r: bool)
        ensures
            r == (self@.title is None && self@.description is None && self@.image is None),
    {
        self.title.is_none() && self.description.is_none() && self.image.is_none()
    }
    /// The page's canonical address.
    pub fn url(&self) -> (r: &String)
        ensures
            r@ == self@.url,
    {
        &self.url
    }

    /// The provider of the page, once it has been resolved.
    pub fn special(&self) -> (r: Option<&Special>)
        ensures
            (match r {
                Some(s) => Some(s@),
                None => None,
            }) == self@.special,
    {
        match &self.special {
            Some(s) => Some(s),
            None => None,
        }
    }

    pub fn title(&self) -> (r: Option<&String>)
        ensures
            ref_view(r) == self@.title,
    {
        field_ref(&self.title)
    }

    pub fn description(&self) -> (r: Option<&String>)
        ensures
            ref_view(r) == self@.description,
    {
        field_ref(&self.description)
    }

    pub fn image(&self) -> (r: Option<&Image>)
        ensures
            (match r {
                Some(i) => Some(i@),
                None => None,
            }) == self@.image,
    {
        match &self.image {
            Some(i) => Some(i),
            None => None,
        }
    }

    pub fn video(&self) -> (r: Option<&Video>)
        ensures
            (match r {
                Some(v) => Some(v@),
                None => None,
            }) == self@.video,
    {
        match &self.video {
            Some(v) => Some(v),
            None => None,
        }
    }

    pub fn opengraph_type(&self) -> (r: Option<&String>)
        ensures
            ref_view(r) == self@.opengraph_type,
    {
        field_ref(&self.opengraph_type)
    }

    pub fn site_name(&self) -> (r: Option<&String>)
        ensures
            ref_view(r) == self@.site_name,
    {
        field_ref(&self.site_name)
    }

    pub fn icon_url(&self) -> (r: Option<&String>)
        ensures
            ref_view(r) == self@.icon_url,
    {
        field_ref(&self.icon_url)
    }

    pub fn colour(&self) -> (r: Option<&String>)
        ensures
            ref_view(r) == self@.colour,
    {
        field_ref(&self.colour)
    }
}

} // verus!
