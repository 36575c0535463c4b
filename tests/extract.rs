use january::error::Error;
use january::html::HtmlTag;
use january::media::ImageSize;
use january::metadata::Metadata;

fn page(head: &str) -> String {
    format!("<html><head>{}</head><body></body></html>", head)
}

fn read(head: &str) -> Metadata {
    Metadata::from(&page(head), "https://example.com/page".to_string()).unwrap()
}

#[test]
fn first_title_and_description_win() {
    let md = read(
        "<meta property=\"og:title\" content=\"First\">\
         <meta name=\"twitter:title\" content=\"Second\">\
         <meta name=\"description\" content=\"One\">\
         <meta property=\"og:description\" content=\"Two\">",
    );
    assert_eq!(md.title().unwrap(), "First");
    assert_eq!(md.description().unwrap(), "One");
}

#[test]
fn first_image_and_video_urls_win() {
    let md = read(
        "<meta property=\"og:image\" content=\"https://a.example/1.png\">\
         <meta property=\"twitter:image\" content=\"https://a.example/2.png\">\
         <meta property=\"og:video\" content=\"https://v.example/1\">\
         <meta property=\"og:video\" content=\"https://v.example/2\">",
    );
    assert_eq!(md.image().unwrap().url, "https://a.example/1.png");
    assert_eq!(md.video().unwrap().url, "https://v.example/1");
}

#[test]
fn latest_dimensions_colour_and_url_apply() {
    let md = read(
        "<meta property=\"og:image\" content=\"https://a.example/1.png\">\
         <meta property=\"og:image:width\" content=\"100\">\
         <meta property=\"og:image:width\" content=\"640\">\
         <meta property=\"og:image:height\" content=\"-3\">\
         <meta property=\"og:image:height\" content=\"480\">\
         <meta name=\"theme-color\" content=\"#111111\">\
         <meta name=\"theme-color\" content=\"#222222\">\
         <meta property=\"og:url\" content=\"https://one.example\">\
         <meta property=\"og:url\" content=\"https://two.example\">",
    );
    let image = md.image().unwrap();
    assert_eq!(image.width, 640);
    assert_eq!(image.height, 480);
    assert_eq!(md.colour().unwrap(), "#222222");
    assert_eq!(md.url(), "https://two.example");
}

#[test]
fn repeated_identical_tag_keeps_value() {
    let md = read(
        "<meta property=\"og:title\" content=\"Same\">\
         <meta property=\"og:title\" content=\"Same\">",
    );
    assert_eq!(md.title().unwrap(), "Same");
}

#[test]
fn dimension_that_is_no_integer_reads_as_zero() {
    let md = read(
        "<meta property=\"og:video:width\" content=\"wide\">\
         <meta property=\"og:video:height\" content=\"99999999999999999999999\">\
         <meta property=\"og:image:width\" content=\"+12\">",
    );
    let video = md.video().unwrap();
    assert_eq!(video.width, 0);
    assert_eq!(video.height, 0);
    assert_eq!(video.url, "");
    assert_eq!(md.image().unwrap().width, 12);
}

#[test]
fn empty_page_has_nothing() {
    let md = Metadata::from("", "https://example.com".to_string()).unwrap();
    assert!(md.is_none());
    assert_eq!(md.url(), "https://example.com");
    assert!(md.special().is_none());
}

#[test]
fn tag_free_page_has_nothing() {
    let mut md = read("<title>Not a meta tag</title>");
    assert!(md.is_none());
    assert_eq!(md.url(), "https://example.com/page");
    md.resolve_special();
    assert_eq!(md.special(), Some(&january::special::Special::Unknown));
}

#[test]
fn large_card_makes_image_large() {
    let md = read(
        "<meta name=\"twitter:card\" content=\"summary_large_image\">\
         <meta property=\"og:image\" content=\"https://a.example/1.png\">",
    );
    assert_eq!(md.image().unwrap().size, ImageSize::Large);
    let md = read(
        "<meta property=\"og:image\" content=\"https://a.example/1.png\">\
         <meta name=\"twitter:card\" content=\"summary_large_image\">",
    );
    let image = md.image().unwrap();
    assert_eq!(image.size, ImageSize::Large);
    assert_eq!(image.url, "https://a.example/1.png");
}

#[test]
fn image_without_card_is_preview() {
    let md = read(
        "<meta name=\"twitter:card\" content=\"summary\">\
         <meta property=\"og:image\" content=\"https://a.example/1.png\">",
    );
    assert_eq!(md.image().unwrap().size, ImageSize::Preview);
}

#[test]
fn other_fields_are_read() {
    let md = read(
        "<meta property=\"og:type\" content=\"website\">\
         <meta property=\"og:site_name\" content=\"Example\">\
         <meta property=\"og:unknown\" content=\"ignored\">\
         <meta name=\"og:title\">",
    );
    assert_eq!(md.opengraph_type().unwrap(), "website");
    assert_eq!(md.site_name().unwrap(), "Example");
    assert!(md.title().is_none());
    assert!(md.icon_url().is_none());
    assert!(md.is_none());
}

#[test]
fn property_is_read_before_name() {
    let md = read("<meta property=\"og:title\" name=\"description\" content=\"T\">");
    assert_eq!(md.title().unwrap(), "T");
    assert!(md.description().is_none());
}

#[test]
fn icon_link_replaces_address() {
    let md = read(
        "<link rel=\"stylesheet\" href=\"/style.css\">\
         <link rel=\"apple-touch-icon\" href=\"/touch.png\">\
         <link rel=\"icon\" href=\"/favicon.ico\">",
    );
    assert_eq!(md.url(), "/touch.png");
}

#[test]
fn canonical_url_overrides_icon() {
    let md = read(
        "<link rel=\"icon\" href=\"/favicon.ico\">\
         <meta property=\"og:url\" content=\"https://canonical.example\">",
    );
    assert_eq!(md.url(), "https://canonical.example");
}

fn tag(name: &str, values: [Option<&str>; 5]) -> HtmlTag {
    HtmlTag {
        name: name.to_string(),
        values: values.iter().map(|v| v.map(|s| s.to_string())).collect(),
    }
}

#[test]
fn record_from_given_tags() {
    let tags = vec![
        tag("link", [Some("icon"), Some("/i.png"), None, None, None]),
        tag("meta", [None, None, Some("og:title"), None, Some("Hello")]),
        tag("meta", [None, None, None, Some("description"), Some("World")]),
        tag("div", [None, None, Some("og:title"), None, Some("Ignored")]),
    ];
    let md = Metadata::from_tags(&tags, "https://example.com".to_string());
    assert_eq!(md.url(), "/i.png");
    assert_eq!(md.title().unwrap(), "Hello");
    assert_eq!(md.description().unwrap(), "World");
    assert!(!md.is_none());
}

#[test]
fn declared_size_needs_no_fetch() {
    let md = read(
        "<meta property=\"og:image\" content=\"https://a.example/1.png\">\
         <meta property=\"og:image:width\" content=\"640\">\
         <meta property=\"og:image:height\" content=\"480\">",
    );
    assert_eq!(md.image_fetch_target(), None);
}

#[test]
fn missing_size_needs_fetch() {
    let md = read(
        "<meta property=\"og:image\" content=\"https://a.example/1.png\">\
         <meta property=\"og:image:width\" content=\"640\">",
    );
    assert_eq!(md.image_fetch_target(), Some("https://a.example/1.png".to_string()));
    let md = read("<meta property=\"og:title\" content=\"T\">");
    assert_eq!(md.image_fetch_target(), None);
}

#[test]
fn failed_image_fetch_drops_image() {
    let mut md = read("<meta property=\"og:image\" content=\"https://a.example/1.png\">");
    md.resolve_image(Err(Error::RequestFailed));
    assert!(md.image().is_none());
}

#[test]
fn measured_image_gets_size() {
    let mut md = read(
        "<meta name=\"twitter:card\" content=\"summary_large_image\">\
         <meta property=\"og:image\" content=\"https://a.example/1.png\">",
    );
    md.resolve_image(Ok((320, 200)));
    let image = md.image().unwrap();
    assert_eq!(image.width, 320);
    assert_eq!(image.height, 200);
    assert_eq!(image.size, ImageSize::Large);
}

#[test]
fn status_classes() {
    assert_eq!(Error::NotAllowedToProxy.status_code(), 400);
    assert_eq!(Error::MissingContentType.status_code(), 400);
    assert_eq!(Error::RequestFailed.status_code(), 400);
    assert_eq!(Error::FailedToConsumeText.status_code(), 500);
    assert_eq!(Error::CouldNotDetermineImageSize.status_code(), 500);
    assert_eq!(Error::LabelMe.status_code(), 500);
}
