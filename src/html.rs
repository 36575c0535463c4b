//! The tags of an HTML document, as far as the metadata scan reads them.
use vstd::prelude::*;

verus! {

/// A tag of a document: its name, and for each attribute key that was asked
/// for, in the same order, that attribute's value where the tag has one.
pub struct HtmlTag {
    pub name: String,
    pub values: Vec<Option<String>>,
}

/// A tag as values.
pub struct TagView {
    pub name: Seq<char>,
    pub values: Seq<Option<Seq<char>>>,
}

impl View for HtmlTag {
    type V = TagView;

    open spec fn view(&self) -> TagView {
        TagView {
            name: self.name@,
            values: self.values@.map_values(
                |v: Option<String>|
                    match v {
                        Some(s) => Some(s@),
                        None => None,
                    },
            ),
        }
    }
}

/// The tags of the document `text`, in document order, each with the values
/// of the attributes `keys`; `None` where the text is not parseable as HTML.
pub uninterp spec fn html_tags(text: Seq<char>, keys: Seq<Seq<char>>) -> Option<Seq<TagView>>;

pub open spec fn keys_view(keys: Seq<&'static str>) -> Seq<Seq<char>> {
    keys.map_values(|k: &'static str| k@)
}

pub open spec fn tags_view(tags: Option<Vec<HtmlTag>>) -> Option<Seq<TagView>> {
    match tags {
        Some(v) => Some(v@.map_values(|t: HtmlTag| t@)),
        None => None,
    }
}

/// Relies on `tl::parse`, which parses the document, and on tl's
/// `Attributes::get`, which looks up an attribute of a tag. The result
/// depends on the text and the keys alone.
#[verifier::external_body]
pub(crate) fn parse_tags(text: &str, keys: &Vec<&'static str>) -> (r: Option<Vec<HtmlTag>>)
    ensures
        tags_view(r) == html_tags(text@, keys_view(keys@)),
{
    let dom = tl::parse(text, tl::ParserOptions::default()).ok()?;
    Some(dom.nodes().iter().filter_map(|node| node.as_tag()).map(|tag| HtmlTag {
        name: tag.name().as_utf8_str().to_string(),
        values: keys.iter().map(|k| {
            tag.attributes().get(*k).flatten().map(|v| v.as_utf8_str().to_string())
        }).collect(),
    }).collect())
}

/// The value of the `k`-th asked-for attribute of `t`.
pub open spec fn value_of(t: TagView, k: int) -> Option<Seq<char>> {
    if 0 <= k < t.values.len() {
        t.values[k]
    } else {
        None
    }
}

impl HtmlTag {
    /// The value of the `k`-th asked-for attribute.
    pub fn value(&self, k: usize) -> (r: Option<&String>)
        ensures
            (match r {
                Some(s) => Some(s@),
                None => None,
            }) == value_of(self@, k as int),
    {
        if k < self.values.len() {
            match &self.values[k] {
                Some(s) => Some(s),
                None => None,
            }
        } else {
            None
        }
    }
}

} // verus!
