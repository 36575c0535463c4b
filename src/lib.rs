//! Link-preview metadata: a scan of a page's `<meta>` and `<link>` tags into a
//! record, recognition of embeddable media providers, and the decision whether
//! an image's pixel size has to be fetched.
use vstd::prelude::*;

pub mod error;
pub mod html;
pub mod media;
pub mod metadata;
pub mod pattern;
pub mod special;
pub mod text;

verus! {

} // verus!
