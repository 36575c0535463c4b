//! Images and videos that a page declares.
use vstd::prelude::*;

verus! {

/// How large a preview a page asks for its image.
#[derive(Debug, Clone, Copy, PartialEq, Eq, Structural)]
pub enum ImageSize {
    Large,
    Preview,
}

impl Default for ImageSize {
    fn default() -> (r: Self)
        ensures
            r == ImageSize::Preview,
    {
        ImageSize::Preview
    }
}

#[derive(Debug, PartialEq, Eq)]
pub struct Image {
    pub url: String,
    pub width: isize,
    pub height: isize,
    pub size: ImageSize,
}

#[derive(Debug, PartialEq, Eq)]
pub struct Video {
    pub url: String,
    pub width: isize,
    pub height: isize,
}

/// An image as values: its address, its pixel size and its size class.
pub struct ImageView {
    pub url: Seq<char>,
    pub width: int,
    pub height: int,
    pub size: ImageSize,
}

/// A video as values.
pub struct VideoView {
    pub url: Seq<char>,
    pub width: int,
    pub height: int,
}

impl View for Image {
    type V = ImageView;

    open spec fn view(&self) -> ImageView {
        ImageView { url: self.url@, width: self.width as int, height: self.height as int, size: self.size }
    }
}

impl View for Video {
    type V = VideoView;

    open spec fn view(&self) -> VideoView {
        VideoView { url: self.url@, width: self.width as int, height: self.height as int }
    }
}

/// The image that a tag creates where the page has declared none yet.
pub open spec fn blank_image() -> ImageView {
    ImageView { url: Seq::empty(), width: 0, height: 0, size: ImageSize::Preview }
}

/// The video that a tag creates where the page has declared none yet.
pub open spec fn blank_video() -> VideoView {
    VideoView { url: Seq::empty(), width: 0, height: 0 }
}

impl Image {
    pub fn blank() -> (r: Image)
        ensures
            r@ == blank_image(),
    {
        Image { url: String::new(), width: 0, height: 0, size: ImageSize::Preview }
    }
}

impl Video {
    pub fn blank() -> (r: Video)
        ensures
            r@ == blank_video(),
    {
        Video { url: String::new(), width: 0, height: 0 }
    }
}

} // verus!
