use vstd::prelude::*;
use crate::text::{has_suffix, ends_with};

verus! {

/// The content types that responses are labelled with, chosen by a path's suffix.
#[derive(Debug, Clone, Copy, PartialEq, Eq, Structural)]
pub enum MineType {
    Html,
    Css,
    Js,
    Jpg,
    Png,
    Gif,
    Svg,
    Other,
}

/// The content type of `path`: the first of the known suffixes that it ends with, else `Other`.
pub open spec fn spec_from_path(path: Seq<char>) -> MineType {
    if has_suffix(path, ".html"@) {
        MineType::Html
    } else if has_suffix(path, ".css"@) {
        MineType::Css
    } else if has_suffix(path, ".js"@) {
        MineType::Js
    } else if has_suffix(path, ".jpg"@) {
        MineType::Jpg
    } else if has_suffix(path, ".png"@) {
        MineType::Png
    } else if has_suffix(path, ".gif"@) {
        MineType::Gif
    } else if has_suffix(path, ".svg"@) {
        MineType::Svg
    } else {
        MineType::Other
    }
}

impl MineType {
    /// The media type string of the content type.
    pub open spec fn spec_name(self) -> Seq<char> {
        match self {
            MineType::Html => "text/html"@,
            MineType::Css => "text/css"@,
            MineType::Js => "text/javascript"@,
            MineType::Jpg => "image/jpeg"@,
            MineType::Png => "image/png"@,
            MineType::Gif => "image/gif"@,
            MineType::Svg => "image/svg+xml"@,
            MineType::Other => "application/octet-stream"@,
        }
    }

    pub fn from_path(path: &str) -> (r: MineType)
        ensures
            r == spec_from_path(path@),
    {
        if ends_with(path, ".html") {
            MineType::Html
        } else if ends_with(path, ".css") {
            MineType::Css
        } else if ends_with(path, ".js") {
            MineType::Js
        } else if ends_with(path, ".jpg") {
            MineType::Jpg
        } else if ends_with(path, ".png") {
            MineType::Png
        } else if ends_with(path, ".gif") {
            MineType::Gif
        } else if ends_with(path, ".svg") {
            MineType::Svg
        } else {
            MineType::Other
        }
    }

    pub fn to_string(&self) -> (r: String)
        ensures
            r@ == self.spec_name(),
    {
        match self {
            MineType::Html => "text/html".to_string(),
            MineType::Css => "text/css".to_string(),
            MineType::Js => "text/javascript".to_string(),
            MineType::Jpg => "image/jpeg".to_string(),
            MineType::Png => "image/png".to_string(),
            MineType::Gif => "image/gif".to_string(),
            MineType::Svg => "image/svg+xml".to_string(),
            MineType::Other => "application/octet-stream".to_string(),
        }
    }
}

} // verus!
