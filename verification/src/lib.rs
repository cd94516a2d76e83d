//! Builds sitemap documents (URL sitemaps with their image, video and news
//! extensions, and sitemap indexes) from validated entries and writes them
//! as XML.

use vstd::prelude::*;

pub mod decimal;
pub mod image;
pub mod news;
pub mod sitemap;
pub mod sitemap_index;
pub mod sitemap_index_error;
pub mod text;
pub mod timestamp;
pub mod url;
pub mod url_builder;
pub mod url_error;
pub mod url_set;
pub mod url_set_error;
pub mod video;
pub mod video_builder;
pub mod video_error;
pub mod xml;

pub use crate::timestamp::{RFC_3339_SECONDS_FORMAT, RFC_3339_USE_Z};

verus! {

/// The namespace of the sitemap protocol.
pub const NAMESPACE: &'static str = "http://www.sitemaps.org/schemas/sitemap/0.9";

/// The namespace of XHTML, for alternate links.
pub const XHTML_NAMESPACE: &'static str = "http://www.w3.org/1999/xhtml";

/// The namespace of the image extension.
pub const IMAGE_NAMESPACE: &'static str = "http://www.google.com/schemas/sitemap-image/1.1";

/// The namespace of the video extension.
pub const VIDEO_NAMESPACE: &'static str = "http://www.google.com/schemas/sitemap-video/1.1";

/// The namespace of the news extension.
pub const NEWS_NAMESPACE: &'static str = "http://www.google.com/schemas/sitemap-news/0.9";

/// The encoding of every document.
pub const ENCODING: &'static str = "UTF-8";

} // verus!
