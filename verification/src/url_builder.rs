//! Gathers the fields of a URL entry one by one.

use vstd::prelude::*;
use crate::decimal::Decimal;
use crate::image::Image;
use crate::news::News;
use crate::timestamp::Timestamp;
use crate::url::{ChangeFrequency, Url, UrlLink, UrlView};
use crate::url_error::UrlError;
use crate::video::Video;

verus! {

/// The fields of a URL entry in the making. Nothing is checked before
/// [`UrlBuilder::build`].
#[derive(Debug)]
pub struct UrlBuilder {
    /// URL of the page.
    pub location: String,
    /// The variants of the page in other languages.
    pub links: Vec<UrlLink>,
    /// The date of last modification of the page.
    pub last_modified: Option<Timestamp>,
    /// How frequently the page is likely to change.
    pub change_frequency: Option<ChangeFrequency>,
    /// The priority of this URL relative to other URLs of the site.
    pub priority: Option<Decimal>,
    /// Images associated with this URL.
    pub images: Option<Vec<Image>>,
    /// Videos associated with this URL.
    pub videos: Option<Vec<Video>>,
    /// News associated with this URL.
    pub news: Option<News>,
}

impl View for UrlBuilder {
    type V = UrlView;

    open spec fn view(&self) -> UrlView {
        UrlView {
            location: self.location@,
            links: self.links.deep_view(),
            last_modified: self.last_modified,
            change_frequency: self.change_frequency,
            priority: self.priority,
            images: self.images.deep_view(),
            videos: self.videos.deep_view(),
            news: self.news.deep_view(),
        }
    }
}

impl Clone for UrlBuilder {
    fn clone(&self) -> (res: Self)
        ensures
            res@ == self@,
    {
        let links = self.links.clone();
        let images = self.images.clone();
        let videos = self.videos.clone();
        proof {
            assert(links.deep_view() =~= self.links.deep_view());
            if self.images is Some {
                assert(images.unwrap().deep_view() =~= self.images.unwrap().deep_view());
            }
            if self.videos is Some {
                assert(videos.unwrap().deep_view() =~= self.videos.unwrap().deep_view());
            }
        }
        UrlBuilder {
            location: self.location.clone(),
            links,
            last_modified: self.last_modified,
            change_frequency: self.change_frequency,
            priority: self.priority,
            images,
            videos,
            news: self.news.clone(),
        }
    }
}

impl UrlBuilder {
    /// A builder that holds the location and none of the other fields.
    #[must_use]
    pub fn new(location: String) -> (res: Self)
        ensures
            res@ == (UrlView {
                location: location@,
                links: Seq::empty(),
                last_modified: None,
                change_frequency: None,
                priority: None,
                images: None,
                videos: None,
                news: None,
            }),
    {
        let res = Self {
            location,
            links: Vec::new(),
            last_modified: None,
            change_frequency: None,
            priority: None,
            images: None,
            videos: None,
            news: None,
        };
        proof {
            assert(res.links.deep_view() =~= Seq::empty());
        }
        res
    }

    /// Sets the alternate links and leaves the other fields as they are.
    pub fn links(&mut self, links: Vec<UrlLink>) -> (res: &mut Self)
        ensures
            *final(self) == *final(res),
            (*res)@ == (UrlView { links: links.deep_view(), ..old(self)@ }),
    {
        self.links = links;
        self
    }

    /// Sets the date of last modification and leaves the other fields as
    /// they are.
    pub fn last_modified(&mut self, last_modified: Timestamp) -> (res: &mut Self)
        ensures
            *final(self) == *final(res),
            (*res)@ == (UrlView { last_modified: Some(last_modified), ..old(self)@ }),
    {
        self.last_modified = Some(last_modified);
        self
    }

    /// Sets the change frequency and leaves the other fields as they are.
    pub fn change_frequency(&mut self, change_frequency: ChangeFrequency) -> (res: &mut Self)
        ensures
            *final(self) == *final(res),
            (*res)@ == (UrlView { change_frequency: Some(change_frequency), ..old(self)@ }),
    {
        self.change_frequency = Some(change_frequency);
        self
    }

    /// Sets the priority and leaves the other fields as they are.
    pub fn priority(&mut self, priority: Decimal) -> (res: &mut Self)
        ensures
            *final(self) == *final(res),
            (*res)@ == (UrlView { priority: Some(priority), ..old(self)@ }),
    {
        self.priority = Some(priority);
        self
    }

    /// Sets the images and leaves the other fields as they are.
    pub fn images(&mut self, images: Vec<Image>) -> (res: &mut Self)
        ensures
            *final(self) == *final(res),
            (*res)@ == (UrlView { images: Some(images.deep_view()), ..old(self)@ }),
    {
        self.images = Some(images);
        self
    }

    /// Sets the videos and leaves the other fields as they are.
    pub fn videos(&mut self, videos: Vec<Video>) -> (res: &mut Self)
        ensures
            *final(self) == *final(res),
            (*res)@ == (UrlView { videos: Some(videos.deep_view()), ..old(self)@ }),
    {
        self.videos = Some(videos);
        self
    }

    /// Sets the news and leaves the other fields as they are.
    pub fn news(&mut self, news: News) -> (res: &mut Self)
        ensures
            *final(self) == *final(res),
            (*res)@ == (UrlView { news: Some(news@), ..old(self)@ }),
    {
        self.news = Some(news);
        self
    }

    /// Makes the entry of the fields gathered, as [`Url::new`] does, or
    /// names the first rule that they break.
    pub fn build(&self) -> (res: Result<Url, UrlError>)
        ensures
            match res {
                Ok(url) => self@.valid() && url@ == self@.normalized() && url@.valid(),
                Err(error) => self@.violation() == Some(error@),
            },
    {
        let links = self.links.clone();
        let images = self.images.clone();
        let videos = self.videos.clone();
        proof {
            assert(links.deep_view() =~= self.links.deep_view());
            if self.images is Some {
                assert(images.unwrap().deep_view() =~= self.images.unwrap().deep_view());
            }
            if self.videos is Some {
                assert(videos.unwrap().deep_view() =~= self.videos.unwrap().deep_view());
            }
        }
        Url::new(
            self.location.clone(),
            links,
            self.last_modified,
            self.change_frequency,
            self.priority,
            images,
            videos,
            self.news.clone(),
        )
    }
}

} // verus!
