//! Gathers the fields of a video one by one.

use vstd::prelude::*;
use crate::decimal::Decimal;
use crate::timestamp::Timestamp;
use crate::video::{Platform, Restriction, Uploader, Video, VideoView};
use crate::video_error::VideoError;

verus! {

/// The fields of a video in the making. Nothing is checked before
/// [`VideoBuilder::build`].
#[derive(Debug)]
pub struct VideoBuilder {
    /// A URL pointing to the video thumbnail image file.
    pub thumbnail_location: String,
    /// The title of the video.
    pub title: String,
    /// A description of the video.
    pub description: String,
    /// A URL pointing to the actual video media file.
    pub content_location: String,
    /// A URL pointing to a player for a specific video.
    pub player_location: String,
    /// The duration of the video, in seconds.
    pub duration: Option<u16>,
    /// The date after which the video is no longer available.
    pub expiration_date: Option<Timestamp>,
    /// The rating of the video.
    pub rating: Option<Decimal>,
    /// The number of times the video has been viewed.
    pub view_count: Option<usize>,
    /// The date the video was first published.
    pub publication_date: Option<Timestamp>,
    /// Whether the video is available with SafeSearch.
    pub family_friendly: Option<bool>,
    /// The countries in which the video is shown or hidden.
    pub restriction: Option<Restriction>,
    /// The platforms on which the video is shown or hidden.
    pub platform: Option<Platform>,
    /// Whether a subscription is required to view the video.
    pub requires_subscription: Option<bool>,
    /// The video uploader.
    pub uploader: Option<Uploader>,
    /// Whether the video is a live stream.
    pub live: Option<bool>,
    /// Short descriptions of key concepts of the video.
    pub tags: Option<Vec<String>>,
}

impl View for VideoBuilder {
    type V = VideoView;

    open spec fn view(&self) -> VideoView {
        VideoView {
            thumbnail_location: self.thumbnail_location@,
            title: self.title@,
            description: self.description@,
            content_location: self.content_location@,
            player_location: self.player_location@,
            duration: self.duration,
            expiration_date: self.expiration_date,
            rating: self.rating,
            view_count: self.view_count,
            publication_date: self.publication_date,
            family_friendly: self.family_friendly,
            restriction: self.restriction.deep_view(),
            platform: self.platform.deep_view(),
            requires_subscription: self.requires_subscription,
            uploader: self.uploader.deep_view(),
            live: self.live,
            tags: self.tags.deep_view(),
        }
    }
}

impl Clone for VideoBuilder {
    fn clone(&self) -> (res: Self)
        ensures
            res@ == self@,
    {
        let tags = self.tags.clone();
        proof {
            if self.tags is Some {
                assert(tags.unwrap().deep_view() =~= self.tags.unwrap().deep_view());
            }
        }
        VideoBuilder {
            thumbnail_location: self.thumbnail_location.clone(),
            title: self.title.clone(),
            description: self.description.clone(),
            content_location: self.content_location.clone(),
            player_location: self.player_location.clone(),
            duration: self.duration,
            expiration_date: self.expiration_date,
            rating: self.rating,
            view_count: self.view_count,
            publication_date: self.publication_date,
            family_friendly: self.family_friendly,
            restriction: self.restriction.clone(),
            platform: self.platform.clone(),
            requires_subscription: self.requires_subscription,
            uploader: self.uploader.clone(),
            live: self.live,
            tags,
        }
    }
}

impl VideoBuilder {
    /// A builder that holds the five required fields and none of the others.
    #[must_use]
    pub fn new(
        thumbnail_location: String,
        title: String,
        description: String,
        content_location: String,
        player_location: String,
    ) -> (res: Self)
        ensures
            res@ == (VideoView {
                thumbnail_location: thumbnail_location@,
                title: title@,
                description: description@,
                content_location: content_location@,
                player_location: player_location@,
                duration: None,
                expiration_date: None,
                rating: None,
                view_count: None,
                publication_date: None,
                family_friendly: None,
                restriction: None,
                platform: None,
                requires_subscription: None,
                uploader: None,
                live: None,
                tags: None,
            }),
    {
        Self {
            thumbnail_location,
            title,
            description,
            content_location,
            player_location,
            duration: None,
            expiration_date: None,
            rating: None,
            view_count: None,
            publication_date: None,
            family_friendly: None,
            restriction: None,
            platform: None,
            requires_subscription: None,
            uploader: None,
            live: None,
            tags: None,
        }
    }

    /// Sets the duration and leaves the other fields as they are.
    pub fn duration(&mut self, duration: u16) -> (res: &mut Self)
        ensures
            *final(self) == *final(res),
            (*res)@ == (VideoView { duration: Some(duration), ..old(self)@ }),
    {
        self.duration = Some(duration);
        self
    }

    /// Sets the expiration date and leaves the other fields as they are.
    pub fn expiration_date(&mut self, expiration_date: Timestamp) -> (res: &mut Self)
        ensures
            *final(self) == *final(res),
            (*res)@ == (VideoView { expiration_date: Some(expiration_date), ..old(self)@ }),
    {
        self.expiration_date = Some(expiration_date);
        self
    }

    /// Sets the rating and leaves the other fields as they are.
    pub fn rating(&mut self, rating: Decimal) -> (res: &mut Self)
        ensures
            *final(self) == *final(res),
            (*res)@ == (VideoView { rating: Some(rating), ..old(self)@ }),
    {
        self.rating = Some(rating);
        self
    }

    /// Sets the view count and leaves the other fields as they are.
    pub fn view_count(&mut self, view_count: usize) -> (res: &mut Self)
        ensures
            *final(self) == *final(res),
            (*res)@ == (VideoView { view_count: Some(view_count), ..old(self)@ }),
    {
        self.view_count = Some(view_count);
        self
    }

    /// Sets the publication date and leaves the other fields as they are.
    pub fn publication_date(&mut self, publication_date: Timestamp) -> (res: &mut Self)
        ensures
            *final(self) == *final(res),
            (*res)@ == (VideoView { publication_date: Some(publication_date), ..old(self)@ }),
    {
        self.publication_date = Some(publication_date);
        self
    }

    /// Sets the SafeSearch flag and leaves the other fields as they are.
    pub fn family_friendly(&mut self, family_friendly: bool) -> (res: &mut Self)
        ensures
            *final(self) == *final(res),
            (*res)@ == (VideoView { family_friendly: Some(family_friendly), ..old(self)@ }),
    {
        self.family_friendly = Some(family_friendly);
        self
    }

    /// Sets the country restriction and leaves the other fields as they are.
    pub fn restriction(&mut self, restriction: Restriction) -> (res: &mut Self)
        ensures
            *final(self) == *final(res),
            (*res)@ == (VideoView { restriction: Some(restriction@), ..old(self)@ }),
    {
        self.restriction = Some(restriction);
        self
    }

    /// Sets the platform list and leaves the other fields as they are.
    pub fn platform(&mut self, platform: Platform) -> (res: &mut Self)
        ensures
            *final(self) == *final(res),
            (*res)@ == (VideoView { platform: Some(platform@), ..old(self)@ }),
    {
        self.platform = Some(platform);
        self
    }

    /// Sets the subscription flag and leaves the other fields as they are.
    pub fn requires_subscription(&mut self, requires_subscription: bool) -> (res: &mut Self)
        ensures
            *final(self) == *final(res),
            (*res)@ == (VideoView {
                requires_subscription: Some(requires_subscription),
                ..old(self)@
            }),
    {
        self.requires_subscription = Some(requires_subscription);
        self
    }

    /// Sets the uploader and leaves the other fields as they are.
    pub fn uploader(&mut self, uploader: Uploader) -> (res: &mut Self)
        ensures
            *final(self) == *final(res),
            (*res)@ == (VideoView { uploader: Some(uploader@), ..old(self)@ }),
    {
        self.uploader = Some(uploader);
        self
    }

    /// Sets the live flag and leaves the other fields as they are.
    pub fn live(&mut self, live: bool) -> (res: &mut Self)
        ensures
            *final(self) == *final(res),
            (*res)@ == (VideoView { live: Some(live), ..old(self)@ }),
    {
        self.live = Some(live);
        self
    }

    /// Sets the tags and leaves the other fields as they are.
    pub fn tags(&mut self, tags: Vec<String>) -> (res: &mut Self)
        ensures
            *final(self) == *final(res),
            (*res)@ == (VideoView { tags: Some(tags.deep_view()), ..old(self)@ }),
    {
        self.tags = Some(tags);
        self
    }

    /// Makes the video of the fields gathered, as [`Video::new`] does, or
    /// names the first rule that they break.
    pub fn build(&self) -> (res: Result<Video, VideoError>)
        ensures
            match res {
                Ok(video) => self@.valid() && video@ == self@,
                Err(error) => self@.violation() == Some(error),
            },
    {
        let tags = self.tags.clone();
        proof {
            if self.tags is Some {
                assert(tags.unwrap().deep_view() =~= self.tags.unwrap().deep_view());
            }
        }
        Video::new(
            self.thumbnail_location.clone(),
            self.title.clone(),
            self.description.clone(),
            self.content_location.clone(),
            self.player_location.clone(),
            self.duration,
            self.expiration_date,
            self.rating,
            self.view_count,
            self.publication_date,
            self.family_friendly,
            self.restriction.clone(),
            self.platform.clone(),
            self.requires_subscription,
            self.uploader.clone(),
            self.live,
            tags,
        )
    }
}

} // verus!
