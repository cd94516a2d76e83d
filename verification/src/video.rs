//! Videos and what belongs to them: uploader, country restriction and
//! platform list.

use vstd::prelude::*;
use xml_builder::{XMLElement, XMLError};
use crate::decimal::Decimal;
use crate::text::{
    ascending, byte_len, byte_length, join, joined, lemma_ascending, sorted_unique,
    strictly_ascending,
};
use crate::timestamp::Timestamp;
use crate::video_builder::VideoBuilder;
use crate::video_error::VideoError;
use crate::xml::{
    append_optional_child, append_optional_decimal_child, append_optional_flag_child,
    append_optional_number_child, append_optional_timestamp_child, append_text_child, append_text_children,
    element_tree, escaped, lemma_parent_is_parent, optional_decimal_node, optional_flag_node,
    optional_node, optional_number_node, optional_timestamp_node, text_nodes, XmlContent, XmlNode,
};

verus! {

/// Whether a list names what is allowed or what is denied.
#[derive(Debug, Copy, Clone, PartialEq, Eq, Structural)]
pub enum Relationship {
    Allow,
    Deny,
}

impl Relationship {
    /// The value of the `relationship` attribute.
    pub open spec fn text(self) -> Seq<char> {
        match self {
            Relationship::Allow => "allow"@,
            Relationship::Deny => "deny"@,
        }
    }

    #[must_use]
    pub fn as_str(&self) -> (res: &'static str)
        ensures
            res@ == self.text(),
    {
        match self {
            Relationship::Allow => "allow",
            Relationship::Deny => "deny",
        }
    }
}

/// A kind of device on which a video can be played.
#[derive(Debug, Copy, Clone, PartialEq, Eq, PartialOrd, Ord, Hash, Structural)]
pub enum PlatformType {
    /// Traditional computer browsers on desktops and laptops.
    Web,
    /// Mobile browsers, such as those on cellular phones or tablets.
    Mobile,
    /// TV browsers, such as those available through GoogleTV devices and game consoles.
    Tv,
}

impl PlatformType {
    /// The name of the platform as it is written.
    pub open spec fn text(self) -> Seq<char> {
        match self {
            PlatformType::Web => "web"@,
            PlatformType::Mobile => "mobile"@,
            PlatformType::Tv => "tv"@,
        }
    }

    #[must_use]
    pub fn as_str(&self) -> (res: &'static str)
        ensures
            res@ == self.text(),
    {
        match self {
            PlatformType::Web => "web",
            PlatformType::Mobile => "mobile",
            PlatformType::Tv => "tv",
        }
    }
}

/// The video uploader.
///
/// Only one <video:uploader> is allowed per video.
#[derive(Debug)]
pub struct Uploader {
    /// The uploader's name, at most 255 bytes long in a valid video.
    pub name: String,
    /// The URL of a webpage with additional information about this uploader.
    /// This URL must be in the same domain as the <loc> tag.
    pub info: Option<String>,
}

/// What an [`Uploader`] holds.
pub struct UploaderView {
    pub name: Seq<char>,
    pub info: Option<Seq<char>>,
}

impl View for Uploader {
    type V = UploaderView;

    open spec fn view(&self) -> UploaderView {
        UploaderView { name: self.name@, info: self.info.deep_view() }
    }
}

impl DeepView for Uploader {
    type V = UploaderView;

    open spec fn deep_view(&self) -> UploaderView {
        self@
    }
}

impl Clone for Uploader {
    fn clone(&self) -> (res: Self)
        ensures
            res@ == self@,
    {
        Uploader { name: self.name.clone(), info: self.info.clone() }
    }
}

impl UploaderView {
    /// `<video:uploader info="..">name</video:uploader>`, the attribute only
    /// where there is an info URL.
    pub open spec fn xml(self) -> XmlNode {
        XmlNode {
            name: "video:uploader"@,
            attributes: match self.info {
                Some(info) => seq![("info"@, escaped(info))],
                None => Seq::empty(),
            },
            sort_attributes: None,
            content: XmlContent::Text(self.name),
        }
    }
}

impl Uploader {
    #[must_use]
    pub fn new(name: String, info: Option<String>) -> (res: Self)
        ensures
            res@ == (UploaderView { name: name@, info: info.deep_view() }),
    {
        Self { name, info }
    }

    /// Builds the `<video:uploader>` element. This never fails.
    pub fn to_xml(self) -> (res: Result<XMLElement, XMLError>)
        ensures
            res matches Ok(element) && element_tree(element) == self@.xml(),
    {
        let mut uploader: XMLElement = XMLElement::new("video:uploader");

        // set info attribute, if it exists
        if let Some(info) = self.info {
            uploader.add_attribute("info", info.as_str());
        }

        // set uploader name as text
        uploader.add_text(self.name)?;

        proof {
            assert(element_tree(uploader).attributes == self@.xml().attributes);
        }
        Ok(uploader)
    }
}

/// Whether to show or hide a video in search results from specific countries.
#[derive(Debug)]
pub struct Restriction {
    /// Country codes in ISO 3166 format. [`Restriction::new`] holds them in
    /// ascending order, each once; they are written so in any case.
    pub country_codes: Vec<String>,
    /// Whether the video is allowed or denied in the countries listed.
    pub relationship: Relationship,
}

/// What a [`Restriction`] holds.
pub struct RestrictionView {
    pub country_codes: Seq<Seq<char>>,
    pub relationship: Relationship,
}

impl View for Restriction {
    type V = RestrictionView;

    open spec fn view(&self) -> RestrictionView {
        RestrictionView {
            country_codes: self.country_codes.deep_view(),
            relationship: self.relationship,
        }
    }
}

impl DeepView for Restriction {
    type V = RestrictionView;

    open spec fn deep_view(&self) -> RestrictionView {
        self@
    }
}

impl Clone for Restriction {
    fn clone(&self) -> (res: Self)
        ensures
            res@ == self@,
    {
        let country_codes = self.country_codes.clone();
        proof {
            assert(country_codes.deep_view() =~= self.country_codes.deep_view());
        }
        Restriction { country_codes, relationship: self.relationship }
    }
}

impl RestrictionView {
    /// `<video:restriction relationship="..">` with the country codes as
    /// its text: in ascending order, each once, separated by single spaces.
    pub open spec fn xml(self) -> XmlNode {
        XmlNode {
            name: "video:restriction"@,
            attributes: seq![("relationship"@, escaped(self.relationship.text()))],
            sort_attributes: None,
            content: XmlContent::Text(joined(ascending(self.country_codes), " "@)),
        }
    }
}

impl Restriction {
    /// A restriction to the given countries. The codes are put in ascending
    /// order and each is kept once, so that equal sets of countries are
    /// written alike.
    #[must_use]
    pub fn new(country_codes: Vec<String>, relationship: Relationship) -> (res: Self)
        ensures
            res@ == (RestrictionView {
                country_codes: ascending(country_codes.deep_view()),
                relationship,
            }),
            strictly_ascending(res@.country_codes),
            res@.country_codes.to_set() == country_codes.deep_view().to_set(),
    {
        Self { country_codes: sorted_unique(&country_codes), relationship }
    }

    /// Builds the `<video:restriction>` element. This never fails.
    pub fn to_xml(self) -> (res: Result<XMLElement, XMLError>)
        ensures
            res matches Ok(element) && element_tree(element) == self@.xml(),
    {
        let mut restriction: XMLElement = XMLElement::new("video:restriction");

        // set relationship attribute
        restriction.add_attribute("relationship", self.relationship.as_str());

        // set text as space-delimited country codes in ISO 3166 format
        let ordered: Vec<String> = sorted_unique(&self.country_codes);
        let country_codes: String = join(&ordered, " ");
        restriction.add_text(country_codes)?;

        proof {
            assert(element_tree(restriction).attributes == self@.xml().attributes);
        }
        Ok(restriction)
    }
}

/// Two restrictions that name the same countries and have the same
/// relationship are written alike: neither the order in which the countries
/// are held nor a repetition leaves a trace. A restriction that
/// [`Restriction::new`] made is written as it is held.
pub proof fn lemma_restriction_order_free(a: RestrictionView, b: RestrictionView)
    requires
        a.country_codes.to_set() == b.country_codes.to_set(),
        a.relationship == b.relationship,
    ensures
        a.xml() == b.xml(),
        strictly_ascending(a.country_codes) ==> ascending(a.country_codes) == a.country_codes,
{
    if strictly_ascending(a.country_codes) {
        lemma_ascending(a.country_codes, a.country_codes);
    }
}

/// Whether to show or hide a video in search results on specified platform types.
#[derive(Debug)]
pub struct Platform {
    /// The platforms. [`Platform::new`] holds them in the order mobile, tv,
    /// web, each at most once; they are written so in any case.
    pub platforms: Vec<PlatformType>,
    /// Whether the video is allowed or denied on the platforms listed.
    pub relationship: Relationship,
}

/// What a [`Platform`] holds.
pub struct PlatformView {
    pub platforms: Seq<PlatformType>,
    pub relationship: Relationship,
}

impl View for Platform {
    type V = PlatformView;

    open spec fn view(&self) -> PlatformView {
        PlatformView { platforms: self.platforms@, relationship: self.relationship }
    }
}

impl DeepView for Platform {
    type V = PlatformView;

    open spec fn deep_view(&self) -> PlatformView {
        self@
    }
}

impl Clone for Platform {
    fn clone(&self) -> (res: Self)
        ensures
            res@ == self@,
    {
        let platforms = self.platforms.clone();
        proof {
            assert(platforms@ =~= self.platforms@);
        }
        Platform { platforms, relationship: self.relationship }
    }
}

/// The members of `platforms` in the order of their names: mobile, tv, web.
pub open spec fn ordered_platforms(platforms: Set<PlatformType>) -> Seq<PlatformType> {
    (if platforms.contains(PlatformType::Mobile) {
        seq![PlatformType::Mobile]
    } else {
        Seq::empty()
    }) + (if platforms.contains(PlatformType::Tv) {
        seq![PlatformType::Tv]
    } else {
        Seq::empty()
    }) + (if platforms.contains(PlatformType::Web) {
        seq![PlatformType::Web]
    } else {
        Seq::empty()
    })
}

/// The names of the platforms, in their order.
pub open spec fn platform_names(platforms: Seq<PlatformType>) -> Seq<Seq<char>> {
    Seq::new(platforms.len(), |i: int| platforms[i].text())
}

impl PlatformView {
    /// `<video:platform relationship="..">` with the platform names as its
    /// text: in the order mobile, tv, web, each once, separated by single
    /// spaces.
    pub open spec fn xml(self) -> XmlNode {
        XmlNode {
            name: "video:platform"@,
            attributes: seq![("relationship"@, escaped(self.relationship.text()))],
            sort_attributes: None,
            content: XmlContent::Text(
                joined(platform_names(ordered_platforms(self.platforms.to_set())), " "@),
            ),
        }
    }
}

/// Tells whether `wanted` occurs in `platforms`.
fn lists_platform(platforms: &Vec<PlatformType>, wanted: PlatformType) -> (res: bool)
    ensures
        res == platforms@.to_set().contains(wanted),
{
    let mut i: usize = 0;
    while i < platforms.len()
        invariant
            i <= platforms.len(),
            forall|k: int| 0 <= k < i ==> platforms[k] != wanted,
        decreases platforms.len() - i,
    {
        if platforms[i] == wanted {
            assert(platforms@[i as int] == wanted);
            return true;
        }
        i = i + 1;
    }
    false
}

/// The platforms that occur in `platforms`, in the order of their names.
fn in_order(platforms: &Vec<PlatformType>) -> (res: Vec<PlatformType>)
    ensures
        res@ == ordered_platforms(platforms@.to_set()),
{
    let mut ordered: Vec<PlatformType> = Vec::new();
    if lists_platform(platforms, PlatformType::Mobile) {
        ordered.push(PlatformType::Mobile);
    }
    if lists_platform(platforms, PlatformType::Tv) {
        ordered.push(PlatformType::Tv);
    }
    if lists_platform(platforms, PlatformType::Web) {
        ordered.push(PlatformType::Web);
    }
    proof {
        assert(ordered@ =~= ordered_platforms(platforms@.to_set()));
    }
    ordered
}

/// Two platform lists that name the same platforms and have the same
/// relationship are written alike: neither the order in which the platforms
/// are held nor a repetition leaves a trace.
pub proof fn lemma_platform_order_free(a: PlatformView, b: PlatformView)
    requires
        a.platforms.to_set() == b.platforms.to_set(),
        a.relationship == b.relationship,
    ensures
        a.xml() == b.xml(),
{
}

impl Platform {
    /// A list of the given platforms. They are put in the order of their
    /// names and each is kept once, so that equal sets of platforms are
    /// written alike.
    #[must_use]
    pub fn new(platforms: Vec<PlatformType>, relationship: Relationship) -> (res: Self)
        ensures
            res@ == (PlatformView {
                platforms: ordered_platforms(platforms@.to_set()),
                relationship,
            }),
    {
        Self { platforms: in_order(&platforms), relationship }
    }

    /// Builds the `<video:platform>` element. This never fails.
    pub fn to_xml(self) -> (res: Result<XMLElement, XMLError>)
        ensures
            res matches Ok(element) && element_tree(element) == self@.xml(),
    {
        let mut platform: XMLElement = XMLElement::new("video:platform");

        // set relationship attribute
        platform.add_attribute("relationship", self.relationship.as_str());

        // set text as space-delimited platform types
        let ordered: Vec<PlatformType> = in_order(&self.platforms);
        let mut names: Vec<String> = Vec::new();
        let mut i: usize = 0;
        while i < ordered.len()
            invariant
                i <= ordered.len(),
                names.deep_view() == platform_names(ordered@.take(i as int)),
            decreases ordered.len() - i,
        {
            let ghost before = names.deep_view();
            let name = String::from_str(ordered[i].as_str());
            names.push(name);
            proof {
                assert(names.deep_view() =~= before.push(ordered[i as int].text()));
                assert(names.deep_view() =~= platform_names(ordered@.take(i + 1)));
            }
            i = i + 1;
        }
        proof {
            assert(ordered@.take(ordered.len() as int) == ordered@);
        }
        let platform_types: String = join(&names, " ");
        platform.add_text(platform_types)?;

        proof {
            assert(element_tree(platform).attributes == self@.xml().attributes);
        }
        Ok(platform)
    }
}

/// A sitemap video.
///
/// It's required to provide either a <video:content_loc> or <video:player_loc> tag.
#[derive(Debug)]
pub struct Video {
    /// A URL pointing to the video thumbnail image file.
    pub thumbnail_location: String,
    /// The title of the video.
    pub title: String,
    /// A description of the video, at most 2048 bytes long.
    pub description: String,
    /// A URL pointing to the actual video media file.
    pub content_location: String,
    /// A URL pointing to a player for a specific video.
    pub player_location: String,
    /// The duration of the video in seconds, from 1 to 28800 (8 hours).
    pub duration: Option<u16>,
    /// The date after which the video is no longer available.
    pub expiration_date: Option<Timestamp>,
    /// The rating of the video, from 0 (low) to 5 (high).
    pub rating: Option<Decimal>,
    /// The number of times the video has been viewed.
    pub view_count: Option<usize>,
    /// The date the video was first published.
    pub publication_date: Option<Timestamp>,
    /// Whether the video is available with SafeSearch.
    pub family_friendly: Option<bool>,
    /// The countries in which the video is shown or hidden.
    pub restriction: Option<Restriction>,
    /// The platforms on which the video is shown or hidden.
    pub platform: Option<Platform>,
    /// Whether a subscription is required to view the video.
    pub requires_subscription: Option<bool>,
    /// The video uploader, with a name of at most 255 bytes.
    pub uploader: Option<Uploader>,
    /// Whether the video is a live stream.
    pub live: Option<bool>,
    /// Short descriptions of key concepts of the video, at most 32.
    pub tags: Option<Vec<String>>,
}

/// What a [`Video`] holds, and what a video builder has gathered.
pub struct VideoView {
    pub thumbnail_location: Seq<char>,
    pub title: Seq<char>,
    pub description: Seq<char>,
    pub content_location: Seq<char>,
    pub player_location: Seq<char>,
    pub duration: Option<u16>,
    pub expiration_date: Option<Timestamp>,
    pub rating: Option<Decimal>,
    pub view_count: Option<usize>,
    pub publication_date: Option<Timestamp>,
    pub family_friendly: Option<bool>,
    pub restriction: Option<RestrictionView>,
    pub platform: Option<PlatformView>,
    pub requires_subscription: Option<bool>,
    pub uploader: Option<UploaderView>,
    pub live: Option<bool>,
    pub tags: Option<Seq<Seq<char>>>,
}

impl View for Video {
    type V = VideoView;

    open spec fn view(&self) -> VideoView {
        VideoView {
            thumbnail_location: self.thumbnail_location@,
            title: self.title@,
            description: self.description@,
            content_location: self.content_location@,
            player_location: self.player_location@,
            duration: self.duration,
            expiration_date: self.expiration_date,
            rating: self.rating,
            view_count: self.view_count,
            publication_date: self.publication_date,
            family_friendly: self.family_friendly,
            restriction: self.restriction.deep_view(),
            platform: self.platform.deep_view(),
            requires_subscription: self.requires_subscription,
            uploader: self.uploader.deep_view(),
            live: self.live,
            tags: self.tags.deep_view(),
        }
    }
}

impl DeepView for Video {
    type V = VideoView;

    open spec fn deep_view(&self) -> VideoView {
        self@
    }
}

/// The longest description, in bytes.
pub const MAX_DESCRIPTION_LENGTH: usize = 2048;

/// The shortest duration, in seconds.
pub const MIN_DURATION: u16 = 1;

/// The longest duration, in seconds: 8 hours.
pub const MAX_DURATION: u16 = 28800;

/// The highest rating.
pub const MAX_RATING: u32 = 5;

/// The longest uploader name, in bytes.
pub const MAX_UPLOADER_NAME_LENGTH: usize = 255;

/// The largest number of tags.
pub const MAX_TAGS: usize = 32;

impl VideoView {
    /// The first rule that the fields break, in the order description,
    /// duration, rating, uploader name, tags; `None` where they break none.
    pub open spec fn violation(self) -> Option<VideoError> {
        if byte_length(self.description) > MAX_DESCRIPTION_LENGTH {
            Some(VideoError::DescriptionTooLong(byte_length(self.description) as usize))
        } else if self.duration is Some && self.duration.unwrap() < MIN_DURATION {
            Some(VideoError::DurationTooShort(self.duration.unwrap()))
        } else if self.duration is Some && self.duration.unwrap() > MAX_DURATION {
            Some(VideoError::DurationTooLong(self.duration.unwrap()))
        } else if self.rating is Some && self.rating.unwrap().below_zero() {
            Some(VideoError::RatingTooLow(self.rating.unwrap()))
        } else if self.rating is Some && self.rating.unwrap().above(MAX_RATING as nat) {
            Some(VideoError::RatingTooHigh(self.rating.unwrap()))
        } else if self.uploader is Some && byte_length(self.uploader.unwrap().name)
            > MAX_UPLOADER_NAME_LENGTH {
            Some(
                VideoError::UploaderNameTooLong(
                    byte_length(self.uploader.unwrap().name) as usize,
                ),
            )
        } else if self.tags is Some && self.tags.unwrap().len() > MAX_TAGS {
            Some(VideoError::TooManyTags(self.tags.unwrap().len() as usize))
        } else {
            None
        }
    }

    /// Whether the fields make a valid video.
    pub open spec fn valid(self) -> bool {
        self.violation() is None
    }

    /// The children of `<video:video>`: the five required elements, then
    /// each optional element that is present, then one `<video:tag>` per tag.
    pub open spec fn xml_children(self) -> Seq<XmlNode> {
        seq![
            XmlNode::text("video:thumbnail_loc"@, self.thumbnail_location),
            XmlNode::text("video:title"@, self.title),
            XmlNode::text("video:description"@, self.description),
            XmlNode::text("video:content_loc"@, self.content_location),
            XmlNode::text("video:player_loc"@, self.player_location),
        ] + optional_number_node(
            "video:duration"@,
            match self.duration {
                Some(duration) => Some(duration as nat),
                None => None,
            },
        ) + optional_timestamp_node("video:expiration_date"@, self.expiration_date)
            + optional_decimal_node("video:rating"@, self.rating) + optional_number_node(
            "video:view_count"@,
            match self.view_count {
                Some(view_count) => Some(view_count as nat),
                None => None,
            },
        ) + optional_timestamp_node("video:publication_date"@, self.publication_date)
            + optional_flag_node("video:family_friendly"@, self.family_friendly) + optional_node(
            match self.restriction {
                Some(restriction) => Some(restriction.xml()),
                None => None,
            },
        ) + optional_node(
            match self.platform {
                Some(platform) => Some(platform.xml()),
                None => None,
            },
        ) + optional_flag_node("video:requires_subscription"@, self.requires_subscription)
            + optional_node(
            match self.uploader {
                Some(uploader) => Some(uploader.xml()),
                None => None,
            },
        ) + optional_flag_node("video:live"@, self.live) + text_nodes(
            "video:tag"@,
            match self.tags {
                Some(tags) => tags,
                None => Seq::empty(),
            },
        )
    }

    /// The `<video:video>` element.
    pub open spec fn xml(self) -> XmlNode {
        XmlNode::parent("video:video"@, Seq::empty(), self.xml_children())
    }
}

impl Clone for Video {
    fn clone(&self) -> (res: Self)
        ensures
            res@ == self@,
    {
        let tags = self.tags.clone();
        proof {
            if self.tags is Some {
                assert(tags.unwrap().deep_view() =~= self.tags.unwrap().deep_view());
            }
        }
        Video {
            thumbnail_location: self.thumbnail_location.clone(),
            title: self.title.clone(),
            description: self.description.clone(),
            content_location: self.content_location.clone(),
            player_location: self.player_location.clone(),
            duration: self.duration,
            expiration_date: self.expiration_date,
            rating: self.rating,
            view_count: self.view_count,
            publication_date: self.publication_date,
            family_friendly: self.family_friendly,
            restriction: self.restriction.clone(),
            platform: self.platform.clone(),
            requires_subscription: self.requires_subscription,
            uploader: self.uploader.clone(),
            live: self.live,
            tags,
        }
    }
}

impl Video {
    /// Makes a video of the given fields, or names the first rule that they
    /// break.
    ///
    /// # Errors
    ///
    /// `DescriptionTooLong` if `description` is longer than 2048 bytes,
    /// `DurationTooShort` if `duration` is below 1 second,
    /// `DurationTooLong` if `duration` is above 28,800 seconds (8 hours),
    /// `RatingTooLow` if `rating` is below 0,
    /// `RatingTooHigh` if `rating` is above 5,
    /// `UploaderNameTooLong` if the name of `uploader` is longer than 255 bytes,
    /// `TooManyTags` if there are more than 32 `tags`;
    /// where several apply, the first of this list.
    pub fn new(
        thumbnail_location: String,
        title: String,
        description: String,
        content_location: String,
        player_location: String,
        duration: Option<u16>,
        expiration_date: Option<Timestamp>,
        rating: Option<Decimal>,
        view_count: Option<usize>,
        publication_date: Option<Timestamp>,
        family_friendly: Option<bool>,
        restriction: Option<Restriction>,
        platform: Option<Platform>,
        requires_subscription: Option<bool>,
        uploader: Option<Uploader>,
        live: Option<bool>,
        tags: Option<Vec<String>>,
    ) -> (res: Result<Self, VideoError>)
        ensures
            ({
                let fields = VideoView {
                    thumbnail_location: thumbnail_location@,
                    title: title@,
                    description: description@,
                    content_location: content_location@,
                    player_location: player_location@,
                    duration,
                    expiration_date,
                    rating,
                    view_count,
                    publication_date,
                    family_friendly,
                    restriction: restriction.deep_view(),
                    platform: platform.deep_view(),
                    requires_subscription,
                    uploader: uploader.deep_view(),
                    live,
                    tags: tags.deep_view(),
                };
                match res {
                    Ok(video) => fields.valid() && video@ == fields,
                    Err(error) => fields.violation() == Some(error),
                }
            }),
    {
        // description must be no longer than `2048` bytes
        let description_length = byte_len(description.as_str());
        if description_length > MAX_DESCRIPTION_LENGTH {
            return Err(VideoError::DescriptionTooLong(description_length));
        }
        if let Some(duration) = duration {
            // duration should be at least `1` second
            if duration < MIN_DURATION {
                return Err(VideoError::DurationTooShort(duration));
            }
            // duration should be no longer than `28,800` seconds (8 hours)

            if duration > MAX_DURATION {
                return Err(VideoError::DurationTooLong(duration));
            }
        }
        if let Some(rating) = rating {
            // rating should be no lower than `0`
            if rating.is_below_zero() {
                return Err(VideoError::RatingTooLow(rating));
            }
            // rating should be no higher than `5`

            if rating.is_above(MAX_RATING) {
                return Err(VideoError::RatingTooHigh(rating));
            }
        }
        if let Some(uploader) = &uploader {
            // uploader name should be no longer than `255` bytes
            let name_length = byte_len(uploader.name.as_str());
            if name_length > MAX_UPLOADER_NAME_LENGTH {
                return Err(VideoError::UploaderNameTooLong(name_length));
            }
        }
        if let Some(tags) = &tags {
            // there should not be more than `32` tags
            if tags.len() > MAX_TAGS {
                return Err(VideoError::TooManyTags(tags.len()));
            }
        }
        Ok(
            Self {
                thumbnail_location,
                title,
                description,
                content_location,
                player_location,
                duration,
                expiration_date,
                rating,
                view_count,
                publication_date,
                family_friendly,
                restriction,
                platform,
                requires_subscription,
                uploader,
                live,
                tags,
            },
        )
    }

    /// A builder that holds the five required fields and none of the others.
    #[must_use]
    pub fn builder(
        thumbnail_location: String,
        title: String,
        description: String,
        content_location: String,
        player_location: String,
    ) -> (res: VideoBuilder)
        ensures
            res@ == (VideoView {
                thumbnail_location: thumbnail_location@,
                title: title@,
                description: description@,
                content_location: content_location@,
                player_location: player_location@,
                duration: None,
                expiration_date: None,
                rating: None,
                view_count: None,
                publication_date: None,
                family_friendly: None,
                restriction: None,
                platform: None,
                requires_subscription: None,
                uploader: None,
                live: None,
                tags: None,
            }),
    {
        VideoBuilder::new(
            thumbnail_location,
            title,
            description,
            content_location,
            player_location,
        )
    }

    /// Builds the `<video:video>` element. This never fails.
    pub fn to_xml(self) -> (res: Result<XMLElement, XMLError>)
        ensures
            res matches Ok(element) && element_tree(element) == self@.xml(),
    {
        let ghost view = self@;
        let ghost name = "video:video"@;
        let ghost none = Seq::<(Seq<char>, Seq<char>)>::empty();
        let ghost mut children = Seq::<XmlNode>::empty();
        let mut video: XMLElement = XMLElement::new("video:video");

        // the five required elements
        proof {
            lemma_parent_is_parent(name, none, children);
        }
        append_text_child(&mut video, "video:thumbnail_loc", self.thumbnail_location)?;
        proof {
            children = children + seq![XmlNode::text("video:thumbnail_loc"@, view.thumbnail_location)];
            lemma_parent_is_parent(name, none, children);
        }
        append_text_child(&mut video, "video:title", self.title)?;
        proof {
            children = children + seq![XmlNode::text("video:title"@, view.title)];
            lemma_parent_is_parent(name, none, children);
        }
        append_text_child(&mut video, "video:description", self.description)?;
        proof {
            children = children + seq![XmlNode::text("video:description"@, view.description)];
            lemma_parent_is_parent(name, none, children);
        }
        append_text_child(&mut video, "video:content_loc", self.content_location)?;
        proof {
            children = children + seq![XmlNode::text("video:content_loc"@, view.content_location)];
            lemma_parent_is_parent(name, none, children);
        }
        append_text_child(&mut video, "video:player_loc", self.player_location)?;
        proof {
            children = children + seq![XmlNode::text("video:player_loc"@, view.player_location)];
            assert(children =~= seq![
                XmlNode::text("video:thumbnail_loc"@, view.thumbnail_location),
                XmlNode::text("video:title"@, view.title),
                XmlNode::text("video:description"@, view.description),
                XmlNode::text("video:content_loc"@, view.content_location),
                XmlNode::text("video:player_loc"@, view.player_location),
            ]);
            lemma_parent_is_parent(name, none, children);
        }

        // the optional elements, each where it exists
        let duration = match self.duration {
            Some(d) => Some(d as u64),
            None => None,
        };
        append_optional_number_child(&mut video, "video:duration", duration)?;
        proof {
            children = children + optional_number_node(
                "video:duration"@,
                match view.duration {
                    Some(duration) => Some(duration as nat),
                    None => None,
                },
            );
            lemma_parent_is_parent(name, none, children);
        }
        append_optional_timestamp_child(&mut video, "video:expiration_date", self.expiration_date)?;
        proof {
            children = children + optional_timestamp_node(
                "video:expiration_date"@,
                view.expiration_date,
            );
            lemma_parent_is_parent(name, none, children);
        }
        append_optional_decimal_child(&mut video, "video:rating", self.rating)?;
        proof {
            children = children + optional_decimal_node("video:rating"@, view.rating);
            lemma_parent_is_parent(name, none, children);
        }
        let view_count = match self.view_count {
            Some(vc) => Some(vc as u64),
            None => None,
        };
        append_optional_number_child(&mut video, "video:view_count", view_count)?;
        proof {
            children = children + optional_number_node(
                "video:view_count"@,
                match view.view_count {
                    Some(view_count) => Some(view_count as nat),
                    None => None,
                },
            );
            lemma_parent_is_parent(name, none, children);
        }
        append_optional_timestamp_child(&mut video, "video:publication_date", self.publication_date)?;
        proof {
            children = children + optional_timestamp_node(
                "video:publication_date"@,
                view.publication_date,
            );
            lemma_parent_is_parent(name, none, children);
        }
        append_optional_flag_child(&mut video, "video:family_friendly", self.family_friendly)?;
        proof {
            children = children + optional_flag_node("video:family_friendly"@, view.family_friendly);
            lemma_parent_is_parent(name, none, children);
        }
        let restriction = match self.restriction {
            Some(restriction) => Some(restriction.to_xml()?),
            None => None,
        };
        append_optional_child(&mut video, restriction)?;
        proof {
            children = children + optional_node(
                match view.restriction {
                    Some(restriction) => Some(restriction.xml()),
                    None => None,
                },
            );
            lemma_parent_is_parent(name, none, children);
        }
        let platform = match self.platform {
            Some(platform) => Some(platform.to_xml()?),
            None => None,
        };
        append_optional_child(&mut video, platform)?;
        proof {
            children = children + optional_node(
                match view.platform {
                    Some(platform) => Some(platform.xml()),
                    None => None,
                },
            );
            lemma_parent_is_parent(name, none, children);
        }
        append_optional_flag_child(
            &mut video,
            "video:requires_subscription",
            self.requires_subscription,
        )?;
        proof {
            children = children + optional_flag_node(
                "video:requires_subscription"@,
                view.requires_subscription,
            );
            lemma_parent_is_parent(name, none, children);
        }
        let uploader = match self.uploader {
            Some(uploader) => Some(uploader.to_xml()?),
            None => None,
        };
        append_optional_child(&mut video, uploader)?;
        proof {
            children = children + optional_node(
                match view.uploader {
                    Some(uploader) => Some(uploader.xml()),
                    None => None,
                },
            );
            lemma_parent_is_parent(name, none, children);
        }
        append_optional_flag_child(&mut video, "video:live", self.live)?;
        proof {
            children = children + optional_flag_node("video:live"@, view.live);
            lemma_parent_is_parent(name, none, children);
        }

        // one <video:tag> per tag
        let tags = match self.tags {
            Some(tags) => tags,
            None => Vec::new(),
        };
        proof {
            assert(tags.deep_view() =~= match view.tags {
                Some(tags) => tags,
                None => Seq::empty(),
            });
        }
        append_text_children(&mut video, "video:tag", tags)?;
        Ok(video)
    }
}

} // verus!
