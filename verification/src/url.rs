//! URL entries and their alternate links.

use vstd::prelude::*;
use xml_builder::{XMLElement, XMLError};
use crate::decimal::Decimal;
use crate::image::{Image, ImageView};
use crate::news::{News, NewsView};
use crate::timestamp::Timestamp;
use crate::url_builder::UrlBuilder;
use crate::url_error::{UrlError, UrlErrorView};
use crate::video::{Video, VideoView};
use crate::xml::{
    append_child, append_optional_child, append_optional_decimal_child,
    append_optional_text_child, append_optional_timestamp_child, append_text_child, element_tree,
    lemma_parent_is_parent, lemma_with_children_twice, optional_decimal_node,
    optional_node, optional_text_node, optional_timestamp_node, XmlNode,
};

verus! {

/// The priority of an entry that names none: 0.5.
pub fn default_priority() -> (res: Decimal)
    ensures
        res == (Decimal { negative: false, mantissa: 5, scale: 1 }),
{
    Decimal { negative: false, mantissa: 5, scale: 1 }
}

/// The highest priority.
pub const MAX_PRIORITY: u32 = 1;

/// The largest number of images of one entry.
pub const MAX_IMAGES: usize = 1000;

/// How frequently the page is likely to change.
///
/// This value provides general information to search engines and may not correlate exactly to how often they crawl the page.
#[derive(Debug, Copy, Clone, PartialEq, Eq, Structural)]
pub enum ChangeFrequency {
    /// The value "always" should be used to describe documents that change each time they are accessed.
    Always,
    Hourly,
    Daily,
    Weekly,
    Monthly,
    Yearly,
    /// The value "never" should be used to describe archived URLs.
    Never,
}

impl ChangeFrequency {
    /// The frequency as it is written, in lower case.
    pub open spec fn text(self) -> Seq<char> {
        match self {
            ChangeFrequency::Always => "always"@,
            ChangeFrequency::Hourly => "hourly"@,
            ChangeFrequency::Daily => "daily"@,
            ChangeFrequency::Weekly => "weekly"@,
            ChangeFrequency::Monthly => "monthly"@,
            ChangeFrequency::Yearly => "yearly"@,
            ChangeFrequency::Never => "never"@,
        }
    }

    #[must_use]
    pub fn as_str(&self) -> (res: &'static str)
        ensures
            res@ == self.text(),
    {
        match self {
            ChangeFrequency::Always => "always",
            ChangeFrequency::Hourly => "hourly",
            ChangeFrequency::Daily => "daily",
            ChangeFrequency::Weekly => "weekly",
            ChangeFrequency::Monthly => "monthly",
            ChangeFrequency::Yearly => "yearly",
            ChangeFrequency::Never => "never",
        }
    }
}

/// A variant of the page in another language or for another region.
#[derive(Debug)]
pub struct UrlLink {
    /// The language, and region where there is one, of the variant.
    pub hreflang: String,
    /// The URL of the variant.
    ///
    /// This URL must begin with the protocol (such as http).
    pub href: String,
}

/// What a [`UrlLink`] holds.
pub struct UrlLinkView {
    pub hreflang: Seq<char>,
    pub href: Seq<char>,
}

impl View for UrlLink {
    type V = UrlLinkView;

    open spec fn view(&self) -> UrlLinkView {
        UrlLinkView { hreflang: self.hreflang@, href: self.href@ }
    }
}

impl DeepView for UrlLink {
    type V = UrlLinkView;

    open spec fn deep_view(&self) -> UrlLinkView {
        self@
    }
}

impl Clone for UrlLink {
    fn clone(&self) -> (res: Self)
        ensures
            res@ == self@,
    {
        UrlLink { hreflang: self.hreflang.clone(), href: self.href.clone() }
    }
}

impl UrlLinkView {
    /// `<xhtml:link rel="alternate" hreflang=".." href=".." />`.
    pub open spec fn xml(self) -> XmlNode {
        XmlNode::empty("xhtml:link"@).with_attribute("rel"@, "alternate"@).with_attribute(
            "hreflang"@,
            self.hreflang,
        ).with_attribute("href"@, self.href)
    }
}

impl UrlLink {
    #[must_use]
    pub fn new(hreflang: String, href: String) -> (res: Self)
        ensures
            res@ == (UrlLinkView { hreflang: hreflang@, href: href@ }),
    {
        Self { hreflang, href }
    }

    /// Builds the `<xhtml:link>` element.
    pub fn to_xml(self) -> (res: XMLElement)
        ensures
            element_tree(res) == self@.xml(),
    {
        let mut xhtml_link = XMLElement::new("xhtml:link");
        xhtml_link.add_attribute("rel", "alternate");
        xhtml_link.add_attribute("hreflang", self.hreflang.as_str());
        xhtml_link.add_attribute("href", self.href.as_str());
        xhtml_link
    }
}

/// A \<url\> entry within a sitemap.xml.
#[derive(Debug)]
pub struct Url {
    /// URL of the page.
    ///
    /// This URL must begin with the protocol (such as http).
    pub location: String,
    /// The variants of the page in other languages, no two for the same
    /// language.
    pub links: Vec<UrlLink>,
    /// The date of last modification of the page.
    pub last_modified: Option<Timestamp>,
    /// How frequently the page is likely to change.
    pub change_frequency: Option<ChangeFrequency>,
    /// The priority of this URL relative to other URLs of the site, from 0 to 1.
    pub priority: Option<Decimal>,
    /// Images associated with this URL: at least one and at most 1,000, or
    /// `None`.
    pub images: Option<Vec<Image>>,
    /// Videos associated with this URL.
    pub videos: Option<Vec<Video>>,
    /// News associated with this URL.
    pub news: Option<News>,
}

/// What a [`Url`] holds, and what a URL builder has gathered.
pub struct UrlView {
    pub location: Seq<char>,
    pub links: Seq<UrlLinkView>,
    pub last_modified: Option<Timestamp>,
    pub change_frequency: Option<ChangeFrequency>,
    pub priority: Option<Decimal>,
    pub images: Option<Seq<ImageView>>,
    pub videos: Option<Seq<VideoView>>,
    pub news: Option<NewsView>,
}

impl View for Url {
    type V = UrlView;

    open spec fn view(&self) -> UrlView {
        UrlView {
            location: self.location@,
            links: self.links.deep_view(),
            last_modified: self.last_modified,
            change_frequency: self.change_frequency,
            priority: self.priority,
            images: self.images.deep_view(),
            videos: self.videos.deep_view(),
            news: self.news.deep_view(),
        }
    }
}

impl DeepView for Url {
    type V = UrlView;

    open spec fn deep_view(&self) -> UrlView {
        self@
    }
}

impl Clone for Url {
    fn clone(&self) -> (res: Self)
        ensures
            res@ == self@,
    {
        let links = self.links.clone();
        let images = self.images.clone();
        let videos = self.videos.clone();
        proof {
            assert(links.deep_view() =~= self.links.deep_view());
            if self.images is Some {
                assert(images.unwrap().deep_view() =~= self.images.unwrap().deep_view());
            }
            if self.videos is Some {
                assert(videos.unwrap().deep_view() =~= self.videos.unwrap().deep_view());
            }
        }
        Url {
            location: self.location.clone(),
            links,
            last_modified: self.last_modified,
            change_frequency: self.change_frequency,
            priority: self.priority,
            images,
            videos,
            news: self.news.clone(),
        }
    }
}

/// Whether the link at `index` names a language that an earlier link names.
pub open spec fn repeats_hreflang(links: Seq<UrlLinkView>, index: int) -> bool {
    0 <= index < links.len() && exists|earlier: int|
        0 <= earlier < index && #[trigger] links[earlier].hreflang == links[index].hreflang
}

/// Whether `index` is the first place at which a language is repeated.
pub open spec fn first_repeated_hreflang(links: Seq<UrlLinkView>, index: int) -> bool {
    repeats_hreflang(links, index) && forall|before: int|
        0 <= before < index ==> !repeats_hreflang(links, before)
}

/// Whether no two links name the same language.
pub open spec fn distinct_hreflangs(links: Seq<UrlLinkView>) -> bool {
    forall|index: int| !repeats_hreflang(links, index)
}

/// The `<xhtml:link>` elements of the links, in their order.
pub open spec fn link_nodes(links: Seq<UrlLinkView>) -> Seq<XmlNode> {
    Seq::new(links.len(), |i: int| links[i].xml())
}

/// The `<image:image>` elements of the images, in their order.
pub open spec fn image_nodes(images: Seq<ImageView>) -> Seq<XmlNode> {
    Seq::new(images.len(), |i: int| images[i].xml())
}

/// The `<video:video>` elements of the videos, in their order.
pub open spec fn video_nodes(videos: Seq<VideoView>) -> Seq<XmlNode> {
    Seq::new(videos.len(), |i: int| videos[i].xml())
}

/// The members of a list that may be absent.
pub open spec fn members<T>(list: Option<Seq<T>>) -> Seq<T> {
    match list {
        Some(list) => list,
        None => Seq::empty(),
    }
}

impl UrlView {
    /// The first rule that the fields break, in the order priority, images,
    /// alternate links; `None` where they break none.
    pub open spec fn violation(self) -> Option<UrlErrorView> {
        if self.priority is Some && self.priority.unwrap().below_zero() {
            Some(UrlErrorView::PriorityTooLow(self.priority.unwrap()))
        } else if self.priority is Some && self.priority.unwrap().above(MAX_PRIORITY as nat) {
            Some(UrlErrorView::PriorityTooHigh(self.priority.unwrap()))
        } else if self.images is Some && self.images.unwrap().len() > MAX_IMAGES {
            Some(UrlErrorView::TooManyImages(self.images.unwrap().len() as usize))
        } else if !distinct_hreflangs(self.links) {
            let index = choose|index: int| first_repeated_hreflang(self.links, index);
            Some(
                UrlErrorView::DuplicateAlternateHreflangs(
                    self.links[index].hreflang,
                    self.links[index].href,
                ),
            )
        } else {
            None
        }
    }

    /// Whether the fields make a valid entry.
    pub open spec fn valid(self) -> bool {
        self.violation() is None
    }

    /// The fields as an entry keeps them: an empty list of images is no list.
    pub open spec fn normalized(self) -> UrlView {
        UrlView {
            images: if self.images is Some && self.images.unwrap().len() == 0 {
                None
            } else {
                self.images
            },
            ..self
        }
    }

    /// The children of `<url>`: the location, one link per alternate, then
    /// last modification, change frequency and priority, each where it is
    /// present, then one element per image and per video, then the news.
    pub open spec fn xml_children(self) -> Seq<XmlNode> {
        seq![XmlNode::text("loc"@, self.location)] + link_nodes(self.links)
            + optional_timestamp_node("lastmod"@, self.last_modified) + optional_text_node(
            "changefreq"@,
            match self.change_frequency {
                Some(change_frequency) => Some(change_frequency.text()),
                None => None,
            },
        ) + optional_decimal_node("priority"@, self.priority) + image_nodes(members(self.images))
            + video_nodes(members(self.videos)) + optional_node(
            match self.news {
                Some(news) => Some(news.xml()),
                None => None,
            },
        )
    }

    /// The `<url>` element.
    pub open spec fn xml(self) -> XmlNode {
        XmlNode::parent("url"@, Seq::empty(), self.xml_children())
    }
}

/// Where a language is repeated, there is a first place at which one is.
pub proof fn lemma_first_repeated_hreflang(links: Seq<UrlLinkView>, index: int)
    requires
        repeats_hreflang(links, index),
    ensures
        exists|first: int| 0 <= first <= index && first_repeated_hreflang(links, first),
    decreases index,
{
    if exists|before: int| 0 <= before < index && repeats_hreflang(links, before) {
        let before = choose|before: int| 0 <= before < index && repeats_hreflang(links, before);
        lemma_first_repeated_hreflang(links, before);
        let first = choose|first: int|
            0 <= first <= before && first_repeated_hreflang(links, first);
        assert(0 <= first <= index && first_repeated_hreflang(links, first));
    } else {
        assert(first_repeated_hreflang(links, index));
    }
}

/// The rule on priorities. A priority below 0 is refused as too low and a
/// priority above 1 as too high, each with the priority itself, whatever
/// the other fields hold. A priority from 0 to 1 is never the reason for a
/// refusal: the fields are then judged as they would be without a priority.
pub proof fn lemma_priority_rule(fields: UrlView, priority: Decimal)
    requires
        fields.priority == Some(priority),
    ensures
        priority.below_zero() ==> fields.violation() == Some(
            UrlErrorView::PriorityTooLow(priority),
        ),
        priority.above(MAX_PRIORITY as nat) ==> fields.violation() == Some(
            UrlErrorView::PriorityTooHigh(priority),
        ),
        !priority.below_zero() && !priority.above(MAX_PRIORITY as nat) ==> fields.violation() == (
        UrlView { priority: None, ..fields }).violation(),
        !priority.below_zero() && !priority.above(MAX_PRIORITY as nat) && members(
            fields.images,
        ).len() <= MAX_IMAGES && distinct_hreflangs(fields.links) ==> fields.valid(),
{
}

/// The rule on images, for fields whose priority is in order. More than
/// 1,000 images are refused, with their number. Up to 1,000 images are never
/// the reason for a refusal, and an entry keeps them as they are, except
/// that it keeps an empty list as no list.
pub proof fn lemma_images_rule(fields: UrlView, images: Seq<ImageView>)
    requires
        fields.images == Some(images),
        fields.priority matches Some(priority) ==> !priority.below_zero() && !priority.above(
            MAX_PRIORITY as nat,
        ),
    ensures
        images.len() > MAX_IMAGES ==> fields.violation() == Some(
            UrlErrorView::TooManyImages(images.len() as usize),
        ),
        images.len() <= MAX_IMAGES ==> fields.violation() == (UrlView {
            images: None,
            ..fields
        }).violation(),
        images.len() <= MAX_IMAGES && distinct_hreflangs(fields.links) ==> fields.valid(),
        images.len() == 0 ==> fields.normalized().images is None,
        images.len() > 0 ==> fields.normalized().images == Some(images),
{
}

/// The rule on alternate links, for fields whose priority and images are in
/// order. Where two links name the same language the fields are refused,
/// and the refusal holds the language and the address of a link that
/// repeats the language of an earlier one: the first such link.
pub proof fn lemma_hreflang_rule(fields: UrlView, earlier: int, later: int)
    requires
        fields.priority matches Some(priority) ==> !priority.below_zero() && !priority.above(
            MAX_PRIORITY as nat,
        ),
        members(fields.images).len() <= MAX_IMAGES,
        0 <= earlier < later < fields.links.len(),
        fields.links[earlier].hreflang == fields.links[later].hreflang,
    ensures
        exists|first: int|
            #![auto]
            first_repeated_hreflang(fields.links, first) && first <= later && fields.violation()
                == Some(
                UrlErrorView::DuplicateAlternateHreflangs(
                    fields.links[first].hreflang,
                    fields.links[first].href,
                ),
            ),
{
    assert(repeats_hreflang(fields.links, later));
    lemma_first_repeated_hreflang(fields.links, later);
    let first = choose|first: int|
        0 <= first <= later && first_repeated_hreflang(fields.links, first);
    let chosen = choose|index: int| first_repeated_hreflang(fields.links, index);
    assert(first_repeated_hreflang(fields.links, chosen));
    assert(chosen == first);
}

/// Looks for the first link that names a language which an earlier link
/// names, and returns its place.
fn find_repeated_hreflang(links: &Vec<UrlLink>) -> (res: Option<usize>)
    ensures
        match res {
            Some(index) => first_repeated_hreflang(links.deep_view(), index as int),
            None => distinct_hreflangs(links.deep_view()),
        },
{
    let ghost views = links.deep_view();
    let mut index: usize = 0;
    while index < links.len()
        invariant
            index <= links.len(),
            views == links.deep_view(),
            forall|before: int| 0 <= before < index ==> !repeats_hreflang(views, before),
        decreases links.len() - index,
    {
        let mut earlier: usize = 0;
        while earlier < index
            invariant
                earlier <= index,
                index < links.len(),
                views == links.deep_view(),
                forall|before: int| 0 <= before < index ==> !repeats_hreflang(views, before),
                forall|k: int|
                    0 <= k < earlier ==> (#[trigger] views[k]).hreflang != views[index as int].hreflang,
            decreases index - earlier,
        {
            if links[earlier].hreflang == links[index].hreflang {
                proof {
                    assert(views[earlier as int].hreflang == views[index as int].hreflang);
                    assert(repeats_hreflang(views, index as int));
                }
                return Some(index);
            }
            earlier = earlier + 1;
        }
        index = index + 1;
    }
    None
}

/// Adds one `<xhtml:link>` per link, in order, behind the children of
/// `parent`.
fn append_links(parent: &mut XMLElement, links: Vec<UrlLink>) -> (res: Result<(), XMLError>)
    requires
        element_tree(*old(parent)).is_parent(),
    ensures
        res is Ok,
        element_tree(*final(parent)) == element_tree(*old(parent)).with_children(
            link_nodes(links.deep_view()),
        ),
{
    let ghost start = element_tree(*parent);
    let ghost views = links.deep_view();
    proof {
        lemma_parent_is_parent(start.name, start.attributes, start.children());
        assert(link_nodes(views.take(0)) =~= Seq::empty());
    }
    for link in it: links.into_iter()
        invariant
            views == Seq::new(it.seq().len(), |k: int| it.seq()[k]@),
            start.is_parent(),
            element_tree(*parent) == start.with_children(link_nodes(views.take(it.index() as int))),
    {
        let ghost i = it.index();
        let ghost done = link_nodes(views.take(i as int));
        proof {
            lemma_parent_is_parent(start.name, start.attributes, start.children() + done);
            lemma_with_children_twice(start, done, seq![views[i as int].xml()]);
            assert(done + seq![views[i as int].xml()] =~= link_nodes(views.take(i + 1)));
        }
        append_child(parent, link.to_xml())?;
    }
    proof {
        assert(views.take(views.len() as int) == views);
    }
    Ok(())
}

/// Adds one `<image:image>` per image, in order, behind the children of
/// `parent`.
fn append_images(parent: &mut XMLElement, images: Vec<Image>) -> (res: Result<(), XMLError>)
    requires
        element_tree(*old(parent)).is_parent(),
    ensures
        res is Ok,
        element_tree(*final(parent)) == element_tree(*old(parent)).with_children(
            image_nodes(images.deep_view()),
        ),
{
    let ghost start = element_tree(*parent);
    let ghost views = images.deep_view();
    proof {
        lemma_parent_is_parent(start.name, start.attributes, start.children());
        assert(image_nodes(views.take(0)) =~= Seq::empty());
    }
    for image in it: images.into_iter()
        invariant
            views == Seq::new(it.seq().len(), |k: int| it.seq()[k]@),
            start.is_parent(),
            element_tree(*parent) == start.with_children(image_nodes(views.take(it.index() as int))),
    {
        let ghost i = it.index();
        let ghost done = image_nodes(views.take(i as int));
        proof {
            lemma_parent_is_parent(start.name, start.attributes, start.children() + done);
            lemma_with_children_twice(start, done, seq![views[i as int].xml()]);
            assert(done + seq![views[i as int].xml()] =~= image_nodes(views.take(i + 1)));
        }
        append_child(parent, image.to_xml()?)?;
    }
    proof {
        assert(views.take(views.len() as int) == views);
    }
    Ok(())
}

/// Adds one `<video:video>` per video, in order, behind the children of
/// `parent`.
fn append_videos(parent: &mut XMLElement, videos: Vec<Video>) -> (res: Result<(), XMLError>)
    requires
        element_tree(*old(parent)).is_parent(),
    ensures
        res is Ok,
        element_tree(*final(parent)) == element_tree(*old(parent)).with_children(
            video_nodes(videos.deep_view()),
        ),
{
    let ghost start = element_tree(*parent);
    let ghost views = videos.deep_view();
    proof {
        lemma_parent_is_parent(start.name, start.attributes, start.children());
        assert(video_nodes(views.take(0)) =~= Seq::empty());
    }
    for video in it: videos.into_iter()
        invariant
            views == Seq::new(it.seq().len(), |k: int| it.seq()[k]@),
            start.is_parent(),
            element_tree(*parent) == start.with_children(video_nodes(views.take(it.index() as int))),
    {
        let ghost i = it.index();
        let ghost done = video_nodes(views.take(i as int));
        proof {
            lemma_parent_is_parent(start.name, start.attributes, start.children() + done);
            lemma_with_children_twice(start, done, seq![views[i as int].xml()]);
            assert(done + seq![views[i as int].xml()] =~= video_nodes(views.take(i + 1)));
        }
        append_child(parent, video.to_xml()?)?;
    }
    proof {
        assert(views.take(views.len() as int) == views);
    }
    Ok(())
}

impl Url {
    /// Makes an entry of the given fields, or names the first rule that they
    /// break. An empty list of images is kept as no list.
    ///
    /// # Errors
    ///
    /// `PriorityTooLow` if `priority` is below 0,
    /// `PriorityTooHigh` if `priority` is above 1,
    /// `TooManyImages` if there are more than 1,000 `images`,
    /// `DuplicateAlternateHreflangs` if two of `links` name the same
    /// language, with the first link that repeats a language;
    /// where several apply, the first of this list.
    pub fn new(
        location: String,
        links: Vec<UrlLink>,
        last_modified: Option<Timestamp>,
        change_frequency: Option<ChangeFrequency>,
        priority: Option<Decimal>,
        images: Option<Vec<Image>>,
        videos: Option<Vec<Video>>,
        news: Option<News>,
    ) -> (res: Result<Self, UrlError>)
        ensures
            ({
                let fields = UrlView {
                    location: location@,
                    links: links.deep_view(),
                    last_modified,
                    change_frequency,
                    priority,
                    images: images.deep_view(),
                    videos: videos.deep_view(),
                    news: news.deep_view(),
                };
                match res {
                    Ok(url) => fields.valid() && url@ == fields.normalized() && url@.valid(),
                    Err(error) => fields.violation() == Some(error@),
                }
            }),
    {
        // make sure priority is within bounds: 0 <= priority <= 1
        if let Some(p) = priority {
            if p.is_below_zero() {
                return Err(UrlError::PriorityTooLow(p));
            }
            if p.is_above(MAX_PRIORITY) {
                return Err(UrlError::PriorityTooHigh(p));
            }
        }
        // make sure there aren't too many images

        let images: Option<Vec<Image>> = match images {
            None => None,
            Some(images) => {
                if images.len() > MAX_IMAGES {
                    return Err(UrlError::TooManyImages(images.len()));
                }
                if images.len() == 0 {
                    None
                } else {
                    Some(images)
                }
            },
        };

        // make sure no two links name the same language
        if let Some(index) = find_repeated_hreflang(&links) {
            proof {
                let views = links.deep_view();
                let chosen = choose|chosen: int| first_repeated_hreflang(views, chosen);
                assert(first_repeated_hreflang(views, index as int));
                assert(chosen == index);
            }
            return Err(
                UrlError::DuplicateAlternateHreflangs(
                    links[index].hreflang.clone(),
                    links[index].href.clone(),
                ),
            );
        }
        Ok(Self { location, links, last_modified, change_frequency, priority, images, videos, news })
    }

    /// A builder that holds the location and none of the other fields.
    #[must_use]
    pub fn builder(location: String) -> (res: UrlBuilder)
        ensures
            res@ == (UrlView {
                location: location@,
                links: Seq::empty(),
                last_modified: None,
                change_frequency: None,
                priority: None,
                images: None,
                videos: None,
                news: None,
            }),
    {
        UrlBuilder::new(location)
    }

    /// Builds the `<url>` element. This never fails.
    pub fn to_xml(self) -> (res: Result<XMLElement, XMLError>)
        ensures
            res matches Ok(element) && element_tree(element) == self@.xml(),
    {
        let ghost view = self@;
        let ghost name = "url"@;
        let ghost none = Seq::<(Seq<char>, Seq<char>)>::empty();
        let ghost mut children = Seq::<XmlNode>::empty();
        let mut url: XMLElement = XMLElement::new("url");
        proof {
            lemma_parent_is_parent(name, none, children);
        }

        // add <loc>
        append_text_child(&mut url, "loc", self.location)?;
        proof {
            children = children + seq![XmlNode::text("loc"@, view.location)];
            assert(children =~= seq![XmlNode::text("loc"@, view.location)]);
            lemma_parent_is_parent(name, none, children);
        }

        // add <xhtml:link>, if any exists
        append_links(&mut url, self.links)?;
        proof {
            children = children + link_nodes(view.links);
            lemma_parent_is_parent(name, none, children);
        }

        // add <lastmod>, if it exists
        append_optional_timestamp_child(&mut url, "lastmod", self.last_modified)?;
        proof {
            children = children + optional_timestamp_node("lastmod"@, view.last_modified);
            lemma_parent_is_parent(name, none, children);
        }

        // add <changefreq>, if it exists
        let change_frequency = match self.change_frequency {
            Some(change_frequency) => Some(String::from_str(change_frequency.as_str())),
            None => None,
        };
        append_optional_text_child(&mut url, "changefreq", change_frequency)?;
        proof {
            children = children + optional_text_node(
                "changefreq"@,
                match view.change_frequency {
                    Some(change_frequency) => Some(change_frequency.text()),
                    None => None,
                },
            );
            lemma_parent_is_parent(name, none, children);
        }

        // add <priority>, if it exists
        append_optional_decimal_child(&mut url, "priority", self.priority)?;
        proof {
            children = children + optional_decimal_node("priority"@, view.priority);
            lemma_parent_is_parent(name, none, children);
        }

        // add <image:image>, if any exist
        let images = match self.images {
            Some(images) => images,
            None => Vec::new(),
        };
        proof {
            assert(images.deep_view() =~= members(view.images));
        }
        append_images(&mut url, images)?;
        proof {
            children = children + image_nodes(members(view.images));
            lemma_parent_is_parent(name, none, children);
        }

        // add <video:video>, if any exist
        let videos = match self.videos {
            Some(videos) => videos,
            None => Vec::new(),
        };
        proof {
            assert(videos.deep_view() =~= members(view.videos));
        }
        append_videos(&mut url, videos)?;
        proof {
            children = children + video_nodes(members(view.videos));
            lemma_parent_is_parent(name, none, children);
        }

        // add <news:news>, if it exists
        let news = match self.news {
            Some(news) => Some(news.to_xml()?),
            None => None,
        };
        append_optional_child(&mut url, news)?;
        Ok(url)
    }
}

} // verus!
