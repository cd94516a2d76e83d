//! URL sitemap documents.

use vstd::prelude::*;
use xml_builder::{XMLBuilder, XMLElement, XMLError, XMLVersion, XML};
use crate::url::{Url, UrlView};
use crate::url_set_error::UrlSetError;
use crate::xml::{
    add_optional_attribute, append_child, document_model, element_tree, escaped, generate_into,
    lemma_parent_is_parent, lemma_with_children_twice, optional_attribute, generated_document,
    XmlDocument, XmlNode, XmlSettings,
};
use crate::{
    ENCODING, IMAGE_NAMESPACE, NAMESPACE, NEWS_NAMESPACE, VIDEO_NAMESPACE, XHTML_NAMESPACE,
};

verus! {

/// The largest number of entries in one set.
pub const MAX_URLS: usize = 50_000;

/// The largest number of entries in a set of which one carries news.
pub const MAX_NEWS_URLS: usize = 1000;

/// Encapsulates the file and references the current protocol standard.
pub struct UrlSet {
    /// The XML version.
    pub xml_version: XMLVersion,
    /// The XML encoding.
    pub xml_encoding: String,
    /// The namespace for the \<urlset\>.
    pub xmlns: String,
    /// The XHTML namespace, held where an entry has an alternate link.
    pub xmlns_xhtml: Option<String>,
    /// The image namespace, held where an entry has an image.
    pub xmlns_image: Option<String>,
    /// The video namespace, held where an entry has a video.
    pub xmlns_video: Option<String>,
    /// The news namespace, held where an entry has news.
    pub xmlns_news: Option<String>,
    /// All the URLs that will become indexed.
    pub urls: Vec<Url>,
}

/// What a [`UrlSet`] holds.
pub struct UrlSetView {
    pub xml_version: XMLVersion,
    pub xml_encoding: Seq<char>,
    pub xmlns: Seq<char>,
    pub xmlns_xhtml: Option<Seq<char>>,
    pub xmlns_image: Option<Seq<char>>,
    pub xmlns_video: Option<Seq<char>>,
    pub xmlns_news: Option<Seq<char>>,
    pub urls: Seq<UrlView>,
}

impl View for UrlSet {
    type V = UrlSetView;

    open spec fn view(&self) -> UrlSetView {
        UrlSetView {
            xml_version: self.xml_version,
            xml_encoding: self.xml_encoding@,
            xmlns: self.xmlns@,
            xmlns_xhtml: self.xmlns_xhtml.deep_view(),
            xmlns_image: self.xmlns_image.deep_view(),
            xmlns_video: self.xmlns_video.deep_view(),
            xmlns_news: self.xmlns_news.deep_view(),
            urls: self.urls.deep_view(),
        }
    }
}

/// Whether the entry has an alternate link.
pub open spec fn has_links(url: UrlView) -> bool {
    url.links.len() > 0
}

/// Whether the entry has an image.
pub open spec fn has_images(url: UrlView) -> bool {
    url.images is Some && url.images.unwrap().len() > 0
}

/// Whether the entry has a video.
pub open spec fn has_videos(url: UrlView) -> bool {
    url.videos is Some && url.videos.unwrap().len() > 0
}

/// Whether the entry has news.
pub open spec fn has_news(url: UrlView) -> bool {
    url.news is Some
}

/// Whether one of the entries has an alternate link.
pub open spec fn any_links(urls: Seq<UrlView>) -> bool {
    exists|i: int| 0 <= i < urls.len() && has_links(#[trigger] urls[i])
}

/// Whether one of the entries has an image.
pub open spec fn any_images(urls: Seq<UrlView>) -> bool {
    exists|i: int| 0 <= i < urls.len() && has_images(#[trigger] urls[i])
}

/// Whether one of the entries has a video.
pub open spec fn any_videos(urls: Seq<UrlView>) -> bool {
    exists|i: int| 0 <= i < urls.len() && has_videos(#[trigger] urls[i])
}

/// Whether one of the entries has news.
pub open spec fn any_news(urls: Seq<UrlView>) -> bool {
    exists|i: int| 0 <= i < urls.len() && has_news(#[trigger] urls[i])
}

/// The namespace `name` where it is `needed`.
pub open spec fn namespace_if(needed: bool, name: Seq<char>) -> Option<Seq<char>> {
    if needed {
        Some(name)
    } else {
        None
    }
}

/// The `<url>` elements of the entries, in their order.
pub open spec fn url_nodes(urls: Seq<UrlView>) -> Seq<XmlNode> {
    Seq::new(urls.len(), |i: int| urls[i].xml())
}

impl UrlSetView {
    /// The rule that the entries break: too many of them, or too many for a
    /// set with news; `None` where they break none.
    pub open spec fn violation(urls: Seq<UrlView>) -> Option<UrlSetError> {
        if urls.len() > MAX_URLS {
            Some(UrlSetError::TooManyUrls(urls.len() as usize))
        } else if any_news(urls) && urls.len() > MAX_NEWS_URLS {
            Some(UrlSetError::TooMuchNews(urls.len() as usize))
        } else {
            None
        }
    }

    /// The set that is made of valid `urls`: version 1.0, encoding UTF-8,
    /// the sitemap namespace, and each further namespace where an entry
    /// needs it.
    pub open spec fn of(urls: Seq<UrlView>) -> UrlSetView {
        UrlSetView {
            xml_version: XMLVersion::XML1_0,
            xml_encoding: ENCODING@,
            xmlns: NAMESPACE@,
            xmlns_xhtml: namespace_if(any_links(urls), XHTML_NAMESPACE@),
            xmlns_image: namespace_if(any_images(urls), IMAGE_NAMESPACE@),
            xmlns_video: namespace_if(any_videos(urls), VIDEO_NAMESPACE@),
            xmlns_news: namespace_if(any_news(urls), NEWS_NAMESPACE@),
            urls,
        }
    }

    /// The attributes of `<urlset>`: the sitemap namespace, then the
    /// namespaces of XHTML, images, videos and news, each where it is held.
    pub open spec fn root_attributes(self) -> Seq<(Seq<char>, Seq<char>)> {
        seq![("xmlns"@, escaped(self.xmlns))] + optional_attribute("xmlns:xhtml"@, self.xmlns_xhtml)
            + optional_attribute("xmlns:image"@, self.xmlns_image) + optional_attribute(
            "xmlns:video"@,
            self.xmlns_video,
        ) + optional_attribute("xmlns:news"@, self.xmlns_news)
    }

    /// `<urlset>` with its namespaces and one `<url>` per entry.
    pub open spec fn root(self) -> XmlNode {
        XmlNode::parent("urlset"@, self.root_attributes(), url_nodes(self.urls))
    }

    /// The document: the version and encoding of the set, written on one
    /// line, and the root element.
    pub open spec fn document(self) -> XmlDocument {
        XmlDocument {
            settings: XmlSettings::compact(self.xml_version, self.xml_encoding),
            root: Some(self.root()),
        }
    }
}

/// The rule on the number of entries. More than 50,000 entries are refused
/// with their number. Up to 50,000 entries are refused, again with their
/// number, where one of them carries news and there are more than 1,000;
/// otherwise they make a set.
pub proof fn lemma_size_rule(urls: Seq<UrlView>)
    ensures
        urls.len() > MAX_URLS ==> UrlSetView::violation(urls) == Some(
            UrlSetError::TooManyUrls(urls.len() as usize),
        ),
        urls.len() <= MAX_URLS && any_news(urls) && urls.len() > MAX_NEWS_URLS
            ==> UrlSetView::violation(urls) == Some(UrlSetError::TooMuchNews(urls.len() as usize)),
        urls.len() <= MAX_URLS && !any_news(urls) ==> UrlSetView::violation(urls) is None,
        urls.len() <= MAX_NEWS_URLS ==> UrlSetView::violation(urls) is None,
{
}

/// Writing is a function of what a set holds: two sets that hold the same
/// make the same document, the writer succeeds on both or on neither, and
/// where it succeeds it appends the same bytes for both.
pub proof fn lemma_same_set_same_bytes(a: UrlSet, b: UrlSet)
    requires
        a@ == b@,
    ensures
        a@.document() == b@.document(),
        generated_document(a@.document()) == generated_document(b@.document()),
{
}

/// The namespaces of a set follow from its entries. The root element always
/// names the sitemap namespace first. It names the namespace of XHTML,
/// images, videos or news, in this order, exactly where one of the entries
/// has an alternate link, an image, a video or news. So entries without any
/// of these give the sitemap namespace alone, and entries of which some have
/// images and none has links, videos or news give the sitemap namespace and
/// the image namespace, and no other.
pub proof fn lemma_namespaces(urls: Seq<UrlView>)
    ensures
        UrlSetView::of(urls).root_attributes() == seq![("xmlns"@, escaped(NAMESPACE@))]
            + optional_attribute("xmlns:xhtml"@, namespace_if(any_links(urls), XHTML_NAMESPACE@))
            + optional_attribute("xmlns:image"@, namespace_if(any_images(urls), IMAGE_NAMESPACE@))
            + optional_attribute("xmlns:video"@, namespace_if(any_videos(urls), VIDEO_NAMESPACE@))
            + optional_attribute("xmlns:news"@, namespace_if(any_news(urls), NEWS_NAMESPACE@)),
        !any_links(urls) && !any_images(urls) && !any_videos(urls) && !any_news(urls)
            ==> UrlSetView::of(urls).root_attributes() == seq![("xmlns"@, escaped(NAMESPACE@))],
        !any_links(urls) && any_images(urls) && !any_videos(urls) && !any_news(urls)
            ==> UrlSetView::of(urls).root_attributes() == seq![
            ("xmlns"@, escaped(NAMESPACE@)),
            ("xmlns:image"@, escaped(IMAGE_NAMESPACE@)),
        ],
{
    let attributes = UrlSetView::of(urls).root_attributes();
    if !any_links(urls) && !any_videos(urls) && !any_news(urls) {
        if any_images(urls) {
            assert(attributes =~= seq![
                ("xmlns"@, escaped(NAMESPACE@)),
                ("xmlns:image"@, escaped(IMAGE_NAMESPACE@)),
            ]);
        } else {
            assert(attributes =~= seq![("xmlns"@, escaped(NAMESPACE@))]);
        }
    }
}

/// The namespace `name` as a string where it is `needed`.
fn namespace_string(needed: bool, name: &str) -> (res: Option<String>)
    ensures
        res.deep_view() == namespace_if(needed, name@),
{
    if needed {
        Some(String::from_str(name))
    } else {
        None
    }
}

impl UrlSet {
    /// Makes the set of the given entries and finds the namespaces that
    /// they need.
    ///
    /// # Errors
    ///
    /// `TooManyUrls` if there are more than 50,000 `urls`,
    /// `TooMuchNews` if one of `urls` carries news and there are more than
    /// 1,000 of them.
    pub fn new(urls: Vec<Url>) -> (res: Result<Self, UrlSetError>)
        ensures
            match res {
                Ok(set) => UrlSetView::violation(urls.deep_view()) is None && set@
                    == UrlSetView::of(urls.deep_view()),
                Err(error) => UrlSetView::violation(urls.deep_view()) == Some(error),
            },
    {
        // UrlSets cannot contain more than 50,000 URLs
        if urls.len() > MAX_URLS {
            return Err(UrlSetError::TooManyUrls(urls.len()));
        }
        // check if we even need namespaces for links/images/videos/news

        let ghost views = urls.deep_view();
        let mut links_exist: bool = false;
        let mut images_exist: bool = false;
        let mut videos_exist: bool = false;
        let mut news_exists: bool = false;
        let mut i: usize = 0;
        while i < urls.len()
            invariant
                i <= urls.len(),
                views == urls.deep_view(),
                links_exist == any_links(views.take(i as int)),
                images_exist == any_images(views.take(i as int)),
                videos_exist == any_videos(views.take(i as int)),
                news_exists == any_news(views.take(i as int)),
            decreases urls.len() - i,
        {
            let url = &urls[i];
            let ghost seen = views.take(i as int);
            let ghost next = views.take(i + 1);
            proof {
                assert(next[i as int] == url@);
                assert(forall|k: int| 0 <= k < i ==> seen[k] == next[k]);
            }
            // if any <url>s exist that contain a link, set the XHTML namespace
            if url.links.len() > 0 {
                links_exist = true;
            }
            // if any <url>s exist that contain an image, set the image namespace

            if let Some(images) = &url.images {
                if images.len() > 0 {
                    images_exist = true;
                }
            }
            // if any <url>s exist that contain a video, set the video namespace

            if let Some(videos) = &url.videos {
                if videos.len() > 0 {
                    videos_exist = true;
                }
            }
            // check if any URLs have news

            if url.news.is_some() {
                news_exists = true;
            }
            proof {
                assert(any_links(next) == (any_links(seen) || has_links(url@))) by {
                    if any_links(seen) {
                        let k = choose|k: int| 0 <= k < seen.len() && has_links(#[trigger] seen[k]);
                        assert(has_links(next[k]));
                    }
                    if has_links(url@) {
                        assert(has_links(next[i as int]));
                    }
                    if any_links(next) {
                        let k = choose|k: int| 0 <= k < next.len() && has_links(#[trigger] next[k]);
                        if k < i {
                            assert(has_links(seen[k]));
                        }
                    }
                }
                assert(any_images(next) == (any_images(seen) || has_images(url@))) by {
                    if any_images(seen) {
                        let k = choose|k: int| 0 <= k < seen.len() && has_images(#[trigger] seen[k]);
                        assert(has_images(next[k]));
                    }
                    if has_images(url@) {
                        assert(has_images(next[i as int]));
                    }
                    if any_images(next) {
                        let k = choose|k: int| 0 <= k < next.len() && has_images(#[trigger] next[k]);
                        if k < i {
                            assert(has_images(seen[k]));
                        }
                    }
                }
                assert(any_videos(next) == (any_videos(seen) || has_videos(url@))) by {
                    if any_videos(seen) {
                        let k = choose|k: int| 0 <= k < seen.len() && has_videos(#[trigger] seen[k]);
                        assert(has_videos(next[k]));
                    }
                    if has_videos(url@) {
                        assert(has_videos(next[i as int]));
                    }
                    if any_videos(next) {
                        let k = choose|k: int| 0 <= k < next.len() && has_videos(#[trigger] next[k]);
                        if k < i {
                            assert(has_videos(seen[k]));
                        }
                    }
                }
                assert(any_news(next) == (any_news(seen) || has_news(url@))) by {
                    if any_news(seen) {
                        let k = choose|k: int| 0 <= k < seen.len() && has_news(#[trigger] seen[k]);
                        assert(has_news(next[k]));
                    }
                    if has_news(url@) {
                        assert(has_news(next[i as int]));
                    }
                    if any_news(next) {
                        let k = choose|k: int| 0 <= k < next.len() && has_news(#[trigger] next[k]);
                        if k < i {
                            assert(has_news(seen[k]));
                        }
                    }
                }
            }
            i = i + 1;
        }
        proof {
            assert(views.take(urls.len() as int) == views);
        }

        // cannot have more than 1,000 news URLs in a single UrlSet
        if news_exists && urls.len() > MAX_NEWS_URLS {
            return Err(UrlSetError::TooMuchNews(urls.len()));
        }
        Ok(
            Self {
                xml_version: XMLVersion::XML1_0,
                xml_encoding: String::from_str(ENCODING),
                xmlns: String::from_str(NAMESPACE),
                xmlns_xhtml: namespace_string(links_exist, XHTML_NAMESPACE),
                xmlns_image: namespace_string(images_exist, IMAGE_NAMESPACE),
                xmlns_video: namespace_string(videos_exist, VIDEO_NAMESPACE),
                xmlns_news: namespace_string(news_exists, NEWS_NAMESPACE),
                urls,
            },
        )
    }

    /// Builds the document. This never fails.
    pub fn to_xml(self) -> (res: Result<XML, XMLError>)
        ensures
            res matches Ok(document) && document_model(document) == self@.document(),
    {
        let ghost view = self@;
        // create XML document, written without indentation and line breaks
        let mut xml = XMLBuilder::new().version(self.xml_version).encoding(
            self.xml_encoding,
        ).indent(false).break_lines(false).build();

        // create <urlset>
        let mut urlset = XMLElement::new("urlset");
        urlset.add_attribute("xmlns", self.xmlns.as_str());
        let ghost mut attributes = seq![("xmlns"@, escaped(view.xmlns))];
        assert(element_tree(urlset).attributes =~= attributes);

        // set each further namespace, if it exists
        add_optional_attribute(&mut urlset, "xmlns:xhtml", self.xmlns_xhtml);
        proof {
            attributes = attributes + optional_attribute("xmlns:xhtml"@, view.xmlns_xhtml);
        }
        add_optional_attribute(&mut urlset, "xmlns:image", self.xmlns_image);
        proof {
            attributes = attributes + optional_attribute("xmlns:image"@, view.xmlns_image);
        }
        add_optional_attribute(&mut urlset, "xmlns:video", self.xmlns_video);
        proof {
            attributes = attributes + optional_attribute("xmlns:video"@, view.xmlns_video);
        }
        add_optional_attribute(&mut urlset, "xmlns:news", self.xmlns_news);
        proof {
            attributes = attributes + optional_attribute("xmlns:news"@, view.xmlns_news);
        }
        let ghost start = element_tree(urlset);
        proof {
            assert(start == XmlNode::parent("urlset"@, view.root_attributes(), Seq::empty()));
            lemma_parent_is_parent(start.name, start.attributes, Seq::empty());
            assert(url_nodes(view.urls.take(0)) =~= Seq::empty());
        }

        // add each <url>
        let urls = self.urls;
        for url in it: urls.into_iter()
            invariant
                view.urls == Seq::new(it.seq().len(), |k: int| it.seq()[k]@),
                start == XmlNode::parent(start.name, start.attributes, Seq::empty()),
                element_tree(urlset) == start.with_children(
                    url_nodes(view.urls.take(it.index() as int)),
                ),
        {
            let ghost i = it.index();
            let ghost done = url_nodes(view.urls.take(i as int));
            proof {
                lemma_parent_is_parent(start.name, start.attributes, start.children() + done);
                lemma_with_children_twice(start, done, seq![view.urls[i as int].xml()]);
                assert(done + seq![view.urls[i as int].xml()] =~= url_nodes(
                    view.urls.take(i + 1),
                ));
            }
            let child: XMLElement = url.to_xml()?;
            append_child(&mut urlset, child)?;
        }
        proof {
            assert(view.urls.take(view.urls.len() as int) == view.urls);
            lemma_parent_is_parent(start.name, start.attributes, Seq::empty());
            assert(start.children() + url_nodes(view.urls) =~= url_nodes(view.urls));
        }

        // set root element and we're done!
        xml.set_root_element(urlset);
        Ok(xml)
    }

    /// Writes the document behind what `writer` holds. Building the
    /// document never fails, so the outcome is that of the XML writer on
    /// [`Self::to_xml`]'s document: success, with the bytes of the document
    /// behind what `writer` held, or its error.
    ///
    /// # Errors
    ///
    /// The error of the XML writer, exactly where it reports one; `writer`
    /// then still begins with what it held.
    pub fn write(self, writer: &mut Vec<u8>) -> (res: Result<(), XMLError>)
        ensures
            res is Ok <==> generated_document(self@.document()) is Some,
            res is Ok ==> final(writer)@ == old(writer)@ + generated_document(
                self@.document(),
            ).unwrap(),
            old(writer)@.is_prefix_of(final(writer)@),
    {
        let xml = self.to_xml()?;
        generate_into(xml, writer)
    }
}

} // verus!
