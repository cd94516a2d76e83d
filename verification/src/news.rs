//! News articles and the publications in which they appear.

use vstd::prelude::*;
use xml_builder::{XMLElement, XMLError};
use crate::timestamp::Timestamp;
use crate::xml::{append_child, append_text_child, element_tree, lemma_parent_is_parent, XmlNode};

verus! {

/// The publication where the article appears.
#[derive(Debug)]
pub struct Publication {
    /// The name of the news publication.
    ///
    /// It must exactly match the name as it appears on your articles on news.google.com, except for anything in parentheses.
    pub name: String,
    /// The language of the publication, as an ISO 639 language code (two or three letters).
    ///
    /// Exception: For Simplified Chinese, use zh-cn and for Traditional Chinese, use zh-tw.
    pub language: String,
}

/// What a [`Publication`] holds.
pub struct PublicationView {
    pub name: Seq<char>,
    pub language: Seq<char>,
}

impl View for Publication {
    type V = PublicationView;

    open spec fn view(&self) -> PublicationView {
        PublicationView { name: self.name@, language: self.language@ }
    }
}

impl DeepView for Publication {
    type V = PublicationView;

    open spec fn deep_view(&self) -> PublicationView {
        self@
    }
}

impl Clone for Publication {
    fn clone(&self) -> (res: Self)
        ensures
            res@ == self@,
    {
        Publication { name: self.name.clone(), language: self.language.clone() }
    }
}

impl PublicationView {
    /// `<news:publication>` with the name and the language.
    pub open spec fn xml(self) -> XmlNode {
        XmlNode::parent(
            "news:publication"@,
            Seq::empty(),
            seq![
                XmlNode::text("news:name"@, self.name),
                XmlNode::text("news:language"@, self.language),
            ],
        )
    }
}

impl Publication {
    #[must_use]
    pub fn new(name: String, language: String) -> (res: Self)
        ensures
            res@ == (PublicationView { name: name@, language: language@ }),
    {
        Self { name, language }
    }

    /// Builds the `<news:publication>` element. This never fails.
    pub fn to_xml(self) -> (res: Result<XMLElement, XMLError>)
        ensures
            res matches Ok(element) && element_tree(element) == self@.xml(),
    {
        let ghost view = self@;
        let ghost name = "news:publication"@;
        let ghost none = Seq::<(Seq<char>, Seq<char>)>::empty();
        let ghost mut children = Seq::<XmlNode>::empty();
        let mut publication: XMLElement = XMLElement::new("news:publication");
        proof {
            lemma_parent_is_parent(name, none, children);
        }

        // add <news:name>
        append_text_child(&mut publication, "news:name", self.name)?;
        proof {
            children = children + seq![XmlNode::text("news:name"@, view.name)];
            lemma_parent_is_parent(name, none, children);
        }

        // add <news:language>
        append_text_child(&mut publication, "news:language", self.language)?;
        proof {
            children = children + seq![XmlNode::text("news:language"@, view.language)];
            assert(children =~= seq![
                XmlNode::text("news:name"@, view.name),
                XmlNode::text("news:language"@, view.language),
            ]);
        }
        Ok(publication)
    }
}

/// A sitemap news.
#[derive(Debug)]
pub struct News {
    /// The publication where the article appears.
    pub publication: Publication,
    /// The date and time when the article was first published on the site.
    pub publication_date: Timestamp,
    /// The title of the news article.
    pub title: String,
}

/// What a [`News`] holds.
pub struct NewsView {
    pub publication: PublicationView,
    pub publication_date: Timestamp,
    pub title: Seq<char>,
}

impl View for News {
    type V = NewsView;

    open spec fn view(&self) -> NewsView {
        NewsView {
            publication: self.publication@,
            publication_date: self.publication_date,
            title: self.title@,
        }
    }
}

impl DeepView for News {
    type V = NewsView;

    open spec fn deep_view(&self) -> NewsView {
        self@
    }
}

impl Clone for News {
    fn clone(&self) -> (res: Self)
        ensures
            res@ == self@,
    {
        News {
            publication: self.publication.clone(),
            publication_date: self.publication_date,
            title: self.title.clone(),
        }
    }
}

impl NewsView {
    /// `<news:news>` with the publication, the publication date and the
    /// title.
    pub open spec fn xml(self) -> XmlNode {
        XmlNode::parent(
            "news:news"@,
            Seq::empty(),
            seq![
                self.publication.xml(),
                XmlNode::text("news:publication_date"@, self.publication_date.text()),
                XmlNode::text("news:title"@, self.title),
            ],
        )
    }
}

impl News {
    #[must_use]
    pub fn new(publication: Publication, publication_date: Timestamp, title: String) -> (res: Self)
        ensures
            res@ == (NewsView { publication: publication@, publication_date, title: title@ }),
    {
        Self { publication, publication_date, title }
    }

    /// Builds the `<news:news>` element. This never fails.
    pub fn to_xml(self) -> (res: Result<XMLElement, XMLError>)
        ensures
            res matches Ok(element) && element_tree(element) == self@.xml(),
    {
        let ghost view = self@;
        let ghost name = "news:news"@;
        let ghost none = Seq::<(Seq<char>, Seq<char>)>::empty();
        let ghost mut children = Seq::<XmlNode>::empty();
        let mut news: XMLElement = XMLElement::new("news:news");
        proof {
            lemma_parent_is_parent(name, none, children);
        }

        // add <news:publication>
        let publication: XMLElement = self.publication.to_xml()?;
        append_child(&mut news, publication)?;
        proof {
            children = children + seq![view.publication.xml()];
            lemma_parent_is_parent(name, none, children);
        }

        // add <news:publication_date>
        append_text_child(&mut news, "news:publication_date", self.publication_date.to_rfc3339())?;
        proof {
            children = children + seq![
                XmlNode::text("news:publication_date"@, view.publication_date.text()),
            ];
            lemma_parent_is_parent(name, none, children);
        }

        // add <news:title>
        append_text_child(&mut news, "news:title", self.title)?;
        proof {
            children = children + seq![XmlNode::text("news:title"@, view.title)];
            assert(children =~= seq![
                view.publication.xml(),
                XmlNode::text("news:publication_date"@, view.publication_date.text()),
                XmlNode::text("news:title"@, view.title),
            ]);
        }
        Ok(news)
    }
}

} // verus!
