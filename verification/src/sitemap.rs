//! The entries of a sitemap index.

use vstd::prelude::*;
use xml_builder::{XMLElement, XMLError};
use crate::timestamp::Timestamp;
use crate::xml::{
    append_optional_timestamp_child, append_text_child, element_tree, lemma_parent_is_parent,
    optional_timestamp_node, XmlNode,
};

verus! {

/// Encapsulates information about an individual Sitemap.
#[derive(Debug)]
pub struct Sitemap {
    /// Identifies the location of the Sitemap.
    ///
    /// This location can be a Sitemap, an Atom file, RSS file or a simple text file.
    pub location: String,
    /// Identifies the time that the corresponding Sitemap file was modified.
    ///
    /// It does not correspond to the time that any of the pages listed in that Sitemap were changed.
    pub last_modified: Option<Timestamp>,
}

/// What a [`Sitemap`] holds.
pub struct SitemapView {
    pub location: Seq<char>,
    pub last_modified: Option<Timestamp>,
}

impl View for Sitemap {
    type V = SitemapView;

    open spec fn view(&self) -> SitemapView {
        SitemapView { location: self.location@, last_modified: self.last_modified }
    }
}

impl DeepView for Sitemap {
    type V = SitemapView;

    open spec fn deep_view(&self) -> SitemapView {
        self@
    }
}

impl Clone for Sitemap {
    fn clone(&self) -> (res: Self)
        ensures
            res@ == self@,
    {
        Sitemap { location: self.location.clone(), last_modified: self.last_modified }
    }
}

impl SitemapView {
    /// `<sitemap>` with the location and, where there is one, the time of
    /// the last modification.
    pub open spec fn xml(self) -> XmlNode {
        XmlNode::parent(
            "sitemap"@,
            Seq::empty(),
            seq![XmlNode::text("loc"@, self.location)] + optional_timestamp_node(
                "lastmod"@,
                self.last_modified,
            ),
        )
    }
}

impl Sitemap {
    #[must_use]
    pub fn new(location: String, last_modified: Option<Timestamp>) -> (res: Self)
        ensures
            res@ == (SitemapView { location: location@, last_modified }),
    {
        Self { location, last_modified }
    }

    /// Builds the `<sitemap>` element. This never fails.
    pub fn to_xml(self) -> (res: Result<XMLElement, XMLError>)
        ensures
            res matches Ok(element) && element_tree(element) == self@.xml(),
    {
        let ghost view = self@;
        let ghost name = "sitemap"@;
        let ghost none = Seq::<(Seq<char>, Seq<char>)>::empty();
        let ghost mut children = Seq::<XmlNode>::empty();
        let mut sitemap: XMLElement = XMLElement::new("sitemap");
        proof {
            lemma_parent_is_parent(name, none, children);
        }

        // add <loc>
        append_text_child(&mut sitemap, "loc", self.location)?;
        proof {
            children = children + seq![XmlNode::text("loc"@, view.location)];
            assert(children =~= seq![XmlNode::text("loc"@, view.location)]);
            lemma_parent_is_parent(name, none, children);
        }

        // add <lastmod>, if it exists
        append_optional_timestamp_child(&mut sitemap, "lastmod", self.last_modified)?;
        Ok(sitemap)
    }
}

} // verus!
