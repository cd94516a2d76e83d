//! Sitemap index documents.

use vstd::prelude::*;
use xml_builder::{XMLBuilder, XMLElement, XMLError, XMLVersion, XML};
use crate::sitemap::{Sitemap, SitemapView};
use crate::sitemap_index_error::SitemapIndexError;
use crate::xml::{
    append_child, document_model, element_tree, escaped, generate_into, lemma_parent_is_parent,
    lemma_with_children_twice, generated_document, XmlDocument, XmlNode, XmlSettings,
};
use crate::{ENCODING, NAMESPACE};

verus! {

/// The largest number of sitemaps in one index.
pub const MAX_SITEMAPS: usize = 50_000;

/// Encapsulates information about all the Sitemaps in the file.
pub struct SitemapIndex {
    /// The XML version.
    pub xml_version: XMLVersion,
    /// The XML encoding.
    pub xml_encoding: String,
    /// The namespace for the \<sitemapindex\>.
    pub xmlns: String,
    /// All the sitemaps that will become indexed.
    pub sitemaps: Vec<Sitemap>,
}

/// What a [`SitemapIndex`] holds.
pub struct SitemapIndexView {
    pub xml_version: XMLVersion,
    pub xml_encoding: Seq<char>,
    pub xmlns: Seq<char>,
    pub sitemaps: Seq<SitemapView>,
}

impl View for SitemapIndex {
    type V = SitemapIndexView;

    open spec fn view(&self) -> SitemapIndexView {
        SitemapIndexView {
            xml_version: self.xml_version,
            xml_encoding: self.xml_encoding@,
            xmlns: self.xmlns@,
            sitemaps: self.sitemaps.deep_view(),
        }
    }
}

/// The `<sitemap>` elements of the entries, in their order.
pub open spec fn sitemap_nodes(sitemaps: Seq<SitemapView>) -> Seq<XmlNode> {
    Seq::new(sitemaps.len(), |i: int| sitemaps[i].xml())
}

impl SitemapIndexView {
    /// The index that is made of `sitemaps`, or the rule that they break.
    pub open spec fn assemble(sitemaps: Seq<SitemapView>) -> Result<
        SitemapIndexView,
        SitemapIndexError,
    > {
        if sitemaps.len() > MAX_SITEMAPS {
            Err(SitemapIndexError::TooManySitemaps(sitemaps.len() as usize))
        } else {
            Ok(
                SitemapIndexView {
                    xml_version: XMLVersion::XML1_0,
                    xml_encoding: ENCODING@,
                    xmlns: NAMESPACE@,
                    sitemaps,
                },
            )
        }
    }

    /// `<sitemapindex xmlns="..">` with one `<sitemap>` per entry.
    pub open spec fn root(self) -> XmlNode {
        XmlNode::parent(
            "sitemapindex"@,
            seq![("xmlns"@, escaped(self.xmlns))],
            sitemap_nodes(self.sitemaps),
        )
    }

    /// The document: the version and encoding of the index, written on one
    /// line, and the root element.
    pub open spec fn document(self) -> XmlDocument {
        XmlDocument {
            settings: XmlSettings::compact(self.xml_version, self.xml_encoding),
            root: Some(self.root()),
        }
    }
}

impl SitemapIndex {
    /// Makes the index of the given sitemaps.
    ///
    /// # Errors
    ///
    /// `TooManySitemaps` if there are more than 50,000 `sitemaps`.
    pub fn new(sitemaps: Vec<Sitemap>) -> (res: Result<Self, SitemapIndexError>)
        ensures
            match res {
                Ok(index) => SitemapIndexView::assemble(sitemaps.deep_view()) == Ok::<
                    SitemapIndexView,
                    SitemapIndexError,
                >(index@),
                Err(error) => SitemapIndexView::assemble(sitemaps.deep_view()) == Err::<
                    SitemapIndexView,
                    SitemapIndexError,
                >(error),
            },
    {
        // SitemapIndex cannot contain more than 50,000 sitemaps
        if sitemaps.len() > MAX_SITEMAPS {
            return Err(SitemapIndexError::TooManySitemaps(sitemaps.len()));
        }
        Ok(
            Self {
                xml_version: XMLVersion::XML1_0,
                xml_encoding: String::from_str(ENCODING),
                xmlns: String::from_str(NAMESPACE),
                sitemaps,
            },
        )
    }

    /// Builds the document. This never fails.
    pub fn to_xml(self) -> (res: Result<XML, XMLError>)
        ensures
            res matches Ok(document) && document_model(document) == self@.document(),
    {
        let ghost view = self@;
        // create XML document, written without indentation and line breaks
        let mut xml = XMLBuilder::new().version(self.xml_version).encoding(
            self.xml_encoding,
        ).indent(false).break_lines(false).build();

        // create <sitemapindex>
        let mut sitemap_index: XMLElement = XMLElement::new("sitemapindex");
        sitemap_index.add_attribute("xmlns", self.xmlns.as_str());
        let ghost start = element_tree(sitemap_index);
        proof {
            assert(start.attributes =~= seq![("xmlns"@, escaped(view.xmlns))]);
            lemma_parent_is_parent(start.name, start.attributes, Seq::empty());
            assert(sitemap_nodes(view.sitemaps.take(0)) =~= Seq::empty());
        }

        // add each <sitemap>
        let sitemaps = self.sitemaps;
        for sitemap in it: sitemaps.into_iter()
            invariant
                view.sitemaps == Seq::new(it.seq().len(), |k: int| it.seq()[k]@),
                start == XmlNode::parent(start.name, start.attributes, Seq::empty()),
                element_tree(sitemap_index) == start.with_children(
                    sitemap_nodes(view.sitemaps.take(it.index() as int)),
                ),
        {
            let ghost i = it.index();
            let ghost done = sitemap_nodes(view.sitemaps.take(i as int));
            proof {
                lemma_parent_is_parent(start.name, start.attributes, start.children() + done);
                lemma_with_children_twice(start, done, seq![view.sitemaps[i as int].xml()]);
                assert(done + seq![view.sitemaps[i as int].xml()] =~= sitemap_nodes(
                    view.sitemaps.take(i + 1),
                ));
            }
            let child: XMLElement = sitemap.to_xml()?;
            append_child(&mut sitemap_index, child)?;
        }
        proof {
            assert(view.sitemaps.take(view.sitemaps.len() as int) == view.sitemaps);
            lemma_parent_is_parent(start.name, start.attributes, Seq::empty());
            assert(start.children() + sitemap_nodes(view.sitemaps) =~= sitemap_nodes(
                view.sitemaps,
            ));
        }

        // set root element and we're done!
        xml.set_root_element(sitemap_index);
        Ok(xml)
    }

    /// Writes the document behind what `writer` holds. Building the
    /// document never fails, so the outcome is that of the XML writer on
    /// [`Self::to_xml`]'s document: success, with the bytes of the document
    /// behind what `writer` held, or its error.
    ///
    /// # Errors
    ///
    /// The error of the XML writer, exactly where it reports one; `writer`
    /// then still begins with what it held.
    pub fn write(self, writer: &mut Vec<u8>) -> (res: Result<(), XMLError>)
        ensures
            res is Ok <==> generated_document(self@.document()) is Some,
            res is Ok ==> final(writer)@ == old(writer)@ + generated_document(
                self@.document(),
            ).unwrap(),
            old(writer)@.is_prefix_of(final(writer)@),
    {
        let xml: XML = self.to_xml()?;
        generate_into(xml, writer)
    }
}

} // verus!
