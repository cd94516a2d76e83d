//! Images of a page.

use vstd::prelude::*;
use xml_builder::{XMLElement, XMLError};
use crate::xml::{
    append_optional_text_child, append_text_child, element_tree, lemma_parent_is_parent,
    optional_text_node, XmlNode,
};

verus! {

/// A sitemap image.
#[derive(Debug)]
pub struct Image {
    /// The URL of the image.
    ///
    /// In some cases, the image URL may not be on the same domain as your main site.
    pub location: String,
    /// The caption of the image.
    pub caption: Option<String>,
    /// The geographical location of the image, e.g. "Limerick, Ireland".
    pub geo_location: Option<String>,
    /// The title of the image.
    pub title: Option<String>,
    /// A URL to the license of the image.
    pub license: Option<String>,
}

/// What an [`Image`] holds.
pub struct ImageView {
    pub location: Seq<char>,
    pub caption: Option<Seq<char>>,
    pub geo_location: Option<Seq<char>>,
    pub title: Option<Seq<char>>,
    pub license: Option<Seq<char>>,
}

impl View for Image {
    type V = ImageView;

    open spec fn view(&self) -> ImageView {
        ImageView {
            location: self.location@,
            caption: self.caption.deep_view(),
            geo_location: self.geo_location.deep_view(),
            title: self.title.deep_view(),
            license: self.license.deep_view(),
        }
    }
}

impl DeepView for Image {
    type V = ImageView;

    open spec fn deep_view(&self) -> ImageView {
        self@
    }
}

impl Clone for Image {
    fn clone(&self) -> (res: Self)
        ensures
            res@ == self@,
    {
        Image {
            location: self.location.clone(),
            caption: self.caption.clone(),
            geo_location: self.geo_location.clone(),
            title: self.title.clone(),
            license: self.license.clone(),
        }
    }
}

impl ImageView {
    /// The children of `<image:image>`: the location, then caption,
    /// geographical location, title and license, each where it is present.
    pub open spec fn xml_children(self) -> Seq<XmlNode> {
        seq![XmlNode::text("image:loc"@, self.location)] + optional_text_node(
            "image:caption"@,
            self.caption,
        ) + optional_text_node("image:geo_location"@, self.geo_location) + optional_text_node(
            "image:title"@,
            self.title,
        ) + optional_text_node("image:license"@, self.license)
    }

    /// The `<image:image>` element.
    pub open spec fn xml(self) -> XmlNode {
        XmlNode::parent("image:image"@, Seq::empty(), self.xml_children())
    }
}

impl Image {
    /// An image at `location`, without any of the optional fields.
    #[must_use]
    pub fn new(location: String) -> (res: Self)
        ensures
            res@ == (ImageView {
                location: location@,
                caption: None,
                geo_location: None,
                title: None,
                license: None,
            }),
    {
        Self { location, caption: None, geo_location: None, title: None, license: None }
    }

    /// The image with the given caption.
    pub fn caption(self, caption: String) -> (res: Self)
        ensures
            res@ == (ImageView { caption: Some(caption@), ..self@ }),
    {
        let mut image = self;
        image.caption = Some(caption);
        image
    }

    /// The image with the given geographical location.
    pub fn geo_location(self, geo_location: String) -> (res: Self)
        ensures
            res@ == (ImageView { geo_location: Some(geo_location@), ..self@ }),
    {
        let mut image = self;
        image.geo_location = Some(geo_location);
        image
    }

    /// The image with the given title.
    pub fn title(self, title: String) -> (res: Self)
        ensures
            res@ == (ImageView { title: Some(title@), ..self@ }),
    {
        let mut image = self;
        image.title = Some(title);
        image
    }

    /// The image with the given license URL.
    pub fn license(self, license: String) -> (res: Self)
        ensures
            res@ == (ImageView { license: Some(license@), ..self@ }),
    {
        let mut image = self;
        image.license = Some(license);
        image
    }

    /// Builds the `<image:image>` element. This never fails.
    pub fn to_xml(self) -> (res: Result<XMLElement, XMLError>)
        ensures
            res matches Ok(element) && element_tree(element) == self@.xml(),
    {
        let ghost view = self@;
        let ghost name = "image:image"@;
        let ghost none = Seq::<(Seq<char>, Seq<char>)>::empty();
        let ghost mut children = Seq::<XmlNode>::empty();
        let mut image: XMLElement = XMLElement::new("image:image");
        proof {
            lemma_parent_is_parent(name, none, children);
        }

        // add <image:loc>
        append_text_child(&mut image, "image:loc", self.location)?;
        proof {
            children = children + seq![XmlNode::text("image:loc"@, view.location)];
            assert(children =~= seq![XmlNode::text("image:loc"@, view.location)]);
            lemma_parent_is_parent(name, none, children);
        }

        // add the optional elements, each where it exists
        append_optional_text_child(&mut image, "image:caption", self.caption)?;
        proof {
            children = children + optional_text_node("image:caption"@, view.caption);
            lemma_parent_is_parent(name, none, children);
        }
        append_optional_text_child(&mut image, "image:geo_location", self.geo_location)?;
        proof {
            children = children + optional_text_node("image:geo_location"@, view.geo_location);
            lemma_parent_is_parent(name, none, children);
        }
        append_optional_text_child(&mut image, "image:title", self.title)?;
        proof {
            children = children + optional_text_node("image:title"@, view.title);
            lemma_parent_is_parent(name, none, children);
        }
        append_optional_text_child(&mut image, "image:license", self.license)?;
        Ok(image)
    }
}

} // verus!
