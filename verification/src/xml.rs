//! The XML side of the library: a mathematical model of element trees and
//! documents, and the contracts under which `xml_builder` is used to build
//! and render them.
//!
//! Nothing in this module is proved about `xml_builder` itself. Each
//! `assume_specification` and the one wrapper state what its source shows;
//! the functions at the end of the module are verified against them.

use vstd::prelude::*;
use xml_builder::{XMLBuilder, XMLElement, XMLError, XMLVersion, XML};
use crate::decimal::Decimal;
use crate::text::{decimal_digits, decimal_string};
use crate::timestamp::Timestamp;

verus! {

/// `xml_builder::XMLElement`, an element under construction. Its state is
/// spoken of through [`element_tree`].
#[verifier::external_type_specification]
#[verifier::external_body]
pub struct ExXMLElement(XMLElement);

/// `xml_builder::XML`, a document under construction. Its state is spoken of
/// through [`document_model`].
#[verifier::external_type_specification]
#[verifier::external_body]
pub struct ExXML(XML);

/// `xml_builder::XMLBuilder`, the settings of a document before it is built.
/// Its state is spoken of through [`builder_settings`].
#[verifier::external_type_specification]
#[verifier::external_body]
pub struct ExXMLBuilder(XMLBuilder);

/// `xml_builder::XMLError`, carried through unread.
#[verifier::external_type_specification]
#[verifier::external_body]
pub struct ExXMLError(XMLError);

/// `xml_builder::XMLVersion`, an enum of two unit variants.
#[verifier::external_type_specification]
pub struct ExXMLVersion(XMLVersion);

/// What an element holds between its tags.
pub enum XmlContent {
    /// Nothing: the element is written as an empty tag.
    Empty,
    /// Character data, written as given.
    Text(Seq<char>),
    /// Child elements in document order; never an empty sequence.
    Elements(Seq<XmlNode>),
}

/// An element tree.
pub struct XmlNode {
    /// The tag name.
    pub name: Seq<char>,
    /// The attributes as name and stored value, in the order of insertion.
    pub attributes: Seq<(Seq<char>, Seq<char>)>,
    /// The element's own choice on sorting its attributes when written;
    /// `None` leaves the choice to the document.
    pub sort_attributes: Option<bool>,
    /// What stands between the tags.
    pub content: XmlContent,
}

/// The settings that decide how a document is written.
pub struct XmlSettings {
    pub version: XMLVersion,
    pub encoding: Seq<char>,
    pub standalone: Option<bool>,
    pub indent: bool,
    pub sort_attributes: bool,
    pub break_lines: bool,
    pub expand_empty_tags: bool,
}

/// A document: its settings and its root element, if one was set.
pub struct XmlDocument {
    pub settings: XmlSettings,
    pub root: Option<XmlNode>,
}

/// The text that stands for one character of an attribute value.
pub open spec fn escaped_char(c: char) -> Seq<char> {
    if c == '&' {
        "&amp;"@
    } else if c == '"' {
        "&quot;"@
    } else if c == '\'' {
        "&apos;"@
    } else if c == '<' {
        "&lt;"@
    } else if c == '>' {
        "&gt;"@
    } else {
        seq![c]
    }
}

/// An attribute value with the five markup characters replaced by their
/// entities.
pub open spec fn escaped(value: Seq<char>) -> Seq<char>
    decreases value.len(),
{
    if value.len() == 0 {
        Seq::empty()
    } else {
        escaped(value.drop_last()) + escaped_char(value.last())
    }
}

impl XmlNode {
    /// A fresh element: no attributes, no content.
    pub open spec fn empty(name: Seq<char>) -> XmlNode {
        XmlNode {
            name,
            attributes: Seq::empty(),
            sort_attributes: None,
            content: XmlContent::Empty,
        }
    }

    /// An element without attributes that holds `text`.
    pub open spec fn text(name: Seq<char>, text: Seq<char>) -> XmlNode {
        XmlNode { content: XmlContent::Text(text), ..XmlNode::empty(name) }
    }

    /// An element with the given attributes (values as stored) and children.
    pub open spec fn parent(
        name: Seq<char>,
        attributes: Seq<(Seq<char>, Seq<char>)>,
        children: Seq<XmlNode>,
    ) -> XmlNode {
        XmlNode {
            name,
            attributes,
            sort_attributes: None,
            content: if children.len() == 0 {
                XmlContent::Empty
            } else {
                XmlContent::Elements(children)
            },
        }
    }

    /// The children of the element, none where it is empty or holds text.
    pub open spec fn children(self) -> Seq<XmlNode> {
        match self.content {
            XmlContent::Elements(children) => children,
            _ => Seq::empty(),
        }
    }

    /// The element after `name="value"` was added as its last attribute.
    pub open spec fn with_attribute(self, name: Seq<char>, value: Seq<char>) -> XmlNode {
        XmlNode { attributes: self.attributes.push((name, escaped(value))), ..self }
    }

    /// The element after `child` was added as its last child.
    pub open spec fn with_child(self, child: XmlNode) -> XmlNode {
        XmlNode { content: XmlContent::Elements(self.children().push(child)), ..self }
    }

    /// Whether the element can take children: it holds no text and keeps
    /// the document's choice on attribute sorting.
    pub open spec fn is_parent(self) -> bool {
        self == XmlNode::parent(self.name, self.attributes, self.children())
    }

    /// The element after `more` were added, in order, behind its children.
    pub open spec fn with_children(self, more: Seq<XmlNode>) -> XmlNode {
        XmlNode::parent(self.name, self.attributes, self.children() + more)
    }
}

/// An element built by `parent` can take children, and has the children it
/// was built with.
pub proof fn lemma_parent_is_parent(
    name: Seq<char>,
    attributes: Seq<(Seq<char>, Seq<char>)>,
    children: Seq<XmlNode>,
)
    ensures
        XmlNode::parent(name, attributes, children).is_parent(),
        XmlNode::parent(name, attributes, children).children() == children,
        XmlNode::parent(name, attributes, children).with_children(Seq::empty()) == XmlNode::parent(
            name,
            attributes,
            children,
        ),
{
    let node = XmlNode::parent(name, attributes, children);
    assert(node.children() =~= children);
    assert(node.children() + Seq::<XmlNode>::empty() =~= children);
}

/// Adding children in two steps is adding them all at once.
pub proof fn lemma_with_children_twice(node: XmlNode, first: Seq<XmlNode>, second: Seq<XmlNode>)
    ensures
        node.with_children(first).with_children(second) == node.with_children(first + second),
{
    lemma_parent_is_parent(node.name, node.attributes, node.children() + first);
    assert((node.children() + first) + second =~= node.children() + (first + second));
}

/// Adding one child to an element that can take children.
pub proof fn lemma_with_child(node: XmlNode, child: XmlNode)
    requires
        node.is_parent(),
    ensures
        node.with_child(child) == node.with_children(seq![child]),
{
    assert(node.children().push(child) =~= node.children() + seq![child]);
}

impl XmlSettings {
    /// The settings under which a document is written on one line: the
    /// given version and encoding, neither indentation nor line breaks, and
    /// for the rest the settings of a new builder.
    pub open spec fn compact(version: XMLVersion, encoding: Seq<char>) -> XmlSettings {
        XmlSettings {
            version,
            encoding,
            indent: false,
            break_lines: false,
            ..XmlSettings::initial()
        }
    }

    /// The settings of a new builder.
    pub open spec fn initial() -> XmlSettings {
        XmlSettings {
            version: XMLVersion::XML1_0,
            encoding: "UTF-8"@,
            standalone: None,
            indent: true,
            sort_attributes: false,
            break_lines: true,
            expand_empty_tags: false,
        }
    }
}

/// The tree that an `XMLElement` holds.
pub uninterp spec fn element_tree(element: XMLElement) -> XmlNode;

/// The settings that an `XMLBuilder` holds.
pub uninterp spec fn builder_settings(builder: XMLBuilder) -> XmlSettings;

/// The settings and root that an `XML` holds.
pub uninterp spec fn document_model(document: XML) -> XmlDocument;

/// What `XML::generate` does with a document when it writes into a byte
/// vector: the bytes that it appends (the XML declaration, then the root
/// element with its subtree, laid out as the settings ask), or `None` where
/// it reports an error. Writing into a vector depends on nothing but the
/// bytes written, so the outcome is a function of the document.
pub uninterp spec fn generated_document(document: XmlDocument) -> Option<Seq<u8>>;

/// `XMLElement::new` stores the name and leaves attributes, sorting choice
/// and content empty.
pub assume_specification[ XMLElement::new ](name: &str) -> (element: XMLElement)
    ensures
        element_tree(element) == XmlNode::empty(name@),
;

/// `XMLElement::add_attribute` appends the pair to the attribute list, the
/// value with `&`, `"`, `'`, `<` and `>` replaced by their entities. It
/// replaces them one kind after another, `&` first; as no entity holds a
/// character that a later step replaces, this is the same as replacing each
/// character on its own.
pub assume_specification[ XMLElement::add_attribute ](
    this: &mut XMLElement,
    name: &str,
    value: &str,
)
    ensures
        element_tree(*final(this)) == element_tree(*old(this)).with_attribute(name@, value@),
;

/// `XMLElement::add_child` refuses an element that holds text and leaves it
/// as it was; otherwise the child becomes the last child.
pub assume_specification[ XMLElement::add_child ](
    this: &mut XMLElement,
    element: XMLElement,
) -> (res: Result<(), XMLError>)
    ensures
        res is Err <==> element_tree(*old(this)).content is Text,
        res is Ok ==> element_tree(*final(this)) == element_tree(*old(this)).with_child(
            element_tree(element),
        ),
        res is Err ==> element_tree(*final(this)) == element_tree(*old(this)),
;

/// `XMLElement::add_text` accepts text only on an element without content,
/// and stores it unchanged; any other element is left as it was.
pub assume_specification[ XMLElement::add_text ](this: &mut XMLElement, text: String) -> (res:
    Result<(), XMLError>)
    ensures
        res is Ok <==> element_tree(*old(this)).content is Empty,
        res is Ok ==> element_tree(*final(this)) == (XmlNode {
            content: XmlContent::Text(text@),
            ..element_tree(*old(this))
        }),
        res is Err ==> element_tree(*final(this)) == element_tree(*old(this)),
;

/// `XMLBuilder::new` starts from the defaults: version 1.0, encoding UTF-8,
/// no standalone attribute, indentation and line breaks on, attribute
/// sorting and empty-tag expansion off.
pub assume_specification[ XMLBuilder::new ]() -> (builder: XMLBuilder)
    ensures
        builder_settings(builder) == XmlSettings::initial(),
;

/// `XMLBuilder::version` replaces the version and nothing else.
pub assume_specification[ XMLBuilder::version ](this: XMLBuilder, version: XMLVersion) -> (res:
    XMLBuilder)
    ensures
        builder_settings(res) == (XmlSettings { version, ..builder_settings(this) }),
;

/// `XMLBuilder::encoding` replaces the encoding and nothing else.
pub assume_specification[ XMLBuilder::encoding ](this: XMLBuilder, encoding: String) -> (res:
    XMLBuilder)
    ensures
        builder_settings(res) == (XmlSettings { encoding: encoding@, ..builder_settings(this) }),
;

/// `XMLBuilder::indent` replaces the choice on indentation and nothing else.
pub assume_specification[ XMLBuilder::indent ](this: XMLBuilder, indent: bool) -> (res: XMLBuilder)
    ensures
        builder_settings(res) == (XmlSettings { indent, ..builder_settings(this) }),
;

/// `XMLBuilder::break_lines` replaces the choice on line breaks and nothing
/// else.
pub assume_specification[ XMLBuilder::break_lines ](this: XMLBuilder, break_lines: bool) -> (res:
    XMLBuilder)
    ensures
        builder_settings(res) == (XmlSettings { break_lines, ..builder_settings(this) }),
;

/// `XMLBuilder::build` hands its settings to a document without a root.
pub assume_specification[ XMLBuilder::build ](this: XMLBuilder) -> (document: XML)
    ensures
        document_model(document) == (XmlDocument { settings: builder_settings(this), root: None }),
;

/// `XML::set_root_element` replaces the root and nothing else.
pub assume_specification[ XML::set_root_element ](this: &mut XML, element: XMLElement)
    ensures
        document_model(*final(this)) == (XmlDocument {
            root: Some(element_tree(element)),
            ..document_model(*old(this))
        }),
;

/// `XML::generate` on a byte vector. Its outcome is the one that
/// [`generated_document`] names: where it reports success, the bytes of the
/// document were appended to the vector. It does nothing to the vector but
/// write to it, and a vector takes what is written behind what it holds, so
/// also after a failure the vector begins with what it held.
#[verifier::external_body]
pub(crate) fn generate_into(document: XML, sink: &mut Vec<u8>) -> (res: Result<(), XMLError>)
    ensures
        res is Ok <==> generated_document(document_model(document)) is Some,
        res is Ok ==> final(sink)@ == old(sink)@ + generated_document(
            document_model(document),
        ).unwrap(),
        old(sink)@.is_prefix_of(final(sink)@),
{
    document.generate(sink)
}

/// One text element per entry of `texts`, all named `name`, in order.
pub open spec fn text_nodes(name: Seq<char>, texts: Seq<Seq<char>>) -> Seq<XmlNode> {
    Seq::new(texts.len(), |i: int| XmlNode::text(name, texts[i]))
}

/// The text element for a value that may be absent.
pub open spec fn optional_text_node(name: Seq<char>, text: Option<Seq<char>>) -> Seq<XmlNode> {
    match text {
        Some(text) => seq![XmlNode::text(name, text)],
        None => Seq::empty(),
    }
}

/// The attribute for a value that may be absent, the value as stored.
pub open spec fn optional_attribute(name: Seq<char>, value: Option<Seq<char>>) -> Seq<
    (Seq<char>, Seq<char>),
> {
    match value {
        Some(value) => seq![(name, escaped(value))],
        None => Seq::empty(),
    }
}

/// The element for a value that may be absent.
pub open spec fn optional_node(node: Option<XmlNode>) -> Seq<XmlNode> {
    match node {
        Some(node) => seq![node],
        None => Seq::empty(),
    }
}

/// The text element for a number that may be absent.
pub open spec fn optional_number_node(name: Seq<char>, value: Option<nat>) -> Seq<XmlNode> {
    match value {
        Some(value) => seq![XmlNode::text(name, decimal_digits(value))],
        None => Seq::empty(),
    }
}

/// The text element for a decimal number that may be absent.
pub open spec fn optional_decimal_node(name: Seq<char>, value: Option<Decimal>) -> Seq<XmlNode> {
    match value {
        Some(value) => seq![XmlNode::text(name, value.text())],
        None => Seq::empty(),
    }
}

/// The text element for a timestamp that may be absent.
pub open spec fn optional_timestamp_node(name: Seq<char>, value: Option<Timestamp>) -> Seq<
    XmlNode,
> {
    match value {
        Some(value) => seq![XmlNode::text(name, value.text())],
        None => Seq::empty(),
    }
}

/// The text element for a flag that may be absent.
pub open spec fn optional_flag_node(name: Seq<char>, value: Option<bool>) -> Seq<XmlNode> {
    match value {
        Some(value) => seq![XmlNode::text(name, flag_text(value))],
        None => Seq::empty(),
    }
}

/// The text of a flag: `yes` or `no`.
pub open spec fn flag_text(flag: bool) -> Seq<char> {
    if flag {
        "yes"@
    } else {
        "no"@
    }
}

/// Writes a flag as `yes` or `no`.
pub fn flag_str(flag: bool) -> (s: &'static str)
    ensures
        s@ == flag_text(flag),
{
    if flag {
        "yes"
    } else {
        "no"
    }
}

/// Adds `name="value"` as the last attribute of `element` where there is a
/// value, and nothing where there is none.
pub(crate) fn add_optional_attribute(element: &mut XMLElement, name: &str, value: Option<String>)
    ensures
        element_tree(*final(element)) == (XmlNode {
            attributes: element_tree(*old(element)).attributes + optional_attribute(
                name@,
                value.deep_view(),
            ),
            ..element_tree(*old(element))
        }),
{
    let ghost before = element_tree(*element);
    match value {
        Some(value) => {
            element.add_attribute(name, value.as_str());
            proof {
                assert(before.attributes.push((name@, escaped(value@))) =~= before.attributes
                    + optional_attribute(name@, Some(value@)));
            }
        },
        None => {
            proof {
                assert(before.attributes =~= before.attributes + optional_attribute(name@, None));
            }
        },
    }
}

/// Adds `child` as the last child of `parent`.
pub(crate) fn append_child(parent: &mut XMLElement, child: XMLElement) -> (res: Result<(), XMLError>)
    requires
        element_tree(*old(parent)).is_parent(),
    ensures
        res is Ok,
        element_tree(*final(parent)) == element_tree(*old(parent)).with_children(
            seq![element_tree(child)],
        ),
{
    proof {
        lemma_with_child(element_tree(*parent), element_tree(child));
    }
    parent.add_child(child)
}

/// Adds `<name>text</name>` as the last child of `parent`.
pub(crate) fn append_text_child(parent: &mut XMLElement, name: &str, text: String) -> (res: Result<
    (),
    XMLError,
>)
    requires
        element_tree(*old(parent)).is_parent(),
    ensures
        res is Ok,
        element_tree(*final(parent)) == element_tree(*old(parent)).with_children(
            seq![XmlNode::text(name@, text@)],
        ),
{
    let mut child: XMLElement = XMLElement::new(name);
    child.add_text(text)?;
    append_child(parent, child)
}

/// Adds `<name>text</name>` as the last child of `parent` where there is a
/// text, and nothing where there is none.
pub(crate) fn append_optional_text_child(parent: &mut XMLElement, name: &str, text: Option<String>) -> (res:
    Result<(), XMLError>)
    requires
        element_tree(*old(parent)).is_parent(),
    ensures
        res is Ok,
        element_tree(*final(parent)) == element_tree(*old(parent)).with_children(
            optional_text_node(name@, text.deep_view()),
        ),
{
    proof {
        let node = element_tree(*parent);
        lemma_parent_is_parent(node.name, node.attributes, node.children());
    }
    match text {
        Some(text) => append_text_child(parent, name, text),
        None => Ok(()),
    }
}

/// Adds `<name>n</name>` for the number `n`, where there is one.
pub(crate) fn append_optional_number_child(parent: &mut XMLElement, name: &str, value: Option<u64>) -> (res:
    Result<(), XMLError>)
    requires
        element_tree(*old(parent)).is_parent(),
    ensures
        res is Ok,
        element_tree(*final(parent)) == element_tree(*old(parent)).with_children(
            optional_number_node(
                name@,
                match value {
                    Some(value) => Some(value as nat),
                    None => None,
                },
            ),
        ),
{
    let text = match value {
        Some(value) => Some(decimal_string(value as u128)),
        None => None,
    };
    proof {
        assert(optional_text_node(name@, text.deep_view()) =~= optional_number_node(
            name@,
            match value {
                Some(value) => Some(value as nat),
                None => None,
            },
        ));
    }
    append_optional_text_child(parent, name, text)
}

/// Adds `<name>d</name>` for the decimal number `d`, where there is one.
pub(crate) fn append_optional_decimal_child(
    parent: &mut XMLElement,
    name: &str,
    value: Option<Decimal>,
) -> (res: Result<(), XMLError>)
    requires
        element_tree(*old(parent)).is_parent(),
    ensures
        res is Ok,
        element_tree(*final(parent)) == element_tree(*old(parent)).with_children(
            optional_decimal_node(name@, value),
        ),
{
    let text = match value {
        Some(value) => Some(value.to_text()),
        None => None,
    };
    proof {
        assert(optional_text_node(name@, text.deep_view()) =~= optional_decimal_node(
            name@,
            value,
        ));
    }
    append_optional_text_child(parent, name, text)
}

/// Adds `<name>t</name>` for the timestamp `t`, where there is one.
pub(crate) fn append_optional_timestamp_child(
    parent: &mut XMLElement,
    name: &str,
    value: Option<Timestamp>,
) -> (res: Result<(), XMLError>)
    requires
        element_tree(*old(parent)).is_parent(),
    ensures
        res is Ok,
        element_tree(*final(parent)) == element_tree(*old(parent)).with_children(
            optional_timestamp_node(name@, value),
        ),
{
    let text = match value {
        Some(value) => Some(value.to_rfc3339()),
        None => None,
    };
    proof {
        assert(optional_text_node(name@, text.deep_view()) =~= optional_timestamp_node(
            name@,
            value,
        ));
    }
    append_optional_text_child(parent, name, text)
}

/// Adds `<name>yes</name>` or `<name>no</name>` for a flag, where there is one.
pub(crate) fn append_optional_flag_child(parent: &mut XMLElement, name: &str, value: Option<bool>) -> (res:
    Result<(), XMLError>)
    requires
        element_tree(*old(parent)).is_parent(),
    ensures
        res is Ok,
        element_tree(*final(parent)) == element_tree(*old(parent)).with_children(
            optional_flag_node(name@, value),
        ),
{
    let text = match value {
        Some(value) => Some(String::from_str(flag_str(value))),
        None => None,
    };
    proof {
        assert(optional_text_node(name@, text.deep_view()) =~= optional_flag_node(name@, value));
    }
    append_optional_text_child(parent, name, text)
}

/// Adds `child` as the last child of `parent` where there is one, and
/// nothing where there is none.
pub(crate) fn append_optional_child(parent: &mut XMLElement, child: Option<XMLElement>) -> (res: Result<
    (),
    XMLError,
>)
    requires
        element_tree(*old(parent)).is_parent(),
    ensures
        res is Ok,
        element_tree(*final(parent)) == element_tree(*old(parent)).with_children(
            optional_node(
                match child {
                    Some(child) => Some(element_tree(child)),
                    None => None,
                },
            ),
        ),
{
    proof {
        let node = element_tree(*parent);
        lemma_parent_is_parent(node.name, node.attributes, node.children());
    }
    match child {
        Some(child) => append_child(parent, child),
        None => Ok(()),
    }
}

/// Adds one `<name>text</name>` per entry of `texts`, in order, behind the
/// children of `parent`.
pub(crate) fn append_text_children(parent: &mut XMLElement, name: &str, texts: Vec<String>) -> (res: Result<
    (),
    XMLError,
>)
    requires
        element_tree(*old(parent)).is_parent(),
    ensures
        res is Ok,
        element_tree(*final(parent)) == element_tree(*old(parent)).with_children(
            text_nodes(name@, texts.deep_view()),
        ),
{
    let ghost start = element_tree(*parent);
    let ghost all = texts.deep_view();
    proof {
        lemma_parent_is_parent(start.name, start.attributes, start.children());
        assert(text_nodes(name@, all.take(0)) =~= Seq::empty());
    }
    for text in it: texts.into_iter()
        invariant
            all == Seq::new(it.seq().len(), |k: int| it.seq()[k]@),
            start.is_parent(),
            element_tree(*parent) == start.with_children(
                text_nodes(name@, all.take(it.index() as int)),
            ),
    {
        let ghost i = it.index();
        let ghost done = text_nodes(name@, all.take(i as int));
        proof {
            lemma_parent_is_parent(start.name, start.attributes, start.children() + done);
            lemma_with_children_twice(start, done, seq![XmlNode::text(name@, all[i as int])]);
            assert(done + seq![XmlNode::text(name@, all[i as int])] =~= text_nodes(
                name@,
                all.take(i + 1),
            ));
        }
        append_text_child(parent, name, text)?;
    }
    proof {
        assert(all.take(all.len() as int) == all);
    }
    Ok(())
}

} // verus!
