//! A flat model of a parsed XML document, and the parser behind it.
//!
//! The nodes of a document are held in document order. Each node records how
//! many nodes its subtree spans, itself included, so the subtree of the node
//! at index `i` is the run of `extent` nodes that starts at `i`.

use vstd::prelude::*;

use crate::metadata::text::opt_text;

verus! {

/// One attribute of an element.
#[derive(Debug, PartialEq, Eq)]
pub struct XmlAttribute {
    /// URI of the attribute's namespace, if it has one.
    pub namespace: Option<String>,
    /// Local name, without prefix.
    pub name: String,
    pub value: String,
}

/// One node of a document: an element, or a text, comment or processing
/// instruction node.
#[derive(Debug, PartialEq, Eq)]
pub struct XmlNode {
    /// Local tag name of an element; empty for every other kind of node.
    pub name: String,
    /// For an element, the text of its first child when that child is a text
    /// node; for a text or comment node, its own text.
    pub text: Option<String>,
    /// The attributes of an element, in the order in which they were written.
    pub attributes: Vec<XmlAttribute>,
    /// Number of nodes in the subtree rooted here, this node included.
    pub extent: usize,
}

pub struct AttributeView {
    pub namespace: Option<Seq<char>>,
    pub name: Seq<char>,
    pub value: Seq<char>,
}

pub struct NodeView {
    pub name: Seq<char>,
    pub text: Option<Seq<char>>,
    pub attributes: Seq<AttributeView>,
    pub extent: nat,
}

impl View for XmlAttribute {
    type V = AttributeView;

    open spec fn view(&self) -> AttributeView {
        AttributeView { namespace: opt_text(self.namespace), name: self.name@, value: self.value@ }
    }
}

impl View for XmlNode {
    type V = NodeView;

    open spec fn view(&self) -> NodeView {
        NodeView {
            name: self.name@,
            text: opt_text(self.text),
            attributes: self.attributes@.map_values(|a: XmlAttribute| a@),
            extent: self.extent as nat,
        }
    }
}

/// The model of a sequence of nodes.
pub open spec fn nodes_view(nodes: Seq<XmlNode>) -> Seq<NodeView> {
    nodes.map_values(|n: XmlNode| n@)
}

/// `roxmltree::Error`, the reason why a text is no well-formed document. It
/// is carried through unread.
#[verifier::external_type_specification]
#[verifier::external_body]
pub struct ExXmlError(roxmltree::Error);

/// The root element of a well-formed document and its descendants, in
/// document order; `None` for text that is not a well-formed document.
pub uninterp spec fn xml_tree(document: Seq<char>) -> Option<Seq<NodeView>>;

/// Parses a document with `roxmltree::Document::parse` and copies the root
/// element and its descendants out of it, as `root_element().descendants()`
/// yields them. Each node is copied field by field: `tag_name().name()`,
/// `text()`, `attributes()` with `namespace()`, `name()` and `value()`, and the
/// length of the node's own `descendants()`.
///
/// Trusted: that the outcome depends on the text alone.
#[verifier::external_body]
pub(crate) fn parse_xml(document: &str) -> (r: Result<Vec<XmlNode>, roxmltree::Error>)
    ensures
        match r {
            Ok(nodes) => xml_tree(document@) == Some(nodes_view(nodes@)),
            Err(_) => xml_tree(document@).is_none(),
        },
{
    let doc = roxmltree::Document::parse(document)?;
    Ok(doc.root_element().descendants().map(|n| XmlNode {
        name: n.tag_name().name().to_owned(),
        text: n.text().map(|t| t.to_owned()),
        attributes: n.attributes().map(|a| XmlAttribute {
            namespace: a.namespace().map(|u| u.to_owned()),
            name: a.name().to_owned(),
            value: a.value().to_owned(),
        }).collect(),
        extent: n.descendants().len(),
    }).collect())
}

} // verus!
