//! An XML document as a list of its nodes in document order, each knowing its parent.

use vstd::prelude::*;

verus! {

/// The error of the `roxmltree` crate.
#[verifier::external_type_specification]
#[verifier::external_body]
pub struct ExXmlError(roxmltree::Error);

/// A node of an XML document: the root, an element, or text and the like.
pub struct XmlNode {
    /// The node's number within its document.
    pub id: usize,
    /// The number of the node's parent; none for the root.
    pub parent: Option<usize>,
    /// Whether the node is an element.
    pub element: bool,
    /// The local name of an element; empty for the other nodes.
    pub name: String,
    /// The attributes of an element, local name and value, in document order.
    pub attributes: Vec<(String, String)>,
}

/// A node as plain values.
pub struct XmlNodeView {
    pub id: usize,
    pub parent: Option<usize>,
    pub element: bool,
    pub name: Seq<char>,
    pub attributes: Seq<(Seq<char>, Seq<char>)>,
}

impl View for XmlNode {
    type V = XmlNodeView;

    open spec fn view(&self) -> XmlNodeView {
        XmlNodeView {
            id: self.id,
            parent: self.parent,
            element: self.element,
            name: self.name@,
            attributes: self.attributes@.map_values(|a: (String, String)| (a.0@, a.1@)),
        }
    }
}

/// The nodes as plain values.
pub open spec fn nodes_view(nodes: Seq<XmlNode>) -> Seq<XmlNodeView> {
    nodes.map_values(|n: XmlNode| n@)
}

/// The nodes of the document that `roxmltree` parses from `text` with its default
/// options, in document order; nothing where it reports an error.
pub uninterp spec fn xml_nodes(text: Seq<char>) -> Option<Seq<XmlNodeView>>;

/// Parses `text` with `roxmltree::Document::parse` and lists `Document::descendants`
/// (the root and every node below it, in document order) with each node's id, its
/// parent's id, whether it is an element, its local tag name (`tag_name().name()`,
/// empty for other nodes) and its attributes (local name and value).
/// The contract says that the outcome is a function of the text alone.
#[verifier::external_body]
pub(crate) fn parse_xml(text: &str) -> (res: Result<Vec<XmlNode>, roxmltree::Error>)
    ensures
        res is Ok <==> xml_nodes(text@) is Some,
        res matches Ok(nodes) ==> nodes_view(nodes@) == xml_nodes(text@)->0,
{
    let doc = roxmltree::Document::parse(text)?;
    let mut nodes: Vec<XmlNode> = Vec::new();
    for n in doc.descendants() {
        let mut attributes: Vec<(String, String)> = Vec::new();
        for a in n.attributes() {
            attributes.push((a.name().to_string(), a.value().to_string()));
        }
        let parent = match n.parent() {
            Some(p) => Some(p.id().get_usize()),
            None => None,
        };
        let name = n.tag_name().name().to_string();
        nodes.push(XmlNode { id: n.id().get_usize(), parent, element: n.is_element(), name, attributes });
    }
    Ok(nodes)
}

/// Whether the node is an element with local name `tag` (`has_tag_name(tag)`).
pub open spec fn has_tag(node: XmlNodeView, tag: Seq<char>) -> bool {
    node.element && node.name == tag
}

/// The value of the first attribute with local name `name`.
pub open spec fn attr_lookup(attributes: Seq<(Seq<char>, Seq<char>)>, name: Seq<char>) -> Option<
    Seq<char>,
>
    decreases attributes.len(),
{
    if attributes.len() == 0 {
        None
    } else if attributes[0].0 == name {
        Some(attributes[0].1)
    } else {
        attr_lookup(attributes.drop_first(), name)
    }
}

/// `node.attribute(name)`.
pub open spec fn attribute(node: XmlNodeView, name: Seq<char>) -> Option<Seq<char>> {
    attr_lookup(node.attributes, name)
}

/// `node.attribute(name).unwrap_or(default)`.
pub open spec fn attribute_or(node: XmlNodeView, name: Seq<char>, default: Seq<char>) -> Seq<char> {
    match attribute(node, name) {
        Some(v) => v,
        None => default,
    }
}

/// Whether the node is an element with local name `tag`.
pub fn node_has_tag(node: &XmlNode, tag: &String) -> (res: bool)
    ensures
        res == has_tag(node@, tag@),
{
    node.element && node.name == *tag
}

/// `node.attribute(name)`.
pub fn node_attribute<'a>(node: &'a XmlNode, name: &String) -> (res: Option<&'a String>)
    ensures
        res is Some <==> attribute(node@, name@) is Some,
        res matches Some(v) ==> v@ == attribute(node@, name@)->0,
{
    let ghost attrs = node@.attributes;
    let n = node.attributes.len();
    let mut i: usize = 0;
    assert(attrs.skip(0) =~= attrs);
    while i < n
        invariant
            n == node.attributes@.len(),
            attrs == node@.attributes,
            i <= n,
            attr_lookup(attrs, name@) == attr_lookup(attrs.skip(i as int), name@),
        decreases n - i,
    {
        assert(attrs.skip(i as int)[0] == attrs[i as int]);
        assert(attrs.skip(i as int).drop_first() =~= attrs.skip(i + 1));
        if node.attributes[i].0 == *name {
            return Some(&node.attributes[i].1);
        }
        i = i + 1;
    }
    None
}

/// `node.attribute(name).unwrap_or(default)`.
pub fn node_attribute_or(node: &XmlNode, name: &String, default: &str) -> (res: String)
    ensures
        res@ == attribute_or(node@, name@, default@),
{
    match node_attribute(node, name) {
        Some(v) => v.clone(),
        None => String::from_str(default),
    }
}

} // verus!
