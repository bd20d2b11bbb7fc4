//! XML text in and out, by xmltree. Everything here is believed, not proved:
//! each item says what it takes from xmltree.

use vstd::prelude::*;
use crate::rpser::attributes::Attributes;
use crate::rpser::xml;
use crate::rpser::xml::Tree;

verus! {

/// xmltree's element, as it parses and writes it; its inside is not looked
/// at by verified code.
#[verifier::external_type_specification]
#[verifier::external_body]
pub struct ExDocument(xmltree::Element);

/// Why xmltree could not read a text.
#[verifier::external_type_specification]
#[verifier::external_body]
pub struct ExParseError(xmltree::ParseError);

/// What an xmltree element holds in its fields `name`, `attributes`,
/// `children` and `text`; its namespace fields are left aside.
pub uninterp spec fn document_tree(document: xmltree::Element) -> Tree;

/// Whether an xmltree element, and every element below it, has none of its
/// namespace fields set.
pub uninterp spec fn without_namespace(document: xmltree::Element) -> bool;

/// The tree that xmltree reads from a text, or `None` where it reads none.
pub uninterp spec fn parsed_xml(text: Seq<char>) -> Option<Tree>;

/// The texts that xmltree can write, as a document, for an element without
/// namespace that holds `tree`. xmltree keeps the attributes of an element in
/// a hash map and writes them as the map hands them out, so there is one
/// text for each order in which the attributes of the elements can follow
/// each other.
pub uninterp spec fn xml_texts(tree: Tree) -> Set<Seq<char>>;

/// The line that opens every document xmltree writes.
pub open spec fn xml_declaration() -> Seq<char> {
    "<?xml version=\"1.0\" encoding=\"UTF-8\"?>"@
}

/// Whether `text` is an XML document that xmltree writes for `tree`, with
/// the attributes of each element in some order. It opens with the XML
/// declaration.
pub open spec fn is_xml_of(text: Seq<char>, tree: Tree) -> bool {
    xml_texts(tree).contains(text) && xml_declaration().is_prefix_of(text)
}

/// `xmltree::Element::parse` on the bytes of a text: what it reads is a
/// function of the text alone, and an error comes exactly where it reads no
/// tree.
#[verifier::external_body]
pub(crate) fn parse_document(xml: &str) -> (r: Result<xmltree::Element, xmltree::ParseError>)
    ensures
        match parsed_xml(xml@) {
            Some(tree) => r matches Ok(document) && document_tree(document) == tree,
            None => r is Err,
        },
{
    xmltree::Element::parse(xml.as_bytes())
}

/// Moves the four fields of an xmltree element, and of every element below
/// it, into an `XmlElement`.
#[verifier::external_body]
pub(crate) fn element_of(document: xmltree::Element) -> (r: xml::XmlElement)
    ensures
        r@ == document_tree(document),
{
    xml::XmlElement {
        name: document.name,
        attributes: Attributes { entries: document.attributes.into_iter().collect() },
        children: document.children.into_iter().map(element_of).collect(),
        text: document.text,
    }
}

/// Builds the xmltree element that holds the same four fields as `element`,
/// all the way down, with no namespace set.
#[verifier::external_body]
pub(crate) fn document_of(element: &xml::XmlElement) -> (document: xmltree::Element)
    ensures
        document_tree(document) == element@,
        without_namespace(document),
{
    xmltree::Element {
        prefix: None,
        namespace: None,
        namespaces: None,
        name: element.name.clone(),
        attributes: element.attributes.entries.iter().cloned().collect(),
        children: element.children.iter().map(document_of).collect(),
        text: element.text.clone(),
    }
}

/// `xmltree::Element::write` into memory, read back as text. xmltree writes
/// the name, the attributes in the order in which its hash map hands them
/// out, the text, the children and the closing name: the text depends on
/// what the element holds and on that order, and on nothing else. It writes
/// the XML declaration first, whatever the element holds. Writing into
/// memory does not fail.
#[verifier::external_body]
pub(crate) fn write_document(document: &xmltree::Element) -> (r: String)
    requires
        without_namespace(*document),
    ensures
        xml_texts(document_tree(*document)).contains(r@),
        xml_declaration().is_prefix_of(r@),
{
    let mut bytes = Vec::new();
    let _ = document.write(&mut bytes);
    String::from_utf8_lossy(&bytes).into_owned()
}

} // verus!
