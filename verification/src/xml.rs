//! Reading a document into an element tree.

use crate::element::{Attribute, Element, ElementModel};
use crate::error::DecodeError;
use vstd::prelude::*;

verus! {

/// `instant_xml::Error`: the error of a document that cannot be read. It is
/// carried through and never looked into.
#[verifier::external_type_specification]
#[verifier::external_body]
pub struct ExXmlError(instant_xml::Error);

/// `instant_xml::AnyElement`: an element tree as `instant_xml` captures it.
/// It is handed to [`owned_tree`] and never looked into elsewhere.
#[verifier::external_type_specification]
#[verifier::external_body]
pub struct ExAnyElement<'xml>(instant_xml::AnyElement<'xml>);

/// `instant_xml::Deserializer`: the reader that `instant_xml` hands to the
/// code that decodes a field, placed at the text of that field.
#[verifier::external_type_specification]
#[verifier::external_body]
pub struct ExDeserializer<'cx, 'xml>(instant_xml::Deserializer<'cx, 'xml>);

/// `instant_xml::de::Node`: what the reader yields, one node at a time. It
/// is declared because the reader is; the library never holds one.
#[verifier::external_type_specification]
#[verifier::external_body]
pub struct ExNode<'xml>(instant_xml::de::Node<'xml>);

/// What `Deserializer::take_str` returns on a reader: the next text or
/// attribute value that the reader holds, nothing where its element has
/// come to its end, or the error that it reports.
pub uninterp spec fn next_text(reader: instant_xml::Deserializer<'_, '_>) -> Result<
    Option<Seq<char>>,
    instant_xml::Error,
>;

/// Calls `Deserializer::take_str`. The result is what [`next_text`] names
/// for the reader as it came: the text as an owned string, or the error as
/// the reader gave it.
#[verifier::external_body]
pub(crate) fn take_text(deserializer: &mut instant_xml::Deserializer<'_, '_>) -> (r: Result<
    Option<String>,
    instant_xml::Error,
>)
    ensures
        match r {
            Ok(Some(t)) => next_text(*old(deserializer)) == Ok::<_, instant_xml::Error>(
                Some(t@),
            ),
            Ok(None) => next_text(*old(deserializer)) == Ok::<_, instant_xml::Error>(
                None::<Seq<char>>,
            ),
            Err(e) => next_text(*old(deserializer)) == Err::<Option<Seq<char>>, _>(e),
        },
{
    match deserializer.take_str() {
        Ok(Some(text)) => Ok(Some(text.into_owned())),
        Ok(None) => Ok(None),
        Err(e) => Err(e),
    }
}

/// The tree that `instant_xml::from_str::<AnyElement>` captures from a
/// document: its root element with namespace, name, attributes, text and
/// children; or the error that it reports.
pub uninterp spec fn document_tree(input: Seq<char>) -> Result<ElementModel, instant_xml::Error>;

/// Copies a tree captured by `instant_xml` into an [`Element`], field by
/// field: every borrowed string becomes an owned one, nothing else changes.
#[verifier::external_body]
fn owned_tree(any: &instant_xml::AnyElement<'_>) -> Element {
    Element {
        ns: any.ns.to_string(),
        name: any.name.to_string(),
        attributes: any.attributes.iter().map(|a| Attribute {
            ns: a.ns.to_string(),
            name: a.name.to_string(),
            value: a.value.to_string(),
        }).collect(),
        text: any.text.as_ref().map(|t| t.to_string()),
        children: any.children.iter().map(owned_tree).collect(),
    }
}

/// Calls `instant_xml::from_str::<AnyElement>`. The result is the tree it
/// captured, named [`document_tree`], or the error it reported.
#[verifier::external_body]
fn capture(input: &str) -> (r: Result<Element, instant_xml::Error>)
    ensures
        match r {
            Ok(e) => document_tree(input@) == Ok::<_, instant_xml::Error>(e@),
            Err(x) => document_tree(input@) == Err::<ElementModel, _>(x),
        },
{
    match instant_xml::from_str::<instant_xml::AnyElement<'_>>(input) {
        Ok(any) => Ok(owned_tree(&any)),
        Err(e) => Err(e),
    }
}

/// Reads a document into its element tree. Where the text is no document,
/// the error of `instant_xml` is handed on as it came.
pub fn parse_document(input: &str) -> (r: Result<Element, DecodeError>)
    ensures
        match r {
            Ok(e) => document_tree(input@) == Ok::<_, instant_xml::Error>(e@),
            Err(x) => document_tree(input@) matches Err(error) && x == DecodeError::Malformed(
                error,
            ),
        },
{
    match capture(input) {
        Ok(e) => Ok(e),
        Err(error) => Err(DecodeError::Malformed(error)),
    }
}

} // verus!
