//! The elements of a vector drawing, as the `svg` crate builds and prints
//! them.
//!
//! The library builds only documents whose children are path elements, and
//! only path elements without children. What is said here of an element is
//! said of those.

use vstd::prelude::*;

verus! {

/// The `svg` crate's path element. Nothing is known of one but what
/// `path_attributes` names.
#[verifier::external_type_specification]
#[verifier::external_body]
pub struct ExPath(svg::node::element::Path);

/// The `svg` crate's root element, which is its document. Nothing is known
/// of one but what `document_attributes` and `document_paths` name.
#[verifier::external_type_specification]
#[verifier::external_body]
pub struct ExSvg(svg::node::element::SVG);

/// The text that the `svg` crate prints for the single-precision number
/// with this bit pattern.
pub uninterp spec fn number_text(bits: u32) -> Seq<char>;

/// The attributes of a path element: each name with its value.
pub uninterp spec fn path_attributes(path: svg::node::element::Path) -> Map<Seq<char>, Seq<char>>;

/// The attributes of a document's root element: each name with its value.
pub uninterp spec fn document_attributes(document: svg::node::element::SVG) -> Map<
    Seq<char>,
    Seq<char>,
>;

/// The path elements of a document, first child first, each as its
/// attributes.
pub uninterp spec fn document_paths(document: svg::node::element::SVG) -> Seq<
    Map<Seq<char>, Seq<char>>,
>;

/// The text that the `svg` crate prints for a document with these
/// attributes and these path elements.
pub uninterp spec fn document_text(
    attributes: Map<Seq<char>, Seq<char>>,
    paths: Seq<Map<Seq<char>, Seq<char>>>,
) -> Seq<char>;

/// No attribute at all.
pub open spec fn no_attributes() -> Map<Seq<char>, Seq<char>> {
    Map::empty()
}

/// No path element at all.
pub open spec fn no_paths() -> Seq<Map<Seq<char>, Seq<char>>> {
    Seq::empty()
}

/// The attributes that a document has from the start.
pub open spec fn initial_attributes() -> Map<Seq<char>, Seq<char>> {
    no_attributes().insert("xmlns"@, "http://www.w3.org/2000/svg"@)
}

/// Prints one number through `String::from` on svg's `Parameters`. Trusted:
/// the text is a function of the number alone.
#[verifier::external_body]
pub(crate) fn number_to_text(bits: u32) -> (text: String)
    ensures
        text@ == number_text(bits),
{
    String::from(svg::node::element::path::Parameters::from(
        svg::node::element::path::Number::from_bits(bits),
    ))
}

/// Calls `Path::new`. Trusted: the new element has no attributes.
#[verifier::external_body]
pub(crate) fn new_path() -> (path: svg::node::element::Path)
    ensures
        path_attributes(path) == no_attributes(),
{
    svg::node::element::Path::new()
}

/// Calls `Path::set`. Trusted: the attribute of that name now has that
/// value, and the other attributes are as they were.
#[verifier::external_body]
pub(crate) fn set_path_attribute(path: svg::node::element::Path, name: &str, value: &str) -> (changed:
    svg::node::element::Path)
    ensures
        path_attributes(changed) == path_attributes(path).insert(name@, value@),
{
    path.set(name, value)
}

/// Calls `Document::new`. Trusted: the new document has no children, and
/// the one attribute that names the SVG namespace.
#[verifier::external_body]
pub(crate) fn new_document() -> (document: svg::node::element::SVG)
    ensures
        document_attributes(document) == initial_attributes(),
        document_paths(document) == no_paths(),
{
    svg::Document::new()
}

/// Calls `Document::set`. Trusted: the attribute of that name now has that
/// value; the other attributes and the children are as they were.
#[verifier::external_body]
pub(crate) fn set_document_attribute(
    document: svg::node::element::SVG,
    name: &str,
    value: &str,
) -> (changed: svg::node::element::SVG)
    ensures
        document_attributes(changed) == document_attributes(document).insert(name@, value@),
        document_paths(changed) == document_paths(document),
{
    document.set(name, value)
}

/// Calls `Document::add` with a path element. Trusted: the element is the
/// document's last child, behind the children that were there; the
/// attributes are as they were.
#[verifier::external_body]
pub(crate) fn add_path(document: svg::node::element::SVG, path: svg::node::element::Path) -> (changed:
    svg::node::element::SVG)
    ensures
        document_attributes(changed) == document_attributes(document),
        document_paths(changed) == document_paths(document).push(path_attributes(path)),
{
    document.add(path)
}

/// Calls `to_string` on a document. Trusted: the text is a function of the
/// document's attributes and of its path elements in their order (the crate
/// prints attributes sorted by name).
#[verifier::external_body]
pub(crate) fn document_to_text(document: &svg::node::element::SVG) -> (text: String)
    ensures
        text@ == document_text(document_attributes(*document), document_paths(*document)),
{
    document.to_string()
}

} // verus!
