//! The export of a document's curves as a vector drawing.

use crate::bezier::{exported_attributes, Curve, Curves};
use crate::markup::{
    add_path, document_attributes, document_paths, document_text, document_to_text,
    initial_attributes, new_document, set_document_attribute,
};
use vstd::prelude::*;

verus! {

/// The attributes of an exported drawing's root element: the SVG namespace
/// and a canvas 1024 units wide and 768 high.
pub open spec fn drawing_attributes() -> Map<Seq<char>, Seq<char>> {
    initial_attributes().insert("viewBox"@, "0 0 1024 768"@)
}

/// The path elements of an exported drawing: one for each curve, in the
/// curves' order.
pub open spec fn drawing_paths(curves: Seq<Curve>) -> Seq<Map<Seq<char>, Seq<char>>> {
    curves.map_values(|c: Curve| exported_attributes(c))
}

/// The text of the drawing that the curves are exported as.
pub open spec fn drawing_text(curves: Seq<Curve>) -> Seq<char> {
    document_text(drawing_attributes(), drawing_paths(curves))
}

/// Exports the curves as the text of a vector drawing.
pub fn run(curves: &Curves) -> (text: String)
    ensures
        text@ == drawing_text(curves@),
{
    let mut document = set_document_attribute(new_document(), "viewBox", "0 0 1024 768");
    for curve in walk: curves.iter()
        invariant
            walk.seq().unref() == curves@,
            document_attributes(document) == drawing_attributes(),
            document_paths(document) == drawing_paths(curves@.take(walk.index() as int)),
    {
        let ghost done = curves@.take(walk.index() as int);
        document = add_path(document, curve.export());
        proof {
            assert(*curve == walk.seq().unref()[walk.index() as int]);
            assert(curves@.take(walk.index() + 1) == done.push(*curve));
            assert(drawing_paths(done.push(*curve)) == drawing_paths(done).push(
                exported_attributes(*curve),
            ));
        }
    }
    proof {
        assert(curves@.take(curves@.len() as int) == curves@);
    }
    document_to_text(&document)
}

/// Exporting is a function of the curves: whatever two exports of the same
/// curves give is the same text.
pub proof fn export_is_deterministic(curves: Seq<Curve>, first: Seq<char>, second: Seq<char>)
    requires
        first == drawing_text(curves),
        second == drawing_text(curves),
    ensures
        first == second,
{
}

} // verus!
