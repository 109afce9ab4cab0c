//! The commands of the command bar.

use vstd::prelude::*;

verus! {

/// A command issued from the command bar.
#[derive(Clone, Copy, Debug, PartialEq, Eq, Structural)]
pub enum Message {
    /// Discard every curve and any click sequence in progress.
    Clear,
    /// Show or hide the list of curves.
    Sidebar,
    /// Write the curves out as a vector drawing.
    Export,
    /// Write the document out in its binary form.
    Save,
}

} // verus!
