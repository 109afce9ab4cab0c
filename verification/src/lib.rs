//! Caliper lays quadratic Bézier curves over a background image: three
//! clicks on the canvas make a curve, and the curves of a document can be
//! saved in a binary form and exported as a vector drawing.
//!
//! The library holds what such a program decides. `bezier` has the points,
//! the curves, the click sequence and what a draw request shows; `session`
//! ties them to the commands of `menu`; `disk` and `export` turn a document
//! into bytes and into a drawing, with `markup` for the drawing's elements;
//! `dialog` picks the file to open from a file dialog's answer. Windows,
//! files and dialogs themselves are the caller's.

pub mod bezier;
pub mod dialog;
pub mod disk;
pub mod export;
pub mod markup;
pub mod menu;
pub mod session;
