//! The root of a markup document: the windows it declares. Reading the
//! document from disk and deserializing it is host glue and stays outside
//! the library; this is the shape the host fills in.

use vstd::prelude::*;

pub mod window;

verus! {

/// A whole configuration document.
#[derive(Debug)]
pub struct Config {
    pub windows: Vec<window::Window>,
}

} // verus!
