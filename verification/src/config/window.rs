//! A top-level window declaration and the widgets it holds.

use vstd::prelude::*;

use crate::widget::WidgetDefinition;

verus! {

/// One window of the document: its title and its widget declarations.
#[derive(Debug)]
pub struct Window {
    pub name: String,
    pub widgets: Vec<WidgetDefinition>,
}

} // verus!
