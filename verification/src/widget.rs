//! The declarative widget tree. Attributes are not static values but
//! expressions, compiled and evaluated against the engine when the tree
//! is turned into native widgets; the construction itself is host glue
//! and stays outside the library.

use vstd::prelude::*;
use vstd::string::StringExecFns;

use crate::engine::expression::Expr;

verus! {

/// One widget declaration of the tree.
#[derive(Debug)]
pub enum WidgetDefinition {
    Box(Box),
    Grid(Grid),
    Label(Label),
    Button(Button),
}

/// A container that lays its children out along one orientation, a given
/// spacing apart. Both attributes are expressions.
#[derive(Debug)]
pub struct Box {
    pub orientation: Expr,
    pub spacing: Expr,
    pub children: Vec<WidgetDefinition>,
}

/// A grid container.
#[derive(Debug)]
pub struct Grid {
    pub orientation: Expr,
    pub children: Vec<WidgetDefinition>,
}

/// A text label.
#[derive(Debug)]
pub struct Label {
    pub content: String,
}

/// A push button.
#[derive(Debug)]
pub struct Button {
    pub content: String,
}

impl Default for Box {
    /// A vertical box with no spacing and no children.
    fn default() -> (r: Self)
        ensures
            r.orientation.js_code@ == "vertical"@,
            r.spacing.js_code@ == "0"@,
            r.children@.len() == 0,
    {
        Box {
            orientation: Expr::new(String::from_str("vertical")),
            spacing: Expr::new(String::from_str("0")),
            children: Vec::new(),
        }
    }
}

impl Default for Grid {
    /// A vertical grid with no children.
    fn default() -> (r: Self)
        ensures
            r.orientation.js_code@ == "vertical"@,
            r.children@.len() == 0,
    {
        Grid { orientation: Expr::new(String::from_str("vertical")), children: Vec::new() }
    }
}

impl Default for Button {
    /// A button with empty text.
    fn default() -> (r: Self)
        ensures
            r.content@.len() == 0,
    {
        Button { content: String::new() }
    }
}

} // verus!
