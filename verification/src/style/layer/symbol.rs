//! Symbol layer types.
use vstd::prelude::*;

verus! {

broadcast use vstd::string::group_string_axioms;

/// The font stack a symbol layer uses when its layout names none.
pub fn default_font() -> (fonts: Vec<String>)
    ensures
        fonts@.len() == 2,
        fonts@[0]@ == "Open Sans Regular"@,
        fonts@[1]@ == "Arial Unicode MS Regular"@,
{
    let mut fonts: Vec<String> = Vec::new();
    fonts.push("Open Sans Regular".to_string());
    fonts.push("Arial Unicode MS Regular".to_string());
    fonts
}

/// Rule for placing a a text or symbol label.
#[derive(Debug, Clone, Copy, PartialEq, Eq, Structural)]
pub enum SymbolPlacement {
    /// At position of a point geometry.
    Point,
    /// Along a line.
    Line,
    /// At a center point of line or polygon geometry.
    LineCenter,
}

/// An expression given as a `text-field`, as far as labels
/// tells expressions apart.
#[derive(Debug, Clone, PartialEq)]
pub enum FieldExpression {
    /// `["get", property]`, or `["get", property, object]` when `has_object`.
    Get {
        /// The feature property read.
        property: String,
        /// Whether the expression reads the property of another object.
        has_object: bool,
    },
    /// Any other expression.
    Other,
}

/// The value of a `text-field` layout property.
#[derive(Debug, Clone, PartialEq)]
pub enum TextFieldValue {
    /// A literal token pattern such as `"{name}"`.
    Literal(String),
    /// An expression.
    Expression(FieldExpression),
    /// A legacy stops function.
    Function,
}

/// Layout properties for a `symbol` layer, as far as labels read them.
#[derive(Debug, Clone, PartialEq)]
pub struct SymbolLayout {
    /// Label placement relative to its geometry.
    pub symbol_placement: Option<SymbolPlacement>,
    /// Part of the text placed nearest to the anchor.
    pub text_anchor: Option<String>,
    /// Value to use for a text label.
    pub text_field: Option<TextFieldValue>,
    /// Font stack for the glyphs.
    pub text_font: Vec<String>,
}

/// A `symbol` layer draws icons or text labels at points or along lines.
#[derive(Debug, Clone, PartialEq)]
pub struct SymbolLayer {
    /// Unique layer identifier.
    pub id: String,
    /// Source to use for this layer.
    pub source: Option<String>,
    /// Layer within the source to use.
    pub source_layer: Option<String>,
    /// Layout properties.
    pub layout: SymbolLayout,
}

} // verus!
