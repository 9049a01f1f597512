//! The decisions that turn a MapLibre vector source and the style layers that
//! reference it into a vector-tile layer: which layers become style rules and
//! how, which layer gives the tile background, and which URL serves a tile.
//!
//! Colours, sizes, zoom resolutions and filters are expressions that the map
//! renderer evaluates; here they are carried as the opaque values `E` (an
//! expression) and `R` (a resolution), placed into the rules as stated.
use vstd::prelude::*;

use crate::layer::fonts::{
    families, font_style_of, font_weight_of, opt_index, parse_ml_fonts, strings_chars, FontStyle,
    FontWeight,
};
use crate::style::layer::symbol::{
    FieldExpression, SymbolLayer, SymbolLayout, SymbolPlacement, TextFieldValue,
};
use crate::style::layer::{opt_string_chars, FillLayer, Layer, LineLayer};
use crate::text::{
    chars_of, decimal, decimal_of, lemma_replace_all_absent, occurs_at, replace_all,
    replace_all_exec, signed_decimal, signed_decimal_of, str_eq, string_from_chars,
};

verus! {

broadcast use vstd::string::group_string_axioms;

/// Horizontal placement of a label relative to its anchor point.
#[derive(Debug, Clone, Copy, PartialEq, Eq, Structural)]
pub enum HorizontalAlignment {
    /// The anchor is on the left of the text.
    Left,
    /// The anchor is at the horizontal centre of the text.
    Center,
    /// The anchor is on the right of the text.
    Right,
}

/// Vertical placement of a label relative to its anchor point.
#[derive(Debug, Clone, Copy, PartialEq, Eq, Structural)]
pub enum VerticalAlignment {
    /// The anchor is at the top of the text.
    Top,
    /// The anchor is at the vertical middle of the text.
    Middle,
    /// The anchor is at the bottom of the text.
    Bottom,
}

/// The text style of a label rule.
#[derive(Debug, Clone, PartialEq)]
pub struct TextStyle<E> {
    /// Font families, in fallback order.
    pub font_family: Vec<String>,
    /// Font size.
    pub font_size: E,
    /// Text colour.
    pub font_color: E,
    /// Horizontal alignment.
    pub horizontal_alignment: HorizontalAlignment,
    /// Vertical alignment.
    pub vertical_alignment: VerticalAlignment,
    /// Font weight.
    pub weight: FontWeight,
    /// Font style.
    pub style: FontStyle,
    /// Width of the text halo.
    pub outline_width: E,
    /// Colour of the text halo.
    pub outline_color: E,
}

/// How the features a rule selects are drawn.
#[derive(Debug, Clone, PartialEq)]
pub enum RuleSymbol<E> {
    /// Filled polygons.
    Polygon {
        /// Fill colour.
        fill_color: E,
    },
    /// Stroked lines.
    Line {
        /// Stroke width.
        width: E,
        /// Stroke colour.
        stroke_color: E,
        /// Dash pattern, if any.
        dasharray: Option<E>,
    },
    /// Text labels.
    Label {
        /// Token pattern such as `"{name}"` that the renderer fills per feature.
        pattern: String,
        /// Text style.
        text_style: TextStyle<E>,
    },
}

/// A vector-tile style rule.
#[derive(Debug, Clone, PartialEq)]
pub struct StyleRule<E, R> {
    /// Layer of the tile whose features the rule draws.
    pub layer_name: Option<String>,
    /// How the features are drawn.
    pub symbol: RuleSymbol<E>,
    /// Smallest resolution at which the rule applies.
    pub min_resolution: Option<R>,
    /// Largest resolution at which the rule applies.
    pub max_resolution: Option<R>,
    /// Feature filter.
    pub filter: Option<E>,
}

/// The text style of a label rule, with its strings as character sequences.
pub struct TextStyleModel<E> {
    pub font_family: Seq<Seq<char>>,
    pub font_size: E,
    pub font_color: E,
    pub horizontal_alignment: HorizontalAlignment,
    pub vertical_alignment: VerticalAlignment,
    pub weight: FontWeight,
    pub style: FontStyle,
    pub outline_width: E,
    pub outline_color: E,
}

/// How a rule draws, with its strings as character sequences.
pub enum RuleSymbolModel<E> {
    Polygon { fill_color: E },
    Line { width: E, stroke_color: E, dasharray: Option<E> },
    Label { pattern: Seq<char>, text_style: TextStyleModel<E> },
}

/// A style rule, with its strings as character sequences.
pub struct StyleRuleModel<E, R> {
    pub layer_name: Option<Seq<char>>,
    pub symbol: RuleSymbolModel<E>,
    pub min_resolution: Option<R>,
    pub max_resolution: Option<R>,
    pub filter: Option<E>,
}

impl<E> View for TextStyle<E> {
    type V = TextStyleModel<E>;

    open spec fn view(&self) -> TextStyleModel<E> {
        TextStyleModel {
            font_family: strings_chars(self.font_family@),
            font_size: self.font_size,
            font_color: self.font_color,
            horizontal_alignment: self.horizontal_alignment,
            vertical_alignment: self.vertical_alignment,
            weight: self.weight,
            style: self.style,
            outline_width: self.outline_width,
            outline_color: self.outline_color,
        }
    }
}

impl<E> View for RuleSymbol<E> {
    type V = RuleSymbolModel<E>;

    open spec fn view(&self) -> RuleSymbolModel<E> {
        match self {
            RuleSymbol::Polygon { fill_color } => RuleSymbolModel::Polygon { fill_color: *fill_color },
            RuleSymbol::Line { width, stroke_color, dasharray } => RuleSymbolModel::Line {
                width: *width,
                stroke_color: *stroke_color,
                dasharray: *dasharray,
            },
            RuleSymbol::Label { pattern, text_style } => RuleSymbolModel::Label {
                pattern: pattern@,
                text_style: text_style@,
            },
        }
    }
}

impl<E, R> View for StyleRule<E, R> {
    type V = StyleRuleModel<E, R>;

    open spec fn view(&self) -> StyleRuleModel<E, R> {
        StyleRuleModel {
            layer_name: opt_string_chars(self.layer_name),
            symbol: self.symbol@,
            min_resolution: self.min_resolution,
            max_resolution: self.max_resolution,
            filter: self.filter,
        }
    }
}

/// The models of a sequence of rules.
pub open spec fn rules_model_of<E, R>(rules: Seq<StyleRule<E, R>>) -> Seq<StyleRuleModel<E, R>> {
    rules.map_values(|r: StyleRule<E, R>| r@)
}

/// The paint values of a layer, already evaluated to expressions.
pub enum PaintValues<E> {
    /// A `fill` layer: its colour with its opacity, if that could be expressed.
    Fill { color: Option<E> },
    /// A `line` layer: colour with opacity, width and dash pattern.
    Line { color: E, width: E, dasharray: Option<E> },
    /// A `symbol` layer: text colour and halo colour (each with the text
    /// opacity), text size and halo width, each if it could be expressed.
    Symbol {
        font_color: Option<E>,
        outline_color: Option<E>,
        font_size: Option<E>,
        outline_width: Option<E>,
    },
    /// A layer whose paint no rule uses.
    Unused,
}

/// What the rule of a layer takes besides the layer: its resolutions at its
/// zoom bounds, its filter, and its paint values.
pub struct LayerValues<E, R> {
    /// Resolution at the layer's `minzoom`, if it has one.
    pub resolution_at_minzoom: Option<R>,
    /// Resolution at the layer's `maxzoom`, if it has one.
    pub resolution_at_maxzoom: Option<R>,
    /// The layer's filter, if it has one that could be expressed.
    pub filter: Option<E>,
    /// The layer's paint values.
    pub paint: PaintValues<E>,
}

/// Whether `values` were evaluated for a layer of the kind of `layer`.
pub open spec fn values_fit<E, R>(layer: Layer, values: LayerValues<E, R>) -> bool {
    match layer {
        Layer::Fill(_) => values.paint is Fill,
        Layer::Line(_) => values.paint is Line,
        Layer::Symbol(_) => values.paint is Symbol,
        _ => true,
    }
}

/// Horizontal alignment for a `text-anchor`.
pub open spec fn horizontal_of(anchor: Option<Seq<char>>) -> HorizontalAlignment {
    match anchor {
        Some(a) => if a == "left"@ || a == "top-left"@ || a == "bottom-left"@ {
            HorizontalAlignment::Left
        } else if a == "right"@ || a == "top-right"@ || a == "bottom-right"@ {
            HorizontalAlignment::Right
        } else {
            HorizontalAlignment::Center
        },
        None => HorizontalAlignment::Center,
    }
}

/// Vertical alignment for a `text-anchor`.
pub open spec fn vertical_of(anchor: Option<Seq<char>>) -> VerticalAlignment {
    match anchor {
        Some(a) => if a == "top"@ || a == "top-left"@ || a == "top-right"@ {
            VerticalAlignment::Top
        } else if a == "bottom"@ || a == "bottom-left"@ || a == "bottom-right"@ {
            VerticalAlignment::Bottom
        } else {
            VerticalAlignment::Middle
        },
        None => VerticalAlignment::Middle,
    }
}

/// The label pattern of a `text-field`: a literal token pattern as it is, a
/// `["get", p]` expression as the token `{p}`, nothing otherwise.
pub open spec fn pattern_of(text_field: Option<TextFieldValue>) -> Seq<char> {
    match text_field {
        Some(TextFieldValue::Literal(p)) => p@,
        Some(TextFieldValue::Expression(FieldExpression::Get { property, has_object })) => {
            if has_object {
                seq![]
            } else {
                "{"@ + property@ + "}"@
            }
        },
        _ => seq![],
    }
}

/// The rule of a `fill` layer.
pub open spec fn fill_rule_model<E, R>(fill: FillLayer, values: LayerValues<E, R>) -> Option<
    StyleRuleModel<E, R>,
> {
    match (fill.source_layer, values.paint) {
        (Some(name), PaintValues::Fill { color: Some(c) }) => Some(
            StyleRuleModel {
                layer_name: Some(name@),
                symbol: RuleSymbolModel::Polygon { fill_color: c },
                min_resolution: values.resolution_at_maxzoom,
                max_resolution: values.resolution_at_minzoom,
                filter: values.filter,
            },
        ),
        _ => None,
    }
}

/// The rule of a `line` layer.
pub open spec fn line_rule_model<E, R>(line: LineLayer, values: LayerValues<E, R>) -> Option<
    StyleRuleModel<E, R>,
> {
    match (line.source_layer, values.paint) {
        (Some(name), PaintValues::Line { color, width, dasharray }) => Some(
            StyleRuleModel {
                layer_name: Some(name@),
                symbol: RuleSymbolModel::Line { width, stroke_color: color, dasharray },
                min_resolution: values.resolution_at_maxzoom,
                max_resolution: values.resolution_at_minzoom,
                filter: values.filter,
            },
        ),
        _ => None,
    }
}

/// Whether labels of a symbol layer are placed along lines.
pub open spec fn placed_along_lines(symbol: SymbolLayer) -> bool {
    symbol.layout.symbol_placement == Some(SymbolPlacement::Line)
        || symbol.layout.symbol_placement == Some(SymbolPlacement::LineCenter)
}

/// The rule of a `symbol` layer.
pub open spec fn symbol_rule_model<E, R>(symbol: SymbolLayer, values: LayerValues<E, R>) -> Option<
    StyleRuleModel<E, R>,
> {
    match (symbol.source_layer, values.paint) {
        (
            Some(name),
            PaintValues::Symbol {
                font_color: Some(fc),
                outline_color: Some(oc),
                font_size: Some(fs),
                outline_width: Some(ow),
            },
        ) => if placed_along_lines(symbol) {
            None
        } else {
            let fonts = strings_chars(symbol.layout.text_font@);
            let anchor = opt_string_chars(symbol.layout.text_anchor);
            Some(
                StyleRuleModel {
                    layer_name: Some(name@),
                    symbol: RuleSymbolModel::Label {
                        pattern: pattern_of(symbol.layout.text_field),
                        text_style: TextStyleModel {
                            font_family: families(fonts),
                            font_size: fs,
                            font_color: fc,
                            horizontal_alignment: horizontal_of(anchor),
                            vertical_alignment: vertical_of(anchor),
                            weight: font_weight_of(fonts),
                            style: font_style_of(fonts),
                            outline_width: ow,
                            outline_color: oc,
                        },
                    },
                    min_resolution: values.resolution_at_maxzoom,
                    max_resolution: values.resolution_at_minzoom,
                    filter: values.filter,
                },
            )
        },
        _ => None,
    }
}

/// The rule of a layer: fill, line and symbol layers give one, when they can
/// be drawn; the others give none.
pub open spec fn rule_model_for<E, R>(layer: Layer, values: LayerValues<E, R>) -> Option<
    StyleRuleModel<E, R>,
> {
    match layer {
        Layer::Fill(f) => fill_rule_model(f, values),
        Layer::Line(l) => line_rule_model(*l, values),
        Layer::Symbol(s) => symbol_rule_model(*s, values),
        _ => None,
    }
}

/// The rules of `layers`, in their order, each layer taken with its values.
pub open spec fn rules_model<E, R>(layers: Seq<Layer>, values: Seq<LayerValues<E, R>>) -> Seq<
    StyleRuleModel<E, R>,
>
    decreases layers.len(),
{
    if layers.len() == 0 {
        seq![]
    } else {
        let n = layers.len() - 1;
        let earlier = rules_model(layers.take(n), values.take(n));
        match rule_model_for(layers[n], values[n]) {
            Some(r) => earlier.push(r),
            None => earlier,
        }
    }
}

/// The horizontal alignment of a label with the given `text-anchor`.
pub fn horizontal_alignment(anchor: &Option<String>) -> (h: HorizontalAlignment)
    ensures
        h == horizontal_of(opt_string_chars(*anchor)),
{
    match anchor {
        Some(a) => {
            let a = a.as_str();
            if str_eq(a, "left") || str_eq(a, "top-left") || str_eq(a, "bottom-left") {
                HorizontalAlignment::Left
            } else if str_eq(a, "right") || str_eq(a, "top-right") || str_eq(a, "bottom-right") {
                HorizontalAlignment::Right
            } else {
                HorizontalAlignment::Center
            }
        },
        None => HorizontalAlignment::Center,
    }
}

/// The vertical alignment of a label with the given `text-anchor`.
pub fn vertical_alignment(anchor: &Option<String>) -> (v: VerticalAlignment)
    ensures
        v == vertical_of(opt_string_chars(*anchor)),
{
    match anchor {
        Some(a) => {
            let a = a.as_str();
            if str_eq(a, "top") || str_eq(a, "top-left") || str_eq(a, "top-right") {
                VerticalAlignment::Top
            } else if str_eq(a, "bottom") || str_eq(a, "bottom-left") || str_eq(a, "bottom-right") {
                VerticalAlignment::Bottom
            } else {
                VerticalAlignment::Middle
            }
        },
        None => VerticalAlignment::Middle,
    }
}

/// Resolve a symbol layer's `text-field` into a label pattern.
///
/// Labels are token patterns such as `"{name}"`, which the renderer
/// substitutes per feature. A `text-field` may instead be a modern expression or
/// a legacy stops function, so the shapes that have an exact token
/// equivalent are carried over and the pattern is empty otherwise. An unsupported
/// `text-field` costs the layer its labels rather than dropping the layer.
pub fn text_field_pattern(symbol: &SymbolLayer) -> (pattern: String)
    ensures
        pattern@ == pattern_of(symbol.layout.text_field),
        symbol.layout.text_field matches Some(TextFieldValue::Literal(p)) ==> pattern@ == p@,
        symbol.layout.text_field matches Some(
            TextFieldValue::Expression(FieldExpression::Get { property, has_object }),
        ) ==> pattern@ == if has_object {
            seq![]
        } else {
            "{"@ + property@ + "}"@
        },
        !(symbol.layout.text_field matches Some(TextFieldValue::Literal(_))) && !(
        symbol.layout.text_field matches Some(
            TextFieldValue::Expression(FieldExpression::Get { .. }),
        )) ==> pattern@.len() == 0,
{
    match &symbol.layout.text_field {
        Some(TextFieldValue::Literal(pattern)) => pattern.clone(),
        Some(TextFieldValue::Expression(FieldExpression::Get { property, has_object })) => {
            if *has_object {
                String::new()
            } else {
                // `["get", "name"]` is exactly what the token `{name}` already means.
                let mut token = "{".to_string();
                token.append(property.as_str());
                token.append("}");
                token
            }
        },
        _ => String::new(),
    }
}

/// Converts a `fill` layer to a style rule: none when the layer names no
/// source layer or its colour could not be expressed.
pub fn fill_rule<E, R>(fill: &FillLayer, values: LayerValues<E, R>) -> (rule: Option<StyleRule<E, R>>)
    requires
        values.paint is Fill,
    ensures
        (rule is Some) <==> (fill.source_layer is Some && (values.paint matches PaintValues::Fill {
            color: Some(_),
        })),
        rule matches Some(r) ==> {
            &&& r.layer_name == fill.source_layer
            &&& r.min_resolution == values.resolution_at_maxzoom
            &&& r.max_resolution == values.resolution_at_minzoom
            &&& r.filter == values.filter
            &&& values.paint matches PaintValues::Fill { color: Some(c) } && r.symbol
                == RuleSymbol::Polygon { fill_color: c }
        },
        match rule {
            Some(r) => fill_rule_model(*fill, values) == Some(r@),
            None => fill_rule_model(*fill, values) is None,
        },
{
    let source_layer = match &fill.source_layer {
        Some(l) => l.clone(),
        None => {
            return None;
        },
    };
    let LayerValues { resolution_at_minzoom, resolution_at_maxzoom, filter, paint } = values;
    match paint {
        PaintValues::Fill { color: Some(color) } => Some(
            StyleRule {
                layer_name: Some(source_layer),
                symbol: RuleSymbol::Polygon { fill_color: color },
                min_resolution: resolution_at_maxzoom,
                max_resolution: resolution_at_minzoom,
                filter,
            },
        ),
        _ => None,
    }
}

/// Converts a `line` layer to a style rule: none when the layer names no
/// source layer.
pub fn line_rule<E, R>(line: &LineLayer, values: LayerValues<E, R>) -> (rule: Option<StyleRule<E, R>>)
    requires
        values.paint is Line,
    ensures
        (rule is Some) <==> line.source_layer is Some,
        rule matches Some(r) ==> {
            &&& r.layer_name == line.source_layer
            &&& r.min_resolution == values.resolution_at_maxzoom
            &&& r.max_resolution == values.resolution_at_minzoom
            &&& r.filter == values.filter
            &&& values.paint matches PaintValues::Line { color, width, dasharray } && r.symbol
                == RuleSymbol::Line { width, stroke_color: color, dasharray }
        },
        match rule {
            Some(r) => line_rule_model(*line, values) == Some(r@),
            None => line_rule_model(*line, values) is None,
        },
{
    let source_layer = match &line.source_layer {
        Some(l) => l.clone(),
        None => {
            return None;
        },
    };
    let LayerValues { resolution_at_minzoom, resolution_at_maxzoom, filter, paint } = values;
    match paint {
        PaintValues::Line { color, width, dasharray } => Some(
            StyleRule {
                layer_name: Some(source_layer),
                symbol: RuleSymbol::Line { width, stroke_color: color, dasharray },
                min_resolution: resolution_at_maxzoom,
                max_resolution: resolution_at_minzoom,
                filter,
            },
        ),
        _ => None,
    }
}

/// Converts a `symbol` layer to a label style rule: none when the layer names
/// no source layer, when one of its text colour, halo colour, text size and
/// halo width could not be expressed, or when its labels are placed along
/// lines, which is not supported.
pub fn symbol_rule<E, R>(symbol: &SymbolLayer, values: LayerValues<E, R>) -> (rule: Option<
    StyleRule<E, R>,
>)
    requires
        values.paint is Symbol,
    ensures
        (rule is Some) <==> (symbol.source_layer is Some && (values.paint matches PaintValues::Symbol {
            font_color: Some(_),
            outline_color: Some(_),
            font_size: Some(_),
            outline_width: Some(_),
        }) && symbol.layout.symbol_placement != Some(SymbolPlacement::Line)
            && symbol.layout.symbol_placement != Some(SymbolPlacement::LineCenter)),
        rule matches Some(r) ==> {
            &&& r.layer_name == symbol.source_layer
            &&& r.min_resolution == values.resolution_at_maxzoom
            &&& r.max_resolution == values.resolution_at_minzoom
            &&& r.filter == values.filter
            &&& values.paint matches PaintValues::Symbol {
                font_color: Some(fc),
                outline_color: Some(oc),
                font_size: Some(fs),
                outline_width: Some(ow),
            } && r.symbol matches RuleSymbol::Label { pattern, text_style } && text_style.font_color
                == fc && text_style.outline_color == oc && text_style.font_size == fs
                && text_style.outline_width == ow && (symbol.layout.text_field matches Some(
                TextFieldValue::Literal(p),
            ) ==> pattern@ == p@) && pattern@ == pattern_of(symbol.layout.text_field)
                && text_style@.font_family == families(strings_chars(symbol.layout.text_font@))
                && text_style.weight == font_weight_of(strings_chars(symbol.layout.text_font@))
                && text_style.style == font_style_of(strings_chars(symbol.layout.text_font@))
                && text_style.horizontal_alignment == horizontal_of(
                opt_string_chars(symbol.layout.text_anchor),
            ) && text_style.vertical_alignment == vertical_of(
                opt_string_chars(symbol.layout.text_anchor),
            )
        },
        match rule {
            Some(r) => symbol_rule_model(*symbol, values) == Some(r@),
            None => symbol_rule_model(*symbol, values) is None,
        },
{
    let source_layer = match &symbol.source_layer {
        Some(l) => l.clone(),
        None => {
            return None;
        },
    };
    let LayerValues { resolution_at_minzoom, resolution_at_maxzoom, filter, paint } = values;
    let (font_color, outline_color, font_size, outline_width) = match paint {
        PaintValues::Symbol {
            font_color: Some(fc),
            outline_color: Some(oc),
            font_size: Some(fs),
            outline_width: Some(ow),
        } => (fc, oc, fs, ow),
        _ => {
            return None;
        },
    };
    let (font_family, weight, font_style) = parse_ml_fonts(symbol.layout.text_font.as_slice());
    let style = TextStyle {
        font_family,
        font_size,
        font_color,
        horizontal_alignment: horizontal_alignment(&symbol.layout.text_anchor),
        vertical_alignment: vertical_alignment(&symbol.layout.text_anchor),
        weight,
        style: font_style,
        outline_width,
        outline_color,
    };
    match symbol.layout.symbol_placement {
        Some(SymbolPlacement::Point) | None => Some(
            StyleRule {
                layer_name: Some(source_layer),
                symbol: RuleSymbol::Label { pattern: text_field_pattern(symbol), text_style: style },
                min_resolution: resolution_at_maxzoom,
                max_resolution: resolution_at_minzoom,
                filter,
            },
        ),
        Some(SymbolPlacement::Line) | Some(SymbolPlacement::LineCenter) => None,
    }
}

/// Converts each supported style layer into a style rule, in the order of
/// the layers; `values[i]` holds what the rule of `layers[i]` takes besides
/// the layer. Background layers give the tile background instead, and layer
/// types other than fill, line and symbol are not drawn from vector tiles.
pub fn build_rules<E, R>(layers: &[Layer], values: Vec<LayerValues<E, R>>) -> (rules: Vec<
    StyleRule<E, R>,
>)
    requires
        layers@.len() == values@.len(),
        forall|i: int| 0 <= i < layers@.len() ==> values_fit(#[trigger] layers@[i], values@[i]),
    ensures
        rules_model_of(rules@) == rules_model(layers@, values@),
{
    let ghost all_values = values@;
    let mut rest = values;
    let mut rules: Vec<StyleRule<E, R>> = Vec::new();
    let mut i: usize = 0;
    while i < layers.len()
        invariant
            0 <= i <= layers@.len() == all_values.len(),
            forall|k: int|
                0 <= k < layers@.len() ==> values_fit(#[trigger] layers@[k], all_values[k]),
            rest@ == all_values.skip(i as int),
            rules_model_of(rules@) == rules_model(layers@.take(i as int), all_values.take(i as int)),
        decreases layers.len() - i,
    {
        let v = rest.remove(0);
        assert(v == all_values[i as int]);
        let ghost before = rules@;
        let rule = match &layers[i] {
            Layer::Fill(fill) => fill_rule(fill, v),
            Layer::Line(line) => line_rule(line, v),
            Layer::Symbol(symbol) => symbol_rule(symbol, v),
            _ => None,
        };
        assert(layers@.take(i + 1).take(i as int) =~= layers@.take(i as int));
        assert(all_values.take(i + 1).take(i as int) =~= all_values.take(i as int));
        assert(layers@.take(i + 1)[i as int] == layers@[i as int]);
        assert(all_values.take(i + 1)[i as int] == all_values[i as int]);
        if let Some(r) = rule {
            rules.push(r);
            assert(rules_model_of(rules@) =~= rules_model_of(before).push(r@));
        }
        assert(rest@ =~= all_values.skip(i + 1));
        i += 1;
    }
    assert(layers@.take(layers@.len() as int) =~= layers@);
    assert(all_values.take(all_values.len() as int) =~= all_values);
    rules
}

/// The position of the first background layer of `layers`, if any.
pub open spec fn first_background(layers: Seq<Layer>) -> Option<int>
    decreases layers.len(),
{
    if layers.len() == 0 {
        None
    } else if layers[0] is Background {
        Some(0)
    } else {
        match first_background(layers.drop_first()) {
            Some(i) => Some(i + 1),
            None => None,
        }
    }
}

/// Finds the background layer: the tile background is that of the first
/// background layer, wherever it stands in the list, since a background can
/// only be applied to the bottom of the tile.
pub fn background_layer(layers: &[Layer]) -> (index: Option<usize>)
    ensures
        index matches Some(i) ==> i < layers@.len(),
        opt_index(index) == first_background(layers@),
{
    let mut i: usize = 0;
    assert(layers@.skip(0) =~= layers@);
    while i < layers.len()
        invariant
            0 <= i <= layers@.len(),
            first_background(layers@) == match first_background(layers@.skip(i as int)) {
                Some(k) => Some(k + i),
                None => None,
            },
        decreases layers.len() - i,
    {
        assert(layers@.skip(i as int)[0] == layers@[i as int]);
        if let Layer::Background(_) = &layers[i] {
            return Some(i);
        }
        assert(layers@.skip(i as int).drop_first() =~= layers@.skip(i + 1));
        i += 1;
    }
    None
}


/// The tile URLs of a vector source: none when it lists none, since the layer
/// then has nowhere to load tiles from.
pub fn usable_tile_urls(tiles: Option<Vec<String>>) -> (urls: Option<Vec<String>>)
    ensures
        urls == (match tiles {
            Some(t) => if t@.len() > 0 {
                Some(t)
            } else {
                None
            },
            None => None,
        }),
{
    match tiles {
        Some(t) => if t.len() > 0 {
            Some(t)
        } else {
            None
        },
        None => None,
    }
}

/// Which of `n` equivalent mirror URLs serves the tile at column `x`, row `y`:
/// `(x + y) mod n`, which spreads neighbouring tiles over the mirrors and is
/// stable per tile.
pub open spec fn mirror_index(x: int, y: int, n: int) -> int {
    (x + y) % n
}

/// The URL of the tile `(x, y, z)` from the URL template `template`: each
/// `{z}`, then each `{x}`, then each `{y}` replaced by the decimal coordinate.
pub open spec fn expand_tile_url(template: Seq<char>, x: int, y: int, z: nat) -> Seq<char> {
    replace_all(
        replace_all(replace_all(template, "{z}"@, decimal(z)), "{x}"@, signed_decimal(x)),
        "{y}"@,
        signed_decimal(y),
    )
}

/// The URL of the tile at column `x`, row `y` and zoom level `z`. The URLs in
/// `tile_urls` are equivalent mirrors; the tile is served by the one at
/// `mirror_index(x, y, n)`.
pub fn tile_url(tile_urls: &[String], x: i32, y: i32, z: u32) -> (url: String)
    requires
        0 < tile_urls@.len() <= i32::MAX,
        i32::MIN <= x + y <= i32::MAX,
    ensures
        0 <= mirror_index(x as int, y as int, tile_urls@.len() as int) < tile_urls@.len(),
        url@ == expand_tile_url(
            tile_urls@[mirror_index(x as int, y as int, tile_urls@.len() as int)]@,
            x as int,
            y as int,
            z as nat,
        ),
{
    let n = tile_urls.len() as i32;
    let sum = x + y;
    let index = sum.checked_rem_euclid(n).unwrap() as usize;
    let template = chars_of(tile_urls[index].as_str());
    let z_pat = chars_of("{z}");
    let x_pat = chars_of("{x}");
    let y_pat = chars_of("{y}");
    proof {
        reveal_strlit("{z}");
        reveal_strlit("{x}");
        reveal_strlit("{y}");
    }
    let with_z = replace_all_exec(&template, &z_pat, &decimal_of(z as u64));
    let with_x = replace_all_exec(&with_z, &x_pat, &signed_decimal_of(x as i64));
    let with_y = replace_all_exec(&with_x, &y_pat, &signed_decimal_of(y as i64));
    string_from_chars(with_y.as_slice())
}

/// The tiling scheme of a vector source.
#[derive(Debug, Clone, Copy, PartialEq, Eq, Structural)]
pub enum TileScheme {
    /// Slippy-map tiles, rows counted from the top.
    Xyz,
    /// OSGeo TMS tiles, rows counted from the bottom.
    Tms,
}

/// The direction in which tile rows are counted.
#[derive(Debug, Clone, Copy, PartialEq, Eq, Structural)]
pub enum VerticalDirection {
    /// Row 0 is at the top.
    TopToBottom,
    /// Row 0 is at the bottom.
    BottomToTop,
}

/// The row direction of the tile schema for a tiling scheme.
pub fn y_direction(scheme: TileScheme) -> (direction: VerticalDirection)
    ensures
        direction == (match scheme {
            TileScheme::Xyz => VerticalDirection::TopToBottom,
            TileScheme::Tms => VerticalDirection::BottomToTop,
        }),
{
    match scheme {
        TileScheme::Xyz => VerticalDirection::TopToBottom,
        TileScheme::Tms => VerticalDirection::BottomToTop,
    }
}

/// The `type` of a legacy style function.
#[derive(Debug, Clone, Copy, PartialEq, Eq, Structural)]
pub enum FunctionType {
    /// The input is the output.
    Identity,
    /// Exponential interpolation between stops.
    Exponential,
    /// Steps between stops.
    Interval,
    /// One output per input value.
    Categorical,
}

/// The input of an interpolation.
#[derive(Debug, Clone, PartialEq)]
pub enum InterpolationInput {
    /// A feature property.
    Property(String),
    /// The zoom level.
    Zoom,
}

/// The input of the exponential interpolation that a legacy style function
/// becomes: the function's `property` if it names one, else the zoom level.
/// None when the function has a type other than `exponential`, which is not
/// supported; a function without a type is taken as exponential.
pub fn interpolation_input(function_type: Option<FunctionType>, property: &Option<String>) -> (input:
    Option<InterpolationInput>)
    ensures
        (input is None) <==> (function_type is Some && function_type != Some(
            FunctionType::Exponential,
        )),
        input matches Some(InterpolationInput::Property(p)) ==> property == Some(p),
        input matches Some(InterpolationInput::Zoom) ==> property is None,
{
    match function_type {
        Some(FunctionType::Exponential) | None => {},
        Some(_) => {
            return None;
        },
    }
    match property {
        Some(name) => Some(InterpolationInput::Property(name.clone())),
        None => Some(InterpolationInput::Zoom),
    }
}

/// Rules keep the order of their layers: the rules of two runs of layers,
/// one after the other, are the rules of the first run followed by those of
/// the second.
pub proof fn lemma_rules_append<E, R>(
    l1: Seq<Layer>,
    v1: Seq<LayerValues<E, R>>,
    l2: Seq<Layer>,
    v2: Seq<LayerValues<E, R>>,
)
    requires
        l1.len() == v1.len(),
        l2.len() == v2.len(),
    ensures
        rules_model(l1 + l2, v1 + v2) == rules_model(l1, v1) + rules_model(l2, v2),
    decreases l2.len(),
{
    if l2.len() == 0 {
        assert(l1 + l2 =~= l1);
        assert(v1 + v2 =~= v1);
        assert(l1.take(l1.len() as int) =~= l1);
        assert(v1.take(v1.len() as int) =~= v1);
        assert(rules_model(l1, v1) + rules_model(l2, v2) =~= rules_model(l1, v1));
    } else {
        let n = l2.len() - 1;
        let m = l1.len() + n;
        assert((l1 + l2).take(m) =~= l1 + l2.take(n));
        assert((v1 + v2).take(m) =~= v1 + v2.take(n));
        assert((l1 + l2)[m] == l2[n]);
        assert((v1 + v2)[m] == v2[n]);
        lemma_rules_append(l1, v1, l2.take(n), v2.take(n));
        match rule_model_for(l2[n], v2[n]) {
            Some(r) => {
                assert(rules_model(l1, v1) + rules_model(l2.take(n), v2.take(n)).push(r) =~= (
                rules_model(l1, v1) + rules_model(l2.take(n), v2.take(n))).push(r));
            },
            None => {},
        }
    }
}

/// Whether a layer is of a kind drawn from vector tiles by a rule.
pub open spec fn drawn_by_rule(layer: Layer) -> bool {
    layer is Fill || layer is Line || layer is Symbol
}

/// Each layer gives at most one rule, and only fill, line and symbol layers
/// give one: background layers and the other layer types give none.
pub proof fn lemma_rules_count<E, R>(layers: Seq<Layer>, values: Seq<LayerValues<E, R>>)
    requires
        layers.len() == values.len(),
    ensures
        rules_model(layers, values).len() <= layers.filter(|l: Layer| drawn_by_rule(l)).len(),
    decreases layers.len(),
{
    reveal_with_fuel(Seq::filter, 1);
    if layers.len() > 0 {
        let n = layers.len() - 1;
        lemma_rules_count(layers.take(n), values.take(n));
        assert(layers.take(n) =~= layers.drop_last());
        assert(layers.last() == layers[n]);
    }
}

/// A symbol layer whose labels are placed along lines gives no rule, since
/// such placement is not supported.
pub proof fn lemma_line_placed_labels_skipped<E, R>(symbol: SymbolLayer, values: LayerValues<E, R>)
    requires
        placed_along_lines(symbol),
    ensures
        symbol_rule_model(symbol, values) is None,
{
}

/// A fill, line or symbol layer that names no source layer gives no rule.
pub proof fn lemma_no_source_layer_no_rule<E, R>(layer: Layer, values: LayerValues<E, R>)
    requires
        match layer {
            Layer::Fill(f) => f.source_layer is None,
            Layer::Line(l) => l.source_layer is None,
            Layer::Symbol(s) => s.source_layer is None,
            _ => true,
        },
    ensures
        rule_model_for(layer, values) is None,
{
}

/// The `text-field` of a symbol layer never decides whether the layer gives a
/// rule: an unsupported `text-field` costs the layer its labels, not the layer.
pub proof fn lemma_text_field_keeps_layer<E, R>(
    symbol: SymbolLayer,
    text_field: Option<TextFieldValue>,
    values: LayerValues<E, R>,
)
    ensures
        (symbol_rule_model(symbol, values) is Some) == (symbol_rule_model(
            SymbolLayer { layout: SymbolLayout { text_field, ..symbol.layout }, ..symbol },
            values,
        ) is Some),
{
}

/// The expression `["get", p]` as a `text-field` gives the same label pattern
/// as the token string `"{p}"`.
pub proof fn lemma_get_expression_is_token(property: String, token: String)
    requires
        token@ == "{"@ + property@ + "}"@,
    ensures
        pattern_of(
            Some(
                TextFieldValue::Expression(
                    FieldExpression::Get { property: property, has_object: false },
                ),
            ),
        ) == pattern_of(Some(TextFieldValue::Literal(token))),
{
}

/// The background of a tile is that of the first background layer of the
/// list, wherever it stands; a list without background layers has none.
pub proof fn lemma_first_background(layers: Seq<Layer>)
    ensures
        match first_background(layers) {
            Some(i) => 0 <= i < layers.len() && layers[i] is Background && forall|j: int|
                0 <= j < i ==> !(#[trigger] layers[j] is Background),
            None => forall|j: int| 0 <= j < layers.len() ==> !(#[trigger] layers[j] is Background),
        },
    decreases layers.len(),
{
    if layers.len() > 0 && !(layers[0] is Background) {
        let rest = layers.drop_first();
        lemma_first_background(rest);
        assert forall|j: int| 1 <= j < layers.len() implies layers[j] == rest[j - 1] by {}
        match first_background(rest) {
            Some(i) => {
                assert forall|j: int| 0 <= j < i + 1 implies !(#[trigger] layers[j] is Background) by {
                    if j > 0 {
                        assert(layers[j] == rest[j - 1]);
                    }
                }
            },
            None => {
                assert forall|j: int| 0 <= j < layers.len() implies !(
                #[trigger] layers[j] is Background) by {
                    if j > 0 {
                        assert(layers[j] == rest[j - 1]);
                    }
                }
            },
        }
    }
}

/// A tile is served by one of the mirrors, and by the same one for every tile
/// on the same diagonal `x + y`.
pub proof fn lemma_mirror_index(x: int, y: int, k: int, n: int)
    requires
        n > 0,
    ensures
        0 <= mirror_index(x, y, n) < n,
        mirror_index(x + k, y - k, n) == mirror_index(x, y, n),
{
    assert(x + k + (y - k) == x + y);
}

/// A URL template without `{z}`, `{x}` or `{y}` placeholders is the URL of
/// every tile.
pub proof fn lemma_url_without_placeholders(template: Seq<char>, x: int, y: int, z: nat)
    requires
        forall|i: int| !occurs_at(template, "{z}"@, i),
        forall|i: int| !occurs_at(template, "{x}"@, i),
        forall|i: int| !occurs_at(template, "{y}"@, i),
    ensures
        expand_tile_url(template, x, y, z) == template,
{
    lemma_replace_all_absent(template, "{z}"@, decimal(z));
    lemma_replace_all_absent(template, "{x}"@, signed_decimal(x));
    lemma_replace_all_absent(template, "{y}"@, signed_decimal(y));
}

/// The label pattern of a `text-field`: a literal pattern is its own pattern,
/// `["get", p]` without an object is the token `{p}`, and anything else gives
/// the empty pattern.
pub proof fn lemma_pattern_of(text_field: Option<TextFieldValue>)
    ensures
        text_field matches Some(TextFieldValue::Literal(p)) ==> pattern_of(text_field) == p@,
        text_field matches Some(
            TextFieldValue::Expression(FieldExpression::Get { property, has_object: false }),
        ) ==> pattern_of(text_field) == seq!['{'] + property@ + seq!['}'],
        text_field matches Some(
            TextFieldValue::Expression(FieldExpression::Get { has_object: true, .. }),
        ) ==> pattern_of(text_field).len() == 0,
        (text_field is None || text_field == Some(TextFieldValue::Function) || text_field == Some(
            TextFieldValue::Expression(FieldExpression::Other),
        )) ==> pattern_of(text_field).len() == 0,
{
    reveal_strlit("{");
    reveal_strlit("}");
}

/// A fill layer gives a rule exactly when it names a source layer and its
/// colour could be expressed; the rule draws that source layer with that
/// colour, applies the layer's filter, and spans the resolutions from that at
/// the layer's `maxzoom` (smallest) to that at its `minzoom` (largest).
pub proof fn lemma_fill_rule<E, R>(fill: FillLayer, values: LayerValues<E, R>)
    requires
        values.paint is Fill,
    ensures
        (fill_rule_model(fill, values) is Some) <==> (fill.source_layer is Some
            && (values.paint matches PaintValues::Fill { color: Some(_) })),
        fill_rule_model(fill, values) matches Some(r) ==> {
            &&& r.layer_name == opt_string_chars(fill.source_layer)
            &&& r.min_resolution == values.resolution_at_maxzoom
            &&& r.max_resolution == values.resolution_at_minzoom
            &&& r.filter == values.filter
            &&& values.paint matches PaintValues::Fill { color: Some(c) } && r.symbol
                == RuleSymbolModel::Polygon { fill_color: c }
        },
{
}

/// A line layer gives a rule exactly when it names a source layer, whether or
/// not it has a dash pattern; the rule draws that source layer with the
/// layer's width, colour and dash pattern (or none), applies its filter, and
/// spans the resolutions from that at its `maxzoom` to that at its `minzoom`.
pub proof fn lemma_line_rule<E, R>(line: LineLayer, values: LayerValues<E, R>)
    requires
        values.paint is Line,
    ensures
        (line_rule_model(line, values) is Some) <==> line.source_layer is Some,
        line_rule_model(line, values) matches Some(r) ==> {
            &&& r.layer_name == opt_string_chars(line.source_layer)
            &&& r.min_resolution == values.resolution_at_maxzoom
            &&& r.max_resolution == values.resolution_at_minzoom
            &&& r.filter == values.filter
            &&& values.paint matches PaintValues::Line { color, width, dasharray } && r.symbol
                == RuleSymbolModel::Line { width, stroke_color: color, dasharray }
        },
{
}

/// A symbol layer gives a label rule exactly when it names a source layer, its
/// text colour, halo colour, text size and halo width could all be expressed,
/// and its labels are not placed along lines. The rule draws that source layer,
/// applies the layer's filter, spans the resolutions from that at its `maxzoom`
/// to that at its `minzoom`, carries a literal `text-field` as its pattern, and
/// puts each paint value in its place in the text style.
pub proof fn lemma_symbol_rule<E, R>(symbol: SymbolLayer, values: LayerValues<E, R>)
    requires
        values.paint is Symbol,
    ensures
        (symbol_rule_model(symbol, values) is Some) <==> (symbol.source_layer is Some
            && (values.paint matches PaintValues::Symbol {
            font_color: Some(_),
            outline_color: Some(_),
            font_size: Some(_),
            outline_width: Some(_),
        }) && symbol.layout.symbol_placement != Some(SymbolPlacement::Line)
            && symbol.layout.symbol_placement != Some(SymbolPlacement::LineCenter)),
        symbol_rule_model(symbol, values) matches Some(r) ==> {
            &&& r.layer_name == opt_string_chars(symbol.source_layer)
            &&& r.min_resolution == values.resolution_at_maxzoom
            &&& r.max_resolution == values.resolution_at_minzoom
            &&& r.filter == values.filter
            &&& values.paint matches PaintValues::Symbol {
                font_color: Some(fc),
                outline_color: Some(oc),
                font_size: Some(fs),
                outline_width: Some(ow),
            } && r.symbol matches RuleSymbolModel::Label { pattern, text_style }
                && text_style.font_color == fc && text_style.outline_color == oc
                && text_style.font_size == fs && text_style.outline_width == ow && (
            symbol.layout.text_field matches Some(TextFieldValue::Literal(p)) ==> pattern == p@)
                && pattern == pattern_of(symbol.layout.text_field) && text_style.font_family
                == families(strings_chars(symbol.layout.text_font@)) && text_style.weight
                == font_weight_of(strings_chars(symbol.layout.text_font@)) && text_style.style
                == font_style_of(strings_chars(symbol.layout.text_font@))
                && text_style.horizontal_alignment == horizontal_of(
                opt_string_chars(symbol.layout.text_anchor),
            ) && text_style.vertical_alignment == vertical_of(
                opt_string_chars(symbol.layout.text_anchor),
            )
        },
{
}

/// Appending a layer to the list appends its own rule, if it has one, to the
/// rules: the rule of a fill, line or symbol layer as that kind of layer gives
/// it, and nothing for any other kind of layer.
pub proof fn lemma_rules_push<E, R>(
    layers: Seq<Layer>,
    values: Seq<LayerValues<E, R>>,
    layer: Layer,
    value: LayerValues<E, R>,
)
    requires
        layers.len() == values.len(),
    ensures
        rules_model(layers.push(layer), values.push(value)) == match layer {
            Layer::Fill(f) => match fill_rule_model(f, value) {
                Some(r) => rules_model(layers, values).push(r),
                None => rules_model(layers, values),
            },
            Layer::Line(l) => match line_rule_model(*l, value) {
                Some(r) => rules_model(layers, values).push(r),
                None => rules_model(layers, values),
            },
            Layer::Symbol(s) => match symbol_rule_model(*s, value) {
                Some(r) => rules_model(layers, values).push(r),
                None => rules_model(layers, values),
            },
            _ => rules_model(layers, values),
        },
{
    assert(layers.push(layer).take(layers.len() as int) =~= layers);
    assert(values.push(value).take(values.len() as int) =~= values);
}

/// A list holding one symbol layer gives exactly that layer's label rule, when
/// the layer has one.
pub proof fn lemma_single_symbol_layer<E, R>(symbol: SymbolLayer, value: LayerValues<E, R>)
    ensures
        symbol_rule_model(symbol, value) matches Some(r) ==> rules_model(
            seq![Layer::Symbol(Box::new(symbol))],
            seq![value],
        ) == seq![r],
{
    lemma_rules_push(seq![], seq![], Layer::Symbol(Box::new(symbol)), value);
    assert(Seq::<Layer>::empty().push(Layer::Symbol(Box::new(symbol))) =~= seq![
        Layer::Symbol(Box::new(symbol)),
    ]);
    assert(Seq::<LayerValues<E, R>>::empty().push(value) =~= seq![value]);
    assert(rules_model(Seq::<Layer>::empty(), Seq::<LayerValues<E, R>>::empty()) =~= seq![]);
}

} // verus!
