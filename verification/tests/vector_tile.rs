use galileo_maplibre::layer::fonts::{FontStyle, FontWeight};
use galileo_maplibre::layer::vector_tile::{
    background_layer, build_rules, fill_rule, horizontal_alignment, interpolation_input,
    line_rule, symbol_rule, text_field_pattern, tile_url, usable_tile_urls, vertical_alignment,
    y_direction, FunctionType, HorizontalAlignment, InterpolationInput, LayerValues, PaintValues,
    RuleSymbol, StyleRule, TextStyle, TileScheme, VerticalAlignment, VerticalDirection,
};
use galileo_maplibre::style::layer::symbol::{
    FieldExpression, SymbolLayer, SymbolLayout, SymbolPlacement, TextFieldValue,
};
use galileo_maplibre::style::layer::{
    BackgroundLayer, CircleLayer, FillLayer, Layer, LineLayer, SkyLayer,
};

type Values = LayerValues<&'static str, f64>;

fn values(paint: PaintValues<&'static str>) -> Values {
    LayerValues {
        resolution_at_minzoom: Some(1000.0),
        resolution_at_maxzoom: Some(10.0),
        filter: Some("filter"),
        paint,
    }
}

fn symbol_paint() -> PaintValues<&'static str> {
    PaintValues::Symbol {
        font_color: Some("text-color"),
        outline_color: Some("halo-color"),
        font_size: Some("text-size"),
        outline_width: Some("halo-width"),
    }
}

fn symbol_layer(
    source_layer: Option<&str>,
    placement: Option<SymbolPlacement>,
    text_field: Option<TextFieldValue>,
) -> SymbolLayer {
    SymbolLayer {
        id: "labels".to_string(),
        source: Some("src".to_string()),
        source_layer: source_layer.map(|s| s.to_string()),
        layout: SymbolLayout {
            symbol_placement: placement,
            text_anchor: Some("top-left".to_string()),
            text_field,
            text_font: vec!["Open Sans Bold Italic".to_string(), "Arial Regular".to_string()],
        },
    }
}

fn fill_layer(id: &str, source_layer: Option<&str>) -> FillLayer {
    FillLayer {
        id: id.to_string(),
        source: Some("src".to_string()),
        source_layer: source_layer.map(|s| s.to_string()),
    }
}

fn line_layer(id: &str, source_layer: Option<&str>) -> LineLayer {
    LineLayer {
        id: id.to_string(),
        source: Some("src".to_string()),
        source_layer: source_layer.map(|s| s.to_string()),
    }
}

fn polygon_rule(layer: &str, color: &'static str) -> StyleRule<&'static str, f64> {
    StyleRule {
        layer_name: Some(layer.to_string()),
        symbol: RuleSymbol::Polygon { fill_color: color },
        min_resolution: Some(10.0),
        max_resolution: Some(1000.0),
        filter: Some("filter"),
    }
}

#[test]
fn tile_urls_pick_a_mirror_by_x_plus_y() {
    let urls = vec![
        "https://a.example/{z}/{x}/{y}.pbf".to_string(),
        "https://b.example/{z}/{x}/{y}.pbf".to_string(),
    ];
    assert_eq!(tile_url(&urls, 3, 5, 4), "https://a.example/4/3/5.pbf");
    assert_eq!(tile_url(&urls, 3, 4, 4), "https://b.example/4/3/4.pbf");
    // The same diagonal x + y is served by the same mirror.
    assert_eq!(tile_url(&urls, 4, 3, 4), "https://b.example/4/4/3.pbf");
}

#[test]
fn negative_coordinates_use_the_euclidean_remainder() {
    let urls = vec!["a/{x}".to_string(), "b/{x}".to_string(), "c/{x}".to_string()];
    // (-3 + 1).rem_euclid(3) == 1
    assert_eq!(tile_url(&urls, -3, 1, 0), "b/-3");
    assert_eq!(tile_url(&urls, -1, -2, 0), "a/-1");
}

#[test]
fn every_placeholder_is_replaced() {
    let urls = vec!["{z}-{x}-{y}/{z}{z}?x={x}".to_string()];
    assert_eq!(tile_url(&urls, 12, 7, 3), "3-12-7/33?x=12");
}

#[test]
fn a_url_without_placeholders_serves_every_tile() {
    let urls = vec!["https://example/static.pbf".to_string()];
    assert_eq!(tile_url(&urls, 1, 2, 3), "https://example/static.pbf");
    assert_eq!(tile_url(&urls, -9, 0, 11), "https://example/static.pbf");
}

#[test]
fn sources_without_tile_urls_are_unusable() {
    assert_eq!(usable_tile_urls(None), None);
    assert_eq!(usable_tile_urls(Some(vec![])), None);
    let urls = vec!["u".to_string()];
    assert_eq!(usable_tile_urls(Some(urls.clone())), Some(urls));
}

#[test]
fn tile_scheme_sets_the_row_direction() {
    assert_eq!(y_direction(TileScheme::Xyz), VerticalDirection::TopToBottom);
    assert_eq!(y_direction(TileScheme::Tms), VerticalDirection::BottomToTop);
}

#[test]
fn text_anchor_alignment() {
    let cases = [
        (Some("left"), HorizontalAlignment::Left, VerticalAlignment::Middle),
        (Some("right"), HorizontalAlignment::Right, VerticalAlignment::Middle),
        (Some("top"), HorizontalAlignment::Center, VerticalAlignment::Top),
        (Some("bottom"), HorizontalAlignment::Center, VerticalAlignment::Bottom),
        (Some("top-left"), HorizontalAlignment::Left, VerticalAlignment::Top),
        (Some("top-right"), HorizontalAlignment::Right, VerticalAlignment::Top),
        (Some("bottom-left"), HorizontalAlignment::Left, VerticalAlignment::Bottom),
        (Some("bottom-right"), HorizontalAlignment::Right, VerticalAlignment::Bottom),
        (Some("center"), HorizontalAlignment::Center, VerticalAlignment::Middle),
        (Some("sideways"), HorizontalAlignment::Center, VerticalAlignment::Middle),
        (None, HorizontalAlignment::Center, VerticalAlignment::Middle),
    ];
    for (anchor, h, v) in cases {
        let anchor = anchor.map(|a| a.to_string());
        assert_eq!(horizontal_alignment(&anchor), h, "{anchor:?}");
        assert_eq!(vertical_alignment(&anchor), v, "{anchor:?}");
    }
}

#[test]
fn text_field_patterns() {
    let pattern = |field: Option<TextFieldValue>| text_field_pattern(&symbol_layer(Some("p"), None, field));
    assert_eq!(pattern(None), "");
    assert_eq!(pattern(Some(TextFieldValue::Literal("{name}".into()))), "{name}");
    assert_eq!(
        pattern(Some(TextFieldValue::Expression(FieldExpression::Get {
            property: "name".into(),
            has_object: false,
        }))),
        "{name}"
    );
    assert_eq!(
        pattern(Some(TextFieldValue::Expression(FieldExpression::Get {
            property: "name".into(),
            has_object: true,
        }))),
        ""
    );
    assert_eq!(pattern(Some(TextFieldValue::Expression(FieldExpression::Other))), "");
    assert_eq!(pattern(Some(TextFieldValue::Function)), "");
}

#[test]
fn get_expression_and_token_give_the_same_pattern() {
    let get = symbol_layer(
        Some("p"),
        None,
        Some(TextFieldValue::Expression(FieldExpression::Get {
            property: "NAME".into(),
            has_object: false,
        })),
    );
    let token = symbol_layer(Some("p"), None, Some(TextFieldValue::Literal("{NAME}".into())));
    assert_eq!(text_field_pattern(&get), text_field_pattern(&token));
}

#[test]
fn fill_rules() {
    let rule = fill_rule(&fill_layer("f", Some("water")), values(PaintValues::Fill { color: Some("blue") }));
    assert_eq!(rule, Some(polygon_rule("water", "blue")));
    assert_eq!(
        fill_rule(&fill_layer("f", None), values(PaintValues::Fill { color: Some("blue") })),
        None
    );
    assert_eq!(fill_rule(&fill_layer("f", Some("water")), values(PaintValues::Fill { color: None })), None);
}

#[test]
fn line_rules() {
    let paint = || PaintValues::Line { color: "red", width: "2", dasharray: Some("dash") };
    let rule = line_rule(&line_layer("l", Some("roads")), values(paint()));
    assert_eq!(
        rule,
        Some(StyleRule {
            layer_name: Some("roads".to_string()),
            symbol: RuleSymbol::Line { width: "2", stroke_color: "red", dasharray: Some("dash") },
            min_resolution: Some(10.0),
            max_resolution: Some(1000.0),
            filter: Some("filter"),
        })
    );
    assert_eq!(line_rule(&line_layer("l", None), values(paint())), None);
}

#[test]
fn symbol_rules() {
    let field = Some(TextFieldValue::Literal("{name}".into()));
    let rule = symbol_rule(&symbol_layer(Some("place"), None, field.clone()), values(symbol_paint()));
    assert_eq!(
        rule,
        Some(StyleRule {
            layer_name: Some("place".to_string()),
            symbol: RuleSymbol::Label {
                pattern: "{name}".to_string(),
                text_style: TextStyle {
                    font_family: vec!["Open Sans".to_string(), "Arial".to_string()],
                    font_size: "text-size",
                    font_color: "text-color",
                    horizontal_alignment: HorizontalAlignment::Left,
                    vertical_alignment: VerticalAlignment::Top,
                    weight: FontWeight::Bold,
                    style: FontStyle::Italic,
                    outline_width: "halo-width",
                    outline_color: "halo-color",
                },
            },
            min_resolution: Some(10.0),
            max_resolution: Some(1000.0),
            filter: Some("filter"),
        })
    );
    let point = symbol_rule(
        &symbol_layer(Some("place"), Some(SymbolPlacement::Point), field.clone()),
        values(symbol_paint()),
    );
    assert_eq!(point, rule);
}

#[test]
fn labels_along_lines_are_skipped() {
    for placement in [SymbolPlacement::Line, SymbolPlacement::LineCenter] {
        let rule = symbol_rule(&symbol_layer(Some("road"), Some(placement), None), values(symbol_paint()));
        assert_eq!(rule, None);
    }
}

#[test]
fn symbol_layers_without_source_layer_or_colours_are_skipped() {
    assert_eq!(symbol_rule(&symbol_layer(None, None, None), values(symbol_paint())), None);
    let missing = PaintValues::Symbol {
        font_color: Some("c"),
        outline_color: None,
        font_size: Some("s"),
        outline_width: Some("w"),
    };
    assert_eq!(symbol_rule(&symbol_layer(Some("p"), None, None), values(missing)), None);
}

#[test]
fn unsupported_text_field_keeps_the_layer() {
    let rule = symbol_rule(
        &symbol_layer(Some("p"), None, Some(TextFieldValue::Function)),
        values(symbol_paint()),
    );
    match rule {
        Some(StyleRule { symbol: RuleSymbol::Label { pattern, .. }, .. }) => assert_eq!(pattern, ""),
        other => panic!("expected a label rule, got {other:?}"),
    }
}

fn mixed_layers() -> (Vec<Layer>, Vec<Values>) {
    let layers = vec![
        Layer::Background(BackgroundLayer { id: "bg".into() }),
        Layer::Fill(fill_layer("meadow", Some("landcover"))),
        Layer::Circle(CircleLayer { id: "c".into(), source: None }),
        Layer::Line(Box::new(line_layer("road", None))),
        Layer::Symbol(Box::new(symbol_layer(Some("place"), Some(SymbolPlacement::Line), None))),
        Layer::Fill(fill_layer("water", Some("water"))),
        Layer::Sky(SkyLayer { id: "sky".into() }),
    ];
    let vals = vec![
        values(PaintValues::Unused),
        values(PaintValues::Fill { color: Some("green") }),
        values(PaintValues::Unused),
        values(PaintValues::Line { color: "white", width: "1", dasharray: None }),
        values(symbol_paint()),
        values(PaintValues::Fill { color: Some("blue") }),
        values(PaintValues::Unused),
    ];
    (layers, vals)
}

#[test]
fn rules_follow_the_layer_order_and_skip_undrawn_layers() {
    let (layers, vals) = mixed_layers();
    let rules = build_rules(&layers, vals);
    assert_eq!(rules, vec![polygon_rule("landcover", "green"), polygon_rule("water", "blue")]);
}

#[test]
fn rules_of_concatenated_layers_are_concatenated_rules() {
    let (layers, vals) = mixed_layers();
    let (l2, v2) = mixed_layers();
    let mut all_layers = layers.clone();
    all_layers.extend(l2.clone());
    let mut all_values = vals;
    all_values.extend(v2);
    let rules = build_rules(&all_layers, all_values);
    let (l, v) = mixed_layers();
    let mut expected = build_rules(&l, v);
    let (l, v) = mixed_layers();
    expected.extend(build_rules(&l, v));
    assert_eq!(rules, expected);
    assert!(rules.len() <= all_layers.len());
}

#[test]
fn layers_not_drawn_by_rules_give_none() {
    let layers = vec![
        Layer::Background(BackgroundLayer { id: "bg".into() }),
        Layer::Sky(SkyLayer { id: "sky".into() }),
    ];
    let rules = build_rules(&layers, vec![values(PaintValues::Unused), values(PaintValues::Unused)]);
    assert!(rules.is_empty());
}

#[test]
fn the_background_is_the_first_background_layer() {
    let bg = |id: &str| Layer::Background(BackgroundLayer { id: id.into() });
    let sky = || Layer::Sky(SkyLayer { id: "sky".into() });
    assert_eq!(background_layer(&[]), None);
    assert_eq!(background_layer(&[sky(), sky()]), None);
    assert_eq!(background_layer(&[bg("a"), sky(), bg("b")]), Some(0));
    assert_eq!(background_layer(&[sky(), bg("a"), bg("b")]), Some(1));
}

#[test]
fn legacy_function_inputs() {
    assert_eq!(interpolation_input(None, &None), Some(InterpolationInput::Zoom));
    assert_eq!(
        interpolation_input(Some(FunctionType::Exponential), &Some("pop".to_string())),
        Some(InterpolationInput::Property("pop".to_string()))
    );
    for unsupported in [FunctionType::Identity, FunctionType::Interval, FunctionType::Categorical] {
        assert_eq!(interpolation_input(Some(unsupported), &None), None);
    }
}
