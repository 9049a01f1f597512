use galileo_maplibre::style::layer::symbol::{SymbolLayer, SymbolLayout, SymbolPlacement};
use galileo_maplibre::style::layer::{
    BackgroundLayer, CircleLayer, ClipLayer, FillExtrusionLayer, FillLayer, HeatmapLayer,
    HillshadeLayer, Layer, LineLayer, RasterLayer, SkyLayer, SlotLayer,
};

fn src(name: &str) -> Option<String> {
    Some(name.to_string())
}

fn all_layers() -> Vec<Layer> {
    vec![
        Layer::Background(BackgroundLayer { id: "bg".into() }),
        Layer::Fill(FillLayer { id: "f".into(), source: src("s1"), source_layer: src("water") }),
        Layer::Line(Box::new(LineLayer { id: "l".into(), source: src("s2"), source_layer: None })),
        Layer::Symbol(Box::new(SymbolLayer {
            id: "sym".into(),
            source: src("s3"),
            source_layer: src("place"),
            layout: SymbolLayout {
                symbol_placement: Some(SymbolPlacement::Point),
                text_anchor: None,
                text_field: None,
                text_font: vec![],
            },
        })),
        Layer::Raster(RasterLayer { id: "r".into(), source: src("s4") }),
        Layer::Circle(CircleLayer { id: "c".into(), source: src("s5") }),
        Layer::FillExtrusion(FillExtrusionLayer { id: "fe".into(), source: src("s6") }),
        Layer::Heatmap(HeatmapLayer { id: "h".into(), source: None }),
        Layer::Hillshade(HillshadeLayer { id: "hs".into(), source: src("dem") }),
        Layer::Sky(SkyLayer { id: "sky".into() }),
        Layer::Slot(SlotLayer { id: "bottom".into() }),
        Layer::Clip(ClipLayer { id: "clip".into(), source: src("composite") }),
    ]
}

#[test]
fn layer_ids() {
    let layers = all_layers();
    let ids: Vec<&str> = layers.iter().map(|l| l.id()).collect();
    assert_eq!(ids, vec!["bg", "f", "l", "sym", "r", "c", "fe", "h", "hs", "sky", "bottom", "clip"]);
}

#[test]
fn layer_sources() {
    let layers = all_layers();
    let sources: Vec<Option<&str>> = layers.iter().map(|l| l.source()).collect();
    assert_eq!(
        sources,
        vec![
            None,
            Some("s1"),
            Some("s2"),
            Some("s3"),
            Some("s4"),
            Some("s5"),
            Some("s6"),
            None,
            Some("dem"),
            None,
            None,
            Some("composite"),
        ]
    );
}

#[test]
fn layer_type_names_are_the_style_spec_names() {
    let layers = all_layers();
    let names: Vec<&str> = layers.iter().map(|l| l.layer_type()).collect();
    assert_eq!(
        names,
        vec![
            "background",
            "fill",
            "line",
            "symbol",
            "raster",
            "circle",
            "fill-extrusion",
            "heatmap",
            "hillshade",
            "sky",
            "slot",
            "clip",
        ]
    );
}

#[test]
fn type_name_tells_the_layer_type() {
    let layers = all_layers();
    for (i, a) in layers.iter().enumerate() {
        for (j, b) in layers.iter().enumerate() {
            assert_eq!(a.layer_type() == b.layer_type(), i == j);
        }
    }
}
