//! Style layer definitions.
//!
//! Each MapLibre layer type has its own struct here; [`Layer`] is one of them.
//! The structs hold the properties that vector-tile styling reads.
use vstd::prelude::*;

pub mod symbol;

use self::symbol::SymbolLayer;

verus! {

broadcast use vstd::string::group_string_axioms;

/// A `background` layer.
#[derive(Debug, Clone, PartialEq)]
pub struct BackgroundLayer {
    /// Unique layer identifier.
    pub id: String,
}

/// A `fill` layer: filled polygons.
#[derive(Debug, Clone, PartialEq)]
pub struct FillLayer {
    /// Unique layer identifier.
    pub id: String,
    /// Source to use for this layer.
    pub source: Option<String>,
    /// Layer within the source to use.
    pub source_layer: Option<String>,
}

/// A `line` layer: stroked lines.
#[derive(Debug, Clone, PartialEq)]
pub struct LineLayer {
    /// Unique layer identifier.
    pub id: String,
    /// Source to use for this layer.
    pub source: Option<String>,
    /// Layer within the source to use.
    pub source_layer: Option<String>,
}

/// A `raster` layer.
#[derive(Debug, Clone, PartialEq)]
pub struct RasterLayer {
    /// Unique layer identifier.
    pub id: String,
    /// Source to use for this layer.
    pub source: Option<String>,
}

/// A `circle` layer.
#[derive(Debug, Clone, PartialEq)]
pub struct CircleLayer {
    /// Unique layer identifier.
    pub id: String,
    /// Source to use for this layer.
    pub source: Option<String>,
}

/// A `fill-extrusion` layer.
#[derive(Debug, Clone, PartialEq)]
pub struct FillExtrusionLayer {
    /// Unique layer identifier.
    pub id: String,
    /// Source to use for this layer.
    pub source: Option<String>,
}

/// A `heatmap` layer.
#[derive(Debug, Clone, PartialEq)]
pub struct HeatmapLayer {
    /// Unique layer identifier.
    pub id: String,
    /// Source to use for this layer.
    pub source: Option<String>,
}

/// A `hillshade` layer.
#[derive(Debug, Clone, PartialEq)]
pub struct HillshadeLayer {
    /// Unique layer identifier.
    pub id: String,
    /// Source to use for this layer.
    pub source: Option<String>,
}

/// A `sky` layer.
#[derive(Debug, Clone, PartialEq)]
pub struct SkyLayer {
    /// Unique layer identifier.
    pub id: String,
}

/// A `slot` layer: an insertion point for imported styles.
#[derive(Debug, Clone, PartialEq)]
pub struct SlotLayer {
    /// Unique layer identifier.
    pub id: String,
}

/// A `clip` layer: a clipping mask.
#[derive(Debug, Clone, PartialEq)]
pub struct ClipLayer {
    /// Unique layer identifier.
    pub id: String,
    /// Source to use for this layer.
    pub source: Option<String>,
}

/// A map layer — one of the supported rendering layer types.
#[derive(Debug, Clone, PartialEq)]
pub enum Layer {
    /// A background fill layer.
    Background(BackgroundLayer),
    /// A filled polygon layer.
    Fill(FillLayer),
    /// A stroked line layer.
    Line(Box<LineLayer>),
    /// An icon / text label layer.
    Symbol(Box<SymbolLayer>),
    /// A raster tile layer.
    Raster(RasterLayer),
    /// A circle layer.
    Circle(CircleLayer),
    /// An extruded polygon (3D) layer.
    FillExtrusion(FillExtrusionLayer),
    /// A heatmap layer.
    Heatmap(HeatmapLayer),
    /// A client-side hillshade layer.
    Hillshade(HillshadeLayer),
    /// A sky / atmosphere dome layer.
    Sky(SkyLayer),
    /// An insertion-point layer for imported styles.
    Slot(SlotLayer),
    /// A clipping mask layer.
    Clip(ClipLayer),
}

/// The characters of an optional string.
pub open spec fn opt_chars(o: Option<&str>) -> Option<Seq<char>> {
    match o {
        Some(s) => Some(s@),
        None => None,
    }
}

/// The characters of an optional owned string.
pub open spec fn opt_string_chars(o: Option<String>) -> Option<Seq<char>> {
    match o {
        Some(s) => Some(s@),
        None => None,
    }
}

/// The position of a layer's type among the layer types.
pub open spec fn kind_index(layer: Layer) -> int {
    match layer {
        Layer::Background(_) => 0,
        Layer::Fill(_) => 1,
        Layer::Line(_) => 2,
        Layer::Symbol(_) => 3,
        Layer::Raster(_) => 4,
        Layer::Circle(_) => 5,
        Layer::FillExtrusion(_) => 6,
        Layer::Heatmap(_) => 7,
        Layer::Hillshade(_) => 8,
        Layer::Sky(_) => 9,
        Layer::Slot(_) => 10,
        Layer::Clip(_) => 11,
    }
}

/// The type name of a layer tells its type: two layers with the same type
/// name are of the same type.
pub proof fn lemma_type_name_tells_type(a: Layer, b: Layer)
    requires
        a.layer_type_name() == b.layer_type_name(),
    ensures
        kind_index(a) == kind_index(b),
{
    reveal_strlit("background");
    reveal_strlit("fill");
    reveal_strlit("line");
    reveal_strlit("symbol");
    reveal_strlit("raster");
    reveal_strlit("circle");
    reveal_strlit("fill-extrusion");
    reveal_strlit("heatmap");
    reveal_strlit("hillshade");
    reveal_strlit("sky");
    reveal_strlit("slot");
    reveal_strlit("clip");
    let n = a.layer_type_name();
    if kind_index(a) != kind_index(b) {
        assert(n[0] == b.layer_type_name()[0]);
        assert(n.len() == b.layer_type_name().len());
        if n.len() > 1 {
            assert(n[1] == b.layer_type_name()[1]);
        }
    }
}

impl Layer {
    /// The identifier of the layer.
    pub open spec fn layer_id(&self) -> Seq<char> {
        match self {
            Layer::Background(l) => l.id@,
            Layer::Fill(l) => l.id@,
            Layer::Line(l) => l.id@,
            Layer::Symbol(l) => l.id@,
            Layer::Raster(l) => l.id@,
            Layer::Circle(l) => l.id@,
            Layer::FillExtrusion(l) => l.id@,
            Layer::Heatmap(l) => l.id@,
            Layer::Hillshade(l) => l.id@,
            Layer::Sky(l) => l.id@,
            Layer::Slot(l) => l.id@,
            Layer::Clip(l) => l.id@,
        }
    }

    /// The source the layer draws from: none for the background, sky and slot
    /// layers, which take no source.
    pub open spec fn layer_source(&self) -> Option<Seq<char>> {
        match self {
            Layer::Background(_) | Layer::Sky(_) | Layer::Slot(_) => None,
            Layer::Fill(l) => opt_string_chars(l.source),
            Layer::Line(l) => opt_string_chars(l.source),
            Layer::Symbol(l) => opt_string_chars(l.source),
            Layer::Raster(l) => opt_string_chars(l.source),
            Layer::Circle(l) => opt_string_chars(l.source),
            Layer::FillExtrusion(l) => opt_string_chars(l.source),
            Layer::Heatmap(l) => opt_string_chars(l.source),
            Layer::Hillshade(l) => opt_string_chars(l.source),
            Layer::Clip(l) => opt_string_chars(l.source),
        }
    }

    /// The layer type name as it appears in the `type` property of the style.
    pub open spec fn layer_type_name(&self) -> Seq<char> {
        match self {
            Layer::Background(_) => "background"@,
            Layer::Fill(_) => "fill"@,
            Layer::Line(_) => "line"@,
            Layer::Symbol(_) => "symbol"@,
            Layer::Raster(_) => "raster"@,
            Layer::Circle(_) => "circle"@,
            Layer::FillExtrusion(_) => "fill-extrusion"@,
            Layer::Heatmap(_) => "heatmap"@,
            Layer::Hillshade(_) => "hillshade"@,
            Layer::Sky(_) => "sky"@,
            Layer::Slot(_) => "slot"@,
            Layer::Clip(_) => "clip"@,
        }
    }

    /// The layer's unique identifier.
    pub fn id(&self) -> (id: &str)
        ensures
            id@ == self.layer_id(),
    {
        match self {
            Layer::Background(l) => l.id.as_str(),
            Layer::Fill(l) => l.id.as_str(),
            Layer::Line(l) => l.id.as_str(),
            Layer::Symbol(l) => l.id.as_str(),
            Layer::Raster(l) => l.id.as_str(),
            Layer::Circle(l) => l.id.as_str(),
            Layer::FillExtrusion(l) => l.id.as_str(),
            Layer::Heatmap(l) => l.id.as_str(),
            Layer::Hillshade(l) => l.id.as_str(),
            Layer::Sky(l) => l.id.as_str(),
            Layer::Slot(l) => l.id.as_str(),
            Layer::Clip(l) => l.id.as_str(),
        }
    }

    /// The name of the source this layer draws from, if any.
    pub fn source(&self) -> (source: Option<&str>)
        ensures
            opt_chars(source) == self.layer_source(),
    {
        let s: &Option<String> = match self {
            Layer::Background(_) | Layer::Sky(_) | Layer::Slot(_) => {
                return None;
            },
            Layer::Fill(l) => &l.source,
            Layer::Line(l) => &l.source,
            Layer::Symbol(l) => &l.source,
            Layer::Raster(l) => &l.source,
            Layer::Circle(l) => &l.source,
            Layer::FillExtrusion(l) => &l.source,
            Layer::Heatmap(l) => &l.source,
            Layer::Hillshade(l) => &l.source,
            Layer::Clip(l) => &l.source,
        };
        match s {
            Some(name) => Some(name.as_str()),
            None => None,
        }
    }

    /// The MapLibre layer type name as it appears in the style spec (e.g. `"fill"`, `"line"`).
    pub fn layer_type(&self) -> (name: &'static str)
        ensures
            name@ == self.layer_type_name(),
    {
        match self {
            Layer::Background(_) => "background",
            Layer::Fill(_) => "fill",
            Layer::Line(_) => "line",
            Layer::Symbol(_) => "symbol",
            Layer::Raster(_) => "raster",
            Layer::Circle(_) => "circle",
            Layer::FillExtrusion(_) => "fill-extrusion",
            Layer::Heatmap(_) => "heatmap",
            Layer::Hillshade(_) => "hillshade",
            Layer::Sky(_) => "sky",
            Layer::Slot(_) => "slot",
            Layer::Clip(_) => "clip",
        }
    }
}

} // verus!
