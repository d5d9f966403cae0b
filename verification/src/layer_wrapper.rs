//! Wrappers around one tile layer and its features. The enclosing tile
//! container format is deserialized by an external collaborator; this module
//! works on plain values already pulled out of it: a layer's name and, per
//! feature, its geometry kind and raw geometry integers.

use crate::geometry::{spec_parse_geometry, Geometry};
use vstd::prelude::*;

verus! {

/// The kind of geometry a feature carries, as the tile container declares
/// it.
#[derive(Debug, PartialEq, Eq, Hash, Clone, Copy)]
pub enum GeomType {
    Unknown,
    Point,
    Linestring,
    Polygon,
}

/// One feature of a layer, reduced to the values the decoder reads: its
/// declared geometry kind and its raw geometry integer stream.
pub struct Feature {
    pub geom_type: GeomType,
    pub geometry: Vec<u32>,
}

impl Clone for Feature {
    fn clone(&self) -> (r: Self)
        ensures
            r.geom_type == self.geom_type,
            r.geometry@ == self.geometry@,
    {
        let geometry = self.geometry.clone();
        proof {
            assert(geometry@ =~= self.geometry@);
        }
        Feature { geom_type: self.geom_type, geometry }
    }
}

/// One layer of a tile, reduced to the values read here: its name and its
/// features.
pub struct Layer {
    pub name: String,
    pub features: Vec<Feature>,
}

/// The category a layer belongs to, recognized by its name.
#[derive(PartialEq, Eq, PartialOrd, Ord, Clone, Copy, Debug)]
pub enum LayerType {
    Building,
    Boundary,
    Waterway,
    WaterName,
    Water,
    Transportation,
    TransportationName,
    Place,
    Housenumber,
    Poi,
    Landcover,
    Landuse,
}

/// The category a layer name denotes, if it is a known name.
pub open spec fn spec_layer_type_of_name(name: Seq<char>) -> Option<LayerType> {
    if name == "waterway"@ {
        Some(LayerType::Waterway)
    } else if name == "water"@ {
        Some(LayerType::Water)
    } else if name == "water_name"@ {
        Some(LayerType::WaterName)
    } else if name == "building"@ {
        Some(LayerType::Building)
    } else if name == "landuse"@ {
        Some(LayerType::Landuse)
    } else if name == "boundary"@ {
        Some(LayerType::Boundary)
    } else if name == "transportation"@ {
        Some(LayerType::Transportation)
    } else if name == "transportation_name"@ {
        Some(LayerType::TransportationName)
    } else if name == "place"@ {
        Some(LayerType::Place)
    } else if name == "housenumber"@ {
        Some(LayerType::Housenumber)
    } else if name == "poi"@ {
        Some(LayerType::Poi)
    } else if name == "landcover"@ {
        Some(LayerType::Landcover)
    } else {
        None
    }
}

/// Whether a string equals a given literal.
fn name_is(name: &String, lit: &str) -> (r: bool)
    ensures
        r == (name@ == lit@),
{
    *name == lit.to_owned()
}

/// Executable counterpart of `spec_layer_type_of_name`: the category a
/// layer name denotes, or `None` for an unknown name.
pub fn layer_type_from_name(name: &String) -> (r: Option<LayerType>)
    ensures
        r == spec_layer_type_of_name(name@),
{
    if name_is(name, "waterway") {
        Some(LayerType::Waterway)
    } else if name_is(name, "water") {
        Some(LayerType::Water)
    } else if name_is(name, "water_name") {
        Some(LayerType::WaterName)
    } else if name_is(name, "building") {
        Some(LayerType::Building)
    } else if name_is(name, "landuse") {
        Some(LayerType::Landuse)
    } else if name_is(name, "boundary") {
        Some(LayerType::Boundary)
    } else if name_is(name, "transportation") {
        Some(LayerType::Transportation)
    } else if name_is(name, "transportation_name") {
        Some(LayerType::TransportationName)
    } else if name_is(name, "place") {
        Some(LayerType::Place)
    } else if name_is(name, "housenumber") {
        Some(LayerType::Housenumber)
    } else if name_is(name, "poi") {
        Some(LayerType::Poi)
    } else if name_is(name, "landcover") {
        Some(LayerType::Landcover)
    } else {
        None
    }
}

/// A feature together with its decoded geometry.
pub struct FeatureWrapper {
    geometry: Geometry,
    feature: Feature,
}

impl FeatureWrapper {
    /// The declared geometry kind of the wrapped feature.
    pub closed spec fn spec_ftype(&self) -> GeomType {
        self.feature.geom_type
    }

    /// The decoded geometry of the wrapped feature.
    pub closed spec fn spec_geometry(&self) -> Geometry {
        self.geometry
    }

    /// Wrap a feature, decoding its raw geometry stream. The stream must
    /// parse: a caller holding an arbitrary feature checks it first with
    /// `Geometry::try_from`.
    pub fn new(feature: Feature) -> (r: FeatureWrapper)
        requires
            spec_parse_geometry(feature.geometry@, false) is Ok,
        ensures
            r.spec_ftype() == feature.geom_type,
            r.spec_geometry()@ == spec_parse_geometry(feature.geometry@, false)->Ok_0,
    {
        let geometry = match Geometry::try_from(&feature.geometry) {
            Ok(g) => g,
            Err(_) => {
                proof {
                    assert(false);
                }
                vstd::pervasive::unreached()
            },
        };
        FeatureWrapper { geometry, feature }
    }

    /// The declared geometry kind.
    pub fn ftype(&self) -> (r: GeomType)
        ensures
            r == self.spec_ftype(),
    {
        self.feature.geom_type
    }

    /// The decoded geometry.
    pub fn geometry(&self) -> (r: &Geometry)
        ensures
            *r == self.spec_geometry(),
    {
        &self.geometry
    }
}

/// A layer categorized by its name, with all its features wrapped and
/// their geometries decoded.
pub struct LayerWrapper {
    layer_type: LayerType,
    pub features: Vec<FeatureWrapper>,
}

impl LayerWrapper {
    /// The category this layer was recognized as.
    pub closed spec fn spec_layer_type(&self) -> LayerType {
        self.layer_type
    }

    /// The wrapped features, for contracts.
    pub closed spec fn spec_features(&self) -> Seq<FeatureWrapper> {
        self.features@
    }

    /// Wrap a layer: recognize its category from its name and decode every
    /// feature's geometry. The name must be a known one and every geometry
    /// stream must parse; a caller holding an arbitrary layer checks both
    /// first, with `layer_type_from_name` and `Geometry::try_from`.
    #[verifier::loop_isolation(false)]
    pub fn new(layer: Layer) -> (r: LayerWrapper)
        requires
            spec_layer_type_of_name(layer.name@) is Some,
            forall|j: int|
                0 <= j < layer.features@.len() ==> spec_parse_geometry(
                    layer.features@[j].geometry@,
                    false,
                ) is Ok,
        ensures
            r.spec_layer_type() == spec_layer_type_of_name(layer.name@)->Some_0,
            r.spec_features().len() == layer.features@.len(),
            forall|j: int|
                0 <= j < layer.features@.len() ==> (#[trigger] r.spec_features()[j].spec_ftype()
                    == layer.features@[j].geom_type && r.spec_features()[j].spec_geometry()@
                    == spec_parse_geometry(layer.features@[j].geometry@, false)->Ok_0),
    {
        let mut features: Vec<FeatureWrapper> = Vec::new();
        let mut idx: usize = 0;
        while idx < layer.features.len()
            invariant
                idx <= layer.features@.len(),
                features@.len() == idx,
                forall|j: int|
                    0 <= j < idx ==> (#[trigger] features@[j].spec_ftype()
                        == layer.features@[j].geom_type && features@[j].spec_geometry()@
                        == spec_parse_geometry(layer.features@[j].geometry@, false)->Ok_0),
            decreases layer.features@.len() - idx,
        {
            let f = layer.features[idx].clone();
            features.push(FeatureWrapper::new(f));
            idx += 1;
        }
        let layer_type = match layer_type_from_name(&layer.name) {
            Some(t) => t,
            None => {
                proof {
                    assert(false);
                }
                vstd::pervasive::unreached()
            },
        };
        LayerWrapper { layer_type, features }
    }

    /// The category this layer was recognized as.
    pub fn layer_type(&self) -> (r: LayerType)
        ensures
            r == self.spec_layer_type(),
    {
        self.layer_type
    }
}

} // verus!
