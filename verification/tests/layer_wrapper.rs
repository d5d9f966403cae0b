use tile_geometry::geometry::Command;
use tile_geometry::layer_wrapper::{
    layer_type_from_name, Feature, FeatureWrapper, GeomType, Layer, LayerType, LayerWrapper,
};

#[test]
fn known_layer_names_are_recognized() {
    let cases = vec![
        ("waterway", LayerType::Waterway),
        ("water", LayerType::Water),
        ("water_name", LayerType::WaterName),
        ("building", LayerType::Building),
        ("landuse", LayerType::Landuse),
        ("boundary", LayerType::Boundary),
        ("transportation", LayerType::Transportation),
        ("transportation_name", LayerType::TransportationName),
        ("place", LayerType::Place),
        ("housenumber", LayerType::Housenumber),
        ("poi", LayerType::Poi),
        ("landcover", LayerType::Landcover),
    ];
    for (name, expected) in cases.into_iter() {
        assert_eq!(layer_type_from_name(&String::from(name)), Some(expected));
    }
    assert_eq!(layer_type_from_name(&String::from("mountain")), None);
    assert_eq!(layer_type_from_name(&String::from("")), None);
}

#[test]
fn feature_wrapper_decodes_its_geometry() {
    let feature = Feature { geom_type: GeomType::Linestring, geometry: vec![9, 4, 4] };
    let wrapper = FeatureWrapper::new(feature);
    assert_eq!(wrapper.ftype(), GeomType::Linestring);
    let geometry = wrapper.geometry();
    assert_eq!(geometry.operations.len(), 1);
    assert_eq!(geometry.operations[0].command, Command::MoveTo);
    assert_eq!(
        geometry.operations[0].params.iter().map(|p| p.raw_value).collect::<Vec<_>>(),
        vec![2, 2]
    );
}

#[test]
fn layer_wrapper_categorizes_and_decodes() {
    let layer = Layer {
        name: String::from("building"),
        features: vec![
            Feature { geom_type: GeomType::Polygon, geometry: vec![9, 4, 4, 15] },
            Feature { geom_type: GeomType::Point, geometry: vec![9, 2, 3] },
        ],
    };
    let wrapper = LayerWrapper::new(layer);
    assert_eq!(wrapper.layer_type(), LayerType::Building);
    assert_eq!(wrapper.features.len(), 2);
    assert_eq!(wrapper.features[0].ftype(), GeomType::Polygon);
    assert_eq!(wrapper.features[0].geometry().operations.len(), 2);
    assert_eq!(
        wrapper.features[0].geometry().operations[1].command,
        Command::ClosePath
    );
    assert_eq!(wrapper.features[1].ftype(), GeomType::Point);
    assert_eq!(
        wrapper.features[1].geometry().operations[0]
            .params
            .iter()
            .map(|p| p.raw_value)
            .collect::<Vec<_>>(),
        vec![1, -2]
    );
}
