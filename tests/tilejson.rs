use std::collections::HashMap;
use tilejson::{Bounds, Center, Coord, TileJSON, VectorLayer};

fn c(x: f64) -> Coord {
    Coord::from_bits(x.to_bits())
}

fn source() -> Vec<String> {
    vec!["http://localhost:8888/foo/{z}/{x}/{y}.png".to_string()]
}

#[test]
fn set_missing_defaults_fills_absent_fields_once() {
    let mut tj = TileJSON::new(source())
        .with_attribution(String::new())
        .with_name("compositing".to_string())
        .with_scheme("tms".to_string());
    tj.set_missing_defaults();

    let expected = TileJSON::new(source())
        .with_attribution(String::new())
        .with_name("compositing".to_string())
        .with_scheme("tms".to_string())
        .with_bounds(Bounds::new(c(-180.0), c(-85.05112877980659), c(180.0), c(85.0511287798066)))
        .with_maxzoom(30)
        .with_minzoom(0)
        .with_version("1.0.0".to_string());
    assert_eq!(tj, expected);

    let again = {
        let mut t = tj.clone();
        t.set_missing_defaults();
        t
    };
    assert_eq!(again, tj);
}

#[test]
fn set_missing_defaults_on_bare_metadata() {
    let mut tj = TileJSON::new(source());
    tj.set_missing_defaults();
    assert_eq!(tj.version.as_deref(), Some("1.0.0"));
    assert_eq!(tj.scheme.as_deref(), Some("xyz"));
    assert_eq!(tj.minzoom, Some(0));
    assert_eq!(tj.maxzoom, Some(30));
    assert_eq!(tj.bounds, Some(Bounds::default()));
    assert_eq!(tj.name, None);
    assert_eq!(tj.center, None);
    assert!(tj.vector_layers.is_none());
    assert!(tj.other.is_empty());
}

#[test]
fn new_has_required_fields_only() {
    let tj = TileJSON::new(source());
    assert_eq!(tj.tilejson, "3.0.0");
    assert_eq!(tj.tiles, source());
    assert_eq!(tj.minzoom, None);
    assert_eq!(tj.bounds, None);
    assert!(tj.other.is_empty());

    let tj = TileJSON::new_with_version(source(), Some("2.1.0".to_string()));
    assert_eq!(tj.tilejson, "2.1.0");
    let tj = TileJSON::new_with_version(source(), None);
    assert_eq!(tj.tilejson, "3.0.0");
}

#[test]
fn setters_overwrite() {
    let tj = TileJSON::new(source())
        .with_minzoom(5)
        .with_minzoom(1)
        .with_maxzoom(2)
        .with_center(Center::new(c(-5.0), c(-6.0), 3))
        .with_fillzoom(4)
        .with_data(vec!["d".to_string()])
        .with_grids(vec!["g".to_string()])
        .with_legend("l".to_string())
        .with_template("t".to_string())
        .with_description("desc".to_string());
    assert_eq!(tj.minzoom, Some(1));
    assert_eq!(tj.maxzoom, Some(2));
    assert_eq!(tj.center, Some(Center::new(c(-5.0), c(-6.0), 3)));
    assert_eq!(tj.fillzoom, Some(4));
    assert_eq!(tj.data, Some(vec!["d".to_string()]));
    assert_eq!(tj.grids, Some(vec!["g".to_string()]));
    assert_eq!(tj.legend.as_deref(), Some("l"));
    assert_eq!(tj.template.as_deref(), Some("t"));
    assert_eq!(tj.description.as_deref(), Some("desc"));
}

#[test]
fn vector_layer_new() {
    let vl = VectorLayer::new("a".to_string(), HashMap::from([("b".to_string(), "c".to_string())]));
    assert_eq!(vl.id, "a");
    assert_eq!(vl.fields.get("b").map(String::as_str), Some("c"));
    assert_eq!(vl.description, None);
    assert_eq!(vl.minzoom, None);
    assert_eq!(vl.maxzoom, None);
    assert!(vl.other.is_empty());
    let tj = TileJSON::new(source()).with_vector_layers(vec![vl.clone()]);
    assert_eq!(tj.vector_layers, Some(vec![vl]));
}
