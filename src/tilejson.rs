use crate::bounds::Bounds;
use crate::center::Center;
use crate::vector_layer::VectorLayer;
use std::collections::HashMap;
use vstd::prelude::*;

verus! {

/// Metadata of a tile source: where its tiles are fetched, the area and zoom
/// levels they cover, and the layers they hold.
///
/// Every optional field is present or absent on its own. Keys that none of
/// the fields names are kept, with their values, in `other`.
#[derive(PartialEq, Debug, Clone)]
pub struct TileJSON {
    /// The version of the metadata format that this value follows, such as `"3.0.0"`.
    pub tilejson: String,
    /// Tile endpoints; `{z}`, `{x}` and `{y}` stand for the tile's coordinates.
    pub tiles: Vec<String>,
    /// Descriptions of the layers of vector tile data.
    pub vector_layers: Option<Vec<VectorLayer>>,
    /// An attribution to be displayed when the map is shown to a user.
    pub attribution: Option<String>,
    /// The maximum extent of available map tiles.
    pub bounds: Option<Bounds>,
    /// The default location: longitude, latitude and zoom level.
    pub center: Option<Center>,
    /// Endpoints of data files in GeoJSON format.
    pub data: Option<Vec<String>>,
    /// A text description of the set of tiles.
    pub description: Option<String>,
    /// The zoom level from which to generate overzoomed tiles.
    pub fillzoom: Option<u8>,
    /// Endpoints of interactivity grids.
    pub grids: Option<Vec<String>>,
    /// A legend to be displayed with the map.
    pub legend: Option<String>,
    /// The maximum zoom level.
    pub maxzoom: Option<u8>,
    /// The minimum zoom level.
    pub minzoom: Option<u8>,
    /// A name describing the set of tiles.
    pub name: Option<String>,
    /// The direction of the y axis of tile coordinates: `"xyz"` or `"tms"`.
    pub scheme: Option<String>,
    /// A mustache template to format data from grids for interaction.
    pub template: Option<String>,
    /// The version of the tiles, in the style of semver.org.
    pub version: Option<String>,
    /// Any unrecognized fields.
    pub other: HashMap<String, serde_json::Value>,
}

/// Whether `after` is `before` with version, scheme, minzoom, maxzoom and
/// bounds given their default values where they were absent.
pub open spec fn fills_defaults(before: TileJSON, after: TileJSON) -> bool {
    &&& after.version is Some
    &&& before.version is Some ==> after.version == before.version
    &&& before.version is None ==> after.version->Some_0@ == "1.0.0"@
    &&& after.scheme is Some
    &&& before.scheme is Some ==> after.scheme == before.scheme
    &&& before.scheme is None ==> after.scheme->Some_0@ == "xyz"@
    &&& after.minzoom == Some(before.minzoom.unwrap_or(0))
    &&& after.maxzoom == Some(before.maxzoom.unwrap_or(30))
    &&& after.bounds == Some(before.bounds.unwrap_or(Bounds::spec_max_tiled()))
    &&& after.tilejson == before.tilejson
    &&& after.tiles == before.tiles
    &&& after.vector_layers == before.vector_layers
    &&& after.attribution == before.attribution
    &&& after.center == before.center
    &&& after.data == before.data
    &&& after.description == before.description
    &&& after.fillzoom == before.fillzoom
    &&& after.grids == before.grids
    &&& after.legend == before.legend
    &&& after.name == before.name
    &&& after.template == before.template
    &&& after.other == before.other
}

/// Whether no optional field of `t` is present and no other key is kept.
pub open spec fn has_required_only(t: TileJSON) -> bool {
    &&& t.vector_layers is None
    &&& t.attribution is None
    &&& t.bounds is None
    &&& t.center is None
    &&& t.data is None
    &&& t.description is None
    &&& t.fillzoom is None
    &&& t.grids is None
    &&& t.legend is None
    &&& t.maxzoom is None
    &&& t.minzoom is None
    &&& t.name is None
    &&& t.scheme is None
    &&& t.template is None
    &&& t.version is None
    &&& t.other@ == Map::<String, serde_json::Value>::empty()
}

impl TileJSON {
    /// Metadata of the current format version, `"3.0.0"`, with the given tile
    /// endpoints and nothing else.
    pub fn new(tiles: Vec<String>) -> (r: TileJSON)
        ensures
            r.tilejson@ == "3.0.0"@,
            r.tiles == tiles,
            has_required_only(r),
    {
        TileJSON::new_with_version(tiles, None)
    }

    /// Metadata with the given tile endpoints and nothing else, of the given
    /// format version or else of `"3.0.0"`.
    pub fn new_with_version(tiles: Vec<String>, tilejson: Option<String>) -> (r: TileJSON)
        ensures
            tilejson is Some ==> r.tilejson == tilejson->Some_0,
            tilejson is None ==> r.tilejson@ == "3.0.0"@,
            r.tiles == tiles,
            has_required_only(r),
    {
        let tilejson = match tilejson {
            Some(v) => v,
            None => String::from_str("3.0.0"),
        };
        TileJSON {
            tilejson,
            tiles,
            vector_layers: None,
            attribution: None,
            bounds: None,
            center: None,
            data: None,
            description: None,
            fillzoom: None,
            grids: None,
            legend: None,
            maxzoom: None,
            minzoom: None,
            name: None,
            scheme: None,
            template: None,
            version: None,
            other: HashMap::new(),
        }
    }

    /// Set any missing default values: version `"1.0.0"`, scheme `"xyz"`,
    /// minzoom 0, maxzoom 30 and the extent of square web-mercator tiles.
    /// Present values and all other fields are kept.
    pub fn set_missing_defaults(&mut self)
        ensures
            fills_defaults(*old(self), *final(self)),
    {
        if self.version.is_none() {
            self.version = Some(String::from_str("1.0.0"));
        }
        if self.scheme.is_none() {
            self.scheme = Some(String::from_str("xyz"));
        }
        if self.minzoom.is_none() {
            self.minzoom = Some(0);
        }
        if self.maxzoom.is_none() {
            self.maxzoom = Some(30);
        }
        if self.bounds.is_none() {
            self.bounds = Some(Bounds::max_tiled());
        }
    }

    /// This metadata with `vector_layers` set to `value`, replacing any earlier value.
    pub fn with_vector_layers(self, value: Vec<VectorLayer>) -> (r: TileJSON)
        ensures
            r == (TileJSON { vector_layers: Some(value), ..self }),
    {
        TileJSON { vector_layers: Some(value), ..self }
    }

    /// This metadata with `attribution` set to `value`, replacing any earlier value.
    pub fn with_attribution(self, value: String) -> (r: TileJSON)
        ensures
            r == (TileJSON { attribution: Some(value), ..self }),
    {
        TileJSON { attribution: Some(value), ..self }
    }

    /// This metadata with `bounds` set to `value`, replacing any earlier value.
    pub fn with_bounds(self, value: Bounds) -> (r: TileJSON)
        ensures
            r == (TileJSON { bounds: Some(value), ..self }),
    {
        TileJSON { bounds: Some(value), ..self }
    }

    /// This metadata with `center` set to `value`, replacing any earlier value.
    pub fn with_center(self, value: Center) -> (r: TileJSON)
        ensures
            r == (TileJSON { center: Some(value), ..self }),
    {
        TileJSON { center: Some(value), ..self }
    }

    /// This metadata with `data` set to `value`, replacing any earlier value.
    pub fn with_data(self, value: Vec<String>) -> (r: TileJSON)
        ensures
            r == (TileJSON { data: Some(value), ..self }),
    {
        TileJSON { data: Some(value), ..self }
    }

    /// This metadata with `description` set to `value`, replacing any earlier value.
    pub fn with_description(self, value: String) -> (r: TileJSON)
        ensures
            r == (TileJSON { description: Some(value), ..self }),
    {
        TileJSON { description: Some(value), ..self }
    }

    /// This metadata with `fillzoom` set to `value`, replacing any earlier value.
    pub fn with_fillzoom(self, value: u8) -> (r: TileJSON)
        ensures
            r == (TileJSON { fillzoom: Some(value), ..self }),
    {
        TileJSON { fillzoom: Some(value), ..self }
    }

    /// This metadata with `grids` set to `value`, replacing any earlier value.
    pub fn with_grids(self, value: Vec<String>) -> (r: TileJSON)
        ensures
            r == (TileJSON { grids: Some(value), ..self }),
    {
        TileJSON { grids: Some(value), ..self }
    }

    /// This metadata with `legend` set to `value`, replacing any earlier value.
    pub fn with_legend(self, value: String) -> (r: TileJSON)
        ensures
            r == (TileJSON { legend: Some(value), ..self }),
    {
        TileJSON { legend: Some(value), ..self }
    }

    /// This metadata with `maxzoom` set to `value`, replacing any earlier value.
    pub fn with_maxzoom(self, value: u8) -> (r: TileJSON)
        ensures
            r == (TileJSON { maxzoom: Some(value), ..self }),
    {
        TileJSON { maxzoom: Some(value), ..self }
    }

    /// This metadata with `minzoom` set to `value`, replacing any earlier value.
    pub fn with_minzoom(self, value: u8) -> (r: TileJSON)
        ensures
            r == (TileJSON { minzoom: Some(value), ..self }),
    {
        TileJSON { minzoom: Some(value), ..self }
    }

    /// This metadata with `name` set to `value`, replacing any earlier value.
    pub fn with_name(self, value: String) -> (r: TileJSON)
        ensures
            r == (TileJSON { name: Some(value), ..self }),
    {
        TileJSON { name: Some(value), ..self }
    }

    /// This metadata with `scheme` set to `value`, replacing any earlier value.
    pub fn with_scheme(self, value: String) -> (r: TileJSON)
        ensures
            r == (TileJSON { scheme: Some(value), ..self }),
    {
        TileJSON { scheme: Some(value), ..self }
    }

    /// This metadata with `template` set to `value`, replacing any earlier value.
    pub fn with_template(self, value: String) -> (r: TileJSON)
        ensures
            r == (TileJSON { template: Some(value), ..self }),
    {
        TileJSON { template: Some(value), ..self }
    }

    /// This metadata with `version` set to `value`, replacing any earlier value.
    pub fn with_version(self, value: String) -> (r: TileJSON)
        ensures
            r == (TileJSON { version: Some(value), ..self }),
    {
        TileJSON { version: Some(value), ..self }
    }
}

/// Filling in defaults a second time changes nothing.
pub proof fn lemma_fill_defaults_idempotent(t: TileJSON, once: TileJSON, twice: TileJSON)
    requires
        fills_defaults(t, once),
        fills_defaults(once, twice),
    ensures
        twice == once,
{
}

/// Filling in defaults on metadata that has only its required fields gives
/// version `"1.0.0"`, scheme `"xyz"`, zoom levels 0 to 30 and the extent of
/// square web-mercator tiles, and leaves every other optional field absent.
pub proof fn lemma_fill_defaults_on_bare(t: TileJSON, filled: TileJSON)
    requires
        has_required_only(t),
        fills_defaults(t, filled),
    ensures
        filled.version->Some_0@ == "1.0.0"@,
        filled.scheme->Some_0@ == "xyz"@,
        filled.minzoom == Some(0u8),
        filled.maxzoom == Some(30u8),
        filled.bounds == Some(Bounds::spec_max_tiled()),
        filled.vector_layers is None,
        filled.attribution is None,
        filled.center is None,
        filled.data is None,
        filled.description is None,
        filled.fillzoom is None,
        filled.grids is None,
        filled.legend is None,
        filled.name is None,
        filled.template is None,
        filled.other@ == Map::<String, serde_json::Value>::empty(),
{
}

} // verus!
