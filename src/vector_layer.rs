use std::collections::HashMap;
use vstd::prelude::*;

verus! {

/// A JSON value of any shape, kept as it was read.
#[verifier::external_type_specification]
#[verifier::external_body]
pub struct ExValue(serde_json::Value);

/// Each object describes one layer of vector tile data.
///
/// A layer has an id and a map from attribute names to their descriptions,
/// and may have a description and a zoom range. Any other key of the layer's
/// object is kept, with its value, in `other`.
#[derive(PartialEq, Eq, Debug, Clone)]
pub struct VectorLayer {
    /// The layer id: the name of the layer in the tiles.
    pub id: String,
    /// Attribute names and the descriptions of their values.
    pub fields: HashMap<String, String>,
    /// A human-readable description of the layer's contents.
    pub description: Option<String>,
    /// The highest zoom level whose tiles this layer appears in.
    pub maxzoom: Option<u8>,
    /// The lowest zoom level whose tiles this layer appears in.
    pub minzoom: Option<u8>,
    /// Any unrecognized fields.
    pub other: HashMap<String, serde_json::Value>,
}

impl VectorLayer {
    /// A layer with the given id and fields and nothing else.
    pub fn new(id: String, fields: HashMap<String, String>) -> (r: VectorLayer)
        ensures
            r.id == id,
            r.fields == fields,
            r.description is None,
            r.maxzoom is None,
            r.minzoom is None,
            r.other@ == Map::<String, serde_json::Value>::empty(),
    {
        VectorLayer {
            id,
            fields,
            description: None,
            maxzoom: None,
            minzoom: None,
            other: HashMap::new(),
        }
    }
}

} // verus!
