//! The structural schema of a diagram document, and its compiled validator.
use vstd::prelude::*;
use crate::model::Diagram;

verus! {

/// The JSON Schema (draft 7) of a diagram document. Every member that the data
/// model does not mark optional is required, and members that it does not name
/// are allowed.
pub const DIAGRAM_SCHEMA: &'static str = r##"{
  "$schema": "http://json-schema.org/draft-07/schema#",
  "title": "Diagram",
  "description": "Definition of a signalling panel",
  "type": "object",
  "required": ["cbusstates", "layout"],
  "properties": {
    "cbusstates": {
      "type": "array",
      "items": { "$ref": "#/definitions/CbusState" }
    },
    "layout": { "$ref": "#/definitions/Layout" }
  },
  "definitions": {
    "CbusState": {
      "type": "object",
      "required": ["name", "state"],
      "properties": {
        "name": { "type": "string" },
        "event": { "type": ["string", "null"] },
        "state": { "$ref": "#/definitions/State" }
      }
    },
    "State": {
      "type": "string",
      "enum": ["UNKN", "ZERO", "ONE"]
    },
    "Layout": {
      "type": "object",
      "required": ["panel", "controls", "track", "turnouts"],
      "properties": {
        "panel": { "$ref": "#/definitions/Panel" },
        "controls": {
          "type": "array",
          "items": { "$ref": "#/definitions/Control" }
        },
        "track": {
          "type": "array",
          "items": { "$ref": "#/definitions/Track" }
        },
        "turnouts": {
          "type": "array",
          "items": { "$ref": "#/definitions/Turnout" }
        }
      }
    },
    "Panel": {
      "type": "object",
      "required": ["width", "height", "tilesize", "colour", "margins", "border", "title"],
      "properties": {
        "width": { "$ref": "#/definitions/Size" },
        "height": { "$ref": "#/definitions/Size" },
        "tilesize": { "$ref": "#/definitions/Size" },
        "colour": { "type": "string" },
        "margins": { "$ref": "#/definitions/Size" },
        "border": { "$ref": "#/definitions/Size" },
        "title": { "type": "string", "minLength": 1 }
      }
    },
    "Size": {
      "type": "integer",
      "minimum": 1,
      "maximum": 65535
    },
    "Tile": {
      "type": "object",
      "required": ["x_coord", "y_coord"],
      "properties": {
        "x_coord": { "$ref": "#/definitions/Size" },
        "y_coord": { "$ref": "#/definitions/Size" }
      }
    },
    "Direction": {
      "type": "string",
      "enum": ["EW", "NE", "NS", "NW", "SE", "SW"]
    },
    "Track": {
      "type": "object",
      "required": ["tile", "direction"],
      "properties": {
        "tile": { "$ref": "#/definitions/Tile" },
        "direction": { "$ref": "#/definitions/Direction" },
        "label": { "type": ["string", "null"] },
        "tcstate": { "type": ["string", "null"] },
        "spot": { "type": ["string", "null"] }
      }
    },
    "TurnOutHand": {
      "type": "string",
      "enum": ["Left", "Right", "Wye"]
    },
    "TurnOutDirection": {
      "type": "string",
      "enum": ["North", "East", "South", "West"]
    },
    "TurnoutState": {
      "type": "object",
      "required": ["normal", "reverse"],
      "properties": {
        "normal": { "type": "string" },
        "reverse": { "type": "string" }
      }
    },
    "Turnout": {
      "type": "object",
      "required": ["tile", "name", "hand", "orientation", "tostate"],
      "properties": {
        "tile": { "$ref": "#/definitions/Tile" },
        "name": { "type": "string" },
        "hand": { "$ref": "#/definitions/TurnOutHand" },
        "orientation": { "$ref": "#/definitions/TurnOutDirection" },
        "tostate": { "$ref": "#/definitions/TurnoutState" }
      }
    },
    "SwitchType": {
      "type": "string",
      "enum": ["Toggle", "PushButton"]
    },
    "Control": {
      "type": "object",
      "required": ["tile", "name", "switch", "action", "tostate"],
      "properties": {
        "tile": { "$ref": "#/definitions/Tile" },
        "name": { "type": "string" },
        "switch": { "$ref": "#/definitions/SwitchType" },
        "action": { "type": "string" },
        "tostate": { "$ref": "#/definitions/TurnoutState" }
      }
    }
  }
}"##;

#[verifier::external_type_specification]
#[verifier::external_body]
pub struct ExJSONSchema(jsonschema::JSONSchema);

/// Whether `schema_text` reads as a JSON document that jsonschema compiles.
pub uninterp spec fn schema_compiles(schema_text: Seq<char>) -> bool;

/// Whether `bytes` hold a JSON document that the schema `DIAGRAM_SCHEMA`,
/// compiled by jsonschema, accepts.
pub uninterp spec fn schema_accepts(bytes: Seq<u8>) -> bool;

/// Relies on serde_json::from_str, to read the schema text, and on
/// jsonschema::JSONSchema::compile; both depend on the text alone.
#[verifier::external_body]
fn compile_schema(schema_text: &str) -> (r: Option<jsonschema::JSONSchema>)
    ensures
        r is Some <==> schema_compiles(schema_text@),
{
    let doc: serde_json::Value = serde_json::from_str(schema_text).ok()?;
    jsonschema::JSONSchema::compile(&doc).ok()
}

/// The compiled validator of `DIAGRAM_SCHEMA`. Its one constructor compiles
/// that text, and it is not changed afterwards, so any number of loads may
/// share it.
pub struct DiagramSchema {
    compiled: jsonschema::JSONSchema,
}

impl DiagramSchema {
    /// Compiles `DIAGRAM_SCHEMA`; `None` would mean the schema text itself is
    /// broken, a defect of this library rather than of any input.
    pub fn new() -> (r: Option<DiagramSchema>)
        ensures
            r is Some <==> schema_compiles(DIAGRAM_SCHEMA@),
    {
        match compile_schema(DIAGRAM_SCHEMA) {
            Some(compiled) => Some(DiagramSchema { compiled }),
            None => None,
        }
    }

    /// Relies on serde_json::from_slice and jsonschema::JSONSchema::validate,
    /// applied to `self.compiled`, which only `new` sets, from `DIAGRAM_SCHEMA`.
    /// One message per violated constraint, led by the path of the offending
    /// value; `validate` fails only with at least one. Bytes that do not parse
    /// give the parser's message.
    #[verifier::external_body]
    fn schema_violations(&self, bytes: &[u8]) -> (r: Vec<String>)
        ensures
            r@.len() == 0 <==> schema_accepts(bytes@),
    {
        match serde_json::from_slice::<serde_json::Value>(bytes) {
            Err(e) => vec![e.to_string()],
            Ok(v) => match self.compiled.validate(&v) {
                Ok(()) => Vec::new(),
                Err(errors) => errors.map(|e| format!("{}: {}", e.instance_path, e)).collect(),
            },
        }
    }

    /// Each constraint of the schema that the document in `bytes` violates;
    /// empty exactly where the schema accepts it.
    pub fn violations(&self, bytes: &[u8]) -> (r: Vec<String>)
        ensures
            r@.len() == 0 <==> schema_accepts(bytes@),
    {
        self.schema_violations(bytes)
    }
}

impl Diagram {
    /// The schema of a diagram document, as pretty-printed JSON.
    pub fn create_json_schema() -> (r: String)
        ensures
            r@ == DIAGRAM_SCHEMA@,
    {
        String::from_str(DIAGRAM_SCHEMA)
    }
}

} // verus!
