use canpi_panels::json::Json;
use canpi_panels::model::{Diagram, Direction, State, Tile};

#[test]
fn decodes_every_part_of_a_diagram() {
    let text = r##"{
      "cbusstates": [ { "name": "S1", "event": null, "state": "UNKN" } ],
      "layout": {
        "panel": { "width": 3, "height": 2, "tilesize": 10, "colour": "#ffffff",
                   "margins": 1, "border": 1, "title": "Small", "unused": [1, 2] },
        "controls": [],
        "track": [ { "tile": { "x_coord": 3, "y_coord": 2 }, "direction": "SW", "spot": "S1" } ],
        "turnouts": []
      }
    }"##;
    let doc = Json::parse(text.as_bytes()).unwrap();
    let d = Diagram::from_json(&doc).unwrap();
    assert_eq!(d.layout.panel.title, "Small");
    assert_eq!(d.layout.panel.width, 3);
    assert_eq!(d.cbusstates[0].state, State::UNKN);
    assert_eq!(d.cbusstates[0].event, None);
    assert_eq!(d.layout.track[0].direction, Direction::SW);
    assert_eq!(d.layout.track[0].spot, Some("S1".to_string()));
    assert_eq!(d.layout.track[0].label, None);
    assert_eq!(d.layout.track[0].tile.x_coord, 3);
}

#[test]
fn rejects_out_of_range_and_missing_members() {
    let tile = Json::parse(br#"{ "x_coord": 70000, "y_coord": 1 }"#).unwrap();
    assert!(Tile::from_json(&tile).is_none());
    let tile = Json::parse(br#"{ "x_coord": 5 }"#).unwrap();
    assert!(Tile::from_json(&tile).is_none());
    let tile = Json::parse(br#"{ "x_coord": 5, "y_coord": 6 }"#).unwrap();
    let t = Tile::from_json(&tile).unwrap();
    assert_eq!((t.x_coord, t.y_coord), (5, 6));
    assert!(Json::parse(b"{ nope").is_none());
}

#[test]
fn enum_names_are_exact() {
    assert_eq!(Direction::from_name(&"NW".to_string()), Some(Direction::NW));
    assert_eq!(Direction::from_name(&"nw".to_string()), None);
    assert_eq!(State::from_name(&"ONE".to_string()), Some(State::ONE));
}

#[test]
fn schema_document_is_json() {
    let text = Diagram::create_json_schema();
    let doc: serde_json::Value = serde_json::from_str(&text).unwrap();
    assert_eq!(doc["title"], "Diagram");
    assert!(text.contains('\n'));
}

#[test]
fn view_diagram_schema() {
    let text = Diagram::create_json_schema();
    println!("{}", text);
    assert!(text.contains("\"required\": [\"cbusstates\", \"layout\"]"));
}

#[test]
fn decoder_requires_positive_sizes_and_a_title() {
    let tile = Json::parse(br#"{ "x_coord": 0, "y_coord": 1 }"#).unwrap();
    assert!(Tile::from_json(&tile).is_none());
    let panel = Json::parse(
        br##"{ "width": 3, "height": 2, "tilesize": 10, "colour": "#fff", "margins": 1, "border": 1, "title": "" }"##,
    )
    .unwrap();
    assert!(canpi_panels::model::Panel::from_json(&panel).is_none());
}
