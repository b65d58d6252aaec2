use canpi_panels::catalog::{FileError, PanelHash, PanelList, SourceFile};
use canpi_panels::schema::DiagramSchema;

fn diagram_text(title: &str, width: &str) -> String {
    format!(
        r##"{{
  "cbusstates": [
    {{ "name": "T1", "event": "N1E1", "state": "ZERO" }},
    {{ "name": "T2", "state": "ONE" }}
  ],
  "layout": {{
    "panel": {{
      "width": {width}, "height": 8, "tilesize": 32, "colour": "#203040",
      "margins": 4, "border": 2, "title": "{title}"
    }},
    "controls": [
      {{
        "tile": {{ "x_coord": 1, "y_coord": 1 }}, "name": "C1", "switch": "Toggle",
        "action": "T1", "tostate": {{ "normal": "T1", "reverse": "T2" }}
      }}
    ],
    "track": [
      {{ "tile": {{ "x_coord": 2, "y_coord": 1 }}, "direction": "EW", "label": "Up Main" }},
      {{ "tile": {{ "x_coord": 3, "y_coord": 1 }}, "direction": "NE", "tcstate": null }}
    ],
    "turnouts": [
      {{
        "tile": {{ "x_coord": 4, "y_coord": 1 }}, "name": "West Points", "hand": "Left",
        "orientation": "East", "tostate": {{ "normal": "T1", "reverse": "T2" }}
      }}
    ]
  }}
}}"##
    )
}

fn valid(path: &str, title: &str) -> SourceFile {
    SourceFile {
        path: path.to_string(),
        contents: Some(diagram_text(title, "12").into_bytes()),
    }
}

fn with_text(path: &str, text: &str) -> SourceFile {
    SourceFile { path: path.to_string(), contents: Some(text.as_bytes().to_vec()) }
}

fn schema() -> DiagramSchema {
    DiagramSchema::new().expect("the diagram schema compiles")
}

fn titles(panels: &PanelHash) -> Vec<(usize, String)> {
    panels.entries_in_order()
}

#[test]
#[should_panic]
fn read_defn_file_missing() {
    let schema = schema();
    let json_file = "tests/nonexistent_file.json".to_string();
    let _ = PanelList::read_defn_file(json_file, None, &schema).unwrap();
}

#[test]
#[should_panic]
fn read_defn_file_not_valid() {
    let schema = schema();
    let json_file = "tests/good-example-config-defn.json".to_string();
    let text = r#"{ "cangrid_uri": "localhost:5550", "panel_path": "panels" }"#;
    let _ = PanelList::read_defn_file(json_file, Some(text.as_bytes().to_vec()), &schema).unwrap();
}

#[test]
fn read_defn_file_validates() {
    let schema = schema();
    let json_file = "tests/test_diagram.json".to_string();
    let contents = Some(diagram_text("Test Diagram", "12").into_bytes());
    let pd = PanelList::read_defn_file(json_file, contents, &schema).unwrap();
    assert_eq!(pd.title, "Test Diagram");
    assert_eq!(pd.json_file, "tests/test_diagram.json");
}

#[test]
fn load_panels_no_json() {
    let schema = schema();
    let panel_list = PanelList::load_panels(Vec::new(), &schema);
    assert!(panel_list.panels.is_empty());
    assert!(panel_list.panels.entries_in_order().is_empty());
}

#[test]
fn load_panels_invalid_json() {
    let schema = schema();
    let panel_list = PanelList::load_panels(vec![with_text("scratch/panel.json", "{}")], &schema);
    assert!(panel_list.panels.is_empty());
    assert_eq!(panel_list.rejected.len(), 1);
}

#[test]
fn load_panels_one_valid_json() {
    let schema = schema();
    let panel_list = PanelList::load_panels(vec![valid("tests/test_diagram.json", "Test Diagram")], &schema);
    assert_eq!(panel_list.panels.len(), 1);
    assert!(panel_list.rejected.is_empty());
}

#[test]
fn all_valid_files_get_indices_in_order() {
    let files = vec![valid("p/one.json", "One"), valid("p/two.json", "Two"), valid("p/three.json", "Three")];
    let list = PanelList::new(files).unwrap();
    assert_eq!(list.panels.len(), 3);
    assert_eq!(
        titles(&list.panels),
        vec![(1, "One".to_string()), (2, "Two".to_string()), (3, "Three".to_string())]
    );
    assert!(!list.panels.contains_key(0));
    assert!(list.panels.contains_key(3));
    assert!(!list.panels.contains_key(4));
    assert_eq!(list.panels.get(2).unwrap().json_file, "p/two.json");
}

#[test]
fn failed_files_leave_no_gap() {
    let files = vec![
        with_text("p/bad.json", "[1, 2"),
        valid("p/north.json", "North Yard"),
        SourceFile { path: "p/locked.json".to_string(), contents: None },
        with_text("p/empty.json", "{}"),
        valid("p/south.json", "South Yard"),
    ];
    let list = PanelList::new(files).unwrap();
    assert_eq!(
        titles(&list.panels),
        vec![(1, "North Yard".to_string()), (2, "South Yard".to_string())]
    );
    let paths: Vec<&str> = list.rejected.iter().map(|r| r.path.as_str()).collect();
    assert_eq!(paths, vec!["p/bad.json", "p/locked.json", "p/empty.json"]);
}

#[test]
fn zero_valid_files_give_empty_catalog() {
    let files = vec![with_text("a.json", "not json"), with_text("b.json", "{\"layout\": 1}")];
    let list = PanelList::new(files).unwrap();
    assert!(list.panels.is_empty());
    assert_eq!(list.panels.len(), 0);
    assert!(list.panels.entries_in_order().is_empty());
    assert_eq!(list.panels.title_of(1), None);
    assert_eq!(list.rejected.len(), 2);
}

#[test]
fn alpha_bad_charlie_scenario() {
    let files = vec![
        valid("a.json", "Alpha"),
        with_text("b.json", "{ \"cbusstates\": [ }"),
        valid("c.json", "Charlie"),
    ];
    let list = PanelList::new(files).unwrap();
    assert_eq!(list.panels.title_of(1), Some("Alpha".to_string()));
    assert_eq!(list.panels.title_of(2), Some("Charlie".to_string()));
    assert_eq!(list.panels.title_of(3), None);
    assert_eq!(list.rejected.len(), 1);
    assert_eq!(list.rejected[0].path, "b.json");
    assert!(matches!(list.rejected[0].error, FileError::Parse));
}

#[test]
fn each_error_kind_is_reported() {
    let schema = schema();
    let read = PanelList::read_defn_file("r.json".to_string(), None, &schema);
    assert!(matches!(read, Err(FileError::Read)));
    let parse = PanelList::read_defn_file("p.json".to_string(), Some(b"{".to_vec()), &schema);
    assert!(matches!(parse, Err(FileError::Parse)));
    let invalid = PanelList::read_defn_file("s.json".to_string(), Some(b"{}".to_vec()), &schema);
    match invalid {
        Err(FileError::Schema(v)) => assert!(!v.is_empty()),
        other => panic!("expected a schema error, got {:?}", other),
    }
    // 12.0 is an integer to the schema, but not a 16-bit count to the data model
    let fractional = Some(diagram_text("Wide", "12.0").into_bytes());
    let conversion = PanelList::read_defn_file("c.json".to_string(), fractional, &schema);
    assert!(matches!(conversion, Err(FileError::Conversion)));
}

#[test]
fn schema_accepts_complete_document() {
    let schema = schema();
    let text = diagram_text("Complete", "12");
    assert!(schema.violations(text.as_bytes()).is_empty());
}

#[test]
fn schema_names_missing_field() {
    let schema = schema();
    let text = diagram_text("No Title", "12").replace("\"title\": \"No Title\"", "\"extra\": true");
    let violations = schema.violations(text.as_bytes());
    assert!(!violations.is_empty());
    assert!(violations.iter().any(|v| v.contains("\"title\" is a required property")));
    assert!(violations.iter().any(|v| v.starts_with("/layout/panel")));
}

#[test]
fn schema_rejects_unknown_enum_value() {
    let schema = schema();
    let text = diagram_text("Enum", "12").replace("\"Toggle\"", "\"Lever\"");
    assert!(!schema.violations(text.as_bytes()).is_empty());
}

#[test]
fn serialized_diagram_reloads_with_same_title() {
    let schema = schema();
    let value: serde_json::Value = serde_json::from_str(&diagram_text("Round Trip", "20")).unwrap();
    let bytes = serde_json::to_vec(&value).unwrap();
    let pd = PanelList::read_defn_file("rt.json".to_string(), Some(bytes), &schema).unwrap();
    assert_eq!(pd.title, "Round Trip");
}

#[test]
fn schema_reports_unparsable_bytes() {
    let schema = schema();
    assert!(!schema.violations(b"{ \"layout\": ").is_empty());
}

#[test]
fn zero_sizes_and_empty_titles_do_not_load() {
    let schema = schema();
    let empty_title = Some(diagram_text("", "12").into_bytes());
    assert!(PanelList::read_defn_file("t.json".to_string(), empty_title, &schema).is_err());
    let zero_width = Some(diagram_text("Zero", "0").into_bytes());
    assert!(PanelList::read_defn_file("z.json".to_string(), zero_width, &schema).is_err());
}
