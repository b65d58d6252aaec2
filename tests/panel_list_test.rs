use canpi_panels::catalog::{PanelList, SourceFile};

#[test]
fn panel_list_new() {
    let text = r##"{
      "cbusstates": [],
      "layout": {
        "panel": { "width": 4, "height": 4, "tilesize": 16, "colour": "#000000",
                   "margins": 1, "border": 1, "title": "Test Diagram" },
        "controls": [], "track": [], "turnouts": []
      }
    }"##;
    let files = vec![
        SourceFile { path: "tests/test_diagram.json".to_string(), contents: Some(text.as_bytes().to_vec()) },
        SourceFile { path: "tests/panel_list_test.rs".to_string(), contents: Some(b"use".to_vec()) },
    ];
    let panel_list = PanelList::new(files).unwrap();
    assert_eq!(panel_list.panels.len(), 1);
    assert!(panel_list.panels.contains_key(1));
}
