use canpi_panels::catalog::{PanelDefinition, PanelHash, Rejected};
use canpi_panels::config::{join_path, resolve_panel_path};
use canpi_panels::state::AppState;

fn one_panel() -> PanelHash {
    let o: Vec<Result<PanelDefinition, Rejected>> =
        vec![Ok(PanelDefinition { title: "Only".to_string(), json_file: "only.json".to_string() })];
    PanelHash::from_outcomes(o).0
}

#[test]
fn selecting_a_known_panel() {
    let mut state = AppState::new("localhost:5550".to_string(), one_panel());
    state.select_panel(1);
    assert_eq!(state.current_panel_index, Some(1));
    assert_eq!(state.current_panel().unwrap().title, "Only");
}

#[test]
fn selecting_an_unknown_panel_clears_selection() {
    let mut state = AppState::new("localhost:5550".to_string(), one_panel());
    state.select_panel(1);
    state.select_panel(2);
    assert_eq!(state.current_panel_index, None);
    assert!(state.current_panel().is_none());
}

#[test]
fn panel_path_resolution() {
    assert_eq!(join_path("/home/pi", "panels"), "/home/pi/panels");
    assert_eq!(resolve_panel_path("/home/pi", "defs", true), "/home/pi/defs");
    assert_eq!(resolve_panel_path("/home/pi", "/srv/defs", false), "/srv/defs");
}

#[test]
fn check_html_file_name() {
    let file_name_root = std::path::Path::new("templates");
    let mut format_file = file_name_root.join("top_menu.format");
    let html_file = file_name_root.join("top_menu.html");
    format_file.set_extension("html");
    assert_eq!(format_file, html_file);
}

#[test]
fn config_defaults_and_file_settings() {
    let mut cfg = canpi_panels::config::CanpiConfig::with_home("/home/pi");
    assert_eq!(cfg.cangrid_uri, "localhost:5550");
    assert_eq!(cfg.panel_path, "/home/pi/panels");
    assert!(cfg.panel_hash.is_empty());
    cfg.apply_file_settings("/home/pi", Some("grid:5551"), Some("layouts"), true);
    assert_eq!(cfg.cangrid_uri, "grid:5551");
    assert_eq!(cfg.panel_path, "/home/pi/layouts");
    cfg.apply_file_settings("/home/pi", None, Some("/srv/layouts"), false);
    assert_eq!(cfg.cangrid_uri, "grid:5551");
    assert_eq!(cfg.panel_path, "/srv/layouts");
}
