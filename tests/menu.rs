use canpi_panels::catalog::{PanelDefinition, PanelHash, Rejected};
use canpi_panels::menu::{top_menu_html, NO_PANELS_HTML};

fn catalog(titles: &[&str]) -> PanelHash {
    let outcomes: Vec<Result<PanelDefinition, Rejected>> = titles
        .iter()
        .map(|t| Ok(PanelDefinition { title: t.to_string(), json_file: format!("{}.json", t) }))
        .collect();
    PanelHash::from_outcomes(outcomes).0
}

const ITEM: &str = "<li><a href=\"/panel/|index|\">|title|</a></li>";

#[test]
fn menu_lists_panels_in_index_order() {
    let html = top_menu_html(&catalog(&["North Yard", "South Yard"]), ITEM);
    assert_eq!(
        html,
        "<li><a href=\"/panel/1\">North Yard</a></li><li><a href=\"/panel/2\">South Yard</a></li>"
    );
}

#[test]
fn empty_catalog_gives_fixed_fragment() {
    let html = top_menu_html(&PanelHash::new(), ITEM);
    assert_eq!(html, NO_PANELS_HTML);
    assert_eq!(html, "<li><br>No displayable panels configured<br></li>");
}

#[test]
fn menu_fills_every_placeholder_and_counts_past_nine() {
    let names: Vec<String> = (1..=11).map(|i| format!("Yard{}", i)).collect();
    let refs: Vec<&str> = names.iter().map(|s| s.as_str()).collect();
    let html = top_menu_html(&catalog(&refs), "[|index|:|title|:|index|]");
    assert!(html.starts_with("[1:Yard1:1][2:Yard2:2]"));
    assert!(html.ends_with("[10:Yard10:10][11:Yard11:11]"));
}

#[test]
fn title_placeholders_are_not_escaped() {
    let html = top_menu_html(&catalog(&["Yard |index|"]), "|title|");
    assert_eq!(html, "Yard 1");
}

#[test]
fn index_text_writes_decimal() {
    assert_eq!(canpi_panels::menu::index_text(0), "0");
    assert_eq!(canpi_panels::menu::index_text(7), "7");
    assert_eq!(canpi_panels::menu::index_text(305), "305");
    assert_eq!(canpi_panels::menu::index_text(usize::MAX), usize::MAX.to_string());
}
