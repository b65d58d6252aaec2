//! Panel definitions for a model-railway signalling display: the data model of
//! a diagram document, its structural schema, the loader that turns a set of
//! definition files into an indexed catalog, and the navigation menu built
//! from that catalog.
pub mod catalog;
pub mod config;
pub mod decode;
pub mod forms;
pub mod json;
pub mod menu;
pub mod model;
pub mod schema;
pub mod state;

pub use catalog::{FileError, PanelDefinition, PanelHash, PanelList, Rejected, SourceFile};
pub use config::CanpiConfig;
pub use forms::{EditFilterForm, FilterNameText};
pub use menu::top_menu_html;
pub use model::{
    CbusState, Control, Diagram, Direction, Layout, Panel, State, SwitchType, Tile, Track,
    TurnOutDirection, TurnOutHand, Turnout, TurnoutState,
};
pub use schema::DiagramSchema;
pub use state::AppState;
