//! State shared with the web layer: the catalog and the panel being shown.
use vstd::prelude::*;
use crate::catalog::{PanelDefinition, PanelHash};

verus! {

pub struct AppState {
    /// Host and port of the CBUS channel
    pub cangrid_uri: String,
    /// Index of the panel being shown, always one that the catalog holds
    pub current_panel_index: Option<usize>,
    pub panels: PanelHash,
}

impl AppState {
    /// The state can only name a panel that the catalog holds.
    pub open spec fn wf(&self) -> bool {
        match self.current_panel_index {
            Some(i) => 1 <= i <= self.panels@.len(),
            None => true,
        }
    }

    /// A state with no panel selected.
    pub fn new(cangrid_uri: String, panels: PanelHash) -> (r: AppState)
        ensures
            r.wf(),
            r.cangrid_uri == cangrid_uri,
            r.current_panel_index is None,
            r.panels@ == panels@,
    {
        AppState { cangrid_uri, current_panel_index: None, panels }
    }

    /// Makes `index` the panel shown where the catalog holds it; otherwise no
    /// panel is shown.
    pub fn select_panel(&mut self, index: usize)
        ensures
            final(self).wf(),
            final(self).current_panel_index == (if 1 <= index <= old(self).panels@.len() {
                Some(index)
            } else {
                None
            }),
            final(self).panels@ == old(self).panels@,
            final(self).cangrid_uri == old(self).cangrid_uri,
    {
        self.current_panel_index = None;
        if self.panels.contains_key(index) {
            self.current_panel_index = Some(index);
        }
    }

    /// The panel shown, if any.
    pub fn current_panel(&self) -> (r: Option<&PanelDefinition>)
        ensures
            match r {
                Some(p) => self.current_panel_index matches Some(i) && 1 <= i <= self.panels@.len()
                    && self.panels@[i - 1] == (p.title@, p.json_file@),
                None => match self.current_panel_index {
                    Some(i) => !(1 <= i <= self.panels@.len()),
                    None => true,
                },
            },
    {
        match self.current_panel_index {
            Some(i) => self.panels.get(i),
            None => None,
        }
    }
}

} // verus!
