//! Configuration of the panel server: where its files are and how to reach
//! the CBUS channel.
use vstd::prelude::*;
use crate::catalog::PanelHash;

verus! {

/// Host and port of the CBUS channel where the configuration names none.
pub const CANGRID_URI: &'static str = "localhost:5550";
/// The configuration file, under `STATIC`.
pub const CFGFILE: &'static str = "canpi-panel.cfg";
/// The directory of panel definitions, under the home directory.
pub const PANEL_PATH: &'static str = "panels";
/// The directory of static web files, under the home directory.
pub const STATIC: &'static str = "static";
/// The pattern of the page templates, under the home directory.
pub const TEMPLATE: &'static str = "templates/**/*";

/// Configuration items taken from the environment and the configuration file.
#[derive(Debug)]
pub struct CanpiConfig {
    /// Host and port that provides a CBUS channel
    pub cangrid_uri: String,
    /// Host and port of the web service
    pub host_port: Option<String>,
    /// The panels that loaded
    pub panel_hash: PanelHash,
    /// Directory holding panel definitions
    pub panel_path: String,
    /// Static web files
    pub static_path: Option<String>,
    /// Page templates
    pub template_path: Option<String>,
}

impl CanpiConfig {
    /// The configuration before any file is read: the default CBUS channel,
    /// the panel directory under `home`, no panels and no optional paths.
    pub fn with_home(home: &str) -> (r: CanpiConfig)
        ensures
            r.cangrid_uri@ == CANGRID_URI@,
            r.host_port is None,
            r.panel_hash@.len() == 0,
            r.panel_path@ == home@ + "/"@ + PANEL_PATH@,
            r.static_path is None,
            r.template_path is None,
    {
        CanpiConfig {
            cangrid_uri: String::from_str(CANGRID_URI),
            host_port: None,
            panel_hash: PanelHash::new(),
            panel_path: join_path(home, PANEL_PATH),
            static_path: None,
            template_path: None,
        }
    }

    /// Takes the settings that the configuration file gives; a setting it
    /// leaves out keeps its current value.
    pub fn apply_file_settings(
        &mut self,
        home: &str,
        cangrid_uri: Option<&str>,
        panel_path: Option<&str>,
        panel_path_is_relative: bool,
    )
        ensures
            final(self).cangrid_uri@ == (match cangrid_uri {
                Some(u) => u@,
                None => old(self).cangrid_uri@,
            }),
            final(self).panel_path@ == (match panel_path {
                Some(p) => if panel_path_is_relative {
                    home@ + "/"@ + p@
                } else {
                    p@
                },
                None => old(self).panel_path@,
            }),
            final(self).host_port == old(self).host_port,
            final(self).panel_hash@ == old(self).panel_hash@,
            final(self).static_path == old(self).static_path,
            final(self).template_path == old(self).template_path,
    {
        if let Some(u) = cangrid_uri {
            self.cangrid_uri = String::from_str(u);
        }
        if let Some(p) = panel_path {
            self.panel_path = resolve_panel_path(home, p, panel_path_is_relative);
        }
    }
}

/// `base` and `tail` joined by one `/`.
pub fn join_path(base: &str, tail: &str) -> (r: String)
    ensures
        r@ == base@ + "/"@ + tail@,
{
    let mut r = String::from_str(base);
    r.append("/");
    r.append(tail);
    r
}

/// The panel directory that the configuration file names: a relative path is
/// taken under `home`.
pub fn resolve_panel_path(home: &str, configured: &str, is_relative: bool) -> (r: String)
    ensures
        r@ == (if is_relative {
            home@ + "/"@ + configured@
        } else {
            configured@
        }),
{
    if is_relative {
        join_path(home, configured)
    } else {
        String::from_str(configured)
    }
}

} // verus!
