//! The settings value that the store keeps.

use vstd::prelude::*;

verus! {

/// The user's settings. Every combination of field values is a valid
/// settings value.
#[derive(Clone, Copy, Debug, PartialEq, Eq, Structural)]
pub struct AppSettings {
    pub close_servers_on_exit: bool,
    pub auto_accept_eula: bool,
    pub default_max_memory: u32,
    pub default_min_memory: u32,
    pub default_port: u16,
    pub console_font_size: u32,
    pub max_log_lines: u32,
}

/// The settings of a fresh installation.
pub open spec fn default_settings() -> AppSettings {
    AppSettings {
        close_servers_on_exit: true,
        auto_accept_eula: false,
        default_max_memory: 2048,
        default_min_memory: 512,
        default_port: 25565,
        console_font_size: 13,
        max_log_lines: 5000,
    }
}

impl Default for AppSettings {
    fn default() -> (r: Self)
        ensures
            r == default_settings(),
    {
        AppSettings {
            close_servers_on_exit: true,
            auto_accept_eula: false,
            default_max_memory: 2048,
            default_min_memory: 512,
            default_port: 25565,
            console_font_size: 13,
            max_log_lines: 5000,
        }
    }
}

} // verus!
