//! Application settings and their default values.

use vstd::prelude::*;

verus! {

/// Settings of the console that shows a server's log.
pub struct InterfaceConsoleConfig {
    pub text_size: String,
    pub font: String,
    pub chat_mode_enabled_default: bool,
    pub auto_scroll_enabled_default: bool,
    pub display_date: bool,
    pub display_year: bool,
    pub timestamp_color: String,
    pub server_started_color: String,
    pub player_joined_color: String,
    pub info_color: String,
    pub warn_color: String,
    pub error_color: String,
    pub background_color: String,
}

/// Settings of the user interface.
pub struct InterfaceConfig {
    pub theme: String,
    pub player_heads_enabled: bool,
    pub console: InterfaceConsoleConfig,
}

/// Settings of the whole application, as stored in its configuration file.
pub struct Config {
    pub auto_update: bool,
    pub auto_start: bool,
    pub hide_ip: bool,
    pub startup_display_id: i16,
    pub start_minimized: bool,
    pub start_in_tray: bool,
    pub interface: InterfaceConfig,
}

/// What an [`InterfaceConsoleConfig`] says, with each text as a sequence of characters.
pub struct InterfaceConsoleConfigView {
    pub text_size: Seq<char>,
    pub font: Seq<char>,
    pub chat_mode_enabled_default: bool,
    pub auto_scroll_enabled_default: bool,
    pub display_date: bool,
    pub display_year: bool,
    pub timestamp_color: Seq<char>,
    pub server_started_color: Seq<char>,
    pub player_joined_color: Seq<char>,
    pub info_color: Seq<char>,
    pub warn_color: Seq<char>,
    pub error_color: Seq<char>,
    pub background_color: Seq<char>,
}

/// What an [`InterfaceConfig`] says.
pub struct InterfaceConfigView {
    pub theme: Seq<char>,
    pub player_heads_enabled: bool,
    pub console: InterfaceConsoleConfigView,
}

/// What a [`Config`] says.
pub struct ConfigView {
    pub auto_update: bool,
    pub auto_start: bool,
    pub hide_ip: bool,
    pub startup_display_id: int,
    pub start_minimized: bool,
    pub start_in_tray: bool,
    pub interface: InterfaceConfigView,
}

impl View for InterfaceConsoleConfig {
    type V = InterfaceConsoleConfigView;

    open spec fn view(&self) -> InterfaceConsoleConfigView {
        InterfaceConsoleConfigView {
            text_size: self.text_size@,
            font: self.font@,
            chat_mode_enabled_default: self.chat_mode_enabled_default,
            auto_scroll_enabled_default: self.auto_scroll_enabled_default,
            display_date: self.display_date,
            display_year: self.display_year,
            timestamp_color: self.timestamp_color@,
            server_started_color: self.server_started_color@,
            player_joined_color: self.player_joined_color@,
            info_color: self.info_color@,
            warn_color: self.warn_color@,
            error_color: self.error_color@,
            background_color: self.background_color@,
        }
    }
}

impl View for InterfaceConfig {
    type V = InterfaceConfigView;

    open spec fn view(&self) -> InterfaceConfigView {
        InterfaceConfigView {
            theme: self.theme@,
            player_heads_enabled: self.player_heads_enabled,
            console: self.console@,
        }
    }
}

impl View for Config {
    type V = ConfigView;

    open spec fn view(&self) -> ConfigView {
        ConfigView {
            auto_update: self.auto_update,
            auto_start: self.auto_start,
            hide_ip: self.hide_ip,
            startup_display_id: self.startup_display_id as int,
            start_minimized: self.start_minimized,
            start_in_tray: self.start_in_tray,
            interface: self.interface@,
        }
    }
}

/// The console settings of a fresh installation.
pub open spec fn default_console_config() -> InterfaceConsoleConfigView {
    InterfaceConsoleConfigView {
        text_size: "16px"@,
        font: "default"@,
        chat_mode_enabled_default: false,
        auto_scroll_enabled_default: true,
        display_date: true,
        display_year: false,
        timestamp_color: "limegreen"@,
        server_started_color: "limegreen"@,
        player_joined_color: "dodgerblue"@,
        info_color: "white"@,
        warn_color: "orange"@,
        error_color: "orangered"@,
        background_color: "rgb(20, 20, 20)"@,
    }
}

/// The interface settings of a fresh installation.
pub open spec fn default_interface_config() -> InterfaceConfigView {
    InterfaceConfigView {
        theme: "default"@,
        player_heads_enabled: true,
        console: default_console_config(),
    }
}

/// The application settings of a fresh installation: updates are on, the
/// application neither starts with the system nor hidden, and it opens on
/// the first display.
pub open spec fn default_config() -> ConfigView {
    ConfigView {
        auto_update: true,
        auto_start: false,
        hide_ip: false,
        startup_display_id: 0,
        start_minimized: false,
        start_in_tray: false,
        interface: default_interface_config(),
    }
}

impl Default for InterfaceConsoleConfig {
    fn default() -> (r: InterfaceConsoleConfig)
        ensures
            r@ == default_console_config(),
    {
        InterfaceConsoleConfig {
            text_size: "16px".to_owned(),
            font: "default".to_owned(),
            chat_mode_enabled_default: false,
            auto_scroll_enabled_default: true,
            display_date: true,
            display_year: false,
            timestamp_color: "limegreen".to_owned(),
            server_started_color: "limegreen".to_owned(),
            player_joined_color: "dodgerblue".to_owned(),
            info_color: "white".to_owned(),
            warn_color: "orange".to_owned(),
            error_color: "orangered".to_owned(),
            background_color: "rgb(20, 20, 20)".to_owned(),
        }
    }
}

impl Default for InterfaceConfig {
    fn default() -> (r: InterfaceConfig)
        ensures
            r@ == default_interface_config(),
    {
        InterfaceConfig {
            theme: "default".to_owned(),
            player_heads_enabled: true,
            console: InterfaceConsoleConfig::default(),
        }
    }
}

impl Default for Config {
    fn default() -> (r: Config)
        ensures
            r@ == default_config(),
    {
        Config {
            auto_update: true,
            auto_start: false,
            hide_ip: false,
            startup_display_id: 0,
            start_minimized: false,
            start_in_tray: false,
            interface: InterfaceConfig::default(),
        }
    }
}

} // verus!
