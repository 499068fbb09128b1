//! The persisted configuration record and its defaults.

use crate::catalog::Catalog;
use crate::list::{default_items, MenuItems};
use crate::logos::{default_logo, default_logo_name};
use crate::menu::MenuItemView;
use vstd::prelude::*;
use vstd::string::*;

verus! {

/// The name under which the configuration is kept.
pub const CONFIG_ID: &'static str = "co.uk.cappsy.CosmicAppletLogoMenu";

/// The version of the configuration's layout.
pub const CONFIG_VERSION: u64 = 1;

/// The configuration as plain values.
pub struct LogoMenuConfigView {
    pub logo: Seq<char>,
    pub menu_items: Seq<MenuItemView>,
    pub custom_logo_active: bool,
    pub custom_logo_path: Seq<char>,
}

/// What is persisted: the chosen logo, the menu, and the custom logo with
/// its switch.
#[derive(Debug, PartialEq, Eq)]
pub struct LogoMenuConfig {
    pub logo: String,
    pub menu_items: MenuItems,
    pub custom_logo_active: bool,
    pub custom_logo_path: String,
}

impl DeepView for LogoMenuConfig {
    type V = LogoMenuConfigView;

    open spec fn deep_view(&self) -> LogoMenuConfigView {
        LogoMenuConfigView {
            logo: self.logo@,
            menu_items: self.menu_items@,
            custom_logo_active: self.custom_logo_active,
            custom_logo_path: self.custom_logo_path@,
        }
    }
}

impl View for LogoMenuConfig {
    type V = LogoMenuConfigView;

    open spec fn view(&self) -> LogoMenuConfigView {
        self.deep_view()
    }
}

impl Clone for LogoMenuConfig {
    fn clone(&self) -> (copy: Self)
        ensures
            copy@ == self@,
    {
        LogoMenuConfig {
            logo: self.logo.clone(),
            menu_items: self.menu_items.clone(),
            custom_logo_active: self.custom_logo_active,
            custom_logo_path: self.custom_logo_path.clone(),
        }
    }
}

/// The configuration of a first run: the default logo, the built-in menu
/// labelled from the catalog `entries`, and no custom logo.
pub open spec fn default_config(entries: Seq<(Seq<char>, Seq<char>)>) -> LogoMenuConfigView {
    LogoMenuConfigView {
        logo: default_logo_name(),
        menu_items: default_items(entries),
        custom_logo_active: false,
        custom_logo_path: Seq::empty(),
    }
}

/// The configuration in use: the stored one, or the defaults where none
/// could be read.
pub open spec fn config_or_default(
    stored: Option<LogoMenuConfigView>,
    entries: Seq<(Seq<char>, Seq<char>)>,
) -> LogoMenuConfigView {
    match stored {
        Some(config) => config,
        None => default_config(entries),
    }
}

impl LogoMenuConfig {
    /// The configuration of a first run.
    pub fn defaults(catalog: &Catalog) -> (config: LogoMenuConfig)
        ensures
            config@ == default_config(catalog@),
    {
        LogoMenuConfig {
            logo: default_logo(),
            menu_items: MenuItems::defaults(catalog),
            custom_logo_active: false,
            custom_logo_path: String::new(),
        }
    }

    /// The configuration in use, given what could be read of the stored
    /// one.
    pub fn load(stored: Option<LogoMenuConfig>, catalog: &Catalog) -> (config: LogoMenuConfig)
        ensures
            config@ == config_or_default(stored.deep_view(), catalog@),
    {
        match stored {
            Some(config) => config,
            None => LogoMenuConfig::defaults(catalog),
        }
    }
}

} // verus!
