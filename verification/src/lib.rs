pub mod applet;
pub mod catalog;
pub mod config;
pub mod default_apps;
pub mod dialog;
pub mod host;
pub mod launch;
pub mod list;
pub mod lock;
pub mod logos;
pub mod menu;
pub mod page;
pub mod power;
pub mod settings;
pub mod standalone;
pub mod text;
