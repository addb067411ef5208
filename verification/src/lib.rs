pub mod app_launcher;
pub mod command;
pub mod config;
pub mod event_bus;
pub mod media;
pub mod name_map;
pub mod scalar;
pub mod schedule;
pub mod system;
pub mod text;
pub mod thumbnail;
pub mod widget;
pub mod widget_handler;
