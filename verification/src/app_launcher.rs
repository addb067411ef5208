//! Applications that a launcher widget can start.

use vstd::prelude::*;

verus! {

/// An application that can be launched.
#[derive(Debug)]
pub struct App {
    pub name: String,
    pub icon: String,
    pub path: String,
    pub args: Vec<String>,
    /// Whether the application runs in a terminal.
    pub terminal: bool,
    pub category: String,
}

/// The applications that the launcher offers.
#[derive(Debug)]
pub struct AppLauncherManager {
    pub apps: Vec<App>,
}

} // verus!
