//! Widget settings files, kept by the stem of the file they came from.

use crate::name_map::{collected, map_of, NameMap};
use crate::scalar::Real32;
use vstd::prelude::*;

verus! {

/// How a configured widget looks.
#[derive(Debug)]
pub struct Appearance {
    pub bgcolor: String,
    pub border: u32,
    pub borderrad: u32,
    pub alignment: String,
    pub fontscale: Real32,
}

/// The settings of one widget.
#[derive(Debug)]
pub struct Config {
    pub title: String,
    pub widgettype: String,
    pub hidden: bool,
    pub appearance: Appearance,
}

/// The settings of all widgets, by the stem of the file that holds them.
#[derive(Debug)]
pub struct WidgetManager {
    pub widgets: NameMap<Config>,
}

impl WidgetManager {
    /// Collects the settings that were read, each under the stem of its
    /// file. No file gives an empty map; of two files with one stem the
    /// later counts.
    pub fn new(files: Vec<(String, Config)>) -> (out: Self)
        ensures
            out.widgets.well_formed(),
            out.widgets@ == map_of(files@),
            out.widgets.entries@ == collected(files@),
    {
        WidgetManager { widgets: NameMap::from_entries(files) }
    }
}

} // verus!
