//! What the widgets can ask of the backend.

use crate::widget::Widget;
use crate::widget_handler::{widget_with_id, WidgetHandler};
use vstd::prelude::*;
use vstd::string::StringExecFns;

verus! {

/// Greets by name.
pub fn greet(name: &str) -> (out: String)
    ensures
        out@ == "Hello, "@ + name@ + "! You've been greeted from Rust!"@,
{
    let mut out = String::from_str("Hello, ");
    out.append(name);
    out.append("! You've been greeted from Rust!");
    out
}

/// Gives the descriptor of the widget with the given id, or the failure
/// `widget not found` where the store has no such widget.
pub fn get_widget_config(widget_handler: &WidgetHandler, widget_id: &str) -> (out: Result<
    Widget,
    String,
>)
    ensures
        match out {
            Ok(widget) => widget_with_id(widget_handler.widgets@, widget_id@) == Some(widget@),
            Err(failure) => widget_with_id(widget_handler.widgets@, widget_id@) is None
                && failure@ == "widget not found"@,
        },
{
    match widget_handler.get_widget(widget_id) {
        Some(widget) => Ok(widget),
        None => Err(String::from_str("widget not found")),
    }
}

} // verus!
