//! Texts shown to the user: the window title and error dialogs.
use vstd::prelude::*;
use crate::config::or_default;
use crate::text::opt_view;

verus! {

pub const APP_NAME: &'static str = "AI Lab";

pub const DEFAULT_VERSION: &'static str = "0.0.0";

pub const DEFAULT_ERROR_TITLE: &'static str = "Error";

pub const DEFAULT_ERROR_MESSAGE: &'static str = "An error has occurred!";

/// The main window's title: `AI Lab - v<version>`, with version 0.0.0 where
/// none is known.
pub fn window_title(version: Option<&str>) -> (r: String)
    ensures
        r@ == APP_NAME@ + " - v"@ + or_default(opt_view(version), DEFAULT_VERSION@),
{
    let v = match version {
        Some(v) => v,
        None => DEFAULT_VERSION,
    };
    let mut t = APP_NAME.to_owned();
    t.append(" - v");
    t.append(v);
    t
}

/// The title and message of an error dialog, with the defaults for those
/// not given.
pub fn error_dialog_text(title: Option<&str>, message: Option<&str>) -> (r: (String, String))
    ensures
        r.0@ == or_default(opt_view(title), DEFAULT_ERROR_TITLE@),
        r.1@ == or_default(opt_view(message), DEFAULT_ERROR_MESSAGE@),
{
    let t = match title {
        Some(t) => t,
        None => DEFAULT_ERROR_TITLE,
    };
    let m = match message {
        Some(m) => m,
        None => DEFAULT_ERROR_MESSAGE,
    };
    (t.to_owned(), m.to_owned())
}

} // verus!
