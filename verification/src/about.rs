//! The About dialog's static metadata, and the plan for showing the
//! dialog when the bundled logo image may be absent: rather than
//! failing, the dialog degrades to one without an image and the
//! missing asset is reported.

use vstd::prelude::*;

use crate::session::EditorError;

verus! {

/// Static program metadata shown by the About dialog.
pub struct AboutInfo {
    pub program_name: String,
    pub version: String,
    pub comments: String,
    pub title: String,
}

/// The program metadata, always the same.
pub fn about_info() -> (info: AboutInfo)
    ensures
        info.program_name@ == "Redit"@,
        info.version@ == "0.0.1"@,
        info.comments@ == "Notepad application written in Rust"@,
        info.title@ == "About Redit"@,
{
    AboutInfo {
        program_name: String::from_str("Redit"),
        version: String::from_str("0.0.1"),
        comments: String::from_str("Notepad application written in Rust"),
        title: String::from_str("About Redit"),
    }
}

/// How the About dialog is to be shown, given whether the logo asset
/// could be loaded.
pub struct AboutPlan {
    /// Whether the dialog carries the logo image.
    pub show_logo: bool,
    /// The missing-asset condition to report, if any.
    pub warning: Option<EditorError>,
}

/// Decide how to show the About dialog: with the logo when it is
/// available, otherwise without it and with the missing asset
/// reported — never by failing.
pub fn about_plan(logo_available: bool) -> (plan: AboutPlan)
    ensures
        plan.show_logo == logo_available,
        plan.warning == if logo_available {
            Option::<EditorError>::None
        } else {
            Option::Some(EditorError::MissingAssetError)
        },
{
    if logo_available {
        AboutPlan { show_logo: true, warning: Option::None }
    } else {
        AboutPlan { show_logo: false, warning: Option::Some(EditorError::MissingAssetError) }
    }
}

} // verus!
