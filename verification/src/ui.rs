//! Labels of the reply-keyboard buttons and the predicates the message
//! routing uses to tell button presses apart from links.

use vstd::prelude::*;
use crate::text::str_eq;

verus! {

pub const BTN_ADMIN_PANEL: &'static str = "Admin Panel";

pub const BTN_SETTINGS: &'static str = "\u{2699}\u{fe0f} Settings";

pub const BTN_FORMAT: &'static str = "Format";

pub const BTN_SUBSCRIPTION: &'static str = "Subscription";

pub const BTN_BACK: &'static str = "Back";

/// The text is one of the main-menu buttons.
pub open spec fn spec_is_menu_button(t: Seq<char>) -> bool {
    ||| t == BTN_ADMIN_PANEL@
    ||| t == BTN_SETTINGS@
    ||| t == BTN_FORMAT@
    ||| t == BTN_SUBSCRIPTION@
    ||| t == BTN_BACK@
}

/// The text is a button of the main menu; such a message is never treated
/// as a link submission.
pub fn is_menu_button(text: &str) -> (r: bool)
    ensures
        r == spec_is_menu_button(text@),
{
    if str_eq(text, BTN_ADMIN_PANEL) {
        return true;
    }
    if str_eq(text, BTN_SETTINGS) {
        return true;
    }
    if str_eq(text, BTN_FORMAT) {
        return true;
    }
    if str_eq(text, BTN_SUBSCRIPTION) {
        return true;
    }
    str_eq(text, BTN_BACK)
}

/// The text is any button the keyboards can produce, the admin panel's and
/// the quality selector's included.
pub open spec fn spec_is_system_button(t: Seq<char>) -> bool {
    ||| spec_is_menu_button(t)
    ||| t == "\u{1f4e2} Broadcast"@
    ||| t == "\u{1f4ca} Stats"@
    ||| t == "\u{1f3c6} Top 10"@
    ||| t == "\u{1f465} All users"@
    ||| t == "h265"@
    ||| t == "h264"@
    ||| t == "audio"@
}

/// The text is one of the buttons any keyboard of the bot offers.
pub fn is_system_button(text: &str) -> (r: bool)
    ensures
        r == spec_is_system_button(text@),
{
    if is_menu_button(text) {
        return true;
    }
    if str_eq(text, "\u{1f4e2} Broadcast") {
        return true;
    }
    if str_eq(text, "\u{1f4ca} Stats") {
        return true;
    }
    if str_eq(text, "\u{1f3c6} Top 10") {
        return true;
    }
    if str_eq(text, "\u{1f465} All users") {
        return true;
    }
    if str_eq(text, "h265") {
        return true;
    }
    if str_eq(text, "h264") {
        return true;
    }
    str_eq(text, "audio")
}

} // verus!
