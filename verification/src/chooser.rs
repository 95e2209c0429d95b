//! The kinds of native chooser and the response codes a dialog is wired with.

use crate::filter::{native_text, nul_terminated};
use vstd::prelude::*;

verus! {

/// Response code the toolkit reports when the confirm button closed the dialog.
pub const RESPONSE_ACCEPT: i32 = -3;

/// Response code the toolkit reports when the cancel button closed the dialog.
pub const RESPONSE_CANCEL: i32 = -6;

/// The chooser behaviour requested from the toolkit.
#[derive(Clone, Copy, Debug, PartialEq, Eq, Structural)]
pub enum GtkFileChooserAction {
    Open,
    Save,
    SelectFolder,
}

impl GtkFileChooserAction {
    /// The integer the toolkit knows this action by.
    pub open spec fn spec_code(self) -> int {
        match self {
            GtkFileChooserAction::Open => 0,
            GtkFileChooserAction::Save => 1,
            GtkFileChooserAction::SelectFolder => 2,
        }
    }

    /// The integer handed to the toolkit for this action.
    pub fn code(self) -> (c: i32)
        ensures
            c == self.spec_code(),
    {
        match self {
            GtkFileChooserAction::Open => 0,
            GtkFileChooserAction::Save => 1,
            GtkFileChooserAction::SelectFolder => 2,
        }
    }
}

/// Everything the toolkit needs to create a modal chooser: its title, its
/// action, and its two buttons, each with the response code it reports.
#[derive(Clone, Debug)]
pub struct DialogRequest {
    pub title: String,
    pub action: GtkFileChooserAction,
    pub cancel_label: String,
    pub cancel_response: i32,
    pub accept_label: String,
    pub accept_response: i32,
}

/// The request for a chooser with the given title and action. The first
/// button cancels and the second confirms; every text is NUL-terminated for
/// the toolkit.
pub fn build_gtk_dialog(title: &str, action: GtkFileChooserAction, btn1: &str, btn2: &str) -> (request:
    DialogRequest)
    ensures
        request.title@ == nul_terminated(title@),
        request.action == action,
        request.cancel_label@ == nul_terminated(btn1@),
        request.cancel_response == RESPONSE_CANCEL,
        request.accept_label@ == nul_terminated(btn2@),
        request.accept_response == RESPONSE_ACCEPT,
{
    DialogRequest {
        title: native_text(title),
        action,
        cancel_label: native_text(btn1),
        cancel_response: RESPONSE_CANCEL,
        accept_label: native_text(btn2),
        accept_response: RESPONSE_ACCEPT,
    }
}

} // verus!
