//! The decisions of the setup wizard and of the windows.

use crate::engine::same_text;
use crate::text::{contains_text, occurs_in, outcome_view};
use vstd::prelude::*;
use vstd::string::StringExecFns;

verus! {

/// Whether the status that the dictation service prints says that it
/// runs.
pub fn service_reports_running(status: &str) -> (running: bool)
    ensures
        running == occurs_in(status@, "Running: Yes"@),
{
    contains_text(status, "Running: Yes")
}

/// Whether the configuration of the dictation service names the action
/// of this application.
pub fn config_names_action(config: &str) -> (configured: bool)
    ensures
        configured == occurs_in(config@, "opencodeTalk"@),
{
    contains_text(config, "opencodeTalk")
}

/// The answer to the start of the dictation service: what it printed
/// where it ended with success, and a failure with all it printed
/// otherwise.
pub open spec fn service_start_result(succeeded: bool, printed: Seq<char>, errors: Seq<char>) -> Result<
    Seq<char>,
    Seq<char>,
> {
    if succeeded {
        Ok(printed)
    } else {
        Err("Service start failed: "@ + printed + errors)
    }
}

/// Judges the start of the dictation service by the way it ended.
pub fn service_start_outcome(succeeded: bool, printed: &str, errors: &str) -> (outcome: Result<
    String,
    String,
>)
    ensures
        outcome_view(outcome) == service_start_result(
            succeeded,
            printed@,
            errors@,
        ),
{
    if succeeded {
        Ok(printed.to_owned())
    } else {
        let mut reason = String::from_str("Service start failed: ");
        reason.append(printed);
        reason.append(errors);
        Err(reason)
    }
}

/// What to do with a window.
#[derive(Clone, Copy, Debug, PartialEq, Eq, Structural)]
pub enum PanelAction {
    /// Hide it.
    Hide,
    /// Show it and give it the focus.
    ShowAndFocus,
}

/// What a toggle does to the panel: it hides a visible panel and shows a
/// hidden one.
pub fn toggle_panel(visible: bool) -> (action: PanelAction)
    ensures
        action == if visible {
            PanelAction::Hide
        } else {
            PanelAction::ShowAndFocus
        },
{
    if visible {
        PanelAction::Hide
    } else {
        PanelAction::ShowAndFocus
    }
}

/// What an entry of the tray menu does.
#[derive(Clone, Copy, Debug, PartialEq, Eq, Structural)]
pub enum MenuAction {
    /// Show the main panel.
    ShowPanel,
    /// Show the settings.
    ShowSettings,
    /// End the application.
    Quit,
    /// Nothing.
    Ignore,
}

/// What the entry of the tray menu with a given identifier does.
pub open spec fn menu_action_of(id: Seq<char>) -> MenuAction {
    if id == "show"@ {
        MenuAction::ShowPanel
    } else if id == "settings"@ {
        MenuAction::ShowSettings
    } else if id == "quit"@ {
        MenuAction::Quit
    } else {
        MenuAction::Ignore
    }
}

/// What the entry of the tray menu with the identifier `id` does.
pub fn menu_action(id: &str) -> (action: MenuAction)
    ensures
        action == menu_action_of(id@),
{
    if same_text(id, "show") {
        MenuAction::ShowPanel
    } else if same_text(id, "settings") {
        MenuAction::ShowSettings
    } else if same_text(id, "quit") {
        MenuAction::Quit
    } else {
        MenuAction::Ignore
    }
}

/// Whether the resources are to be released when a window is destroyed:
/// they are when it is the main window.
pub fn releases_on_destroy(label: &str) -> (release: bool)
    ensures
        release == (label@ == "main"@),
{
    same_text(label, "main")
}

} // verus!
