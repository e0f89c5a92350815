//! The command that toggles the inspector panel.

use vstd::prelude::*;
use vstd::string::*;

verus! {

/// What the host is to do with the inspector panel.
#[derive(Clone, Copy, Debug, PartialEq, Eq, Structural)]
pub enum PanelAction {
    /// Open the panel.
    Open,
    /// Close the panel.
    Close,
}

/// The message a build without debug tooling answers with.
pub open spec fn disabled_message() -> Seq<char> {
    "DevTools are disabled in this build. Rebuild with --features debug-tools."@
}

/// The action that flips a panel which is open or closed as `is_open` says.
pub open spec fn flip(is_open: bool) -> PanelAction {
    if is_open {
        PanelAction::Close
    } else {
        PanelAction::Open
    }
}

/// Whether the panel is open once `action` has been carried out.
pub open spec fn open_after(action: PanelAction) -> bool {
    action == PanelAction::Open
}

/// Decides the toggle command.
///
/// With debug tooling the answer is the action that flips the panel. Without
/// it the answer is the failure message, and no action: the panel is left as
/// it is.
pub fn toggle_debug_panel(debug_tools: bool, is_open: bool) -> (outcome: Result<PanelAction, String>)
    ensures
        debug_tools ==> outcome == Ok::<PanelAction, String>(flip(is_open)),
        !debug_tools ==> outcome is Err && outcome->Err_0@ == disabled_message(),
{
    if debug_tools {
        if is_open {
            Ok(PanelAction::Close)
        } else {
            Ok(PanelAction::Open)
        }
    } else {
        Err(String::from_str(
            "DevTools are disabled in this build. Rebuild with --features debug-tools.",
        ))
    }
}

/// Toggling twice brings the panel back to where it was.
pub proof fn lemma_toggle_twice_restores(is_open: bool)
    ensures
        open_after(flip(is_open)) == !is_open,
        open_after(flip(open_after(flip(is_open)))) == is_open,
{
}

} // verus!
