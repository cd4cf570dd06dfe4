//! Interact with the popups of the application.
use vstd::prelude::*;

use crate::commands::{Action, Command, PopupAction};
use crate::event_loop::state::{IcedPopup, Positioner};
use crate::sctk_event::SurfaceId;

verus! {

/// Creates a popup.
pub fn get_popup(popup: IcedPopup) -> (r: Command)
    ensures
        r.actions@ == seq![Action::Popup(PopupAction::Popup(popup))],
{
    Command::single(Action::Popup(PopupAction::Popup(popup)))
}

/// Places the popup anew.
pub fn reposition_popup(id: SurfaceId, positioner: Positioner) -> (r: Command)
    ensures
        r.actions@ == seq![Action::Popup(PopupAction::Reposition { id, positioner })],
{
    Command::single(Action::Popup(PopupAction::Reposition { id, positioner }))
}

/// Gives the popup an explicit grab of the active seat.
pub fn grab_popup(id: SurfaceId) -> (r: Command)
    ensures
        r.actions@ == seq![Action::Popup(PopupAction::Grab(id))],
{
    Command::single(Action::Popup(PopupAction::Grab(id)))
}

/// Destroys the popup, with every popup attached to it.
pub fn destroy_popup(id: SurfaceId) -> (r: Command)
    ensures
        r.actions@ == seq![Action::Popup(PopupAction::Destroy(id))],
{
    Command::single(Action::Popup(PopupAction::Destroy(id)))
}

} // verus!
