//! Interact with the windows of the application.
use vstd::prelude::*;

use crate::commands::{Action, Command, WindowAction};
use crate::event_loop::state::Mode;
use crate::sctk_event::SurfaceId;

verus! {

/// Closes the window.
pub fn close(id: SurfaceId) -> (r: Command)
    ensures
        r.actions@ == seq![Action::Window(WindowAction::Close(id))],
{
    Command::single(Action::Window(WindowAction::Close(id)))
}

/// Resizes the window to the given logical dimensions.
pub fn resize(id: SurfaceId, width: u32, height: u32) -> (r: Command)
    ensures
        r.actions@ == seq![Action::Window(WindowAction::Resize { id, width, height })],
{
    Command::single(Action::Window(WindowAction::Resize { id, width, height }))
}

/// Sets the mode of the window.
pub fn set_mode(id: SurfaceId, mode: Mode) -> (r: Command)
    ensures
        r.actions@ == seq![Action::Window(WindowAction::SetMode { id, mode })],
{
    Command::single(Action::Window(WindowAction::SetMode { id, mode }))
}

/// Fetches the current mode of the window; it comes back as a reply.
pub fn fetch_mode(id: SurfaceId) -> (r: Command)
    ensures
        r.actions@ == seq![Action::Window(WindowAction::FetchMode(id))],
{
    Command::single(Action::Window(WindowAction::FetchMode(id)))
}

} // verus!
