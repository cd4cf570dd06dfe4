//! The commands that the toolkit issues to act on surfaces.
pub mod layer_surface;
pub mod popup;
pub mod window;

use vstd::prelude::*;

use crate::event_loop::state::{Anchor, IcedLayerSurface, IcedMargin, IcedPopup, KeyboardInteractivity, Layer, Mode, Positioner};
use crate::sctk_event::SurfaceId;

verus! {

/// An action on a top-level window.
#[derive(Debug, Clone, Copy)]
pub enum WindowAction {
    Close(SurfaceId),
    Resize { id: SurfaceId, width: u32, height: u32 },
    SetMode { id: SurfaceId, mode: Mode },
    /// Ask for the window's mode; it comes back as a `Reply`.
    FetchMode(SurfaceId),
}

/// An action on a layer surface.
#[derive(Debug, Clone, Copy)]
pub enum LayerSurfaceAction {
    /// Create a layer surface.
    LayerSurface(IcedLayerSurface),
    Destroy(SurfaceId),
    Size { id: SurfaceId, width: u32, height: u32 },
    Anchor { id: SurfaceId, anchor: Anchor },
    ExclusiveZone { id: SurfaceId, exclusive_zone: i32 },
    Margin { id: SurfaceId, margin: IcedMargin },
    KeyboardInteractivity { id: SurfaceId, keyboard_interactivity: KeyboardInteractivity },
    Layer { id: SurfaceId, layer: Layer },
}

/// An action on a popup.
#[derive(Debug, Clone, Copy)]
pub enum PopupAction {
    /// Create a popup.
    Popup(IcedPopup),
    Reposition { id: SurfaceId, positioner: Positioner },
    Grab(SurfaceId),
    Destroy(SurfaceId),
}

/// One action of a command.
#[derive(Debug, Clone, Copy)]
pub enum Action {
    Window(WindowAction),
    LayerSurface(LayerSurfaceAction),
    Popup(PopupAction),
}

/// What an action hands back to the toolkit.
#[derive(Debug, Clone, Copy, PartialEq, Eq, Structural)]
pub enum Reply {
    /// The mode of a window, asked for by `WindowAction::FetchMode`.
    Mode(SurfaceId, Mode),
}

/// An ordered batch of actions.
pub struct Command {
    pub actions: Vec<Action>,
}

impl Command {
    /// A command of one action.
    pub fn single(action: Action) -> (r: Command)
        ensures
            r.actions@ == seq![action],
    {
        let mut actions: Vec<Action> = Vec::new();
        actions.push(action);
        proof {
            assert(actions@ =~= seq![action]);
        }
        Command { actions }
    }

    /// A command that does nothing.
    pub fn none() -> (r: Command)
        ensures
            r.actions@.len() == 0,
    {
        Command { actions: Vec::new() }
    }

    /// Both commands, this one first.
    pub fn batch(self, other: Command) -> (r: Command)
        ensures
            r.actions@ == self.actions@ + other.actions@,
    {
        let mut actions = self.actions;
        let mut rest = other.actions;
        actions.append(&mut rest);
        Command { actions }
    }
}

/// Whether the action creates a surface, and so needs a fresh protocol
/// object.
pub open spec fn creates_surface(a: Action) -> bool {
    match a {
        Action::LayerSurface(LayerSurfaceAction::LayerSurface(_)) => true,
        Action::Popup(PopupAction::Popup(_)) => true,
        _ => false,
    }
}

impl Action {
    /// Whether the action creates a surface.
    pub fn creates_surface(&self) -> (r: bool)
        ensures
            r == creates_surface(*self),
    {
        match self {
            Action::LayerSurface(LayerSurfaceAction::LayerSurface(_)) => true,
            Action::Popup(PopupAction::Popup(_)) => true,
            _ => false,
        }
    }
}

} // verus!
