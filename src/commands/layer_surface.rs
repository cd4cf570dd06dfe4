//! Interact with the layer surfaces of the application.
use vstd::prelude::*;

use crate::commands::{Action, Command, LayerSurfaceAction};
use crate::event_loop::state::{Anchor, IcedLayerSurface, IcedMargin, KeyboardInteractivity, Layer};
use crate::sctk_event::SurfaceId;

verus! {

/// Creates a layer surface.
pub fn get_layer_surface(builder: IcedLayerSurface) -> (r: Command)
    ensures
        r.actions@ == seq![Action::LayerSurface(LayerSurfaceAction::LayerSurface(builder))],
{
    Command::single(Action::LayerSurface(LayerSurfaceAction::LayerSurface(builder)))
}

/// Destroys the layer surface.
pub fn destroy_layer_surface(id: SurfaceId) -> (r: Command)
    ensures
        r.actions@ == seq![Action::LayerSurface(LayerSurfaceAction::Destroy(id))],
{
    Command::single(Action::LayerSurface(LayerSurfaceAction::Destroy(id)))
}

/// Asks for a size of the layer surface.
pub fn set_size(id: SurfaceId, width: u32, height: u32) -> (r: Command)
    ensures
        r.actions@ == seq![Action::LayerSurface(LayerSurfaceAction::Size { id, width, height })],
{
    Command::single(Action::LayerSurface(LayerSurfaceAction::Size { id, width, height }))
}

/// Sets the edges the layer surface is anchored to.
pub fn set_anchor(id: SurfaceId, anchor: Anchor) -> (r: Command)
    ensures
        r.actions@ == seq![Action::LayerSurface(LayerSurfaceAction::Anchor { id, anchor })],
{
    Command::single(Action::LayerSurface(LayerSurfaceAction::Anchor { id, anchor }))
}

/// Sets the exclusive zone of the layer surface.
pub fn set_exclusive_zone(id: SurfaceId, zone: i32) -> (r: Command)
    ensures
        r.actions@ == seq![Action::LayerSurface(LayerSurfaceAction::ExclusiveZone { id, exclusive_zone: zone })],
{
    Command::single(Action::LayerSurface(LayerSurfaceAction::ExclusiveZone { id, exclusive_zone: zone }))
}

/// Sets the margins of the layer surface.
pub fn set_margin(id: SurfaceId, top: i32, right: i32, bottom: i32, left: i32) -> (r: Command)
    ensures
        r.actions@ == seq![
            Action::LayerSurface(LayerSurfaceAction::Margin { id, margin: IcedMargin { top, right, bottom, left } }),
        ],
{
    Command::single(Action::LayerSurface(LayerSurfaceAction::Margin { id, margin: IcedMargin { top, right, bottom, left } }))
}

/// Sets whether the layer surface takes keyboard focus.
pub fn set_keyboard_interactivity(id: SurfaceId, keyboard_interactivity: KeyboardInteractivity) -> (r: Command)
    ensures
        r.actions@ == seq![
            Action::LayerSurface(LayerSurfaceAction::KeyboardInteractivity { id, keyboard_interactivity }),
        ],
{
    Command::single(Action::LayerSurface(LayerSurfaceAction::KeyboardInteractivity { id, keyboard_interactivity }))
}

/// Moves the layer surface to another layer.
pub fn set_layer(id: SurfaceId, layer: Layer) -> (r: Command)
    ensures
        r.actions@ == seq![Action::LayerSurface(LayerSurfaceAction::Layer { id, layer })],
{
    Command::single(Action::LayerSurface(LayerSurfaceAction::Layer { id, layer }))
}

} // verus!
