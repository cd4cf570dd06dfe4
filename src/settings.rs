use vstd::prelude::*;

use crate::event_loop::state::{
    new_record, Anchor, IcedLayerSurface, IcedMargin, KeyboardInteractivity, Layer, Mode, ProtocolRequest, RegistryError,
    SctkState, SctkWindow, SurfaceRole,
};
use crate::sctk_event::{LogicalSize, ObjectId, SurfaceId};

verus! {

/// The settings of an application.
pub struct Settings<Flags> {
    /// The data needed to initialize the application.
    pub flags: Flags,
    /// Keyboard repeat rate, if one is configured.
    pub kbd_repeat: Option<u32>,
    /// Name and size of a pointer theme, if one is configured.
    pub ptr_theme: Option<(String, u32)>,
    /// The first surface of the application.
    pub surface: InitialSurface,
    /// Whether the application exits when its windows are closed.
    pub exit_on_close_request: bool,
}

/// The settings of a top-level window.
#[derive(Debug, Clone, Copy)]
pub struct WindowSettings {
    pub id: SurfaceId,
    pub size: Option<LogicalSize>,
    pub mode: Mode,
}

/// The first surface of an application.
#[derive(Debug, Clone, Copy)]
pub enum InitialSurface {
    LayerSurface(IcedLayerSurface),
    XdgWindow(WindowSettings),
}

/// The layer surface that an application starts with unless told otherwise.
pub open spec fn default_layer_surface() -> IcedLayerSurface {
    IcedLayerSurface {
        id: 0,
        layer: Layer::Top,
        keyboard_interactivity: KeyboardInteractivity::NoInteraction,
        anchor: Anchor { top: false, bottom: false, left: false, right: false },
        margin: IcedMargin { top: 0, right: 0, bottom: 0, left: 0 },
        size: None,
        exclusive_zone: 0,
    }
}

impl Default for InitialSurface {
    fn default() -> (r: Self)
        ensures
            r == InitialSurface::LayerSurface(default_layer_surface()),
    {
        InitialSurface::LayerSurface(IcedLayerSurface {
            id: 0,
            layer: Layer::Top,
            keyboard_interactivity: KeyboardInteractivity::NoInteraction,
            anchor: Anchor { top: false, bottom: false, left: false, right: false },
            margin: IcedMargin { top: 0, right: 0, bottom: 0, left: 0 },
            size: None,
            exclusive_zone: 0,
        })
    }
}

impl InitialSurface {
    /// The logical identity of the surface.
    pub fn id(&self) -> (r: SurfaceId)
        ensures
            r == match self {
                InitialSurface::LayerSurface(l) => l.id,
                InitialSurface::XdgWindow(w) => w.id,
            },
    {
        match self {
            InitialSurface::LayerSurface(l) => l.id,
            InitialSurface::XdgWindow(w) => w.id,
        }
    }
}

impl<T> SctkState<T> {
    /// Registers the first surface of an application on the protocol object
    /// `object`, as a layer surface or a window.
    pub fn create_initial_surface(&mut self, surface: InitialSurface, object: ObjectId) -> (r: Result<(), RegistryError>)
        requires
            old(self).well_formed(),
        ensures
            final(self).well_formed(),
            match surface {
                InitialSurface::LayerSurface(l) => r is Ok <==> !old(self).has_object(object) && !old(self).id_taken(l.id),
                InitialSurface::XdgWindow(w) => r is Ok <==> !old(self).has_object(object) && !old(self).id_taken(w.id),
            },
            r is Ok ==> final(self).surfaces@ == old(self).surfaces@.push(match surface {
                InitialSurface::LayerSurface(l) => new_record(l.id, object, SurfaceRole::LayerSurface(l.role_spec()), l.size),
                InitialSurface::XdgWindow(w) => new_record(w.id, object, SurfaceRole::Window(SctkWindow { mode: w.mode }), w.size),
            }),
            r is Ok ==> final(self).requests@ == (match surface {
                InitialSurface::LayerSurface(l) => old(self).requests@.push(
                    ProtocolRequest::GetLayerSurface { object, layer: l.role_spec(), size: l.size },
                ),
                InitialSurface::XdgWindow(w) => old(self).requests@.push(
                    ProtocolRequest::GetWindow { object, size: w.size },
                ),
            }).push(ProtocolRequest::Commit(object)),
            r is Err ==> final(self).surfaces@ == old(self).surfaces@ && final(self).requests@ == old(self).requests@,
            final(self).seats@ == old(self).seats@,
            final(self).retired@ == old(self).retired@,
            final(self).sctk_events@ == old(self).sctk_events@,
            final(self).outputs@ == old(self).outputs@,
            final(self).pending_user_events@ == old(self).pending_user_events@,
    {
        match surface {
            InitialSurface::LayerSurface(l) => self.get_layer_surface(l, object),
            InitialSurface::XdgWindow(w) => self.get_window(w.id, object, w.size, w.mode),
        }
    }
}

} // verus!
