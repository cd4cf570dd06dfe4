use vstd::prelude::*;

verus! {

/// Identity of a protocol object, as assigned by the display connection. It
/// is stable only while that object is alive.
pub type ObjectId = u32;

/// Identity of a surface, assigned by the application. It is stable for the
/// whole life of the surface and never reused once the surface is closed.
pub type SurfaceId = u64;

/// A size in logical pixels.
#[derive(Debug, Clone, Copy, PartialEq, Eq, Structural)]
pub struct LogicalSize {
    pub width: u32,
    pub height: u32,
}

/// A size in physical pixels: a logical size times an integer scale factor.
#[derive(Debug, Clone, Copy, PartialEq, Eq, Structural)]
pub struct PhysicalSize {
    pub width: u64,
    pub height: u64,
}

/// Whether two optional sizes are equal.
pub fn same_size(a: Option<LogicalSize>, b: Option<LogicalSize>) -> (r: bool)
    ensures
        r == (a == b),
{
    match (a, b) {
        (Some(x), Some(y)) => x.width == y.width && x.height == y.height,
        (None, None) => true,
        _ => false,
    }
}

/// The physical size of `size` at `scale`.
pub fn to_physical(size: LogicalSize, scale: u32) -> (r: PhysicalSize)
    ensures
        r.width == size.width * scale,
        r.height == size.height * scale,
{
    proof {
        assert(size.width * scale <= u32::MAX * u32::MAX) by (nonlinear_arith);
        assert(size.height * scale <= u32::MAX * u32::MAX) by (nonlinear_arith);
    }
    PhysicalSize {
        width: size.width as u64 * scale as u64,
        height: size.height as u64 * scale as u64,
    }
}

/// An input capability of a seat.
#[derive(Debug, Clone, Copy, PartialEq, Eq, Structural)]
pub enum Capability {
    Keyboard,
    Pointer,
    Touch,
}

/// The modifier state that the compositor reports for a keyboard.
#[derive(Debug, Default, Clone, Copy, PartialEq, Eq, Structural)]
pub struct Modifiers {
    pub ctrl: bool,
    pub alt: bool,
    pub shift: bool,
    pub caps_lock: bool,
    pub logo: bool,
    pub num_lock: bool,
}

/// A key press or release.
#[derive(Debug, Clone, Copy, PartialEq, Eq, Structural)]
pub struct KeyEvent {
    /// Time of the event, in milliseconds, from the compositor.
    pub time: u32,
    /// The raw key code.
    pub raw_code: u32,
    /// The keysym that the keymap gives for the key.
    pub keysym: u32,
}

/// Where an axis event comes from.
#[derive(Debug, Clone, Copy, PartialEq, Eq, Structural)]
pub enum AxisSource {
    Wheel,
    Finger,
    Continuous,
    WheelTilt,
}

/// Scrolling along one axis. `absolute` is in wayland fixed point (1/256 of a
/// pixel); `discrete` counts wheel steps.
#[derive(Debug, Default, Clone, Copy, PartialEq, Eq, Structural)]
pub struct AxisScroll {
    pub absolute: i32,
    pub discrete: i32,
    pub stop: bool,
}

/// What happened in a pointer event.
#[derive(Debug, Clone, Copy)]
pub enum PointerEventKind {
    Enter { serial: u32 },
    Leave { serial: u32 },
    Motion { time: u32 },
    Press { time: u32, button: u32, serial: u32 },
    Release { time: u32, button: u32, serial: u32 },
    Axis { time: u32, horizontal: AxisScroll, vertical: AxisScroll, source: Option<AxisSource> },
}

/// A pointer event on a surface. The position is in surface coordinates, in
/// wayland fixed point (1/256 of a logical pixel).
#[derive(Debug, Clone, Copy)]
pub struct PointerEvent {
    pub surface: ObjectId,
    pub position: (i32, i32),
    pub kind: PointerEventKind,
}

/// A configure of a top-level window. `new_size` is `None` when the compositor
/// leaves the size to the client.
#[derive(Debug, Clone, Copy)]
pub struct WindowConfigure {
    pub new_size: Option<LogicalSize>,
    pub maximized: bool,
    pub fullscreen: bool,
    pub resizing: bool,
    pub activated: bool,
}

/// A configure of a layer surface. A zero dimension leaves that dimension to
/// the client.
#[derive(Debug, Clone, Copy)]
pub struct LayerSurfaceConfigure {
    pub new_size: LogicalSize,
}

/// A configure of a popup: its place relative to its parent, and its size.
#[derive(Debug, Clone, Copy)]
pub struct PopupConfigure {
    pub x: i32,
    pub y: i32,
    pub width: i32,
    pub height: i32,
}

/// A configure of any kind of surface.
#[derive(Debug, Clone, Copy)]
pub enum SurfaceConfigure {
    Window(WindowConfigure),
    LayerSurface(LayerSurfaceConfigure),
    Popup(PopupConfigure),
}

/// The size that a configure proposes, if it proposes one.
pub open spec fn configure_size(c: SurfaceConfigure) -> Option<LogicalSize> {
    match c {
        SurfaceConfigure::Window(w) => w.new_size,
        SurfaceConfigure::LayerSurface(l) => if l.new_size.width > 0 && l.new_size.height > 0 {
            Some(l.new_size)
        } else {
            None
        },
        SurfaceConfigure::Popup(p) => if p.width > 0 && p.height > 0 {
            Some(LogicalSize { width: p.width as u32, height: p.height as u32 })
        } else {
            None
        },
    }
}

impl SurfaceConfigure {
    /// The size that this configure proposes, if it proposes one.
    pub fn size(&self) -> (r: Option<LogicalSize>)
        ensures
            r == configure_size(*self),
    {
        match self {
            SurfaceConfigure::Window(w) => w.new_size,
            SurfaceConfigure::LayerSurface(l) => {
                if l.new_size.width > 0 && l.new_size.height > 0 {
                    Some(l.new_size)
                } else {
                    None
                }
            },
            SurfaceConfigure::Popup(p) => {
                if p.width > 0 && p.height > 0 {
                    Some(LogicalSize { width: p.width as u32, height: p.height as u32 })
                } else {
                    None
                }
            },
        }
    }
}

#[derive(Debug, Clone, Copy)]
pub enum SeatEventVariant {
    New,
    Remove,
    NewCapability(Capability, ObjectId),
    RemoveCapability(Capability, ObjectId),
}

#[derive(Debug, Clone, Copy)]
pub enum KeyboardEventVariant {
    Leave(ObjectId),
    Enter(ObjectId),
    Press(KeyEvent),
    Release(KeyEvent),
    Modifiers(Modifiers),
}

#[derive(Debug, Clone, Copy)]
pub enum WindowEventVariant {
    Created(ObjectId, SurfaceId),
    /// The compositor asks the window to close.
    Close,
    ConfigureBounds { width: u32, height: u32 },
    /// A configure, and whether it was the window's first.
    Configure(WindowConfigure, bool),
}

#[derive(Debug, Clone, Copy)]
pub enum PopupEventVariant {
    Created(ObjectId, SurfaceId),
    /// The popup was dismissed.
    Done,
    /// A configure, and whether it was the popup's first.
    Configure(PopupConfigure, bool),
    Repositioned { token: u32 },
}

#[derive(Debug, Clone, Copy)]
pub enum LayerSurfaceEventVariant {
    Created(ObjectId, SurfaceId),
    /// The layer surface was closed by the compositor.
    Done,
    /// A configure, and whether it was the layer surface's first.
    Configure(LayerSurfaceConfigure, bool),
}

/// An event produced by a protocol callback.
#[derive(Debug, Clone, Copy)]
pub enum SctkEvent {
    SeatEvent { variant: SeatEventVariant, id: ObjectId },
    PointerEvent { variant: PointerEvent, ptr_id: ObjectId, seat_id: ObjectId },
    KeyboardEvent { variant: KeyboardEventVariant, kbd_id: ObjectId, seat_id: ObjectId },
    WindowEvent { variant: WindowEventVariant, id: ObjectId },
    LayerSurfaceEvent { variant: LayerSurfaceEventVariant, id: ObjectId },
    PopupEvent {
        variant: PopupEventVariant,
        /// the window or layer surface at the root of the popup's tree
        toplevel_id: ObjectId,
        /// the surface that the popup is attached to
        parent_id: ObjectId,
        /// the popup itself
        id: ObjectId,
    },
    NewOutput { id: ObjectId },
    UpdateOutput { id: ObjectId },
    RemovedOutput(ObjectId),
    /// The compositor is ready for a new frame of this surface.
    Draw(ObjectId),
    ScaleFactorChanged { factor: u32, id: ObjectId, inner_size: PhysicalSize },
}

/// An event delivered to the toolkit, in the order of the loop's phases.
#[derive(Debug, Clone, Copy)]
pub enum IcedSctkEvent<T> {
    /// New events arrived; sent first in each iteration.
    NewEvents(StartCause),
    /// An event of the application, from a background task.
    UserEvent(T),
    /// An event produced by the protocol.
    SctkEvent(SctkEvent),
    /// All input of the iteration was delivered; the UI updates here.
    MainEventsCleared,
    /// This surface is to be redrawn.
    RedrawRequested(ObjectId),
    /// All redraws of the iteration were requested.
    RedrawEventsCleared,
    /// The loop is shutting down; the last event.
    LoopDestroyed,
}

/// Describes the reason the event loop is resuming.
///
/// Instants are milliseconds on a clock that the caller of the loop keeps.
#[derive(Debug, Clone, Copy, PartialEq, Eq)]
pub enum StartCause {
    /// The deadline of `ControlFlow::WaitUntil` was reached.
    ResumeTimeReached { start: u64, requested_resume: u64 },
    /// New events arrived while the loop waited.
    WaitCancelled { start: u64, requested_resume: Option<u64> },
    /// The loop resumed after `ControlFlow::Poll`.
    Poll,
    /// Sent once, right after the loop starts.
    Init,
}

/// Pending update to a surface requested by the user.
#[derive(Debug, Default, Clone, Copy, PartialEq, Eq)]
pub struct SurfaceUserRequest {
    /// Whether a redraw was requested.
    pub redraw_requested: bool,
    /// Whether the frame should be refreshed.
    pub refresh_frame: bool,
}

impl SurfaceUserRequest {
    /// Coalesces two requests: each flag is set when either sets it.
    pub fn merge(self, other: SurfaceUserRequest) -> (r: SurfaceUserRequest)
        ensures
            r.redraw_requested == (self.redraw_requested || other.redraw_requested),
            r.refresh_frame == (self.refresh_frame || other.refresh_frame),
    {
        SurfaceUserRequest {
            redraw_requested: self.redraw_requested || other.redraw_requested,
            refresh_frame: self.refresh_frame || other.refresh_frame,
        }
    }

    /// Whether this request leads to a redraw: refreshing the frame forces one.
    pub fn needs_redraw(&self) -> (r: bool)
        ensures
            r == (self.redraw_requested || self.refresh_frame),
    {
        self.redraw_requested || self.refresh_frame
    }
}

/// The update of a surface that the compositor pushed since the last drain.
/// Updates coalesce: the latest configure and scale factor win, and the flags
/// accumulate.
#[derive(Debug, Clone, Copy)]
pub struct SurfaceCompositorUpdate {
    /// The latest configure.
    pub configure: Option<SurfaceConfigure>,
    /// Whether one of the configures was the surface's first.
    pub first: bool,
    /// The latest scale factor.
    pub scale_factor: Option<u32>,
    /// Whether the compositor asked to close the surface.
    pub close_window: bool,
}

impl SurfaceCompositorUpdate {
    /// An update that holds nothing.
    pub fn empty() -> (r: SurfaceCompositorUpdate)
        ensures
            r == empty_update(),
    {
        SurfaceCompositorUpdate { configure: None, first: false, scale_factor: None, close_window: false }
    }
}

/// The update that holds nothing.
pub open spec fn empty_update() -> SurfaceCompositorUpdate {
    SurfaceCompositorUpdate { configure: None, first: false, scale_factor: None, close_window: false }
}

} // verus!
