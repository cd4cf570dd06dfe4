use vstd::prelude::*;

use crate::sctk_event::{
    Capability, KeyEvent, KeyboardEventVariant, LogicalSize, Modifiers, ObjectId, PointerEvent,
    PointerEventKind, SctkEvent, SeatEventVariant, SurfaceCompositorUpdate, SurfaceConfigure,
    SurfaceId, SurfaceUserRequest,
};

verus! {

/// One input seat, with the objects bound for its capabilities and its focus.
#[derive(Debug, Clone, Copy)]
pub struct SctkSeat {
    pub seat: ObjectId,
    pub kbd: Option<ObjectId>,
    /// The surface that has keyboard focus.
    pub kbd_focus: Option<ObjectId>,
    pub last_kbd_press: Option<KeyEvent>,
    pub ptr: Option<ObjectId>,
    /// The surface that has pointer focus.
    pub ptr_focus: Option<ObjectId>,
    /// The last pointer press: (time, button, serial).
    pub last_ptr_press: Option<(u32, u32, u32)>,
    pub touch: Option<ObjectId>,
    pub modifiers: Modifiers,
}

/// A surface by its kind and protocol object.
#[derive(Debug, Clone, Copy, PartialEq, Eq, Structural)]
pub enum SctkSurface {
    LayerSurface(ObjectId),
    Window(ObjectId),
    Popup(ObjectId),
}

impl SctkSurface {
    /// The protocol object of the surface.
    pub fn object(&self) -> (r: ObjectId)
        ensures
            r == self.object_spec(),
    {
        match self {
            SctkSurface::LayerSurface(o) => *o,
            SctkSurface::Window(o) => *o,
            SctkSurface::Popup(o) => *o,
        }
    }

    pub open spec fn object_spec(&self) -> ObjectId {
        match self {
            SctkSurface::LayerSurface(o) => *o,
            SctkSurface::Window(o) => *o,
            SctkSurface::Popup(o) => *o,
        }
    }
}

/// How a window is shown.
#[derive(Debug, Clone, Copy, PartialEq, Eq, Structural)]
pub enum Mode {
    Windowed,
    Fullscreen,
    Hidden,
}

/// The layer that a layer surface is drawn in.
#[derive(Debug, Clone, Copy, PartialEq, Eq, Structural)]
pub enum Layer {
    Background,
    Bottom,
    Top,
    Overlay,
}

/// The screen edges that a layer surface is anchored to.
#[derive(Debug, Default, Clone, Copy, PartialEq, Eq, Structural)]
pub struct Anchor {
    pub top: bool,
    pub bottom: bool,
    pub left: bool,
    pub right: bool,
}

/// Whether a layer surface takes keyboard focus.
#[derive(Debug, Clone, Copy, PartialEq, Eq, Structural)]
pub enum KeyboardInteractivity {
    NoInteraction,
    Exclusive,
    OnDemand,
}

/// The margins of a layer surface, from its anchored edges.
#[derive(Debug, Default, Clone, Copy, PartialEq, Eq, Structural)]
pub struct IcedMargin {
    pub top: i32,
    pub right: i32,
    pub bottom: i32,
    pub left: i32,
}

/// Where a popup goes, relative to its parent.
#[derive(Debug, Clone, Copy)]
pub struct Positioner {
    /// The size of the popup.
    pub size: LogicalSize,
    /// The rectangle of the parent that the popup is placed against: x, y,
    /// width, height.
    pub anchor_rect: (i32, i32, i32, i32),
    /// An offset from the anchor point.
    pub offset: (i32, i32),
}

/// What only a top-level window holds.
#[derive(Debug, Clone, Copy)]
pub struct SctkWindow {
    pub mode: Mode,
}

/// What only a layer surface holds.
#[derive(Debug, Clone, Copy)]
pub struct SctkLayerSurface {
    pub layer: Layer,
    pub anchor: Anchor,
    pub keyboard_interactivity: KeyboardInteractivity,
    pub margin: IcedMargin,
    pub exclusive_zone: i32,
}

/// What only a popup holds.
#[derive(Debug, Clone, Copy)]
pub struct SctkPopup {
    /// The surface that the popup is attached to.
    pub parent: SctkSurface,
    /// The window or layer surface at the root of the popup's tree.
    pub toplevel: ObjectId,
    pub positioner: Positioner,
    pub grabbed: bool,
}

/// The kind of a surface, with what that kind holds.
#[derive(Debug, Clone, Copy)]
pub enum SurfaceRole {
    Window(SctkWindow),
    LayerSurface(SctkLayerSurface),
    Popup(SctkPopup),
}

/// The record of one surface.
#[derive(Debug, Clone, Copy)]
pub struct SurfaceRecord {
    pub id: SurfaceId,
    pub object: ObjectId,
    pub role: SurfaceRole,
    /// The size that the application asked for.
    pub requested_size: Option<LogicalSize>,
    /// The size negotiated with the compositor; `None` until the first
    /// configure gives one.
    pub current_size: Option<LogicalSize>,
    pub scale_factor: u32,
    /// The configure applied last; `None` until the first.
    pub last_configure: Option<SurfaceConfigure>,
    /// What the compositor pushed since the last drain.
    pub compositor_update: SurfaceCompositorUpdate,
    /// What the application asked for since the last drain.
    pub user_request: SurfaceUserRequest,
}

impl SurfaceRecord {
    /// This surface as a kind and an object.
    pub fn surface(&self) -> (r: SctkSurface)
        ensures
            r == self.surface_spec(),
    {
        match self.role {
            SurfaceRole::Window(_) => SctkSurface::Window(self.object),
            SurfaceRole::LayerSurface(_) => SctkSurface::LayerSurface(self.object),
            SurfaceRole::Popup(_) => SctkSurface::Popup(self.object),
        }
    }

    pub open spec fn surface_spec(&self) -> SctkSurface {
        match self.role {
            SurfaceRole::Window(_) => SctkSurface::Window(self.object),
            SurfaceRole::LayerSurface(_) => SctkSurface::LayerSurface(self.object),
            SurfaceRole::Popup(_) => SctkSurface::Popup(self.object),
        }
    }
}

/// A request to the compositor, queued until the loop flushes it.
#[derive(Debug, Clone, Copy)]
pub enum ProtocolRequest {
    /// Give `object` the role of a top-level window.
    GetWindow { object: ObjectId, size: Option<LogicalSize> },
    /// Give `object` the role of a layer surface.
    GetLayerSurface { object: ObjectId, layer: SctkLayerSurface, size: Option<LogicalSize> },
    /// Give `object` the role of a popup of `parent`.
    GetPopup { object: ObjectId, parent: SctkSurface, positioner: Positioner },
    SetSize { object: ObjectId, width: u32, height: u32 },
    SetAnchor { object: ObjectId, anchor: Anchor },
    SetExclusiveZone { object: ObjectId, zone: i32 },
    SetMargin { object: ObjectId, margin: IcedMargin },
    SetKeyboardInteractivity { object: ObjectId, keyboard_interactivity: KeyboardInteractivity },
    SetLayer { object: ObjectId, layer: Layer },
    SetWindowGeometry { object: ObjectId, width: u32, height: u32 },
    SetMode { object: ObjectId, mode: Mode },
    Reposition { object: ObjectId, positioner: Positioner },
    Grab { object: ObjectId, seat: ObjectId, serial: u32 },
    Commit(ObjectId),
    DestroyWindow(ObjectId),
    DestroyLayerSurface(ObjectId),
    DestroyPopup(ObjectId),
}

/// A change of a layer surface, as a request from the application.
#[derive(Debug, Clone, Copy)]
pub enum LayerSurfaceRequest {
    /// Ask for a size.
    Size(LogicalSize),
    /// Leave fullscreen.
    UnsetFullscreen,
    /// Show the cursor over the surface or not.
    ShowCursor(bool),
    /// Set the anchored edges.
    Anchor(Anchor),
    /// Set the exclusive zone.
    ExclusiveZone(i32),
    /// Set the margins.
    Margin(IcedMargin),
    /// Set whether the surface takes keyboard focus.
    KeyboardInteractivity(KeyboardInteractivity),
    /// Redraw the surface.
    Redraw,
    /// Close the surface.
    Close,
}

/// The state that the protocol callbacks and the loop share.
pub struct SctkState<T> {
    /// All present outputs.
    pub outputs: Vec<ObjectId>,
    /// All seats; the first is the active one for keyboard routing.
    pub seats: Vec<SctkSeat>,
    /// All live surfaces.
    pub surfaces: Vec<SurfaceRecord>,
    /// Logical identities of closed surfaces, which are never reused.
    pub retired: Vec<SurfaceId>,
    /// The sink that callbacks fill and the loop drains.
    pub sctk_events: Vec<SctkEvent>,
    /// Requests not yet flushed to the compositor.
    pub requests: Vec<ProtocolRequest>,
    /// Events of the application, from background tasks.
    pub pending_user_events: Vec<T>,
}

/// Whether `i` is the first seat with this seat object.
pub open spec fn is_first_seat(seats: Seq<SctkSeat>, seat: ObjectId, i: int) -> bool {
    &&& 0 <= i < seats.len()
    &&& seats[i].seat == seat
    &&& forall|j: int| 0 <= j < i ==> seats[j].seat != seat
}

/// Whether `i` is the first seat with this keyboard bound.
pub open spec fn is_first_kbd(seats: Seq<SctkSeat>, kbd: ObjectId, i: int) -> bool {
    &&& 0 <= i < seats.len()
    &&& seats[i].kbd == Some(kbd)
    &&& forall|j: int| 0 <= j < i ==> seats[j].kbd != Some(kbd)
}

/// Whether `i` is the first seat with this pointer bound.
pub open spec fn is_first_ptr(seats: Seq<SctkSeat>, ptr: ObjectId, i: int) -> bool {
    &&& 0 <= i < seats.len()
    &&& seats[i].ptr == Some(ptr)
    &&& forall|j: int| 0 <= j < i ==> seats[j].ptr != Some(ptr)
}

/// A seat that has nothing bound yet.
pub open spec fn fresh_seat(seat: ObjectId) -> SctkSeat {
    SctkSeat {
        seat,
        kbd: None,
        kbd_focus: None,
        last_kbd_press: None,
        ptr: None,
        ptr_focus: None,
        last_ptr_press: None,
        touch: None,
        modifiers: Modifiers {
            ctrl: false,
            alt: false,
            shift: false,
            caps_lock: false,
            logo: false,
            num_lock: false,
        },
    }
}

/// The seat after a pointer event: focus follows enter and leave, and a press
/// is remembered.
pub open spec fn seat_after_pointer(s: SctkSeat, e: PointerEvent) -> SctkSeat {
    match e.kind {
        PointerEventKind::Enter { .. } => SctkSeat { ptr_focus: Some(e.surface), ..s },
        PointerEventKind::Leave { .. } => SctkSeat { ptr_focus: None, ..s },
        PointerEventKind::Press { time, button, serial } => SctkSeat {
            last_ptr_press: Some((time, button, serial)),
            ..s
        },
        _ => s,
    }
}

/// The seat after a whole pointer frame.
pub open spec fn seat_after_frame(s: SctkSeat, events: Seq<PointerEvent>) -> SctkSeat
    decreases events.len(),
{
    if events.len() == 0 {
        s
    } else {
        seat_after_pointer(seat_after_frame(s, events.drop_last()), events.last())
    }
}

/// The sink events of a pointer frame: one per pointer event, in order.
pub open spec fn pointer_frame_events(events: Seq<PointerEvent>, ptr: ObjectId, seat: ObjectId) -> Seq<SctkEvent> {
    events.map_values(|e: PointerEvent| SctkEvent::PointerEvent { variant: e, ptr_id: ptr, seat_id: seat })
}

impl<T> SctkState<T> {
    /// A state with nothing in it.
    pub fn new() -> (r: Self)
        ensures
            r.outputs@.len() == 0,
            r.seats@.len() == 0,
            r.surfaces@.len() == 0,
            r.retired@.len() == 0,
            r.sctk_events@.len() == 0,
            r.requests@.len() == 0,
            r.pending_user_events@.len() == 0,
            r.well_formed(),
    {
        SctkState {
            outputs: Vec::new(),
            seats: Vec::new(),
            surfaces: Vec::new(),
            retired: Vec::new(),
            sctk_events: Vec::new(),
            requests: Vec::new(),
            pending_user_events: Vec::new(),
        }
    }

    /// The invariant of the registry: protocol objects and logical
    /// identities are unique among live surfaces, no live surface has a
    /// retired identity, and the popup that a popup is attached to is live
    /// and stands before it.
    pub open spec fn well_formed(&self) -> bool {
        &&& forall|i: int, j: int|
            0 <= i < j < self.surfaces@.len() ==> self.surfaces@[i].object != self.surfaces@[j].object
        &&& forall|i: int, j: int|
            0 <= i < j < self.surfaces@.len() ==> self.surfaces@[i].id != self.surfaces@[j].id
        &&& forall|i: int, k: int|
            0 <= i < self.surfaces@.len() && 0 <= k < self.retired@.len() ==> self.surfaces@[i].id != self.retired@[k]
        &&& forall|i: int| 0 <= i < self.surfaces@.len() ==> parent_before(self.surfaces@, i)
    }

    /// The index of the first seat with this seat object.
    pub fn find_seat(&self, seat: ObjectId) -> (r: Option<usize>)
        ensures
            match r {
                Some(i) => is_first_seat(self.seats@, seat, i as int),
                None => forall|j: int| 0 <= j < self.seats@.len() ==> self.seats@[j].seat != seat,
            },
    {
        let mut i: usize = 0;
        while i < self.seats.len()
            invariant
                i <= self.seats@.len(),
                forall|j: int| 0 <= j < i ==> self.seats@[j].seat != seat,
            decreases self.seats@.len() - i,
        {
            if self.seats[i].seat == seat {
                return Some(i);
            }
            i = i + 1;
        }
        None
    }

    /// The index of the first seat with this keyboard bound.
    pub fn find_kbd(&self, kbd: ObjectId) -> (r: Option<usize>)
        ensures
            match r {
                Some(i) => is_first_kbd(self.seats@, kbd, i as int),
                None => forall|j: int| 0 <= j < self.seats@.len() ==> self.seats@[j].kbd != Some(kbd),
            },
    {
        let mut i: usize = 0;
        while i < self.seats.len()
            invariant
                i <= self.seats@.len(),
                forall|j: int| 0 <= j < i ==> self.seats@[j].kbd != Some(kbd),
            decreases self.seats@.len() - i,
        {
            match self.seats[i].kbd {
                Some(k) => {
                    if k == kbd {
                        return Some(i);
                    }
                },
                None => {},
            }
            i = i + 1;
        }
        None
    }

    /// The index of the first seat with this pointer bound.
    pub fn find_ptr(&self, ptr: ObjectId) -> (r: Option<usize>)
        ensures
            match r {
                Some(i) => is_first_ptr(self.seats@, ptr, i as int),
                None => forall|j: int| 0 <= j < self.seats@.len() ==> self.seats@[j].ptr != Some(ptr),
            },
    {
        let mut i: usize = 0;
        while i < self.seats.len()
            invariant
                i <= self.seats@.len(),
                forall|j: int| 0 <= j < i ==> self.seats@[j].ptr != Some(ptr),
            decreases self.seats@.len() - i,
        {
            match self.seats[i].ptr {
                Some(p) => {
                    if p == ptr {
                        return Some(i);
                    }
                },
                None => {},
            }
            i = i + 1;
        }
        None
    }

    /// The surface with keyboard focus on the active seat, the first.
    pub fn active_keyboard_focus(&self) -> (r: Option<ObjectId>)
        ensures
            r == (if self.seats@.len() > 0 { self.seats@[0].kbd_focus } else { None }),
    {
        if self.seats.len() > 0 {
            self.seats[0].kbd_focus
        } else {
            None
        }
    }

    /// A seat was announced: it is tracked, with nothing bound yet.
    pub fn new_seat(&mut self, seat: ObjectId)
        ensures
            final(self).seats@ == old(self).seats@.push(fresh_seat(seat)),
            final(self).sctk_events@ == old(self).sctk_events@.push(
                SctkEvent::SeatEvent { variant: SeatEventVariant::New, id: seat },
            ),
            final(self).surfaces@ == old(self).surfaces@,
            final(self).retired@ == old(self).retired@,
            final(self).requests@ == old(self).requests@,
    {
        self.sctk_events.push(SctkEvent::SeatEvent { variant: SeatEventVariant::New, id: seat });
        self.seats.push(SctkSeat {
            seat,
            kbd: None,
            kbd_focus: None,
            last_kbd_press: None,
            ptr: None,
            ptr_focus: None,
            last_ptr_press: None,
            touch: None,
            modifiers: Modifiers {
                ctrl: false,
                alt: false,
                shift: false,
                caps_lock: false,
                logo: false,
                num_lock: false,
            },
        });
    }

    /// A seat gained a capability, and `bound` is the object that the caller
    /// bound for it, if binding succeeded. Keyboards and pointers are
    /// recorded and announced; touch is not tracked. A seat that is not known
    /// is ignored.
    pub fn new_capability(&mut self, seat: ObjectId, capability: Capability, bound: Option<ObjectId>)
        ensures
            final(self).surfaces@ == old(self).surfaces@,
            final(self).retired@ == old(self).retired@,
            final(self).requests@ == old(self).requests@,
            (forall|j: int| 0 <= j < old(self).seats@.len() ==> old(self).seats@[j].seat != seat)
                || capability is Touch || bound is None ==> {
                &&& final(self).seats@ == old(self).seats@
                &&& final(self).sctk_events@ == old(self).sctk_events@
            },
            forall|i: int|
                is_first_seat(old(self).seats@, seat, i) && !(capability is Touch) && bound is Some ==> {
                    &&& final(self).seats@ == old(self).seats@.update(
                        i,
                        if capability is Keyboard {
                            SctkSeat { kbd: bound, ..old(self).seats@[i] }
                        } else {
                            SctkSeat { ptr: bound, ..old(self).seats@[i] }
                        },
                    )
                    &&& final(self).sctk_events@ == old(self).sctk_events@.push(
                        SctkEvent::SeatEvent {
                            variant: SeatEventVariant::NewCapability(capability, bound->0),
                            id: seat,
                        },
                    )
                },
    {
        let i = match self.find_seat(seat) {
            Some(i) => i,
            None => return,
        };
        let object = match bound {
            Some(o) => o,
            None => return,
        };
        match capability {
            Capability::Keyboard => {
                self.sctk_events.push(SctkEvent::SeatEvent {
                    variant: SeatEventVariant::NewCapability(capability, object),
                    id: seat,
                });
                self.seats[i].kbd = Some(object);
            },
            Capability::Pointer => {
                self.sctk_events.push(SctkEvent::SeatEvent {
                    variant: SeatEventVariant::NewCapability(capability, object),
                    id: seat,
                });
                self.seats[i].ptr = Some(object);
            },
            Capability::Touch => {},
        }
    }

    /// A seat lost a capability: the bound keyboard or pointer is released
    /// and its removal announced. A seat that is not known, or a capability
    /// with nothing bound, is ignored.
    pub fn remove_capability(&mut self, seat: ObjectId, capability: Capability)
        ensures
            final(self).surfaces@ == old(self).surfaces@,
            final(self).retired@ == old(self).retired@,
            final(self).requests@ == old(self).requests@,
            (forall|j: int| 0 <= j < old(self).seats@.len() ==> old(self).seats@[j].seat != seat)
                || capability is Touch ==> {
                &&& final(self).seats@ == old(self).seats@
                &&& final(self).sctk_events@ == old(self).sctk_events@
            },
            forall|i: int|
                is_first_seat(old(self).seats@, seat, i) && !(capability is Touch) ==> {
                    let s = old(self).seats@[i];
                    let bound = if capability is Keyboard { s.kbd } else { s.ptr };
                    &&& final(self).seats@ == old(self).seats@.update(
                        i,
                        if capability is Keyboard {
                            SctkSeat { kbd: None, ..s }
                        } else {
                            SctkSeat { ptr: None, ..s }
                        },
                    )
                    &&& final(self).sctk_events@ == match bound {
                        Some(o) => old(self).sctk_events@.push(
                            SctkEvent::SeatEvent {
                                variant: SeatEventVariant::RemoveCapability(capability, o),
                                id: seat,
                            },
                        ),
                        None => old(self).sctk_events@,
                    }
                },
    {
        let i = match self.find_seat(seat) {
            Some(i) => i,
            None => return,
        };
        match capability {
            Capability::Keyboard => {
                if let Some(kbd) = self.seats[i].kbd {
                    self.sctk_events.push(SctkEvent::SeatEvent {
                        variant: SeatEventVariant::RemoveCapability(capability, kbd),
                        id: seat,
                    });
                }
                self.seats[i].kbd = None;
            },
            Capability::Pointer => {
                if let Some(ptr) = self.seats[i].ptr {
                    self.sctk_events.push(SctkEvent::SeatEvent {
                        variant: SeatEventVariant::RemoveCapability(capability, ptr),
                        id: seat,
                    });
                }
                self.seats[i].ptr = None;
            },
            Capability::Touch => {},
        }
    }

    /// A seat went away: its removal is announced and its first record
    /// dropped.
    pub fn remove_seat(&mut self, seat: ObjectId)
        ensures
            final(self).sctk_events@ == old(self).sctk_events@.push(
                SctkEvent::SeatEvent { variant: SeatEventVariant::Remove, id: seat },
            ),
            (forall|j: int| 0 <= j < old(self).seats@.len() ==> old(self).seats@[j].seat != seat)
                ==> final(self).seats@ == old(self).seats@,
            forall|i: int|
                is_first_seat(old(self).seats@, seat, i) ==> final(self).seats@ == old(self).seats@.remove(i),
            final(self).surfaces@ == old(self).surfaces@,
            final(self).retired@ == old(self).retired@,
            final(self).requests@ == old(self).requests@,
    {
        self.sctk_events.push(SctkEvent::SeatEvent { variant: SeatEventVariant::Remove, id: seat });
        if let Some(i) = self.find_seat(seat) {
            self.seats.remove(i);
        }
    }
}

/// The sink after a keyboard callback on the seat at `i`: only the active
/// seat, the first, reports to the toolkit.
pub open spec fn keyboard_events(
    events: Seq<SctkEvent>,
    seats: Seq<SctkSeat>,
    i: int,
    kbd: ObjectId,
    variant: KeyboardEventVariant,
) -> Seq<SctkEvent> {
    if i == 0 {
        events.push(SctkEvent::KeyboardEvent { variant, kbd_id: kbd, seat_id: seats[i].seat })
    } else {
        events
    }
}

impl<T> SctkState<T> {
    /// Keyboard focus entered `surface`.
    pub fn enter(&mut self, kbd: ObjectId, surface: ObjectId)
        ensures
            final(self).surfaces@ == old(self).surfaces@,
            final(self).retired@ == old(self).retired@,
            final(self).requests@ == old(self).requests@,
            (forall|j: int| 0 <= j < old(self).seats@.len() ==> old(self).seats@[j].kbd != Some(kbd)) ==> {
                &&& final(self).seats@ == old(self).seats@
                &&& final(self).sctk_events@ == old(self).sctk_events@
            },
            forall|i: int|
                is_first_kbd(old(self).seats@, kbd, i) ==> {
                    &&& final(self).seats@ == old(self).seats@.update(
                        i,
                        SctkSeat { kbd_focus: Some(surface), ..old(self).seats@[i] },
                    )
                    &&& final(self).sctk_events@ == keyboard_events(
                        old(self).sctk_events@,
                        old(self).seats@,
                        i,
                        kbd,
                        KeyboardEventVariant::Enter(surface),
                    )
                },
    {
        let i = match self.find_kbd(kbd) {
            Some(i) => i,
            None => return,
        };
        self.seats[i].kbd_focus = Some(surface);
        if i == 0 {
            let seat_id = self.seats[i].seat;
            self.sctk_events.push(SctkEvent::KeyboardEvent {
                variant: KeyboardEventVariant::Enter(surface),
                kbd_id: kbd,
                seat_id,
            });
        }
    }

    /// Keyboard focus left `surface`.
    pub fn leave(&mut self, kbd: ObjectId, surface: ObjectId)
        ensures
            final(self).surfaces@ == old(self).surfaces@,
            final(self).retired@ == old(self).retired@,
            final(self).requests@ == old(self).requests@,
            (forall|j: int| 0 <= j < old(self).seats@.len() ==> old(self).seats@[j].kbd != Some(kbd)) ==> {
                &&& final(self).seats@ == old(self).seats@
                &&& final(self).sctk_events@ == old(self).sctk_events@
            },
            forall|i: int|
                is_first_kbd(old(self).seats@, kbd, i) ==> {
                    &&& final(self).seats@ == old(self).seats@.update(
                        i,
                        SctkSeat { kbd_focus: None, ..old(self).seats@[i] },
                    )
                    &&& final(self).sctk_events@ == keyboard_events(
                        old(self).sctk_events@,
                        old(self).seats@,
                        i,
                        kbd,
                        KeyboardEventVariant::Leave(surface),
                    )
                },
    {
        let i = match self.find_kbd(kbd) {
            Some(i) => i,
            None => return,
        };
        self.seats[i].kbd_focus = None;
        if i == 0 {
            let seat_id = self.seats[i].seat;
            self.sctk_events.push(SctkEvent::KeyboardEvent {
                variant: KeyboardEventVariant::Leave(surface),
                kbd_id: kbd,
                seat_id,
            });
        }
    }

    /// A key was pressed; the seat remembers it.
    pub fn press_key(&mut self, kbd: ObjectId, event: KeyEvent)
        ensures
            final(self).surfaces@ == old(self).surfaces@,
            final(self).retired@ == old(self).retired@,
            final(self).requests@ == old(self).requests@,
            (forall|j: int| 0 <= j < old(self).seats@.len() ==> old(self).seats@[j].kbd != Some(kbd)) ==> {
                &&& final(self).seats@ == old(self).seats@
                &&& final(self).sctk_events@ == old(self).sctk_events@
            },
            forall|i: int|
                is_first_kbd(old(self).seats@, kbd, i) ==> {
                    &&& final(self).seats@ == old(self).seats@.update(
                        i,
                        SctkSeat { last_kbd_press: Some(event), ..old(self).seats@[i] },
                    )
                    &&& final(self).sctk_events@ == keyboard_events(
                        old(self).sctk_events@,
                        old(self).seats@,
                        i,
                        kbd,
                        KeyboardEventVariant::Press(event),
                    )
                },
    {
        let i = match self.find_kbd(kbd) {
            Some(i) => i,
            None => return,
        };
        self.seats[i].last_kbd_press = Some(event);
        if i == 0 {
            let seat_id = self.seats[i].seat;
            self.sctk_events.push(SctkEvent::KeyboardEvent {
                variant: KeyboardEventVariant::Press(event),
                kbd_id: kbd,
                seat_id,
            });
        }
    }

    /// A key was released.
    pub fn release_key(&mut self, kbd: ObjectId, event: KeyEvent)
        ensures
            final(self).surfaces@ == old(self).surfaces@,
            final(self).retired@ == old(self).retired@,
            final(self).requests@ == old(self).requests@,
            final(self).seats@ == old(self).seats@,
            (forall|j: int| 0 <= j < old(self).seats@.len() ==> old(self).seats@[j].kbd != Some(kbd))
                ==> final(self).sctk_events@ == old(self).sctk_events@,
            forall|i: int|
                is_first_kbd(old(self).seats@, kbd, i) ==> final(self).sctk_events@ == keyboard_events(
                    old(self).sctk_events@,
                    old(self).seats@,
                    i,
                    kbd,
                    KeyboardEventVariant::Release(event),
                ),
    {
        let i = match self.find_kbd(kbd) {
            Some(i) => i,
            None => return,
        };
        if i == 0 {
            let seat_id = self.seats[i].seat;
            self.sctk_events.push(SctkEvent::KeyboardEvent {
                variant: KeyboardEventVariant::Release(event),
                kbd_id: kbd,
                seat_id,
            });
        }
    }

    /// The modifier state of a keyboard changed; the seat keeps it.
    pub fn update_modifiers(&mut self, kbd: ObjectId, modifiers: Modifiers)
        ensures
            final(self).surfaces@ == old(self).surfaces@,
            final(self).retired@ == old(self).retired@,
            final(self).requests@ == old(self).requests@,
            (forall|j: int| 0 <= j < old(self).seats@.len() ==> old(self).seats@[j].kbd != Some(kbd)) ==> {
                &&& final(self).seats@ == old(self).seats@
                &&& final(self).sctk_events@ == old(self).sctk_events@
            },
            forall|i: int|
                is_first_kbd(old(self).seats@, kbd, i) ==> {
                    &&& final(self).seats@ == old(self).seats@.update(
                        i,
                        SctkSeat { modifiers, ..old(self).seats@[i] },
                    )
                    &&& final(self).sctk_events@ == keyboard_events(
                        old(self).sctk_events@,
                        old(self).seats@,
                        i,
                        kbd,
                        KeyboardEventVariant::Modifiers(modifiers),
                    )
                },
    {
        let i = match self.find_kbd(kbd) {
            Some(i) => i,
            None => return,
        };
        self.seats[i].modifiers = modifiers;
        if i == 0 {
            let seat_id = self.seats[i].seat;
            self.sctk_events.push(SctkEvent::KeyboardEvent {
                variant: KeyboardEventVariant::Modifiers(modifiers),
                kbd_id: kbd,
                seat_id,
            });
        }
    }

    /// A frame of pointer events: each is put in the sink, in order, and the
    /// seat's pointer focus and last press follow them. A pointer that no
    /// seat has bound is ignored.
    pub fn pointer_frame(&mut self, ptr: ObjectId, events: &Vec<PointerEvent>)
        ensures
            final(self).surfaces@ == old(self).surfaces@,
            final(self).retired@ == old(self).retired@,
            final(self).requests@ == old(self).requests@,
            (forall|j: int| 0 <= j < old(self).seats@.len() ==> old(self).seats@[j].ptr != Some(ptr)) ==> {
                &&& final(self).seats@ == old(self).seats@
                &&& final(self).sctk_events@ == old(self).sctk_events@
            },
            forall|i: int|
                is_first_ptr(old(self).seats@, ptr, i) ==> {
                    &&& final(self).seats@ == old(self).seats@.update(
                        i,
                        seat_after_frame(old(self).seats@[i], events@),
                    )
                    &&& final(self).sctk_events@ == old(self).sctk_events@ + pointer_frame_events(
                        events@,
                        ptr,
                        old(self).seats@[i].seat,
                    )
                },
    {
        let i = match self.find_ptr(ptr) {
            Some(i) => i,
            None => return,
        };
        let seat_id = self.seats[i].seat;
        let mut k: usize = 0;
        while k < events.len()
            invariant
                i < old(self).seats@.len(),
                k <= events@.len(),
                seat_id == old(self).seats@[i as int].seat,
                self.surfaces@ == old(self).surfaces@,
                self.retired@ == old(self).retired@,
                self.requests@ == old(self).requests@,
                self.seats@ == old(self).seats@.update(
                    i as int,
                    seat_after_frame(old(self).seats@[i as int], events@.subrange(0, k as int)),
                ),
                self.sctk_events@ == old(self).sctk_events@ + pointer_frame_events(
                    events@.subrange(0, k as int),
                    ptr,
                    seat_id,
                ),
            decreases events@.len() - k,
        {
            let e = events[k];
            proof {
                assert(events@.subrange(0, k + 1).drop_last() =~= events@.subrange(0, k as int));
            }
            self.sctk_events.push(SctkEvent::PointerEvent { variant: e, ptr_id: ptr, seat_id });
            match e.kind {
                PointerEventKind::Enter { .. } => {
                    self.seats[i].ptr_focus = Some(e.surface);
                },
                PointerEventKind::Leave { .. } => {
                    self.seats[i].ptr_focus = None;
                },
                PointerEventKind::Press { time, button, serial } => {
                    self.seats[i].last_ptr_press = Some((time, button, serial));
                },
                _ => {},
            }
            k = k + 1;
            proof {
                assert(pointer_frame_events(events@.subrange(0, k as int), ptr, seat_id)
                    =~= pointer_frame_events(events@.subrange(0, k - 1), ptr, seat_id).push(
                    SctkEvent::PointerEvent { variant: e, ptr_id: ptr, seat_id },
                ));
            }
        }
        proof {
            assert(events@.subrange(0, events@.len() as int) =~= events@);
        }
    }
}

/// Whether the configure is of the surface's kind.
pub open spec fn configure_fits(role: SurfaceRole, c: SurfaceConfigure) -> bool {
    match (role, c) {
        (SurfaceRole::Window(_), SurfaceConfigure::Window(_)) => true,
        (SurfaceRole::LayerSurface(_), SurfaceConfigure::LayerSurface(_)) => true,
        (SurfaceRole::Popup(_), SurfaceConfigure::Popup(_)) => true,
        _ => false,
    }
}

/// The record after a configure callback: the configure is kept as the last
/// one and as the pending update (the latest wins), and a first configure is
/// marked as such until the update is drained.
pub open spec fn on_configure(r: SurfaceRecord, c: SurfaceConfigure) -> SurfaceRecord {
    SurfaceRecord {
        last_configure: Some(c),
        compositor_update: SurfaceCompositorUpdate {
            configure: Some(c),
            first: r.compositor_update.first || r.last_configure is None,
            ..r.compositor_update
        },
        ..r
    }
}

/// A record of a surface that was just created: nothing negotiated yet.
pub open spec fn new_record(id: SurfaceId, object: ObjectId, role: SurfaceRole, size: Option<LogicalSize>) -> SurfaceRecord {
    SurfaceRecord {
        id,
        object,
        role,
        requested_size: size,
        current_size: None,
        scale_factor: 1,
        last_configure: None,
        compositor_update: crate::sctk_event::empty_update(),
        user_request: SurfaceUserRequest { redraw_requested: false, refresh_frame: false },
    }
}

/// Why a surface could not be registered.
#[derive(Debug, Clone, Copy, PartialEq, Eq, Structural)]
pub enum RegistryError {
    /// The protocol object already belongs to a live surface.
    ObjectInUse,
    /// The logical identity belongs to a live surface or a closed one.
    IdInUse,
    /// The surface to attach a popup to is not live.
    UnknownParent,
}

impl<T> SctkState<T> {
    /// Whether a live surface has this protocol object.
    pub open spec fn has_object(&self, object: ObjectId) -> bool {
        exists|j: int| 0 <= j < self.surfaces@.len() && self.surfaces@[j].object == object
    }

    /// Whether a live surface or a closed one had this logical identity.
    pub open spec fn id_taken(&self, id: SurfaceId) -> bool {
        ||| exists|j: int| 0 <= j < self.surfaces@.len() && self.surfaces@[j].id == id
        ||| self.retired@.contains(id)
    }

    /// The index of the surface with this protocol object.
    pub fn find_surface(&self, object: ObjectId) -> (r: Option<usize>)
        ensures
            match r {
                Some(i) => i < self.surfaces@.len() && self.surfaces@[i as int].object == object,
                None => !self.has_object(object),
            },
    {
        let mut i: usize = 0;
        while i < self.surfaces.len()
            invariant
                i <= self.surfaces@.len(),
                forall|j: int| 0 <= j < i ==> self.surfaces@[j].object != object,
            decreases self.surfaces@.len() - i,
        {
            if self.surfaces[i].object == object {
                return Some(i);
            }
            i = i + 1;
        }
        None
    }

    /// The index of the live surface with this logical identity.
    pub fn find_id(&self, id: SurfaceId) -> (r: Option<usize>)
        ensures
            match r {
                Some(i) => i < self.surfaces@.len() && self.surfaces@[i as int].id == id,
                None => forall|j: int| 0 <= j < self.surfaces@.len() ==> self.surfaces@[j].id != id,
            },
    {
        let mut i: usize = 0;
        while i < self.surfaces.len()
            invariant
                i <= self.surfaces@.len(),
                forall|j: int| 0 <= j < i ==> self.surfaces@[j].id != id,
            decreases self.surfaces@.len() - i,
        {
            if self.surfaces[i].id == id {
                return Some(i);
            }
            i = i + 1;
        }
        None
    }

    /// Whether a live or a closed surface had this logical identity.
    pub fn is_id_taken(&self, id: SurfaceId) -> (r: bool)
        ensures
            r == self.id_taken(id),
    {
        if self.find_id(id).is_some() {
            return true;
        }
        let mut k: usize = 0;
        while k < self.retired.len()
            invariant
                k <= self.retired@.len(),
                forall|j: int| 0 <= j < k ==> self.retired@[j] != id,
            decreases self.retired@.len() - k,
        {
            if self.retired[k] == id {
                assert(self.retired@.contains(id)) by {
                    assert(self.retired@[k as int] == id);
                }
                return true;
            }
            k = k + 1;
        }
        false
    }

    /// Adds a record for a new surface, unless its object or identity is
    /// taken.
    fn register(&mut self, record: SurfaceRecord) -> (r: Result<(), RegistryError>)
        requires
            old(self).well_formed(),
            parent_before(old(self).surfaces@.push(record), old(self).surfaces@.len() as int),
        ensures
            final(self).well_formed(),
            final(self).outputs@ == old(self).outputs@,
            final(self).pending_user_events@ == old(self).pending_user_events@,
            r == (if old(self).has_object(record.object) {
                Err::<(), RegistryError>(RegistryError::ObjectInUse)
            } else if old(self).id_taken(record.id) {
                Err(RegistryError::IdInUse)
            } else {
                Ok(())
            }),
            r is Ok ==> final(self).surfaces@ == old(self).surfaces@.push(record),
            r is Err ==> final(self).surfaces@ == old(self).surfaces@,
            final(self).seats@ == old(self).seats@,
            final(self).retired@ == old(self).retired@,
            final(self).sctk_events@ == old(self).sctk_events@,
            final(self).requests@ == old(self).requests@,
    {
        if self.find_surface(record.object).is_some() {
            return Err(RegistryError::ObjectInUse);
        }
        if self.is_id_taken(record.id) {
            return Err(RegistryError::IdInUse);
        }
        self.surfaces.push(record);
        proof {
            assert forall|i: int| 0 <= i < self.surfaces@.len() implies parent_before(self.surfaces@, i) by {
                if i == old(self).surfaces@.len() {
                    assert(self.surfaces@ == old(self).surfaces@.push(record));
                } else {
                    assert(parent_before(old(self).surfaces@, i));
                    if parent_popup(self.surfaces@[i]) is Some {
                        let j = choose|j: int| 0 <= j < i && #[trigger] old(self).surfaces@[j].object == parent_popup(old(self).surfaces@[i])->0 && old(self).surfaces@[j].role is Popup;
                        assert(self.surfaces@[j] == old(self).surfaces@[j]);
                    }
                }
            }
            assert forall|k: int| 0 <= k < self.retired@.len() implies record.id != self.retired@[k] by {
                if record.id == self.retired@[k] {
                    assert(old(self).retired@.contains(record.id));
                }
            }
        }
        Ok(())
    }

    /// Registers a top-level window on the protocol object `object`, with the
    /// size the application asks for, and queues the role request and the
    /// first commit. The record exists before the compositor answers.
    pub fn get_window(&mut self, id: SurfaceId, object: ObjectId, size: Option<LogicalSize>, mode: Mode) -> (r: Result<(), RegistryError>)
        requires
            old(self).well_formed(),
        ensures
            final(self).well_formed(),
            final(self).outputs@ == old(self).outputs@,
            final(self).pending_user_events@ == old(self).pending_user_events@,
            r == (if old(self).has_object(object) {
                Err::<(), RegistryError>(RegistryError::ObjectInUse)
            } else if old(self).id_taken(id) {
                Err(RegistryError::IdInUse)
            } else {
                Ok(())
            }),
            r is Ok ==> {
                &&& final(self).surfaces@ == old(self).surfaces@.push(
                    new_record(id, object, SurfaceRole::Window(SctkWindow { mode }), size),
                )
                &&& final(self).requests@ == old(self).requests@.push(
                    ProtocolRequest::GetWindow { object, size },
                ).push(ProtocolRequest::Commit(object))
            },
            r is Err ==> final(self).surfaces@ == old(self).surfaces@ && final(self).requests@ == old(self).requests@,
            final(self).seats@ == old(self).seats@,
            final(self).retired@ == old(self).retired@,
            final(self).sctk_events@ == old(self).sctk_events@,
    {
        let record = SurfaceRecord {
            id,
            object,
            role: SurfaceRole::Window(SctkWindow { mode }),
            requested_size: size,
            current_size: None,
            scale_factor: 1,
            last_configure: None,
            compositor_update: SurfaceCompositorUpdate::empty(),
            user_request: SurfaceUserRequest { redraw_requested: false, refresh_frame: false },
        };
        let r = self.register(record);
        if r.is_ok() {
            self.requests.push(ProtocolRequest::GetWindow { object, size });
            self.requests.push(ProtocolRequest::Commit(object));
        }
        r
    }

    /// Registers a layer surface on the protocol object `object`, and queues
    /// the role request and the first commit. The record exists before the
    /// compositor answers.
    pub fn get_layer_surface(&mut self, surface: IcedLayerSurface, object: ObjectId) -> (r: Result<(), RegistryError>)
        requires
            old(self).well_formed(),
        ensures
            final(self).well_formed(),
            final(self).outputs@ == old(self).outputs@,
            final(self).pending_user_events@ == old(self).pending_user_events@,
            r == (if old(self).has_object(object) {
                Err::<(), RegistryError>(RegistryError::ObjectInUse)
            } else if old(self).id_taken(surface.id) {
                Err(RegistryError::IdInUse)
            } else {
                Ok(())
            }),
            r is Ok ==> {
                &&& final(self).surfaces@ == old(self).surfaces@.push(
                    new_record(surface.id, object, SurfaceRole::LayerSurface(surface.role_spec()), surface.size),
                )
                &&& final(self).requests@ == old(self).requests@.push(
                    ProtocolRequest::GetLayerSurface { object, layer: surface.role_spec(), size: surface.size },
                ).push(ProtocolRequest::Commit(object))
            },
            r is Err ==> final(self).surfaces@ == old(self).surfaces@ && final(self).requests@ == old(self).requests@,
            final(self).seats@ == old(self).seats@,
            final(self).retired@ == old(self).retired@,
            final(self).sctk_events@ == old(self).sctk_events@,
    {
        let layer = surface.role();
        let record = SurfaceRecord {
            id: surface.id,
            object,
            role: SurfaceRole::LayerSurface(layer),
            requested_size: surface.size,
            current_size: None,
            scale_factor: 1,
            last_configure: None,
            compositor_update: SurfaceCompositorUpdate::empty(),
            user_request: SurfaceUserRequest { redraw_requested: false, refresh_frame: false },
        };
        let r = self.register(record);
        if r.is_ok() {
            self.requests.push(ProtocolRequest::GetLayerSurface { object, layer, size: surface.size });
            self.requests.push(ProtocolRequest::Commit(object));
        }
        r
    }

    /// A configure arrived for `object`. It is merged into the surface's
    /// record (see `on_configure`); one for an unknown surface, or of another
    /// kind of surface, is dropped.
    pub fn configure(&mut self, object: ObjectId, c: SurfaceConfigure)
        requires
            old(self).well_formed(),
        ensures
            final(self).well_formed(),
            final(self).outputs@ == old(self).outputs@,
            final(self).pending_user_events@ == old(self).pending_user_events@,
            forall|i: int|
                0 <= i < old(self).surfaces@.len() && old(self).surfaces@[i].object == object
                    && configure_fits(old(self).surfaces@[i].role, c)
                    ==> final(self).surfaces@ == old(self).surfaces@.update(i, on_configure(old(self).surfaces@[i], c)),
            (forall|i: int|
                0 <= i < old(self).surfaces@.len() && old(self).surfaces@[i].object == object
                    ==> !configure_fits(old(self).surfaces@[i].role, c))
                ==> final(self).surfaces@ == old(self).surfaces@,
            final(self).seats@ == old(self).seats@,
            final(self).retired@ == old(self).retired@,
            final(self).sctk_events@ == old(self).sctk_events@,
            final(self).requests@ == old(self).requests@,
    {
        let i = match self.find_surface(object) {
            Some(i) => i,
            None => return,
        };
        let fits = match (self.surfaces[i].role, c) {
            (SurfaceRole::Window(_), SurfaceConfigure::Window(_)) => true,
            (SurfaceRole::LayerSurface(_), SurfaceConfigure::LayerSurface(_)) => true,
            (SurfaceRole::Popup(_), SurfaceConfigure::Popup(_)) => true,
            _ => false,
        };
        if !fits {
            return;
        }
        let first = self.surfaces[i].last_configure.is_none();
        let mut record = self.surfaces[i];
        record.last_configure = Some(c);
        record.compositor_update.configure = Some(c);
        record.compositor_update.first = record.compositor_update.first || first;
        self.surfaces.set(i, record);
        proof {
            assert forall|k: int| 0 <= k < self.surfaces@.len() implies parent_before(self.surfaces@, k) by {
                assert(parent_before(old(self).surfaces@, k));
                if parent_popup(self.surfaces@[k]) is Some {
                    let j = choose|j: int| 0 <= j < k && #[trigger] old(self).surfaces@[j].object == parent_popup(old(self).surfaces@[k])->0 && old(self).surfaces@[j].role is Popup;
                    assert(self.surfaces@[j].object == old(self).surfaces@[j].object);
                }
            }
        }
    }
}

/// Whether the surface at `j` is the popup that the surface at `i` is
/// attached to.
pub open spec fn is_parent_of(s: Seq<SurfaceRecord>, j: int, i: int) -> bool {
    &&& s[j].role is Popup
    &&& parent_popup(s[i]) == Some(s[j].object)
}

/// Whether the surface at `i` is the popup at `p`, or a popup attached to it
/// through a chain of popups.
pub open spec fn in_subtree(s: Seq<SurfaceRecord>, i: int, p: int) -> bool
    decreases i,
{
    if i < 0 || i >= s.len() {
        false
    } else if i == p {
        true
    } else {
        exists|j: int| 0 <= j < i && #[trigger] is_parent_of(s, j, i) && in_subtree(s, j, p)
    }
}

/// The indices at or above `k` of the tree of the popup at `p`, highest
/// first. A popup stands after every popup it hangs from, so this order
/// closes each popup before its ancestors.
pub open spec fn closed_from(s: Seq<SurfaceRecord>, p: int, k: int) -> Seq<int>
    decreases s.len() - k,
{
    if k < 0 || k >= s.len() {
        Seq::empty()
    } else if in_subtree(s, k, p) {
        closed_from(s, p, k + 1).push(k)
    } else {
        closed_from(s, p, k + 1)
    }
}

/// The surfaces among the first `n` that are not in the tree of `p`, in order.
pub open spec fn remaining(s: Seq<SurfaceRecord>, p: int, n: int) -> Seq<SurfaceRecord>
    decreases n,
{
    if n <= 0 {
        Seq::empty()
    } else if in_subtree(s, n - 1, p) {
        remaining(s, p, n - 1)
    } else {
        remaining(s, p, n - 1).push(s[n - 1])
    }
}

/// The notification that a popup was dismissed.
pub open spec fn popup_done_event(r: SurfaceRecord) -> SctkEvent {
    match r.role {
        SurfaceRole::Popup(pop) => SctkEvent::PopupEvent {
            variant: crate::sctk_event::PopupEventVariant::Done,
            toplevel_id: pop.toplevel,
            parent_id: pop.parent.object_spec(),
            id: r.object,
        },
        _ => SctkEvent::Draw(r.object),
    }
}

/// The notifications of a cascade, in its order.
pub open spec fn done_events(s: Seq<SurfaceRecord>, order: Seq<int>) -> Seq<SctkEvent> {
    order.map_values(|k: int| popup_done_event(s[k]))
}

/// The destroy requests of a cascade, in its order.
pub open spec fn destroy_requests(s: Seq<SurfaceRecord>, order: Seq<int>) -> Seq<ProtocolRequest> {
    order.map_values(|k: int| ProtocolRequest::DestroyPopup(s[k].object))
}

/// The logical identities of a cascade, in its order.
pub open spec fn closed_ids(s: Seq<SurfaceRecord>, order: Seq<int>) -> Seq<SurfaceId> {
    order.map_values(|k: int| s[k].id)
}

/// A popup hangs from no popup above it.
pub proof fn lemma_subtree_below(s: Seq<SurfaceRecord>, i: int, p: int)
    requires
        in_subtree(s, i, p),
    ensures
        0 <= p <= i < s.len(),
    decreases i,
{
    if i != p {
        let j = choose|j: int| 0 <= j < i && #[trigger] is_parent_of(s, j, i) && in_subtree(s, j, p);
        lemma_subtree_below(s, j, p);
    }
}

/// What `closed_from` holds: exactly the members of the tree at or above
/// `k`, each once, in strictly decreasing order.
pub proof fn lemma_closed_from(s: Seq<SurfaceRecord>, p: int, k: int)
    requires
        0 <= k,
    ensures
        forall|x: int| #![trigger closed_from(s, p, k).contains(x)]
            closed_from(s, p, k).contains(x) <==> (k <= x < s.len() && in_subtree(s, x, p)),
        forall|a: int, b: int|
            0 <= a < b < closed_from(s, p, k).len() ==> closed_from(s, p, k)[a] > closed_from(s, p, k)[b],
    decreases s.len() - k,
{
    if k < s.len() {
        lemma_closed_from(s, p, k + 1);
        let rest = closed_from(s, p, k + 1);
        let c = closed_from(s, p, k);
        if in_subtree(s, k, p) {
            assert(c == rest.push(k));
            assert forall|x: int| c.contains(x) implies (k <= x < s.len() && in_subtree(s, x, p)) by {
                let a = choose|a: int| 0 <= a < c.len() && c[a] == x;
                if a < rest.len() {
                    assert(rest[a] == x);
                    assert(closed_from(s, p, k + 1).contains(x));
                    assert(k + 1 <= x);
                }
            }
            assert forall|x: int| (k <= x < s.len() && in_subtree(s, x, p)) implies c.contains(x) by {
                if x == k {
                    assert(c[rest.len() as int] == k);
                } else {
                    assert(rest.contains(x));
                    let a = choose|a: int| 0 <= a < rest.len() && rest[a] == x;
                    assert(c[a] == x);
                }
            }
            assert forall|a: int, b: int| 0 <= a < b < c.len() implies c[a] > c[b] by {
                assert(c[a] == rest[a]);
                if b == rest.len() {
                    assert(closed_from(s, p, k + 1).contains(rest[a]));
                    assert(k + 1 <= rest[a]);
                } else {
                    assert(c[b] == rest[b]);
                }
            }
        } else {
            assert(c == rest);
            assert forall|x: int| (k <= x < s.len() && in_subtree(s, x, p)) implies c.contains(x) by {
                assert(x != k);
            }
        }
    }
}

/// When the compositor dismisses a popup, every popup attached to it
/// through a chain of popups is closed with it, each exactly once, and the
/// notifications come leaf first: no popup is reported before a popup that
/// hangs from it.
pub proof fn lemma_popup_cascade_leaf_first(s: Seq<SurfaceRecord>, p: int)
    requires
        0 <= p < s.len(),
    ensures
        forall|x: int| closed_from(s, p, 0).contains(x) <==> (0 <= x < s.len() && in_subtree(s, x, p)),
        forall|a: int, b: int|
            0 <= a < b < closed_from(s, p, 0).len() ==> closed_from(s, p, 0)[a] != closed_from(s, p, 0)[b],
        forall|a: int, b: int|
            0 <= a < b < closed_from(s, p, 0).len() ==> !in_subtree(s, closed_from(s, p, 0)[b], closed_from(s, p, 0)[a]),
{
    lemma_closed_from(s, p, 0);
    let order = closed_from(s, p, 0);
    assert forall|a: int, b: int| 0 <= a < b < order.len() implies !in_subtree(s, order[b], order[a]) by {
        if in_subtree(s, order[b], order[a]) {
            lemma_subtree_below(s, order[b], order[a]);
        }
    }
}

/// Which surfaces `remaining` keeps: exactly those among the first `n` that
/// are not in the tree of `p`.
pub proof fn lemma_remaining(s: Seq<SurfaceRecord>, p: int, n: int)
    requires
        0 <= n <= s.len(),
    ensures
        forall|k: int| 0 <= k < n && !in_subtree(s, k, p) ==> remaining(s, p, n).contains(s[k]),
        forall|x: SurfaceRecord| remaining(s, p, n).contains(x) ==> exists|k: int|
            0 <= k < n && !in_subtree(s, k, p) && #[trigger] s[k] == x,
    decreases n,
{
    if n > 0 {
        lemma_remaining(s, p, n - 1);
        let prev = remaining(s, p, n - 1);
        let cur = remaining(s, p, n);
        if in_subtree(s, n - 1, p) {
            assert(cur == prev);
        } else {
            assert(cur == prev.push(s[n - 1]));
            assert forall|k: int| 0 <= k < n && !in_subtree(s, k, p) implies cur.contains(s[k]) by {
                if k == n - 1 {
                    assert(cur[prev.len() as int] == s[k]);
                } else {
                    let a = choose|a: int| 0 <= a < prev.len() && prev[a] == s[k];
                    assert(cur[a] == s[k]);
                }
            }
            assert forall|x: SurfaceRecord| cur.contains(x) implies exists|k: int|
                0 <= k < n && !in_subtree(s, k, p) && #[trigger] s[k] == x by {
                let a = choose|a: int| 0 <= a < cur.len() && cur[a] == x;
                if a < prev.len() {
                    assert(prev[a] == x);
                    assert(prev.contains(x));
                } else {
                    assert(s[n - 1] == x);
                }
            }
        }
    }
}

/// The tree of `p1`, where only `p2` hangs from `p1` and nothing from `p2`.
proof fn lemma_two_popup_tree(s: Seq<SurfaceRecord>, p1: int, p2: int, k: int)
    requires
        forall|x: int| 0 <= x < s.len() && x != p2 ==> !is_parent_of(s, p1, x),
        forall|x: int| 0 <= x < s.len() ==> !is_parent_of(s, p2, x),
        in_subtree(s, k, p1),
    ensures
        k == p1 || k == p2,
    decreases k,
{
    if k != p1 {
        let j = choose|j: int| 0 <= j < k && #[trigger] is_parent_of(s, j, k) && in_subtree(s, j, p1);
        lemma_two_popup_tree(s, p1, p2, j);
    }
}

/// A popup `p1`, with one popup `p2` attached to it and nothing attached to
/// `p2`, is dismissed: both close, `p2` reported first, and every other
/// surface stays, among them the one that `p1` is attached to.
pub proof fn lemma_nested_popup_dismissed(s: Seq<SurfaceRecord>, p1: int, p2: int)
    requires
        forall|a: int, b: int| 0 <= a < b < s.len() ==> s[a].object != s[b].object,
        0 <= p1 < p2 < s.len(),
        s[p1].role is Popup,
        s[p2].role is Popup,
        parent_popup(s[p2]) == Some(s[p1].object),
        forall|x: int| 0 <= x < s.len() && x != p2 ==> !is_parent_of(s, p1, x),
        forall|x: int| 0 <= x < s.len() ==> !is_parent_of(s, p2, x),
    ensures
        closed_from(s, p1, 0) == seq![p2, p1],
        done_events(s, closed_from(s, p1, 0)) == seq![popup_done_event(s[p2]), popup_done_event(s[p1])],
        forall|k: int| 0 <= k < s.len() && k != p1 && k != p2 ==> remaining(s, p1, s.len() as int).contains(s[k]),
        forall|x: SurfaceRecord| remaining(s, p1, s.len() as int).contains(x) ==> x.object != s[p1].object
            && x.object != s[p2].object,
{
    let c = closed_from(s, p1, 0);
    lemma_closed_from(s, p1, 0);
    assert(is_parent_of(s, p1, p2));
    assert(in_subtree(s, p1, p1));
    assert(in_subtree(s, p2, p1));
    assert forall|x: int| c.contains(x) implies x == p1 || x == p2 by {
        lemma_two_popup_tree(s, p1, p2, x);
    }
    assert(c.contains(p1));
    assert(c.contains(p2));
    let a1 = choose|a: int| 0 <= a < c.len() && c[a] == p1;
    let a2 = choose|a: int| 0 <= a < c.len() && c[a] == p2;
    assert(c.contains(c[0]));
    if c.len() >= 3 {
        assert(c.contains(c[1]));
        assert(c.contains(c[2]));
        assert(c[0] > c[1] && c[1] > c[2]);
    }
    assert(c.len() == 2);
    assert(c.contains(c[1]));
    assert(c =~= seq![p2, p1]);
    assert(done_events(s, c) =~= seq![popup_done_event(s[p2]), popup_done_event(s[p1])]);
    lemma_remaining(s, p1, s.len() as int);
    assert forall|k: int| 0 <= k < s.len() && k != p1 && k != p2 implies remaining(s, p1, s.len() as int).contains(s[k]) by {
        if in_subtree(s, k, p1) {
            lemma_two_popup_tree(s, p1, p2, k);
        }
    }
    assert forall|x: SurfaceRecord| remaining(s, p1, s.len() as int).contains(x) implies x.object != s[p1].object
        && x.object != s[p2].object by {
        let k = choose|k: int| 0 <= k < s.len() && !in_subtree(s, k, p1) && #[trigger] s[k] == x;
        assert(k != p1 && k != p2);
        if k < p1 {
            assert(s[k].object != s[p1].object);
        } else {
            assert(s[p1].object != s[k].object);
        }
        if k < p2 {
            assert(s[k].object != s[p2].object);
        } else {
            assert(s[p2].object != s[k].object);
        }
    }
}

impl<T> SctkState<T> {
    /// The index of the popup that the surface at `i` is attached to, if it
    /// is attached to a popup.
    fn popup_parent_index(&self, i: usize) -> (r: Option<usize>)
        requires
            self.well_formed(),
            i < self.surfaces@.len(),
        ensures
            match r {
                Some(j) => j < i && is_parent_of(self.surfaces@, j as int, i as int),
                None => forall|j: int| 0 <= j < self.surfaces@.len() ==> !is_parent_of(self.surfaces@, j, i as int),
            },
    {
        let s = &self.surfaces;
        if let SurfaceRole::Popup(pop) = s[i].role {
            if let SctkSurface::Popup(q) = pop.parent {
                if let Some(j) = self.find_surface(q) {
                    if let SurfaceRole::Popup(_) = s[j].role {
                        proof {
                            assert(parent_before(self.surfaces@, i as int));
                            let w = choose|w: int| 0 <= w < i && #[trigger] self.surfaces@[w].object == parent_popup(self.surfaces@[i as int])->0 && self.surfaces@[w].role is Popup;
                            assert(w == j);
                        }
                        return Some(j);
                    }
                    return None;
                }
                return None;
            }
        }
        None
    }

    /// Closes the popup on `object` and every popup attached to it through a
    /// chain of popups. Each closed popup is removed from the registry, its
    /// identity retired, a `Done` notification put in the sink and a destroy
    /// request queued, highest index first (see `closed_from`). Nothing
    /// happens when no popup has this object.
    pub fn close_popup_tree(&mut self, object: ObjectId)
        requires
            old(self).well_formed(),
        ensures
            final(self).well_formed(),
            final(self).outputs@ == old(self).outputs@,
            final(self).pending_user_events@ == old(self).pending_user_events@,
            final(self).seats@ == old(self).seats@,
            (forall|p: int| 0 <= p < old(self).surfaces@.len() && old(self).surfaces@[p].object == object
                ==> !(old(self).surfaces@[p].role is Popup)) ==> {
                &&& final(self).surfaces@ == old(self).surfaces@
                &&& final(self).retired@ == old(self).retired@
                &&& final(self).sctk_events@ == old(self).sctk_events@
                &&& final(self).requests@ == old(self).requests@
            },
            forall|p: int|
                0 <= p < old(self).surfaces@.len() && old(self).surfaces@[p].object == object
                    && old(self).surfaces@[p].role is Popup ==> {
                    let s = old(self).surfaces@;
                    let order = closed_from(s, p, 0);
                    &&& final(self).surfaces@ == remaining(s, p, s.len() as int)
                    &&& final(self).retired@ == old(self).retired@ + closed_ids(s, order)
                    &&& final(self).sctk_events@ == old(self).sctk_events@ + done_events(s, order)
                    &&& final(self).requests@ == old(self).requests@ + destroy_requests(s, order)
                },
    {
        let p = match self.find_surface(object) {
            Some(p) => p,
            None => return,
        };
        match self.surfaces[p].role {
            SurfaceRole::Popup(_) => {},
            _ => return,
        }
        let ghost s = self.surfaces@;
        let n = self.surfaces.len();
        // Which surfaces belong to the tree, in one pass: a popup's parent
        // stands before it.
        let mut marks: Vec<bool> = Vec::new();
        let mut i: usize = 0;
        while i < n
            invariant
                self.surfaces@ == s,
                self.seats@ == old(self).seats@,
                self.outputs@ == old(self).outputs@,
                self.pending_user_events@ == old(self).pending_user_events@,
                n == s.len(),
                p < n,
                i <= n,
                old(self).well_formed(),
                self.surfaces@ == old(self).surfaces@,
                marks@.len() == i,
                forall|k: int| 0 <= k < i ==> marks@[k] == in_subtree(s, k, p as int),
            decreases n - i,
        {
            let parent = self.popup_parent_index(i);
            let m = if i == p {
                true
            } else {
                match parent {
                    Some(j) => marks[j],
                    None => false,
                }
            };
            proof {
                if i != p {
                    match parent {
                        Some(j) => {
                            if !m {
                                assert forall|w: int| 0 <= w < i && #[trigger] is_parent_of(s, w, i as int) implies !in_subtree(s, w, p as int) by {
                                    assert(s[w].object == s[j as int].object);
                                }
                            }
                        },
                        None => {},
                    }
                }
            }
            marks.push(m);
            i = i + 1;
        }
        // The surfaces that stay, in order, with where each stood.
        let mut kept: Vec<SurfaceRecord> = Vec::new();
        let ghost mut idx: Seq<int> = Seq::empty();
        let mut i: usize = 0;
        while i < n
            invariant
                self.surfaces@ == s,
                self.seats@ == old(self).seats@,
                self.outputs@ == old(self).outputs@,
                self.pending_user_events@ == old(self).pending_user_events@,
                n == s.len(),
                i <= n,
                marks@.len() == n,
                forall|k: int| 0 <= k < n ==> marks@[k] == in_subtree(s, k, p as int),
                kept@ == remaining(s, p as int, i as int),
                idx.len() == kept@.len(),
                forall|t: int| 0 <= t < idx.len() ==> 0 <= #[trigger] idx[t] < i && kept@[t] == s[idx[t]] && !in_subtree(s, idx[t], p as int),
                forall|a: int, b: int| 0 <= a < b < idx.len() ==> idx[a] < idx[b],
                forall|k: int| 0 <= k < i && !in_subtree(s, k, p as int) ==> exists|t: int| 0 <= t < idx.len() && #[trigger] idx[t] == k,
            decreases n - i,
        {
            let ghost idx0 = idx;
            if !marks[i] {
                kept.push(self.surfaces[i]);
                proof {
                    idx = idx.push(i as int);
                    assert(idx[idx.len() - 1] == i);
                }
            }
            proof {
                assert forall|k: int| 0 <= k < i + 1 && !in_subtree(s, k, p as int) implies exists|t: int| 0 <= t < idx.len() && #[trigger] idx[t] == k by {
                    if k < i {
                        let t = choose|t: int| 0 <= t < idx0.len() && #[trigger] idx0[t] == k;
                        assert(idx[t] == k);
                    } else {
                        assert(idx[idx.len() - 1] == k);
                    }
                }
            }
            i = i + 1;
        }
        // Notifications and requests, highest index first.
        let ghost old_events = self.sctk_events@;
        let ghost old_requests = self.requests@;
        let ghost old_retired = self.retired@;
        let mut k: usize = n;
        while k > 0
            invariant
                self.surfaces@ == s,
                self.seats@ == old(self).seats@,
                self.outputs@ == old(self).outputs@,
                self.pending_user_events@ == old(self).pending_user_events@,
                n == s.len(),
                k <= n,
                marks@.len() == n,
                forall|x: int| 0 <= x < n ==> marks@[x] == in_subtree(s, x, p as int),
                self.sctk_events@ == old_events + done_events(s, closed_from(s, p as int, k as int)),
                self.requests@ == old_requests + destroy_requests(s, closed_from(s, p as int, k as int)),
                self.retired@ == old_retired + closed_ids(s, closed_from(s, p as int, k as int)),
            decreases k,
        {
            k = k - 1;
            if marks[k] {
                let r = self.surfaces[k];
                let (toplevel, parent_id) = match r.role {
                    SurfaceRole::Popup(pop) => (pop.toplevel, pop.parent.object()),
                    _ => (r.object, r.object),
                };
                proof {
                    lemma_subtree_below(s, k as int, p as int);
                }
                let event = match r.role {
                    SurfaceRole::Popup(_) => SctkEvent::PopupEvent {
                        variant: crate::sctk_event::PopupEventVariant::Done,
                        toplevel_id: toplevel,
                        parent_id,
                        id: r.object,
                    },
                    _ => SctkEvent::Draw(r.object),
                };
                self.sctk_events.push(event);
                self.requests.push(ProtocolRequest::DestroyPopup(r.object));
                self.retired.push(r.id);
                proof {
                    let order = closed_from(s, p as int, k as int);
                    assert(order == closed_from(s, p as int, k + 1).push(k as int));
                    assert(done_events(s, order) =~= done_events(s, closed_from(s, p as int, k + 1)).push(event));
                    assert(destroy_requests(s, order) =~= destroy_requests(s, closed_from(s, p as int, k + 1)).push(ProtocolRequest::DestroyPopup(r.object)));
                    assert(closed_ids(s, order) =~= closed_ids(s, closed_from(s, p as int, k + 1)).push(r.id));
                }
            }
        }
        self.surfaces = kept;
        proof {
            let order = closed_from(s, p as int, 0);
            lemma_closed_from(s, p as int, 0);
            let live = self.surfaces@;
            assert forall|a: int, b: int| 0 <= a < b < live.len() implies live[a].object != live[b].object by {
                assert(idx[a] < idx[b]);
            }
            assert forall|a: int, b: int| 0 <= a < b < live.len() implies live[a].id != live[b].id by {
                assert(idx[a] < idx[b]);
            }
            assert forall|a: int, c: int| 0 <= a < live.len() && 0 <= c < self.retired@.len() implies live[a].id != self.retired@[c] by {
                if c >= old_retired.len() {
                    assert(self.retired@.len() == old_retired.len() + order.len());
                    let x = order[c - old_retired.len()];
                    assert(order.contains(x));
                    assert(in_subtree(s, x, p as int));
                    assert(self.retired@[c] == s[x].id);
                    assert(!in_subtree(s, idx[a], p as int));
                    assert(idx[a] != x);
                } else {
                    assert(self.retired@[c] == old_retired[c]);
                }
            }
            assert forall|a: int| 0 <= a < live.len() implies parent_before(live, a) by {
                let i0 = idx[a];
                assert(parent_before(s, i0));
                if parent_popup(live[a]) is Some {
                    let j = choose|j: int| 0 <= j < i0 && #[trigger] s[j].object == parent_popup(s[i0])->0 && s[j].role is Popup;
                    assert(is_parent_of(s, j, i0));
                    assert(!in_subtree(s, j, p as int));
                    let u = choose|u: int| 0 <= u < idx.len() && #[trigger] idx[u] == j;
                    assert(u < a) by {
                        if u > a {
                            assert(idx[a] < idx[u]);
                        }
                    }
                    assert(live[u] == s[j]);
                }
            }
        }
    }
}

/// The settings of a new popup.
#[derive(Debug, Clone, Copy)]
pub struct IcedPopup {
    pub id: SurfaceId,
    /// The surface to attach the popup to.
    pub parent: SurfaceId,
    pub positioner: Positioner,
    /// Whether the popup takes an explicit grab of the active seat.
    pub grab: bool,
}

/// The record of a popup attached to the record `parent`: its tree's root is
/// the parent's root when the parent is a popup, else the parent itself.
pub open spec fn popup_role(parent: SurfaceRecord, popup: IcedPopup) -> SctkPopup {
    SctkPopup {
        parent: parent.surface_spec(),
        toplevel: match parent.role {
            SurfaceRole::Popup(pp) => pp.toplevel,
            _ => parent.object,
        },
        positioner: popup.positioner,
        grabbed: false,
    }
}

/// The serial of the last pointer press of the active seat, which an explicit
/// grab must name.
pub open spec fn grab_serial(seats: Seq<SctkSeat>) -> Option<(ObjectId, u32)> {
    if seats.len() > 0 {
        match seats[0].last_ptr_press {
            Some((_, _, serial)) => Some((seats[0].seat, serial)),
            None => None,
        }
    } else {
        None
    }
}

impl<T> SctkState<T> {
    /// Replaces the record at `i` by one of the same surface.
    pub(crate) fn set_record(&mut self, i: usize, record: SurfaceRecord)
        requires
            old(self).well_formed(),
            i < old(self).surfaces@.len(),
            record.id == old(self).surfaces@[i as int].id,
            record.object == old(self).surfaces@[i as int].object,
            record.role is Popup <==> old(self).surfaces@[i as int].role is Popup,
            parent_popup(record) == parent_popup(old(self).surfaces@[i as int]),
        ensures
            final(self).well_formed(),
            final(self).outputs@ == old(self).outputs@,
            final(self).pending_user_events@ == old(self).pending_user_events@,
            final(self).surfaces@ == old(self).surfaces@.update(i as int, record),
            final(self).seats@ == old(self).seats@,
            final(self).retired@ == old(self).retired@,
            final(self).sctk_events@ == old(self).sctk_events@,
            final(self).requests@ == old(self).requests@,
            final(self).outputs@ == old(self).outputs@,
            final(self).pending_user_events@ == old(self).pending_user_events@,
    {
        self.surfaces.set(i, record);
        proof {
            assert forall|k: int| 0 <= k < self.surfaces@.len() implies parent_before(self.surfaces@, k) by {
                assert(parent_before(old(self).surfaces@, k));
                if parent_popup(self.surfaces@[k]) is Some {
                    let j = choose|j: int| 0 <= j < k && #[trigger] old(self).surfaces@[j].object == parent_popup(old(self).surfaces@[k])->0 && old(self).surfaces@[j].role is Popup;
                    assert(self.surfaces@[j].object == old(self).surfaces@[j].object);
                }
            }
        }
    }

    /// Removes the record at `i`, which is not a popup, and retires its
    /// identity.
    pub(crate) fn remove_record(&mut self, i: usize)
        requires
            old(self).well_formed(),
            i < old(self).surfaces@.len(),
            !(old(self).surfaces@[i as int].role is Popup),
        ensures
            final(self).well_formed(),
            final(self).outputs@ == old(self).outputs@,
            final(self).pending_user_events@ == old(self).pending_user_events@,
            final(self).surfaces@ == old(self).surfaces@.remove(i as int),
            final(self).retired@ == old(self).retired@.push(old(self).surfaces@[i as int].id),
            final(self).seats@ == old(self).seats@,
            final(self).sctk_events@ == old(self).sctk_events@,
            final(self).requests@ == old(self).requests@,
            final(self).outputs@ == old(self).outputs@,
            final(self).pending_user_events@ == old(self).pending_user_events@,
    {
        let ghost s = self.surfaces@;
        let r = self.surfaces.remove(i);
        self.retired.push(r.id);
        proof {
            let t = self.surfaces@;
            assert forall|a: int| 0 <= a < t.len() implies t[a] == s[if a < i { a } else { a + 1 }] by {}
            assert forall|a: int, b: int| 0 <= a < b < t.len() implies t[a].object != t[b].object by {
                assert(t[a] == s[if a < i { a } else { a + 1 }]);
                assert(t[b] == s[if b < i { b } else { b + 1 }]);
            }
            assert forall|a: int, b: int| 0 <= a < b < t.len() implies t[a].id != t[b].id by {
                assert(t[a] == s[if a < i { a } else { a + 1 }]);
                assert(t[b] == s[if b < i { b } else { b + 1 }]);
            }
            assert forall|a: int, c: int| 0 <= a < t.len() && 0 <= c < self.retired@.len() implies t[a].id != self.retired@[c] by {
                assert(t[a] == s[if a < i { a } else { a + 1 }]);
                if c < old(self).retired@.len() {
                    assert(self.retired@[c] == old(self).retired@[c]);
                }
            }
            assert forall|a: int| 0 <= a < t.len() implies parent_before(t, a) by {
                let a0 = if a < i { a } else { a + 1 };
                assert(t[a] == s[a0]);
                assert(parent_before(s, a0));
                if parent_popup(t[a]) is Some {
                    let j = choose|j: int| 0 <= j < a0 && #[trigger] s[j].object == parent_popup(s[a0])->0 && s[j].role is Popup;
                    assert(j != i);
                    let j1 = if j < i { j } else { j - 1 };
                    assert(t[j1] == s[j]);
                }
            }
        }
    }

    /// Registers a popup on the protocol object `object`, attached to the
    /// live surface `popup.parent`, and queues the role request, an explicit
    /// grab when one is asked for and the active seat has a press to name,
    /// and the first commit.
    pub fn get_popup(&mut self, popup: IcedPopup, object: ObjectId) -> (r: Result<(), RegistryError>)
        requires
            old(self).well_formed(),
        ensures
            final(self).well_formed(),
            final(self).outputs@ == old(self).outputs@,
            final(self).pending_user_events@ == old(self).pending_user_events@,
            (forall|j: int| 0 <= j < old(self).surfaces@.len() ==> old(self).surfaces@[j].id != popup.parent)
                ==> r == Err::<(), RegistryError>(RegistryError::UnknownParent),
            forall|pj: int|
                0 <= pj < old(self).surfaces@.len() && old(self).surfaces@[pj].id == popup.parent ==> {
                    let parent = old(self).surfaces@[pj];
                    let role = popup_role(parent, popup);
                    &&& r == (if old(self).has_object(object) {
                        Err::<(), RegistryError>(RegistryError::ObjectInUse)
                    } else if old(self).id_taken(popup.id) {
                        Err(RegistryError::IdInUse)
                    } else {
                        Ok(())
                    })
                    &&& r is Ok ==> {
                        &&& final(self).surfaces@ == old(self).surfaces@.push(
                            new_record(popup.id, object, SurfaceRole::Popup(role), Some(popup.positioner.size)),
                        )
                        &&& final(self).requests@ == (match grab_serial(old(self).seats@) {
                            Some((seat, serial)) => if popup.grab {
                                old(self).requests@.push(
                                    ProtocolRequest::GetPopup { object, parent: role.parent, positioner: popup.positioner },
                                ).push(ProtocolRequest::Grab { object, seat, serial })
                            } else {
                                old(self).requests@.push(
                                    ProtocolRequest::GetPopup { object, parent: role.parent, positioner: popup.positioner },
                                )
                            },
                            None => old(self).requests@.push(
                                ProtocolRequest::GetPopup { object, parent: role.parent, positioner: popup.positioner },
                            ),
                        }).push(ProtocolRequest::Commit(object))
                    }
                },
            r is Err ==> final(self).surfaces@ == old(self).surfaces@ && final(self).requests@ == old(self).requests@,
            final(self).seats@ == old(self).seats@,
            final(self).retired@ == old(self).retired@,
            final(self).sctk_events@ == old(self).sctk_events@,
    {
        let pj = match self.find_id(popup.parent) {
            Some(pj) => pj,
            None => return Err(RegistryError::UnknownParent),
        };
        let parent = self.surfaces[pj];
        let toplevel = match parent.role {
            SurfaceRole::Popup(pp) => pp.toplevel,
            _ => parent.object,
        };
        let role = SctkPopup { parent: parent.surface(), toplevel, positioner: popup.positioner, grabbed: false };
        let record = SurfaceRecord {
            id: popup.id,
            object,
            role: SurfaceRole::Popup(role),
            requested_size: Some(popup.positioner.size),
            current_size: None,
            scale_factor: 1,
            last_configure: None,
            compositor_update: SurfaceCompositorUpdate::empty(),
            user_request: SurfaceUserRequest { redraw_requested: false, refresh_frame: false },
        };
        proof {
            let t = old(self).surfaces@.push(record);
            assert(t[pj as int] == parent);
            assert forall|k: int| 0 <= k < old(self).surfaces@.len() && old(self).surfaces@[k].id == popup.parent implies k == pj by {}
        }
        let r = self.register(record);
        if r.is_ok() {
            self.requests.push(ProtocolRequest::GetPopup { object, parent: role.parent, positioner: popup.positioner });
            if popup.grab && self.seats.len() > 0 {
                if let Some((_, _, serial)) = self.seats[0].last_ptr_press {
                    let seat = self.seats[0].seat;
                    self.requests.push(ProtocolRequest::Grab { object, seat, serial });
                }
            }
            self.requests.push(ProtocolRequest::Commit(object));
        }
        r
    }

    /// The compositor dismissed the popup on `object`: it closes with every
    /// popup attached to it (see `close_popup_tree`).
    pub fn done(&mut self, object: ObjectId)
        requires
            old(self).well_formed(),
        ensures
            final(self).well_formed(),
            final(self).outputs@ == old(self).outputs@,
            final(self).pending_user_events@ == old(self).pending_user_events@,
            final(self).seats@ == old(self).seats@,
            (forall|p: int| 0 <= p < old(self).surfaces@.len() && old(self).surfaces@[p].object == object
                ==> !(old(self).surfaces@[p].role is Popup)) ==> {
                &&& final(self).surfaces@ == old(self).surfaces@
                &&& final(self).retired@ == old(self).retired@
                &&& final(self).sctk_events@ == old(self).sctk_events@
                &&& final(self).requests@ == old(self).requests@
            },
            forall|p: int|
                0 <= p < old(self).surfaces@.len() && old(self).surfaces@[p].object == object
                    && old(self).surfaces@[p].role is Popup ==> {
                    let s = old(self).surfaces@;
                    let order = closed_from(s, p, 0);
                    &&& final(self).surfaces@ == remaining(s, p, s.len() as int)
                    &&& final(self).retired@ == old(self).retired@ + closed_ids(s, order)
                    &&& final(self).sctk_events@ == old(self).sctk_events@ + done_events(s, order)
                    &&& final(self).requests@ == old(self).requests@ + destroy_requests(s, order)
                },
    {
        self.close_popup_tree(object);
    }

    /// The compositor closed the layer surface on `object`: it is removed,
    /// its identity retired, and a `Done` notification put in the sink. An
    /// object that is no layer surface is ignored.
    pub fn closed(&mut self, object: ObjectId)
        requires
            old(self).well_formed(),
        ensures
            final(self).well_formed(),
            final(self).outputs@ == old(self).outputs@,
            final(self).pending_user_events@ == old(self).pending_user_events@,
            final(self).seats@ == old(self).seats@,
            final(self).requests@ == old(self).requests@,
            forall|i: int|
                0 <= i < old(self).surfaces@.len() && old(self).surfaces@[i].object == object
                    && old(self).surfaces@[i].role is LayerSurface ==> {
                    &&& final(self).surfaces@ == old(self).surfaces@.remove(i)
                    &&& final(self).retired@ == old(self).retired@.push(old(self).surfaces@[i].id)
                    &&& final(self).sctk_events@ == old(self).sctk_events@.push(
                        SctkEvent::LayerSurfaceEvent {
                            variant: crate::sctk_event::LayerSurfaceEventVariant::Done,
                            id: object,
                        },
                    )
                },
            (forall|i: int| 0 <= i < old(self).surfaces@.len() && old(self).surfaces@[i].object == object
                ==> !(old(self).surfaces@[i].role is LayerSurface)) ==> {
                &&& final(self).surfaces@ == old(self).surfaces@
                &&& final(self).retired@ == old(self).retired@
                &&& final(self).sctk_events@ == old(self).sctk_events@
            },
    {
        let i = match self.find_surface(object) {
            Some(i) => i,
            None => return,
        };
        match self.surfaces[i].role {
            SurfaceRole::LayerSurface(_) => {},
            _ => return,
        }
        self.remove_record(i);
        self.sctk_events.push(SctkEvent::LayerSurfaceEvent {
            variant: crate::sctk_event::LayerSurfaceEventVariant::Done,
            id: object,
        });
    }

    /// The compositor asks the window on `object` to close. The request is
    /// kept with the window's pending update and delivered by the loop; the
    /// application decides whether to close. Other objects are ignored.
    pub fn request_close(&mut self, object: ObjectId)
        requires
            old(self).well_formed(),
        ensures
            final(self).well_formed(),
            final(self).outputs@ == old(self).outputs@,
            final(self).pending_user_events@ == old(self).pending_user_events@,
            forall|i: int|
                0 <= i < old(self).surfaces@.len() && old(self).surfaces@[i].object == object
                    && old(self).surfaces@[i].role is Window ==> final(self).surfaces@ == old(self).surfaces@.update(
                    i,
                    SurfaceRecord {
                        compositor_update: SurfaceCompositorUpdate {
                            close_window: true,
                            ..old(self).surfaces@[i].compositor_update
                        },
                        ..old(self).surfaces@[i]
                    },
                ),
            (forall|i: int| 0 <= i < old(self).surfaces@.len() && old(self).surfaces@[i].object == object
                ==> !(old(self).surfaces@[i].role is Window)) ==> final(self).surfaces@ == old(self).surfaces@,
            final(self).seats@ == old(self).seats@,
            final(self).retired@ == old(self).retired@,
            final(self).sctk_events@ == old(self).sctk_events@,
            final(self).requests@ == old(self).requests@,
    {
        let i = match self.find_surface(object) {
            Some(i) => i,
            None => return,
        };
        match self.surfaces[i].role {
            SurfaceRole::Window(_) => {},
            _ => return,
        }
        let mut record = self.surfaces[i];
        record.compositor_update.close_window = true;
        self.set_record(i, record);
    }

    /// The compositor gave the surface on `object` a new scale factor; the
    /// latest one wins until the loop drains it. A factor below 1, or an
    /// unknown object, is ignored.
    pub fn scale_factor_changed(&mut self, object: ObjectId, factor: i32)
        requires
            old(self).well_formed(),
        ensures
            final(self).well_formed(),
            final(self).outputs@ == old(self).outputs@,
            final(self).pending_user_events@ == old(self).pending_user_events@,
            forall|i: int|
                0 <= i < old(self).surfaces@.len() && old(self).surfaces@[i].object == object && factor >= 1
                    ==> final(self).surfaces@ == old(self).surfaces@.update(
                    i,
                    SurfaceRecord {
                        compositor_update: SurfaceCompositorUpdate {
                            scale_factor: Some(factor as u32),
                            ..old(self).surfaces@[i].compositor_update
                        },
                        ..old(self).surfaces@[i]
                    },
                ),
            factor < 1 || !old(self).has_object(object) ==> final(self).surfaces@ == old(self).surfaces@,
            final(self).seats@ == old(self).seats@,
            final(self).retired@ == old(self).retired@,
            final(self).sctk_events@ == old(self).sctk_events@,
            final(self).requests@ == old(self).requests@,
    {
        if factor < 1 {
            return;
        }
        let i = match self.find_surface(object) {
            Some(i) => i,
            None => return,
        };
        let mut record = self.surfaces[i];
        record.compositor_update.scale_factor = Some(factor as u32);
        self.set_record(i, record);
    }

    /// The compositor is ready for a new frame of `object`. A frame of a
    /// surface that is not live (already torn down) is dropped.
    pub fn frame(&mut self, object: ObjectId)
        ensures
            old(self).has_object(object) ==> final(self).sctk_events@ == old(self).sctk_events@.push(SctkEvent::Draw(object)),
            !old(self).has_object(object) ==> final(self).sctk_events@ == old(self).sctk_events@,
            final(self).surfaces@ == old(self).surfaces@,
            final(self).seats@ == old(self).seats@,
            final(self).retired@ == old(self).retired@,
            final(self).requests@ == old(self).requests@,
            final(self).outputs@ == old(self).outputs@,
            final(self).pending_user_events@ == old(self).pending_user_events@,
    {
        if self.find_surface(object).is_some() {
            self.sctk_events.push(SctkEvent::Draw(object));
        }
    }

    /// An output appeared.
    pub fn new_output(&mut self, output: ObjectId)
        ensures
            final(self).outputs@ == old(self).outputs@.push(output),
            final(self).sctk_events@ == old(self).sctk_events@.push(SctkEvent::NewOutput { id: output }),
            final(self).surfaces@ == old(self).surfaces@,
            final(self).seats@ == old(self).seats@,
            final(self).retired@ == old(self).retired@,
            final(self).requests@ == old(self).requests@,
    {
        self.outputs.push(output);
        self.sctk_events.push(SctkEvent::NewOutput { id: output });
    }

    /// An output changed.
    pub fn update_output(&mut self, output: ObjectId)
        ensures
            final(self).outputs@ == old(self).outputs@,
            final(self).sctk_events@ == old(self).sctk_events@.push(SctkEvent::UpdateOutput { id: output }),
            final(self).surfaces@ == old(self).surfaces@,
            final(self).seats@ == old(self).seats@,
            final(self).retired@ == old(self).retired@,
            final(self).requests@ == old(self).requests@,
    {
        self.sctk_events.push(SctkEvent::UpdateOutput { id: output });
    }

    /// The index of the first entry of this output.
    fn find_output(&self, output: ObjectId) -> (r: Option<usize>)
        ensures
            match r {
                Some(i) => i < self.outputs@.len() && self.outputs@[i as int] == output
                    && forall|j: int| 0 <= j < i ==> self.outputs@[j] != output,
                None => !self.outputs@.contains(output),
            },
    {
        let mut i: usize = 0;
        while i < self.outputs.len()
            invariant
                i <= self.outputs@.len(),
                forall|j: int| 0 <= j < i ==> self.outputs@[j] != output,
            decreases self.outputs@.len() - i,
        {
            if self.outputs[i] == output {
                return Some(i);
            }
            i = i + 1;
        }
        None
    }

    /// An output went away; its first entry is dropped.
    pub fn output_destroyed(&mut self, output: ObjectId)
        ensures
            forall|i: int|
                0 <= i < old(self).outputs@.len() && old(self).outputs@[i] == output
                    && (forall|j: int| 0 <= j < i ==> old(self).outputs@[j] != output)
                    ==> final(self).outputs@ == old(self).outputs@.remove(i),
            !old(self).outputs@.contains(output) ==> final(self).outputs@ == old(self).outputs@,
            final(self).sctk_events@ == old(self).sctk_events@.push(SctkEvent::RemovedOutput(output)),
            final(self).surfaces@ == old(self).surfaces@,
            final(self).seats@ == old(self).seats@,
            final(self).retired@ == old(self).retired@,
            final(self).requests@ == old(self).requests@,
    {
        if let Some(k) = self.find_output(output) {
            self.outputs.remove(k);
        }
        self.sctk_events.push(SctkEvent::RemovedOutput(output));
    }
}

/// The settings of a new layer surface.
#[derive(Debug, Clone, Copy)]
pub struct IcedLayerSurface {
    pub id: SurfaceId,
    pub layer: Layer,
    pub keyboard_interactivity: KeyboardInteractivity,
    pub anchor: Anchor,
    pub margin: IcedMargin,
    /// The size to ask for; a zero dimension is left to the compositor.
    pub size: Option<LogicalSize>,
    pub exclusive_zone: i32,
}

impl IcedLayerSurface {
    /// What the record of the new layer surface holds of these settings.
    pub fn role(&self) -> (r: SctkLayerSurface)
        ensures
            r == self.role_spec(),
    {
        SctkLayerSurface {
            layer: self.layer,
            anchor: self.anchor,
            keyboard_interactivity: self.keyboard_interactivity,
            margin: self.margin,
            exclusive_zone: self.exclusive_zone,
        }
    }

    pub open spec fn role_spec(&self) -> SctkLayerSurface {
        SctkLayerSurface {
            layer: self.layer,
            anchor: self.anchor,
            keyboard_interactivity: self.keyboard_interactivity,
            margin: self.margin,
            exclusive_zone: self.exclusive_zone,
        }
    }
}

/// Whether the popup that the surface at `i` is attached to, if any, is a
/// live popup at a lower index.
pub open spec fn parent_before(s: Seq<SurfaceRecord>, i: int) -> bool {
    parent_popup(s[i]) is Some ==> exists|j: int|
        0 <= j < i && #[trigger] s[j].object == parent_popup(s[i])->0 && s[j].role is Popup
}

/// The popup that a surface is attached to, if it is a popup of a popup.
pub open spec fn parent_popup(r: SurfaceRecord) -> Option<ObjectId> {
    match r.role {
        SurfaceRole::Popup(p) => match p.parent {
            SctkSurface::Popup(q) => Some(q),
            _ => None,
        },
        _ => None,
    }
}

} // verus!
