use vstd::prelude::*;

use crate::application::{find_surface_id, lookup, SurfaceIdWrapper};
use crate::sctk_event::{
    AxisScroll, AxisSource, KeyboardEventVariant, Modifiers, ObjectId, PointerEventKind,
    PopupEventVariant, SctkEvent, SurfaceId, WindowEventVariant,
};

verus! {

/// A key, as the toolkit names it.
#[derive(Debug, Clone, Copy, PartialEq, Eq, Structural)]
pub enum KeyCode {
    /// A letter key; 0 is A and 25 is Z.
    Letter(u8),
    /// A digit key of the main block.
    Digit(u8),
    /// A function key; 1 is F1 and 12 is F12.
    Function(u8),
    Escape,
    Enter,
    Tab,
    Backspace,
    Space,
    Left,
    Up,
    Right,
    Down,
    Home,
    End,
    PageUp,
    PageDown,
    Insert,
    Delete,
}

/// The modifiers held, as the toolkit sees them.
#[derive(Debug, Default, Clone, Copy, PartialEq, Eq, Structural)]
pub struct NativeModifiers {
    pub shift: bool,
    pub control: bool,
    pub alt: bool,
    pub logo: bool,
}

/// A mouse button.
#[derive(Debug, Clone, Copy, PartialEq, Eq, Structural)]
pub enum MouseButton {
    Left,
    Right,
    Middle,
    Other(u8),
}

/// How far a scroll went: in lines for wheels, in pixels (wayland fixed
/// point, 1/256 of a pixel) for everything else.
#[derive(Debug, Clone, Copy, PartialEq, Eq, Structural)]
pub enum ScrollDelta {
    Lines { x: i32, y: i32 },
    Pixels { x: i32, y: i32 },
}

#[derive(Debug, Clone, Copy, PartialEq, Eq, Structural)]
pub enum MouseEvent {
    CursorEntered,
    CursorLeft,
    /// The cursor moved; the position is in wayland fixed point.
    CursorMoved { x: i32, y: i32 },
    ButtonPressed(MouseButton),
    ButtonReleased(MouseButton),
    WheelScrolled(ScrollDelta),
}

#[derive(Debug, Clone, Copy, PartialEq, Eq, Structural)]
pub enum KeyboardEvent {
    KeyPressed { key_code: KeyCode, modifiers: NativeModifiers },
    KeyReleased { key_code: KeyCode, modifiers: NativeModifiers },
    ModifiersChanged(NativeModifiers),
}

#[derive(Debug, Clone, Copy, PartialEq, Eq, Structural)]
pub enum WindowEvent {
    Focused,
    Unfocused,
    CloseRequested,
    Resized { width: u32, height: u32 },
}

#[derive(Debug, Clone, Copy, PartialEq, Eq, Structural)]
pub enum LayerEvent {
    Focused(SurfaceId),
    Unfocused(SurfaceId),
}

#[derive(Debug, Clone, Copy, PartialEq, Eq, Structural)]
pub enum PopupEvent {
    Focused(SurfaceId),
    Unfocused(SurfaceId),
    Done(SurfaceId),
}

/// An input or surface event as the toolkit receives it.
#[derive(Debug, Clone, Copy, PartialEq, Eq, Structural)]
pub enum NativeEvent {
    Mouse(MouseEvent),
    Keyboard(KeyboardEvent),
    Window(SurfaceId, WindowEvent),
    Layer(LayerEvent),
    Popup(PopupEvent),
}

/// The toolkit's key for an xkb keysym, if it names one.
pub open spec fn keycode_of(keysym: u32) -> Option<KeyCode> {
    if 0x61 <= keysym <= 0x7a {
        Some(KeyCode::Letter((keysym - 0x61) as u8))
    } else if 0x41 <= keysym <= 0x5a {
        Some(KeyCode::Letter((keysym - 0x41) as u8))
    } else if 0x30 <= keysym <= 0x39 {
        Some(KeyCode::Digit((keysym - 0x30) as u8))
    } else if 0xffbe <= keysym <= 0xffc9 {
        Some(KeyCode::Function((keysym - 0xffbd) as u8))
    } else if keysym == 0xff1b {
        Some(KeyCode::Escape)
    } else if keysym == 0xff0d || keysym == 0xff8d {
        Some(KeyCode::Enter)
    } else if keysym == 0xff09 {
        Some(KeyCode::Tab)
    } else if keysym == 0xff08 {
        Some(KeyCode::Backspace)
    } else if keysym == 0x20 {
        Some(KeyCode::Space)
    } else if keysym == 0xff51 {
        Some(KeyCode::Left)
    } else if keysym == 0xff52 {
        Some(KeyCode::Up)
    } else if keysym == 0xff53 {
        Some(KeyCode::Right)
    } else if keysym == 0xff54 {
        Some(KeyCode::Down)
    } else if keysym == 0xff50 {
        Some(KeyCode::Home)
    } else if keysym == 0xff57 {
        Some(KeyCode::End)
    } else if keysym == 0xff55 {
        Some(KeyCode::PageUp)
    } else if keysym == 0xff56 {
        Some(KeyCode::PageDown)
    } else if keysym == 0xff63 {
        Some(KeyCode::Insert)
    } else if keysym == 0xffff {
        Some(KeyCode::Delete)
    } else {
        None
    }
}

/// The toolkit's key for an xkb keysym, if it names one.
pub fn keysym_to_vkey(keysym: u32) -> (r: Option<KeyCode>)
    ensures
        r == keycode_of(keysym),
{
    if 0x61 <= keysym && keysym <= 0x7a {
        Some(KeyCode::Letter((keysym - 0x61) as u8))
    } else if 0x41 <= keysym && keysym <= 0x5a {
        Some(KeyCode::Letter((keysym - 0x41) as u8))
    } else if 0x30 <= keysym && keysym <= 0x39 {
        Some(KeyCode::Digit((keysym - 0x30) as u8))
    } else if 0xffbe <= keysym && keysym <= 0xffc9 {
        Some(KeyCode::Function((keysym - 0xffbd) as u8))
    } else if keysym == 0xff1b {
        Some(KeyCode::Escape)
    } else if keysym == 0xff0d || keysym == 0xff8d {
        Some(KeyCode::Enter)
    } else if keysym == 0xff09 {
        Some(KeyCode::Tab)
    } else if keysym == 0xff08 {
        Some(KeyCode::Backspace)
    } else if keysym == 0x20 {
        Some(KeyCode::Space)
    } else if keysym == 0xff51 {
        Some(KeyCode::Left)
    } else if keysym == 0xff52 {
        Some(KeyCode::Up)
    } else if keysym == 0xff53 {
        Some(KeyCode::Right)
    } else if keysym == 0xff54 {
        Some(KeyCode::Down)
    } else if keysym == 0xff50 {
        Some(KeyCode::Home)
    } else if keysym == 0xff57 {
        Some(KeyCode::End)
    } else if keysym == 0xff55 {
        Some(KeyCode::PageUp)
    } else if keysym == 0xff56 {
        Some(KeyCode::PageDown)
    } else if keysym == 0xff63 {
        Some(KeyCode::Insert)
    } else if keysym == 0xffff {
        Some(KeyCode::Delete)
    } else {
        None
    }
}

/// The toolkit's view of the compositor's modifier state.
pub open spec fn native_modifiers(m: Modifiers) -> NativeModifiers {
    NativeModifiers { shift: m.shift, control: m.ctrl, alt: m.alt, logo: m.logo }
}

/// The toolkit's view of the compositor's modifier state.
pub fn modifiers_to_native(m: Modifiers) -> (r: NativeModifiers)
    ensures
        r == native_modifiers(m),
{
    NativeModifiers { shift: m.shift, control: m.ctrl, alt: m.alt, logo: m.logo }
}

/// The linux input codes of the three main mouse buttons.
pub const BTN_LEFT: u32 = 0x110;
pub const BTN_RIGHT: u32 = 0x111;
pub const BTN_MIDDLE: u32 = 0x112;

/// The toolkit's button for a linux input button code, if it has one.
pub open spec fn button_of(button: u32) -> Option<MouseButton> {
    if button == BTN_LEFT {
        Some(MouseButton::Left)
    } else if button == BTN_RIGHT {
        Some(MouseButton::Right)
    } else if button == BTN_MIDDLE {
        Some(MouseButton::Middle)
    } else if button <= 255 {
        Some(MouseButton::Other(button as u8))
    } else {
        None
    }
}

/// The toolkit's button for a linux input button code, if it has one.
pub fn pointer_button_to_native(button: u32) -> (r: Option<MouseButton>)
    ensures
        r == button_of(button),
{
    if button == BTN_LEFT {
        Some(MouseButton::Left)
    } else if button == BTN_RIGHT {
        Some(MouseButton::Right)
    } else if button == BTN_MIDDLE {
        Some(MouseButton::Middle)
    } else if button <= 255 {
        Some(MouseButton::Other(button as u8))
    } else {
        None
    }
}

/// The scroll of an axis event: wheel and wheel-tilt sources scroll by
/// lines, by their discrete steps; every other source, and an event whose
/// source the compositor did not tell, by pixels, by the absolute values.
pub open spec fn scroll_of(source: Option<AxisSource>, horizontal: AxisScroll, vertical: AxisScroll) -> Option<ScrollDelta> {
    match source {
        Some(AxisSource::Wheel) | Some(AxisSource::WheelTilt) => Some(
            ScrollDelta::Lines { x: horizontal.discrete, y: vertical.discrete },
        ),
        _ => Some(ScrollDelta::Pixels { x: horizontal.absolute, y: vertical.absolute }),
    }
}

/// The scroll of an axis event (see `scroll_of`).
pub fn pointer_axis_to_native(source: Option<AxisSource>, horizontal: AxisScroll, vertical: AxisScroll) -> (r: Option<ScrollDelta>)
    ensures
        r == scroll_of(source, horizontal, vertical),
{
    match source {
        Some(AxisSource::Wheel) | Some(AxisSource::WheelTilt) => Some(
            ScrollDelta::Lines { x: horizontal.discrete, y: vertical.discrete },
        ),
        _ => Some(ScrollDelta::Pixels { x: horizontal.absolute, y: vertical.absolute }),
    }
}

/// The focus event of a surface, by its kind.
pub open spec fn focus_event(w: SurfaceIdWrapper, focused: bool) -> NativeEvent {
    match w {
        SurfaceIdWrapper::LayerSurface(id) => NativeEvent::Layer(
            if focused { LayerEvent::Focused(id) } else { LayerEvent::Unfocused(id) },
        ),
        SurfaceIdWrapper::Window(id) => NativeEvent::Window(
            id,
            if focused { WindowEvent::Focused } else { WindowEvent::Unfocused },
        ),
        SurfaceIdWrapper::Popup(id) => NativeEvent::Popup(
            if focused { PopupEvent::Focused(id) } else { PopupEvent::Unfocused(id) },
        ),
    }
}

/// The toolkit event, if any, that a protocol event projects to, given the
/// modifiers held and the table of logical identities. Events of surfaces
/// that have no logical identity project to nothing.
pub open spec fn native_of(e: SctkEvent, mods: Modifiers, table: Seq<(ObjectId, SurfaceIdWrapper)>) -> Option<NativeEvent> {
    match e {
        SctkEvent::PointerEvent { variant, .. } => if lookup(table, variant.surface) is None {
            None
        } else {
            match variant.kind {
                PointerEventKind::Enter { .. } => Some(NativeEvent::Mouse(MouseEvent::CursorEntered)),
                PointerEventKind::Leave { .. } => Some(NativeEvent::Mouse(MouseEvent::CursorLeft)),
                PointerEventKind::Motion { .. } => Some(
                    NativeEvent::Mouse(MouseEvent::CursorMoved { x: variant.position.0, y: variant.position.1 }),
                ),
                PointerEventKind::Press { button, .. } => match button_of(button) {
                    Some(b) => Some(NativeEvent::Mouse(MouseEvent::ButtonPressed(b))),
                    None => None,
                },
                PointerEventKind::Release { button, .. } => match button_of(button) {
                    Some(b) => Some(NativeEvent::Mouse(MouseEvent::ButtonReleased(b))),
                    None => None,
                },
                PointerEventKind::Axis { horizontal, vertical, source, .. } => match scroll_of(source, horizontal, vertical) {
                    Some(d) => Some(NativeEvent::Mouse(MouseEvent::WheelScrolled(d))),
                    None => None,
                },
            }
        },
        SctkEvent::KeyboardEvent { variant, .. } => match variant {
            KeyboardEventVariant::Enter(surface) => match lookup(table, surface) {
                Some(w) => Some(focus_event(w, true)),
                None => None,
            },
            KeyboardEventVariant::Leave(surface) => match lookup(table, surface) {
                Some(w) => Some(focus_event(w, false)),
                None => None,
            },
            KeyboardEventVariant::Press(k) => match keycode_of(k.keysym) {
                Some(key_code) => Some(
                    NativeEvent::Keyboard(KeyboardEvent::KeyPressed { key_code, modifiers: native_modifiers(mods) }),
                ),
                None => None,
            },
            KeyboardEventVariant::Release(k) => match keycode_of(k.keysym) {
                Some(key_code) => Some(
                    NativeEvent::Keyboard(KeyboardEvent::KeyReleased { key_code, modifiers: native_modifiers(mods) }),
                ),
                None => None,
            },
            KeyboardEventVariant::Modifiers(m) => Some(
                NativeEvent::Keyboard(KeyboardEvent::ModifiersChanged(native_modifiers(m))),
            ),
        },
        SctkEvent::WindowEvent { variant, id } => match variant {
            WindowEventVariant::Close => match lookup(table, id) {
                Some(w) => Some(NativeEvent::Window(w.inner_spec(), WindowEvent::CloseRequested)),
                None => None,
            },
            WindowEventVariant::Configure(c, _) => match (c.resizing, c.new_size, lookup(table, id)) {
                (true, Some(size), Some(w)) => Some(
                    NativeEvent::Window(w.inner_spec(), WindowEvent::Resized { width: size.width, height: size.height }),
                ),
                _ => None,
            },
            _ => None,
        },
        SctkEvent::PopupEvent { variant, id, .. } => match variant {
            PopupEventVariant::Done => match lookup(table, id) {
                Some(w) => Some(NativeEvent::Popup(PopupEvent::Done(w.inner_spec()))),
                None => None,
            },
            _ => None,
        },
        _ => None,
    }
}

/// The modifiers held after a protocol event: a change of modifiers is kept
/// whatever the event projects to.
pub open spec fn modifiers_after(e: SctkEvent, mods: Modifiers) -> Modifiers {
    match e {
        SctkEvent::KeyboardEvent { variant: KeyboardEventVariant::Modifiers(m), .. } => m,
        _ => mods,
    }
}

impl SctkEvent {
    /// Projects a protocol event to the toolkit's event (see `native_of`),
    /// and keeps track of the modifiers held.
    pub fn to_native(self, modifiers: &mut Modifiers, surface_ids: &Vec<(ObjectId, SurfaceIdWrapper)>) -> (r: Option<NativeEvent>)
        ensures
            r == native_of(self, *old(modifiers), surface_ids@),
            *final(modifiers) == modifiers_after(self, *old(modifiers)),
    {
        match self {
            SctkEvent::PointerEvent { variant, .. } => {
                if find_surface_id(surface_ids, variant.surface).is_none() {
                    return None;
                }
                match variant.kind {
                    PointerEventKind::Enter { .. } => Some(NativeEvent::Mouse(MouseEvent::CursorEntered)),
                    PointerEventKind::Leave { .. } => Some(NativeEvent::Mouse(MouseEvent::CursorLeft)),
                    PointerEventKind::Motion { .. } => Some(
                        NativeEvent::Mouse(MouseEvent::CursorMoved { x: variant.position.0, y: variant.position.1 }),
                    ),
                    PointerEventKind::Press { button, .. } => match pointer_button_to_native(button) {
                        Some(b) => Some(NativeEvent::Mouse(MouseEvent::ButtonPressed(b))),
                        None => None,
                    },
                    PointerEventKind::Release { button, .. } => match pointer_button_to_native(button) {
                        Some(b) => Some(NativeEvent::Mouse(MouseEvent::ButtonReleased(b))),
                        None => None,
                    },
                    PointerEventKind::Axis { horizontal, vertical, source, .. } => {
                        match pointer_axis_to_native(source, horizontal, vertical) {
                            Some(d) => Some(NativeEvent::Mouse(MouseEvent::WheelScrolled(d))),
                            None => None,
                        }
                    },
                }
            },
            SctkEvent::KeyboardEvent { variant, .. } => match variant {
                KeyboardEventVariant::Enter(surface) => match find_surface_id(surface_ids, surface) {
                    Some(w) => Some(focus(w, true)),
                    None => None,
                },
                KeyboardEventVariant::Leave(surface) => match find_surface_id(surface_ids, surface) {
                    Some(w) => Some(focus(w, false)),
                    None => None,
                },
                KeyboardEventVariant::Press(k) => match keysym_to_vkey(k.keysym) {
                    Some(key_code) => Some(
                        NativeEvent::Keyboard(KeyboardEvent::KeyPressed { key_code, modifiers: modifiers_to_native(*modifiers) }),
                    ),
                    None => None,
                },
                KeyboardEventVariant::Release(k) => match keysym_to_vkey(k.keysym) {
                    Some(key_code) => Some(
                        NativeEvent::Keyboard(KeyboardEvent::KeyReleased { key_code, modifiers: modifiers_to_native(*modifiers) }),
                    ),
                    None => None,
                },
                KeyboardEventVariant::Modifiers(m) => {
                    *modifiers = m;
                    Some(NativeEvent::Keyboard(KeyboardEvent::ModifiersChanged(modifiers_to_native(m))))
                },
            },
            SctkEvent::WindowEvent { variant, id } => match variant {
                WindowEventVariant::Close => match find_surface_id(surface_ids, id) {
                    Some(w) => Some(NativeEvent::Window(w.inner(), WindowEvent::CloseRequested)),
                    None => None,
                },
                WindowEventVariant::Configure(c, _) => {
                    if !c.resizing {
                        return None;
                    }
                    match (c.new_size, find_surface_id(surface_ids, id)) {
                        (Some(size), Some(w)) => Some(
                            NativeEvent::Window(w.inner(), WindowEvent::Resized { width: size.width, height: size.height }),
                        ),
                        _ => None,
                    }
                },
                _ => None,
            },
            SctkEvent::PopupEvent { variant, id, .. } => match variant {
                PopupEventVariant::Done => match find_surface_id(surface_ids, id) {
                    Some(w) => Some(NativeEvent::Popup(PopupEvent::Done(w.inner()))),
                    None => None,
                },
                _ => None,
            },
            _ => None,
        }
    }
}

/// The toolkit events of a batch of protocol events, in order, and the
/// modifiers held after it. Each event is projected with the modifiers that
/// the events before it left.
pub open spec fn project_all(events: Seq<SctkEvent>, mods: Modifiers, table: Seq<(ObjectId, SurfaceIdWrapper)>) -> (Seq<NativeEvent>, Modifiers)
    decreases events.len(),
{
    if events.len() == 0 {
        (Seq::empty(), mods)
    } else {
        let (prev, m) = project_all(events.drop_last(), mods, table);
        let e = events.last();
        (
            match native_of(e, m, table) {
                Some(n) => prev.push(n),
                None => prev,
            },
            modifiers_after(e, m),
        )
    }
}

/// Projects the events of one surface for the toolkit's update pass (see
/// `project_all`); events without a projection are dropped.
pub fn project_events(events: &Vec<SctkEvent>, modifiers: &mut Modifiers, surface_ids: &Vec<(ObjectId, SurfaceIdWrapper)>) -> (r: Vec<NativeEvent>)
    ensures
        (r@, *final(modifiers)) == project_all(events@, *old(modifiers), surface_ids@),
{
    let mut out: Vec<NativeEvent> = Vec::new();
    let mut i: usize = 0;
    while i < events.len()
        invariant
            i <= events@.len(),
            (out@, *modifiers) == project_all(events@.subrange(0, i as int), *old(modifiers), surface_ids@),
        decreases events@.len() - i,
    {
        let e = events[i];
        proof {
            assert(events@.subrange(0, i + 1).drop_last() =~= events@.subrange(0, i as int));
            assert(events@.subrange(0, i + 1).last() == e);
        }
        if let Some(n) = e.to_native(modifiers, surface_ids) {
            out.push(n);
        }
        i = i + 1;
    }
    proof {
        assert(events@.subrange(0, events@.len() as int) =~= events@);
    }
    out
}

/// The focus event of a surface, by its kind.
fn focus(w: SurfaceIdWrapper, focused: bool) -> (r: NativeEvent)
    ensures
        r == focus_event(w, focused),
{
    match w {
        SurfaceIdWrapper::LayerSurface(id) => NativeEvent::Layer(
            if focused { LayerEvent::Focused(id) } else { LayerEvent::Unfocused(id) },
        ),
        SurfaceIdWrapper::Window(id) => NativeEvent::Window(
            id,
            if focused { WindowEvent::Focused } else { WindowEvent::Unfocused },
        ),
        SurfaceIdWrapper::Popup(id) => NativeEvent::Popup(
            if focused { PopupEvent::Focused(id) } else { PopupEvent::Unfocused(id) },
        ),
    }
}

} // verus!
