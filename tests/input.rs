use iced_sctk::application::{find_surface_id, route_events, SurfaceIdWrapper};
use iced_sctk::event_loop::state::{Mode, SctkState};
use iced_sctk::native::{
    keysym_to_vkey, modifiers_to_native, pointer_axis_to_native, pointer_button_to_native, project_events,
    KeyCode, KeyboardEvent, LayerEvent, MouseButton, MouseEvent, NativeEvent, NativeModifiers,
    ScrollDelta, WindowEvent,
};
use iced_sctk::sctk_event::{
    AxisScroll, AxisSource, Capability, KeyEvent, KeyboardEventVariant, Modifiers, PointerEvent,
    PointerEventKind, SctkEvent, SeatEventVariant,
};

fn key(keysym: u32) -> KeyEvent {
    KeyEvent { time: 0, raw_code: 30, keysym }
}

#[test]
fn keyboard_scenario_shift() {
    let mut state: SctkState<()> = SctkState::new();
    state.get_window(1, 100, None, Mode::Windowed).unwrap();
    state.new_seat(5);
    state.new_capability(5, Capability::Keyboard, Some(50));
    assert_eq!(state.seats[0].kbd, Some(50));
    state.enter(50, 100);
    assert_eq!(state.seats[0].kbd_focus, Some(100));
    state.press_key(50, key(0x61));
    state.update_modifiers(50, Modifiers { shift: true, ..Modifiers::default() });
    state.press_key(50, key(0x41));

    let events = state.take_events();
    let table = state.surface_ids();
    let mut mods = Modifiers::default();
    let native: Vec<NativeEvent> = events.into_iter().filter_map(|e| e.to_native(&mut mods, &table)).collect();
    assert_eq!(native.len(), 4);
    assert_eq!(native[0], NativeEvent::Window(1, WindowEvent::Focused));
    assert_eq!(
        native[1],
        NativeEvent::Keyboard(KeyboardEvent::KeyPressed { key_code: KeyCode::Letter(0), modifiers: NativeModifiers::default() })
    );
    let shift = NativeModifiers { shift: true, ..NativeModifiers::default() };
    assert_eq!(native[2], NativeEvent::Keyboard(KeyboardEvent::ModifiersChanged(shift)));
    assert_eq!(
        native[3],
        NativeEvent::Keyboard(KeyboardEvent::KeyPressed { key_code: KeyCode::Letter(0), modifiers: shift })
    );
    assert!(mods.shift);
}

#[test]
fn seat_capabilities_bookkeeping() {
    let mut state: SctkState<()> = SctkState::new();
    state.new_seat(5);
    state.new_capability(5, Capability::Pointer, Some(60));
    state.new_capability(5, Capability::Touch, Some(70));
    state.new_capability(9, Capability::Keyboard, Some(80));
    state.new_capability(5, Capability::Keyboard, None);
    assert_eq!(state.seats[0].ptr, Some(60));
    assert_eq!(state.seats[0].kbd, None);
    state.remove_capability(5, Capability::Pointer);
    state.remove_capability(5, Capability::Pointer);
    assert_eq!(state.seats[0].ptr, None);
    state.remove_seat(5);
    assert!(state.seats.is_empty());
    let events = state.take_events();
    assert_eq!(events.len(), 4);
    assert!(matches!(events[0], SctkEvent::SeatEvent { variant: SeatEventVariant::New, id: 5 }));
    assert!(matches!(
        events[1],
        SctkEvent::SeatEvent { variant: SeatEventVariant::NewCapability(Capability::Pointer, 60), id: 5 }
    ));
    assert!(matches!(
        events[2],
        SctkEvent::SeatEvent { variant: SeatEventVariant::RemoveCapability(Capability::Pointer, 60), id: 5 }
    ));
    assert!(matches!(events[3], SctkEvent::SeatEvent { variant: SeatEventVariant::Remove, id: 5 }));
}

#[test]
fn only_the_first_seat_reports_keys() {
    let mut state: SctkState<()> = SctkState::new();
    state.new_seat(5);
    state.new_seat(6);
    state.new_capability(5, Capability::Keyboard, Some(50));
    state.new_capability(6, Capability::Keyboard, Some(51));
    state.take_events();
    state.press_key(51, key(0x62));
    assert!(state.take_events().is_empty());
    assert_eq!(state.seats[1].last_kbd_press, Some(key(0x62)));
    state.press_key(50, key(0x62));
    assert_eq!(state.take_events().len(), 1);
    state.press_key(77, key(0x62));
    assert!(state.take_events().is_empty());
}

#[test]
fn leave_clears_focus() {
    let mut state: SctkState<()> = SctkState::new();
    state.new_seat(5);
    state.new_capability(5, Capability::Keyboard, Some(50));
    state.enter(50, 100);
    state.leave(50, 100);
    assert_eq!(state.seats[0].kbd_focus, None);
}

#[test]
fn pointer_frame_tracks_focus_and_press() {
    let mut state: SctkState<()> = SctkState::new();
    state.new_seat(5);
    state.new_capability(5, Capability::Pointer, Some(60));
    state.take_events();
    let frame = vec![
        PointerEvent { surface: 100, position: (256, 512), kind: PointerEventKind::Enter { serial: 1 } },
        PointerEvent { surface: 100, position: (256, 512), kind: PointerEventKind::Press { time: 9, button: 0x110, serial: 2 } },
    ];
    state.pointer_frame(60, &frame);
    assert_eq!(state.seats[0].ptr_focus, Some(100));
    assert_eq!(state.seats[0].last_ptr_press, Some((9, 0x110, 2)));
    assert_eq!(state.take_events().len(), 2);
    let leave = vec![PointerEvent { surface: 100, position: (0, 0), kind: PointerEventKind::Leave { serial: 3 } }];
    state.pointer_frame(60, &leave);
    assert_eq!(state.seats[0].ptr_focus, None);
    state.pointer_frame(61, &leave);
    assert_eq!(state.take_events().len(), 1);
}

#[test]
fn pointer_projection() {
    let table = vec![(100u32, SurfaceIdWrapper::LayerSurface(1))];
    let mut mods = Modifiers::default();
    let motion = SctkEvent::PointerEvent {
        variant: PointerEvent { surface: 100, position: (256, 768), kind: PointerEventKind::Motion { time: 0 } },
        ptr_id: 60,
        seat_id: 5,
    };
    assert_eq!(motion.to_native(&mut mods, &table), Some(NativeEvent::Mouse(MouseEvent::CursorMoved { x: 256, y: 768 })));
    let press = SctkEvent::PointerEvent {
        variant: PointerEvent { surface: 100, position: (0, 0), kind: PointerEventKind::Press { time: 0, button: 0x111, serial: 0 } },
        ptr_id: 60,
        seat_id: 5,
    };
    assert_eq!(press.to_native(&mut mods, &table), Some(NativeEvent::Mouse(MouseEvent::ButtonPressed(MouseButton::Right))));
    let elsewhere = SctkEvent::PointerEvent {
        variant: PointerEvent { surface: 101, position: (0, 0), kind: PointerEventKind::Enter { serial: 0 } },
        ptr_id: 60,
        seat_id: 5,
    };
    assert_eq!(elsewhere.to_native(&mut mods, &table), None);
}

#[test]
fn axis_sources_scroll_by_lines_or_pixels() {
    let h = AxisScroll { absolute: 512, discrete: 1, stop: false };
    let v = AxisScroll { absolute: -2560, discrete: -3, stop: false };
    assert_eq!(pointer_axis_to_native(Some(AxisSource::Wheel), h, v), Some(ScrollDelta::Lines { x: 1, y: -3 }));
    assert_eq!(pointer_axis_to_native(Some(AxisSource::WheelTilt), h, v), Some(ScrollDelta::Lines { x: 1, y: -3 }));
    assert_eq!(pointer_axis_to_native(Some(AxisSource::Finger), h, v), Some(ScrollDelta::Pixels { x: 512, y: -2560 }));
    assert_eq!(pointer_axis_to_native(Some(AxisSource::Continuous), h, v), Some(ScrollDelta::Pixels { x: 512, y: -2560 }));
    assert_eq!(pointer_axis_to_native(None, h, v), Some(ScrollDelta::Pixels { x: 512, y: -2560 }));
}

#[test]
fn button_codes() {
    assert_eq!(pointer_button_to_native(0x110), Some(MouseButton::Left));
    assert_eq!(pointer_button_to_native(0x112), Some(MouseButton::Middle));
    assert_eq!(pointer_button_to_native(8), Some(MouseButton::Other(8)));
    assert_eq!(pointer_button_to_native(0x113), None);
}

#[test]
fn keysym_table() {
    assert_eq!(keysym_to_vkey(0x7a), Some(KeyCode::Letter(25)));
    assert_eq!(keysym_to_vkey(0x5a), Some(KeyCode::Letter(25)));
    assert_eq!(keysym_to_vkey(0x37), Some(KeyCode::Digit(7)));
    assert_eq!(keysym_to_vkey(0xffbe), Some(KeyCode::Function(1)));
    assert_eq!(keysym_to_vkey(0xffc9), Some(KeyCode::Function(12)));
    assert_eq!(keysym_to_vkey(0xff0d), Some(KeyCode::Enter));
    assert_eq!(keysym_to_vkey(0xff1b), Some(KeyCode::Escape));
    assert_eq!(keysym_to_vkey(0xffff), Some(KeyCode::Delete));
    assert_eq!(keysym_to_vkey(0x1234), None);
}

#[test]
fn modifiers_mapping() {
    let m = Modifiers { ctrl: true, alt: false, shift: false, caps_lock: true, logo: true, num_lock: true };
    assert_eq!(modifiers_to_native(m), NativeModifiers { shift: false, control: true, alt: false, logo: true });
}

#[test]
fn modifiers_kept_even_without_surface() {
    let table: Vec<(u32, SurfaceIdWrapper)> = Vec::new();
    let mut mods = Modifiers::default();
    let e = SctkEvent::KeyboardEvent {
        variant: KeyboardEventVariant::Modifiers(Modifiers { ctrl: true, ..Modifiers::default() }),
        kbd_id: 50,
        seat_id: 5,
    };
    assert!(e.to_native(&mut mods, &table).is_some());
    assert!(mods.ctrl);
    let enter = SctkEvent::KeyboardEvent { variant: KeyboardEventVariant::Enter(100), kbd_id: 50, seat_id: 5 };
    assert_eq!(enter.to_native(&mut mods, &table), None);
}

#[test]
fn layer_focus_projection() {
    let table = vec![(100u32, SurfaceIdWrapper::LayerSurface(4))];
    let mut mods = Modifiers::default();
    let leave = SctkEvent::KeyboardEvent { variant: KeyboardEventVariant::Leave(100), kbd_id: 50, seat_id: 5 };
    assert_eq!(leave.to_native(&mut mods, &table), Some(NativeEvent::Layer(LayerEvent::Unfocused(4))));
}

#[test]
fn lookup_takes_first_entry() {
    let table = vec![(1u32, SurfaceIdWrapper::Window(10)), (1u32, SurfaceIdWrapper::Popup(11))];
    assert_eq!(find_surface_id(&table, 1), Some(SurfaceIdWrapper::Window(10)));
    assert_eq!(find_surface_id(&table, 2), None);
}

#[test]
fn routing_per_surface() {
    let events = vec![
        SctkEvent::Draw(100),
        SctkEvent::NewOutput { id: 3 },
        SctkEvent::KeyboardEvent { variant: KeyboardEventVariant::Enter(100), kbd_id: 50, seat_id: 5 },
        SctkEvent::Draw(200),
    ];
    let (mine, rest) = route_events(&events, 100, Some(100));
    assert_eq!(mine.len(), 3);
    assert!(matches!(mine[0], SctkEvent::Draw(100)));
    assert!(matches!(mine[1], SctkEvent::NewOutput { id: 3 }));
    assert_eq!(rest.len(), 2);
    assert!(matches!(rest[1], SctkEvent::Draw(200)));
    let (mine, _) = route_events(&events, 100, None);
    assert_eq!(mine.len(), 2);
}

#[test]
fn sink_swap_keeps_later_events_apart() {
    let mut state: SctkState<u8> = SctkState::new();
    state.get_window(1, 1, None, Mode::Windowed).unwrap();
    state.get_window(2, 2, None, Mode::Windowed).unwrap();
    state.frame(1);
    let drained = state.take_events();
    state.frame(2);
    assert_eq!(drained.len(), 1);
    assert!(matches!(drained[0], SctkEvent::Draw(1)));
    let next = state.take_events();
    assert_eq!(next.len(), 1);
    assert!(matches!(next[0], SctkEvent::Draw(2)));
}

#[test]
fn user_events_drain_in_order() {
    let mut state: SctkState<u8> = SctkState::new();
    state.push_user_event(3);
    state.push_user_event(4);
    assert_eq!(state.take_user_events(), vec![3, 4]);
    assert!(state.take_user_events().is_empty());
}

#[test]
fn batch_projection_threads_modifiers() {
    let table = vec![(100u32, SurfaceIdWrapper::Window(1))];
    let events = vec![
        SctkEvent::KeyboardEvent { variant: KeyboardEventVariant::Press(key(0x61)), kbd_id: 50, seat_id: 5 },
        SctkEvent::KeyboardEvent {
            variant: KeyboardEventVariant::Modifiers(Modifiers { shift: true, ..Modifiers::default() }),
            kbd_id: 50,
            seat_id: 5,
        },
        SctkEvent::KeyboardEvent { variant: KeyboardEventVariant::Press(key(0x1234)), kbd_id: 50, seat_id: 5 },
        SctkEvent::KeyboardEvent { variant: KeyboardEventVariant::Release(key(0x41)), kbd_id: 50, seat_id: 5 },
    ];
    let mut mods = Modifiers::default();
    let native = project_events(&events, &mut mods, &table);
    assert_eq!(native.len(), 3);
    let shift = NativeModifiers { shift: true, ..NativeModifiers::default() };
    assert_eq!(
        native[2],
        NativeEvent::Keyboard(KeyboardEvent::KeyReleased { key_code: KeyCode::Letter(0), modifiers: shift })
    );
    assert!(mods.shift);
}

#[test]
fn active_focus_is_first_seat() {
    let mut state: SctkState<()> = SctkState::new();
    assert_eq!(state.active_keyboard_focus(), None);
    state.new_seat(5);
    state.new_capability(5, Capability::Keyboard, Some(50));
    state.enter(50, 100);
    assert_eq!(state.active_keyboard_focus(), Some(100));
}
