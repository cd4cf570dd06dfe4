use iced_sctk::commands::{layer_surface, popup, window, Command, Reply};
use iced_sctk::error::Error;
use iced_sctk::event_loop::state::{
    Anchor, IcedLayerSurface, IcedMargin, IcedPopup, KeyboardInteractivity, Layer, Mode,
    Positioner, ProtocolRequest, SctkState, SurfaceRole,
};
use iced_sctk::settings::InitialSurface;
use iced_sctk::sctk_event::{
    Capability, LayerSurfaceConfigure, LogicalSize, PointerEvent, PointerEventKind, SurfaceConfigure,
};

fn layer(id: u64) -> IcedLayerSurface {
    IcedLayerSurface {
        id,
        layer: Layer::Top,
        keyboard_interactivity: KeyboardInteractivity::NoInteraction,
        anchor: Anchor { top: false, bottom: true, left: false, right: false },
        margin: IcedMargin { top: 0, right: 0, bottom: 8, left: 0 },
        size: Some(LogicalSize { width: 800, height: 40 }),
        exclusive_zone: 0,
    }
}

fn positioner() -> Positioner {
    Positioner { size: LogicalSize { width: 20, height: 30 }, anchor_rect: (0, 0, 5, 5), offset: (1, 2) }
}

#[test]
fn resize_twice_redraws_once() {
    let mut state: SctkState<()> = SctkState::new();
    state.get_window(1, 100, None, Mode::Windowed).unwrap();
    state.take_requests();
    let cmd = window::resize(1, 300, 200).batch(window::resize(1, 300, 200));
    let replies = state.run_command(&cmd.actions, &vec![]);
    assert!(replies.is_empty());
    let requests = state.take_requests();
    assert_eq!(requests.len(), 2);
    assert!(matches!(requests[0], ProtocolRequest::SetWindowGeometry { object: 100, width: 300, height: 200 }));
    assert_eq!(state.take_redraw_requests(), vec![100]);
    state.run_command(&window::resize(1, 300, 200).actions, &vec![]);
    assert!(state.take_requests().is_empty());
    assert!(state.take_redraw_requests().is_empty());
}

#[test]
fn create_layer_surface_then_configure() {
    let mut state: SctkState<()> = SctkState::new();
    let cmd = layer_surface::get_layer_surface(layer(1)).batch(layer_surface::set_exclusive_zone(1, 40));
    state.run_command(&cmd.actions, &vec![10]);
    assert_eq!(state.surfaces.len(), 1);
    match state.surfaces[0].role {
        SurfaceRole::LayerSurface(l) => assert_eq!(l.exclusive_zone, 40),
        _ => panic!("expected a layer surface"),
    }
    state.configure(10, SurfaceConfigure::LayerSurface(LayerSurfaceConfigure { new_size: LogicalSize { width: 800, height: 40 } }));
    assert_eq!(state.apply_compositor_updates().len(), 1);
    assert_eq!(state.take_redraw_requests(), vec![10]);
}

#[test]
fn creation_without_fresh_object_is_dropped() {
    let mut state: SctkState<()> = SctkState::new();
    let cmd = layer_surface::get_layer_surface(layer(1)).batch(layer_surface::get_layer_surface(layer(2)));
    state.run_command(&cmd.actions, &vec![10]);
    assert_eq!(state.surfaces.len(), 1);
    assert_eq!(state.surfaces[0].id, 1);
}

#[test]
fn stale_targets_do_not_abort_the_batch() {
    let mut state: SctkState<()> = SctkState::new();
    state.get_window(1, 100, None, Mode::Windowed).unwrap();
    state.take_requests();
    let cmd = window::close(9)
        .batch(layer_surface::set_layer(1, Layer::Overlay))
        .batch(window::set_mode(1, Mode::Fullscreen))
        .batch(window::fetch_mode(1));
    let replies = state.run_command(&cmd.actions, &vec![]);
    assert_eq!(replies, vec![Reply::Mode(1, Mode::Fullscreen)]);
    let requests = state.take_requests();
    assert_eq!(requests.len(), 1);
    assert!(matches!(requests[0], ProtocolRequest::SetMode { object: 100, mode: Mode::Fullscreen }));
}

#[test]
fn close_window_retires_identity() {
    let mut state: SctkState<()> = SctkState::new();
    state.get_window(1, 100, None, Mode::Windowed).unwrap();
    state.take_requests();
    state.run_command(&window::close(1).actions, &vec![]);
    assert!(state.surfaces.is_empty());
    assert_eq!(state.retired, vec![1]);
    assert!(matches!(state.take_requests()[0], ProtocolRequest::DestroyWindow(100)));
}

#[test]
fn layer_settings_commands() {
    let mut state: SctkState<()> = SctkState::new();
    state.get_layer_surface(layer(1), 10).unwrap();
    state.take_requests();
    let anchor = Anchor { top: true, bottom: false, left: true, right: true };
    let cmd = layer_surface::set_anchor(1, anchor)
        .batch(layer_surface::set_margin(1, 1, 2, 3, 4))
        .batch(layer_surface::set_keyboard_interactivity(1, KeyboardInteractivity::Exclusive))
        .batch(layer_surface::set_size(1, 10, 20))
        .batch(layer_surface::destroy_layer_surface(1));
    state.run_command(&cmd.actions, &vec![]);
    let requests = state.take_requests();
    assert_eq!(requests.len(), 9);
    assert!(matches!(requests[0], ProtocolRequest::SetAnchor { object: 10, .. }));
    assert!(matches!(requests[2], ProtocolRequest::SetMargin { object: 10, margin: IcedMargin { top: 1, right: 2, bottom: 3, left: 4 } }));
    assert!(matches!(requests[6], ProtocolRequest::SetSize { object: 10, width: 10, height: 20 }));
    assert!(matches!(requests[8], ProtocolRequest::DestroyLayerSurface(10)));
    assert!(state.surfaces.is_empty());
}

#[test]
fn popup_commands() {
    let mut state: SctkState<()> = SctkState::new();
    state.get_window(1, 100, None, Mode::Windowed).unwrap();
    state.new_seat(5);
    state.take_requests();
    let p = IcedPopup { id: 2, parent: 1, positioner: positioner(), grab: true };
    let cmd = popup::get_popup(p).batch(popup::get_popup(IcedPopup { id: 3, parent: 2, positioner: positioner(), grab: false }));
    state.run_command(&cmd.actions, &vec![101, 102]);
    assert_eq!(state.surfaces.len(), 3);
    let requests = state.take_requests();
    assert_eq!(requests.len(), 4);
    state.run_command(&popup::reposition_popup(3, positioner()).actions, &vec![]);
    state.run_command(&popup::grab_popup(3).actions, &vec![]);
    let requests = state.take_requests();
    assert_eq!(requests.len(), 1);
    state.take_events();
    state.run_command(&popup::destroy_popup(2).actions, &vec![]);
    assert_eq!(state.surfaces.len(), 1);
    assert_eq!(state.take_events().len(), 2);
}

#[test]
fn grab_names_last_press_of_active_seat() {
    let mut state: SctkState<()> = SctkState::new();
    state.get_window(1, 100, None, Mode::Windowed).unwrap();
    state.new_seat(5);
    state.new_capability(5, Capability::Pointer, Some(60));
    let frame = vec![PointerEvent { surface: 100, position: (0, 0), kind: PointerEventKind::Press { time: 1, button: 0x110, serial: 44 } }];
    state.pointer_frame(60, &frame);
    state.take_requests();
    let p = IcedPopup { id: 2, parent: 1, positioner: positioner(), grab: true };
    state.run_command(&popup::get_popup(p).actions, &vec![101]);
    let requests = state.take_requests();
    assert_eq!(requests.len(), 3);
    assert!(matches!(requests[1], ProtocolRequest::Grab { object: 101, seat: 5, serial: 44 }));
}

#[test]
fn command_helpers() {
    assert!(Command::none().actions.is_empty());
    assert_eq!(window::close(1).batch(window::close(2)).actions.len(), 2);
}

#[test]
fn initial_surface_default_is_layer() {
    let mut state: SctkState<()> = SctkState::new();
    let s = InitialSurface::default();
    assert_eq!(s.id(), 0);
    assert!(matches!(s, InitialSurface::LayerSurface(_)));
    assert!(state.create_initial_surface(s, 10).is_ok());
    assert!(state.create_initial_surface(s, 11).is_err());
}

#[test]
fn error_messages() {
    assert_eq!(
        Error::ConnectionCreationFailed.message(),
        "the connection to the wayland server could not be created"
    );
    assert_ne!(Error::ExecutorCreationFailed.message(), Error::WindowCreationFailed.message());
}
