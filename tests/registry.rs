use iced_sctk::application::SurfaceIdWrapper;
use iced_sctk::event_loop::state::{
    Anchor, IcedLayerSurface, IcedMargin, IcedPopup, KeyboardInteractivity, Layer, Mode,
    Positioner, ProtocolRequest, RegistryError, SctkState, SctkSurface, SurfaceRole,
};
use iced_sctk::settings::InitialSurface;
use iced_sctk::sctk_event::{
    LayerSurfaceConfigure, LayerSurfaceEventVariant, LogicalSize, PopupConfigure,
    PopupEventVariant, SctkEvent, SurfaceConfigure, WindowConfigure, WindowEventVariant,
};

fn layer(id: u64, size: Option<LogicalSize>) -> IcedLayerSurface {
    IcedLayerSurface {
        id,
        layer: Layer::Top,
        keyboard_interactivity: KeyboardInteractivity::NoInteraction,
        anchor: Anchor { top: false, bottom: true, left: false, right: false },
        margin: IcedMargin { top: 0, right: 0, bottom: 8, left: 0 },
        size,
        exclusive_zone: 0,
    }
}

fn positioner(w: u32, h: u32) -> Positioner {
    Positioner { size: LogicalSize { width: w, height: h }, anchor_rect: (0, 0, 10, 10), offset: (0, 0) }
}

fn layer_configure(w: u32, h: u32) -> SurfaceConfigure {
    SurfaceConfigure::LayerSurface(LayerSurfaceConfigure { new_size: LogicalSize { width: w, height: h } })
}

fn window_configure(size: Option<LogicalSize>) -> SurfaceConfigure {
    SurfaceConfigure::Window(WindowConfigure {
        new_size: size,
        maximized: false,
        fullscreen: false,
        resizing: false,
        activated: true,
    })
}

fn resize_notifications(events: &[SctkEvent]) -> usize {
    events
        .iter()
        .filter(|e| {
            matches!(
                e,
                SctkEvent::WindowEvent { variant: WindowEventVariant::Configure(..), .. }
                    | SctkEvent::LayerSurfaceEvent { variant: LayerSurfaceEventVariant::Configure(..), .. }
                    | SctkEvent::PopupEvent { variant: PopupEventVariant::Configure(..), .. }
            )
        })
        .count()
}

#[test]
fn layer_surface_first_configure_then_probe() {
    let mut state: SctkState<()> = SctkState::new();
    assert_eq!(state.get_layer_surface(layer(1, None), 10), Ok(()));
    assert_eq!(state.surfaces.len(), 1);
    assert!(state.surfaces[0].current_size.is_none());
    let requests = state.take_requests();
    assert_eq!(requests.len(), 2);
    assert!(matches!(requests[0], ProtocolRequest::GetLayerSurface { object: 10, .. }));
    assert!(matches!(requests[1], ProtocolRequest::Commit(10)));

    state.configure(10, layer_configure(800, 40));
    let events = state.apply_compositor_updates();
    assert_eq!(resize_notifications(&events), 1);
    assert!(matches!(
        events[0],
        SctkEvent::LayerSurfaceEvent { variant: LayerSurfaceEventVariant::Configure(_, true), id: 10 }
    ));
    assert_eq!(state.surfaces[0].current_size, Some(LogicalSize { width: 800, height: 40 }));
    assert_eq!(state.take_redraw_requests(), vec![10]);

    state.configure(10, layer_configure(800, 40));
    let events = state.apply_compositor_updates();
    assert_eq!(resize_notifications(&events), 0);
    assert!(events.is_empty());
    assert!(state.take_redraw_requests().is_empty());
}

#[test]
fn window_first_configure_round_trip() {
    let mut state: SctkState<()> = SctkState::new();
    let size = LogicalSize { width: 640, height: 480 };
    assert_eq!(state.get_window(7, 70, Some(size), Mode::Windowed), Ok(()));
    state.configure(70, window_configure(Some(size)));
    assert!(state.surfaces[0].compositor_update.first);
    let events = state.apply_compositor_updates();
    assert_eq!(events.len(), 1);
    assert!(matches!(
        events[0],
        SctkEvent::WindowEvent { variant: WindowEventVariant::Configure(_, true), id: 70 }
    ));
    assert_eq!(state.surfaces[0].current_size, Some(size));
    assert!(state.surfaces[0].last_configure.is_some());
    assert_eq!(state.take_redraw_requests(), vec![70]);
    assert!(state.take_redraw_requests().is_empty());
}

#[test]
fn configure_without_size_keeps_requested_size() {
    let mut state: SctkState<()> = SctkState::new();
    let size = LogicalSize { width: 300, height: 200 };
    state.get_window(7, 70, Some(size), Mode::Windowed).unwrap();
    state.configure(70, window_configure(None));
    state.apply_compositor_updates();
    assert_eq!(state.surfaces[0].current_size, Some(size));
    let requests = state.take_requests();
    assert!(matches!(
        requests[requests.len() - 2],
        ProtocolRequest::SetWindowGeometry { object: 70, width: 300, height: 200 }
    ));
    assert!(matches!(requests[requests.len() - 1], ProtocolRequest::Commit(70)));
}

#[test]
fn geometry_recommitted_on_unchanged_configure() {
    let mut state: SctkState<()> = SctkState::new();
    let size = LogicalSize { width: 300, height: 200 };
    state.get_window(7, 70, Some(size), Mode::Windowed).unwrap();
    state.configure(70, window_configure(Some(size)));
    state.apply_compositor_updates();
    state.take_requests();
    state.configure(70, window_configure(Some(size)));
    assert!(state.apply_compositor_updates().is_empty());
    let requests = state.take_requests();
    assert_eq!(requests.len(), 2);
    assert!(matches!(requests[0], ProtocolRequest::SetWindowGeometry { object: 70, width: 300, height: 200 }));
}

#[test]
fn scale_change_redraws_and_reports_physical_size() {
    let mut state: SctkState<()> = SctkState::new();
    state.get_layer_surface(layer(1, None), 10).unwrap();
    state.configure(10, layer_configure(800, 40));
    state.apply_compositor_updates();
    state.take_redraw_requests();

    state.scale_factor_changed(10, 2);
    let events = state.apply_compositor_updates();
    assert_eq!(events.len(), 1);
    match events[0] {
        SctkEvent::ScaleFactorChanged { factor, id, inner_size } => {
            assert_eq!(factor, 2);
            assert_eq!(id, 10);
            assert_eq!(inner_size.width, 1600);
            assert_eq!(inner_size.height, 80);
        }
        _ => panic!("expected a scale event"),
    }
    assert_eq!(state.surfaces[0].scale_factor, 2);
    assert_eq!(state.take_redraw_requests(), vec![10]);

    state.scale_factor_changed(10, 2);
    assert!(state.apply_compositor_updates().is_empty());
    assert!(state.take_redraw_requests().is_empty());
}

#[test]
fn scale_below_one_is_ignored() {
    let mut state: SctkState<()> = SctkState::new();
    state.get_layer_surface(layer(1, None), 10).unwrap();
    state.scale_factor_changed(10, 0);
    assert_eq!(state.surfaces[0].compositor_update.scale_factor, None);
}

#[test]
fn configures_coalesce_latest_wins() {
    let mut state: SctkState<()> = SctkState::new();
    state.get_layer_surface(layer(1, None), 10).unwrap();
    state.configure(10, layer_configure(100, 10));
    state.configure(10, layer_configure(200, 20));
    let events = state.apply_compositor_updates();
    assert_eq!(resize_notifications(&events), 1);
    assert!(matches!(
        events[0],
        SctkEvent::LayerSurfaceEvent { variant: LayerSurfaceEventVariant::Configure(_, true), .. }
    ));
    assert_eq!(state.surfaces[0].current_size, Some(LogicalSize { width: 200, height: 20 }));
}

#[test]
fn configure_of_wrong_kind_or_unknown_surface_is_dropped() {
    let mut state: SctkState<()> = SctkState::new();
    state.get_layer_surface(layer(1, None), 10).unwrap();
    state.configure(10, window_configure(None));
    state.configure(99, layer_configure(1, 1));
    assert!(state.surfaces[0].last_configure.is_none());
    assert!(state.apply_compositor_updates().is_empty());
}

#[test]
fn close_request_is_delivered_not_applied() {
    let mut state: SctkState<()> = SctkState::new();
    state.get_window(7, 70, None, Mode::Windowed).unwrap();
    state.request_close(70);
    assert_eq!(state.surfaces.len(), 1);
    let events = state.apply_compositor_updates();
    assert_eq!(events.len(), 1);
    assert!(matches!(events[0], SctkEvent::WindowEvent { variant: WindowEventVariant::Close, id: 70 }));
    assert!(state.apply_compositor_updates().is_empty());
}

#[test]
fn layer_closed_removes_and_retires() {
    let mut state: SctkState<()> = SctkState::new();
    state.get_layer_surface(layer(1, None), 10).unwrap();
    state.closed(10);
    assert!(state.surfaces.is_empty());
    assert_eq!(state.retired, vec![1]);
    let events = state.take_events();
    assert!(matches!(events[0], SctkEvent::LayerSurfaceEvent { variant: LayerSurfaceEventVariant::Done, id: 10 }));
    assert_eq!(state.get_layer_surface(layer(1, None), 11), Err(RegistryError::IdInUse));
}

#[test]
fn registration_errors() {
    let mut state: SctkState<()> = SctkState::new();
    state.get_layer_surface(layer(1, None), 10).unwrap();
    assert_eq!(state.get_layer_surface(layer(2, None), 10), Err(RegistryError::ObjectInUse));
    assert_eq!(state.get_window(1, 11, None, Mode::Windowed), Err(RegistryError::IdInUse));
    let popup = IcedPopup { id: 3, parent: 42, positioner: positioner(10, 10), grab: false };
    assert_eq!(state.get_popup(popup, 12), Err(RegistryError::UnknownParent));
    assert_eq!(state.surfaces.len(), 1);
}

fn popup_tree() -> SctkState<()> {
    let mut state: SctkState<()> = SctkState::new();
    state.get_window(1, 100, None, Mode::Windowed).unwrap();
    state.get_popup(IcedPopup { id: 2, parent: 1, positioner: positioner(50, 50), grab: false }, 101).unwrap();
    state.get_popup(IcedPopup { id: 3, parent: 2, positioner: positioner(40, 40), grab: false }, 102).unwrap();
    state.take_events();
    state.take_requests();
    state
}

#[test]
fn popup_parent_and_toplevel() {
    let state = popup_tree();
    match state.surfaces[2].role {
        SurfaceRole::Popup(p) => {
            assert_eq!(p.parent, SctkSurface::Popup(101));
            assert_eq!(p.toplevel, 100);
        }
        _ => panic!("expected a popup"),
    }
}

#[test]
fn popup_done_closes_descendants_leaf_first() {
    let mut state = popup_tree();
    state.done(101);
    assert_eq!(state.surfaces.len(), 1);
    assert_eq!(state.surfaces[0].object, 100);
    let events = state.take_events();
    assert_eq!(events.len(), 2);
    assert!(matches!(
        events[0],
        SctkEvent::PopupEvent { variant: PopupEventVariant::Done, id: 102, parent_id: 101, toplevel_id: 100 }
    ));
    assert!(matches!(
        events[1],
        SctkEvent::PopupEvent { variant: PopupEventVariant::Done, id: 101, parent_id: 100, toplevel_id: 100 }
    ));
    let requests = state.take_requests();
    assert!(matches!(requests[0], ProtocolRequest::DestroyPopup(102)));
    assert!(matches!(requests[1], ProtocolRequest::DestroyPopup(101)));
    assert_eq!(state.retired, vec![3, 2]);
}

#[test]
fn popup_done_of_leaf_keeps_parent() {
    let mut state = popup_tree();
    state.done(102);
    assert_eq!(state.surfaces.len(), 2);
    assert_eq!(state.take_events().len(), 1);
}

#[test]
fn popup_done_of_unknown_object_does_nothing() {
    let mut state = popup_tree();
    state.done(100);
    state.done(555);
    assert_eq!(state.surfaces.len(), 3);
    assert!(state.take_events().is_empty());
}

#[test]
fn sibling_popups_are_kept() {
    let mut state = popup_tree();
    state.get_popup(IcedPopup { id: 4, parent: 1, positioner: positioner(5, 5), grab: false }, 103).unwrap();
    state.done(101);
    assert_eq!(state.surfaces.len(), 2);
    assert_eq!(state.surfaces[1].object, 103);
}

#[test]
fn popup_configure_carries_first_flag() {
    let mut state = popup_tree();
    let c = SurfaceConfigure::Popup(PopupConfigure { x: 0, y: 0, width: 50, height: 50 });
    state.configure(101, c);
    let events = state.apply_compositor_updates();
    assert!(matches!(
        events[0],
        SctkEvent::PopupEvent { variant: PopupEventVariant::Configure(_, true), id: 101, parent_id: 100, .. }
    ));
}

#[test]
fn identity_table_follows_registry() {
    let state = popup_tree();
    let table = state.surface_ids();
    assert_eq!(table.len(), 3);
    assert_eq!(table[0], (100, SurfaceIdWrapper::Window(1)));
    assert_eq!(table[2], (102, SurfaceIdWrapper::Popup(3)));
}

#[test]
fn redraw_requests_coalesce() {
    let mut state = popup_tree();
    state.request_redraw(2);
    state.request_redraw(2);
    state.request_redraw(77);
    assert_eq!(state.take_redraw_requests(), vec![101]);
    assert!(state.take_redraw_requests().is_empty());
}

#[test]
fn outputs_are_tracked() {
    let mut state: SctkState<()> = SctkState::new();
    state.new_output(5);
    state.new_output(6);
    state.update_output(5);
    state.output_destroyed(5);
    state.output_destroyed(9);
    assert_eq!(state.outputs, vec![6]);
    let events = state.take_events();
    assert_eq!(events.len(), 5);
    assert!(matches!(events[4], SctkEvent::RemovedOutput(9)));
}

#[test]
fn frame_callback_goes_to_the_sink() {
    let mut state: SctkState<()> = SctkState::new();
    state.get_window(7, 3, None, Mode::Windowed).unwrap();
    state.frame(3);
    assert!(matches!(state.take_events()[0], SctkEvent::Draw(3)));
}

#[test]
fn frame_of_torn_down_surface_is_dropped() {
    let mut state: SctkState<()> = SctkState::new();
    state.get_layer_surface(layer(1, None), 10).unwrap();
    state.closed(10);
    state.take_events();
    state.frame(10);
    state.frame(99);
    assert!(state.take_events().is_empty());
}

#[test]
fn initial_surface_leaves_the_rest_untouched() {
    let mut state: SctkState<()> = SctkState::new();
    let s = InitialSurface::LayerSurface(layer(1, None));
    state.create_initial_surface(s, 10).unwrap();
    assert_eq!(state.surfaces.len(), 1);
    assert!(state.surfaces[0].current_size.is_none());
    assert!(state.surfaces[0].last_configure.is_none());
    assert!(state.seats.is_empty());
    assert!(state.sctk_events.is_empty());
    assert!(state.pending_user_events.is_empty());
    assert!(state.retired.is_empty());
    let requests = state.take_requests();
    assert_eq!(requests.len(), 2);
    assert!(matches!(requests[0], ProtocolRequest::GetLayerSurface { object: 10, .. }));
    assert!(matches!(requests[1], ProtocolRequest::Commit(10)));
}
