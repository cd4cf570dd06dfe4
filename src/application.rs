use vstd::prelude::*;

use crate::commands::{creates_surface, Action, LayerSurfaceAction, PopupAction, Reply, WindowAction};
use crate::event_loop::state::{
    closed_from, closed_ids, destroy_requests, done_events, grab_serial, new_record, parent_popup, popup_role,
    remaining, ProtocolRequest, SctkLayerSurface, SctkPopup, SctkSeat, SctkState, SctkWindow, SurfaceRecord,
    SurfaceRole,
};
use crate::sctk_event::{IcedSctkEvent, LogicalSize, ObjectId, SctkEvent, SurfaceId, SurfaceUserRequest};

verus! {

/// The cursor that the application asks for.
#[derive(Debug, Clone, Copy, PartialEq, Eq, Structural)]
pub enum Interaction {
    Idle,
    Pointer,
    Grab,
    Text,
    Crosshair,
    Working,
    Grabbing,
    ResizingHorizontally,
    ResizingVertically,
}

/// What the event loop hands the application's side, and what background
/// tasks send to the loop.
#[derive(Debug, Clone, Copy)]
pub enum Event<Message> {
    /// An event of the loop.
    SctkEvent(IcedSctkEvent<Message>),
    /// An action on a layer surface.
    LayerSurface(LayerSurfaceAction),
    /// Set the cursor of the active pointer.
    SetCursor(Interaction),
}

/// Marker of the state that the toolkit side of the loop keeps.
#[derive(Debug, Clone, Copy)]
pub struct IcedSctkState;

/// The logical identity of a surface, tagged with its kind.
#[derive(Debug, Clone, Copy, PartialEq, Eq, Structural)]
pub enum SurfaceIdWrapper {
    LayerSurface(SurfaceId),
    Window(SurfaceId),
    Popup(SurfaceId),
}

impl SurfaceIdWrapper {
    /// The logical identity, whatever the kind.
    pub fn inner(&self) -> (r: SurfaceId)
        ensures
            r == self.inner_spec(),
    {
        match self {
            SurfaceIdWrapper::LayerSurface(id) => *id,
            SurfaceIdWrapper::Window(id) => *id,
            SurfaceIdWrapper::Popup(id) => *id,
        }
    }

    pub open spec fn inner_spec(&self) -> SurfaceId {
        match self {
            SurfaceIdWrapper::LayerSurface(id) => *id,
            SurfaceIdWrapper::Window(id) => *id,
            SurfaceIdWrapper::Popup(id) => *id,
        }
    }
}

/// The logical identity that a table gives a protocol object: its first
/// entry for the object.
pub open spec fn lookup(table: Seq<(ObjectId, SurfaceIdWrapper)>, object: ObjectId) -> Option<SurfaceIdWrapper>
    decreases table.len(),
{
    if table.len() == 0 {
        None
    } else if table[0].0 == object {
        Some(table[0].1)
    } else {
        lookup(table.drop_first(), object)
    }
}

/// The logical identity that `table` gives `object`.
pub fn find_surface_id(table: &Vec<(ObjectId, SurfaceIdWrapper)>, object: ObjectId) -> (r: Option<SurfaceIdWrapper>)
    ensures
        r == lookup(table@, object),
{
    let mut i: usize = 0;
    proof {
        assert(table@.subrange(0, table@.len() as int) =~= table@);
    }
    while i < table.len()
        invariant
            i <= table@.len(),
            lookup(table@, object) == lookup(table@.subrange(i as int, table@.len() as int), object),
        decreases table@.len() - i,
    {
        proof {
            let rest = table@.subrange(i as int, table@.len() as int);
            assert(rest.drop_first() =~= table@.subrange(i + 1, table@.len() as int));
            assert(rest[0] == table@[i as int]);
        }
        if table[i].0 == object {
            return Some(table[i].1);
        }
        i = i + 1;
    }
    proof {
        assert(table@.subrange(i as int, table@.len() as int).len() == 0);
    }
    None
}

/// The logical identity of a record, tagged with its kind.
pub open spec fn wrapper_of(r: SurfaceRecord) -> SurfaceIdWrapper {
    match r.role {
        SurfaceRole::Window(_) => SurfaceIdWrapper::Window(r.id),
        SurfaceRole::LayerSurface(_) => SurfaceIdWrapper::LayerSurface(r.id),
        SurfaceRole::Popup(_) => SurfaceIdWrapper::Popup(r.id),
    }
}

/// How an event is delivered when the events of one surface are gathered.
#[derive(Debug, Clone, Copy, PartialEq, Eq, Structural)]
pub enum Route {
    /// The event is this surface's, and no other's.
    Take,
    /// The event concerns every surface (output changes).
    Share,
    /// The event is not this surface's.
    Skip,
}

/// How an event is delivered to the surface on `object`, where
/// `kbd_focus` is the surface with keyboard focus.
pub open spec fn route_of(e: SctkEvent, object: ObjectId, kbd_focus: Option<ObjectId>) -> Route {
    let mine = match e {
        SctkEvent::SeatEvent { id, .. } => id == object,
        SctkEvent::PointerEvent { variant, .. } => variant.surface == object,
        SctkEvent::KeyboardEvent { .. } => kbd_focus == Some(object),
        SctkEvent::WindowEvent { id, .. } => id == object,
        SctkEvent::LayerSurfaceEvent { id, .. } => id == object,
        SctkEvent::PopupEvent { id, .. } => id == object,
        SctkEvent::Draw(id) => id == object,
        SctkEvent::ScaleFactorChanged { id, .. } => id == object,
        _ => false,
    };
    match e {
        SctkEvent::NewOutput { .. } | SctkEvent::UpdateOutput { .. } | SctkEvent::RemovedOutput(_) => Route::Share,
        _ => if mine {
            Route::Take
        } else {
            Route::Skip
        },
    }
}

/// The events delivered to the surface, in emission order.
pub open spec fn routed_to(events: Seq<SctkEvent>, object: ObjectId, kbd_focus: Option<ObjectId>) -> Seq<SctkEvent>
    decreases events.len(),
{
    if events.len() == 0 {
        Seq::empty()
    } else if route_of(events.last(), object, kbd_focus) is Skip {
        routed_to(events.drop_last(), object, kbd_focus)
    } else {
        routed_to(events.drop_last(), object, kbd_focus).push(events.last())
    }
}

/// The events left for other surfaces, in emission order.
pub open spec fn left_over(events: Seq<SctkEvent>, object: ObjectId, kbd_focus: Option<ObjectId>) -> Seq<SctkEvent>
    decreases events.len(),
{
    if events.len() == 0 {
        Seq::empty()
    } else if route_of(events.last(), object, kbd_focus) is Take {
        left_over(events.drop_last(), object, kbd_focus)
    } else {
        left_over(events.drop_last(), object, kbd_focus).push(events.last())
    }
}

/// How an event is delivered to the surface on `object` (see `route_of`).
pub fn route(e: &SctkEvent, object: ObjectId, kbd_focus: Option<ObjectId>) -> (r: Route)
    ensures
        r == route_of(*e, object, kbd_focus),
{
    let mine = match e {
        SctkEvent::SeatEvent { id, .. } => *id == object,
        SctkEvent::PointerEvent { variant, .. } => variant.surface == object,
        SctkEvent::KeyboardEvent { .. } => match kbd_focus {
            Some(f) => f == object,
            None => false,
        },
        SctkEvent::WindowEvent { id, .. } => *id == object,
        SctkEvent::LayerSurfaceEvent { id, .. } => *id == object,
        SctkEvent::PopupEvent { id, .. } => *id == object,
        SctkEvent::Draw(id) => *id == object,
        SctkEvent::ScaleFactorChanged { id, .. } => *id == object,
        _ => false,
    };
    match e {
        SctkEvent::NewOutput { .. } | SctkEvent::UpdateOutput { .. } | SctkEvent::RemovedOutput(_) => Route::Share,
        _ => if mine {
            Route::Take
        } else {
            Route::Skip
        },
    }
}

/// Splits the events of an iteration into those of the surface on
/// `object`, and those left for the others; both keep emission order.
pub fn route_events(events: &Vec<SctkEvent>, object: ObjectId, kbd_focus: Option<ObjectId>) -> (out: (Vec<SctkEvent>, Vec<SctkEvent>))
    ensures
        out.0@ == routed_to(events@, object, kbd_focus),
        out.1@ == left_over(events@, object, kbd_focus),
{
    let mut mine: Vec<SctkEvent> = Vec::new();
    let mut rest: Vec<SctkEvent> = Vec::new();
    let mut i: usize = 0;
    while i < events.len()
        invariant
            i <= events@.len(),
            mine@ == routed_to(events@.subrange(0, i as int), object, kbd_focus),
            rest@ == left_over(events@.subrange(0, i as int), object, kbd_focus),
        decreases events@.len() - i,
    {
        let e = events[i];
        proof {
            assert(events@.subrange(0, i + 1).drop_last() =~= events@.subrange(0, i as int));
            assert(events@.subrange(0, i + 1).last() == e);
        }
        match route(&e, object, kbd_focus) {
            Route::Take => {
                mine.push(e);
            },
            Route::Share => {
                mine.push(e);
                rest.push(e);
            },
            Route::Skip => {
                rest.push(e);
            },
        }
        i = i + 1;
    }
    proof {
        assert(events@.subrange(0, events@.len() as int) =~= events@);
    }
    (mine, rest)
}

impl<T> SctkState<T> {
    /// The table of logical identities that the projector reads: one entry
    /// per live surface, in registry order.
    pub fn surface_ids(&self) -> (table: Vec<(ObjectId, SurfaceIdWrapper)>)
        ensures
            table@.len() == self.surfaces@.len(),
            forall|i: int| 0 <= i < table@.len() ==> table@[i] == (self.surfaces@[i].object, wrapper_of(self.surfaces@[i])),
    {
        let mut table: Vec<(ObjectId, SurfaceIdWrapper)> = Vec::new();
        let mut i: usize = 0;
        while i < self.surfaces.len()
            invariant
                i <= self.surfaces@.len(),
                table@.len() == i,
                forall|k: int| 0 <= k < i ==> table@[k] == (self.surfaces@[k].object, wrapper_of(self.surfaces@[k])),
            decreases self.surfaces@.len() - i,
        {
            let r = self.surfaces[i];
            let w = match r.role {
                SurfaceRole::Window(_) => SurfaceIdWrapper::Window(r.id),
                SurfaceRole::LayerSurface(_) => SurfaceIdWrapper::LayerSurface(r.id),
                SurfaceRole::Popup(_) => SurfaceIdWrapper::Popup(r.id),
            };
            table.push((r.object, w));
            i = i + 1;
        }
        table
    }

    /// The application asks for a redraw of the surface `id`; requests
    /// coalesce until the loop drains them. An unknown surface is ignored.
    pub fn request_redraw(&mut self, id: SurfaceId)
        requires
            old(self).well_formed(),
        ensures
            final(self).well_formed(),
            forall|i: int|
                0 <= i < old(self).surfaces@.len() && old(self).surfaces@[i].id == id ==> final(self).surfaces@
                    == old(self).surfaces@.update(
                    i,
                    SurfaceRecord {
                        user_request: SurfaceUserRequest { redraw_requested: true, ..old(self).surfaces@[i].user_request },
                        ..old(self).surfaces@[i]
                    },
                ),
            (forall|i: int| 0 <= i < old(self).surfaces@.len() ==> old(self).surfaces@[i].id != id)
                ==> final(self).surfaces@ == old(self).surfaces@,
            final(self).seats@ == old(self).seats@,
            final(self).retired@ == old(self).retired@,
            final(self).sctk_events@ == old(self).sctk_events@,
            final(self).requests@ == old(self).requests@,
    {
        let i = match self.find_id(id) {
            Some(i) => i,
            None => return,
        };
        let mut r = self.surfaces[i];
        r.user_request.redraw_requested = true;
        self.set_record(i, r);
    }
}

/// What the commands act on: the registry, the sink and the queue of
/// requests.
pub ghost struct RegistryView {
    pub surfaces: Seq<SurfaceRecord>,
    pub retired: Seq<SurfaceId>,
    pub sink: Seq<SctkEvent>,
    pub requests: Seq<ProtocolRequest>,
}

impl<T> SctkState<T> {
    /// The part of the state that commands act on.
    pub open spec fn registry(&self) -> RegistryView {
        RegistryView {
            surfaces: self.surfaces@,
            retired: self.retired@,
            sink: self.sctk_events@,
            requests: self.requests@,
        }
    }
}

/// Whether logical identities are unique among the surfaces.
pub open spec fn ids_unique(s: Seq<SurfaceRecord>) -> bool {
    forall|i: int, j: int| 0 <= i < j < s.len() ==> s[i].id != s[j].id
}

/// The index of the live surface with this logical identity.
pub open spec fn index_of_id(s: Seq<SurfaceRecord>, id: SurfaceId) -> Option<int> {
    if exists|i: int| 0 <= i < s.len() && s[i].id == id {
        Some(choose|i: int| 0 <= i < s.len() && s[i].id == id)
    } else {
        None
    }
}

/// The surface that an action on an existing surface targets.
pub open spec fn action_target(a: Action) -> Option<SurfaceId> {
    match a {
        Action::Window(w) => match w {
            WindowAction::Close(id) => Some(id),
            WindowAction::Resize { id, .. } => Some(id),
            WindowAction::SetMode { id, .. } => Some(id),
            WindowAction::FetchMode(id) => Some(id),
        },
        Action::LayerSurface(l) => match l {
            LayerSurfaceAction::LayerSurface(_) => None,
            LayerSurfaceAction::Destroy(id) => Some(id),
            LayerSurfaceAction::Size { id, .. } => Some(id),
            LayerSurfaceAction::Anchor { id, .. } => Some(id),
            LayerSurfaceAction::ExclusiveZone { id, .. } => Some(id),
            LayerSurfaceAction::Margin { id, .. } => Some(id),
            LayerSurfaceAction::KeyboardInteractivity { id, .. } => Some(id),
            LayerSurfaceAction::Layer { id, .. } => Some(id),
        },
        Action::Popup(p) => match p {
            PopupAction::Popup(_) => None,
            PopupAction::Reposition { id, .. } => Some(id),
            PopupAction::Grab(id) => Some(id),
            PopupAction::Destroy(id) => Some(id),
        },
    }
}

/// Whether an action is of the kind of surface it targets.
pub open spec fn role_fits(role: SurfaceRole, a: Action) -> bool {
    match a {
        Action::Window(_) => role is Window,
        Action::LayerSurface(_) => role is LayerSurface,
        Action::Popup(_) => role is Popup,
    }
}

/// The record after a size request: it is kept as the size asked for, and a
/// redraw is requested.
pub open spec fn with_requested_size(r: SurfaceRecord, size: LogicalSize) -> SurfaceRecord {
    SurfaceRecord {
        requested_size: Some(size),
        user_request: SurfaceUserRequest { redraw_requested: true, ..r.user_request },
        ..r
    }
}

/// The record with other layer surface settings.
pub open spec fn with_layer(r: SurfaceRecord, l: SctkLayerSurface) -> SurfaceRecord {
    SurfaceRecord { role: SurfaceRole::LayerSurface(l), ..r }
}

/// What an action does to a live surface of its kind that it does not
/// remove: the new record, and the requests it queues. Asking again for the
/// size that was asked for last, or for the mode a window has, does nothing.
pub open spec fn edit(r: SurfaceRecord, a: Action, seats: Seq<SctkSeat>) -> (SurfaceRecord, Seq<ProtocolRequest>) {
    let o = r.object;
    match (a, r.role) {
        (Action::Window(WindowAction::Resize { width, height, .. }), _) => {
            let size = LogicalSize { width, height };
            if r.requested_size == Some(size) {
                (r, Seq::empty())
            } else {
                (
                    with_requested_size(r, size),
                    seq![ProtocolRequest::SetWindowGeometry { object: o, width, height }, ProtocolRequest::Commit(o)],
                )
            }
        },
        (Action::Window(WindowAction::SetMode { mode, .. }), SurfaceRole::Window(w)) => if w.mode == mode {
            (r, Seq::empty())
        } else {
            (
                SurfaceRecord { role: SurfaceRole::Window(SctkWindow { mode }), ..r },
                seq![ProtocolRequest::SetMode { object: o, mode }],
            )
        },
        (Action::LayerSurface(LayerSurfaceAction::Size { width, height, .. }), _) => {
            let size = LogicalSize { width, height };
            if r.requested_size == Some(size) {
                (r, Seq::empty())
            } else {
                (
                    with_requested_size(r, size),
                    seq![ProtocolRequest::SetSize { object: o, width, height }, ProtocolRequest::Commit(o)],
                )
            }
        },
        (Action::LayerSurface(LayerSurfaceAction::Anchor { anchor, .. }), SurfaceRole::LayerSurface(l)) => (
            with_layer(r, SctkLayerSurface { anchor, ..l }),
            seq![ProtocolRequest::SetAnchor { object: o, anchor }, ProtocolRequest::Commit(o)],
        ),
        (Action::LayerSurface(LayerSurfaceAction::ExclusiveZone { exclusive_zone, .. }), SurfaceRole::LayerSurface(l)) => (
            with_layer(r, SctkLayerSurface { exclusive_zone, ..l }),
            seq![ProtocolRequest::SetExclusiveZone { object: o, zone: exclusive_zone }, ProtocolRequest::Commit(o)],
        ),
        (Action::LayerSurface(LayerSurfaceAction::Margin { margin, .. }), SurfaceRole::LayerSurface(l)) => (
            with_layer(r, SctkLayerSurface { margin, ..l }),
            seq![ProtocolRequest::SetMargin { object: o, margin }, ProtocolRequest::Commit(o)],
        ),
        (Action::LayerSurface(LayerSurfaceAction::KeyboardInteractivity { keyboard_interactivity, .. }), SurfaceRole::LayerSurface(l)) => (
            with_layer(r, SctkLayerSurface { keyboard_interactivity, ..l }),
            seq![ProtocolRequest::SetKeyboardInteractivity { object: o, keyboard_interactivity }, ProtocolRequest::Commit(o)],
        ),
        (Action::LayerSurface(LayerSurfaceAction::Layer { layer, .. }), SurfaceRole::LayerSurface(l)) => (
            with_layer(r, SctkLayerSurface { layer, ..l }),
            seq![ProtocolRequest::SetLayer { object: o, layer }, ProtocolRequest::Commit(o)],
        ),
        (Action::Popup(PopupAction::Reposition { positioner, .. }), SurfaceRole::Popup(p)) => (
            SurfaceRecord {
                role: SurfaceRole::Popup(SctkPopup { positioner, ..p }),
                requested_size: Some(positioner.size),
                ..r
            },
            seq![ProtocolRequest::Reposition { object: o, positioner }],
        ),
        (Action::Popup(PopupAction::Grab(_)), SurfaceRole::Popup(p)) => match grab_serial(seats) {
            Some((seat, serial)) => (
                SurfaceRecord { role: SurfaceRole::Popup(SctkPopup { grabbed: true, ..p }), ..r },
                seq![ProtocolRequest::Grab { object: o, seat, serial }],
            ),
            None => (r, Seq::empty()),
        },
        _ => (r, Seq::empty()),
    }
}

/// The requests that creating a popup queues.
pub open spec fn popup_requests(object: ObjectId, role: SctkPopup, grab: bool, seats: Seq<SctkSeat>) -> Seq<ProtocolRequest> {
    let get = seq![ProtocolRequest::GetPopup { object, parent: role.parent, positioner: role.positioner }];
    let grabbing = match grab_serial(seats) {
        Some((seat, serial)) => if grab {
            seq![ProtocolRequest::Grab { object, seat, serial }]
        } else {
            Seq::empty()
        },
        None => Seq::empty(),
    };
    get + grabbing + seq![ProtocolRequest::Commit(object)]
}

/// Whether a new surface may take this object and identity.
pub open spec fn free_for(v: RegistryView, object: ObjectId, id: SurfaceId) -> bool {
    &&& forall|j: int| 0 <= j < v.surfaces.len() ==> v.surfaces[j].object != object
    &&& forall|j: int| 0 <= j < v.surfaces.len() ==> v.surfaces[j].id != id
    &&& !v.retired.contains(id)
}

/// What one action does, given the seats and the fresh protocol object
/// handed to it, if it creates a surface. An action on a surface that is not
/// live, or not of its kind, and a creation that cannot take place, do
/// nothing: the rest of the batch goes on.
pub open spec fn step(v: RegistryView, seats: Seq<SctkSeat>, a: Action, fresh: Option<ObjectId>) -> (RegistryView, Option<Reply>) {
    match a {
        Action::LayerSurface(LayerSurfaceAction::LayerSurface(b)) => match fresh {
            Some(o) => if free_for(v, o, b.id) {
                (
                    RegistryView {
                        surfaces: v.surfaces.push(new_record(b.id, o, SurfaceRole::LayerSurface(b.role_spec()), b.size)),
                        requests: v.requests.push(
                            ProtocolRequest::GetLayerSurface { object: o, layer: b.role_spec(), size: b.size },
                        ).push(ProtocolRequest::Commit(o)),
                        ..v
                    },
                    None,
                )
            } else {
                (v, None)
            },
            None => (v, None),
        },
        Action::Popup(PopupAction::Popup(p)) => match (fresh, index_of_id(v.surfaces, p.parent)) {
            (Some(o), Some(pj)) => if free_for(v, o, p.id) {
                let role = popup_role(v.surfaces[pj], p);
                (
                    RegistryView {
                        surfaces: v.surfaces.push(new_record(p.id, o, SurfaceRole::Popup(role), Some(p.positioner.size))),
                        requests: v.requests + popup_requests(o, role, p.grab, seats),
                        ..v
                    },
                    None,
                )
            } else {
                (v, None)
            },
            _ => (v, None),
        },
        _ => match action_target(a) {
            Some(id) => match index_of_id(v.surfaces, id) {
                Some(i) => {
                    let r = v.surfaces[i];
                    if !role_fits(r.role, a) {
                        (v, None)
                    } else {
                        match a {
                            Action::Window(WindowAction::Close(_)) => (
                                RegistryView {
                                    surfaces: v.surfaces.remove(i),
                                    retired: v.retired.push(id),
                                    requests: v.requests.push(ProtocolRequest::DestroyWindow(r.object)),
                                    ..v
                                },
                                None,
                            ),
                            Action::LayerSurface(LayerSurfaceAction::Destroy(_)) => (
                                RegistryView {
                                    surfaces: v.surfaces.remove(i),
                                    retired: v.retired.push(id),
                                    requests: v.requests.push(ProtocolRequest::DestroyLayerSurface(r.object)),
                                    ..v
                                },
                                None,
                            ),
                            Action::Popup(PopupAction::Destroy(_)) => {
                                let order = closed_from(v.surfaces, i, 0);
                                (
                                    RegistryView {
                                        surfaces: remaining(v.surfaces, i, v.surfaces.len() as int),
                                        retired: v.retired + closed_ids(v.surfaces, order),
                                        sink: v.sink + done_events(v.surfaces, order),
                                        requests: v.requests + destroy_requests(v.surfaces, order),
                                    },
                                    None,
                                )
                            },
                            Action::Window(WindowAction::FetchMode(_)) => match r.role {
                                SurfaceRole::Window(w) => (v, Some(Reply::Mode(id, w.mode))),
                                _ => (v, None),
                            },
                            _ => {
                                let (r2, reqs) = edit(r, a, seats);
                                (RegistryView { surfaces: v.surfaces.update(i, r2), requests: v.requests + reqs, ..v }, None)
                            },
                        }
                    }
                },
                None => (v, None),
            },
            None => (v, None),
        },
    }
}

/// Asking twice in a row for the same size of a surface changes nothing the
/// second time: no request is queued and no second redraw is asked for.
pub proof fn lemma_resize_idempotent(v: RegistryView, seats: Seq<SctkSeat>, a: Action)
    requires
        ids_unique(v.surfaces),
        a matches Action::Window(WindowAction::Resize { .. }) || a matches Action::LayerSurface(LayerSurfaceAction::Size { .. }),
    ensures
        step(step(v, seats, a, None).0, seats, a, None) == (step(v, seats, a, None).0, None::<Reply>),
{
    let v1 = step(v, seats, a, None).0;
    let id = action_target(a)->0;
    if index_of_id(v.surfaces, id) is Some {
        let i = index_of_id(v.surfaces, id)->0;
        let r = v.surfaces[i];
        if role_fits(r.role, a) {
            let r2 = edit(r, a, seats).0;
            assert(v1.surfaces == v.surfaces.update(i, r2));
            assert(v1.surfaces[i].id == id);
            let j = choose|j: int| 0 <= j < v1.surfaces.len() && v1.surfaces[j].id == id;
            if j != i {
                assert(v.surfaces[j].id == id);
            }
            assert(index_of_id(v1.surfaces, id) == Some(i));
            assert(edit(r2, a, seats).1 =~= Seq::<ProtocolRequest>::empty());
            assert(v1.surfaces.update(i, r2) =~= v1.surfaces);
            assert(v1.requests + Seq::<ProtocolRequest>::empty() =~= v1.requests);
        }
    }
}

/// As a batch: a command that asks twice in a row for the same size does
/// what asking once does, whatever fresh objects are at hand.
pub proof fn lemma_resize_batch_idempotent(v: RegistryView, seats: Seq<SctkSeat>, a: Action, fresh: Seq<ObjectId>)
    requires
        ids_unique(v.surfaces),
        a matches Action::Window(WindowAction::Resize { .. }) || a matches Action::LayerSurface(LayerSurfaceAction::Size { .. }),
    ensures
        run_spec(v, seats, seq![a, a], fresh) == run_spec(v, seats, seq![a], fresh),
{
    lemma_resize_idempotent(v, seats, a);
    let two = seq![a, a];
    let one = seq![a];
    assert(!creates_surface(a));
    assert(two[0] == a);
    assert(two.drop_first() =~= one);
    assert(one[0] == a);
    assert(one.drop_first() =~= Seq::<Action>::empty());
    let v1 = step(v, seats, a, None).0;
    assert(step(v, seats, a, None).1 is None);
    assert(run_spec(v1, seats, Seq::<Action>::empty(), fresh) == (v1, Seq::<Reply>::empty()));
    assert(run_spec(v1, seats, one, fresh) == (v1, Seq::<Reply>::empty()));
    assert(run_spec(v, seats, one, fresh) == (v1, Seq::<Reply>::empty()));
}

/// The fresh object that an action takes, and those left for the rest.
pub open spec fn take_fresh(a: Action, fresh: Seq<ObjectId>) -> (Option<ObjectId>, Seq<ObjectId>) {
    if creates_surface(a) && fresh.len() > 0 {
        (Some(fresh[0]), fresh.drop_first())
    } else {
        (None, fresh)
    }
}

/// What an action does to a live surface of its kind (see `edit`).
fn edit_record(r: SurfaceRecord, a: Action, seats: &Vec<SctkSeat>) -> (out: (SurfaceRecord, Vec<ProtocolRequest>))
    ensures
        (out.0, out.1@) == edit(r, a, seats@),
{
    let o = r.object;
    let mut reqs: Vec<ProtocolRequest> = Vec::new();
    let mut out = r;
    match (a, r.role) {
        (Action::Window(WindowAction::Resize { width, height, .. }), _) => {
            if !crate::sctk_event::same_size(r.requested_size, Some(LogicalSize { width, height })) {
                out.requested_size = Some(LogicalSize { width, height });
                out.user_request.redraw_requested = true;
                reqs.push(ProtocolRequest::SetWindowGeometry { object: o, width, height });
                reqs.push(ProtocolRequest::Commit(o));
            }
        },
        (Action::Window(WindowAction::SetMode { mode, .. }), SurfaceRole::Window(w)) => {
            if w.mode != mode {
                out.role = SurfaceRole::Window(SctkWindow { mode });
                reqs.push(ProtocolRequest::SetMode { object: o, mode });
            }
        },
        (Action::LayerSurface(LayerSurfaceAction::Size { width, height, .. }), _) => {
            if !crate::sctk_event::same_size(r.requested_size, Some(LogicalSize { width, height })) {
                out.requested_size = Some(LogicalSize { width, height });
                out.user_request.redraw_requested = true;
                reqs.push(ProtocolRequest::SetSize { object: o, width, height });
                reqs.push(ProtocolRequest::Commit(o));
            }
        },
        (Action::LayerSurface(LayerSurfaceAction::Anchor { anchor, .. }), SurfaceRole::LayerSurface(l)) => {
            out.role = SurfaceRole::LayerSurface(SctkLayerSurface { anchor, ..l });
            reqs.push(ProtocolRequest::SetAnchor { object: o, anchor });
            reqs.push(ProtocolRequest::Commit(o));
        },
        (Action::LayerSurface(LayerSurfaceAction::ExclusiveZone { exclusive_zone, .. }), SurfaceRole::LayerSurface(l)) => {
            out.role = SurfaceRole::LayerSurface(SctkLayerSurface { exclusive_zone, ..l });
            reqs.push(ProtocolRequest::SetExclusiveZone { object: o, zone: exclusive_zone });
            reqs.push(ProtocolRequest::Commit(o));
        },
        (Action::LayerSurface(LayerSurfaceAction::Margin { margin, .. }), SurfaceRole::LayerSurface(l)) => {
            out.role = SurfaceRole::LayerSurface(SctkLayerSurface { margin, ..l });
            reqs.push(ProtocolRequest::SetMargin { object: o, margin });
            reqs.push(ProtocolRequest::Commit(o));
        },
        (Action::LayerSurface(LayerSurfaceAction::KeyboardInteractivity { keyboard_interactivity, .. }), SurfaceRole::LayerSurface(l)) => {
            out.role = SurfaceRole::LayerSurface(SctkLayerSurface { keyboard_interactivity, ..l });
            reqs.push(ProtocolRequest::SetKeyboardInteractivity { object: o, keyboard_interactivity });
            reqs.push(ProtocolRequest::Commit(o));
        },
        (Action::LayerSurface(LayerSurfaceAction::Layer { layer, .. }), SurfaceRole::LayerSurface(l)) => {
            out.role = SurfaceRole::LayerSurface(SctkLayerSurface { layer, ..l });
            reqs.push(ProtocolRequest::SetLayer { object: o, layer });
            reqs.push(ProtocolRequest::Commit(o));
        },
        (Action::Popup(PopupAction::Reposition { positioner, .. }), SurfaceRole::Popup(p)) => {
            out.role = SurfaceRole::Popup(SctkPopup { positioner, ..p });
            out.requested_size = Some(positioner.size);
            reqs.push(ProtocolRequest::Reposition { object: o, positioner });
        },
        (Action::Popup(PopupAction::Grab(_)), SurfaceRole::Popup(p)) => {
            if seats.len() > 0 {
                if let Some((_, _, serial)) = seats[0].last_ptr_press {
                    let seat = seats[0].seat;
                    out.role = SurfaceRole::Popup(SctkPopup { grabbed: true, ..p });
                    reqs.push(ProtocolRequest::Grab { object: o, seat, serial });
                }
            }
        },
        _ => {},
    }
    proof {
        let e = edit(r, a, seats@);
        assert(reqs@ =~= e.1);
    }
    (out, reqs)
}

/// The surface that an action on an existing surface targets.
fn target_of(a: Action) -> (r: Option<SurfaceId>)
    ensures
        r == action_target(a),
{
    match a {
        Action::Window(w) => match w {
            WindowAction::Close(id) => Some(id),
            WindowAction::Resize { id, .. } => Some(id),
            WindowAction::SetMode { id, .. } => Some(id),
            WindowAction::FetchMode(id) => Some(id),
        },
        Action::LayerSurface(l) => match l {
            LayerSurfaceAction::LayerSurface(_) => None,
            LayerSurfaceAction::Destroy(id) => Some(id),
            LayerSurfaceAction::Size { id, .. } => Some(id),
            LayerSurfaceAction::Anchor { id, .. } => Some(id),
            LayerSurfaceAction::ExclusiveZone { id, .. } => Some(id),
            LayerSurfaceAction::Margin { id, .. } => Some(id),
            LayerSurfaceAction::KeyboardInteractivity { id, .. } => Some(id),
            LayerSurfaceAction::Layer { id, .. } => Some(id),
        },
        Action::Popup(p) => match p {
            PopupAction::Popup(_) => None,
            PopupAction::Reposition { id, .. } => Some(id),
            PopupAction::Grab(id) => Some(id),
            PopupAction::Destroy(id) => Some(id),
        },
    }
}

impl<T> SctkState<T> {
    /// Applies one action (see `step`); `fresh` is the protocol object for
    /// a surface that the action creates.
    pub fn apply_action(&mut self, action: Action, fresh: Option<ObjectId>) -> (reply: Option<Reply>)
        requires
            old(self).well_formed(),
        ensures
            final(self).well_formed(),
            (final(self).registry(), reply) == step(old(self).registry(), old(self).seats@, action, fresh),
            final(self).seats@ == old(self).seats@,
            final(self).outputs@ == old(self).outputs@,
            final(self).pending_user_events@ == old(self).pending_user_events@,
    {
        let ghost v = self.registry();
        match action {
            Action::LayerSurface(LayerSurfaceAction::LayerSurface(b)) => {
                if let Some(o) = fresh {
                    let _ = self.get_layer_surface(b, o);
                }
                return None;
            },
            Action::Popup(PopupAction::Popup(p)) => {
                if let Some(o) = fresh {
                    let r = self.get_popup(p, o);
                    proof {
                        if index_of_id(v.surfaces, p.parent) is Some {
                            let pj = index_of_id(v.surfaces, p.parent)->0;
                            let role = popup_role(v.surfaces[pj], p);
                            assert(v.surfaces[pj].id == p.parent);
                            if r is Ok {
                                let reqs = popup_requests(o, role, p.grab, old(self).seats@);
                                assert(self.requests@ =~= v.requests + reqs);
                            }
                        } else {
                            assert(forall|j: int| 0 <= j < v.surfaces.len() ==> v.surfaces[j].id != p.parent);
                        }
                    }
                }
                return None;
            },
            _ => {},
        }
        let id = match target_of(action) {
            Some(id) => id,
            None => return None,
        };
        let i = match self.find_id(id) {
            Some(i) => i,
            None => return None,
        };
        proof {
            let c = choose|j: int| 0 <= j < v.surfaces.len() && v.surfaces[j].id == id;
            assert(c == i as int);
        }
        let r = self.surfaces[i];
        let fits = match (action, r.role) {
            (Action::Window(_), SurfaceRole::Window(_)) => true,
            (Action::LayerSurface(_), SurfaceRole::LayerSurface(_)) => true,
            (Action::Popup(_), SurfaceRole::Popup(_)) => true,
            _ => false,
        };
        if !fits {
            return None;
        }
        match action {
            Action::Window(WindowAction::Close(_)) => {
                self.remove_record(i);
                self.requests.push(ProtocolRequest::DestroyWindow(r.object));
                None
            },
            Action::LayerSurface(LayerSurfaceAction::Destroy(_)) => {
                self.remove_record(i);
                self.requests.push(ProtocolRequest::DestroyLayerSurface(r.object));
                None
            },
            Action::Popup(PopupAction::Destroy(_)) => {
                self.close_popup_tree(r.object);
                None
            },
            Action::Window(WindowAction::FetchMode(_)) => match r.role {
                SurfaceRole::Window(w) => Some(Reply::Mode(id, w.mode)),
                _ => None,
            },
            _ => {
                let (r2, mut reqs) = edit_record(r, action, &self.seats);
                self.set_record(i, r2);
                self.requests.append(&mut reqs);
                None
            },
        }
    }

    /// Applies a batch of actions in order (see `run_spec`); each action
    /// that creates a surface takes the next object of `fresh`. An action
    /// that cannot apply is dropped and the batch goes on. The replies come
    /// back in order.
    pub fn run_command(&mut self, actions: &Vec<Action>, fresh: &Vec<ObjectId>) -> (replies: Vec<Reply>)
        requires
            old(self).well_formed(),
        ensures
            final(self).well_formed(),
            (final(self).registry(), replies@) == run_spec(old(self).registry(), old(self).seats@, actions@, fresh@),
            final(self).seats@ == old(self).seats@,
            final(self).outputs@ == old(self).outputs@,
            final(self).pending_user_events@ == old(self).pending_user_events@,
    {
        let ghost seats = self.seats@;
        let ghost goal = run_spec(self.registry(), seats, actions@, fresh@);
        let mut replies: Vec<Reply> = Vec::new();
        let mut i: usize = 0;
        let mut k: usize = 0;
        proof {
            assert(actions@.subrange(0, actions@.len() as int) =~= actions@);
            assert(fresh@.subrange(0, fresh@.len() as int) =~= fresh@);
        }
        while i < actions.len()
            invariant
                self.well_formed(),
                i <= actions@.len(),
                k <= fresh@.len(),
                self.seats@ == seats,
                self.outputs@ == old(self).outputs@,
                self.pending_user_events@ == old(self).pending_user_events@,
                goal.0 == run_spec(
                    self.registry(),
                    seats,
                    actions@.subrange(i as int, actions@.len() as int),
                    fresh@.subrange(k as int, fresh@.len() as int),
                ).0,
                goal.1 == replies@ + run_spec(
                    self.registry(),
                    seats,
                    actions@.subrange(i as int, actions@.len() as int),
                    fresh@.subrange(k as int, fresh@.len() as int),
                ).1,
            decreases actions@.len() - i,
        {
            let ghost rest_actions = actions@.subrange(i as int, actions@.len() as int);
            let ghost rest_fresh = fresh@.subrange(k as int, fresh@.len() as int);
            let a = actions[i];
            let f = if a.creates_surface() && k < fresh.len() {
                let o = fresh[k];
                k = k + 1;
                Some(o)
            } else {
                None
            };
            proof {
                assert(rest_actions[0] == a);
                assert(rest_actions.drop_first() =~= actions@.subrange(i + 1, actions@.len() as int));
                let (f0, r0) = take_fresh(a, rest_fresh);
                assert(f0 == f);
                assert(r0 =~= fresh@.subrange(k as int, fresh@.len() as int));
            }
            let reply = self.apply_action(a, f);
            match reply {
                Some(r) => {
                    replies.push(r);
                },
                None => {},
            }
            proof {
                let tail = run_spec(
                    self.registry(),
                    seats,
                    actions@.subrange(i + 1, actions@.len() as int),
                    fresh@.subrange(k as int, fresh@.len() as int),
                );
                match reply {
                    Some(r) => {
                        assert(goal.1 =~= replies@ + tail.1);
                    },
                    None => {},
                }
            }
            i = i + 1;
        }
        proof {
            assert(actions@.subrange(i as int, actions@.len() as int).len() == 0);
        }
        replies
    }
}

/// What a batch of actions does, in order: each creation takes the next
/// fresh object, and is dropped when none is left.
pub open spec fn run_spec(v: RegistryView, seats: Seq<SctkSeat>, actions: Seq<Action>, fresh: Seq<ObjectId>) -> (RegistryView, Seq<Reply>)
    decreases actions.len(),
{
    if actions.len() == 0 {
        (v, Seq::empty())
    } else {
        let (f, rest) = take_fresh(actions[0], fresh);
        let (v1, reply) = step(v, seats, actions[0], f);
        let (v2, replies) = run_spec(v1, seats, actions.drop_first(), rest);
        (
            v2,
            match reply {
                Some(r) => seq![r] + replies,
                None => replies,
            },
        )
    }
}

} // verus!
