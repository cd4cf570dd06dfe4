use vstd::prelude::*;

use crate::event_loop::state::{new_record, on_configure, ProtocolRequest, SctkState, SurfaceRecord, SurfaceRole};
use crate::sctk_event::{
    configure_size, empty_update, to_physical, LayerSurfaceEventVariant, LogicalSize, ObjectId,
    PhysicalSize, PopupEventVariant, SurfaceId, SctkEvent, SurfaceCompositorUpdate, SurfaceConfigure,
    SurfaceUserRequest, WindowEventVariant,
};

verus! {

/// The size that a configure settles on for a surface: the one it proposes,
/// else the current one, else the one the application asked for.
pub open spec fn negotiated_size(r: SurfaceRecord, c: SurfaceConfigure) -> Option<LogicalSize> {
    match configure_size(c) {
        Some(s) => Some(s),
        None => match r.current_size {
            Some(s) => Some(s),
            None => r.requested_size,
        },
    }
}

/// Whether the pending update brings a scale factor other than the current.
pub open spec fn scale_changes(r: SurfaceRecord) -> bool {
    match r.compositor_update.scale_factor {
        Some(f) => f != r.scale_factor,
        None => false,
    }
}

/// The scale factor once the pending update is applied.
pub open spec fn settled_scale(r: SurfaceRecord) -> u32 {
    if scale_changes(r) {
        r.compositor_update.scale_factor->0
    } else {
        r.scale_factor
    }
}

/// The size once the pending update is applied.
pub open spec fn settled_size(r: SurfaceRecord) -> Option<LogicalSize> {
    match r.compositor_update.configure {
        Some(c) => negotiated_size(r, c),
        None => r.current_size,
    }
}

/// Whether applying the pending update resizes the surface: a configure
/// that changes the size, or a new scale factor.
pub open spec fn resizes(r: SurfaceRecord) -> bool {
    (r.compositor_update.configure is Some && settled_size(r) != r.current_size) || scale_changes(r)
}

/// The record once its pending compositor update is applied: the new scale
/// and size are taken, a resize asks for a redraw, and a configure that
/// settles on a size re-commits the geometry, which also refreshes the frame.
pub open spec fn reconcile(r: SurfaceRecord) -> SurfaceRecord {
    SurfaceRecord {
        scale_factor: settled_scale(r),
        current_size: settled_size(r),
        compositor_update: empty_update(),
        user_request: SurfaceUserRequest {
            redraw_requested: r.user_request.redraw_requested || resizes(r),
            refresh_frame: if r.compositor_update.configure is Some && settled_size(r) is Some {
                false
            } else {
                r.user_request.refresh_frame
            },
        },
        ..r
    }
}

/// The notification that a configure resized a surface, by kind.
pub open spec fn configure_event(r: SurfaceRecord, c: SurfaceConfigure, first: bool) -> SctkEvent {
    match c {
        SurfaceConfigure::Window(w) => SctkEvent::WindowEvent {
            variant: WindowEventVariant::Configure(w, first),
            id: r.object,
        },
        SurfaceConfigure::LayerSurface(l) => SctkEvent::LayerSurfaceEvent {
            variant: LayerSurfaceEventVariant::Configure(l, first),
            id: r.object,
        },
        SurfaceConfigure::Popup(p) => match r.role {
            SurfaceRole::Popup(pop) => SctkEvent::PopupEvent {
                variant: PopupEventVariant::Configure(p, first),
                toplevel_id: pop.toplevel,
                parent_id: pop.parent.object_spec(),
                id: r.object,
            },
            _ => SctkEvent::PopupEvent {
                variant: PopupEventVariant::Configure(p, first),
                toplevel_id: r.object,
                parent_id: r.object,
                id: r.object,
            },
        },
    }
}

/// The notification of a new scale factor, with the physical size it gives.
pub open spec fn scale_event(r: SurfaceRecord) -> SctkEvent {
    let size = match settled_size(r) {
        Some(s) => s,
        None => LogicalSize { width: 0, height: 0 },
    };
    SctkEvent::ScaleFactorChanged {
        factor: settled_scale(r),
        id: r.object,
        inner_size: PhysicalSize {
            width: (size.width * settled_scale(r)) as u64,
            height: (size.height * settled_scale(r)) as u64,
        },
    }
}

/// The close request of a window, if the compositor made one.
pub open spec fn close_events(r: SurfaceRecord) -> Seq<SctkEvent> {
    if r.compositor_update.close_window && r.role is Window {
        seq![SctkEvent::WindowEvent { variant: WindowEventVariant::Close, id: r.object }]
    } else {
        Seq::empty()
    }
}

/// What applying the pending update of one surface delivers, in order: the
/// new scale first, as the size is read at that scale, then the resize, then
/// a close request.
pub open spec fn reconcile_events(r: SurfaceRecord) -> Seq<SctkEvent> {
    let scale = if scale_changes(r) { seq![scale_event(r)] } else { Seq::empty() };
    let resize = match r.compositor_update.configure {
        Some(c) => if resizes(r) {
            seq![configure_event(r, c, r.compositor_update.first)]
        } else {
            Seq::empty()
        },
        None => Seq::empty(),
    };
    scale + resize + close_events(r)
}

/// The requests that applying the pending update of one surface queues: a
/// configure that settles on a size re-declares the geometry of windows and
/// popups, and commits, even when the size did not change.
pub open spec fn reconcile_requests(r: SurfaceRecord) -> Seq<ProtocolRequest> {
    match (r.compositor_update.configure, settled_size(r)) {
        (Some(_), Some(size)) => if r.role is LayerSurface {
            seq![ProtocolRequest::Commit(r.object)]
        } else {
            seq![
                ProtocolRequest::SetWindowGeometry { object: r.object, width: size.width, height: size.height },
                ProtocolRequest::Commit(r.object),
            ]
        },
        _ => Seq::empty(),
    }
}

/// What applying the pending updates of all surfaces delivers, surface by
/// surface.
pub open spec fn all_reconcile_events(s: Seq<SurfaceRecord>) -> Seq<SctkEvent>
    decreases s.len(),
{
    if s.len() == 0 {
        Seq::empty()
    } else {
        all_reconcile_events(s.drop_last()) + reconcile_events(s.last())
    }
}

/// What applying the pending updates of all surfaces queues.
pub open spec fn all_reconcile_requests(s: Seq<SurfaceRecord>) -> Seq<ProtocolRequest>
    decreases s.len(),
{
    if s.len() == 0 {
        Seq::empty()
    } else {
        all_reconcile_requests(s.drop_last()) + reconcile_requests(s.last())
    }
}

/// The surfaces to redraw, in order: those whose application asked for a
/// redraw or a refresh of the frame.
pub open spec fn redraw_objects(s: Seq<SurfaceRecord>) -> Seq<ObjectId>
    decreases s.len(),
{
    if s.len() == 0 {
        Seq::empty()
    } else if s.last().user_request.redraw_requested || s.last().user_request.refresh_frame {
        redraw_objects(s.drop_last()).push(s.last().object)
    } else {
        redraw_objects(s.drop_last())
    }
}

/// The record after its user requests are drained.
pub open spec fn drained(r: SurfaceRecord) -> SurfaceRecord {
    SurfaceRecord { user_request: SurfaceUserRequest { redraw_requested: false, refresh_frame: false }, ..r }
}

/// A configure that changes neither the size nor the scale factor of a
/// surface asks for no redraw and delivers no resize: some compositors
/// resend configures only to see that the client is alive.
pub proof fn lemma_configure_probe_is_silent(r: SurfaceRecord, c: SurfaceConfigure)
    requires
        negotiated_size(r, c) == r.current_size,
        !scale_changes(r),
    ensures
        reconcile(on_configure(r, c)).user_request.redraw_requested == r.user_request.redraw_requested,
        reconcile(on_configure(r, c)).current_size == r.current_size,
        reconcile(on_configure(r, c)).scale_factor == r.scale_factor,
        reconcile_events(on_configure(r, c)) == close_events(r),
{
    let r1 = on_configure(r, c);
    assert(settled_size(r1) == r.current_size);
    assert(!resizes(r1));
    assert(reconcile_events(r1) =~= close_events(r));
}

/// A surface created with a size, whose first configure proposes that same
/// size, ends configured at exactly that size, with one resize notification
/// marked as the first configure, and is redrawn exactly once.
pub proof fn lemma_first_configure_round_trip(
    id: SurfaceId,
    object: ObjectId,
    role: SurfaceRole,
    size: LogicalSize,
    c: SurfaceConfigure,
)
    requires
        configure_size(c) == Some(size),
    ensures
        ({
            let r = on_configure(new_record(id, object, role, Some(size)), c);
            &&& reconcile(r).current_size == Some(size)
            &&& reconcile(r).last_configure == Some(c)
            &&& reconcile_events(r) == seq![configure_event(r, c, true)]
            &&& redraw_objects(seq![reconcile(r)]) == seq![object]
        }),
{
    let r = on_configure(new_record(id, object, role, Some(size)), c);
    assert(resizes(r));
    assert(close_events(r) =~= Seq::<SctkEvent>::empty());
    assert(reconcile_events(r) =~= seq![configure_event(r, c, true)]);
    let once = seq![reconcile(r)];
    assert(once.drop_last() =~= Seq::<SurfaceRecord>::empty());
    assert(redraw_objects(Seq::<SurfaceRecord>::empty()) == Seq::<ObjectId>::empty());
    assert(once.last() == reconcile(r));
    assert(reconcile(r).user_request.redraw_requested);
    assert(redraw_objects(once) == redraw_objects(once.drop_last()).push(object));
    assert(redraw_objects(once) =~= seq![object]);
}

/// A configure that proposes a size, as the first of a new surface: the
/// surface settles on that size with one resize notification marked as the
/// first configure, and is redrawn once. The same configure again, with no
/// new scale, then delivers nothing and asks for no redraw.
pub proof fn lemma_first_configure_then_probe(
    id: SurfaceId,
    object: ObjectId,
    role: SurfaceRole,
    requested: Option<LogicalSize>,
    size: LogicalSize,
    c: SurfaceConfigure,
)
    requires
        configure_size(c) == Some(size),
    ensures
        ({
            let r1 = on_configure(new_record(id, object, role, requested), c);
            let r2 = on_configure(drained(reconcile(r1)), c);
            &&& reconcile(r1).current_size == Some(size)
            &&& reconcile_events(r1) == seq![configure_event(r1, c, true)]
            &&& redraw_objects(seq![reconcile(r1)]) == seq![object]
            &&& reconcile(r2).current_size == Some(size)
            &&& reconcile_events(r2) == Seq::<SctkEvent>::empty()
            &&& redraw_objects(seq![reconcile(r2)]) == Seq::<ObjectId>::empty()
        }),
{
    let r1 = on_configure(new_record(id, object, role, requested), c);
    assert(resizes(r1));
    assert(close_events(r1) =~= Seq::<SctkEvent>::empty());
    assert(reconcile_events(r1) =~= seq![configure_event(r1, c, true)]);
    let once = seq![reconcile(r1)];
    assert(once.drop_last() =~= Seq::<SurfaceRecord>::empty());
    assert(redraw_objects(Seq::<SurfaceRecord>::empty()) == Seq::<ObjectId>::empty());
    assert(once.last() == reconcile(r1));
    assert(redraw_objects(once) =~= seq![object]);
    let r2 = on_configure(drained(reconcile(r1)), c);
    assert(!resizes(r2));
    assert(close_events(r2) =~= Seq::<SctkEvent>::empty());
    assert(reconcile_events(r2) =~= Seq::<SctkEvent>::empty());
    let twice = seq![reconcile(r2)];
    assert(twice.drop_last() =~= Seq::<SurfaceRecord>::empty());
    assert(twice.last() == reconcile(r2));
    assert(redraw_objects(twice) =~= Seq::<ObjectId>::empty());
}

/// Whether an event tells of a new size or scale.
pub open spec fn is_resize_event(e: SctkEvent) -> bool {
    match e {
        SctkEvent::ScaleFactorChanged { .. } => true,
        SctkEvent::WindowEvent { variant: WindowEventVariant::Configure(..), .. } => true,
        SctkEvent::LayerSurfaceEvent { variant: LayerSurfaceEventVariant::Configure(..), .. } => true,
        SctkEvent::PopupEvent { variant: PopupEventVariant::Configure(..), .. } => true,
        _ => false,
    }
}

/// The surface that a surface event is about.
pub open spec fn event_object(e: SctkEvent) -> Option<ObjectId> {
    match e {
        SctkEvent::ScaleFactorChanged { id, .. } => Some(id),
        SctkEvent::WindowEvent { id, .. } => Some(id),
        SctkEvent::LayerSurfaceEvent { id, .. } => Some(id),
        SctkEvent::PopupEvent { id, .. } => Some(id),
        SctkEvent::Draw(id) => Some(id),
        _ => None,
    }
}

/// Every event that applying one record's update delivers is about that
/// record's surface.
proof fn lemma_reconcile_events_about(r: SurfaceRecord)
    ensures
        forall|j: int| 0 <= j < reconcile_events(r).len() ==> event_object(#[trigger] reconcile_events(r)[j]) == Some(r.object),
{
    let scale = if scale_changes(r) { seq![scale_event(r)] } else { Seq::<SctkEvent>::empty() };
    let resize = match r.compositor_update.configure {
        Some(c) => if resizes(r) { seq![configure_event(r, c, r.compositor_update.first)] } else { Seq::<SctkEvent>::empty() },
        None => Seq::<SctkEvent>::empty(),
    };
    assert(reconcile_events(r) == scale + resize + close_events(r));
}

/// No resize event of the registry is about `o` when no record on `o`
/// delivers one.
proof fn lemma_no_resize_about(s: Seq<SurfaceRecord>, o: ObjectId)
    requires
        forall|k: int| 0 <= k < s.len() && s[k].object == o ==> !scale_changes(s[k]) && !resizes(s[k]),
    ensures
        forall|j: int| 0 <= j < all_reconcile_events(s).len() && is_resize_event(#[trigger] all_reconcile_events(s)[j])
            ==> event_object(all_reconcile_events(s)[j]) != Some(o),
    decreases s.len(),
{
    if s.len() > 0 {
        let prefix = s.drop_last();
        lemma_no_resize_about(prefix, o);
        let last = s.last();
        lemma_reconcile_events_about(last);
        let all = all_reconcile_events(s);
        assert(all == all_reconcile_events(prefix) + reconcile_events(last));
        assert forall|j: int| 0 <= j < all.len() && is_resize_event(#[trigger] all[j]) implies event_object(all[j]) != Some(o) by {
            let n = all_reconcile_events(prefix).len();
            if j >= n {
                let e = reconcile_events(last)[j - n];
                assert(all[j] == e);
                if last.object == o {
                    assert(s[s.len() - 1] == last);
                    assert(close_events(last).len() <= 1);
                    assert(reconcile_events(last) =~= close_events(last));
                }
            } else {
                assert(all[j] == all_reconcile_events(prefix)[j]);
            }
        }
    }
}

/// The surface on `o` is not redrawn when no record on `o` asks for it.
proof fn lemma_not_redrawn(t: Seq<SurfaceRecord>, o: ObjectId)
    requires
        forall|k: int| 0 <= k < t.len() && t[k].object == o
            ==> !t[k].user_request.redraw_requested && !t[k].user_request.refresh_frame,
    ensures
        !redraw_objects(t).contains(o),
    decreases t.len(),
{
    if t.len() > 0 {
        lemma_not_redrawn(t.drop_last(), o);
        assert(t[t.len() - 1] == t.last());
        if t.last().user_request.redraw_requested || t.last().user_request.refresh_frame {
            let prev = redraw_objects(t.drop_last());
            assert(redraw_objects(t) == prev.push(t.last().object));
            assert forall|x: int| 0 <= x < prev.push(t.last().object).len() implies prev.push(t.last().object)[x] != o by {
                if x < prev.len() {
                    assert(prev.push(t.last().object)[x] == prev[x]);
                    assert(!prev.contains(o));
                    if prev[x] == o {
                        assert(prev.contains(o));
                    }
                }
            }
        }
    }
}

/// Over a whole registry: a surface whose pending configure changes neither
/// its size nor its scale, and whose application asked for nothing, gets no
/// resize or scale notification and no redraw, and keeps its size.
pub proof fn lemma_configure_probe_is_silent_in_registry(s: Seq<SurfaceRecord>, i: int)
    requires
        forall|a: int, b: int| 0 <= a < b < s.len() ==> s[a].object != s[b].object,
        0 <= i < s.len(),
        s[i].compositor_update.configure is Some,
        settled_size(s[i]) == s[i].current_size,
        !scale_changes(s[i]),
        !s[i].user_request.redraw_requested,
        !s[i].user_request.refresh_frame,
    ensures
        forall|j: int| 0 <= j < all_reconcile_events(s).len() && is_resize_event(#[trigger] all_reconcile_events(s)[j])
            ==> event_object(all_reconcile_events(s)[j]) != Some(s[i].object),
        !redraw_objects(s.map_values(|r: SurfaceRecord| reconcile(r))).contains(s[i].object),
        reconcile(s[i]).current_size == s[i].current_size,
{
    let o = s[i].object;
    assert forall|k: int| 0 <= k < s.len() && s[k].object == o implies !scale_changes(s[k]) && !resizes(s[k]) by {
        if k != i {
            if k < i {
                assert(s[k].object != s[i].object);
            } else {
                assert(s[i].object != s[k].object);
            }
        }
    }
    lemma_no_resize_about(s, o);
    let t = s.map_values(|r: SurfaceRecord| reconcile(r));
    assert forall|k: int| 0 <= k < t.len() && t[k].object == o
        implies !t[k].user_request.redraw_requested && !t[k].user_request.refresh_frame by {
        assert(t[k] == reconcile(s[k]));
        if k != i {
            if k < i {
                assert(s[k].object != s[i].object);
            } else {
                assert(s[i].object != s[k].object);
            }
        }
    }
    lemma_not_redrawn(t, o);
}

/// Applies the pending update of one surface.
fn reconcile_one(r: SurfaceRecord) -> (out: (SurfaceRecord, Vec<SctkEvent>, Vec<ProtocolRequest>))
    ensures
        out.0 == reconcile(r),
        out.1@ == reconcile_events(r),
        out.2@ == reconcile_requests(r),
{
    let u = r.compositor_update;
    let mut events: Vec<SctkEvent> = Vec::new();
    let mut requests: Vec<ProtocolRequest> = Vec::new();
    let scale_changed = match u.scale_factor {
        Some(f) => f != r.scale_factor,
        None => false,
    };
    let scale = match u.scale_factor {
        Some(f) => if scale_changed { f } else { r.scale_factor },
        None => r.scale_factor,
    };
    let size = match u.configure {
        Some(c) => match c.size() {
            Some(s) => Some(s),
            None => match r.current_size {
                Some(s) => Some(s),
                None => r.requested_size,
            },
        },
        None => r.current_size,
    };
    let resized = (u.configure.is_some() && !crate::sctk_event::same_size(size, r.current_size)) || scale_changed;
    if scale_changed {
        let logical = match size {
            Some(s) => s,
            None => LogicalSize { width: 0, height: 0 },
        };
        events.push(SctkEvent::ScaleFactorChanged {
            factor: scale,
            id: r.object,
            inner_size: to_physical(logical, scale),
        });
    }
    let mut refresh_frame = r.user_request.refresh_frame;
    if let Some(c) = u.configure {
        if resized {
            let event = match c {
                SurfaceConfigure::Window(w) => SctkEvent::WindowEvent {
                    variant: WindowEventVariant::Configure(w, u.first),
                    id: r.object,
                },
                SurfaceConfigure::LayerSurface(l) => SctkEvent::LayerSurfaceEvent {
                    variant: LayerSurfaceEventVariant::Configure(l, u.first),
                    id: r.object,
                },
                SurfaceConfigure::Popup(p) => match r.role {
                    SurfaceRole::Popup(pop) => SctkEvent::PopupEvent {
                        variant: PopupEventVariant::Configure(p, u.first),
                        toplevel_id: pop.toplevel,
                        parent_id: pop.parent.object(),
                        id: r.object,
                    },
                    _ => SctkEvent::PopupEvent {
                        variant: PopupEventVariant::Configure(p, u.first),
                        toplevel_id: r.object,
                        parent_id: r.object,
                        id: r.object,
                    },
                },
            };
            events.push(event);
        }
        if let Some(s) = size {
            match r.role {
                SurfaceRole::LayerSurface(_) => {},
                _ => {
                    requests.push(ProtocolRequest::SetWindowGeometry {
                        object: r.object,
                        width: s.width,
                        height: s.height,
                    });
                },
            }
            requests.push(ProtocolRequest::Commit(r.object));
            refresh_frame = false;
        }
    }
    if u.close_window {
        if let SurfaceRole::Window(_) = r.role {
            events.push(SctkEvent::WindowEvent { variant: WindowEventVariant::Close, id: r.object });
        }
    }
    let out = SurfaceRecord {
        scale_factor: scale,
        current_size: size,
        compositor_update: SurfaceCompositorUpdate::empty(),
        user_request: SurfaceUserRequest {
            redraw_requested: r.user_request.redraw_requested || resized,
            refresh_frame,
        },
        ..r
    };
    proof {
        assert(events@ =~= reconcile_events(r));
        assert(requests@ =~= reconcile_requests(r));
    }
    (out, events, requests)
}

impl<T> SctkState<T> {
    /// The compositor phase of an iteration: applies the pending update of
    /// every surface, in registry order (see `reconcile`), queues the
    /// geometry requests, and returns the resize, scale and close
    /// notifications to deliver.
    pub fn apply_compositor_updates(&mut self) -> (events: Vec<SctkEvent>)
        requires
            old(self).well_formed(),
        ensures
            final(self).well_formed(),
            final(self).surfaces@.len() == old(self).surfaces@.len(),
            forall|i: int| 0 <= i < old(self).surfaces@.len() ==> final(self).surfaces@[i] == reconcile(old(self).surfaces@[i]),
            final(self).surfaces@ == old(self).surfaces@.map_values(|r: SurfaceRecord| reconcile(r)),
            events@ == all_reconcile_events(old(self).surfaces@),
            final(self).requests@ == old(self).requests@ + all_reconcile_requests(old(self).surfaces@),
            final(self).sctk_events@ == old(self).sctk_events@,
            final(self).seats@ == old(self).seats@,
            final(self).retired@ == old(self).retired@,
            final(self).pending_user_events@ == old(self).pending_user_events@,
    {
        let ghost s = self.surfaces@;
        let mut events: Vec<SctkEvent> = Vec::new();
        let mut i: usize = 0;
        while i < self.surfaces.len()
            invariant
                self.well_formed(),
                i <= self.surfaces@.len(),
                self.surfaces@.len() == s.len(),
                forall|k: int| 0 <= k < i ==> self.surfaces@[k] == reconcile(s[k]),
                forall|k: int| i <= k < s.len() ==> self.surfaces@[k] == s[k],
                events@ == all_reconcile_events(s.subrange(0, i as int)),
                self.requests@ == old(self).requests@ + all_reconcile_requests(s.subrange(0, i as int)),
                self.sctk_events@ == old(self).sctk_events@,
                self.seats@ == old(self).seats@,
                self.retired@ == old(self).retired@,
                self.pending_user_events@ == old(self).pending_user_events@,
            decreases s.len() - i,
        {
            let (record, mut evs, mut reqs) = reconcile_one(self.surfaces[i]);
            self.set_record(i, record);
            events.append(&mut evs);
            self.requests.append(&mut reqs);
            proof {
                assert(s.subrange(0, i + 1).drop_last() =~= s.subrange(0, i as int));
                assert(s.subrange(0, i + 1).last() == s[i as int]);
            }
            i = i + 1;
        }
        proof {
            assert(s.subrange(0, s.len() as int) =~= s);
            assert(self.surfaces@ =~= s.map_values(|r: SurfaceRecord| reconcile(r)));
        }
        events
    }

    /// The redraw phase of an iteration: the surfaces to redraw, once each, in
    /// registry order; their user requests are cleared.
    pub fn take_redraw_requests(&mut self) -> (objects: Vec<ObjectId>)
        requires
            old(self).well_formed(),
        ensures
            final(self).well_formed(),
            final(self).surfaces@.len() == old(self).surfaces@.len(),
            forall|i: int| 0 <= i < old(self).surfaces@.len() ==> final(self).surfaces@[i] == drained(old(self).surfaces@[i]),
            objects@ == redraw_objects(old(self).surfaces@),
            final(self).requests@ == old(self).requests@,
            final(self).sctk_events@ == old(self).sctk_events@,
            final(self).seats@ == old(self).seats@,
            final(self).retired@ == old(self).retired@,
            final(self).pending_user_events@ == old(self).pending_user_events@,
    {
        let ghost s = self.surfaces@;
        let mut objects: Vec<ObjectId> = Vec::new();
        let mut i: usize = 0;
        while i < self.surfaces.len()
            invariant
                self.well_formed(),
                i <= self.surfaces@.len(),
                self.surfaces@.len() == s.len(),
                forall|k: int| 0 <= k < i ==> self.surfaces@[k] == drained(s[k]),
                forall|k: int| i <= k < s.len() ==> self.surfaces@[k] == s[k],
                objects@ == redraw_objects(s.subrange(0, i as int)),
                self.requests@ == old(self).requests@,
                self.sctk_events@ == old(self).sctk_events@,
                self.seats@ == old(self).seats@,
                self.retired@ == old(self).retired@,
                self.pending_user_events@ == old(self).pending_user_events@,
            decreases s.len() - i,
        {
            let mut record = self.surfaces[i];
            if record.user_request.needs_redraw() {
                objects.push(record.object);
            }
            record.user_request = SurfaceUserRequest { redraw_requested: false, refresh_frame: false };
            self.set_record(i, record);
            proof {
                assert(s.subrange(0, i + 1).drop_last() =~= s.subrange(0, i as int));
                assert(s.subrange(0, i + 1).last() == s[i as int]);
            }
            i = i + 1;
        }
        proof {
            assert(s.subrange(0, s.len() as int) =~= s);
        }
        objects
    }

    /// The sink phase of an iteration: the events that the sink collected, in
    /// emission order. The sink is swapped for an empty one, so what the
    /// delivery of these events causes is collected apart and delivered in
    /// the next iteration.
    pub fn take_events(&mut self) -> (events: Vec<SctkEvent>)
        ensures
            events@ == old(self).sctk_events@,
            final(self).sctk_events@.len() == 0,
            final(self).surfaces@ == old(self).surfaces@,
            final(self).seats@ == old(self).seats@,
            final(self).retired@ == old(self).retired@,
            final(self).requests@ == old(self).requests@,
            final(self).outputs@ == old(self).outputs@,
            final(self).pending_user_events@ == old(self).pending_user_events@,
    {
        let mut back_buffer: Vec<SctkEvent> = Vec::new();
        std::mem::swap(&mut back_buffer, &mut self.sctk_events);
        back_buffer
    }

    /// The application phase of an iteration: the events of background tasks,
    /// in order.
    pub fn take_user_events(&mut self) -> (events: Vec<T>)
        ensures
            events@ == old(self).pending_user_events@,
            final(self).pending_user_events@.len() == 0,
            final(self).surfaces@ == old(self).surfaces@,
            final(self).seats@ == old(self).seats@,
            final(self).retired@ == old(self).retired@,
            final(self).requests@ == old(self).requests@,
            final(self).sctk_events@ == old(self).sctk_events@,
            final(self).outputs@ == old(self).outputs@,
    {
        let mut events: Vec<T> = Vec::new();
        std::mem::swap(&mut events, &mut self.pending_user_events);
        events
    }

    /// Queues an event of a background task for the next iteration.
    pub fn push_user_event(&mut self, event: T)
        ensures
            final(self).pending_user_events@ == old(self).pending_user_events@.push(event),
            final(self).surfaces@ == old(self).surfaces@,
            final(self).seats@ == old(self).seats@,
            final(self).retired@ == old(self).retired@,
            final(self).requests@ == old(self).requests@,
            final(self).sctk_events@ == old(self).sctk_events@,
            final(self).outputs@ == old(self).outputs@,
    {
        self.pending_user_events.push(event);
    }

    /// The flush phase of an iteration: the requests to send, in the order they were
    /// queued.
    pub fn take_requests(&mut self) -> (requests: Vec<ProtocolRequest>)
        ensures
            requests@ == old(self).requests@,
            final(self).requests@.len() == 0,
            final(self).surfaces@ == old(self).surfaces@,
            final(self).seats@ == old(self).seats@,
            final(self).retired@ == old(self).retired@,
            final(self).sctk_events@ == old(self).sctk_events@,
            final(self).outputs@ == old(self).outputs@,
            final(self).pending_user_events@ == old(self).pending_user_events@,
    {
        let mut requests: Vec<ProtocolRequest> = Vec::new();
        std::mem::swap(&mut requests, &mut self.requests);
        requests
    }
}

} // verus!
