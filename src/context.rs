use std::collections::HashMap;
use std::collections::VecDeque;
use vstd::prelude::*;

use crate::events::{button_of, element_state_of, translate_button, translate_button_state, ButtonState, Event};
use crate::adapter::ConnectState;
use crate::ids::WindowId;

verus! {

broadcast use vstd::std_specs::hash::group_hash_axioms;

/// What the queues hold after `e` has been routed under pointer focus
/// `focus`: appended to the focused window's queue if that window is live,
/// and nothing changed otherwise.
pub open spec fn routed(qs: Map<u64, Seq<Event>>, focus: Option<WindowId>, e: Event) -> Map<
    u64,
    Seq<Event>,
> {
    match focus {
        Some(w) => if qs.contains_key(w.spec_handle()) {
            qs.insert(w.spec_handle(), qs[w.spec_handle()].push(e))
        } else {
            qs
        },
        None => qs,
    }
}

/// What the queues hold after a button notification with native `code` and
/// `state`: codes outside the table change nothing.
pub open spec fn routed_button(
    qs: Map<u64, Seq<Event>>,
    focus: Option<WindowId>,
    code: u32,
    state: ButtonState,
) -> Map<u64, Seq<Event>> {
    match button_of(code) {
        Some(b) => routed(qs, focus, Event::MouseInput(element_state_of(state), b)),
        None => qs,
    }
}

/// What the queues hold after each event of `es` has been routed in turn
/// under pointer focus `focus`.
pub open spec fn routed_all(qs: Map<u64, Seq<Event>>, focus: Option<WindowId>, es: Seq<Event>) -> Map<
    u64,
    Seq<Event>,
>
    decreases es.len(),
{
    if es.len() == 0 {
        qs
    } else {
        routed(routed_all(qs, focus, es.drop_last()), focus, es.last())
    }
}

/// Routing never makes a window live or ends its life: the set of live
/// windows is the same before and after any sequence of notifications.
pub proof fn lemma_routing_keeps_live_set(qs: Map<u64, Seq<Event>>, focus: Option<WindowId>, es: Seq<Event>)
    ensures
        routed_all(qs, focus, es).dom() == qs.dom(),
    decreases es.len(),
{
    if es.len() > 0 {
        lemma_routing_keeps_live_set(qs, focus, es.drop_last());
        let prev = routed_all(qs, focus, es.drop_last());
        assert(routed(prev, focus, es.last()).dom() =~= prev.dom());
    }
}

/// Events routed to a live focused window are appended to its queue in the
/// order of their notifications, after what was pending; no other queue
/// changes.
pub proof fn lemma_routing_keeps_order(qs: Map<u64, Seq<Event>>, w: WindowId, es: Seq<Event>)
    requires
        qs.contains_key(w.spec_handle()),
    ensures
        routed_all(qs, Some(w), es).contains_key(w.spec_handle()),
        routed_all(qs, Some(w), es)[w.spec_handle()] == qs[w.spec_handle()] + es,
        routed_all(qs, Some(w), es).remove(w.spec_handle()) == qs.remove(w.spec_handle()),
    decreases es.len(),
{
    let h = w.spec_handle();
    if es.len() == 0 {
        assert(qs[h] + es =~= qs[h]);
    } else {
        lemma_routing_keeps_order(qs, w, es.drop_last());
        let prev = routed_all(qs, Some(w), es.drop_last());
        assert(prev[h].push(es.last()) =~= qs[h] + es);
        assert(prev.insert(h, prev[h].push(es.last())).remove(h) =~= prev.remove(h));
    }
}

/// A deregistered window stays dead whatever notifications follow; once
/// registered again with queue `q`, the notifications routed to it land in
/// `q` alone, after its own events, and none of the old events come back.
pub proof fn lemma_deregistered_not_resurrected(
    qs: Map<u64, Seq<Event>>,
    w: WindowId,
    focus: Option<WindowId>,
    es: Seq<Event>,
    q: Seq<Event>,
    later: Seq<Event>,
)
    ensures
        !routed_all(qs.remove(w.spec_handle()), focus, es).contains_key(w.spec_handle()),
        ({
            let h = w.spec_handle();
            let revived = routed_all(qs.remove(h), focus, es).insert(h, q);
            routed_all(revived, Some(w), later)[h] == q + later
        }),
{
    let h = w.spec_handle();
    lemma_routing_keeps_live_set(qs.remove(h), focus, es);
    let revived = routed_all(qs.remove(h), focus, es).insert(h, q);
    lemma_routing_keeps_order(revived, w, later);
}

/// A registration of `w` racing a motion notification: in either order of
/// the two steps the registration is kept, `w` is live exactly once beside
/// the windows that were live, and its queue is the registered one, with
/// the motion appended only where the motion came second.
pub proof fn lemma_register_motion_race(
    qs: Map<u64, Seq<Event>>,
    focus: Option<WindowId>,
    w: WindowId,
    q: Seq<Event>,
    x: i32,
    y: i32,
)
    ensures
        ({
            let h = w.spec_handle();
            let register_first = routed(qs.insert(h, q), focus, Event::Moved(x, y));
            let motion_first = routed(qs, focus, Event::Moved(x, y)).insert(h, q);
            &&& register_first.dom() == qs.dom().insert(h)
            &&& motion_first.dom() == qs.dom().insert(h)
            &&& motion_first[h] == q
            &&& register_first[h] == if focus == Some(w) {
                q.push(Event::Moved(x, y))
            } else {
                q
            }
        }),
{
    let h = w.spec_handle();
    let e = Event::Moved(x, y);
    if let Some(v) = focus {
        WindowId::lemma_eq_by_handle(v, w);
    }
    assert(routed(qs.insert(h, q), focus, e).dom() =~= qs.dom().insert(h));
    assert(routed(qs, focus, e).insert(h, q).dom() =~= qs.dom().insert(h));
}

/// The routing state of one connection: the registry of live windows, each
/// with its pending events in arrival order, and the window that holds the
/// pointer focus, if any.
pub struct WaylandContext {
    windows_event_queues: HashMap<u64, VecDeque<Event>>,
    current_pointer_surface: Option<WindowId>,
    has_pointer: bool,
}

impl WaylandContext {
    /// The pending events of each live window, keyed by native handle.
    pub closed spec fn queues(&self) -> Map<u64, Seq<Event>> {
        self.windows_event_queues@.map_values(|q: VecDeque<Event>| q@)
    }

    /// The window that holds the pointer focus.
    pub closed spec fn focus(&self) -> Option<WindowId> {
        self.current_pointer_surface
    }

    /// Whether the input seat of the connection has a pointer.
    pub closed spec fn spec_has_pointer(&self) -> bool {
        self.has_pointer
    }

    /// The sentinel window is never live.
    pub open spec fn wf(&self) -> bool {
        !self.queues().contains_key(0)
    }

    /// The context of a connection that the protocol established: `None`
    /// unless `state` is `Connected`. It starts with no live window and no
    /// focus.
    pub fn new(state: &ConnectState) -> (r: Option<WaylandContext>)
        ensures
            r is Some <==> state is Connected,
            r matches Some(c) ==> {
                &&& c.wf()
                &&& c.queues() == Map::<u64, Seq<Event>>::empty()
                &&& c.focus() is None
                &&& c.spec_has_pointer() == state->Connected_1
            },
    {
        match state {
            ConnectState::Connected(_, pointer) => Some(WaylandContext::empty(*pointer)),
            _ => None,
        }
    }

    /// A context with no live window and no focus.
    fn empty(has_pointer: bool) -> (r: WaylandContext)
        ensures
            r.wf(),
            r.queues() == Map::<u64, Seq<Event>>::empty(),
            r.focus() is None,
            r.spec_has_pointer() == has_pointer,
    {
        let r = WaylandContext {
            windows_event_queues: HashMap::new(),
            current_pointer_surface: None,
            has_pointer,
        };
        assert(r.queues() =~= Map::<u64, Seq<Event>>::empty());
        r
    }

    /// Whether pointer callbacks are wired for this connection.
    pub fn has_pointer(&self) -> (r: bool)
        ensures
            r == self.spec_has_pointer(),
    {
        self.has_pointer
    }

    /// Makes `sid` live with `queue` as its pending events, replacing and
    /// discarding any queue it had. The sentinel window is never registered:
    /// for it nothing changes.
    pub fn register_surface(&mut self, sid: WindowId, queue: VecDeque<Event>)
        requires
            old(self).wf(),
        ensures
            final(self).wf(),
            final(self).queues() == if sid.spec_handle() == 0 {
                old(self).queues()
            } else {
                old(self).queues().insert(sid.spec_handle(), queue@)
            },
            final(self).focus() == old(self).focus(),
            final(self).spec_has_pointer() == old(self).spec_has_pointer(),
    {
        if sid.is_dummy() {
            return;
        }
        let ghost q = queue@;
        self.windows_event_queues.insert(sid.handle(), queue);
        assert(self.queues() =~= old(self).queues().insert(sid.spec_handle(), q));
    }

    /// Makes `sid` no longer live and hands back its pending events; a no-op
    /// returning `None` where it was not live.
    pub fn deregister_surface(&mut self, sid: WindowId) -> (r: Option<VecDeque<Event>>)
        requires
            old(self).wf(),
        ensures
            final(self).wf(),
            match r {
                Some(q) => old(self).queues().contains_key(sid.spec_handle()) && q@ == old(self).queues()[sid.spec_handle()],
                None => !old(self).queues().contains_key(sid.spec_handle()),
            },
            final(self).queues() == old(self).queues().remove(sid.spec_handle()),
            final(self).focus() == old(self).focus(),
            final(self).spec_has_pointer() == old(self).spec_has_pointer(),
    {
        let h = sid.handle();
        let r = self.windows_event_queues.remove(&h);
        assert(self.queues() =~= old(self).queues().remove(sid.spec_handle()));
        r
    }

    /// Whether `sid` is live.
    pub fn is_registered(&self, sid: WindowId) -> (r: bool)
        ensures
            r == self.queues().contains_key(sid.spec_handle()),
    {
        let h = sid.handle();
        self.windows_event_queues.contains_key(&h)
    }

    /// The number of events pending for `sid`, or `None` where it is not live.
    pub fn pending(&self, sid: WindowId) -> (r: Option<usize>)
        ensures
            match r {
                Some(n) => self.queues().contains_key(sid.spec_handle()) && n == self.queues()[sid.spec_handle()].len(),
                None => !self.queues().contains_key(sid.spec_handle()),
            },
    {
        let h = sid.handle();
        match self.windows_event_queues.get(&h) {
            Some(q) => Some(q.len()),
            None => None,
        }
    }

    /// Takes the oldest pending event of `sid`, if it is live and has one.
    pub fn pop_event(&mut self, sid: WindowId) -> (r: Option<Event>)
        requires
            old(self).wf(),
        ensures
            final(self).wf(),
            final(self).focus() == old(self).focus(),
            final(self).spec_has_pointer() == old(self).spec_has_pointer(),
            ({
                let h = sid.spec_handle();
                let qs = old(self).queues();
                if qs.contains_key(h) && qs[h].len() > 0 {
                    &&& r == Some(qs[h][0])
                    &&& final(self).queues() == qs.insert(h, qs[h].drop_first())
                } else {
                    &&& r is None
                    &&& final(self).queues() == qs
                }
            }),
    {
        let h = sid.handle();
        match self.windows_event_queues.remove(&h) {
            Some(mut q) => {
                let r = q.pop_front();
                let ghost rest = q@;
                self.windows_event_queues.insert(h, q);
                assert(self.queues() =~= old(self).queues().insert(h, rest));
                r
            },
            None => {
                assert(self.queues() =~= old(self).queues());
                None
            },
        }
    }

    /// Appends `e` to the queue of the focused window, if there is one and it
    /// is live; drops it otherwise.
    fn dispatch(&mut self, e: Event)
        requires
            old(self).wf(),
        ensures
            final(self).wf(),
            final(self).queues() == routed(old(self).queues(), old(self).focus(), e),
            final(self).focus() == old(self).focus(),
            final(self).spec_has_pointer() == old(self).spec_has_pointer(),
    {
        if let Some(sid) = self.current_pointer_surface {
            let h = sid.handle();
            match self.windows_event_queues.remove(&h) {
                Some(mut q) => {
                    q.push_back(e);
                    let ghost grown = q@;
                    self.windows_event_queues.insert(h, q);
                    assert(self.queues() =~= old(self).queues().insert(h, grown));
                },
                None => {
                    assert(self.queues() =~= old(self).queues());
                },
            }
        }
    }

    /// The pointer entered `sid`: it takes the focus, whatever held it.
    pub fn pointer_enter(&mut self, sid: WindowId)
        requires
            old(self).wf(),
        ensures
            final(self).wf(),
            final(self).focus() == Some(sid),
            final(self).queues() == old(self).queues(),
            final(self).spec_has_pointer() == old(self).spec_has_pointer(),
    {
        self.current_pointer_surface = Some(sid);
    }

    /// The pointer left a window: the focus is cleared, whichever window
    /// reported the leave.
    pub fn pointer_leave(&mut self, sid: WindowId)
        requires
            old(self).wf(),
        ensures
            final(self).wf(),
            final(self).focus() is None,
            final(self).queues() == old(self).queues(),
            final(self).spec_has_pointer() == old(self).spec_has_pointer(),
    {
        self.current_pointer_surface = None;
    }

    /// The pointer moved to (`x`, `y`): `Moved(x, y)` goes to the focused
    /// window's queue if that window is live.
    pub fn pointer_motion(&mut self, x: i32, y: i32)
        requires
            old(self).wf(),
        ensures
            final(self).wf(),
            final(self).queues() == routed(old(self).queues(), old(self).focus(), Event::Moved(x, y)),
            final(self).focus() == old(self).focus(),
            final(self).spec_has_pointer() == old(self).spec_has_pointer(),
    {
        self.dispatch(Event::Moved(x, y));
    }

    /// A pointer button changed state: a recognised `code` gives
    /// `MouseInput(state, button)` for the focused window's queue if that
    /// window is live; any other code is dropped.
    pub fn pointer_button(&mut self, code: u32, state: ButtonState)
        requires
            old(self).wf(),
        ensures
            final(self).wf(),
            final(self).queues() == routed_button(old(self).queues(), old(self).focus(), code, state),
            final(self).focus() == old(self).focus(),
            final(self).spec_has_pointer() == old(self).spec_has_pointer(),
    {
        let button = match translate_button(code) {
            Some(b) => b,
            None => return,
        };
        let st = translate_button_state(state);
        self.dispatch(Event::MouseInput(st, button));
    }
}

} // verus!
