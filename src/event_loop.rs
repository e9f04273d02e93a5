use vstd::prelude::*;

use crate::events::Event;

verus! {

/// The directive that the application sets after each event.
#[derive(Debug, Copy, Clone, PartialEq, Eq, Hash, Structural)]
pub enum ControlFlow {
    /// Look for the next notification without blocking.
    Poll,
    /// Block until the next notification arrives.
    Wait,
    /// Stop: no further event is delivered.
    Exit,
}

/// How the loop obtains its next notification.
#[derive(Debug, Copy, Clone, PartialEq, Eq, Hash, Structural)]
pub enum Fetch {
    /// A non-blocking poll.
    Poll,
    /// A blocking wait.
    Wait,
    /// None at all: the loop has exited.
    Stop,
}

/// The directive in force after the application asked for `d` under `cur`:
/// `Exit` is never left.
pub open spec fn next_flow(cur: ControlFlow, d: ControlFlow) -> ControlFlow {
    if cur is Exit {
        ControlFlow::Exit
    } else {
        d
    }
}

/// The fetch mode that a directive selects.
pub open spec fn fetch_of(cf: ControlFlow) -> Fetch {
    match cf {
        ControlFlow::Poll => Fetch::Poll,
        ControlFlow::Wait => Fetch::Wait,
        ControlFlow::Exit => Fetch::Stop,
    }
}

/// The directive in force and the events delivered to the handler, in order,
/// when the loop starts under `cf` and observes the notifications `ns` (`None`
/// for one with no user-visible meaning), the handler answering the `k`-th
/// delivered event with the directive `ds[k]`.
pub open spec fn outcome(cf: ControlFlow, ns: Seq<Option<Event>>, ds: Seq<ControlFlow>) -> (
    ControlFlow,
    Seq<Event>,
)
    decreases ns.len(),
{
    if ns.len() == 0 {
        (cf, Seq::empty())
    } else {
        let prev = outcome(cf, ns.drop_last(), ds);
        match ns.last() {
            Some(e) => if prev.0 is Exit {
                prev
            } else {
                (ds[prev.1.len() as int], prev.1.push(e))
            },
            None => prev,
        }
    }
}

/// Answers beyond the events delivered do not matter.
proof fn lemma_outcome_extend(cf: ControlFlow, ns: Seq<Option<Event>>, ds: Seq<ControlFlow>, d: ControlFlow)
    requires
        outcome(cf, ns, ds).1.len() <= ds.len(),
    ensures
        outcome(cf, ns, ds.push(d)) == outcome(cf, ns, ds),
    decreases ns.len(),
{
    if ns.len() > 0 {
        let prev = outcome(cf, ns.drop_last(), ds);
        assert(prev.1.len() <= outcome(cf, ns, ds).1.len());
        lemma_outcome_extend(cf, ns.drop_last(), ds, d);
    }
}

/// Once the handler answers the `k`-th delivered event with `Exit`, that
/// event is the last one delivered and the loop ends in `Exit`.
pub proof fn lemma_exit_ends_delivery(cf: ControlFlow, ns: Seq<Option<Event>>, ds: Seq<ControlFlow>, k: int)
    requires
        0 <= k < outcome(cf, ns, ds).1.len(),
        ds[k] is Exit,
    ensures
        outcome(cf, ns, ds).1.len() == k + 1,
        outcome(cf, ns, ds).0 is Exit,
    decreases ns.len(),
{
    let prev = outcome(cf, ns.drop_last(), ds);
    if prev.1.len() > k {
        lemma_exit_ends_delivery(cf, ns.drop_last(), ds, k);
    }
}

/// A loop that has exited delivers nothing, whatever it observes.
pub proof fn lemma_exit_is_terminal(ns: Seq<Option<Event>>, ds: Seq<ControlFlow>)
    ensures
        outcome(ControlFlow::Exit, ns, ds) == (ControlFlow::Exit, Seq::<Event>::empty()),
    decreases ns.len(),
{
    if ns.len() > 0 {
        lemma_exit_is_terminal(ns.drop_last(), ds);
    }
}

/// The control flow of an event loop. It starts polling.
pub struct EventLoop {
    control_flow: ControlFlow,
}

impl EventLoop {
    /// The directive in force.
    pub closed spec fn spec_control_flow(&self) -> ControlFlow {
        self.control_flow
    }

    /// A loop in the `Poll` state.
    pub fn new() -> (r: EventLoop)
        ensures
            r.spec_control_flow() is Poll,
    {
        EventLoop { control_flow: ControlFlow::Poll }
    }

    /// The directive in force.
    pub fn control_flow(&self) -> (r: ControlFlow)
        ensures
            r == self.spec_control_flow(),
    {
        self.control_flow
    }

    /// How to obtain the next notification.
    pub fn fetch(&self) -> (r: Fetch)
        ensures
            r == fetch_of(self.spec_control_flow()),
    {
        match self.control_flow {
            ControlFlow::Poll => Fetch::Poll,
            ControlFlow::Wait => Fetch::Wait,
            ControlFlow::Exit => Fetch::Stop,
        }
    }

    /// The event to hand to the application for a translated notification:
    /// none once the loop has exited, or where the notification means nothing
    /// to the user.
    pub fn deliver(&self, n: Option<Event>) -> (r: Option<Event>)
        ensures
            r == (if self.spec_control_flow() is Exit { None } else { n }),
    {
        match self.control_flow {
            ControlFlow::Exit => None,
            _ => n,
        }
    }

    /// Records the directive that the application set after an event.
    pub fn set_control_flow(&mut self, d: ControlFlow)
        ensures
            final(self).spec_control_flow() == next_flow(old(self).spec_control_flow(), d),
    {
        if !(self.control_flow == ControlFlow::Exit) {
            self.control_flow = d;
        }
    }

    /// Runs the loop over the notifications observed, in order: each one
    /// that carries an event is handed to `handler` exactly once while the
    /// loop has not exited, and the handler's answer becomes the directive.
    /// Returns the events delivered and the answers given, in order.
    pub fn run<F: Fn(Event) -> ControlFlow>(&mut self, notifications: &Vec<Option<Event>>, handler: &F) -> (r: (
        Vec<Event>,
        Vec<ControlFlow>,
    ))
        requires
            forall|e: Event| handler.requires((e,)),
        ensures
            r.0@.len() == r.1@.len(),
            forall|k: int| 0 <= k < r.1@.len() ==> handler.ensures((r.0@[k],), #[trigger] r.1@[k]),
            outcome(old(self).spec_control_flow(), notifications@, r.1@) == (
                final(self).spec_control_flow(),
                r.0@,
            ),
    {
        let ghost cf0 = self.control_flow;
        let ghost ns = notifications@;
        let mut delivered: Vec<Event> = Vec::new();
        let mut answers: Vec<ControlFlow> = Vec::new();
        let mut i: usize = 0;
        assert(ns.take(0).len() == 0);
        while i < notifications.len()
            invariant
                i <= notifications@.len(),
                ns == notifications@,
                delivered@.len() == answers@.len(),
                forall|k: int| 0 <= k < answers@.len() ==> handler.ensures((delivered@[k],), #[trigger] answers@[k]),
                forall|e: Event| handler.requires((e,)),
                outcome(cf0, ns.take(i as int), answers@) == (self.control_flow, delivered@),
            decreases notifications.len() - i,
        {
            assert(ns.take(i as int + 1).drop_last() =~= ns.take(i as int));
            assert(ns.take(i as int + 1).last() == notifications@[i as int]);
            match self.deliver(notifications[i]) {
                Some(e) => {
                    let d = handler(e);
                    proof {
                        lemma_outcome_extend(cf0, ns.take(i as int), answers@, d);
                    }
                    delivered.push(e);
                    answers.push(d);
                    self.control_flow = d;
                },
                None => {},
            }
            i = i + 1;
        }
        assert(ns.take(i as int) =~= ns);
        (delivered, answers)
    }
}

} // verus!
