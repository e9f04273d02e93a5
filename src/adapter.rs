use vstd::prelude::*;

verus! {

/// The global resources that the display server announced during the first
/// round-trip, by their registry names.
pub struct Announcement {
    pub compositor: Option<u32>,
    pub shell: Option<u32>,
    pub seats: Vec<u32>,
    pub outputs: Vec<u32>,
}

/// The required global resources, resolved: a compositor, a shell and the
/// first announced input seat, with every announced output.
pub struct Globals {
    pub compositor: u32,
    pub shell: u32,
    pub seat: u32,
    pub outputs: Vec<u32>,
}

/// Where the connection protocol stands.
pub enum ConnectState {
    /// Nothing done yet: the display must be opened.
    Start,
    /// The display is open; waiting for the first round-trip.
    AwaitingGlobals,
    /// The required resources are resolved; waiting for the second
    /// round-trip, which reports the seat's capabilities.
    AwaitingCapabilities(Globals),
    /// Connected; the flag says whether the seat has a pointer.
    Connected(Globals, bool),
    /// The platform or one of its required resources is unavailable.
    Unavailable,
}

/// What the platform reported at the end of a step.
pub enum ConnectEvent {
    /// Whether the display could be opened.
    DisplayOpened(bool),
    /// What the first round-trip announced.
    GlobalsAnnounced(Announcement),
    /// What the second round-trip reported of the seat: whether it has a
    /// pointer.
    SeatCapabilities(bool),
}

/// What the caller must do next.
#[derive(Debug, Copy, Clone, PartialEq, Eq, Structural)]
pub enum ConnectAction {
    /// Block until the server has processed every pending request.
    RoundTrip,
    /// Done: wire the enter, leave, motion and button callbacks if the flag
    /// is set, and nothing else otherwise.
    Finish(bool),
    /// Give up: the platform cannot be used.
    Abort,
    /// The report does not belong to the current state; nothing to do.
    Ignore,
}

/// Whether an announcement holds every required resource.
pub open spec fn announces_required(a: Announcement) -> bool {
    a.compositor is Some && a.shell is Some && a.seats@.len() > 0
}

/// The resources resolved from an announcement that holds every required one.
pub open spec fn resolved(a: Announcement) -> Globals
    recommends
        announces_required(a),
{
    Globals {
        compositor: a.compositor->Some_0,
        shell: a.shell->Some_0,
        seat: a.seats@[0],
        outputs: a.outputs,
    }
}

/// Resolves the required resources: `None` where one is missing.
pub fn resolve_globals(a: Announcement) -> (r: Option<Globals>)
    ensures
        r is Some <==> announces_required(a),
        r matches Some(g) ==> g == resolved(a),
{
    let compositor = match a.compositor {
        Some(c) => c,
        None => return None,
    };
    let shell = match a.shell {
        Some(s) => s,
        None => return None,
    };
    if a.seats.len() == 0 {
        return None;
    }
    let seat = a.seats[0];
    Some(Globals { compositor, shell, seat, outputs: a.outputs })
}

/// The transition of the connection protocol on `e` from `s`, with the
/// action it asks for.
pub open spec fn connect_transition(s: ConnectState, e: ConnectEvent) -> (ConnectState, ConnectAction) {
    match (s, e) {
        (ConnectState::Start, ConnectEvent::DisplayOpened(true)) => (
            ConnectState::AwaitingGlobals,
            ConnectAction::RoundTrip,
        ),
        (ConnectState::Start, ConnectEvent::DisplayOpened(false)) => (
            ConnectState::Unavailable,
            ConnectAction::Abort,
        ),
        (ConnectState::AwaitingGlobals, ConnectEvent::GlobalsAnnounced(a)) => if announces_required(a) {
            (ConnectState::AwaitingCapabilities(resolved(a)), ConnectAction::RoundTrip)
        } else {
            (ConnectState::Unavailable, ConnectAction::Abort)
        },
        (ConnectState::AwaitingCapabilities(g), ConnectEvent::SeatCapabilities(p)) => (
            ConnectState::Connected(g, p),
            ConnectAction::Finish(p),
        ),
        (s, _) => (s, ConnectAction::Ignore),
    }
}

impl ConnectState {
    /// Advances the connection protocol on what the platform reported.
    pub fn step(self, e: ConnectEvent) -> (r: (ConnectState, ConnectAction))
        ensures
            r == connect_transition(self, e),
    {
        match self {
            ConnectState::Start => match e {
                ConnectEvent::DisplayOpened(true) => (ConnectState::AwaitingGlobals, ConnectAction::RoundTrip),
                ConnectEvent::DisplayOpened(false) => (ConnectState::Unavailable, ConnectAction::Abort),
                _ => (ConnectState::Start, ConnectAction::Ignore),
            },
            ConnectState::AwaitingGlobals => match e {
                ConnectEvent::GlobalsAnnounced(a) => match resolve_globals(a) {
                    Some(g) => (ConnectState::AwaitingCapabilities(g), ConnectAction::RoundTrip),
                    None => (ConnectState::Unavailable, ConnectAction::Abort),
                },
                _ => (ConnectState::AwaitingGlobals, ConnectAction::Ignore),
            },
            ConnectState::AwaitingCapabilities(g) => match e {
                ConnectEvent::SeatCapabilities(p) => (ConnectState::Connected(g, p), ConnectAction::Finish(p)),
                _ => (ConnectState::AwaitingCapabilities(g), ConnectAction::Ignore),
            },
            s => (s, ConnectAction::Ignore),
        }
    }

    /// Whether the protocol has ended, connected or not.
    pub fn is_finished(&self) -> (r: bool)
        ensures
            r == (self is Connected || self is Unavailable),
    {
        match self {
            ConnectState::Connected(_, _) | ConnectState::Unavailable => true,
            _ => false,
        }
    }
}

} // verus!
