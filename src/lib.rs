//! Event routing core of a cross-platform windowing layer: identifiers,
//! portable events, the per-window queues with pointer-focus routing, the
//! native connection protocol, and the control flow of the event loop.

mod ids;
mod events;
mod context;
mod adapter;
mod event_loop;

pub use ids::{DeviceId, WindowId, OsSpecificWindowEvent, wrap_device_id};
pub use events::{ElementState, MouseButton, Event, ButtonState, button_of, element_state_of, BTN_LEFT, BTN_RIGHT, BTN_MIDDLE,
    translate_button, translate_button_state};
pub use context::{WaylandContext, routed, routed_button, routed_all, lemma_routing_keeps_live_set,
    lemma_routing_keeps_order, lemma_deregistered_not_resurrected, lemma_register_motion_race};
pub use adapter::{Announcement, Globals, ConnectState, ConnectEvent, ConnectAction, announces_required,
    resolved, resolve_globals, connect_transition};
pub use event_loop::{ControlFlow, Fetch, EventLoop, next_flow, fetch_of, outcome, lemma_exit_ends_delivery,
    lemma_exit_is_terminal};
