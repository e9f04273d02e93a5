use winit::{
    resolve_globals, wrap_device_id, Announcement, ConnectAction, ConnectEvent, ConnectState,
    ControlFlow, DeviceId, ElementState, Event, EventLoop, Fetch, WindowId,
};

#[test]
fn exit_stops_delivery() {
    let mut el = EventLoop::new();
    assert_eq!(el.control_flow(), ControlFlow::Poll);
    let ns = vec![
        Some(Event::Moved(1, 1)),
        None,
        Some(Event::CloseRequested),
        Some(Event::Moved(2, 2)),
        Some(Event::Moved(3, 3)),
    ];
    let handler = |e: Event| {
        if e == Event::CloseRequested {
            ControlFlow::Exit
        } else {
            ControlFlow::Wait
        }
    };
    let (delivered, answers) = el.run(&ns, &handler);
    assert_eq!(delivered, vec![Event::Moved(1, 1), Event::CloseRequested]);
    assert_eq!(answers, vec![ControlFlow::Wait, ControlFlow::Exit]);
    assert_eq!(el.control_flow(), ControlFlow::Exit);
    assert_eq!(el.fetch(), Fetch::Stop);
}

#[test]
fn run_after_exit_is_a_no_op() {
    let mut el = EventLoop::new();
    el.set_control_flow(ControlFlow::Exit);
    let ns = vec![Some(Event::CloseRequested)];
    let (delivered, answers) = el.run(&ns, &|_e: Event| ControlFlow::Poll);
    assert!(delivered.is_empty());
    assert!(answers.is_empty());
    assert_eq!(el.control_flow(), ControlFlow::Exit);
}

#[test]
fn directives_select_fetch_mode() {
    let mut el = EventLoop::new();
    assert_eq!(el.fetch(), Fetch::Poll);
    el.set_control_flow(ControlFlow::Wait);
    assert_eq!(el.fetch(), Fetch::Wait);
    el.set_control_flow(ControlFlow::Poll);
    assert_eq!(el.fetch(), Fetch::Poll);
    el.set_control_flow(ControlFlow::Exit);
    el.set_control_flow(ControlFlow::Wait);
    assert_eq!(el.control_flow(), ControlFlow::Exit);
    assert_eq!(el.deliver(Some(Event::CloseRequested)), None);
}

#[test]
fn deliver_skips_meaningless_notifications() {
    let el = EventLoop::new();
    assert_eq!(el.deliver(None), None);
    let e = Event::KeyboardInput(ElementState::Pressed, 30);
    assert_eq!(el.deliver(Some(e)), Some(e));
}

#[test]
fn connect_protocol_happy_path() {
    let (s, act) = ConnectState::Start.step(ConnectEvent::DisplayOpened(true));
    assert_eq!(act, ConnectAction::RoundTrip);
    let a = Announcement { compositor: Some(1), shell: Some(2), seats: vec![5, 6], outputs: vec![8, 9] };
    let (s, act) = s.step(ConnectEvent::GlobalsAnnounced(a));
    assert_eq!(act, ConnectAction::RoundTrip);
    assert!(!s.is_finished());
    let (s, act) = s.step(ConnectEvent::SeatCapabilities(false));
    assert_eq!(act, ConnectAction::Finish(false));
    assert!(s.is_finished());
    match s {
        ConnectState::Connected(g, p) => {
            assert_eq!((g.compositor, g.shell, g.seat), (1, 2, 5));
            assert_eq!(g.outputs, vec![8, 9]);
            assert!(!p);
        }
        _ => panic!("not connected"),
    }
}

#[test]
fn connect_without_seat_is_unavailable() {
    let (s, _) = ConnectState::Start.step(ConnectEvent::DisplayOpened(true));
    let a = Announcement { compositor: Some(1), shell: Some(2), seats: vec![], outputs: vec![] };
    let (s, act) = s.step(ConnectEvent::GlobalsAnnounced(a));
    assert_eq!(act, ConnectAction::Abort);
    assert!(matches!(s, ConnectState::Unavailable));
}

#[test]
fn connect_ignores_out_of_order_reports() {
    let (s, act) = ConnectState::Start.step(ConnectEvent::SeatCapabilities(true));
    assert_eq!(act, ConnectAction::Ignore);
    assert!(matches!(s, ConnectState::Start));
}

#[test]
fn resolve_requires_each_resource() {
    let missing_shell = Announcement { compositor: Some(1), shell: None, seats: vec![3], outputs: vec![] };
    assert!(resolve_globals(missing_shell).is_none());
    let missing_comp = Announcement { compositor: None, shell: Some(1), seats: vec![3], outputs: vec![] };
    assert!(resolve_globals(missing_comp).is_none());
    let full = Announcement { compositor: Some(4), shell: Some(1), seats: vec![3, 2], outputs: vec![7] };
    let g = resolve_globals(full).expect("resolved");
    assert_eq!((g.compositor, g.shell, g.seat, g.outputs), (4, 1, 3, vec![7]));
}

#[test]
fn device_names_resolve_only_for_real_devices() {
    let lookup = |n: u32| if n == 42 { Some(String::from("mouse-42")) } else { None };
    assert_eq!(wrap_device_id(42).get_persistent_identifier(lookup), Some(String::from("mouse-42")));
    assert_eq!(wrap_device_id(7).get_persistent_identifier(lookup), None);
    let never = |_n: u32| -> Option<String> { panic!("asked for the sentinel") };
    assert_eq!(DeviceId::dummy().get_persistent_identifier(never), None);
    assert!(DeviceId::dummy().is_dummy());
    assert_eq!(wrap_device_id(9).raw(), 9);
}

#[test]
fn window_ids_compare_by_handle() {
    assert_eq!(WindowId::from_handle(3), WindowId::from_handle(3));
    assert_ne!(WindowId::from_handle(3), WindowId::from_handle(4));
    assert!(WindowId::dummy().is_dummy());
    assert_eq!(WindowId::from_handle(5).handle(), 5);
}

#[test]
fn device_ids_compare_by_raw_number() {
    assert_eq!(wrap_device_id(0), DeviceId::dummy());
    assert_eq!(wrap_device_id(12), wrap_device_id(12));
    assert_ne!(wrap_device_id(12), wrap_device_id(13));
    assert!(wrap_device_id(12) < wrap_device_id(13));
    assert!(WindowId::from_handle(2) < WindowId::from_handle(3));
}

#[test]
fn os_specific_event_keeps_its_parts() {
    let m = winit::OsSpecificWindowEvent::new(0x0200, 1, -5);
    assert_eq!(m.parts(), (0x0200, 1, -5));
    assert!(m == winit::OsSpecificWindowEvent::new(0x0200, 1, -5));
    assert!(m != winit::OsSpecificWindowEvent::new(0x0201, 1, -5));
}
