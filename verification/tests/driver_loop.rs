//! Tests for the event-loop driver's decision core.

use winloop::Error;
use winloop::EventLoopDriver;
use winloop::WindowHandle;
use winloop::TICK_INTERVAL_MS;

#[test]
fn timer_tick_delivers_to_live_windows_in_deadline_order() {
    let t: u64 = 10_000;
    let mut d = EventLoopDriver::new();
    d.register_surface(1, WindowHandle { raw: 11 });
    d.register_surface(2, WindowHandle { raw: 22 });
    d.register_surface(3, WindowHandle { raw: 33 });
    let tok1 = d.schedule_timer(1, t + 10);
    let tok2 = d.schedule_timer(2, t + 5);
    let _tok3 = d.schedule_timer(3, t + 20);
    let dispatch = d.handle_timer_event(t + 12);
    let delivered: Vec<(u64, _)> = dispatch
        .deliveries
        .iter()
        .map(|del| (del.handle.raw, del.token))
        .collect();
    assert_eq!(delivered, vec![(22, tok2), (11, tok1)]);
    assert!(dispatch.stale.is_empty());
    assert_eq!(d.peek_earliest().unwrap().deadline(), t + 20);
}

#[test]
fn stale_timer_is_skipped_not_delivered() {
    let mut d = EventLoopDriver::new();
    d.register_surface(1, WindowHandle { raw: 11 });
    let _tok = d.schedule_timer(9, 100);
    let tok1 = d.schedule_timer(1, 50);
    let dispatch = d.handle_timer_event(200);
    assert_eq!(dispatch.deliveries.len(), 1);
    assert_eq!(dispatch.deliveries[0].token, tok1);
    assert_eq!(dispatch.stale.len(), 1);
    assert_eq!(dispatch.stale[0].id(), 9);
}

#[test]
fn window_closing_with_a_timer_in_flight_goes_stale() {
    let mut d = EventLoopDriver::new();
    d.register_surface(1, WindowHandle { raw: 11 });
    d.schedule_timer(1, 50);
    d.unregister_surface(1);
    let dispatch = d.handle_timer_event(60);
    assert!(dispatch.deliveries.is_empty());
    assert_eq!(dispatch.stale.len(), 1);
    assert_eq!(dispatch.stale[0].id(), 1);
}

#[test]
fn next_wakeup_arms_at_the_earliest_deadline() {
    let mut d = EventLoopDriver::new();
    assert_eq!(d.next_wakeup(1_000), None);
    d.schedule_timer(4, 1_250);
    d.schedule_timer(4, 1_100);
    assert_eq!(d.next_wakeup(1_000), Some(100));
    // A deadline already passed re-arms immediately.
    assert_eq!(d.next_wakeup(2_000), Some(0));
}

#[test]
fn reentrant_scheduling_between_drain_and_rearm() {
    let t: u64 = 5_000;
    let mut d = EventLoopDriver::new();
    d.register_surface(1, WindowHandle { raw: 11 });
    d.schedule_timer(1, t + 2);
    let dispatch = d.handle_timer_event(t + 4);
    assert_eq!(dispatch.deliveries.len(), 1);
    // The callback schedules a new timer before the tick re-peeks.
    d.schedule_timer(1, t + 9);
    assert_eq!(d.next_wakeup(t + 4), Some(5));
}

#[test]
fn cancel_through_the_driver() {
    let mut d = EventLoopDriver::new();
    let tok = d.schedule_timer(1, 500);
    assert!(d.cancel_timer(tok));
    assert!(!d.cancel_timer(tok));
    assert_eq!(d.next_wakeup(0), None);
}

#[test]
fn quit_is_idempotent_and_observable() {
    let mut d = EventLoopDriver::new();
    assert!(!d.should_exit());
    d.quit();
    assert!(d.should_exit());
    d.quit();
    assert!(d.should_exit());
}

#[test]
fn driver_surface_accessors_mirror_the_registry() {
    let mut d = EventLoopDriver::new();
    assert_eq!(d.acquire_current_window(), None);
    d.register_surface(100, WindowHandle { raw: 1 });
    d.register_surface(101, WindowHandle { raw: 2 });
    assert_eq!(d.lookup_surface(100), Some(WindowHandle { raw: 1 }));
    d.push_active(100);
    d.push_active(101);
    assert_eq!(d.acquire_current_window(), Some(WindowHandle { raw: 2 }));
    d.unregister_surface(101);
    assert_eq!(d.acquire_current_window(), Some(WindowHandle { raw: 1 }));
    let snap = d.handles_iter();
    assert_eq!(snap, vec![(100, WindowHandle { raw: 1 })]);
}

#[test]
fn tick_interval_bounds_the_poll() {
    assert_eq!(TICK_INTERVAL_MS, 16);
}

#[test]
fn errors_name_the_missing_interface() {
    let bind = Error::bind(String::from("wl_compositor"));
    assert_eq!(bind.interface(), Some(&String::from("wl_compositor")));
    assert!(matches!(bind, Error::Bind { .. }));
    let global = Error::global(String::from("wl_registry"), 0);
    assert_eq!(global.interface(), Some(&String::from("wl_registry")));
    assert!(matches!(global, Error::Global { version: 0, .. }));
    let conn = Error::Connection;
    assert_eq!(conn.interface(), None);
}
