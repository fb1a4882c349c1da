//! Tests for the surface registry and the active-surface stack.

use winloop::SurfaceRegistry;
use winloop::WindowHandle;

#[test]
fn register_then_lookup_returns_the_handle() {
    let mut r = SurfaceRegistry::new();
    let h = WindowHandle { raw: 7 };
    r.register(100, h);
    assert_eq!(r.lookup(100), Some(h));
    assert_eq!(r.lookup(101), None);
}

#[test]
fn register_replaces_an_existing_entry() {
    let mut r = SurfaceRegistry::new();
    r.register(100, WindowHandle { raw: 7 });
    r.register(100, WindowHandle { raw: 9 });
    assert_eq!(r.lookup(100), Some(WindowHandle { raw: 9 }));
}

#[test]
fn unregister_makes_lookup_none_unconditionally() {
    let mut r = SurfaceRegistry::new();
    r.register(100, WindowHandle { raw: 7 });
    r.unregister(100);
    assert_eq!(r.lookup(100), None);
    // Removing an absent identifier is a no-op, including one never
    // registered.
    r.unregister(100);
    r.unregister(555);
    assert_eq!(r.lookup(100), None);
    assert_eq!(r.lookup(555), None);
}

#[test]
fn current_active_resolves_the_stack_front() {
    let mut r = SurfaceRegistry::new();
    assert_eq!(r.current_active(), None);
    r.register(100, WindowHandle { raw: 1 });
    r.register(101, WindowHandle { raw: 2 });
    r.push_active(100);
    assert_eq!(r.current_window_id(), Some(100));
    assert_eq!(r.current_active(), Some(WindowHandle { raw: 1 }));
    r.push_active(101);
    assert_eq!(r.current_window_id(), Some(101));
    assert_eq!(r.current_active(), Some(WindowHandle { raw: 2 }));
}

#[test]
fn scenario_unregistering_the_front_falls_back() {
    let mut r = SurfaceRegistry::new();
    r.register(100, WindowHandle { raw: 1 });
    r.register(101, WindowHandle { raw: 2 });
    // Stack front-to-back becomes {101, 100}.
    r.push_active(100);
    r.push_active(101);
    assert_eq!(r.current_active(), Some(WindowHandle { raw: 2 }));
    r.unregister(101);
    assert_eq!(r.current_active(), Some(WindowHandle { raw: 1 }));
    assert_eq!(r.lookup(101), None);
}

#[test]
fn unregister_prunes_every_occurrence() {
    let mut r = SurfaceRegistry::new();
    r.register(100, WindowHandle { raw: 1 });
    r.register(101, WindowHandle { raw: 2 });
    r.push_active(100);
    r.push_active(101);
    r.push_active(100);
    r.unregister(100);
    // Both stacked occurrences of 100 are gone; 101 is the front now.
    assert_eq!(r.current_active(), Some(WindowHandle { raw: 2 }));
    r.unregister(101);
    assert_eq!(r.current_active(), None);
}

#[test]
fn snapshot_lists_entries_in_ascending_key_order() {
    let mut r = SurfaceRegistry::new();
    r.register(300, WindowHandle { raw: 3 });
    r.register(100, WindowHandle { raw: 1 });
    r.register(200, WindowHandle { raw: 2 });
    let snap = r.snapshot();
    assert_eq!(
        snap,
        vec![
            (100, WindowHandle { raw: 1 }),
            (200, WindowHandle { raw: 2 }),
            (300, WindowHandle { raw: 3 }),
        ]
    );
    // The snapshot is a point-in-time copy: mutating the live registry
    // afterwards does not change it.
    r.unregister(200);
    assert_eq!(snap.len(), 3);
    assert_eq!(r.snapshot().len(), 2);
}

#[test]
fn empty_registry_snapshot_is_empty() {
    let r = SurfaceRegistry::new();
    assert!(r.snapshot().is_empty());
    assert_eq!(r.current_window_id(), None);
}

#[test]
fn empty_stack_never_resolves_even_surface_zero() {
    // Surface identifier 0 is an ordinary key: registering it must not
    // make an empty stack resolve to anything.
    let mut r = SurfaceRegistry::new();
    r.register(0, WindowHandle { raw: 9 });
    assert_eq!(r.current_window_id(), None);
    assert_eq!(r.current_active(), None);
    r.register(5, WindowHandle { raw: 5 });
    r.push_active(5);
    assert_eq!(r.current_active(), Some(WindowHandle { raw: 5 }));
    r.unregister(5);
    // The stack is empty again; surface 0 stays registered but inactive.
    assert_eq!(r.current_active(), None);
    assert_eq!(r.lookup(0), Some(WindowHandle { raw: 9 }));
}
