use rocknix_keyboard::registry::{classify_global, find_global, GlobalEntry, GlobalKind};

fn entry(name: u32, interface: &str) -> GlobalEntry {
    GlobalEntry { name, interface: interface.to_string(), version: 1 }
}

#[test]
fn classify_interfaces() {
    assert_eq!(classify_global("wl_seat"), GlobalKind::Seat);
    assert_eq!(classify_global("zwp_virtual_keyboard_manager_v1"), GlobalKind::VirtualKeyboardManager);
    assert_eq!(classify_global("wl_seat2"), GlobalKind::Other);
    assert_eq!(classify_global("wl_compositor"), GlobalKind::Other);
    assert_eq!(classify_global(""), GlobalKind::Other);
}

#[test]
fn first_matching_global_wins() {
    let globals = vec![
        entry(1, "wl_compositor"),
        entry(2, "wl_seat"),
        entry(3, "zwp_virtual_keyboard_manager_v1"),
        entry(4, "wl_seat"),
    ];
    assert_eq!(find_global(&globals, GlobalKind::Seat), Some(1));
    assert_eq!(find_global(&globals, GlobalKind::VirtualKeyboardManager), Some(2));
    assert_eq!(globals[find_global(&globals, GlobalKind::Seat).unwrap()].name, 2);
}

#[test]
fn missing_global() {
    let globals = vec![entry(1, "wl_compositor"), entry(2, "wl_shm")];
    assert_eq!(find_global(&globals, GlobalKind::Seat), None);
    assert_eq!(find_global(&Vec::new(), GlobalKind::VirtualKeyboardManager), None);
}
