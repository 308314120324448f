use ipv6watch::addr::Ipv6Address;
use ipv6watch::tracker::Run;

fn addr(s: [u16; 8]) -> Ipv6Address {
    Ipv6Address::new(s[0], s[1], s[2], s[3], s[4], s[5], s[6], s[7])
}

#[test]
fn fresh_tracker_has_no_address() {
    let run = Run::new(String::from("/tmp/hooks"), false);
    assert!(run.current_addr.is_none());
    assert_eq!(run.dir_path, String::from("/tmp/hooks"));
    assert!(!run.verbose);
}

#[test]
fn first_global_external_address_dispatches() {
    let mut run = Run::new(String::from("/tmp/hooks"), false);
    let a = addr([0x2606, 0x4700, 0x4700, 0, 0, 0, 0, 0x1111]);
    assert!(run.update(a));
    assert_eq!(run.current_addr, Some(a));
}

#[test]
fn same_address_twice_dispatches_once() {
    let mut run = Run::new(String::from("/tmp/hooks"), false);
    let a = addr([0x2606, 0x4700, 0x4700, 0, 0, 0, 0, 0x1111]);
    let b = addr([0x2001, 0x4860, 0x4860, 0, 0, 0, 0, 0x8888]);
    let mut dispatches = 0;
    for candidate in [a, a, b, b] {
        if run.update(candidate) {
            dispatches += 1;
        }
    }
    assert_eq!(dispatches, 2);
    assert_eq!(run.current_addr, Some(b));
}

#[test]
fn dispatch_happens_on_first_sight_of_each_address() {
    let mut run = Run::new(String::from("/tmp/hooks"), false);
    let a = addr([0x2606, 0x4700, 0x4700, 0, 0, 0, 0, 0x1111]);
    let b = addr([0x2001, 0x4860, 0x4860, 0, 0, 0, 0, 0x8888]);
    assert!(run.update(a));
    assert!(!run.update(a));
    assert!(run.update(b));
    assert!(!run.update(b));
    // renumbering back to a known address is still a genuine change
    assert!(run.update(a));
}

#[test]
fn non_global_external_address_never_changes_state() {
    let mut run = Run::new(String::from("/tmp/hooks"), false);
    let link_local = addr([0xfe80, 0, 0, 0, 0, 0, 0, 1]);
    let unique_local = addr([0xfd00, 0, 0, 0, 0, 0, 0, 1]);
    let loopback = addr([0, 0, 0, 0, 0, 0, 0, 1]);
    assert!(!run.update(link_local));
    assert!(!run.update(unique_local));
    assert!(!run.update(loopback));
    assert!(run.current_addr.is_none());

    let a = addr([0x2606, 0x4700, 0x4700, 0, 0, 0, 0, 0x1111]);
    assert!(run.update(a));
    assert!(!run.update(link_local));
    assert!(!run.update(unique_local));
    assert_eq!(run.current_addr, Some(a));
}

#[test]
fn needs_update_compares_to_last_accepted() {
    let mut run = Run::new(String::from("/tmp/hooks"), true);
    let a = addr([0x2606, 0x4700, 0x4700, 0, 0, 0, 0, 0x1111]);
    let b = addr([0x2001, 0x4860, 0x4860, 0, 0, 0, 0, 0x8888]);
    assert!(run.needs_update(a));
    assert!(run.update(a));
    assert!(!run.needs_update(a));
    assert!(run.needs_update(b));
}
