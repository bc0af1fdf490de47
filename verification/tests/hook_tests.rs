use winomove::hook::HookSlot;

#[test]
fn new_slot_is_empty() {
    let slot = HookSlot::new();
    assert_eq!(slot.current(), None);
}

#[test]
fn installed_token_is_readable_for_forwarding() {
    let mut slot = HookSlot::new();
    slot.install(0xbeef);
    assert_eq!(slot.current(), Some(0xbeef));
}

#[test]
fn teardown_hands_out_the_token_once() {
    let mut slot = HookSlot::new();
    slot.install(7);
    assert_eq!(slot.take(), Some(7));
    assert_eq!(slot.current(), None);
}

#[test]
fn second_teardown_is_a_safe_noop() {
    let mut slot = HookSlot::new();
    slot.install(7);
    let _ = slot.take();
    assert_eq!(slot.take(), None);
    assert_eq!(slot.take(), None);
}
