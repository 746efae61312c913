use qvisor_io::waiter::{
    EventMaskFromLinux, Queue, ALL_EVENTS, EVENT_ERR, EVENT_HUP, EVENT_IN, EVENT_OUT, READABLE_EVENT,
    WRITEABLE_EVENT,
};

#[test]
fn from_linux_keeps_known_bits() {
    assert_eq!(EventMaskFromLinux(0x1), EVENT_IN);
    assert_eq!(EventMaskFromLinux(0x4 | 0x8 | 0x10), EVENT_OUT | EVENT_ERR | EVENT_HUP);
    assert_eq!(EventMaskFromLinux(0x8000_0000 | 0x2000 | 0x1), EVENT_IN);
    assert_eq!(EventMaskFromLinux(0xffff_ffff), ALL_EVENTS);
    assert_eq!(EventMaskFromLinux(0), 0);
}

#[test]
fn events_is_union_of_waiters() {
    let mut q = Queue::New();
    assert_eq!(q.Events(), 0);
    q.EventRegister(READABLE_EVENT);
    assert_eq!(q.Events(), READABLE_EVENT);
    q.EventRegister(WRITEABLE_EVENT);
    q.EventRegister(READABLE_EVENT);
    assert_eq!(q.Events(), READABLE_EVENT | WRITEABLE_EVENT);
}

#[test]
fn notify_round_trip_wakes_once() {
    let mut q = Queue::New();
    let r = q.EventRegister(READABLE_EVENT);
    let w = q.EventRegister(WRITEABLE_EVENT);
    q.Notify(READABLE_EVENT);
    assert_eq!(q.Wakes(r), 1);
    assert_eq!(q.Wakes(w), 0);
}

#[test]
fn notify_disjoint_mask_wakes_nobody() {
    let mut q = Queue::New();
    let r = q.EventRegister(READABLE_EVENT);
    q.Notify(WRITEABLE_EVENT | EVENT_HUP);
    assert_eq!(q.Wakes(r), 0);
    q.Notify(READABLE_EVENT | WRITEABLE_EVENT);
    q.Notify(READABLE_EVENT);
    assert_eq!(q.Wakes(r), 2);
}

#[test]
fn queue_clone_keeps_waiters() {
    let mut q = Queue::New();
    q.EventRegister(READABLE_EVENT);
    q.Notify(READABLE_EVENT);
    let c = q.clone();
    assert_eq!(c.waiters, q.waiters);
}
