use tempsys::mailbox::Mailbox;

#[test]
fn take_before_any_publish_finds_nothing() {
    // A reader issued before any publish keeps waiting: each retry of its
    // suspension point comes back empty until a value is published.
    let mut mailbox = Mailbox::new();
    assert_eq!(mailbox.try_take(), None);
    assert_eq!(mailbox.try_take(), None);
    mailbox.publish(1850);
    assert_eq!(mailbox.try_take(), Some(1850));
}

#[test]
fn take_consumes_the_slot() {
    let mut mailbox = Mailbox::new();
    mailbox.publish(2500);
    assert_eq!(mailbox.try_take(), Some(2500));
    // The slot was emptied atomically with the take.
    assert_eq!(mailbox.try_take(), None);
}

#[test]
fn publish_overwrites_unread_value() {
    // Two publishes with no take in between: exactly one take observes
    // only the second value.
    let mut mailbox = Mailbox::new();
    mailbox.publish(100);
    mailbox.publish(-250);
    assert_eq!(mailbox.try_take(), Some(-250));
    assert_eq!(mailbox.try_take(), None);
}
