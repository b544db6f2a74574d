use gallery_core::router::SubscriptionRouter;
use gallery_core::store::Handle;

#[test]
fn emit_delivers_in_registration_order() {
    let mut router: SubscriptionRouter<char> = SubscriptionRouter::new();
    let source = Handle { id: 3 };
    router.subscribe(source, 1, 'a');
    router.subscribe(source, 1, 'b');
    router.subscribe(source, 1, 'c');
    assert_eq!(router.emit(source), vec!['a', 'b', 'c']);
}

#[test]
fn emit_only_delivers_subscriptions_of_the_source() {
    let mut router: SubscriptionRouter<u32> = SubscriptionRouter::new();
    let red = Handle { id: 0 };
    let blue = Handle { id: 1 };
    router.subscribe(red, 1, 10);
    router.subscribe(blue, 1, 20);
    router.subscribe(red, 1, 11);
    assert_eq!(router.emit(red), vec![10, 11]);
    assert_eq!(router.emit(blue), vec![20]);
    assert_eq!(router.emit(Handle { id: 9 }), Vec::<u32>::new());
}

#[test]
fn unsubscribe_all_removes_only_that_owner() {
    let mut router: SubscriptionRouter<u32> = SubscriptionRouter::new();
    let source = Handle { id: 0 };
    router.subscribe(source, 1, 10);
    router.subscribe(source, 2, 20);
    router.subscribe(source, 1, 11);
    router.unsubscribe_all(1);
    assert_eq!(router.emit(source), vec![20]);
}

#[test]
fn unsubscribe_all_is_idempotent() {
    let mut router: SubscriptionRouter<u32> = SubscriptionRouter::new();
    let source = Handle { id: 0 };
    router.subscribe(source, 1, 10);
    router.unsubscribe_all(1);
    router.unsubscribe_all(1);
    router.unsubscribe_all(1);
    assert_eq!(router.emit(source), Vec::<u32>::new());
}

#[test]
fn subscriptions_added_after_removal_deliver_again() {
    let mut router: SubscriptionRouter<u32> = SubscriptionRouter::new();
    let source = Handle { id: 0 };
    router.subscribe(source, 1, 10);
    router.unsubscribe_all(1);
    router.subscribe(source, 1, 12);
    assert_eq!(router.emit(source), vec![12]);
}
