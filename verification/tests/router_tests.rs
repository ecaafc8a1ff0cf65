use selium_core::frame::Frame;
use selium_core::router::{Router, SendOutcome, DEFAULT_SEND_TIMEOUT_MS};

#[test]
fn new_router_has_no_hubs() {
    let router = Router::new();
    assert!(router.is_idle());
    assert!(!router.has_hub("/t"));
    assert_eq!(router.subscribers("/t"), Vec::<u64>::new());
    assert_eq!(router.subscriber_count("/t"), 0);
    assert_eq!(router.publisher_count("/t"), 0);
    assert!(!router.is_subscribed("/t", 1));
}

#[test]
fn default_send_timeout_is_five_seconds() {
    assert_eq!(DEFAULT_SEND_TIMEOUT_MS, 5_000);
}

#[test]
fn hub_exists_exactly_while_somebody_is_attached() {
    let mut router = Router::new();
    router.attach_publisher("/t");
    assert!(router.has_hub("/t"));
    assert_eq!(router.publisher_count("/t"), 1);
    router.attach_subscriber("/t", 4);
    assert!(router.has_hub("/t"));
    router.detach_publisher("/t");
    assert!(router.has_hub("/t"));
    assert_eq!(router.publisher_count("/t"), 0);
    assert_eq!(router.subscriber_count("/t"), 1);
    assert!(router.detach_subscriber("/t", 4));
    assert!(!router.has_hub("/t"));
    assert!(router.is_idle());
}

#[test]
fn subscriber_alone_keeps_the_hub() {
    let mut router = Router::new();
    router.attach_subscriber("/s", 1);
    assert!(router.has_hub("/s"));
    assert!(!router.is_idle());
    assert!(router.detach_subscriber("/s", 1));
    assert!(!router.has_hub("/s"));
}

#[test]
fn publishers_are_counted() {
    let mut router = Router::new();
    router.attach_publisher("/t");
    router.attach_publisher("/t");
    router.attach_publisher("/t");
    assert_eq!(router.publisher_count("/t"), 3);
    router.detach_publisher("/t");
    assert_eq!(router.publisher_count("/t"), 2);
    router.detach_publisher("/t");
    router.detach_publisher("/t");
    assert_eq!(router.publisher_count("/t"), 0);
    assert!(!router.has_hub("/t"));
    router.detach_publisher("/t");
    assert_eq!(router.publisher_count("/t"), 0);
    assert!(router.is_idle());
}

#[test]
fn detaching_a_publisher_that_is_not_there_changes_nothing() {
    let mut router = Router::new();
    router.attach_subscriber("/t", 9);
    router.detach_publisher("/t");
    router.detach_publisher("/other");
    assert_eq!(router.subscribers("/t"), vec![9]);
    assert!(router.has_hub("/t"));
    assert!(!router.has_hub("/other"));
}

#[test]
fn subscribers_keep_the_order_of_attachment() {
    let mut router = Router::new();
    for id in [5, 3, 8, 1] {
        router.attach_subscriber("/t", id);
    }
    assert_eq!(router.subscribers("/t"), vec![5, 3, 8, 1]);
    assert!(router.detach_subscriber("/t", 3));
    assert_eq!(router.subscribers("/t"), vec![5, 8, 1]);
    router.attach_subscriber("/t", 3);
    assert_eq!(router.subscribers("/t"), vec![5, 8, 1, 3]);
    assert_eq!(router.subscriber_count("/t"), 4);
}

#[test]
fn attaching_a_subscriber_twice_attaches_it_once() {
    let mut router = Router::new();
    router.attach_subscriber("/t", 2);
    router.attach_subscriber("/t", 7);
    router.attach_subscriber("/t", 2);
    assert_eq!(router.subscribers("/t"), vec![2, 7]);
    assert!(router.detach_subscriber("/t", 2));
    assert!(!router.is_subscribed("/t", 2));
    assert_eq!(router.subscribers("/t"), vec![7]);
}

#[test]
fn detaching_a_subscriber_that_is_not_there_changes_nothing() {
    let mut router = Router::new();
    router.attach_subscriber("/t", 2);
    assert!(!router.detach_subscriber("/t", 3));
    assert!(!router.detach_subscriber("/u", 2));
    assert_eq!(router.subscribers("/t"), vec![2]);
    assert!(!router.has_hub("/u"));
}

#[test]
fn topics_are_kept_apart() {
    let mut router = Router::new();
    router.attach_subscriber("/a", 1);
    router.attach_subscriber("/b", 2);
    router.attach_subscriber("/a/", 3);
    router.attach_publisher("/b");
    assert_eq!(router.subscribers("/a"), vec![1]);
    assert_eq!(router.subscribers("/b"), vec![2]);
    assert_eq!(router.subscribers("/a/"), vec![3]);
    assert_eq!(router.publisher_count("/a"), 0);
    assert_eq!(router.publisher_count("/b"), 1);
    assert!(router.detach_subscriber("/a", 1));
    assert!(!router.has_hub("/a"));
    assert!(router.has_hub("/b"));
    assert!(router.has_hub("/a/"));
    assert!(router.detach_subscriber("/b", 2));
    assert!(router.has_hub("/b"));
    router.detach_publisher("/b");
    assert!(!router.has_hub("/b"));
    assert!(router.detach_subscriber("/a/", 3));
    assert!(router.is_idle());
}

#[test]
fn same_key_on_two_topics_is_two_subscriptions() {
    let mut router = Router::new();
    router.attach_subscriber("/a", 1);
    router.attach_subscriber("/b", 1);
    assert!(router.detach_subscriber("/a", 1));
    assert!(router.is_subscribed("/b", 1));
    assert!(!router.is_subscribed("/a", 1));
}

#[test]
fn delivered_send_keeps_the_subscriber() {
    let mut router = Router::new();
    router.attach_subscriber("/t", 1);
    assert_eq!(router.settle("/t", 1, SendOutcome::Delivered), None);
    assert_eq!(router.subscribers("/t"), vec![1]);
}

#[test]
fn failed_or_late_send_drops_the_subscriber_as_slow() {
    let mut router = Router::new();
    router.attach_subscriber("/t", 1);
    router.attach_subscriber("/t", 2);
    router.attach_subscriber("/t", 3);
    let slow = Frame::Error { reason: b"slow subscriber".to_vec() };
    assert_eq!(router.settle("/t", 2, SendOutcome::TimedOut), Some(slow.clone()));
    assert_eq!(router.subscribers("/t"), vec![1, 3]);
    assert_eq!(router.settle("/t", 1, SendOutcome::Failed), Some(slow));
    assert_eq!(router.subscribers("/t"), vec![3]);
    assert_eq!(router.settle("/t", 1, SendOutcome::Failed), None);
    assert_eq!(router.settle("/t", 2, SendOutcome::TimedOut), None);
    assert_eq!(router.subscribers("/t"), vec![3]);
    assert!(router.settle("/t", 3, SendOutcome::TimedOut).is_some());
    assert!(!router.has_hub("/t"));
}

#[test]
fn snapshot_is_not_changed_by_later_attachments() {
    let mut router = Router::new();
    router.attach_subscriber("/t", 1);
    let snapshot = router.subscribers("/t");
    router.attach_subscriber("/t", 2);
    assert!(router.detach_subscriber("/t", 1));
    assert_eq!(snapshot, vec![1]);
    assert_eq!(router.subscribers("/t"), vec![2]);
}

#[test]
fn many_topics_and_subscribers() {
    let mut router = Router::new();
    for t in 0..50u64 {
        let topic = format!("/t/{t}");
        router.attach_publisher(&topic);
        for id in 0..20u64 {
            router.attach_subscriber(&topic, id * 50 + t);
        }
    }
    for t in 0..50u64 {
        let topic = format!("/t/{t}");
        let expected: Vec<u64> = (0..20u64).map(|id| id * 50 + t).collect();
        assert_eq!(router.subscribers(&topic), expected);
        assert_eq!(router.publisher_count(&topic), 1);
    }
    for t in 0..50u64 {
        let topic = format!("/t/{t}");
        router.detach_publisher(&topic);
        for id in 0..20u64 {
            assert!(router.has_hub(&topic));
            assert!(router.detach_subscriber(&topic, id * 50 + t));
        }
        assert!(!router.has_hub(&topic));
    }
    assert!(router.is_idle());
}
