use winit_toyos::redraw::RedrawQueue;

#[test]
fn empty_queue() {
    let mut q = RedrawQueue::new();
    assert!(q.is_empty());
    assert_eq!(q.len(), 0);
    assert_eq!(q.pop_front(), None);
}

#[test]
fn request_twice_queues_once() {
    let mut q = RedrawQueue::new();
    q.request(7);
    q.request(7);
    assert_eq!(q.len(), 1);
    assert!(q.contains(7));
    assert!(!q.contains(8));
}

#[test]
fn redraws_come_in_request_order() {
    let mut q = RedrawQueue::new();
    q.request(3);
    q.request(1);
    q.request(3);
    q.request(2);
    assert_eq!(q.pop_front(), Some(3));
    assert_eq!(q.pop_front(), Some(1));
    q.request(3);
    assert_eq!(q.pop_front(), Some(2));
    assert_eq!(q.pop_front(), Some(3));
    assert_eq!(q.pop_front(), None);
    assert!(q.is_empty());
}
