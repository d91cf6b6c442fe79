use std::sync::mpsc;

use winit_toyos::event_loop::EventLoopProxy;

#[test]
fn one_wake_up_waits_at_a_time() {
    let (sender, receiver) = mpsc::sync_channel(1);
    let proxy = EventLoopProxy::new(sender);
    proxy.wake_up();
    proxy.wake_up();
    assert!(receiver.try_recv().is_ok());
    assert!(receiver.try_recv().is_err());
    proxy.wake_up();
    assert!(receiver.try_recv().is_ok());
}

#[test]
fn wake_up_after_loop_is_gone_is_harmless() {
    let (sender, receiver) = mpsc::sync_channel(1);
    let proxy = EventLoopProxy::new(sender);
    drop(receiver);
    proxy.wake_up();
}
