use std::time::{Duration, Instant};

use system_monitor::{
    encode_wide, event_channel, Monitor, SubclassInput, SystemEvent, WindowsSystemMonitor,
    EVENT_CHANNEL_CAPACITY, WM_DEVICECHANGE,
};

#[test]
fn try_recv_on_empty_returns_none_at_once() {
    let (_sender, receiver) = event_channel();
    let monitor = WindowsSystemMonitor::new(0, receiver);
    let start = Instant::now();
    assert_eq!(monitor.try_recv(), None);
    assert!(start.elapsed() < Duration::from_millis(500));
}

#[test]
fn recv_with_timeout_waits_the_timeout() {
    let (_sender, receiver) = event_channel();
    let monitor = WindowsSystemMonitor::new(0, receiver);
    let d = Duration::from_millis(100);
    let start = Instant::now();
    assert_eq!(monitor.recv(Some(d)), None);
    let waited = start.elapsed();
    assert!(waited >= d);
    assert!(waited < d + Duration::from_secs(2));
}

#[test]
fn recv_without_timeout_keeps_order() {
    let (sender, receiver) = event_channel();
    let input = SubclassInput::new(sender);
    let monitor = WindowsSystemMonitor::new(0, receiver);
    input.send(SystemEvent::DevAdded);
    input.send(SystemEvent::DevRemoved);
    assert_eq!(monitor.recv(None), Some(SystemEvent::DevAdded));
    assert_eq!(monitor.recv(None), Some(SystemEvent::DevRemoved));
}

#[test]
fn recv_returns_none_when_producer_gone() {
    let (sender, receiver) = event_channel();
    let monitor = WindowsSystemMonitor::new(0, receiver);
    drop(sender);
    assert_eq!(monitor.recv(None), None);
    assert_eq!(monitor.recv(Some(Duration::from_secs(5))), None);
}

#[test]
fn overflow_drops_newest_and_never_blocks() {
    assert_eq!(EVENT_CHANNEL_CAPACITY, 10);
    let (sender, receiver) = event_channel();
    let input = SubclassInput::new(sender);
    let monitor = WindowsSystemMonitor::new(0, receiver);
    assert_eq!(monitor.recv_ref().capacity(), Some(10));
    let start = Instant::now();
    for _ in 0..10 {
        input.send(SystemEvent::DevAdded);
    }
    input.send(SystemEvent::DevRemoved);
    input.send(SystemEvent::DevNodesChanged);
    assert!(start.elapsed() < Duration::from_millis(500));
    assert_eq!(monitor.recv_ref().len(), 10);
    for _ in 0..10 {
        assert_eq!(monitor.try_recv(), Some(SystemEvent::DevAdded));
    }
    assert_eq!(monitor.try_recv(), None);
}

#[test]
fn handled_notification_reaches_monitor() {
    let (sender, receiver) = event_channel();
    let input = SubclassInput::new(sender);
    let monitor = WindowsSystemMonitor::new(0, receiver);
    input.handle(WM_DEVICECHANGE, 0x8004);
    input.handle(WM_DEVICECHANGE, 0x8001);
    input.handle(0x0001, 0x8000);
    input.handle(WM_DEVICECHANGE, 0x0007);
    assert_eq!(monitor.try_recv(), Some(SystemEvent::DevRemoved));
    assert_eq!(monitor.try_recv(), Some(SystemEvent::DevNodesChanged));
    assert_eq!(monitor.try_recv(), None);
}

#[test]
fn clones_share_one_channel() {
    let (sender, receiver) = event_channel();
    let input = SubclassInput::new(sender);
    let monitor = WindowsSystemMonitor::new(7, receiver);
    let other = monitor.clone();
    input.send(SystemEvent::DevAdded);
    assert_eq!(other.try_recv(), Some(SystemEvent::DevAdded));
    assert_eq!(monitor.try_recv(), None);
    assert_eq!(other.window_hwnd(), 7);
}

#[test]
fn into_inner_yields_the_receiver() {
    let (sender, receiver) = event_channel();
    let input = SubclassInput::new(sender);
    let monitor = WindowsSystemMonitor::new(3, receiver);
    assert_eq!(monitor.window_hwnd(), 3);
    input.send(SystemEvent::DevNodesChanged);
    let inner = monitor.into_inner();
    assert_eq!(inner.try_recv().ok(), Some(SystemEvent::DevNodesChanged));
}

#[test]
fn encode_wide_appends_nul() {
    assert_eq!(encode_wide("ab"), vec![0x61, 0x62, 0]);
    assert_eq!(encode_wide(""), vec![0]);
    assert_eq!(encode_wide("\u{e9}\u{1F600}"), vec![0xE9, 0xD83D, 0xDE00, 0]);
}
