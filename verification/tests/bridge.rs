use std::sync::Arc;

use vpx_decoder::bridge::{get_frame_buffer, release_frame_buffer, FrameBufferBridge};

#[test]
fn new_bridge_has_default_capacity() {
    let bridge = FrameBufferBridge::new();
    assert_eq!(bridge.buffer_capacity(), 1024);
}

#[test]
fn acquire_serves_small_request_from_current_capacity() {
    let mut bridge = FrameBufferBridge::new();
    let fb = get_frame_buffer(&mut bridge, 100).unwrap();
    assert_eq!(fb.size, 1024);
    assert_eq!(fb.buffer.len(), 1024);
    assert_eq!(fb.data, fb.buffer.data().as_ptr().addr());
    assert_eq!(bridge.buffer_capacity(), 1024);
}

#[test]
fn acquire_grows_and_never_shrinks() {
    let mut bridge = FrameBufferBridge::new();
    let big = get_frame_buffer(&mut bridge, 4096).unwrap();
    assert_eq!(big.size, 4096);
    assert_eq!(bridge.buffer_capacity(), 4096);
    let small = get_frame_buffer(&mut bridge, 10).unwrap();
    assert_eq!(small.size, 4096);
    assert_eq!(bridge.buffer_capacity(), 4096);
    let exact = get_frame_buffer(&mut bridge, 4096).unwrap();
    assert_eq!(exact.size, 4096);
    let zero = get_frame_buffer(&mut bridge, 0).unwrap();
    assert_eq!(zero.size, 4096);
}

#[test]
fn acquire_refuses_impossible_request() {
    let mut bridge = FrameBufferBridge::new();
    assert!(get_frame_buffer(&mut bridge, usize::MAX).is_none());
    assert_eq!(bridge.buffer_capacity(), 1024);
    assert!(get_frame_buffer(&mut bridge, (isize::MAX as usize) + 1).is_none());
    assert_eq!(bridge.buffer_capacity(), 1024);
}

#[test]
fn release_of_null_handle_is_a_no_op() {
    let mut bridge = FrameBufferBridge::new();
    assert!(!release_frame_buffer(&mut bridge, None));
    assert_eq!(bridge.buffer_capacity(), 1024);
}

#[test]
fn acquire_release_symmetry() {
    let mut bridge = FrameBufferBridge::new();
    let mut handles = Vec::new();
    let mut watchers = Vec::new();
    for i in 0..8 {
        let fb = get_frame_buffer(&mut bridge, 2048 + i).unwrap();
        watchers.push(Arc::downgrade(&fb.buffer));
        handles.push(fb.buffer);
    }
    for watcher in &watchers {
        assert_eq!(watcher.strong_count(), 1);
    }
    for handle in handles {
        assert!(release_frame_buffer(&mut bridge, Some(handle)));
    }
    for watcher in &watchers {
        assert_eq!(watcher.strong_count(), 0);
    }
}

#[test]
fn released_buffer_keeps_other_owners() {
    let mut bridge = FrameBufferBridge::new();
    let fb = get_frame_buffer(&mut bridge, 64).unwrap();
    let frame_owner = Arc::clone(&fb.buffer);
    assert_eq!(Arc::strong_count(&frame_owner), 2);
    assert!(release_frame_buffer(&mut bridge, Some(fb.buffer)));
    assert_eq!(Arc::strong_count(&frame_owner), 1);
    assert_eq!(frame_owner.len(), 1024);
}

#[test]
fn acquire_hands_out_a_real_address() {
    let mut bridge = FrameBufferBridge::new();
    for min_size in [0, 1, 1024, 1025, 65536] {
        let fb = get_frame_buffer(&mut bridge, min_size).unwrap();
        assert_ne!(fb.data, 0);
        assert_eq!(fb.data, fb.buffer.data().as_ptr().addr());
        assert!(fb.size >= min_size);
    }
}

#[test]
fn acquire_of_the_current_capacity_after_a_release() {
    let mut bridge = FrameBufferBridge::new();
    let first = get_frame_buffer(&mut bridge, 16).unwrap();
    assert_eq!(first.size, 1024);
    assert!(release_frame_buffer(&mut bridge, Some(first.buffer)));
    let second = get_frame_buffer(&mut bridge, 1024).unwrap();
    assert_eq!(second.size, 1024);
    assert_eq!(bridge.buffer_capacity(), 1024);
    assert!(release_frame_buffer(&mut bridge, Some(second.buffer)));
    let grown = get_frame_buffer(&mut bridge, 2048).unwrap();
    assert_eq!(grown.size, 2048);
    assert_eq!(bridge.buffer_capacity(), 2048);
    assert!(release_frame_buffer(&mut bridge, Some(grown.buffer)));
    let again = get_frame_buffer(&mut bridge, 2048).unwrap();
    assert_eq!(again.size, 2048);
}
