use sctk_bridge::frame::{FrameStatus, FrameTracker};
use sctk_bridge::ids::ObjectId;

#[test]
fn fresh_surface_is_not_ready() {
    let t = FrameTracker::new();
    assert!(!t.is_ready(ObjectId(1)));
}

#[test]
fn ready_needs_request_then_callback() {
    let mut t = FrameTracker::new();
    let s = ObjectId(7);
    t.request_redraw(s);
    assert!(!t.is_ready(s));
    t.frame_callback(s);
    assert!(t.is_ready(s));
}

#[test]
fn callback_without_request_is_a_no_op() {
    let mut t = FrameTracker::new();
    let s = ObjectId(7);
    t.frame_callback(s);
    assert!(!t.is_ready(s));
    // Still pending: the next request must wait for its own callback.
    t.request_redraw(s);
    assert!(!t.is_ready(s));
}

#[test]
fn commit_consumes_readiness() {
    let mut t = FrameTracker::new();
    let s = ObjectId(3);
    t.request_redraw(s);
    t.frame_callback(s);
    assert!(t.is_ready(s));
    t.commit(s);
    assert!(!t.is_ready(s));
    // A second rendezvous is needed before the next commit.
    t.request_redraw(s);
    assert!(!t.is_ready(s));
    t.frame_callback(s);
    assert!(t.is_ready(s));
}

#[test]
fn repeated_requests_and_callbacks_yield_one_readiness() {
    let mut t = FrameTracker::new();
    let s = ObjectId(9);
    t.request_redraw(s);
    t.request_redraw(s);
    t.frame_callback(s);
    t.frame_callback(s);
    assert!(t.is_ready(s));
    t.commit(s);
    assert!(!t.is_ready(s));
}

#[test]
fn surfaces_are_tracked_independently() {
    let mut t = FrameTracker::new();
    let a = ObjectId(1);
    let b = ObjectId(2);
    t.request_redraw(a);
    t.frame_callback(a);
    t.request_redraw(b);
    assert!(t.is_ready(a));
    assert!(!t.is_ready(b));
    t.forget(a);
    assert!(!t.is_ready(a));
}

#[test]
fn status_enum_distinguishes_states() {
    assert_ne!(FrameStatus::Received, FrameStatus::RequestedRedraw);
    assert_ne!(FrameStatus::RequestedRedraw, FrameStatus::Ready);
}
