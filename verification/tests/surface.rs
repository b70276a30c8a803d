use drafting_core::geometry::Scalar;
use drafting_core::surface::{SurfaceSize, SurfaceTracker, DEFAULT_SURFACE_EXTENT_BITS};

fn scalar(v: f64) -> Scalar {
    Scalar::from_bits(v.to_bits())
}

fn size(w: f64, h: f64) -> SurfaceSize {
    SurfaceSize { width: scalar(w), height: scalar(h) }
}

#[test]
fn tracker_starts_with_the_default_size() {
    let t = SurfaceTracker::new();
    assert_eq!(t.latest_request, 0);
    assert_eq!(f64::from_bits(DEFAULT_SURFACE_EXTENT_BITS), 1000.0);
    assert_eq!(f64::from_bits(t.size.width.to_bits()), 1000.0);
    assert_eq!(f64::from_bits(t.size.height.to_bits()), 1000.0);
}

#[test]
fn requests_are_numbered_upwards_from_one() {
    let mut t = SurfaceTracker::new();
    assert_eq!(t.request(), Some(1));
    assert_eq!(t.request(), Some(2));
    assert_eq!(t.request(), Some(3));
    assert_eq!(t.latest_request, 3);
}

#[test]
fn answer_to_the_latest_request_sets_the_size() {
    let mut t = SurfaceTracker::new();
    let id = t.request().unwrap();
    assert!(t.respond(id, size(800.0, 600.0)));
    assert_eq!(t.size, size(800.0, 600.0));
}

#[test]
fn late_answer_to_an_older_request_is_dropped() {
    let mut t = SurfaceTracker::new();
    let first = t.request().unwrap();
    let second = t.request().unwrap();
    assert!(t.respond(second, size(640.0, 480.0)));
    assert!(!t.respond(first, size(10.0, 10.0)));
    assert_eq!(t.size, size(640.0, 480.0));
}

#[test]
fn answer_before_any_request_is_dropped() {
    let mut t = SurfaceTracker::new();
    assert!(!t.respond(0, size(1.0, 1.0)));
    assert!(!t.respond(1, size(1.0, 1.0)));
    assert_eq!(t, SurfaceTracker::new());
}

#[test]
fn answer_to_a_request_not_yet_made_is_dropped() {
    let mut t = SurfaceTracker::new();
    t.request();
    assert!(!t.respond(2, size(1.0, 1.0)));
    assert_eq!(f64::from_bits(t.size.width.to_bits()), 1000.0);
}

#[test]
fn request_numbers_run_out_without_wrapping() {
    let mut t = SurfaceTracker::new();
    t.latest_request = u64::MAX - 1;
    assert_eq!(t.request(), Some(u64::MAX));
    assert_eq!(t.request(), None);
    assert_eq!(t.latest_request, u64::MAX);
    assert!(t.respond(u64::MAX, size(5.0, 6.0)));
    assert_eq!(t.size, size(5.0, 6.0));
}
