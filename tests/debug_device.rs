use vellogd::debug_device::DebugGraphicsDevice;
use vellogd::geometry::Point;

#[test]
fn debug_device_counts_clips_and_patterns() {
    let mut d = DebugGraphicsDevice::new();
    assert_eq!((d.n_clip(), d.n_pattern()), (0, 0));
    let full = (Point { x: 0, y: 0 }, Point { x: 480, y: 480 });
    assert!(d.clip(full.0, full.1, 480, 480));
    assert_eq!(d.n_clip(), 0);
    assert!(!d.clip(Point { x: 10, y: 10 }, Point { x: 20, y: 20 }, 480, 480));
    assert!(!d.clip(Point { x: 10, y: 10 }, Point { x: 20, y: 20 }, 480, 480));
    assert_eq!(d.n_clip(), 2);
    assert!(d.clip(full.0, full.1, 480, 480));
    assert_eq!(d.n_clip(), 1);
    assert_eq!(d.set_pattern(false), 0);
    assert_eq!(d.set_pattern(true), -1);
    assert_eq!(d.n_pattern(), 1);
    assert_eq!(d.set_pattern(false), 1);
    assert_eq!(d.n_pattern(), 2);
    assert_eq!(d.n_clip(), 1);
}
