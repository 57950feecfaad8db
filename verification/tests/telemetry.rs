use tkspeed::telemetry::{TelemetryWindow, WINDOW_CAP};

#[test]
fn window_keeps_the_latest_ticks() {
    let mut w: TelemetryWindow<u32> = TelemetryWindow::new();
    assert!(w.recent_window().is_empty());
    for t in 0..5u32 {
        w.push_tick(t);
    }
    assert_eq!(w.recent_window(), vec![0, 1, 2, 3, 4]);
    for t in 5..130u32 {
        w.push_tick(t);
    }
    let r = w.recent_window();
    assert_eq!(r.len(), WINDOW_CAP);
    assert_eq!(r[0], 10);
    assert_eq!(*r.last().unwrap(), 129);
    assert_eq!(r, (10..130).collect::<Vec<u32>>());
}
