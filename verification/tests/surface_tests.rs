use pixel_canvas::PresentMode;
use pixel_canvas::SurfaceConfig;

#[test]
fn config_resize_updates_size_only() {
    let mut c = SurfaceConfig::new(300, 200, PresentMode::Fifo, false);
    assert!(c.resize(1920, 1080));
    assert_eq!((c.width, c.height), (1920, 1080));
    assert_eq!(c.present_mode, PresentMode::Fifo);
    assert!(!c.srgb);
}

#[test]
fn config_zero_resize_keeps_previous_size() {
    let mut c = SurfaceConfig::new(300, 200, PresentMode::Fifo, true);
    assert!(!c.resize(0, 0));
    assert!(!c.resize(0, 720));
    assert!(!c.resize(1280, 0));
    assert_eq!((c.width, c.height), (300, 200));
    assert!(c.srgb);
}

#[test]
fn last_present_mode_switch_wins() {
    let mut c = SurfaceConfig::new(300, 200, PresentMode::AutoVsync, true);
    c.set_present_mode(PresentMode::Immediate);
    c.set_present_mode(PresentMode::FifoRelaxed);
    c.set_present_mode(PresentMode::AutoNoVsync);
    assert_eq!(c.present_mode, PresentMode::AutoNoVsync);
    assert_eq!((c.width, c.height), (300, 200));
}
