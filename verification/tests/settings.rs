use wv::settings::DEFAULT_HEIGHT;
use wv::settings::DEFAULT_WIDTH;
use wv::settings::Settings;
use wv::settings::Window;

#[test]
fn default_geometry() {
    let w = Window::default();
    assert_eq!(w.width, 800);
    assert_eq!(w.height, 640);
    let s = Settings::default();
    assert_eq!(s.window, w);
}

#[test]
fn default_constants_match() {
    assert_eq!(DEFAULT_WIDTH, 800);
    assert_eq!(DEFAULT_HEIGHT, 640);
}

#[test]
fn from_parts_keeps_stored_values() {
    let w = Window::from_parts(Some(1024), Some(768));
    assert_eq!(w, Window {
        width: 1024,
        height: 768
    });
}

#[test]
fn from_parts_fills_absent_fields_with_defaults() {
    assert_eq!(Window::from_parts(None, None), Window::default());
    assert_eq!(Window::from_parts(Some(300), None), Window {
        width: 300,
        height: 640
    });
    assert_eq!(Window::from_parts(None, Some(200)), Window {
        width: 800,
        height: 200
    });
}
