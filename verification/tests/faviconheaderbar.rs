use wv::faviconheaderbar::FaviconHeaderBar;
use wv::favicontitle::IconSource;

#[test]
fn header_bar_starts_empty() {
    let bar = FaviconHeaderBar::new();
    assert_eq!(bar.favicontitle().title(), "");
    assert_eq!(bar.favicontitle().subtitle(), "");
    assert_eq!(bar.favicontitle().favicon(), None);
}

#[test]
fn header_bar_forwards_title() {
    let mut bar = FaviconHeaderBar::new();
    bar.set_title(Some("Example Domain"));
    assert_eq!(bar.favicontitle().title(), "Example Domain");
    assert_eq!(
        bar.favicontitle().tooltip(),
        &Some(String::from("Example Domain"))
    );
    bar.set_title(None);
    assert_eq!(bar.favicontitle().title(), "");
    assert_eq!(bar.favicontitle().tooltip(), &None);
}

#[test]
fn header_bar_forwards_subtitle_and_selection() {
    let mut bar = FaviconHeaderBar::new();
    bar.set_subtitle(Some("https://example.com/"));
    bar.select_subtitle();
    assert_eq!(bar.favicontitle().subtitle(), "https://example.com/");
    assert!(bar.favicontitle().subtitle_focused());
    assert!(bar.favicontitle().subtitle_selected());
}

#[test]
fn header_bar_forwards_favicon_sizing() {
    let mut bar = FaviconHeaderBar::new();
    bar.set_scale_factor(2);
    bar.set_favicon(Some(IconSource::Raster {
        width: 64,
        height: 64,
    }));
    assert_eq!(
        bar.favicontitle().favicon(),
        Some(IconSource::Raster {
            width: 32,
            height: 32
        })
    );
    bar.set_favicon(None);
    assert_eq!(bar.favicontitle().favicon(), None);
}
