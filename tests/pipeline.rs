use tenorcli::dispatch::{select_backend, ClipboardBackend, DeliveryError, Environment, Platform};
use tenorcli::engine::{
    alternate_file_name, plan_delivery, plan_delivery_at, render, Options, Render,
};
use tenorcli::media::{
    get_requested_media_url, requested_link, resolve_links, Gif, GifResolution, MediaFormats,
    MediaInfo, URLType,
};

fn info(id: &str, quality: &str) -> MediaInfo {
    MediaInfo {
        url: format!("https://media.example.com/{}/{}.gif", id, quality),
        preview: format!("https://media.example.com/{}/{}.png", id, quality),
        size: 1000,
    }
}

fn gif(id: &str) -> Gif {
    Gif {
        id: id.to_string(),
        content_description: format!("a {}", id),
        itemurl: format!("https://example.com/view/{}", id),
        url: format!("https://example.com/{}.gif", id),
        tags: vec!["cat".to_string()],
        media_formats: MediaFormats {
            nanowebm: info(id, "nanowebm"),
            nanomp4: info(id, "nanomp4"),
            mp4: info(id, "mp4"),
            nanogif: info(id, "nanogif"),
            tinymp4: info(id, "tinymp4"),
            tinygifpreview: info(id, "tinygifpreview"),
            webp: info(id, "webp"),
            gif: info(id, "gif"),
            mediumgif: info(id, "mediumgif"),
            nanogifpreview: info(id, "nanogifpreview"),
            tinywebm: info(id, "tinywebm"),
            webm: info(id, "webm"),
            loopedmp4: info(id, "loopedmp4"),
            tinygif: info(id, "tinygif"),
            gifpreview: info(id, "gifpreview"),
        },
        content_description_source: "generated".to_string(),
    }
}

fn gifs(n: usize) -> Vec<Gif> {
    (0..n).map(|i| gif(&format!("g{}", i))).collect()
}

fn options(copy: bool, save: bool) -> Options {
    Options {
        quiet: false,
        extended: false,
        copy_random: copy,
        save_random: save,
        url_type: URLType::File,
        resolution: GifResolution::MediumGif,
    }
}

fn linux(display: bool, wayland: bool) -> Environment {
    Environment { platform: Platform::Linux, display, wayland_display: wayland }
}

#[test]
fn every_quality_resolves_to_its_own_rendition() {
    let g = gif("x");
    let table = [
        (GifResolution::Gif, "gif"),
        (GifResolution::MediumGif, "mediumgif"),
        (GifResolution::TinyGif, "tinygif"),
        (GifResolution::NanoGif, "nanogif"),
        (GifResolution::Webp, "webp"),
        (GifResolution::GifPreview, "gifpreview"),
        (GifResolution::TinyGifPreview, "tinygifpreview"),
        (GifResolution::NanoGifPreview, "nanogifpreview"),
        (GifResolution::Mp4, "mp4"),
        (GifResolution::LoopedMp4, "loopedmp4"),
        (GifResolution::TinyMp4, "tinymp4"),
        (GifResolution::NanoMp4, "nanomp4"),
        (GifResolution::Webm, "webm"),
        (GifResolution::TinyWebm, "tinywebm"),
        (GifResolution::NanoWebm, "nanowebm"),
    ];
    for (r, name) in table {
        assert_eq!(
            get_requested_media_url(&g, r),
            &format!("https://media.example.com/x/{}.gif", name)
        );
    }
}

#[test]
fn requested_link_follows_link_type() {
    let g = gif("x");
    assert_eq!(requested_link(&g, URLType::Page, GifResolution::Gif), "https://example.com/view/x");
    assert_eq!(
        requested_link(&g, URLType::File, GifResolution::TinyGif),
        "https://media.example.com/x/tinygif.gif"
    );
}

#[test]
fn one_link_per_result_in_order() {
    let v = gifs(3);
    let links = resolve_links(&v, URLType::File, GifResolution::NanoGif);
    assert_eq!(
        links,
        vec![
            "https://media.example.com/g0/nanogif.gif".to_string(),
            "https://media.example.com/g1/nanogif.gif".to_string(),
            "https://media.example.com/g2/nanogif.gif".to_string(),
        ]
    );
    let pages = resolve_links(&v, URLType::Page, GifResolution::NanoGif);
    assert_eq!(pages[1], "https://example.com/view/g1");
    assert!(resolve_links(&Vec::new(), URLType::Page, GifResolution::Gif).is_empty());
}

#[test]
fn plain_rendering_prints_one_line_per_result() {
    let v = gifs(4);
    let mut o = options(false, false);
    o.url_type = URLType::Page;
    match render(&v, &o) {
        Render::Lines(lines) => {
            assert_eq!(lines.len(), 4);
            for (i, l) in lines.iter().enumerate() {
                assert_eq!(l, &format!("https://example.com/view/g{}", i));
                assert!(!l.contains("media.example.com"));
            }
        }
        other => panic!("unexpected {:?}", other),
    }
}

#[test]
fn quiet_and_extended_rendering() {
    let v = gifs(2);
    let mut o = options(false, false);
    o.extended = true;
    assert!(matches!(render(&v, &o), Render::Dump));
    o.quiet = true;
    assert!(matches!(render(&v, &o), Render::Silent));
    o.extended = false;
    assert!(matches!(render(&v, &o), Render::Silent));
}

#[test]
fn five_results_without_delivery() {
    let v = gifs(5);
    let o = options(false, false);
    match render(&v, &o) {
        Render::Lines(lines) => assert_eq!(lines.len(), 5),
        other => panic!("unexpected {:?}", other),
    }
    assert!(matches!(plan_delivery(&v, &o, &linux(true, false)), Ok(None)));
}

#[test]
fn delivery_on_empty_results_is_an_error() {
    let v: Vec<Gif> = Vec::new();
    assert!(matches!(
        plan_delivery(&v, &options(true, false), &linux(true, false)),
        Err(DeliveryError::NoResults)
    ));
    assert!(matches!(plan_delivery(&v, &options(false, false), &linux(true, false)), Ok(None)));
}

#[test]
fn random_pick_stays_in_range_and_reaches_every_result() {
    let v = gifs(3);
    let o = options(true, false);
    let mut counts = [0usize; 3];
    for _ in 0..600 {
        let d = plan_delivery(&v, &o, &linux(true, false)).unwrap().unwrap();
        assert!(d.index < 3);
        assert_eq!(d.direct_link, format!("https://media.example.com/g{}/mediumgif.gif", d.index));
        counts[d.index] += 1;
    }
    for c in counts {
        assert!(c > 100, "counts {:?}", counts);
    }
}

#[test]
fn single_result_is_always_picked() {
    let v = gifs(1);
    for _ in 0..20 {
        let d = plan_delivery(&v, &options(true, true), &linux(true, false)).unwrap().unwrap();
        assert_eq!(d.index, 0);
    }
}

#[test]
fn delivery_plan_for_copy() {
    let v = gifs(3);
    let mut o = options(true, false);
    o.url_type = URLType::Page;
    let d = plan_delivery_at(&v, &o, &linux(true, false), 2).unwrap();
    assert_eq!(d.index, 2);
    assert_eq!(d.link, "https://example.com/view/g2");
    assert_eq!(d.direct_link, "https://media.example.com/g2/mediumgif.gif");
    assert_eq!(d.dispatch, Ok(Some(ClipboardBackend::X11)));
    assert_eq!(d.file_name, None);
}

#[test]
fn delivery_plan_for_save_uses_media_link() {
    let v = gifs(2);
    let mut o = options(false, true);
    o.url_type = URLType::Page;
    let d = plan_delivery_at(&v, &o, &linux(false, false), 1).unwrap();
    assert_eq!(d.dispatch, Ok(None));
    assert_eq!(d.file_name, Some("mediumgif.gif".to_string()));
    assert_eq!(d.link, "https://example.com/view/g1");
}

#[test]
fn delivery_dispatch_errors_keep_the_link() {
    let v = gifs(2);
    let d = plan_delivery_at(&v, &options(true, false), &linux(false, false), 0).unwrap();
    assert_eq!(d.dispatch, Err(DeliveryError::NoDisplayServer));
    assert_eq!(d.link, "https://media.example.com/g0/mediumgif.gif");
    let other = Environment { platform: Platform::Other, display: true, wayland_display: true };
    let d = plan_delivery_at(&v, &options(false, true), &other, 1).unwrap();
    assert_eq!(d.dispatch, Err(DeliveryError::UnsupportedPlatform));
    assert_eq!(d.link, "https://media.example.com/g1/mediumgif.gif");
}

#[test]
fn no_delivery_plan_without_request() {
    let v = gifs(2);
    assert!(plan_delivery_at(&v, &options(false, false), &linux(true, true), 1).is_none());
}

#[test]
fn display_selects_x11_and_wayland_display_selects_wayland() {
    assert_eq!(select_backend(&linux(true, false)), Ok(ClipboardBackend::X11));
    assert_eq!(select_backend(&linux(true, true)), Ok(ClipboardBackend::X11));
    assert_eq!(select_backend(&linux(false, true)), Ok(ClipboardBackend::Wayland));
    assert_eq!(select_backend(&linux(false, false)), Err(DeliveryError::NoDisplayServer));
}

#[test]
fn every_unix_like_platform_dispatches_on_display() {
    for p in [Platform::Linux, Platform::OpenBsd, Platform::FreeBsd, Platform::NetBsd] {
        let e = Environment { platform: p, display: false, wayland_display: true };
        assert_eq!(select_backend(&e), Ok(ClipboardBackend::Wayland));
        let e = Environment { platform: p, display: false, wayland_display: false };
        assert_eq!(select_backend(&e), Err(DeliveryError::NoDisplayServer));
    }
}

#[test]
fn native_and_unsupported_platforms() {
    let w = Environment { platform: Platform::Windows, display: false, wayland_display: false };
    assert_eq!(select_backend(&w), Ok(ClipboardBackend::Windows));
    let m = Environment { platform: Platform::MacOs, display: true, wayland_display: false };
    assert_eq!(select_backend(&m), Ok(ClipboardBackend::MacOs));
    let o = Environment { platform: Platform::Other, display: true, wayland_display: false };
    assert_eq!(select_backend(&o), Err(DeliveryError::UnsupportedPlatform));
}

#[test]
fn platform_names() {
    assert_eq!(Platform::from_os("linux"), Platform::Linux);
    assert_eq!(Platform::from_os("openbsd"), Platform::OpenBsd);
    assert_eq!(Platform::from_os("freebsd"), Platform::FreeBsd);
    assert_eq!(Platform::from_os("netbsd"), Platform::NetBsd);
    assert_eq!(Platform::from_os("windows"), Platform::Windows);
    assert_eq!(Platform::from_os("macos"), Platform::MacOs);
    assert_eq!(Platform::from_os("android"), Platform::Other);
    assert_eq!(Platform::from_os("Linux"), Platform::Other);
    assert_eq!(Platform::from_os(""), Platform::Other);
    let e = Environment::new("freebsd", false, true);
    assert_eq!(e, Environment { platform: Platform::FreeBsd, display: false, wayland_display: true });
}

#[test]
fn backend_commands() {
    assert_eq!(ClipboardBackend::X11.program(), "xclip");
    assert_eq!(ClipboardBackend::X11.arguments(), vec!["-sel", "clip"]);
    assert_eq!(ClipboardBackend::Wayland.program(), "wl-copy");
    assert!(ClipboardBackend::Wayland.arguments().is_empty());
    assert_eq!(ClipboardBackend::Windows.program(), "clip");
    assert!(ClipboardBackend::Windows.arguments().is_empty());
    assert_eq!(ClipboardBackend::MacOs.program(), "pbcopy");
    assert!(ClipboardBackend::MacOs.arguments().is_empty());
}

#[test]
fn colliding_file_gets_a_different_name() {
    let v = gifs(1);
    let d = plan_delivery(&v, &options(false, true), &linux(false, false)).unwrap().unwrap();
    let existing = d.file_name.unwrap();
    assert_eq!(existing, "mediumgif.gif");
    let stored = alternate_file_name(&existing);
    assert_ne!(stored, existing);
    assert!(stored.starts_with("mediumgif"));
    assert!(stored.ends_with(".gif"));
    let numeral = &stored["mediumgif".len()..stored.len() - 4];
    let n: u32 = numeral.parse().unwrap();
    assert!(n <= 100000);
    assert_eq!(n.to_string(), numeral);
}

#[test]
fn alternate_names_vary() {
    let names: std::collections::HashSet<String> =
        (0..50).map(|_| alternate_file_name("cat.gif")).collect();
    assert!(names.len() > 1);
    for n in &names {
        assert!(n.starts_with("cat") && n.ends_with(".gif") && n.len() > "cat.gif".len());
    }
}
