use screen_grabber::{AppState, ImageFormat, Timer, Tools, push_decimal};

#[test]
fn every_format_has_its_extension() {
    let cases = [
        (ImageFormat::Jpeg, ".jpeg"),
        (ImageFormat::Png, ".png"),
        (ImageFormat::Gif, ".gif"),
        (ImageFormat::WebP, ".webp"),
        (ImageFormat::Pnm, ".pnm"),
        (ImageFormat::Tiff, ".tiff"),
        (ImageFormat::Tga, ".tga"),
        (ImageFormat::Dds, ".dds"),
        (ImageFormat::Bmp, ".bmp"),
        (ImageFormat::Ico, ".ico"),
        (ImageFormat::Hdr, ".hdr"),
        (ImageFormat::OpenExr, ".openexr"),
        (ImageFormat::Farbfeld, ".farbfeld"),
        (ImageFormat::Avif, ".avif"),
        (ImageFormat::Qoi, ".qoi"),
    ];
    for (format, ext) in cases.iter() {
        assert_eq!(format.to_string(), ext.to_string());
    }
}

#[test]
fn extensions_are_distinct_and_dotted() {
    let all = [
        ImageFormat::Jpeg, ImageFormat::Png, ImageFormat::Gif, ImageFormat::WebP,
        ImageFormat::Pnm, ImageFormat::Tiff, ImageFormat::Tga, ImageFormat::Dds,
        ImageFormat::Bmp, ImageFormat::Ico, ImageFormat::Hdr, ImageFormat::OpenExr,
        ImageFormat::Farbfeld, ImageFormat::Avif, ImageFormat::Qoi,
    ];
    for (i, a) in all.iter().enumerate() {
        assert!(a.to_string().starts_with('.'));
        assert!(a.to_string().len() >= 2);
        for (j, b) in all.iter().enumerate() {
            if i != j {
                assert_ne!(a.to_string(), b.to_string());
            }
        }
    }
}

#[test]
fn timer_seconds() {
    assert_eq!(Timer::Zero.set_timer(), 0);
    assert_eq!(Timer::ThreeSeconds.set_timer(), 3);
    assert_eq!(Timer::FiveSeconds.set_timer(), 5);
    assert_eq!(Timer::TenSeconds.set_timer(), 10);
    assert_eq!(Timer::Custom.set_timer(), 0);
}

#[test]
fn timer_countdowns() {
    assert_eq!(Timer::Zero.countdown_millis(), 100);
    assert_eq!(Timer::ThreeSeconds.countdown_millis(), 3000);
    assert_eq!(Timer::FiveSeconds.countdown_millis(), 5000);
    assert_eq!(Timer::TenSeconds.countdown_millis(), 10000);
    assert_eq!(Timer::Custom.countdown_millis(), 0);
}

#[test]
fn only_text_tool_keeps_focus() {
    assert!(Tools::Text.keeps_focus());
    for t in [Tools::No, Tools::Resize, Tools::Ellipse, Tools::HollowEllipse, Tools::Arrow,
              Tools::Highlight, Tools::Redact, Tools::Random] {
        assert!(!t.keeps_focus());
    }
}

#[test]
fn decimal_notation() {
    let cases: [(u64, &str); 6] = [(0, "0"), (7, "7"), (10, "10"), (42, "42"), (1005, "1005"),
                                   (u64::MAX, "18446744073709551615")];
    for (n, text) in cases.iter() {
        let mut s = String::from("x");
        push_decimal(&mut s, *n);
        assert_eq!(s, format!("x{}", text));
    }
}

#[test]
fn starting_state() {
    let s = AppState::new();
    assert_eq!(s.name, "");
    assert_eq!(s.selected_format, ImageFormat::Jpeg);
    assert_eq!(s.shortcut, "");
    assert_eq!(s.mods, 0x1);
    assert_eq!(s.key, 's' as u32);
    assert!(!s.is_full_screen);
    assert_eq!(s.path, ".");
    assert_eq!(s.delay, Timer::Zero);
    assert!(!s.resize);
    assert!(s.annulla);
    assert_eq!(s.text, "");
    assert_eq!(s.screen_min_x, 0);
    assert_eq!(s.screen_min_y, 0);
}

#[test]
fn candidates_without_a_typed_name() {
    let s = AppState::new();
    assert_eq!(s.default_name_base(), "screenshot");
    assert_eq!(s.candidate_file_name(0), "screenshot.jpeg");
    assert_eq!(s.candidate_file_name(1), "screenshot1.jpeg");
    assert_eq!(s.candidate_file_name(12), "screenshot12.jpeg");
    assert_eq!(s.candidate_path(0), ".\\screenshot.jpeg");
    assert_eq!(s.candidate_path(3), ".\\screenshot3.jpeg");
}

#[test]
fn candidates_with_a_typed_name() {
    let mut s = AppState::new();
    s.name = String::from("desk");
    s.selected_format = ImageFormat::Png;
    s.path = String::from("C:\\shots");
    assert_eq!(s.default_name_base(), "desk");
    assert_eq!(s.candidate_file_name(0), "desk.png");
    assert_eq!(s.candidate_path(2), "C:\\shots\\desk2.png");
}

#[test]
fn default_name_first_and_later() {
    let mut s = AppState::new();
    s.set_default_name(0);
    assert_eq!(s.name, "screenshot");
    let mut t = AppState::new();
    t.set_default_name(4);
    assert_eq!(t.name, "screenshot4");
    let mut u = AppState::new();
    u.name = String::from("desk");
    u.set_default_name(0);
    assert_eq!(u.name, "desk");
    u.set_default_name(2);
    assert_eq!(u.name, "desk2");
}

#[test]
fn save_writes_the_probed_location() {
    for index in [0u64, 1, 9, 10, 123] {
        let mut s = AppState::new();
        s.selected_format = ImageFormat::Gif;
        let probed = s.candidate_path(index);
        s.set_default_name(index);
        assert_eq!(s.save_target(), probed);
    }
}

#[test]
fn candidates_are_distinct() {
    let s = AppState::new();
    let names: Vec<String> = (0u64..30).map(|i| s.candidate_path(i)).collect();
    for i in 0..names.len() {
        for j in 0..names.len() {
            if i != j {
                assert_ne!(names[i], names[j]);
            }
        }
    }
}

#[test]
fn save_target_uses_the_current_name() {
    let mut s = AppState::new();
    s.name = String::from("a");
    s.path = String::from("dir");
    s.selected_format = ImageFormat::Bmp;
    assert_eq!(s.save_target(), "dir\\a.bmp");
}
