use wallpaper_overrider::registry::style_from_registry;
use wallpaper_overrider::wallpaper_style::WallpaperStyle;

#[test]
fn registry_codes_round_trip() {
    let cases = [
        ("0", WallpaperStyle::Center),
        ("1", WallpaperStyle::Tile),
        ("2", WallpaperStyle::Stretch),
        ("3", WallpaperStyle::Fit),
        ("4", WallpaperStyle::Fill),
        ("5", WallpaperStyle::Span),
    ];

    for (code, style) in cases {
        assert_eq!(style.code(), code);
        assert_eq!(WallpaperStyle::from_code(code), Some(style));
        assert_eq!(code.parse::<WallpaperStyle>().unwrap(), style);
    }
}

#[test]
fn parses_style_names_case_insensitively() {
    let cases = [
        ("center", WallpaperStyle::Center),
        (" TILE ", WallpaperStyle::Tile),
        ("Stretch", WallpaperStyle::Stretch),
        ("fit", WallpaperStyle::Fit),
        ("FILL", WallpaperStyle::Fill),
        ("span", WallpaperStyle::Span),
    ];

    for (input, style) in cases {
        assert_eq!(input.parse::<WallpaperStyle>().unwrap(), style);
    }
}

#[test]
fn rejects_unknown_styles() {
    assert!(WallpaperStyle::from_code("6").is_none());
    assert!("cover".parse::<WallpaperStyle>().is_err());
}

#[test]
fn codes_ignore_surrounding_white_space() {
    assert_eq!(WallpaperStyle::from_code(" 3\t"), Some(WallpaperStyle::Fit));
    assert_eq!(WallpaperStyle::from_code("\u{a0}5\n"), Some(WallpaperStyle::Span));
    assert_eq!(WallpaperStyle::from_code("03"), None);
    assert_eq!(WallpaperStyle::from_code(""), None);
}

#[test]
fn unknown_style_error_carries_trimmed_input() {
    let err = WallpaperStyle::parse("  cover ").unwrap_err();
    assert_eq!(err.input, "cover");
    assert_eq!(err.message(), "Unknown wallpaper style: cover");
}

#[test]
fn names_and_indexes_follow_registry_order() {
    let all = WallpaperStyle::all();
    assert_eq!(all.len(), 6);
    for (i, style) in all.iter().enumerate() {
        assert_eq!(style.index(), i);
        assert_eq!(style.code(), i.to_string());
        assert_eq!(WallpaperStyle::from_name(style.name()), Some(*style));
    }
    assert_eq!(WallpaperStyle::Stretch.name(), "STRETCH");
    assert_eq!(WallpaperStyle::from_name("fill"), None);
    assert_eq!(WallpaperStyle::default(), WallpaperStyle::Fill);
}

#[test]
fn style_parse_uses_unicode_upper_case() {
    // U+0131 (dotless i) upper-cases to I, as `str::to_uppercase` does.
    assert_eq!("f\u{131}ll".parse::<WallpaperStyle>().unwrap(), WallpaperStyle::Fill);
}

#[test]
fn registry_style_values_decode() {
    assert_eq!(style_from_registry(Some("2")), Some(WallpaperStyle::Stretch));
    assert_eq!(style_from_registry(Some("FILL")), None);
    assert_eq!(style_from_registry(None), None);
}
