use wallpaper_overrider::i18n::{push_decimal, Language};
use wallpaper_overrider::theme::{
    button_colors, button_label_rect, rgb, static_text_color, theme_from_setting, UiTheme,
    ODS_DISABLED, ODS_HOTLIGHT, ODS_SELECTED,
};
use wallpaper_overrider::layout::Rect;

#[test]
fn locales_pick_the_language() {
    assert_eq!(Language::for_locale(Some("fr-FR")), Language::French);
    assert_eq!(Language::for_locale(Some("FR-ca")), Language::French);
    assert_eq!(Language::for_locale(Some("en-US")), Language::English);
    assert_eq!(Language::for_locale(Some("f")), Language::English);
    assert_eq!(Language::for_locale(None), Language::English);
    let detected = Language::detect();
    assert!(detected == Language::English || detected == Language::French);
}

#[test]
fn messages_in_both_languages() {
    assert_eq!(Language::English.app_title(), "Wallpaper Overrider");
    assert_eq!(Language::French.app_title(), "Forçage du fond d'écran");
    assert_eq!(Language::French.browse_button(), "Parcourir...");
    assert_eq!(Language::English.images_filter(), "Images");
    assert_eq!(Language::French.images_filter(), "Images");
    assert_eq!(Language::English.choose_fit(), "Style:");
    assert_eq!(Language::French.choose_picture(), "Image :");
    assert_eq!(Language::English.empty_preview_title(), "No preview yet");
    assert_eq!(Language::French.apply_button(), "Appliquer");
    assert_eq!(Language::English.close_button(), "Close");
    assert_eq!(
        Language::English.failed_resolve_sid("x"),
        "Failed to resolve current SID: x"
    );
    assert_eq!(Language::French.failed_to_apply("y"), "Impossible d'appliquer : y");
    assert_eq!(
        Language::French.elevated_broker_failed(1223),
        "Le broker élevé a échoué avec le code de sortie 1223."
    );
    assert_eq!(Language::French.elevation_failed("z"), "L'élévation a échoué : z");
}

#[test]
fn decimal_digits_match_display() {
    for n in [0u32, 7, 10, 99, 100, 4294967295] {
        let mut s = String::from("#");
        push_decimal(&mut s, n);
        assert_eq!(s, format!("#{n}"));
    }
}

#[test]
fn theme_and_colours() {
    assert_eq!(theme_from_setting(Some(0)), UiTheme::Dark);
    assert_eq!(theme_from_setting(Some(1)), UiTheme::Light);
    assert_eq!(theme_from_setting(None), UiTheme::Light);
    assert_eq!(rgb(246, 248, 251), 0x00fb_f8f6);
    let light = UiTheme::Light.palette();
    assert_eq!(light.accent_bg, rgb(0, 95, 184));
    assert_eq!(UiTheme::Dark.palette().window_bg, rgb(30, 32, 36));
    assert_eq!(button_colors(&light, true, ODS_DISABLED | ODS_SELECTED), (light.button_disabled_bg, light.button_disabled_text));
    assert_eq!(button_colors(&light, true, ODS_SELECTED), (light.accent_pressed_bg, light.accent_text));
    assert_eq!(button_colors(&light, false, ODS_HOTLIGHT), (light.button_hover_bg, light.button_text));
    assert_eq!(button_colors(&light, false, 0), (light.button_bg, light.button_text));
    assert_eq!(static_text_color(&light, true), light.status_text);
    let r = Rect { left: 0, top: 0, right: 100, bottom: 30 };
    assert_eq!(button_label_rect(r, ODS_SELECTED), Rect { left: 11, top: 1, right: 90, bottom: 30 });
    assert_eq!(button_label_rect(r, 0), Rect { left: 10, top: 0, right: 90, bottom: 30 });
}
