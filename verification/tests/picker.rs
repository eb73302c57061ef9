use wallpaper_overrider::files::{is_supported_image_path, path_display_name, path_text};
use wallpaper_overrider::i18n::Language;
use wallpaper_overrider::picker::{command_for, ApplyStart, PickerState, UiCommand};
use wallpaper_overrider::wallpaper_style::WallpaperStyle;

#[test]
fn opening_with_the_current_policy_offers_nothing_to_apply() {
    let state = PickerState::new(Some(r"C:\a.jpg".to_string()), None);
    assert_eq!(state.style, WallpaperStyle::Fill);
    assert!(!state.can_apply());
    let empty = PickerState::new(None, Some(WallpaperStyle::Tile));
    assert!(!empty.can_apply());
}

#[test]
fn a_new_selection_can_be_applied_once() {
    let mut state = PickerState::new(None, None);
    state.select_wallpaper_path(r"C:\b.png".to_string());
    assert!(state.can_apply());
    let started = state.begin_apply(true);
    let (path, style) = match started {
        ApplyStart::Started(p, s) => (p, s),
        _ => panic!("expected the apply to start"),
    };
    assert!(matches!(state.begin_apply(true), ApplyStart::Busy));
    assert!(!state.can_apply());
    let status = state.finish_apply(path, style, Ok(()), Language::English);
    assert_eq!(status, "Wallpaper applied successfully.");
    assert!(!state.can_apply());
    assert!(matches!(state.begin_apply(true), ApplyStart::NoChanges));
}

#[test]
fn failed_apply_can_be_retried() {
    let mut state = PickerState::new(None, None);
    assert!(matches!(state.begin_apply(true), ApplyStart::NoWallpaper));
    state.select_wallpaper_path("x.bmp".to_string());
    assert!(matches!(state.begin_apply(false), ApplyStart::FileMissing));
    let (p, s) = match state.begin_apply(true) {
        ApplyStart::Started(p, s) => (p, s),
        _ => panic!("expected the apply to start"),
    };
    let status = state.finish_apply(p, s, Err("Failed to apply: denied".to_string()), Language::English);
    assert_eq!(status, "Failed to apply: denied");
    assert!(state.can_apply());
}

#[test]
fn style_combo_changes_the_style() {
    let mut state = PickerState::new(Some("a.jpg".to_string()), Some(WallpaperStyle::Fill));
    assert!(!state.select_style_index(-1));
    assert!(!state.select_style_index(6));
    assert!(!state.select_style_index(4));
    assert!(state.select_style_index(1));
    assert_eq!(state.style, WallpaperStyle::Tile);
    assert!(state.can_apply());
}

#[test]
fn apply_answers_have_status_text() {
    assert_eq!(ApplyStart::NoChanges.status(Language::English), Some("No changes to apply."));
    assert_eq!(ApplyStart::Busy.status(Language::French), None);
    assert_eq!(
        ApplyStart::NoWallpaper.status(Language::French),
        Some("Aucun fond d'écran sélectionné.")
    );
}

#[test]
fn image_paths_are_checked_by_extension() {
    assert!(is_supported_image_path("photo.JPG", true));
    assert!(is_supported_image_path("dir/photo.jpeg", true));
    assert!(is_supported_image_path("a.Png", true));
    assert!(!is_supported_image_path("a.png", false));
    assert!(!is_supported_image_path("a.gif", true));
    assert!(!is_supported_image_path(".bmp", true));
    assert!(!is_supported_image_path("noext", true));
}

#[test]
fn path_field_texts() {
    assert_eq!(path_text(None, Language::English), "No file selected");
    assert_eq!(path_text(Some("dir/a.jpg"), Language::English), "dir/a.jpg");
    assert_eq!(path_display_name(Some("dir/a.jpg"), Language::French), "a.jpg");
    assert_eq!(path_display_name(None, Language::French), "Aucun fichier sélectionné");
}

#[test]
fn commands_from_message_words() {
    assert_eq!(command_for(1001), Some(UiCommand::Browse));
    assert_eq!(command_for((1 << 16) | 1002), Some(UiCommand::StyleChanged));
    assert_eq!(command_for((3 << 16) | 1002), None);
    assert_eq!(command_for(1003), Some(UiCommand::Apply));
    assert_eq!(command_for(1004), Some(UiCommand::Close));
    assert_eq!(command_for(42), None);
}

#[test]
fn paths_are_compared_by_components() {
    let mut state = PickerState::new(Some("pictures/a.jpg".to_string()), None);
    state.select_wallpaper_path("pictures//a.jpg".to_string());
    assert!(!state.can_apply());
    state.select_wallpaper_path("pictures/b.jpg".to_string());
    assert!(state.can_apply());
}
