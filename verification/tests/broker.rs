use wallpaper_overrider::broker::{
    broker_action, broker_request, relaunch_result, wallpaper_not_found, BrokerAction, BrokerError,
};
use wallpaper_overrider::wallpaper_style::WallpaperStyle;

fn s(v: &str) -> Option<String> {
    Some(v.to_string())
}

#[test]
fn no_target_sid_means_the_picker() {
    assert!(broker_request(None, s("a.jpg"), s("FILL")).is_none());
}

#[test]
fn broker_request_needs_wallpaper_and_style() {
    match broker_request(s("S-1-5-18"), None, s("FILL")) {
        Some(Err(e)) => assert_eq!(e.message(), "--wallpaper is required in broker mode"),
        _ => panic!("expected an error"),
    }
    match broker_request(s("S-1-5-18"), s("a.jpg"), None) {
        Some(Err(e)) => assert_eq!(e.message(), "--style is required in broker mode"),
        _ => panic!("expected an error"),
    }
    match broker_request(s("S-1-5-18"), s("a.jpg"), s("cover")) {
        Some(Err(BrokerError::InvalidStyle(e))) => assert_eq!(e.input, "cover"),
        _ => panic!("expected an error"),
    }
}

#[test]
fn broker_request_reads_code_or_name() {
    let req = broker_request(s("S-1-5-18"), s(r"C:\a.jpg"), s("span")).unwrap().unwrap();
    assert_eq!(req.sid, "S-1-5-18");
    assert_eq!(req.wallpaper, r"C:\a.jpg");
    assert_eq!(req.style, WallpaperStyle::Span);
    let req = broker_request(s("S-1-5-18"), s("b"), s("1")).unwrap().unwrap();
    assert_eq!(req.style, WallpaperStyle::Tile);
}

#[test]
fn broker_steps() {
    assert_eq!(broker_action(false, true), BrokerAction::RelaunchElevated);
    assert_eq!(broker_action(false, false), BrokerAction::RelaunchElevated);
    assert_eq!(broker_action(true, false), BrokerAction::WallpaperMissing);
    assert_eq!(broker_action(true, true), BrokerAction::WritePolicy);
    assert_eq!(wallpaper_not_found("x.jpg"), "Wallpaper file not found: x.jpg");
}

#[test]
fn relaunch_fails_on_nonzero_exit() {
    assert!(relaunch_result(0).is_ok());
    assert_eq!(
        relaunch_result(1223).unwrap_err(),
        "Elevated child process failed with exit code 1223"
    );
}
