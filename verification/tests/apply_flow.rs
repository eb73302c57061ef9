use wallpaper_overrider::apply_flow::{make_broker_args, ApplyAction, ApplyEvent, ApplyFlow, ApplyStage};
use wallpaper_overrider::i18n::Language;
use wallpaper_overrider::wallpaper_style::WallpaperStyle;

fn start() -> ApplyFlow {
    let (flow, action) = ApplyFlow::start(r"C:\w.jpg".to_string(), WallpaperStyle::Fit, Language::English);
    assert!(matches!(action, ApplyAction::WriteCurrentUser));
    flow
}

#[test]
fn current_user_write_then_refresh_then_success() {
    let mut flow = start();
    assert!(matches!(flow.step(ApplyEvent::CurrentUserWritten(Ok(()))), ApplyAction::RefreshSession));
    match flow.step(ApplyEvent::SessionRefreshed) {
        ApplyAction::Finish(Ok(())) => {}
        _ => panic!("expected success"),
    }
    assert_eq!(flow.stage, ApplyStage::Finished);
    assert!(matches!(flow.step(ApplyEvent::SessionRefreshed), ApplyAction::Ignore));
}

#[test]
fn elevated_process_writes_under_its_sid() {
    let mut flow = start();
    assert!(matches!(
        flow.step(ApplyEvent::CurrentUserWritten(Err("denied".to_string()))),
        ApplyAction::CheckElevation
    ));
    assert!(matches!(flow.step(ApplyEvent::ElevationChecked(true)), ApplyAction::ResolveSid));
    match flow.step(ApplyEvent::SidResolved(Ok("S-1-5-21-7".to_string()))) {
        ApplyAction::WriteForSid(sid) => assert_eq!(sid, "S-1-5-21-7"),
        _ => panic!("expected a write for the SID"),
    }
    match flow.step(ApplyEvent::SidWritten(Err("access denied".to_string()))) {
        ApplyAction::Finish(Err(e)) => assert_eq!(e, "Failed to apply: access denied"),
        _ => panic!("expected failure"),
    }
}

#[test]
fn non_elevated_process_runs_the_broker() {
    let mut flow = start();
    flow.step(ApplyEvent::CurrentUserWritten(Err("denied".to_string())));
    flow.step(ApplyEvent::ElevationChecked(false));
    match flow.step(ApplyEvent::SidResolved(Ok("S-1-5-21-7".to_string()))) {
        ApplyAction::RunBroker(args) => assert_eq!(
            args,
            vec!["--target-sid", "S-1-5-21-7", "--wallpaper", r"C:\w.jpg", "--style", "3"]
        ),
        _ => panic!("expected the broker"),
    }
    match flow.step(ApplyEvent::BrokerExited(Ok(5))) {
        ApplyAction::Finish(Err(e)) => assert_eq!(e, "Elevated broker failed with exit code 5."),
        _ => panic!("expected failure"),
    }
}

#[test]
fn broker_success_refreshes() {
    let mut flow = start();
    flow.step(ApplyEvent::CurrentUserWritten(Err("denied".to_string())));
    flow.step(ApplyEvent::ElevationChecked(false));
    flow.step(ApplyEvent::SidResolved(Ok("S-1-5-21-7".to_string())));
    assert!(matches!(flow.step(ApplyEvent::BrokerExited(Ok(0))), ApplyAction::RefreshSession));
    assert!(matches!(flow.step(ApplyEvent::SessionRefreshed), ApplyAction::Finish(Ok(()))));
}

#[test]
fn failures_are_reported_in_the_language() {
    let (mut flow, _) = ApplyFlow::start("x".to_string(), WallpaperStyle::Fill, Language::French);
    flow.step(ApplyEvent::CurrentUserWritten(Err("e".to_string())));
    flow.step(ApplyEvent::ElevationChecked(false));
    match flow.step(ApplyEvent::SidResolved(Err("boom".to_string()))) {
        ApplyAction::Finish(Err(e)) => assert_eq!(e, "Impossible de récupérer le SID courant : boom"),
        _ => panic!("expected failure"),
    }
    let (mut flow, _) = ApplyFlow::start("x".to_string(), WallpaperStyle::Fill, Language::English);
    flow.step(ApplyEvent::CurrentUserWritten(Err("e".to_string())));
    flow.step(ApplyEvent::ElevationChecked(false));
    flow.step(ApplyEvent::SidResolved(Ok("S-1".to_string())));
    match flow.step(ApplyEvent::BrokerExited(Err("cancelled".to_string()))) {
        ApplyAction::Finish(Err(e)) => assert_eq!(e, "Elevation failed: cancelled"),
        _ => panic!("expected failure"),
    }
}

#[test]
fn events_out_of_turn_are_ignored() {
    let mut flow = start();
    assert!(matches!(flow.step(ApplyEvent::SessionRefreshed), ApplyAction::Ignore));
    assert_eq!(flow.stage, ApplyStage::WritingCurrentUser);
    assert_eq!(make_broker_args("S", "p", WallpaperStyle::Center)[5], "0");
}
