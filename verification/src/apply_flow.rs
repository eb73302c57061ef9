//! The decisions taken when the picker applies a wallpaper.
//!
//! The work itself (registry writes, the token query, launching the elevated
//! broker, refreshing the session) is done by the caller; this module says,
//! for each outcome, what to do next. The caller starts with
//! `ApplyFlow::start`, performs each action it is given and hands back the
//! outcome as an event, until it is told to finish.

use vstd::prelude::*;
use crate::i18n::{
    broker_failed_text, elevation_failed_text, failed_resolve_sid_text, failed_to_apply_text,
    Language,
};
use crate::wallpaper_style::{style_code, WallpaperStyle};

verus! {

/// Where an apply stands.
#[derive(Debug, Clone, Copy, PartialEq, Eq, Structural)]
pub enum ApplyStage {
    /// Writing the policy under the current user's hive.
    WritingCurrentUser,
    /// That write failed; asking whether this process is elevated.
    CheckingElevation,
    /// Resolving the current user's SID.
    ResolvingSid { elevated: bool },
    /// Writing the policy under `HKEY_USERS\<SID>` from this (elevated) process.
    WritingForSid,
    /// Waiting for the elevated broker process.
    RunningBroker,
    /// A write succeeded; refreshing the desktop session.
    Refreshing,
    /// Done; nothing more happens.
    Finished,
}

/// The outcome of the last action.
pub enum ApplyEvent {
    CurrentUserWritten(Result<(), String>),
    ElevationChecked(bool),
    SidResolved(Result<String, String>),
    SidWritten(Result<(), String>),
    BrokerExited(Result<u32, String>),
    SessionRefreshed,
}

/// What the caller is to do next.
pub enum ApplyAction {
    /// Write the policy values under `HKEY_CURRENT_USER`.
    WriteCurrentUser,
    /// Ask whether the process token is elevated.
    CheckElevation,
    /// Resolve the SID of the current user.
    ResolveSid,
    /// Write the policy values under `HKEY_USERS\<sid>`.
    WriteForSid(String),
    /// Run this executable elevated with these arguments and wait for it.
    RunBroker(Vec<String>),
    /// Ask Windows to reload the wallpaper of the current session; its
    /// outcome does not matter.
    RefreshSession,
    /// Report this result.
    Finish(Result<(), String>),
    /// The event does not belong to this stage; nothing to do.
    Ignore,
}

pub enum ApplyEventView {
    CurrentUserWritten(Result<(), Seq<char>>),
    ElevationChecked(bool),
    SidResolved(Result<Seq<char>, Seq<char>>),
    SidWritten(Result<(), Seq<char>>),
    BrokerExited(Result<u32, Seq<char>>),
    SessionRefreshed,
}

pub enum ApplyActionView {
    WriteCurrentUser,
    CheckElevation,
    ResolveSid,
    WriteForSid(Seq<char>),
    RunBroker(Seq<Seq<char>>),
    RefreshSession,
    Finish(Result<(), Seq<char>>),
    Ignore,
}

pub open spec fn unit_result_view(r: Result<(), String>) -> Result<(), Seq<char>> {
    match r {
        Ok(()) => Ok(()),
        Err(e) => Err(e@),
    }
}

impl View for ApplyEvent {
    type V = ApplyEventView;

    open spec fn view(&self) -> ApplyEventView {
        match self {
            ApplyEvent::CurrentUserWritten(r) => ApplyEventView::CurrentUserWritten(
                unit_result_view(*r),
            ),
            ApplyEvent::ElevationChecked(b) => ApplyEventView::ElevationChecked(*b),
            ApplyEvent::SidResolved(r) => ApplyEventView::SidResolved(
                match r {
                    Ok(s) => Ok(s@),
                    Err(e) => Err(e@),
                },
            ),
            ApplyEvent::SidWritten(r) => ApplyEventView::SidWritten(unit_result_view(*r)),
            ApplyEvent::BrokerExited(r) => ApplyEventView::BrokerExited(
                match r {
                    Ok(c) => Ok(*c),
                    Err(e) => Err(e@),
                },
            ),
            ApplyEvent::SessionRefreshed => ApplyEventView::SessionRefreshed,
        }
    }
}

impl View for ApplyAction {
    type V = ApplyActionView;

    open spec fn view(&self) -> ApplyActionView {
        match self {
            ApplyAction::WriteCurrentUser => ApplyActionView::WriteCurrentUser,
            ApplyAction::CheckElevation => ApplyActionView::CheckElevation,
            ApplyAction::ResolveSid => ApplyActionView::ResolveSid,
            ApplyAction::WriteForSid(s) => ApplyActionView::WriteForSid(s@),
            ApplyAction::RunBroker(args) => ApplyActionView::RunBroker(
                args@.map_values(|a: String| a@),
            ),
            ApplyAction::RefreshSession => ApplyActionView::RefreshSession,
            ApplyAction::Finish(r) => ApplyActionView::Finish(unit_result_view(*r)),
            ApplyAction::Ignore => ApplyActionView::Ignore,
        }
    }
}

/// The arguments of the elevated broker: the target SID, the wallpaper path
/// and the style's registry code.
pub open spec fn broker_args(sid: Seq<char>, path: Seq<char>, style: WallpaperStyle) -> Seq<
    Seq<char>,
> {
    seq!["--target-sid"@, sid, "--wallpaper"@, path, "--style"@, style_code(style)]
}

/// The step of the apply: the next stage and the action, for an event in a
/// stage. Writing under HKCU comes first; if it fails, an elevated process
/// writes under its user's SID itself, and a non-elevated one runs the
/// elevated broker for its user's SID. Any successful write is followed by a
/// session refresh, whose outcome is ignored, and then by success.
pub open spec fn apply_transition(
    path: Seq<char>,
    style: WallpaperStyle,
    lang: Language,
    stage: ApplyStage,
    event: ApplyEventView,
) -> (ApplyStage, ApplyActionView) {
    match (stage, event) {
        (ApplyStage::WritingCurrentUser, ApplyEventView::CurrentUserWritten(Ok(()))) => (
            ApplyStage::Refreshing,
            ApplyActionView::RefreshSession,
        ),
        (ApplyStage::WritingCurrentUser, ApplyEventView::CurrentUserWritten(Err(_))) => (
            ApplyStage::CheckingElevation,
            ApplyActionView::CheckElevation,
        ),
        (ApplyStage::CheckingElevation, ApplyEventView::ElevationChecked(elevated)) => (
            ApplyStage::ResolvingSid { elevated },
            ApplyActionView::ResolveSid,
        ),
        (ApplyStage::ResolvingSid { elevated }, ApplyEventView::SidResolved(Err(e))) => (
            ApplyStage::Finished,
            ApplyActionView::Finish(Err(failed_resolve_sid_text(lang, e))),
        ),
        (ApplyStage::ResolvingSid { elevated }, ApplyEventView::SidResolved(Ok(sid))) => {
            if elevated {
                (ApplyStage::WritingForSid, ApplyActionView::WriteForSid(sid))
            } else {
                (
                    ApplyStage::RunningBroker,
                    ApplyActionView::RunBroker(broker_args(sid, path, style)),
                )
            }
        },
        (ApplyStage::WritingForSid, ApplyEventView::SidWritten(Ok(()))) => (
            ApplyStage::Refreshing,
            ApplyActionView::RefreshSession,
        ),
        (ApplyStage::WritingForSid, ApplyEventView::SidWritten(Err(e))) => (
            ApplyStage::Finished,
            ApplyActionView::Finish(Err(failed_to_apply_text(lang, e))),
        ),
        (ApplyStage::RunningBroker, ApplyEventView::BrokerExited(Ok(code))) => {
            if code == 0 {
                (ApplyStage::Refreshing, ApplyActionView::RefreshSession)
            } else {
                (
                    ApplyStage::Finished,
                    ApplyActionView::Finish(Err(broker_failed_text(lang, code as nat))),
                )
            }
        },
        (ApplyStage::RunningBroker, ApplyEventView::BrokerExited(Err(e))) => (
            ApplyStage::Finished,
            ApplyActionView::Finish(Err(elevation_failed_text(lang, e))),
        ),
        (ApplyStage::Refreshing, ApplyEventView::SessionRefreshed) => (
            ApplyStage::Finished,
            ApplyActionView::Finish(Ok(())),
        ),
        _ => (stage, ApplyActionView::Ignore),
    }
}

/// The wallpaper and style being applied, and the language of the messages.
pub struct ApplyFlow {
    pub path: String,
    pub style: WallpaperStyle,
    pub lang: Language,
    pub stage: ApplyStage,
}

fn text(s: &str) -> (r: String)
    ensures
        r@ == s@,
{
    String::from_str(s)
}

/// The arguments of the elevated broker for a SID, a path and a style.
pub fn make_broker_args(sid: &str, path: &str, style: WallpaperStyle) -> (r: Vec<String>)
    ensures
        r@.map_values(|a: String| a@) == broker_args(sid@, path@, style),
{
    let mut v: Vec<String> = Vec::new();
    v.push(text("--target-sid"));
    v.push(text(sid));
    v.push(text("--wallpaper"));
    v.push(text(path));
    v.push(text("--style"));
    v.push(text(style.code()));
    assert(v@.map_values(|a: String| a@) =~= broker_args(sid@, path@, style));
    v
}

impl ApplyFlow {
    /// Starts an apply: the first action is the write under HKCU.
    pub fn start(path: String, style: WallpaperStyle, lang: Language) -> (r: (
        ApplyFlow,
        ApplyAction,
    ))
        ensures
            r.0.path@ == path@,
            r.0.style == style,
            r.0.lang == lang,
            r.0.stage == ApplyStage::WritingCurrentUser,
            r.1@ == ApplyActionView::WriteCurrentUser,
    {
        (
            ApplyFlow { path, style, lang, stage: ApplyStage::WritingCurrentUser },
            ApplyAction::WriteCurrentUser,
        )
    }

    /// Takes the outcome of the last action and gives the next action.
    pub fn step(&mut self, event: ApplyEvent) -> (r: ApplyAction)
        ensures
            final(self).path == old(self).path,
            final(self).style == old(self).style,
            final(self).lang == old(self).lang,
            (final(self).stage, r@) == apply_transition(
                old(self).path@,
                old(self).style,
                old(self).lang,
                old(self).stage,
                event@,
            ),
    {
        let stage = self.stage;
        let lang = self.lang;
        match (stage, event) {
            (ApplyStage::WritingCurrentUser, ApplyEvent::CurrentUserWritten(Ok(()))) => {
                self.stage = ApplyStage::Refreshing;
                ApplyAction::RefreshSession
            },
            (ApplyStage::WritingCurrentUser, ApplyEvent::CurrentUserWritten(Err(_))) => {
                self.stage = ApplyStage::CheckingElevation;
                ApplyAction::CheckElevation
            },
            (ApplyStage::CheckingElevation, ApplyEvent::ElevationChecked(elevated)) => {
                self.stage = ApplyStage::ResolvingSid { elevated };
                ApplyAction::ResolveSid
            },
            (ApplyStage::ResolvingSid { elevated: _ }, ApplyEvent::SidResolved(Err(e))) => {
                self.stage = ApplyStage::Finished;
                ApplyAction::Finish(Err(lang.failed_resolve_sid(e.as_str())))
            },
            (ApplyStage::ResolvingSid { elevated }, ApplyEvent::SidResolved(Ok(sid))) => {
                if elevated {
                    self.stage = ApplyStage::WritingForSid;
                    ApplyAction::WriteForSid(sid)
                } else {
                    self.stage = ApplyStage::RunningBroker;
                    ApplyAction::RunBroker(
                        make_broker_args(sid.as_str(), self.path.as_str(), self.style),
                    )
                }
            },
            (ApplyStage::WritingForSid, ApplyEvent::SidWritten(Ok(()))) => {
                self.stage = ApplyStage::Refreshing;
                ApplyAction::RefreshSession
            },
            (ApplyStage::WritingForSid, ApplyEvent::SidWritten(Err(e))) => {
                self.stage = ApplyStage::Finished;
                ApplyAction::Finish(Err(lang.failed_to_apply(e.as_str())))
            },
            (ApplyStage::RunningBroker, ApplyEvent::BrokerExited(Ok(code))) => {
                if code == 0 {
                    self.stage = ApplyStage::Refreshing;
                    ApplyAction::RefreshSession
                } else {
                    self.stage = ApplyStage::Finished;
                    ApplyAction::Finish(Err(lang.elevated_broker_failed(code)))
                }
            },
            (ApplyStage::RunningBroker, ApplyEvent::BrokerExited(Err(e))) => {
                self.stage = ApplyStage::Finished;
                ApplyAction::Finish(Err(lang.elevation_failed(e.as_str())))
            },
            (ApplyStage::Refreshing, ApplyEvent::SessionRefreshed) => {
                self.stage = ApplyStage::Finished;
                ApplyAction::Finish(Ok(()))
            },
            _ => ApplyAction::Ignore,
        }
    }
}

/// Success is reported only from the refresh that follows a write.
pub proof fn lemma_success_only_after_refresh(
    path: Seq<char>,
    style: WallpaperStyle,
    lang: Language,
    stage: ApplyStage,
    event: ApplyEventView,
)
    requires
        apply_transition(path, style, lang, stage, event).1 is Finish,
        apply_transition(path, style, lang, stage, event).1->Finish_0 is Ok,
    ensures
        stage == ApplyStage::Refreshing,
        event == ApplyEventView::SessionRefreshed,
{
}

/// The refresh (and so success) is reached only from a successful write:
/// under HKCU, under the user's SID, or by a broker that exited with 0.
pub proof fn lemma_refresh_only_after_write(
    path: Seq<char>,
    style: WallpaperStyle,
    lang: Language,
    stage: ApplyStage,
    event: ApplyEventView,
)
    requires
        stage != ApplyStage::Refreshing,
        apply_transition(path, style, lang, stage, event).0 == ApplyStage::Refreshing,
    ensures
        (stage == ApplyStage::WritingCurrentUser && event is CurrentUserWritten
            && event->CurrentUserWritten_0 is Ok) || (stage == ApplyStage::WritingForSid
            && event is SidWritten && event->SidWritten_0 is Ok) || (stage
            == ApplyStage::RunningBroker && event == ApplyEventView::BrokerExited(
            Ok::<u32, Seq<char>>(0),
        )),
{
}

/// The elevated broker is run only by a process that is not elevated, for
/// the SID just resolved and the wallpaper and style being applied; the
/// process writes under the SID itself only when it is elevated.
pub proof fn lemma_broker_only_when_not_elevated(
    path: Seq<char>,
    style: WallpaperStyle,
    lang: Language,
    stage: ApplyStage,
    event: ApplyEventView,
)
    ensures
        apply_transition(path, style, lang, stage, event).1 is RunBroker ==> (stage
            == ApplyStage::ResolvingSid { elevated: false } && event is SidResolved
            && event->SidResolved_0 is Ok && apply_transition(path, style, lang, stage, event).1
            == ApplyActionView::RunBroker(broker_args(event->SidResolved_0->Ok_0, path, style))),
        apply_transition(path, style, lang, stage, event).1 is WriteForSid ==> (stage
            == ApplyStage::ResolvingSid { elevated: true } && event is SidResolved
            && event->SidResolved_0 is Ok && apply_transition(path, style, lang, stage, event).1
            == ApplyActionView::WriteForSid(event->SidResolved_0->Ok_0)),
{
}

/// Once finished, an apply stays finished and does nothing more.
pub proof fn lemma_finished_is_final(
    path: Seq<char>,
    style: WallpaperStyle,
    lang: Language,
    event: ApplyEventView,
)
    ensures
        apply_transition(path, style, lang, ApplyStage::Finished, event) == (
            ApplyStage::Finished,
            ApplyActionView::Ignore,
        ),
{
}

/// Every successful write is followed by a session refresh: the write under
/// HKCU, the write under the user's SID, and a broker that exited with 0.
/// The refresh, whatever came of it, ends the apply with success.
pub proof fn lemma_successful_write_refreshes(
    path: Seq<char>,
    style: WallpaperStyle,
    lang: Language,
)
    ensures
        apply_transition(
            path,
            style,
            lang,
            ApplyStage::WritingCurrentUser,
            ApplyEventView::CurrentUserWritten(Ok(())),
        ) == (ApplyStage::Refreshing, ApplyActionView::RefreshSession),
        apply_transition(
            path,
            style,
            lang,
            ApplyStage::WritingForSid,
            ApplyEventView::SidWritten(Ok(())),
        ) == (ApplyStage::Refreshing, ApplyActionView::RefreshSession),
        apply_transition(
            path,
            style,
            lang,
            ApplyStage::RunningBroker,
            ApplyEventView::BrokerExited(Ok(0)),
        ) == (ApplyStage::Refreshing, ApplyActionView::RefreshSession),
        apply_transition(
            path,
            style,
            lang,
            ApplyStage::Refreshing,
            ApplyEventView::SessionRefreshed,
        ) == (ApplyStage::Finished, ApplyActionView::Finish(Ok(()))),
{
}

/// An elevated process whose HKCU write fails resolves its SID, writes under
/// it, refreshes and succeeds; a process that is not elevated runs the
/// broker with the SID, path and style instead, and succeeds when it exits
/// with 0.
pub proof fn lemma_fallback_runs_succeed(
    path: Seq<char>,
    style: WallpaperStyle,
    lang: Language,
    error: Seq<char>,
    sid: Seq<char>,
)
    ensures
        ({
            let s1 = apply_transition(
                path,
                style,
                lang,
                ApplyStage::WritingCurrentUser,
                ApplyEventView::CurrentUserWritten(Err(error)),
            );
            let s2 = apply_transition(
                path,
                style,
                lang,
                s1.0,
                ApplyEventView::ElevationChecked(true),
            );
            let s3 = apply_transition(path, style, lang, s2.0, ApplyEventView::SidResolved(Ok(sid)));
            let s4 = apply_transition(path, style, lang, s3.0, ApplyEventView::SidWritten(Ok(())));
            let s5 = apply_transition(path, style, lang, s4.0, ApplyEventView::SessionRefreshed);
            &&& s1.1 == ApplyActionView::CheckElevation
            &&& s2.1 == ApplyActionView::ResolveSid
            &&& s3.1 == ApplyActionView::WriteForSid(sid)
            &&& s4.1 == ApplyActionView::RefreshSession
            &&& s5 == (ApplyStage::Finished, ApplyActionView::Finish(Ok(())))
        }),
        ({
            let s1 = apply_transition(
                path,
                style,
                lang,
                ApplyStage::WritingCurrentUser,
                ApplyEventView::CurrentUserWritten(Err(error)),
            );
            let s2 = apply_transition(
                path,
                style,
                lang,
                s1.0,
                ApplyEventView::ElevationChecked(false),
            );
            let s3 = apply_transition(path, style, lang, s2.0, ApplyEventView::SidResolved(Ok(sid)));
            let s4 = apply_transition(path, style, lang, s3.0, ApplyEventView::BrokerExited(Ok(0)));
            let s5 = apply_transition(path, style, lang, s4.0, ApplyEventView::SessionRefreshed);
            &&& s3.1 == ApplyActionView::RunBroker(broker_args(sid, path, style))
            &&& s4.1 == ApplyActionView::RefreshSession
            &&& s5 == (ApplyStage::Finished, ApplyActionView::Finish(Ok(())))
        }),
{
}

} // verus!
