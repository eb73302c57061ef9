//! Broker mode: the command-line request that writes the policy for another
//! user's hive, and the decisions taken around it.

use vstd::prelude::*;
use crate::apply_flow::broker_args;
use crate::i18n::{decimal, push_decimal};
use crate::wallpaper_style::{
    lemma_code_parses, parse_style_result, StyleParseError, WallpaperStyle,
};

verus! {

/// A complete broker request.
#[derive(Debug)]
pub struct BrokerRequest {
    pub sid: String,
    pub wallpaper: String,
    pub style: WallpaperStyle,
}

/// Why the broker's arguments are refused.
#[derive(Debug)]
pub enum BrokerError {
    MissingWallpaper,
    MissingStyle,
    InvalidStyle(StyleParseError),
}

impl BrokerError {
    /// The error text.
    pub fn message(&self) -> (r: String)
        ensures
            match self {
                BrokerError::MissingWallpaper => r@ == "--wallpaper is required in broker mode"@,
                BrokerError::MissingStyle => r@ == "--style is required in broker mode"@,
                BrokerError::InvalidStyle(e) => r@ == "Unknown wallpaper style: "@ + e.input@,
            },
    {
        match self {
            BrokerError::MissingWallpaper => String::from_str(
                "--wallpaper is required in broker mode",
            ),
            BrokerError::MissingStyle => String::from_str("--style is required in broker mode"),
            BrokerError::InvalidStyle(e) => e.message(),
        }
    }
}

pub open spec fn opt_view(o: Option<String>) -> Option<Seq<char>> {
    match o {
        Some(s) => Some(s@),
        None => None,
    }
}

/// What the command line asks for, by the values of `--target-sid`,
/// `--wallpaper` and `--style`: the picker when there is no target SID;
/// otherwise a broker request, which needs both other values and a style
/// that parses.
pub open spec fn broker_request_result(
    target_sid: Option<Seq<char>>,
    wallpaper: Option<Seq<char>>,
    style: Option<Seq<char>>,
) -> Option<Result<(Seq<char>, Seq<char>, WallpaperStyle), Option<Seq<char>>>> {
    match target_sid {
        None => None,
        Some(sid) => match wallpaper {
            None => Some(Err(None)),
            Some(w) => match style {
                None => Some(Err(None)),
                Some(s) => match parse_style_result(s) {
                    Ok(st) => Some(Ok((sid, w, st))),
                    Err(t) => Some(Err(Some(t))),
                },
            },
        },
    }
}

/// Reads the broker request from the command-line values. `None` means the
/// picker is to be shown.
pub fn broker_request(
    target_sid: Option<String>,
    wallpaper: Option<String>,
    style: Option<String>,
) -> (r: Option<Result<BrokerRequest, BrokerError>>)
    ensures
        match (
            r,
            broker_request_result(opt_view(target_sid), opt_view(wallpaper), opt_view(style)),
        ) {
            (None, None) => true,
            (Some(Ok(req)), Some(Ok((sid, w, st)))) => req.sid@ == sid && req.wallpaper@ == w
                && req.style == st,
            (Some(Err(BrokerError::InvalidStyle(e))), Some(Err(Some(t)))) => e.input@ == t,
            (Some(Err(BrokerError::MissingWallpaper)), Some(Err(None))) => wallpaper is None,
            (Some(Err(BrokerError::MissingStyle)), Some(Err(None))) => wallpaper is Some
                && style is None,
            _ => false,
        },
{
    let sid = match target_sid {
        None => return None,
        Some(s) => s,
    };
    let wallpaper = match wallpaper {
        None => return Some(Err(BrokerError::MissingWallpaper)),
        Some(w) => w,
    };
    let style = match style {
        None => return Some(Err(BrokerError::MissingStyle)),
        Some(s) => s,
    };
    match WallpaperStyle::parse(style.as_str()) {
        Ok(st) => Some(Ok(BrokerRequest { sid, wallpaper, style: st })),
        Err(e) => Some(Err(BrokerError::InvalidStyle(e))),
    }
}

/// What the broker does once its request is read.
#[derive(Debug, Clone, Copy, PartialEq, Eq, Structural)]
pub enum BrokerAction {
    /// Not elevated: run this executable again elevated, with the same
    /// arguments, and stop.
    RelaunchElevated,
    /// The wallpaper file does not exist: stop with an error.
    WallpaperMissing,
    /// Write the policy under the target user's hive.
    WritePolicy,
}

/// Elevation comes first, then the wallpaper file must exist.
pub fn broker_action(elevated: bool, wallpaper_is_file: bool) -> (r: BrokerAction)
    ensures
        r == (if !elevated {
            BrokerAction::RelaunchElevated
        } else if !wallpaper_is_file {
            BrokerAction::WallpaperMissing
        } else {
            BrokerAction::WritePolicy
        }),
{
    if !elevated {
        BrokerAction::RelaunchElevated
    } else if !wallpaper_is_file {
        BrokerAction::WallpaperMissing
    } else {
        BrokerAction::WritePolicy
    }
}

/// The message for a wallpaper file that does not exist.
pub fn wallpaper_not_found(path: &str) -> (r: String)
    ensures
        r@ == "Wallpaper file not found: "@ + path@,
{
    let mut m = String::from_str("Wallpaper file not found: ");
    m.append(path);
    m
}

/// The outcome of relaunching elevated, from the child's exit code: success
/// only for 0.
pub fn relaunch_result(exit_code: u32) -> (r: Result<(), String>)
    ensures
        exit_code == 0 ==> r is Ok,
        exit_code != 0 ==> r is Err && r->Err_0@ == "Elevated child process failed with exit code "@
            + decimal(exit_code as nat),
{
    if exit_code == 0 {
        Ok(())
    } else {
        let mut m = String::from_str("Elevated child process failed with exit code ");
        push_decimal(&mut m, exit_code);
        Err(m)
    }
}

/// The broker reads back, from the arguments the picker passes to it, the
/// SID, wallpaper and style that the picker meant.
pub proof fn lemma_broker_round_trip(sid: Seq<char>, path: Seq<char>, style: WallpaperStyle)
    ensures
        ({
            let args = broker_args(sid, path, style);
            &&& args[0] == "--target-sid"@
            &&& args[2] == "--wallpaper"@
            &&& args[4] == "--style"@
            &&& broker_request_result(Some(args[1]), Some(args[3]), Some(args[5])) == Some(
                Ok::<(Seq<char>, Seq<char>, WallpaperStyle), Option<Seq<char>>>((sid, path, style)),
            )
        }),
{
    lemma_code_parses(style);
}

} // verus!
