//! The policy key that holds the forced wallpaper, and the checks on a target
//! SID before it is put into a registry path.
//!
//! The policy is written either under HKCU for the current user or under
//! `HKU\<SID>` when the elevated broker applies it for a target user; the
//! registry calls themselves are made by the caller.

use vstd::prelude::*;
use crate::text::{str_trim, trim_chars};
use crate::wallpaper_style::{style_of_code, WallpaperStyle};

verus! {

/// `Software\Microsoft\Windows\CurrentVersion\Policies\System`.
pub open spec fn policies_path_chars() -> Seq<char> {
    "Software\\Microsoft\\Windows\\CurrentVersion\\Policies\\System"@
}

/// The key, relative to a hive, under which the policy values stand.
pub fn policies_path() -> (r: &'static str)
    ensures
        r@ == policies_path_chars(),
{
    "Software\\Microsoft\\Windows\\CurrentVersion\\Policies\\System"
}

pub open spec fn is_ascii_digit(c: char) -> bool {
    '0' <= c && c <= '9'
}

/// A SID that can stand as one registry path component: `S-` followed by at
/// least one character, all ASCII digits or `-`. Separators, white space and
/// aliases are refused before Windows' own SID check runs.
pub open spec fn is_sid_component(s: Seq<char>) -> bool {
    &&& s.len() > 2
    &&& s[0] == 'S'
    &&& s[1] == '-'
    &&& forall|i: int| 2 <= i < s.len() ==> is_ascii_digit(#[trigger] s[i]) || s[i] == '-'
}

/// The key of the policy in a user's hive under `HKEY_USERS`.
pub open spec fn sid_subkey_chars(sid: Seq<char>) -> Seq<char> {
    sid + seq!['\\'] + policies_path_chars()
}

/// Why a target SID was refused.
#[derive(Debug)]
pub enum SidError {
    Empty,
    InvalidCharacters(String),
    InvalidWindowsSid(String),
}

pub enum SidErrorView {
    Empty,
    InvalidCharacters(Seq<char>),
    InvalidWindowsSid(Seq<char>),
}

impl View for SidError {
    type V = SidErrorView;

    open spec fn view(&self) -> SidErrorView {
        match self {
            SidError::Empty => SidErrorView::Empty,
            SidError::InvalidCharacters(s) => SidErrorView::InvalidCharacters(s@),
            SidError::InvalidWindowsSid(s) => SidErrorView::InvalidWindowsSid(s@),
        }
    }
}

/// The outcome of checking a SID, given Windows' own verdict on it.
pub open spec fn sid_check(sid: Seq<char>, windows_accepts: bool) -> Result<(), SidErrorView> {
    if sid.len() == 0 {
        Err(SidErrorView::Empty)
    } else if !is_sid_component(sid) {
        Err(SidErrorView::InvalidCharacters(sid))
    } else if !windows_accepts {
        Err(SidErrorView::InvalidWindowsSid(sid))
    } else {
        Ok(())
    }
}

impl SidError {
    /// The error text.
    pub fn message(&self) -> (r: String)
        ensures
            r@ == (match self@ {
                SidErrorView::Empty => "SID must not be empty"@,
                SidErrorView::InvalidCharacters(s) => "SID contains invalid characters: "@ + s,
                SidErrorView::InvalidWindowsSid(s) => "Invalid Windows SID: "@ + s,
            }),
    {
        match self {
            SidError::Empty => String::from_str("SID must not be empty"),
            SidError::InvalidCharacters(s) => {
                let mut m = String::from_str("SID contains invalid characters: ");
                m.append(s.as_str());
                m
            },
            SidError::InvalidWindowsSid(s) => {
                let mut m = String::from_str("Invalid Windows SID: ");
                m.append(s.as_str());
                m
            },
        }
    }
}

/// Whether `sid` can stand as one registry path component.
pub fn is_sid_path_component(sid: &str) -> (r: bool)
    ensures
        r == is_sid_component(sid@),
{
    let n = sid.unicode_len();
    if n <= 2 {
        return false;
    }
    if sid.get_char(0) != 'S' || sid.get_char(1) != '-' {
        return false;
    }
    let mut i: usize = 2;
    while i < n
        invariant
            n == sid@.len(),
            2 <= i <= n,
            forall|j: int| 2 <= j < i ==> is_ascii_digit(#[trigger] sid@[j]) || sid@[j] == '-',
        decreases n - i,
    {
        let c = sid.get_char(i);
        if !(('0' <= c && c <= '9') || c == '-') {
            return false;
        }
        i = i + 1;
    }
    true
}

/// Checks a target SID: not empty, one path component, and accepted by
/// Windows (`windows_accepts` is the verdict of `ConvertStringSidToSidW` and
/// `IsValidSid` on the same SID, given by the caller).
pub fn validate_target_sid(sid: &str, windows_accepts: bool) -> (r: Result<(), SidError>)
    ensures
        match (r, sid_check(sid@, windows_accepts)) {
            (Ok(()), Ok(())) => true,
            (Err(e), Err(v)) => e@ == v,
            _ => false,
        },
{
    if sid.unicode_len() == 0 {
        return Err(SidError::Empty);
    }
    if !is_sid_path_component(sid) {
        return Err(SidError::InvalidCharacters(String::from_str(sid)));
    }
    if !windows_accepts {
        return Err(SidError::InvalidWindowsSid(String::from_str(sid)));
    }
    Ok(())
}

/// A target SID as the broker receives it, without surrounding white space.
pub fn normalize_sid(sid: &str) -> (r: &str)
    ensures
        r@ == trim_chars(sid@),
{
    str_trim(sid)
}

/// The policy key for a user's hive: `<sid>\Software\...\Policies\System`.
pub fn sid_policy_subkey(sid: &str) -> (r: String)
    ensures
        r@ == sid_subkey_chars(sid@),
{
    let mut s = String::from_str(sid);
    s.append("\\");
    s.append(policies_path());
    proof {
        reveal_strlit("\\");
    }
    assert(s@ =~= sid_subkey_chars(sid@));
    s
}

/// The policy key for a checked target SID, or why the SID is refused.
pub fn sid_policy_target(sid: &str, windows_accepts: bool) -> (r: Result<String, SidError>)
    ensures
        match (r, sid_check(sid@, windows_accepts)) {
            (Ok(k), Ok(())) => k@ == sid_subkey_chars(sid@),
            (Err(e), Err(v)) => e@ == v,
            _ => false,
        },
{
    match validate_target_sid(sid, windows_accepts) {
        Ok(()) => Ok(sid_policy_subkey(sid)),
        Err(e) => Err(e),
    }
}

/// The style that a `WallpaperStyle` policy value stands for, if it was read
/// and is a known code.
pub fn style_from_registry(value: Option<&str>) -> (r: Option<WallpaperStyle>)
    ensures
        r == (match value {
            Some(v) => style_of_code(trim_chars(v@)),
            None => None,
        }),
{
    match value {
        Some(v) => WallpaperStyle::from_code(v),
        None => None,
    }
}

/// A SID that passes the checks names exactly one key of `HKEY_USERS`: the
/// policy key built from it has the SID, and nothing else, before its first
/// separator, and the policy path after it.
pub proof fn lemma_sid_subkey_confined(sid: Seq<char>, windows_accepts: bool)
    requires
        sid_check(sid, windows_accepts) is Ok,
    ensures
        forall|i: int| 0 <= i < sid.len() ==> #[trigger] sid_subkey_chars(sid)[i] != '\\'
            && sid_subkey_chars(sid)[i] != '/',
        sid_subkey_chars(sid)[sid.len() as int] == '\\',
        sid_subkey_chars(sid).subrange(0, sid.len() as int) == sid,
        sid_subkey_chars(sid).skip(sid.len() + 1int) == policies_path_chars(),
{
    let k = sid_subkey_chars(sid);
    assert forall|i: int| 0 <= i < sid.len() implies #[trigger] k[i] != '\\' && k[i] != '/' by {
        assert(k[i] == sid[i]);
        if i >= 2 {
            assert(is_ascii_digit(sid[i]) || sid[i] == '-');
        }
    }
    assert(k.subrange(0, sid.len() as int) =~= sid);
    assert(k.skip(sid.len() + 1int) =~= policies_path_chars());
}

/// A SID that passes the checks holds no white space and no path separator.
pub proof fn lemma_accepted_sid_is_plain(sid: Seq<char>, windows_accepts: bool)
    requires
        sid_check(sid, windows_accepts) is Ok,
    ensures
        forall|i: int|
            0 <= i < sid.len() ==> {
                let c = #[trigger] sid[i];
                c != '\\' && c != '/' && c != ' ' && c != '\t' && c != '\n' && c != '\r'
            },
{
    assert forall|i: int| 0 <= i < sid.len() implies {
        let c = #[trigger] sid[i];
        c != '\\' && c != '/' && c != ' ' && c != '\t' && c != '\n' && c != '\r'
    } by {
        if i >= 2 {
            assert(is_ascii_digit(sid[i]) || sid[i] == '-');
        }
    }
}

/// The shape check accepts exactly the strings that start with `S-` and go
/// on with one or more characters, each an ASCII digit or `-`, whatever
/// their length; Windows' verdict then decides.
pub proof fn lemma_sid_shape_complete(sid: Seq<char>)
    requires
        sid.len() > 0,
    ensures
        (sid_check(sid, true) == Ok::<(), SidErrorView>(())) <==> (sid.len() >= 3 && sid[0] == 'S'
            && sid[1] == '-' && forall|i: int|
            2 <= i < sid.len() ==> ('0' <= #[trigger] sid[i] <= '9' || sid[i] == '-')),
        sid_check(sid, true) is Ok ==> sid_check(sid, false) == Err::<(), SidErrorView>(
            SidErrorView::InvalidWindowsSid(sid),
        ),
{
}

} // verus!
