//! User-facing text in English and French.

use vstd::prelude::*;
use crate::text::{
    all_ascii, ascii_lower, ascii_lower_char, starts_with_chars, str_starts_with, str_to_lowercase,
    unicode_lowercase,
};

verus! {

#[derive(Debug, Clone, Copy, PartialEq, Eq, Structural)]
pub enum Language {
    English,
    French,
}

/// The decimal digits of `n`, as `u32`'s `Display` writes them.
pub open spec fn decimal(n: nat) -> Seq<char>
    decreases n,
{
    if n < 10 {
        seq![digit_char(n)]
    } else {
        decimal(n / 10) + seq![digit_char(n % 10)]
    }
}

pub open spec fn digit_char(d: nat) -> char {
    if d == 0 {
        '0'
    } else if d == 1 {
        '1'
    } else if d == 2 {
        '2'
    } else if d == 3 {
        '3'
    } else if d == 4 {
        '4'
    } else if d == 5 {
        '5'
    } else if d == 6 {
        '6'
    } else if d == 7 {
        '7'
    } else if d == 8 {
        '8'
    } else {
        '9'
    }
}

fn digit_text(d: u32) -> (r: &'static str)
    requires
        d < 10,
    ensures
        r@ == seq![digit_char(d as nat)],
{
    if d == 0 {
        proof {
            reveal_strlit("0");
        }
        "0"
    } else if d == 1 {
        proof {
            reveal_strlit("1");
        }
        "1"
    } else if d == 2 {
        proof {
            reveal_strlit("2");
        }
        "2"
    } else if d == 3 {
        proof {
            reveal_strlit("3");
        }
        "3"
    } else if d == 4 {
        proof {
            reveal_strlit("4");
        }
        "4"
    } else if d == 5 {
        proof {
            reveal_strlit("5");
        }
        "5"
    } else if d == 6 {
        proof {
            reveal_strlit("6");
        }
        "6"
    } else if d == 7 {
        proof {
            reveal_strlit("7");
        }
        "7"
    } else if d == 8 {
        proof {
            reveal_strlit("8");
        }
        "8"
    } else {
        proof {
            reveal_strlit("9");
        }
        "9"
    }
}

/// Appends the decimal digits of `n`.
pub fn push_decimal(out: &mut String, n: u32)
    ensures
        final(out)@ == old(out)@ + decimal(n as nat),
    decreases n,
{
    if n >= 10 {
        push_decimal(out, n / 10);
    }
    out.append(digit_text(n % 10));
    proof {
        assert(old(out)@ + decimal(n as nat) =~= (if n >= 10 {
            old(out)@ + decimal((n / 10) as nat)
        } else {
            old(out)@
        }) + seq![digit_char((n % 10) as nat)]);
    }
}

/// The language of a locale tag: French when the tag, lower-cased, starts
/// with `fr`; English otherwise, and when no locale is known.
pub open spec fn language_of_locale(lowered: Option<Seq<char>>) -> Language {
    match lowered {
        Some(l) => if starts_with_chars(l, seq!['f', 'r']) {
            Language::French
        } else {
            Language::English
        },
        None => Language::English,
    }
}

/// The language for a locale tag as reported, before it is lowered.
pub open spec fn locale_language(locale: Option<Seq<char>>) -> Language {
    language_of_locale(
        match locale {
            Some(l) => Some(unicode_lowercase(l)),
            None => None,
        },
    )
}

/// The message for a current-user SID that could not be resolved.
pub open spec fn failed_resolve_sid_text(lang: Language, err: Seq<char>) -> Seq<char> {
    (match lang {
        Language::English => "Failed to resolve current SID: "@,
        Language::French => "Impossible de récupérer le SID courant : "@,
    }) + err
}

/// The message for a failed registry write.
pub open spec fn failed_to_apply_text(lang: Language, err: Seq<char>) -> Seq<char> {
    (match lang {
        Language::English => "Failed to apply: "@,
        Language::French => "Impossible d'appliquer : "@,
    }) + err
}

/// The message for an elevated broker that exited with a non-zero code.
pub open spec fn broker_failed_text(lang: Language, code: nat) -> Seq<char> {
    (match lang {
        Language::English => "Elevated broker failed with exit code "@,
        Language::French => "Le broker élevé a échoué avec le code de sortie "@,
    }) + decimal(code) + "."@
}

/// The message for an elevation that could not be started.
pub open spec fn elevation_failed_text(lang: Language, err: Seq<char>) -> Seq<char> {
    (match lang {
        Language::English => "Elevation failed: "@,
        Language::French => "L'élévation a échoué : "@,
    }) + err
}

pub open spec fn no_wallpaper_selected_text(lang: Language) -> Seq<char> {
    match lang {
        Language::English => "No wallpaper selected."@,
        Language::French => "Aucun fond d'écran sélectionné."@,
    }
}

pub open spec fn file_no_longer_exists_text(lang: Language) -> Seq<char> {
    match lang {
        Language::English => "File no longer exists."@,
        Language::French => "Le fichier n'existe plus."@,
    }
}

pub open spec fn no_changes_to_apply_text(lang: Language) -> Seq<char> {
    match lang {
        Language::English => "No changes to apply."@,
        Language::French => "Aucun changement à appliquer."@,
    }
}

pub open spec fn applying_wallpaper_text(lang: Language) -> Seq<char> {
    match lang {
        Language::English => "Applying wallpaper..."@,
        Language::French => "Application du fond d'écran..."@,
    }
}

/// The placeholder of an empty path field.
pub open spec fn empty_path_text(lang: Language) -> Seq<char> {
    match lang {
        Language::English => "No file selected"@,
        Language::French => "Aucun fichier sélectionné"@,
    }
}

/// The message shown once the wallpaper is applied.
pub open spec fn wallpaper_applied_text(lang: Language) -> Seq<char> {
    match lang {
        Language::English => "Wallpaper applied successfully."@,
        Language::French => "Fond d'écran appliqué avec succès."@,
    }
}

/// Calls `sys_locale::get_locale`, which reads the user's locale from the
/// environment; nothing is stated of what it returns.
#[verifier::external_body]
fn system_locale() -> Option<String> {
    sys_locale::get_locale()
}

/// A string followed by another.
fn joined(a: &str, b: &str) -> (r: String)
    ensures
        r@ == a@ + b@,
{
    let mut s = String::from_str(a);
    s.append(b);
    s
}

impl Language {
    /// The language of the user's locale: what `for_locale` gives for the
    /// locale the system reports, whatever it is.
    pub fn detect() -> (r: Self)
        ensures
            exists|locale: Option<Seq<char>>| r == #[trigger] locale_language(locale),
    {
        let locale = system_locale();
        match locale {
            Some(l) => {
                let r = Self::for_locale(Some(l.as_str()));
                assert(r == locale_language(Some(l@)));
                r
            },
            None => {
                let r = Self::for_locale(None);
                assert(r == locale_language(None));
                r
            },
        }
    }

    /// The language for a locale tag such as `fr-FR`.
    pub fn for_locale(locale: Option<&str>) -> (r: Self)
        ensures
            r == locale_language(
                match locale {
                    Some(l) => Some(l@),
                    None => None,
                },
            ),
            locale is Some && all_ascii(locale->0@) ==> r == language_of_locale(
                Some(ascii_lower(locale->0@)),
            ),
    {
        match locale {
            Some(l) => {
                let lowered = str_to_lowercase(l);
                proof {
                    reveal_strlit("fr");
                    assert("fr"@ =~= seq!['f', 'r']);
                }
                if str_starts_with(lowered.as_str(), "fr") {
                    Language::French
                } else {
                    Language::English
                }
            },
            None => Language::English,
        }
    }

    pub fn app_title(self) -> (r: &'static str)
        ensures
            r@ == (match self {
                Language::English => "Wallpaper Overrider"@,
                Language::French => "Forçage du fond d'écran"@,
            }),
    {
        match self {
            Language::English => "Wallpaper Overrider",
            Language::French => "Forçage du fond d'écran",
        }
    }

    pub fn choose_picture(self) -> (r: &'static str)
        ensures
            r@ == (match self {
                Language::English => "Image:"@,
                Language::French => "Image :"@,
            }),
    {
        match self {
            Language::English => "Image:",
            Language::French => "Image :",
        }
    }

    pub fn empty_path(self) -> (r: &'static str)
        ensures
            r@ == empty_path_text(self),
    {
        match self {
            Language::English => "No file selected",
            Language::French => "Aucun fichier sélectionné",
        }
    }

    pub fn empty_preview_title(self) -> (r: &'static str)
        ensures
            r@ == (match self {
                Language::English => "No preview yet"@,
                Language::French => "Aucun aperçu"@,
            }),
    {
        match self {
            Language::English => "No preview yet",
            Language::French => "Aucun aperçu",
        }
    }

    pub fn images_filter(self) -> (r: &'static str)
        ensures
            r@ == "Images"@,
    {
        match self {
            Language::English => "Images",
            Language::French => "Images",
        }
    }

    pub fn browse_button(self) -> (r: &'static str)
        ensures
            r@ == (match self {
                Language::English => "Browse..."@,
                Language::French => "Parcourir..."@,
            }),
    {
        match self {
            Language::English => "Browse...",
            Language::French => "Parcourir...",
        }
    }

    pub fn choose_fit(self) -> (r: &'static str)
        ensures
            r@ == (match self {
                Language::English => "Style:"@,
                Language::French => "Style :"@,
            }),
    {
        match self {
            Language::English => "Style:",
            Language::French => "Style :",
        }
    }

    pub fn apply_button(self) -> (r: &'static str)
        ensures
            r@ == (match self {
                Language::English => "Apply"@,
                Language::French => "Appliquer"@,
            }),
    {
        match self {
            Language::English => "Apply",
            Language::French => "Appliquer",
        }
    }

    pub fn close_button(self) -> (r: &'static str)
        ensures
            r@ == (match self {
                Language::English => "Close"@,
                Language::French => "Fermer"@,
            }),
    {
        match self {
            Language::English => "Close",
            Language::French => "Fermer",
        }
    }

    pub fn applying_wallpaper(self) -> (r: &'static str)
        ensures
            r@ == applying_wallpaper_text(self),
    {
        match self {
            Language::English => "Applying wallpaper...",
            Language::French => "Application du fond d'écran...",
        }
    }

    pub fn no_changes_to_apply(self) -> (r: &'static str)
        ensures
            r@ == no_changes_to_apply_text(self),
    {
        match self {
            Language::English => "No changes to apply.",
            Language::French => "Aucun changement à appliquer.",
        }
    }

    pub fn no_wallpaper_selected(self) -> (r: &'static str)
        ensures
            r@ == no_wallpaper_selected_text(self),
    {
        match self {
            Language::English => "No wallpaper selected.",
            Language::French => "Aucun fond d'écran sélectionné.",
        }
    }

    pub fn file_no_longer_exists(self) -> (r: &'static str)
        ensures
            r@ == file_no_longer_exists_text(self),
    {
        match self {
            Language::English => "File no longer exists.",
            Language::French => "Le fichier n'existe plus.",
        }
    }

    /// The message for a current-user SID that could not be resolved; `err`
    /// is the error's text.
    pub fn failed_resolve_sid(self, err: &str) -> (r: String)
        ensures
            r@ == failed_resolve_sid_text(self, err@),
    {
        match self {
            Language::English => joined("Failed to resolve current SID: ", err),
            Language::French => joined("Impossible de récupérer le SID courant : ", err),
        }
    }

    pub fn wallpaper_applied(self) -> (r: &'static str)
        ensures
            r@ == wallpaper_applied_text(self),
    {
        match self {
            Language::English => "Wallpaper applied successfully.",
            Language::French => "Fond d'écran appliqué avec succès.",
        }
    }

    /// The message for a failed registry write; `err` is the error's text.
    pub fn failed_to_apply(self, err: &str) -> (r: String)
        ensures
            r@ == failed_to_apply_text(self, err@),
    {
        match self {
            Language::English => joined("Failed to apply: ", err),
            Language::French => joined("Impossible d'appliquer : ", err),
        }
    }

    /// The message for an elevated broker that exited with a non-zero code.
    pub fn elevated_broker_failed(self, code: u32) -> (r: String)
        ensures
            r@ == broker_failed_text(self, code as nat),
    {
        let mut s = match self {
            Language::English => String::from_str("Elevated broker failed with exit code "),
            Language::French => String::from_str("Le broker élevé a échoué avec le code de sortie "),
        };
        push_decimal(&mut s, code);
        s.append(".");
        s
    }

    /// The message for an elevation that could not be started; `err` is the
    /// error's text.
    pub fn elevation_failed(self, err: &str) -> (r: String)
        ensures
            r@ == elevation_failed_text(self, err@),
    {
        match self {
            Language::English => joined("Elevation failed: ", err),
            Language::French => joined("L'élévation a échoué : ", err),
        }
    }
}

/// French is chosen exactly for the locales whose lower-cased form starts
/// with `fr`, the bare tag `fr` included; every other locale, and no locale,
/// gives English.
pub proof fn lemma_french_exactly_for_fr(lowered: Seq<char>)
    ensures
        (language_of_locale(Some(lowered)) == Language::French) <==> (lowered.len() >= 2
            && lowered[0] == 'f' && lowered[1] == 'r'),
        language_of_locale(Some(lowered)) != Language::French ==> language_of_locale(
            Some(lowered),
        ) == Language::English,
        language_of_locale(None) == Language::English,
{
    if lowered.len() >= 2 && lowered[0] == 'f' && lowered[1] == 'r' {
        assert(lowered.subrange(0, 2) =~= seq!['f', 'r']);
    }
}

/// An ASCII locale tag gives French exactly when its first two characters
/// are `f` and `r` in either case (`fr`, `FR`, `Fr-ca`, ...).
pub proof fn lemma_ascii_locale_language(locale: Seq<char>)
    ensures
        (language_of_locale(Some(ascii_lower(locale))) == Language::French) <==> (locale.len()
            >= 2 && (locale[0] == 'f' || locale[0] == 'F') && (locale[1] == 'r' || locale[1]
            == 'R')),
{
    lemma_french_exactly_for_fr(ascii_lower(locale));
    if locale.len() >= 2 {
        let l = ascii_lower(locale);
        assert(l[0] == ascii_lower_char(locale[0]));
        assert(l[1] == ascii_lower_char(locale[1]));
        assert(ascii_lower_char(locale[0]) == 'f' <==> (locale[0] == 'f' || locale[0] == 'F'));
        assert(ascii_lower_char(locale[1]) == 'r' <==> (locale[1] == 'r' || locale[1] == 'R'));
    }
}

} // verus!
