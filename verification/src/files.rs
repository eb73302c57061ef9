//! What the picker shows and accepts of a wallpaper path.

use vstd::prelude::*;
use crate::i18n::{empty_path_text, Language};
use crate::text::{ascii_lower, str_equal};

verus! {

/// What `Path::file_name` gives for a path, as text.
pub uninterp spec fn path_file_name_of(path: Seq<char>) -> Option<Seq<char>>;

/// The index of the last `.` in a file name, or -1 when it has none.
pub open spec fn last_dot(name: Seq<char>) -> int
    decreases name.len(),
{
    if name.len() == 0 {
        -1
    } else if name.last() == '.' {
        name.len() - 1
    } else {
        last_dot(name.drop_last())
    }
}

/// The extension of a file name, as `Path::extension` documents it: none
/// without an embedded `.`, none when the only `.` begins the name, and
/// otherwise what follows the last `.`.
pub open spec fn extension_of_name(name: Seq<char>) -> Option<Seq<char>> {
    if last_dot(name) <= 0 {
        None
    } else {
        Some(name.skip(last_dot(name) + 1))
    }
}

/// The extension of a path: that of its file name, if it has one.
pub open spec fn extension_of_path(path: Seq<char>) -> Option<Seq<char>> {
    match path_file_name_of(path) {
        Some(n) => extension_of_name(n),
        None => None,
    }
}

/// Calls `Path::extension` on the path and takes the extension as text. Its
/// documentation derives it from the file name (named below): the contract
/// states that derivation.
#[verifier::external_body]
fn path_extension(path: &str) -> (r: Option<String>)
    ensures
        match (r, extension_of_path(path@)) {
            (Some(e), Some(v)) => e@ == v,
            (None, None) => true,
            _ => false,
        },
{
    std::path::Path::new(path).extension().and_then(|e| e.to_str()).map(|e| e.to_string())
}

/// Calls `Path::file_name` on the path and takes the name as text. The
/// result is named.
#[verifier::external_body]
fn path_file_name(path: &str) -> (r: Option<String>)
    ensures
        match (r, path_file_name_of(path@)) {
            (Some(n), Some(v)) => n@ == v,
            (None, None) => true,
            _ => false,
        },
{
    std::path::Path::new(path).file_name().map(|n| n.to_string_lossy().into_owned())
}

/// Whether `Path::eq` holds of two paths: whether their components are equal.
pub uninterp spec fn path_eq_of(a: Seq<char>, b: Seq<char>) -> bool;

/// Two paths name the same path: the same text, or equal components.
pub open spec fn same_path(a: Seq<char>, b: Seq<char>) -> bool {
    a == b || path_eq_of(a, b)
}

/// Calls `==` on the two texts taken as `Path`s, which compares them
/// component by component. The result is named; a path equals itself, as
/// `Path` being `Eq` promises.
#[verifier::external_body]
pub(crate) fn paths_equal(a: &str, b: &str) -> (r: bool)
    ensures
        r == path_eq_of(a@, b@),
        a@ == b@ ==> r,
{
    std::path::Path::new(a) == std::path::Path::new(b)
}

/// Calls `str::to_ascii_lowercase`, which maps `A` to `Z` to `a` to `z` and
/// keeps every other character.
#[verifier::external_body]
fn str_to_ascii_lowercase(s: &str) -> (r: String)
    ensures
        r@ == ascii_lower(s@),
{
    s.to_ascii_lowercase()
}

/// The extensions of the formats the picker accepts, in lower case.
pub open spec fn is_image_extension(ext: Seq<char>) -> bool {
    ||| ext == "jpg"@
    ||| ext == "jpeg"@
    ||| ext == "png"@
    ||| ext == "bmp"@
}

/// Whether the picker takes a path: a file whose extension, lower-cased in
/// ASCII, is that of an accepted format.
pub open spec fn image_path_accepted(path: Seq<char>, is_file: bool) -> bool {
    is_file && match extension_of_path(path) {
        Some(e) => is_image_extension(ascii_lower(e)),
        None => false,
    }
}

/// A dropped path is taken when it is a file with a JPEG, PNG or BMP
/// extension in any ASCII case; `is_file` tells whether it is a file.
pub fn is_supported_image_path(path: &str, is_file: bool) -> (r: bool)
    ensures
        r == image_path_accepted(path@, is_file),
{
    if !is_file {
        return false;
    }
    match path_extension(path) {
        Some(e) => {
            let lower = str_to_ascii_lowercase(e.as_str());
            let l = lower.as_str();
            str_equal(l, "jpg") || str_equal(l, "jpeg") || str_equal(l, "png") || str_equal(
                l,
                "bmp",
            )
        },
        None => false,
    }
}

/// The text of the path field: the full path, or a placeholder.
pub fn path_text(path: Option<&str>, lang: Language) -> (r: String)
    ensures
        r@ == (match path {
            Some(p) => p@,
            None => empty_path_text(lang),
        }),
{
    match path {
        Some(p) => String::from_str(p),
        None => String::from_str(lang.empty_path()),
    }
}

/// The name shown in the path field: the file name, or a placeholder when
/// there is no path or it has no file name.
pub fn path_display_name(path: Option<&str>, lang: Language) -> (r: String)
    ensures
        r@ == (match path {
            Some(p) => match path_file_name_of(p@) {
                Some(n) => n,
                None => empty_path_text(lang),
            },
            None => empty_path_text(lang),
        }),
{
    match path {
        Some(p) => match path_file_name(p) {
            Some(n) => n,
            None => String::from_str(lang.empty_path()),
        },
        None => String::from_str(lang.empty_path()),
    }
}

/// A file is taken exactly when its extension, in any ASCII case, is `jpg`,
/// `jpeg`, `png` or `bmp`; a path that is not a file, or has no extension,
/// is refused.
pub proof fn lemma_accepted_image_extensions(path: Seq<char>, is_file: bool)
    ensures
        !is_file ==> !image_path_accepted(path, is_file),
        extension_of_path(path) is None ==> !image_path_accepted(path, is_file),
        is_file && extension_of_path(path) is Some ==> (image_path_accepted(path, is_file) <==> ({
            let l = ascii_lower(extension_of_path(path)->0);
            ||| l == seq!['j', 'p', 'g']
            ||| l == seq!['j', 'p', 'e', 'g']
            ||| l == seq!['p', 'n', 'g']
            ||| l == seq!['b', 'm', 'p']
        })),
{
    reveal_strlit("jpg");
    reveal_strlit("jpeg");
    reveal_strlit("png");
    reveal_strlit("bmp");
    assert("jpg"@ =~= seq!['j', 'p', 'g']);
    assert("jpeg"@ =~= seq!['j', 'p', 'e', 'g']);
    assert("png"@ =~= seq!['p', 'n', 'g']);
    assert("bmp"@ =~= seq!['b', 'm', 'p']);
}

/// `BMP`, `Bmp`, `bmp` and every other ASCII casing of a file's `bmp`
/// extension is taken, as are those of `jpg`, `jpeg` and `png`.
pub proof fn lemma_extension_case_ignored(path: Seq<char>, e: Seq<char>)
    requires
        extension_of_path(path) == Some(e),
        e.len() == 3,
        e[0] == 'b' || e[0] == 'B',
        e[1] == 'm' || e[1] == 'M',
        e[2] == 'p' || e[2] == 'P',
    ensures
        image_path_accepted(path, true),
{
    lemma_accepted_image_extensions(path, true);
    assert(ascii_lower(e) =~= seq!['b', 'm', 'p']);
}

} // verus!
