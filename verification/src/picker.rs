//! The state of the wallpaper picker window: the selection, what was last
//! applied, and whether an apply is running.

use vstd::prelude::*;
use crate::i18n::{
    applying_wallpaper_text, file_no_longer_exists_text, no_changes_to_apply_text,
    no_wallpaper_selected_text, wallpaper_applied_text, Language,
};
use crate::layout::{hiword, loword};
use crate::files::{paths_equal, same_path};
use crate::wallpaper_style::{all_styles, WallpaperStyle};

verus! {

pub struct PickerState {
    pub wallpaper_path: Option<String>,
    pub style: WallpaperStyle,
    pub applied_wallpaper_path: Option<String>,
    pub applied_style: WallpaperStyle,
    pub apply_in_progress: bool,
}

pub struct PickerView {
    pub wallpaper_path: Option<Seq<char>>,
    pub style: WallpaperStyle,
    pub applied_wallpaper_path: Option<Seq<char>>,
    pub applied_style: WallpaperStyle,
    pub apply_in_progress: bool,
}

pub open spec fn opt_string_view(o: Option<String>) -> Option<Seq<char>> {
    match o {
        Some(s) => Some(s@),
        None => None,
    }
}

impl View for PickerState {
    type V = PickerView;

    open spec fn view(&self) -> PickerView {
        PickerView {
            wallpaper_path: opt_string_view(self.wallpaper_path),
            style: self.style,
            applied_wallpaper_path: opt_string_view(self.applied_wallpaper_path),
            applied_style: self.applied_style,
            apply_in_progress: self.apply_in_progress,
        }
    }
}

/// Two optional paths are both absent, or both present and the same path.
pub open spec fn opt_same_path(a: Option<Seq<char>>, b: Option<Seq<char>>) -> bool {
    match (a, b) {
        (Some(x), Some(y)) => same_path(x, y),
        (None, None) => true,
        _ => false,
    }
}

/// Apply is offered when a wallpaper is selected, no apply is running, and
/// the selection differs from what was last applied: another path (paths
/// compared as `Path` compares them) or another style.
pub open spec fn picker_can_apply(s: PickerView) -> bool {
    &&& s.wallpaper_path is Some
    &&& !s.apply_in_progress
    &&& (!opt_same_path(s.wallpaper_path, s.applied_wallpaper_path) || s.style
        != s.applied_style)
}

pub open spec fn picker_select_path(s: PickerView, path: Seq<char>) -> PickerView {
    PickerView { wallpaper_path: Some(path), ..s }
}

/// The state after the combo box reports `index`: a valid index selects the
/// style at that position in registry-code order.
pub open spec fn picker_select_index(s: PickerView, index: int) -> PickerView {
    if 0 <= index < 6 {
        PickerView { style: all_styles()[index], ..s }
    } else {
        s
    }
}

/// How a request to apply was answered.
pub enum ApplyStart {
    NoWallpaper,
    FileMissing,
    Busy,
    NoChanges,
    Started(String, WallpaperStyle),
}

pub enum ApplyStartView {
    NoWallpaper,
    FileMissing,
    Busy,
    NoChanges,
    Started(Seq<char>, WallpaperStyle),
}

impl View for ApplyStart {
    type V = ApplyStartView;

    open spec fn view(&self) -> ApplyStartView {
        match self {
            ApplyStart::NoWallpaper => ApplyStartView::NoWallpaper,
            ApplyStart::FileMissing => ApplyStartView::FileMissing,
            ApplyStart::Busy => ApplyStartView::Busy,
            ApplyStart::NoChanges => ApplyStartView::NoChanges,
            ApplyStart::Started(p, st) => ApplyStartView::Started(p@, *st),
        }
    }
}

/// Applying needs a selected wallpaper whose file still exists, no apply
/// running, and a change; then the apply starts and the state records it.
pub open spec fn picker_begin_apply(s: PickerView, path_is_file: bool) -> (
    PickerView,
    ApplyStartView,
) {
    match s.wallpaper_path {
        None => (s, ApplyStartView::NoWallpaper),
        Some(p) => if !path_is_file {
            (s, ApplyStartView::FileMissing)
        } else if s.apply_in_progress {
            (s, ApplyStartView::Busy)
        } else if !picker_can_apply(s) {
            (s, ApplyStartView::NoChanges)
        } else {
            (PickerView { apply_in_progress: true, ..s }, ApplyStartView::Started(p, s.style))
        },
    }
}

/// The state once an apply of `path` and `style` has ended; on success they
/// become what was last applied.
pub open spec fn picker_finish_apply(
    s: PickerView,
    path: Seq<char>,
    style: WallpaperStyle,
    succeeded: bool,
) -> PickerView {
    if succeeded {
        PickerView {
            apply_in_progress: false,
            applied_wallpaper_path: Some(path),
            applied_style: style,
            ..s
        }
    } else {
        PickerView { apply_in_progress: false, ..s }
    }
}

fn same_optional_path(a: &Option<String>, b: &Option<String>) -> (r: bool)
    ensures
        r == opt_same_path(opt_string_view(*a), opt_string_view(*b)),
{
    match (a, b) {
        (Some(x), Some(y)) => paths_equal(x.as_str(), y.as_str()),
        (None, None) => true,
        _ => false,
    }
}

fn clone_opt_string(a: &Option<String>) -> (r: Option<String>)
    ensures
        opt_string_view(r) == opt_string_view(*a),
{
    match a {
        Some(s) => Some(s.clone()),
        None => None,
    }
}

impl ApplyStart {
    /// The status text for the answer, if the status line changes.
    pub fn status(&self, lang: Language) -> (r: Option<&'static str>)
        ensures
            match self {
                ApplyStart::NoWallpaper => r is Some && r->0@ == no_wallpaper_selected_text(lang),
                ApplyStart::FileMissing => r is Some && r->0@ == file_no_longer_exists_text(lang),
                ApplyStart::Busy => r is None,
                ApplyStart::NoChanges => r is Some && r->0@ == no_changes_to_apply_text(lang),
                ApplyStart::Started(_, _) => r is Some && r->0@ == applying_wallpaper_text(lang),
            },
    {
        match self {
            ApplyStart::NoWallpaper => Some(lang.no_wallpaper_selected()),
            ApplyStart::FileMissing => Some(lang.file_no_longer_exists()),
            ApplyStart::Busy => None,
            ApplyStart::NoChanges => Some(lang.no_changes_to_apply()),
            ApplyStart::Started(_, _) => Some(lang.applying_wallpaper()),
        }
    }
}

impl PickerState {
    /// The state when the picker opens: the policy read from the registry is
    /// both the selection and what is applied; the style defaults to Fill.
    pub fn new(wallpaper_path: Option<String>, style: Option<WallpaperStyle>) -> (r: Self)
        ensures
            r@.wallpaper_path == opt_string_view(wallpaper_path),
            r@.applied_wallpaper_path == opt_string_view(wallpaper_path),
            r@.style == (match style {
                Some(s) => s,
                None => WallpaperStyle::Fill,
            }),
            r@.applied_style == r@.style,
            !r@.apply_in_progress,
    {
        let style = match style {
            Some(s) => s,
            None => WallpaperStyle::Fill,
        };
        let applied = clone_opt_string(&wallpaper_path);
        PickerState {
            wallpaper_path,
            style,
            applied_wallpaper_path: applied,
            applied_style: style,
            apply_in_progress: false,
        }
    }

    /// Whether Apply is enabled.
    pub fn can_apply(&self) -> (r: bool)
        ensures
            r == picker_can_apply(self@),
    {
        self.wallpaper_path.is_some() && !self.apply_in_progress && (!same_optional_path(
            &self.wallpaper_path,
            &self.applied_wallpaper_path,
        ) || self.style != self.applied_style)
    }

    /// Selects a wallpaper file, from the dialog or a drop.
    pub fn select_wallpaper_path(&mut self, path: String)
        ensures
            final(self)@ == picker_select_path(old(self)@, path@),
    {
        self.wallpaper_path = Some(path);
    }

    /// Takes the combo box selection; returns whether the style changed.
    pub fn select_style_index(&mut self, index: isize) -> (changed: bool)
        ensures
            final(self)@ == picker_select_index(old(self)@, index as int),
            changed == (final(self)@.style != old(self)@.style),
    {
        if index < 0 {
            return false;
        }
        let all = WallpaperStyle::all();
        if index as usize >= all.len() {
            return false;
        }
        let style = all[index as usize];
        if self.style == style {
            return false;
        }
        self.style = style;
        true
    }

    /// Answers a click on Apply; `path_is_file` says whether the selected
    /// file still exists.
    pub fn begin_apply(&mut self, path_is_file: bool) -> (r: ApplyStart)
        ensures
            (final(self)@, r@) == picker_begin_apply(old(self)@, path_is_file),
    {
        let path = match &self.wallpaper_path {
            None => return ApplyStart::NoWallpaper,
            Some(p) => p.clone(),
        };
        if !path_is_file {
            return ApplyStart::FileMissing;
        }
        if self.apply_in_progress {
            return ApplyStart::Busy;
        }
        if !self.can_apply() {
            return ApplyStart::NoChanges;
        }
        self.apply_in_progress = true;
        ApplyStart::Started(path, self.style)
    }

    /// Records the end of an apply and gives the status text.
    pub fn finish_apply(
        &mut self,
        path: String,
        style: WallpaperStyle,
        result: Result<(), String>,
        lang: Language,
    ) -> (status: String)
        ensures
            final(self)@ == picker_finish_apply(old(self)@, path@, style, result is Ok),
            match result {
                Ok(()) => status@ == wallpaper_applied_text(lang),
                Err(e) => status@ == e@,
            },
    {
        self.apply_in_progress = false;
        match result {
            Ok(()) => {
                self.applied_wallpaper_path = Some(path);
                self.applied_style = style;
                String::from_str(lang.wallpaper_applied())
            },
            Err(e) => e,
        }
    }
}

/// Control identifiers of the picker window.
pub const ID_BROWSE: isize = 1001;
pub const ID_STYLE: isize = 1002;
pub const ID_APPLY: isize = 1003;
pub const ID_CLOSE: isize = 1004;

/// The combo box notification for a new selection.
pub const CBN_SELCHANGE: u32 = 1;

/// What a `WM_COMMAND` message asks of the picker.
#[derive(Debug, Clone, Copy, PartialEq, Eq, Structural)]
pub enum UiCommand {
    Browse,
    StyleChanged,
    Apply,
    Close,
}

/// The command of a control, from the identifier and the notification code.
pub open spec fn command_of(id: int, notification: int) -> Option<UiCommand> {
    if id == ID_BROWSE {
        Some(UiCommand::Browse)
    } else if id == ID_STYLE && notification == CBN_SELCHANGE {
        Some(UiCommand::StyleChanged)
    } else if id == ID_APPLY {
        Some(UiCommand::Apply)
    } else if id == ID_CLOSE {
        Some(UiCommand::Close)
    } else {
        None
    }
}

/// Decodes a `WM_COMMAND` word parameter: the control identifier in the low
/// word, the notification code in the high word.
pub fn command_for(wparam: usize) -> (r: Option<UiCommand>)
    ensures
        r == command_of(wparam as int % 0x10000, (wparam as int / 0x10000) % 0x10000),
{
    let id = loword(wparam) as isize;
    let notification = hiword(wparam) as u32;
    if id == ID_BROWSE {
        Some(UiCommand::Browse)
    } else if id == ID_STYLE && notification == CBN_SELCHANGE {
        Some(UiCommand::StyleChanged)
    } else if id == ID_APPLY {
        Some(UiCommand::Apply)
    } else if id == ID_CLOSE {
        Some(UiCommand::Close)
    } else {
        None
    }
}

/// Apply is offered only with a wallpaper selected and no apply running.
pub proof fn lemma_can_apply_needs_selection(s: PickerView)
    requires
        picker_can_apply(s),
    ensures
        s.wallpaper_path is Some,
        !s.apply_in_progress,
{
}

/// An apply that starts blocks a second one until it ends.
pub proof fn lemma_no_second_apply(s: PickerView, is_file: bool, again: bool)
    requires
        picker_begin_apply(s, is_file).1 is Started,
    ensures
        picker_begin_apply(s, is_file).0.apply_in_progress,
        !picker_can_apply(picker_begin_apply(s, is_file).0),
        !(picker_begin_apply(picker_begin_apply(s, is_file).0, again).1 is Started),
{
}

/// Once the started apply succeeds, with the selection unchanged, there is
/// nothing left to apply.
pub proof fn lemma_success_settles(s: PickerView, is_file: bool)
    requires
        picker_begin_apply(s, is_file).1 is Started,
    ensures
        ({
            let started = picker_begin_apply(s, is_file);
            let p = started.1->Started_0;
            let st = started.1->Started_1;
            !picker_can_apply(picker_finish_apply(started.0, p, st, true))
        }),
{
}

/// A failed apply leaves what was applied as it was, and offers Apply again.
pub proof fn lemma_failure_offers_retry(s: PickerView, is_file: bool)
    requires
        picker_begin_apply(s, is_file).1 is Started,
    ensures
        ({
            let started = picker_begin_apply(s, is_file);
            let p = started.1->Started_0;
            let st = started.1->Started_1;
            let after = picker_finish_apply(started.0, p, st, false);
            after.applied_wallpaper_path == s.applied_wallpaper_path
                && after.applied_style == s.applied_style && picker_can_apply(after)
        }),
{
}

/// Selecting a wallpaper that is not the same path as the applied one
/// offers Apply, unless an apply is running.
pub proof fn lemma_new_selection_offers_apply(s: PickerView, path: Seq<char>)
    requires
        !s.apply_in_progress,
        !opt_same_path(Some(path), s.applied_wallpaper_path),
    ensures
        picker_can_apply(picker_select_path(s, path)),
{
}

/// The combo box lists the styles as Center, Tile, Stretch, Fit, Fill, Span:
/// each of its six entries selects that style, whatever the state, and
/// leaves the rest of the state as it was; any other index changes nothing.
pub proof fn lemma_combo_entries_select_their_style(s: PickerView, index: int)
    ensures
        index == 0 ==> picker_select_index(s, index).style == WallpaperStyle::Center,
        index == 1 ==> picker_select_index(s, index).style == WallpaperStyle::Tile,
        index == 2 ==> picker_select_index(s, index).style == WallpaperStyle::Stretch,
        index == 3 ==> picker_select_index(s, index).style == WallpaperStyle::Fit,
        index == 4 ==> picker_select_index(s, index).style == WallpaperStyle::Fill,
        index == 5 ==> picker_select_index(s, index).style == WallpaperStyle::Span,
        !(0 <= index < 6) ==> picker_select_index(s, index) == s,
        picker_select_index(s, index).wallpaper_path == s.wallpaper_path,
        picker_select_index(s, index).applied_wallpaper_path == s.applied_wallpaper_path,
        picker_select_index(s, index).applied_style == s.applied_style,
        picker_select_index(s, index).apply_in_progress == s.apply_in_progress,
{
}

/// Every style can be chosen from the combo box, whatever the state.
pub proof fn lemma_every_style_can_be_chosen(s: PickerView, style: WallpaperStyle)
    ensures
        exists|index: int| 0 <= index < 6 && #[trigger] picker_select_index(s, index).style == style,
{
    lemma_combo_entries_select_their_style(s, 0);
    lemma_combo_entries_select_their_style(s, 1);
    lemma_combo_entries_select_their_style(s, 2);
    lemma_combo_entries_select_their_style(s, 3);
    lemma_combo_entries_select_their_style(s, 4);
    lemma_combo_entries_select_their_style(s, 5);
}

} // verus!
