//! The application state and its reducer.
//!
//! The reducer is a pure function: it consumes one action and yields the
//! next state together with at most one [`Effect`], a description of the
//! filesystem work the action calls for.  The embedding program performs
//! the effect and feeds its outcome back in as a further action
//! ([`Action::DirLoaded`], [`Action::ListingReloaded`],
//! [`Action::ModeLoaded`]), so no transition ever blocks on the
//! filesystem.

use vstd::prelude::*;

use crate::entries::FsEntry;
use crate::path::FsPath;
use crate::preview::PreviewContent;
use crate::preview::PreviewState;

verus! {

#[derive(Clone, Copy, PartialEq, Eq, Structural)]
pub enum ClipboardOp {
    Copy,
}

#[derive(Clone, Copy, PartialEq, Eq, Structural)]
pub enum ActiveFocus {
    FileList,
    Preview,
}

/// The permission editor's state: closed, or editing the mode bits of one
/// path with the cell cursor somewhere on the three-by-three grid.
pub enum PopupState {
    Closed,
    Chmod { path: FsPath, mode: u32, cursor_idx: usize },
}

/// Everything the browser shows and reacts to.
pub struct AppState {
    pub cwd: FsPath,
    pub entries: Vec<FsEntry>,
    pub cursor: usize,
    pub selected: Vec<FsPath>,
    pub preview: PreviewState,
    pub clipboard: Option<(ClipboardOp, Vec<FsPath>)>,
    pub active_focus: ActiveFocus,
    pub preview_scroll: usize,
    pub popup: PopupState,
}

/// One step of input, or the reported outcome of an effect.
pub enum Action {
    CursorMoveUp,
    CursorMoveDown,
    RequestPreview(FsPath),
    ToggleSelect,
    EnterDir,
    GoBack,
    PreviewReady(PreviewContent),
    PreviewError { path: FsPath, error: String },
    Yank,
    Paste,
    Delete,
    Chmod,
    Open,
    SwitchFocus,
    ScrollPreviewUp,
    ScrollPreviewDown,
    ScrollPreviewPageUp,
    ScrollPreviewPageDown,
    PopupUp,
    PopupDown,
    PopupLeft,
    PopupRight,
    PopupToggle,
    PopupSubmit,
    PopupCancel,
    DirLoaded { path: FsPath, entries: Vec<FsEntry> },
    ListingReloaded { entries: Vec<FsEntry> },
    ModeLoaded { path: FsPath, mode: u32 },
}

/// The filesystem work that one reduction step asks for.
pub enum Effect {
    /// Read the directory's listing; on success report it back as
    /// [`Action::DirLoaded`], on failure report nothing.
    LoadDir { path: FsPath },
    /// Copy each source, recursively, to its destination, ignoring
    /// per-item failures; then reread the current directory and report
    /// it as [`Action::ListingReloaded`].
    CopyEntries { pairs: Vec<(FsPath, FsPath)> },
    /// Delete each path, recursively, ignoring per-item failures; then
    /// reread the current directory and report it as
    /// [`Action::ListingReloaded`].
    DeleteEntries { paths: Vec<FsPath> },
    /// Read the path's mode bits; on success report them back as
    /// [`Action::ModeLoaded`], on failure report nothing.
    QueryMode { path: FsPath },
    /// Set the path's mode bits, ignoring failure; then reread the
    /// current directory and report it as [`Action::ListingReloaded`].
    ApplyMode { path: FsPath, mode: u32 },
    /// Hand the path to the platform's default opener, ignoring the
    /// outcome.
    OpenExternal { path: FsPath },
}

pub open spec fn no_dup_paths(s: Seq<FsPath>) -> bool {
    forall|i: int, j: int| 0 <= i < j < s.len() ==> s[i]@ != s[j]@
}

/// Whether a path is among the selected ones.
pub open spec fn sel_contains(s: Seq<FsPath>, p: Seq<Seq<char>>) -> bool {
    exists|i: int| 0 <= i < s.len() && s[i]@ == p
}

/// The selection as a set of paths.
pub open spec fn sel_set(s: Seq<FsPath>) -> Set<Seq<Seq<char>>> {
    Set::new(|p: Seq<Seq<char>>| sel_contains(s, p))
}

/// The entry under the cursor, if the list has one there.
pub open spec fn cursor_entry(s: AppState) -> Option<FsEntry> {
    if s.cursor < s.entries.len() {
        Some(s.entries[s.cursor as int])
    } else {
        None
    }
}

/// The paths a Yank or Delete acts on: the selection when it is
/// non-empty, else the entry under the cursor alone, else nothing.
pub open spec fn target_paths(s: AppState) -> Seq<Seq<Seq<char>>> {
    if s.selected.len() > 0 {
        s.selected.deep_view()
    } else {
        match cursor_entry(s) {
            Some(e) => seq![e.path@],
            None => Seq::empty(),
        }
    }
}

/// Where a pasted source lands: under the current directory, keeping its
/// base name (the empty name for the root).
pub open spec fn paste_dest(cwd: Seq<Seq<char>>, src: Seq<Seq<char>>) -> Seq<Seq<char>> {
    cwd.push(if src.len() > 0 { src.last() } else { Seq::empty() })
}

/// The POSIX permission bit of grid cell `i`: row `i / 3` is owner,
/// group, other; column `i % 3` is read, write, execute.
pub open spec fn perm_bit(i: usize) -> u32 {
    if i == 0 {
        0o400
    } else if i == 1 {
        0o200
    } else if i == 2 {
        0o100
    } else if i == 3 {
        0o040
    } else if i == 4 {
        0o020
    } else if i == 5 {
        0o010
    } else if i == 6 {
        0o004
    } else if i == 7 {
        0o002
    } else if i == 8 {
        0o001
    } else {
        0
    }
}

pub open spec fn frame_nav(a: AppState, b: AppState) -> bool {
    b.cwd == a.cwd && b.entries == a.entries && b.cursor == a.cursor
}

pub open spec fn frame_sel(a: AppState, b: AppState) -> bool {
    b.selected == a.selected
}

pub open spec fn frame_clip(a: AppState, b: AppState) -> bool {
    b.clipboard == a.clipboard
}

pub open spec fn frame_preview(a: AppState, b: AppState) -> bool {
    b.preview == a.preview && b.preview_scroll == a.preview_scroll
}

pub open spec fn frame_focus(a: AppState, b: AppState) -> bool {
    b.active_focus == a.active_focus
}

pub open spec fn frame_popup(a: AppState, b: AppState) -> bool {
    b.popup == a.popup
}

/// All fields but the navigation triple are kept.
pub open spec fn frame_all_but_nav(a: AppState, b: AppState) -> bool {
    frame_sel(a, b) && frame_clip(a, b) && frame_preview(a, b) && frame_focus(a, b) && frame_popup(
        a,
        b,
    )
}

pub open spec fn step_cursor_up(pre: AppState, post: AppState) -> bool {
    if pre.active_focus == ActiveFocus::FileList && pre.cursor > 0 {
        &&& frame_all_but_nav(pre, post)
        &&& post.cwd == pre.cwd
        &&& post.entries == pre.entries
        &&& post.cursor == pre.cursor - 1
    } else {
        post == pre
    }
}

pub open spec fn step_cursor_down(pre: AppState, post: AppState) -> bool {
    if pre.active_focus == ActiveFocus::FileList && pre.cursor + 1 < pre.entries.len() {
        &&& frame_all_but_nav(pre, post)
        &&& post.cwd == pre.cwd
        &&& post.entries == pre.entries
        &&& post.cursor == pre.cursor + 1
    } else {
        post == pre
    }
}

pub open spec fn step_enter_dir(pre: AppState, post: AppState, r: Option<Effect>) -> bool {
    &&& post == pre
    &&& match cursor_entry(pre) {
        Some(e) => if e.is_dir && e.path@ != pre.cwd@ {
            r matches Some(Effect::LoadDir { path }) && path@ == e.path@
        } else {
            r is None
        },
        None => r is None,
    }
}

pub open spec fn step_go_back(pre: AppState, post: AppState, r: Option<Effect>) -> bool {
    &&& post == pre
    &&& if pre.cwd@.len() > 0 {
        r matches Some(Effect::LoadDir { path }) && path@ == pre.cwd@.drop_last()
    } else {
        r is None
    }
}

pub open spec fn step_request_preview(pre: AppState, post: AppState, p: FsPath) -> bool {
    &&& frame_nav(pre, post)
    &&& frame_sel(pre, post)
    &&& frame_clip(pre, post)
    &&& frame_focus(pre, post)
    &&& frame_popup(pre, post)
    &&& post.preview == (PreviewState::Loading { path: p })
    &&& post.preview_scroll == 0
}

pub open spec fn step_toggle_select(pre: AppState, post: AppState) -> bool {
    match cursor_entry(pre) {
        Some(e) => {
            &&& frame_nav(pre, post)
            &&& frame_clip(pre, post)
            &&& frame_preview(pre, post)
            &&& frame_focus(pre, post)
            &&& frame_popup(pre, post)
            &&& sel_set(post.selected@) == (if sel_contains(pre.selected@, e.path@) {
                sel_set(pre.selected@).remove(e.path@)
            } else {
                sel_set(pre.selected@).insert(e.path@)
            })
        },
        None => post == pre,
    }
}

pub open spec fn step_yank(pre: AppState, post: AppState) -> bool {
    &&& frame_nav(pre, post)
    &&& frame_preview(pre, post)
    &&& frame_focus(pre, post)
    &&& frame_popup(pre, post)
    &&& if target_paths(pre).len() > 0 {
        &&& (post.clipboard matches Some(c) && c.0 == ClipboardOp::Copy && c.1.deep_view()
            == target_paths(pre))
        &&& post.selected@.len() == 0
    } else {
        frame_clip(pre, post) && frame_sel(pre, post)
    }
}

pub open spec fn step_paste(pre: AppState, post: AppState, r: Option<Effect>) -> bool {
    &&& post == pre
    &&& match pre.clipboard {
        Some(c) => r matches Some(Effect::CopyEntries { pairs }) && pairs@.len() == c.1@.len()
            && (forall|i: int|
            0 <= i < pairs@.len() ==> (#[trigger] pairs@[i]).0@ == c.1@[i]@ && pairs@[i].1@
                == paste_dest(pre.cwd@, c.1@[i]@)),
        None => r is None,
    }
}

pub open spec fn step_delete(pre: AppState, post: AppState, r: Option<Effect>) -> bool {
    &&& frame_nav(pre, post)
    &&& frame_preview(pre, post)
    &&& frame_clip(pre, post)
    &&& frame_focus(pre, post)
    &&& frame_popup(pre, post)
    &&& post.selected@.len() == 0
    &&& (r matches Some(Effect::DeleteEntries { paths }) && paths.deep_view() == target_paths(
        pre,
    ))
}

pub open spec fn step_chmod(pre: AppState, post: AppState, r: Option<Effect>) -> bool {
    &&& post == pre
    &&& if pre.popup is Closed {
        match cursor_entry(pre) {
            Some(e) => r matches Some(Effect::QueryMode { path }) && path@ == e.path@,
            None => r is None,
        }
    } else {
        r is None
    }
}

pub open spec fn step_open(pre: AppState, post: AppState, r: Option<Effect>) -> bool {
    &&& post == pre
    &&& match cursor_entry(pre) {
        Some(e) => r matches Some(Effect::OpenExternal { path }) && path@ == e.path@,
        None => r is None,
    }
}

pub open spec fn step_preview_ready(pre: AppState, post: AppState, c: PreviewContent) -> bool {
    &&& frame_nav(pre, post)
    &&& frame_sel(pre, post)
    &&& frame_clip(pre, post)
    &&& frame_focus(pre, post)
    &&& frame_popup(pre, post)
    &&& post.preview == PreviewState::Ready(c)
    &&& post.preview_scroll == pre.preview_scroll
}

pub open spec fn step_preview_error(
    pre: AppState,
    post: AppState,
    p: FsPath,
    msg: String,
) -> bool {
    &&& frame_nav(pre, post)
    &&& frame_sel(pre, post)
    &&& frame_clip(pre, post)
    &&& frame_focus(pre, post)
    &&& frame_popup(pre, post)
    &&& post.preview == (PreviewState::Error { path: p, message: msg })
    &&& post.preview_scroll == pre.preview_scroll
}

pub open spec fn step_switch_focus(pre: AppState, post: AppState) -> bool {
    &&& frame_nav(pre, post)
    &&& frame_sel(pre, post)
    &&& frame_clip(pre, post)
    &&& frame_preview(pre, post)
    &&& frame_popup(pre, post)
    &&& post.active_focus == (if pre.active_focus == ActiveFocus::FileList {
        ActiveFocus::Preview
    } else {
        ActiveFocus::FileList
    })
}

/// A scroll step: the offset becomes `to` when the preview has focus,
/// and nothing else moves.
pub open spec fn step_scroll(pre: AppState, post: AppState, to: usize) -> bool {
    if pre.active_focus == ActiveFocus::Preview {
        &&& frame_nav(pre, post)
        &&& frame_sel(pre, post)
        &&& frame_clip(pre, post)
        &&& frame_focus(pre, post)
        &&& frame_popup(pre, post)
        &&& post.preview == pre.preview
        &&& post.preview_scroll == to
    } else {
        post == pre
    }
}

/// A move of the permission editor's cell cursor to `to`; without an
/// open editor nothing happens.
pub open spec fn step_popup_cursor(pre: AppState, post: AppState, to: usize) -> bool {
    match pre.popup {
        PopupState::Chmod { path, mode, cursor_idx } => {
            &&& frame_nav(pre, post)
            &&& frame_sel(pre, post)
            &&& frame_clip(pre, post)
            &&& frame_preview(pre, post)
            &&& frame_focus(pre, post)
            &&& post.popup == (PopupState::Chmod { path, mode, cursor_idx: to })
        },
        PopupState::Closed => post == pre,
    }
}

pub open spec fn popup_up_target(i: usize) -> usize {
    if i >= 3 {
        (i - 3) as usize
    } else {
        i
    }
}

pub open spec fn popup_down_target(i: usize) -> usize {
    if i < 6 {
        (i + 3) as usize
    } else {
        i
    }
}

pub open spec fn popup_left_target(i: usize) -> usize {
    if i % 3 > 0 {
        (i - 1) as usize
    } else {
        i
    }
}

pub open spec fn popup_right_target(i: usize) -> usize {
    if i % 3 < 2 {
        (i + 1) as usize
    } else {
        i
    }
}

pub open spec fn step_popup_toggle(pre: AppState, post: AppState) -> bool {
    match pre.popup {
        PopupState::Chmod { path, mode, cursor_idx } => {
            &&& frame_nav(pre, post)
            &&& frame_sel(pre, post)
            &&& frame_clip(pre, post)
            &&& frame_preview(pre, post)
            &&& frame_focus(pre, post)
            &&& post.popup == (PopupState::Chmod {
                path,
                mode: if perm_bit(cursor_idx) != 0 {
                    mode ^ perm_bit(cursor_idx)
                } else {
                    mode
                },
                cursor_idx,
            })
        },
        PopupState::Closed => post == pre,
    }
}

pub open spec fn step_popup_submit(pre: AppState, post: AppState, r: Option<Effect>) -> bool {
    &&& frame_nav(pre, post)
    &&& frame_sel(pre, post)
    &&& frame_clip(pre, post)
    &&& frame_preview(pre, post)
    &&& frame_focus(pre, post)
    &&& post.popup is Closed
    &&& match pre.popup {
        PopupState::Chmod { path, mode, cursor_idx } => r matches Some(Effect::ApplyMode {
            path: p,
            mode: m,
        }) && p@ == path@ && m == mode,
        PopupState::Closed => r is None,
    }
}

pub open spec fn step_popup_cancel(pre: AppState, post: AppState) -> bool {
    &&& frame_nav(pre, post)
    &&& frame_sel(pre, post)
    &&& frame_clip(pre, post)
    &&& frame_preview(pre, post)
    &&& frame_focus(pre, post)
    &&& post.popup is Closed
}

pub open spec fn step_dir_loaded(
    pre: AppState,
    post: AppState,
    path: FsPath,
    entries: Seq<FsEntry>,
) -> bool {
    &&& frame_sel(pre, post)
    &&& frame_clip(pre, post)
    &&& frame_focus(pre, post)
    &&& frame_popup(pre, post)
    &&& post.cwd == path
    &&& post.entries@ == entries
    &&& post.cursor == 0
    &&& post.preview is Empty
    &&& post.preview_scroll == 0
}

/// After a reload the cursor is clamped so the state's bounds invariant
/// holds of the fresh listing.
pub open spec fn step_listing_reloaded(
    pre: AppState,
    post: AppState,
    entries: Seq<FsEntry>,
) -> bool {
    &&& frame_sel(pre, post)
    &&& frame_clip(pre, post)
    &&& frame_preview(pre, post)
    &&& frame_focus(pre, post)
    &&& frame_popup(pre, post)
    &&& post.cwd == pre.cwd
    &&& post.entries@ == entries
    &&& post.cursor == (if entries.len() == 0 {
        0
    } else if pre.cursor < entries.len() {
        pre.cursor as int
    } else {
        entries.len() - 1
    })
}

pub open spec fn step_mode_loaded(
    pre: AppState,
    post: AppState,
    path: FsPath,
    mode: u32,
) -> bool {
    if pre.popup is Closed {
        &&& frame_nav(pre, post)
        &&& frame_sel(pre, post)
        &&& frame_clip(pre, post)
        &&& frame_preview(pre, post)
        &&& frame_focus(pre, post)
        &&& post.popup == (PopupState::Chmod { path, mode, cursor_idx: 0 })
    } else {
        post == pre
    }
}

/// The reducer's transition relation, one case per action.
pub open spec fn reduce_spec(
    pre: AppState,
    action: Action,
    post: AppState,
    r: Option<Effect>,
) -> bool {
    match action {
        Action::CursorMoveUp => r is None && step_cursor_up(pre, post),
        Action::CursorMoveDown => r is None && step_cursor_down(pre, post),
        Action::RequestPreview(p) => r is None && step_request_preview(pre, post, p),
        Action::ToggleSelect => r is None && step_toggle_select(pre, post),
        Action::EnterDir => step_enter_dir(pre, post, r),
        Action::GoBack => step_go_back(pre, post, r),
        Action::PreviewReady(c) => r is None && step_preview_ready(pre, post, c),
        Action::PreviewError { path, error } => r is None && step_preview_error(
            pre,
            post,
            path,
            error,
        ),
        Action::Yank => r is None && step_yank(pre, post),
        Action::Paste => step_paste(pre, post, r),
        Action::Delete => step_delete(pre, post, r),
        Action::Chmod => step_chmod(pre, post, r),
        Action::Open => step_open(pre, post, r),
        Action::SwitchFocus => r is None && step_switch_focus(pre, post),
        Action::ScrollPreviewUp => r is None && step_scroll(
            pre,
            post,
            (if pre.preview_scroll > 0 {
                (pre.preview_scroll - 1) as usize
            } else {
                0
            }),
        ),
        Action::ScrollPreviewDown => r is None && step_scroll(
            pre,
            post,
            pre.preview_scroll.saturating_add(1),
        ),
        Action::ScrollPreviewPageUp => r is None && step_scroll(
            pre,
            post,
            pre.preview_scroll.saturating_sub(10),
        ),
        Action::ScrollPreviewPageDown => r is None && step_scroll(
            pre,
            post,
            pre.preview_scroll.saturating_add(10),
        ),
        Action::PopupUp => r is None && step_popup_cursor(
            pre,
            post,
            popup_up_target(popup_cursor_of(pre)),
        ),
        Action::PopupDown => r is None && step_popup_cursor(
            pre,
            post,
            popup_down_target(popup_cursor_of(pre)),
        ),
        Action::PopupLeft => r is None && step_popup_cursor(
            pre,
            post,
            popup_left_target(popup_cursor_of(pre)),
        ),
        Action::PopupRight => r is None && step_popup_cursor(
            pre,
            post,
            popup_right_target(popup_cursor_of(pre)),
        ),
        Action::PopupToggle => r is None && step_popup_toggle(pre, post),
        Action::PopupSubmit => step_popup_submit(pre, post, r),
        Action::PopupCancel => r is None && step_popup_cancel(pre, post),
        Action::DirLoaded { path, entries } => r is None && step_dir_loaded(
            pre,
            post,
            path,
            entries@,
        ),
        Action::ListingReloaded { entries } => r is None && step_listing_reloaded(
            pre,
            post,
            entries@,
        ),
        Action::ModeLoaded { path, mode } => r is None && step_mode_loaded(pre, post, path, mode),
    }
}

/// The permission editor's cell cursor, or 0 when it is closed.
pub open spec fn popup_cursor_of(s: AppState) -> usize {
    match s.popup {
        PopupState::Chmod { cursor_idx, .. } => cursor_idx,
        PopupState::Closed => 0,
    }
}

impl AppState {
    /// Well-formedness: the cursor stays within the listing (and sits at 0
    /// on an empty one), no path is selected twice, and an open permission
    /// editor's cell cursor stays on the grid.
    pub open spec fn wf(self) -> bool {
        &&& (self.entries.len() == 0 ==> self.cursor == 0)
        &&& (self.entries.len() > 0 ==> self.cursor < self.entries.len())
        &&& no_dup_paths(self.selected@)
        &&& (self.popup matches PopupState::Chmod { cursor_idx, .. } ==> cursor_idx < 9)
    }

    /// A fresh state showing the given directory, with nothing selected,
    /// copied, previewed or popped up.
    pub fn new(cwd: FsPath, entries: Vec<FsEntry>) -> (s: AppState)
        ensures
            s.wf(),
            s.cwd == cwd,
            s.entries == entries,
            s.cursor == 0,
            s.selected@.len() == 0,
            s.preview is Empty,
            s.clipboard is None,
            s.active_focus == ActiveFocus::FileList,
            s.preview_scroll == 0,
            s.popup is Closed,
    {
        AppState {
            cwd,
            entries,
            cursor: 0,
            selected: Vec::new(),
            preview: PreviewState::Empty,
            clipboard: None,
            active_focus: ActiveFocus::FileList,
            preview_scroll: 0,
            popup: PopupState::Closed,
        }
    }
}

/// A consumer of actions: the application state, or a test double.
pub trait Reducer: Sized {
    /// The invariant that every reduction step preserves.
    spec fn inv(&self) -> bool;

    /// The implementor's transition relation.
    spec fn transition(pre: Self, action: Action, post: Self, r: Option<Effect>) -> bool;

    /// Consumes one action; yields the filesystem work it calls for.
    fn reduce(&mut self, action: Action) -> (r: Option<Effect>)
        requires
            old(self).inv(),
        ensures
            final(self).inv(),
            Self::transition(*old(self), action, *final(self), r),
    ;
}

/// Finds a path in the selection.
fn find_path(v: &Vec<FsPath>, p: &FsPath) -> (r: Option<usize>)
    ensures
        match r {
            Some(i) => i < v.len() && v@[i as int]@ == p@,
            None => !sel_contains(v@, p@),
        },
{
    let mut i: usize = 0;
    while i < v.len()
        invariant
            i <= v.len(),
            forall|j: int| 0 <= j < i ==> v@[j]@ != p@,
        decreases v.len() - i,
    {
        if v[i].same_path(p) {
            return Some(i);
        }
        i += 1;
    }
    None
}

proof fn lemma_sel_push(s: Seq<FsPath>, q: FsPath)
    requires
        !sel_contains(s, q@),
        no_dup_paths(s),
    ensures
        sel_set(s.push(q)) == sel_set(s).insert(q@),
        no_dup_paths(s.push(q)),
{
    assert forall|x: Seq<Seq<char>>|
        sel_set(s.push(q)).contains(x) == sel_set(s).insert(q@).contains(x) by {
        if sel_contains(s.push(q), x) {
            let i = choose|i: int| 0 <= i < s.push(q).len() && s.push(q)[i]@ == x;
            if i < s.len() {
                assert(sel_contains(s, x));
            } else {
                assert(x == q@);
            }
        }
        if sel_contains(s, x) {
            let i = choose|i: int| 0 <= i < s.len() && s[i]@ == x;
            assert(s.push(q)[i]@ == x);
            assert(sel_contains(s.push(q), x));
        }
        if x == q@ {
            assert(s.push(q)[s.len() as int]@ == x);
            assert(sel_contains(s.push(q), x));
        }
    }
    assert(sel_set(s.push(q)) =~= sel_set(s).insert(q@));
}

proof fn lemma_sel_remove(s: Seq<FsPath>, i: int)
    requires
        0 <= i < s.len(),
        no_dup_paths(s),
    ensures
        sel_set(s.remove(i)) == sel_set(s).remove(s[i]@),
        no_dup_paths(s.remove(i)),
{
    let t = s.remove(i);
    assert forall|x: Seq<Seq<char>>| sel_set(t).contains(x) == sel_set(s).remove(s[i]@).contains(
        x,
    ) by {
        if sel_contains(t, x) {
            let j = choose|j: int| 0 <= j < t.len() && t[j]@ == x;
            if j < i {
                assert(s[j]@ == x);
                assert(sel_contains(s, x));
            } else {
                assert(s[j + 1]@ == x);
                assert(sel_contains(s, x));
            }
        }
        if sel_contains(s, x) && x != s[i]@ {
            let j = choose|j: int| 0 <= j < s.len() && s[j]@ == x;
            if j < i {
                assert(t[j]@ == x);
                assert(sel_contains(t, x));
            } else {
                assert(t[j - 1]@ == x);
                assert(sel_contains(t, x));
            }
        }
    }
    assert(sel_set(t) =~= sel_set(s).remove(s[i]@));
}

impl Reducer for AppState {
    open spec fn inv(&self) -> bool {
        self.wf()
    }

    open spec fn transition(pre: AppState, action: Action, post: AppState, r: Option<Effect>) -> bool {
        reduce_spec(pre, action, post, r)
    }

    fn reduce(&mut self, action: Action) -> (r: Option<Effect>) {
        match action {
            Action::CursorMoveUp => {
                if self.active_focus == ActiveFocus::FileList && self.cursor > 0 {
                    self.cursor = self.cursor - 1;
                }
                None
            },
            Action::CursorMoveDown => {
                if self.active_focus == ActiveFocus::FileList && self.cursor + 1
                    < self.entries.len() {
                    self.cursor = self.cursor + 1;
                }
                None
            },
            Action::RequestPreview(p) => {
                self.preview = PreviewState::Loading { path: p };
                self.preview_scroll = 0;
                None
            },
            Action::ToggleSelect => {
                if self.cursor < self.entries.len() {
                    let ghost pre_sel = self.selected@;
                    let p = &self.entries[self.cursor].path;
                    match find_path(&self.selected, p) {
                        Some(i) => {
                            self.selected.remove(i);
                            proof {
                                assert(sel_contains(pre_sel, p@)) by {
                                    assert(pre_sel[i as int]@ == p@);
                                }
                                lemma_sel_remove(pre_sel, i as int);
                            }
                        },
                        None => {
                            let q = p.clone();
                            self.selected.push(q);
                            proof {
                                lemma_sel_push(pre_sel, q);
                            }
                        },
                    }
                }
                None
            },
            Action::EnterDir => {
                if self.cursor < self.entries.len() {
                    if self.entries[self.cursor].is_dir {
                        let p = self.entries[self.cursor].path.clone();
                        if !p.same_path(&self.cwd) {
                            return Some(Effect::LoadDir { path: p });
                        }
                    }
                }
                None
            },
            Action::GoBack => {
                match self.cwd.parent() {
                    Some(p) => Some(Effect::LoadDir { path: p }),
                    None => None,
                }
            },
            Action::PreviewReady(c) => {
                self.preview = PreviewState::Ready(c);
                None
            },
            Action::PreviewError { path, error } => {
                self.preview = PreviewState::Error { path, message: error };
                None
            },
            Action::Yank => {
                if self.selected.len() > 0 {
                    let mut taken: Vec<FsPath> = Vec::new();
                    core::mem::swap(&mut self.selected, &mut taken);
                    self.clipboard = Some((ClipboardOp::Copy, taken));
                } else if self.cursor < self.entries.len() {
                    let mut one: Vec<FsPath> = Vec::new();
                    one.push(self.entries[self.cursor].path.clone());
                    self.clipboard = Some((ClipboardOp::Copy, one));
                    proof {
                        assert(one.deep_view() =~= target_paths(*old(self)));
                    }
                }
                None
            },
            Action::Paste => {
                match &self.clipboard {
                    Some((op, srcs)) => {
                        match op {
                            ClipboardOp::Copy => {},
                        }
                        let mut pairs: Vec<(FsPath, FsPath)> = Vec::new();
                        let mut i: usize = 0;
                        while i < srcs.len()
                            invariant
                                i <= srcs.len(),
                                pairs@.len() == i,
                                forall|j: int|
                                    0 <= j < i ==> (#[trigger] pairs@[j]).0@ == srcs@[j]@
                                        && pairs@[j].1@ == paste_dest(self.cwd@, srcs@[j]@),
                            decreases srcs.len() - i,
                        {
                            let src = srcs[i].clone();
                            let base = match src.file_name() {
                                Some(n) => n.clone(),
                                None => String::new(),
                            };
                            let dest = self.cwd.child(base);
                            pairs.push((src, dest));
                            i += 1;
                        }
                        Some(Effect::CopyEntries { pairs })
                    },
                    None => None,
                }
            },
            Action::Delete => {
                let mut paths: Vec<FsPath> = Vec::new();
                if self.selected.len() > 0 {
                    core::mem::swap(&mut self.selected, &mut paths);
                } else if self.cursor < self.entries.len() {
                    paths.push(self.entries[self.cursor].path.clone());
                    proof {
                        assert(paths.deep_view() =~= target_paths(*old(self)));
                    }
                } else {
                    proof {
                        assert(paths.deep_view() =~= target_paths(*old(self)));
                    }
                }
                Some(Effect::DeleteEntries { paths })
            },
            Action::Chmod => {
                let closed = match &self.popup {
                    PopupState::Closed => true,
                    PopupState::Chmod { .. } => false,
                };
                if closed && self.cursor < self.entries.len() {
                    let p = self.entries[self.cursor].path.clone();
                    Some(Effect::QueryMode { path: p })
                } else {
                    None
                }
            },
            Action::Open => {
                if self.cursor < self.entries.len() {
                    let p = self.entries[self.cursor].path.clone();
                    Some(Effect::OpenExternal { path: p })
                } else {
                    None
                }
            },
            Action::SwitchFocus => {
                self.active_focus = if self.active_focus == ActiveFocus::FileList {
                    ActiveFocus::Preview
                } else {
                    ActiveFocus::FileList
                };
                None
            },
            Action::ScrollPreviewUp => {
                if self.active_focus == ActiveFocus::Preview && self.preview_scroll > 0 {
                    self.preview_scroll = self.preview_scroll - 1;
                }
                None
            },
            Action::ScrollPreviewDown => {
                if self.active_focus == ActiveFocus::Preview {
                    self.preview_scroll = self.preview_scroll.saturating_add(1);
                }
                None
            },
            Action::ScrollPreviewPageUp => {
                if self.active_focus == ActiveFocus::Preview {
                    self.preview_scroll = self.preview_scroll.saturating_sub(10);
                }
                None
            },
            Action::ScrollPreviewPageDown => {
                if self.active_focus == ActiveFocus::Preview {
                    self.preview_scroll = self.preview_scroll.saturating_add(10);
                }
                None
            },
            Action::PopupUp => {
                match &mut self.popup {
                    PopupState::Chmod { cursor_idx, .. } => {
                        if *cursor_idx >= 3 {
                            *cursor_idx = *cursor_idx - 3;
                        }
                    },
                    PopupState::Closed => {},
                }
                None
            },
            Action::PopupDown => {
                match &mut self.popup {
                    PopupState::Chmod { cursor_idx, .. } => {
                        if *cursor_idx < 6 {
                            *cursor_idx = *cursor_idx + 3;
                        }
                    },
                    PopupState::Closed => {},
                }
                None
            },
            Action::PopupLeft => {
                match &mut self.popup {
                    PopupState::Chmod { cursor_idx, .. } => {
                        if *cursor_idx % 3 > 0 {
                            *cursor_idx = *cursor_idx - 1;
                        }
                    },
                    PopupState::Closed => {},
                }
                None
            },
            Action::PopupRight => {
                match &mut self.popup {
                    PopupState::Chmod { cursor_idx, .. } => {
                        if *cursor_idx % 3 < 2 {
                            *cursor_idx = *cursor_idx + 1;
                        }
                    },
                    PopupState::Closed => {},
                }
                None
            },
            Action::PopupToggle => {
                match &mut self.popup {
                    PopupState::Chmod { mode, cursor_idx, .. } => {
                        let bit = perm_bit_exec(*cursor_idx);
                        if bit != 0 {
                            *mode = *mode ^ bit;
                        }
                    },
                    PopupState::Closed => {},
                }
                None
            },
            Action::PopupSubmit => {
                let mut popup = PopupState::Closed;
                core::mem::swap(&mut self.popup, &mut popup);
                match popup {
                    PopupState::Chmod { path, mode, .. } => Some(
                        Effect::ApplyMode { path, mode },
                    ),
                    PopupState::Closed => None,
                }
            },
            Action::PopupCancel => {
                self.popup = PopupState::Closed;
                None
            },
            Action::DirLoaded { path, entries } => {
                self.cwd = path;
                self.entries = entries;
                self.cursor = 0;
                self.preview = PreviewState::Empty;
                self.preview_scroll = 0;
                None
            },
            Action::ListingReloaded { entries } => {
                self.entries = entries;
                if self.entries.len() == 0 {
                    self.cursor = 0;
                } else if self.cursor >= self.entries.len() {
                    self.cursor = self.entries.len() - 1;
                }
                None
            },
            Action::ModeLoaded { path, mode } => {
                let closed = match &self.popup {
                    PopupState::Closed => true,
                    PopupState::Chmod { .. } => false,
                };
                if closed {
                    self.popup = PopupState::Chmod { path, mode, cursor_idx: 0 };
                }
                None
            },
        }
    }
}

/// The POSIX permission bit of one grid cell.
pub fn perm_bit_exec(i: usize) -> (b: u32)
    ensures
        b == perm_bit(i),
{
    if i == 0 {
        0o400
    } else if i == 1 {
        0o200
    } else if i == 2 {
        0o100
    } else if i == 3 {
        0o040
    } else if i == 4 {
        0o020
    } else if i == 5 {
        0o010
    } else if i == 6 {
        0o004
    } else if i == 7 {
        0o002
    } else if i == 8 {
        0o001
    } else {
        0
    }
}

} // verus!
