//! Laws of the reducer: properties that hold of every run, stated over the
//! transition relation that [`crate::state::Reducer::reduce`] ensures.

use vstd::math::max;
use vstd::math::min;
use vstd::prelude::*;

use crate::state::Action;
use crate::state::ActiveFocus;
use crate::state::AppState;
use crate::state::ClipboardOp;
use crate::state::PopupState;
use crate::state::popup_cursor_of;
use crate::state::reduce_spec;
use crate::state::sel_set;
use crate::state::step_cursor_down;
use crate::state::step_cursor_up;

verus! {

/// Repeating CursorMoveDown from index `s` on a non-empty list of length
/// `L`, with the file list focused, lands the cursor on `min(s + N, L - 1)`
/// after `N` repetitions; the listing itself never moves.
pub proof fn lemma_cursor_down_repeated(states: Seq<AppState>)
    requires
        states.len() >= 1,
        states[0].entries.len() > 0,
        states[0].cursor < states[0].entries.len(),
        states[0].active_focus == ActiveFocus::FileList,
        forall|k: int|
            0 <= k < states.len() - 1 ==> reduce_spec(
                #[trigger] states[k],
                Action::CursorMoveDown,
                states[k + 1],
                Option::None,
            ),
    ensures
        states.last().cursor == min(
            states[0].cursor + states.len() - 1,
            states[0].entries.len() - 1,
        ),
        states.last().entries == states[0].entries,
    decreases states.len(),
{
    if states.len() == 1 {
    } else {
        assert(reduce_spec(states[0], Action::CursorMoveDown, states[1], Option::None));
        assert(step_cursor_down(states[0], states[1]));
        let rest = states.skip(1);
        assert forall|k: int| 0 <= k < rest.len() - 1 implies reduce_spec(
            #[trigger] rest[k],
            Action::CursorMoveDown,
            rest[k + 1],
            Option::None,
        ) by {
            assert(rest[k] == states[k + 1]);
            assert(rest[k + 1] == states[k + 2]);
        }
        lemma_cursor_down_repeated(rest);
        assert(rest.last() == states.last());
    }
}

/// Repeating CursorMoveUp from index `s`, with the file list focused,
/// lands the cursor on `max(s - N, 0)` after `N` repetitions; the listing
/// itself never moves.
pub proof fn lemma_cursor_up_repeated(states: Seq<AppState>)
    requires
        states.len() >= 1,
        states[0].active_focus == ActiveFocus::FileList,
        forall|k: int|
            0 <= k < states.len() - 1 ==> reduce_spec(
                #[trigger] states[k],
                Action::CursorMoveUp,
                states[k + 1],
                Option::None,
            ),
    ensures
        states.last().cursor == max(states[0].cursor - (states.len() - 1), 0),
        states.last().entries == states[0].entries,
    decreases states.len(),
{
    if states.len() == 1 {
    } else {
        assert(reduce_spec(states[0], Action::CursorMoveUp, states[1], Option::None));
        assert(step_cursor_up(states[0], states[1]));
        let rest = states.skip(1);
        assert forall|k: int| 0 <= k < rest.len() - 1 implies reduce_spec(
            #[trigger] rest[k],
            Action::CursorMoveUp,
            rest[k + 1],
            Option::None,
        ) by {
            assert(rest[k] == states[k + 1]);
            assert(rest[k + 1] == states[k + 2]);
        }
        lemma_cursor_up_repeated(rest);
        assert(rest.last() == states.last());
    }
}

/// Toggling the selection twice, with the cursor untouched in between,
/// restores the selection set exactly.
pub proof fn lemma_toggle_select_involutive(s0: AppState, s1: AppState, s2: AppState)
    requires
        reduce_spec(s0, Action::ToggleSelect, s1, Option::None),
        reduce_spec(s1, Action::ToggleSelect, s2, Option::None),
    ensures
        sel_set(s2.selected@) == sel_set(s0.selected@),
{
    if s0.cursor < s0.entries.len() {
        let p = s0.entries[s0.cursor as int].path@;
        assert(s1.entries == s0.entries && s1.cursor == s0.cursor);
        if sel_set(s0.selected@).contains(p) {
            assert(sel_set(s1.selected@) == sel_set(s0.selected@).remove(p));
            assert(!sel_set(s1.selected@).contains(p));
            assert(sel_set(s2.selected@) =~= sel_set(s0.selected@));
        } else {
            assert(sel_set(s1.selected@) == sel_set(s0.selected@).insert(p));
            assert(sel_set(s1.selected@).contains(p));
            assert(sel_set(s2.selected@) =~= sel_set(s0.selected@));
        }
    }
}

/// Yank directly followed by Yank: the first captures the non-empty
/// selection and clears it, so the second captures the entry under the
/// cursor alone, not the first target set.
pub proof fn lemma_yank_then_yank(s0: AppState, s1: AppState, s2: AppState)
    requires
        s0.selected@.len() > 0,
        s0.cursor < s0.entries.len(),
        reduce_spec(s0, Action::Yank, s1, Option::None),
        reduce_spec(s1, Action::Yank, s2, Option::None),
    ensures
        s2.clipboard matches Some(c) && c.0 == ClipboardOp::Copy && c.1.deep_view() == seq![
            s0.entries[s0.cursor as int].path@,
        ],
{
    assert(s0.selected.deep_view().len() == s0.selected@.len());
    assert(s1.selected@.len() == 0);
    assert(s1.entries == s0.entries && s1.cursor == s0.cursor);
}

/// Toggling the same permission cell twice restores the pending mode
/// bits, and with them the whole editor state.
pub proof fn lemma_popup_toggle_involutive(s0: AppState, s1: AppState, s2: AppState)
    requires
        reduce_spec(s0, Action::PopupToggle, s1, Option::None),
        reduce_spec(s1, Action::PopupToggle, s2, Option::None),
    ensures
        s2.popup == s0.popup,
{
    match s0.popup {
        PopupState::Chmod { path, mode, cursor_idx } => {
            let b = crate::state::perm_bit(cursor_idx);
            if b != 0 {
                assert((mode ^ b) ^ b == mode) by (bit_vector);
            }
        },
        PopupState::Closed => {},
    }
}

/// The permission editor's cell cursor never leaves the grid: Up on the
/// top row, Down on the bottom row, Left in the first column and Right in
/// the last column all leave the state unchanged.
pub proof fn lemma_popup_edges_are_noops(
    pre: AppState,
    up: AppState,
    down: AppState,
    left: AppState,
    right: AppState,
)
    requires
        pre.popup matches PopupState::Chmod { .. },
        reduce_spec(pre, Action::PopupUp, up, Option::None),
        reduce_spec(pre, Action::PopupDown, down, Option::None),
        reduce_spec(pre, Action::PopupLeft, left, Option::None),
        reduce_spec(pre, Action::PopupRight, right, Option::None),
    ensures
        popup_cursor_of(pre) < 3 ==> up == pre,
        popup_cursor_of(pre) >= 6 ==> down == pre,
        popup_cursor_of(pre) % 3 == 0 ==> left == pre,
        popup_cursor_of(pre) % 3 == 2 ==> right == pre,
{
}

} // verus!
