//! Properties of the application state that span several operations.

use vstd::prelude::*;

use crate::app_state::{elapsed, wrap_next, wrap_prev, AppModel, NOTIFICATION_MS};
use crate::dialog::{DialogFocus, DialogView, FieldView, bool_text, matching_options};
use crate::dispatch::dispatch_of;
use crate::inputs::InputKind;
use crate::navigation::{repo_matches, with_pins};
use crate::text::{has_substring, lowercase};

verus! {

/// Moving forward and then back in a list of `n` returns to the same
/// position, and so does moving back and then forward.
pub proof fn law_wrap_round_trip(i: usize, n: nat)
    requires
        i < n,
        n <= usize::MAX,
    ensures
        wrap_prev(wrap_next(i, n), n) == i,
        wrap_next(wrap_prev(i, n), n) == i,
        wrap_next(i, n) < n,
        wrap_prev(i, n) < n,
{
    if i + 1 < n {
        assert((i + 1) % (n as int) == i + 1) by (nonlinear_arith)
            requires
                0 <= i + 1 < n,
        ;
    } else {
        assert((i + 1) % (n as int) == 0) by (nonlinear_arith)
            requires
                i + 1 == n,
                n > 0,
        ;
    }
    if i > 0 {
        assert(((i - 1) + 1) % (n as int) == i) by (nonlinear_arith)
            requires
                0 < i < n,
        ;
    } else {
        assert(((n - 1) + 1) % (n as int) == 0) by (nonlinear_arith)
            requires
                n > 0,
        ;
    }
}

/// Selecting the next run and then the previous one selects the same run
/// again (likewise for deployments).
pub proof fn law_next_then_previous_run(s: AppModel)
    requires
        s.selected_run < s.runs.len() <= usize::MAX,
        s.selected_deployment < s.deployments.len() <= usize::MAX,
    ensures
        s.next_run().previous_run().selected_run == s.selected_run,
        s.previous_run().next_run().selected_run == s.selected_run,
        s.next_deployment().previous_deployment().selected_deployment == s.selected_deployment,
{
    law_wrap_round_trip(s.selected_run, s.runs.len());
    law_wrap_round_trip(s.selected_deployment, s.deployments.len());
}

/// Selecting the next repository and then the previous one selects the
/// same repository again; the list highlight follows the selection.
pub proof fn law_next_then_previous_repo(s: AppModel)
    requires
        s.selected_repo < s.filtered_repos.len() <= usize::MAX,
    ensures
        s.next_repo().previous_repo().selected_repo == s.selected_repo,
        s.next_repo().previous_repo().repo_list_selected == Some(s.selected_repo),
        s.next_repo().needs_action_reload,
{
    law_wrap_round_trip(s.selected_repo, s.filtered_repos.len());
}

/// A notification is cleared exactly when more than three seconds have
/// passed since it was set.
pub proof fn law_notification_expires(s: AppModel, msg: Seq<char>, set_at: u64, now: u64)
    ensures
        s.set_notification(msg, set_at).maybe_clear_notification(now).notification is None <==> elapsed(
            now,
            set_at,
        ) > NOTIFICATION_MS,
        elapsed(now, set_at) <= NOTIFICATION_MS ==> s.set_notification(msg, set_at).maybe_clear_notification(
            now,
        ).notification == Some(msg),
{
}

/// Runs are never refreshed while they are loading or while the Runs panel
/// is hidden.
pub proof fn law_no_refresh_while_loading(s: AppModel, now: u64)
    ensures
        s.start_loading_runs().should_refresh_runs(now) == false,
        !s.window.visible.contains(crate::panel::PanelId::Runs) ==> !s.should_refresh_runs(now),
{
}

/// After the repositories are filtered, the selection is inside the shown
/// list, every shown repository is one of the repositories and matches the
/// query, and the pinned ones come first.
pub proof fn law_filter_keeps_selection_in_range(s: AppModel)
    ensures
        s.filter_repos().filtered_repos.len() > 0 ==> s.filter_repos().selected_repo < s.filter_repos().filtered_repos.len(),
        s.filter_repos().filtered_repos.len() == 0 ==> s.filter_repos().repo_list_selected is None,
        forall|r: Seq<char>| #[trigger] s.filter_repos().filtered_repos.contains(r) ==> s.repos.contains(r)
            && (s.search_query.len() == 0 || has_substring(lowercase(r), lowercase(s.search_query))),
{
    let base = repo_matches(s.repos, s.search_query);
    let pred = |r: Seq<char>| has_substring(lowercase(r), lowercase(s.search_query));
    let pin = |r: Seq<char>| s.pinned_repos.contains(r);
    let unpin = |r: Seq<char>| !s.pinned_repos.contains(r);
    assert forall|r: Seq<char>| #[trigger] s.filter_repos().filtered_repos.contains(r) implies s.repos.contains(r)
        && (s.search_query.len() == 0 || has_substring(lowercase(r), lowercase(s.search_query))) by {
        let f = with_pins(base, s.pinned_repos);
        let k = choose|k: int| 0 <= k < f.len() && f[k] == r;
        let a = base.filter(pin);
        let b = base.filter(unpin);
        if k < a.len() {
            assert(a[k] == r);
            assert(a.contains(r));
            base.lemma_filter_contains_rev(pin, r);
        } else {
            assert(b[k - a.len()] == r);
            assert(b.contains(r));
            base.lemma_filter_contains_rev(unpin, r);
        }
        assert(base.contains(r));
        if s.search_query.len() > 0 {
            s.repos.lemma_filter_contains_rev(pred, r);
            let j = choose|j: int| 0 <= j < base.len() && base[j] == r;
            s.repos.lemma_filter_pred(pred, j);
        }
    }
}

/// Clearing the search shows every repository, the pinned ones first.
pub proof fn law_clear_search_shows_all(s: AppModel)
    ensures
        s.clear_search().filtered_repos == with_pins(s.repos, s.pinned_repos),
        s.pinned_repos.len() == 0 ==> s.clear_search().filtered_repos == s.repos,
{
    if s.pinned_repos.len() == 0 {
        let pin = |r: Seq<char>| s.pinned_repos.contains(r);
        let unpin = |r: Seq<char>| !s.pinned_repos.contains(r);
        lemma_filter_all(s.repos, unpin);
        lemma_filter_none(s.repos, pin);
        assert(with_pins(s.repos, s.pinned_repos) =~= s.repos);
    }
}

proof fn lemma_filter_all(s: Seq<Seq<char>>, p: spec_fn(Seq<char>) -> bool)
    requires
        forall|x: Seq<char>| #[trigger] p(x),
    ensures
        s.filter(p) == s,
    decreases s.len(),
{
    reveal(Seq::filter);
    if s.len() > 0 {
        reveal(Seq::filter);
        lemma_filter_all(s.drop_last(), p);
        assert(p(s.last()));
        assert(s.drop_last().push(s.last()) == s);
    }
}

proof fn lemma_filter_none(s: Seq<Seq<char>>, p: spec_fn(Seq<char>) -> bool)
    requires
        forall|x: Seq<char>| !#[trigger] p(x),
    ensures
        s.filter(p) == Seq::<Seq<char>>::empty(),
    decreases s.len(),
{
    reveal(Seq::filter);
    if s.len() > 0 {
        reveal(Seq::filter);
        lemma_filter_none(s.drop_last(), p);
        assert(!p(s.last()));
    }
}

/// Opening an option list and leaving it returns to the dialog that was
/// open, with no list kept behind it.
pub proof fn law_dropdown_cancel_restores(s: AppModel, name: Seq<char>, options: Seq<Seq<char>>, target: usize)
    ensures
        s.open_dropdown_selection(name, options, target).cancel_dropdown_selection().dialog == s.dialog,
        s.open_dropdown_selection(name, options, target).cancel_dropdown_selection().previous_dialog is None,
{
}

/// Whether the focus of a form names one of its inputs or a button.
pub open spec fn focus_valid(d: DialogView) -> bool {
    match d {
        DialogView::Input { fields, focus, .. } => fields.len() <= usize::MAX && match focus {
            DialogFocus::Field(i) => i < fields.len(),
            _ => true,
        },
        _ => true,
    }
}

/// Tab and Shift+Tab undo each other in a form whose focus is valid.
pub proof fn law_tab_round_trip(d: DialogView)
    requires
        focus_valid(d),
    ensures
        d.next_field().prev_field() == d,
        d.prev_field().next_field() == d,
        focus_valid(d.next_field()),
        focus_valid(d.prev_field()),
{
}

/// Flipping a checkbox twice restores its state; its text then reads the
/// state.
pub proof fn law_toggle_boolean_twice(d: DialogView)
    requires
        d.focused_field() matches Some((i, f)) && f.kind is Boolean,
    ensures
        d.focused_field() matches Some((i, f)) && d.toggle_boolean().toggle_boolean().focused_field()
            == Some((i, FieldView { value: bool_text(f.kind->Boolean_0), ..f })),
{
    let (i, f) = d.focused_field().unwrap();
    match d {
        DialogView::Input { fields, .. } => {
            let b = f.kind->Boolean_0;
            let d1 = d.toggle_boolean();
            assert(d1.focused_field() == Some((i, FieldView { value: bool_text(!b), kind: InputKind::Boolean(!b), ..f })));
        },
        _ => {},
    }
}

/// Opening the list of the focused dropdown and pressing Enter at once puts
/// its first option into the field and returns to the form.
pub proof fn law_open_then_select_first_option(s: AppModel)
    requires
        s.dialog matches Some(d) && d.focused_field() matches Some((i, f)) && f.kind matches InputKind::Dropdown(o, _) && o.len() > 0,
    ensures
        s.dialog matches Some(d) && d.focused_field() matches Some((i, f)) && f.kind matches InputKind::Dropdown(o, _)
            && s.open_focused_dropdown().select_dropdown_option().dialog == Some(d.set_field_value(i, o[0])),
        s.open_focused_dropdown().select_dropdown_option().previous_dialog is None,
{
}

/// A confirmation without inputs dispatches the workflow without inputs.
pub proof fn law_confirmation_sends_no_inputs(d: DialogView, default_branch: Seq<char>)
    requires
        d matches DialogView::Input { is_confirmation, focus, .. } && is_confirmation && focus
            == DialogFocus::ConfirmButton,
    ensures
        dispatch_of(d, default_branch) matches Some((_, _, _, _, _, with_inputs)) && !with_inputs,
{
}

/// Moving in an option list keeps the selection on an option and among the
/// fifteen options shown.
pub proof fn law_selection_stays_visible(d: DialogView, down: bool)
    requires
        d matches DialogView::Dropdown { filtered, selected, .. } && filtered.len() > 0 && selected
            < filtered.len() && filtered.len() <= usize::MAX,
    ensures
        d.move_selection(down) matches DialogView::Dropdown { filtered, selected, scroll, .. } && selected
            < filtered.len() && scroll <= selected && selected < scroll + crate::dialog::VISIBLE_OPTIONS,
{
}

/// Typing a character into the search of an option list and erasing it
/// restores the search and shows the options that match it, lower-cased,
/// from the top; the options, field and target are unchanged.
pub proof fn law_search_then_backspace(d: DialogView, c: char)
    requires
        d is Dropdown,
    ensures
        d matches DialogView::Dropdown { field_name, options, query, target, open, .. } && d.search_char(c).backspace()
            == (DialogView::Dropdown {
            field_name,
            options,
            filtered: if lowercase(query).len() == 0 {
                options
            } else {
                matching_options(options, query)
            },
            selected: 0,
            query,
            target,
            scroll: 0,
            open,
        }),
{
    match d {
        DialogView::Dropdown { query, .. } => {
            assert(query.push(c).drop_last() == query);
        },
        _ => {},
    }
}

} // verus!
