//! The list panels: repositories, workflows and tags. What each row says,
//! in which style, the panel titles, and which row is highlighted.

use vstd::prelude::*;

use crate::api::{Action, ActionView, Tag};
use crate::navigation::contains_name;
use crate::panel::{sty, Color, PanelContext, Style};
use crate::screen::{push_span, span, span_of, spans_view, sv, Span, SpanView};
use crate::text::{append, owned};

verus! {

/// The repository list of the single-list layout.
pub struct RepoListPanel<'a> {
    pub repos: &'a [String],
    pub selected: usize,
}

impl<'a> RepoListPanel<'a> {
    /// A repository list with the given row selected.
    pub fn new(repos: &'a [String], selected: usize) -> (r: Self)
        ensures
            r.repos@ == repos@,
            r.selected == selected,
    {
        RepoListPanel { repos, selected }
    }
}

/// The workflow list of the single-list layout.
pub struct ActionsPanel<'a> {
    pub actions: &'a [Action],
    pub selected: usize,
}

impl<'a> ActionsPanel<'a> {
    /// A workflow list with the given row selected.
    pub fn new(actions: &'a [Action], selected: usize) -> (r: Self)
        ensures
            r.actions@ == actions@,
            r.selected == selected,
    {
        ActionsPanel { actions, selected }
    }
}

/// The tag list of the single-list layout.
pub struct TagsPanel<'a> {
    pub tags: &'a [Tag],
    pub selected: usize,
}

impl<'a> TagsPanel<'a> {
    /// A tag list with the given row selected.
    pub fn new(tags: &'a [Tag], selected: usize) -> (r: Self)
        ensures
            r.tags@ == tags@,
            r.selected == selected,
    {
        TagsPanel { tags, selected }
    }
}

/// The highlighted row of a list: the selected one, none when the list is
/// empty.
pub open spec fn spec_list_selection(len: nat, selected: usize) -> Option<usize> {
    if len > 0 {
        Some(selected)
    } else {
        None
    }
}

/// The highlighted row of a list of `len` rows.
pub fn list_selection(len: usize, selected: usize) -> (r: Option<usize>)
    ensures
        r == spec_list_selection(len as nat, selected),
{
    if len > 0 {
        Some(selected)
    } else {
        None
    }
}

pub open spec fn dim(text: Seq<char>) -> SpanView {
    sv(text, sty(Some(Color::DarkGray), None, false))
}

pub open spec fn plain_item(text: Seq<char>) -> SpanView {
    sv(text, sty(None, None, false))
}

/// Names as rows in the plain style.
pub open spec fn name_items(names: Seq<Seq<char>>) -> Seq<SpanView> {
    Seq::new(names.len(), |i: int| plain_item(names[i]))
}

fn names_items(names: &[String]) -> (r: Vec<Span>)
    ensures
        spans_view(r@) == name_items(names.deep_view()),
{
    let mut r: Vec<Span> = Vec::new();
    let mut i: usize = 0;
    while i < names.len()
        invariant
            i <= names@.len(),
            spans_view(r@) == name_items(names.deep_view().take(i as int)),
        decreases names@.len() - i,
    {
        push_span(&mut r, span(names[i].as_str(), Style::plain()));
        assert(name_items(names.deep_view().take(i + 1)) =~= name_items(names.deep_view().take(i as int)).push(
            plain_item(names@[i as int]@),
        ));
        i = i + 1;
    }
    assert(names.deep_view().take(names@.len() as int) =~= names.deep_view());
    r
}

/// The rows of the repository list: the names.
pub fn repo_list_items(panel: &RepoListPanel) -> (r: Vec<Span>)
    ensures
        spans_view(r@) == name_items(panel.repos.deep_view()),
{
    names_items(panel.repos)
}

/// The rows of the repository list while it may be loading.
pub open spec fn spec_repo_list_items_loading(repos: Seq<Seq<char>>, loading: bool) -> Seq<SpanView> {
    if loading {
        seq![dim("Loading..."@)]
    } else {
        name_items(repos)
    }
}

/// The rows of the repository list: `Loading...` while loading, else the
/// names.
pub fn repo_list_items_loading(panel: &RepoListPanel, loading: bool) -> (r: Vec<Span>)
    ensures
        spans_view(r@) == spec_repo_list_items_loading(panel.repos.deep_view(), loading),
{
    if loading {
        let mut r: Vec<Span> = Vec::new();
        push_span(&mut r, span("Loading...", Style::fg_only(Color::DarkGray)));
        assert(spans_view(r@) =~= seq![dim("Loading..."@)]);
        r
    } else {
        names_items(panel.repos)
    }
}

/// How a workflow is listed: its name, and its description after a dash
/// unless the panel is compact.
pub open spec fn action_text(a: ActionView, compact: bool) -> Seq<char> {
    match a.description {
        Some(d) => if compact {
            a.name
        } else {
            a.name + " - "@ + d
        },
        None => a.name,
    }
}

pub open spec fn action_items(actions: Seq<Action>, compact: bool) -> Seq<SpanView> {
    Seq::new(actions.len(), |i: int| plain_item(action_text(actions[i]@, compact)))
}

fn action_text_of(a: &Action, compact: bool) -> (r: String)
    ensures
        r@ == action_text(a@, compact),
{
    match &a.description {
        Some(d) => if compact {
            a.name.clone()
        } else {
            let mut t = a.name.clone();
            append(&mut t, " - ");
            append(&mut t, d.as_str());
            t
        },
        None => a.name.clone(),
    }
}

fn actions_items(actions: &[Action], compact: bool) -> (r: Vec<Span>)
    ensures
        spans_view(r@) == action_items(actions@, compact),
{
    let mut r: Vec<Span> = Vec::new();
    let mut i: usize = 0;
    while i < actions.len()
        invariant
            i <= actions@.len(),
            spans_view(r@) == action_items(actions@.take(i as int), compact),
        decreases actions@.len() - i,
    {
        push_span(&mut r, span_of(action_text_of(&actions[i], compact), Style::plain()));
        assert(action_items(actions@.take(i + 1), compact) =~= action_items(actions@.take(i as int), compact).push(
            plain_item(action_text(actions@[i as int]@, compact)),
        ));
        i = i + 1;
    }
    assert(actions@.take(actions@.len() as int) =~= actions@);
    r
}

/// The rows of the workflow list of the single-list layout.
pub open spec fn spec_actions_list_items(actions: Seq<Action>, loading: bool) -> Seq<SpanView> {
    if loading && actions.len() == 0 {
        seq![dim("Loading..."@)]
    } else {
        action_items(actions, false)
    }
}

/// The rows of the workflow list: `Loading...` while an empty list loads,
/// else each workflow with its description.
pub fn actions_list_items(panel: &ActionsPanel, loading: bool) -> (r: Vec<Span>)
    ensures
        spans_view(r@) == spec_actions_list_items(panel.actions@, loading),
{
    if loading && panel.actions.len() == 0 {
        let mut r: Vec<Span> = Vec::new();
        push_span(&mut r, span("Loading...", Style::fg_only(Color::DarkGray)));
        assert(spans_view(r@) =~= seq![dim("Loading..."@)]);
        r
    } else {
        actions_items(panel.actions, false)
    }
}

pub open spec fn tag_names(tags: Seq<Tag>) -> Seq<Seq<char>> {
    Seq::new(tags.len(), |i: int| tags[i].name@)
}

fn tags_items(tags: &[Tag]) -> (r: Vec<Span>)
    ensures
        spans_view(r@) == name_items(tag_names(tags@)),
{
    let mut r: Vec<Span> = Vec::new();
    let mut i: usize = 0;
    while i < tags.len()
        invariant
            i <= tags@.len(),
            spans_view(r@) == name_items(tag_names(tags@.take(i as int))),
        decreases tags@.len() - i,
    {
        push_span(&mut r, span(tags[i].name.as_str(), Style::plain()));
        assert(name_items(tag_names(tags@.take(i + 1))) =~= name_items(tag_names(tags@.take(i as int))).push(
            plain_item(tags@[i as int].name@),
        ));
        i = i + 1;
    }
    assert(tags@.take(tags@.len() as int) =~= tags@);
    r
}

/// The rows of the tag list of the single-list layout.
pub open spec fn spec_tags_list_items(tags: Seq<Tag>, loading: bool) -> Seq<SpanView> {
    if loading && tags.len() == 0 {
        seq![dim("Loading..."@)]
    } else {
        name_items(tag_names(tags))
    }
}

/// The rows of the tag list: `Loading...` while an empty list loads, else
/// the tag names.
pub fn tags_list_items(panel: &TagsPanel, loading: bool) -> (r: Vec<Span>)
    ensures
        spans_view(r@) == spec_tags_list_items(panel.tags@, loading),
{
    if loading && panel.tags.len() == 0 {
        let mut r: Vec<Span> = Vec::new();
        push_span(&mut r, span("Loading...", Style::fg_only(Color::DarkGray)));
        assert(spans_view(r@) =~= seq![dim("Loading..."@)]);
        r
    } else {
        tags_items(panel.tags)
    }
}

/// A panel title: the name between spaces, with a hint to leave the zoom
/// when the panel is zoomed.
pub open spec fn spec_panel_title(name: Seq<char>, zoomed: bool) -> Seq<char> {
    if zoomed {
        " "@ + name + " [ZOOMED - z to exit] "@
    } else {
        " "@ + name + " "@
    }
}

/// The title of a panel.
pub fn panel_title(name: &str, zoomed: bool) -> (r: String)
    ensures
        r@ == spec_panel_title(name@, zoomed),
{
    let mut r = owned(" ");
    append(&mut r, name);
    if zoomed {
        append(&mut r, " [ZOOMED - z to exit] ");
    } else {
        append(&mut r, " ");
    }
    r
}

/// The title of the repository panel: the zoom hint, else the search query
/// while there is one.
pub open spec fn spec_repos_panel_title(zoomed: bool, search_query: Seq<char>) -> Seq<char> {
    if zoomed {
        spec_panel_title("Repositories"@, true)
    } else if search_query.len() > 0 {
        " Repositories [/"@ + search_query + "] "@
    } else {
        spec_panel_title("Repositories"@, false)
    }
}

/// The title of the repository panel.
pub fn repos_panel_title(ctx: &PanelContext, search_query: &str) -> (r: String)
    ensures
        r@ == spec_repos_panel_title(ctx.zoomed, search_query@),
{
    if ctx.zoomed {
        panel_title("Repositories", true)
    } else if !search_query.is_empty() {
        let mut r = owned(" Repositories [/");
        append(&mut r, search_query);
        append(&mut r, "] ");
        r
    } else {
        panel_title("Repositories", false)
    }
}

/// A repository row: a star and yellow when it is pinned.
pub open spec fn repo_item(name: Seq<char>, pinned: Seq<Seq<char>>) -> SpanView {
    if pinned.contains(name) {
        sv("★ "@ + name, sty(Some(Color::Yellow), None, false))
    } else {
        plain_item(name)
    }
}

/// The rows of the repository panel.
pub open spec fn spec_repos_panel_items(repos: Seq<Seq<char>>, pinned: Seq<Seq<char>>) -> Seq<SpanView> {
    if repos.len() == 0 {
        seq![dim("No repositories"@)]
    } else {
        Seq::new(repos.len(), |i: int| repo_item(repos[i], pinned))
    }
}

/// The rows of the repository panel: `No repositories` when there are none,
/// else the names, the pinned ones starred.
pub fn repos_panel_items(repos: &[String], pinned: &Vec<String>) -> (r: Vec<Span>)
    ensures
        spans_view(r@) == spec_repos_panel_items(repos.deep_view(), pinned.deep_view()),
{
    let mut r: Vec<Span> = Vec::new();
    if repos.len() == 0 {
        push_span(&mut r, span("No repositories", Style::fg_only(Color::DarkGray)));
        assert(spans_view(r@) =~= seq![dim("No repositories"@)]);
        return r;
    }
    let ghost pv = pinned.deep_view();
    let mut i: usize = 0;
    while i < repos.len()
        invariant
            i <= repos@.len(),
            pv == pinned.deep_view(),
            spans_view(r@) == Seq::new(i as nat, |k: int| repo_item(repos.deep_view()[k], pv)),
        decreases repos@.len() - i,
    {
        let name = repos[i].as_str();
        if contains_name(pinned, name) {
            let mut t = owned("★ ");
            append(&mut t, name);
            push_span(&mut r, span_of(t, Style::fg_only(Color::Yellow)));
        } else {
            push_span(&mut r, span(name, Style::plain()));
        }
        assert(spans_view(r@) =~= Seq::new((i + 1) as nat, |k: int| repo_item(repos.deep_view()[k], pv)));
        i = i + 1;
    }
    r
}

/// The rows of the workflow panel.
pub open spec fn spec_workflows_panel_items(actions: Seq<Action>, loading: bool, compact: bool) -> Seq<SpanView> {
    if loading && actions.len() == 0 {
        seq![dim("Loading..."@)]
    } else if actions.len() == 0 {
        seq![dim("No workflows"@)]
    } else {
        action_items(actions, compact)
    }
}

/// The rows of the workflow panel: `Loading...` while an empty list loads,
/// `No workflows` for an empty list, else the workflows, without their
/// descriptions in a compact panel.
pub fn workflows_panel_items(ctx: &PanelContext, actions: &[Action], loading: bool) -> (r: Vec<Span>)
    ensures
        spans_view(r@) == spec_workflows_panel_items(actions@, loading, ctx.spec_is_compact()),
{
    let mut r: Vec<Span> = Vec::new();
    if loading && actions.len() == 0 {
        push_span(&mut r, span("Loading...", Style::fg_only(Color::DarkGray)));
        assert(spans_view(r@) =~= seq![dim("Loading..."@)]);
        r
    } else if actions.len() == 0 {
        push_span(&mut r, span("No workflows", Style::fg_only(Color::DarkGray)));
        assert(spans_view(r@) =~= seq![dim("No workflows"@)]);
        r
    } else {
        actions_items(actions, ctx.is_compact())
    }
}

/// The rows of the tag panel.
pub open spec fn spec_tags_panel_items(tags: Seq<Tag>, loading: bool) -> Seq<SpanView> {
    if loading && tags.len() == 0 {
        seq![dim("Loading..."@)]
    } else if tags.len() == 0 {
        seq![dim("No tags"@)]
    } else {
        name_items(tag_names(tags))
    }
}

/// The rows of the tag panel: `Loading...` while an empty list loads,
/// `No tags` for an empty list, else the tag names.
pub fn tags_panel_items(tags: &[Tag], loading: bool) -> (r: Vec<Span>)
    ensures
        spans_view(r@) == spec_tags_panel_items(tags@, loading),
{
    let mut r: Vec<Span> = Vec::new();
    if loading && tags.len() == 0 {
        push_span(&mut r, span("Loading...", Style::fg_only(Color::DarkGray)));
        assert(spans_view(r@) =~= seq![dim("Loading..."@)]);
        r
    } else if tags.len() == 0 {
        push_span(&mut r, span("No tags", Style::fg_only(Color::DarkGray)));
        assert(spans_view(r@) =~= seq![dim("No tags"@)]);
        r
    } else {
        tags_items(tags)
    }
}

} // verus!
