//! What an open dialog shows: the form of workflow inputs, or the list of
//! options of a dropdown, with the area it takes on the screen.

use vstd::prelude::*;

use crate::dialog::{fields_view, DialogFocus, DialogState, DialogType, DialogView, FieldView};
use crate::inputs::{InputKind, InputType, UIWorkflowInputField};
use crate::panel::{sty, Color, Rect, Style};
use crate::layout::within;
use crate::screen::{blank, blank_line, centered_in, centered_rect, line_of, lines_view, lv, one, one_line, one_line_of, push_line, push_span, span, sv, Line, LineView, Span};
use crate::text::{append, decimal, decimal_string, owned};

verus! {

/// An open dialog as the screen shows it.
#[derive(Debug)]
pub struct DialogScreen {
    /// Where the dialog is drawn, over what is beneath.
    pub area: Rect,
    pub title: String,
    pub border: Color,
    pub lines: Vec<Line>,
}

/// A dialog screen as mathematical values.
pub struct DialogScreenView {
    pub area: Rect,
    pub title: Seq<char>,
    pub border: Color,
    pub lines: Seq<LineView>,
}

impl View for DialogScreen {
    type V = DialogScreenView;

    open spec fn view(&self) -> DialogScreenView {
        DialogScreenView { area: self.area, title: self.title@, border: self.border, lines: lines_view(self.lines@) }
    }
}

/// The label of an input: its name, a star when required, and its
/// description in parentheses.
pub open spec fn field_label(f: FieldView) -> Seq<char> {
    let starred = if f.required {
        f.name + " *"@
    } else {
        f.name
    };
    match f.description {
        Some(d) => starred + " ("@ + d + ")"@,
        None => starred,
    }
}

/// The value of an input as the form shows it, with a marker when focused.
pub open spec fn field_value_text(f: FieldView, focused: bool) -> Seq<char> {
    let mark = if focused {
        "▶ "@
    } else {
        "  "@
    };
    match f.kind {
        InputKind::Text => mark + f.value,
        InputKind::Dropdown(options, _) => if focused {
            mark + f.value + " (Space to open selection, "@ + decimal(options.len()) + " options)"@
        } else {
            mark + f.value + " (dropdown)"@
        },
        InputKind::Choice(options, _) => if focused {
            mark + f.value + " (Space to open selection, "@ + decimal(options.len()) + " options)"@
        } else {
            mark + f.value + " (dropdown)"@
        },
        InputKind::Boolean(v) => {
            let checkbox = if v {
                "[x]"@
            } else {
                "[ ]"@
            };
            if focused {
                mark + checkbox + " (Space to toggle)"@
            } else {
                mark + checkbox
            }
        },
    }
}

/// The three lines of an input: label, value, blank.
pub open spec fn field_lines(f: FieldView, focused: bool) -> Seq<LineView> {
    seq![
        one(
            field_label(f),
            if focused {
                sty(Some(Color::Yellow), None, true)
            } else {
                sty(Some(Color::Gray), None, false)
            },
        ),
        one(
            field_value_text(f, focused),
            if focused {
                sty(Some(Color::White), Some(Color::Blue), false)
            } else {
                sty(Some(Color::White), None, false)
            },
        ),
        blank(),
    ]
}

/// The lines of all the inputs.
pub open spec fn fields_lines(fields: Seq<FieldView>, focus: DialogFocus) -> Seq<LineView>
    decreases fields.len(),
{
    if fields.len() == 0 {
        Seq::empty()
    } else {
        fields_lines(fields.drop_last(), focus) + field_lines(
            fields.last(),
            focus == DialogFocus::Field((fields.len() - 1) as usize),
        )
    }
}

/// The line of the two buttons, the focused one filled.
pub open spec fn buttons_line(focus: DialogFocus) -> LineView {
    let gray = sty(Some(Color::Gray), None, false);
    lv(
        seq![
            sv("  ["@, gray),
            sv(
                "Confirm"@,
                if focus == DialogFocus::ConfirmButton {
                    sty(Some(Color::Black), Some(Color::Green), true)
                } else {
                    sty(Some(Color::Green), None, true)
                },
            ),
            sv("]"@, gray),
            sv("  ["@, gray),
            sv(
                "Cancel"@,
                if focus == DialogFocus::CancelButton {
                    sty(Some(Color::Black), Some(Color::Red), true)
                } else {
                    sty(Some(Color::Red), None, true)
                },
            ),
            sv("]"@, gray),
        ],
        sty(None, None, false),
    )
}

/// The lines of the input form: the question of a confirmation, or the
/// inputs; then the buttons and the keys.
pub open spec fn input_dialog_lines(
    fields: Seq<FieldView>,
    focus: DialogFocus,
    repo_name: Seq<char>,
    action_name: Seq<char>,
    is_confirmation: bool,
) -> Seq<LineView> {
    (if is_confirmation {
        seq![
            one(
                "Are you sure you want to run '"@ + action_name + "' on '"@ + repo_name + "'?"@,
                sty(Some(Color::White), None, false),
            ),
            blank(),
        ]
    } else {
        fields_lines(fields, focus)
    }) + seq![
        blank(),
        buttons_line(focus),
        blank(),
        one(
            "Tab/Shift+Tab: Navigate • Enter: Select • Escape: Cancel"@,
            sty(Some(Color::Gray), None, false),
        ),
    ]
}

/// The line of an option, highlighted when selected.
pub open spec fn option_line(option: Seq<char>, selected: bool) -> LineView {
    if selected {
        one("▶ "@ + option, sty(Some(Color::Black), Some(Color::Yellow), true))
    } else {
        one("  "@ + option, sty(Some(Color::White), None, false))
    }
}

/// The options shown: from the scroll offset on, as many as fit.
pub open spec fn visible_options(filtered: Seq<Seq<char>>, selected: usize, scroll: usize, max: nat) -> Seq<LineView> {
    let end: int = if scroll + max < filtered.len() {
        scroll + max
    } else {
        filtered.len() as int
    };
    if scroll >= end {
        Seq::empty()
    } else {
        Seq::new((end - scroll) as nat, |k: int| option_line(filtered[scroll + k], scroll + k == selected))
    }
}

/// How many options fit in a dropdown drawn in `area`: its height less
/// eight rows for the title, the search line, the help and the borders.
pub open spec fn options_room(area: Rect) -> nat {
    if area.height >= 8 {
        (area.height - 8) as nat
    } else {
        0
    }
}

/// The lines of the option list.
pub open spec fn dropdown_lines(
    field_name: Seq<char>,
    filtered: Seq<Seq<char>>,
    selected: usize,
    query: Seq<char>,
    scroll: usize,
    area: Rect,
) -> Seq<LineView> {
    let max = options_room(area);
    let cyan = sty(Some(Color::Cyan), None, false);
    seq![
        one("Select "@ + field_name, sty(Some(Color::Yellow), None, true)),
        blank(),
        if query.len() > 0 {
            one("Search: "@ + query, cyan)
        } else {
            one("Search: (type to filter)"@, sty(Some(Color::Gray), None, false))
        },
        blank(),
    ] + (if scroll > 0 {
        seq![one("  ↑ More options above ↑"@, cyan)]
    } else {
        Seq::empty()
    }) + visible_options(filtered, selected, scroll, max) + (if scroll + max < filtered.len() {
        seq![one("  ↓ More options below ↓"@, cyan)]
    } else {
        Seq::empty()
    }) + (if filtered.len() == 0 {
        seq![one("No matches found"@, sty(Some(Color::Red), None, false))]
    } else {
        Seq::empty()
    }) + seq![
        blank(),
        one(
            "↑↓ or j/k: Navigate • Enter: Select • Escape: Cancel • Type: Search"@,
            sty(Some(Color::Gray), None, false),
        ),
    ]
}

/// What a dialog shows in the popup area `area`: the input form with a
/// yellow border; the option list with a cyan one.
pub open spec fn spec_dialog_screen(d: DialogView, area: Rect) -> DialogScreenView {
    match d {
        DialogView::Input { fields, focus, repo_name, action_name, is_confirmation, .. } => DialogScreenView {
            area,
            title: if is_confirmation {
                "Confirm Action"@
            } else {
                "Workflow Inputs"@
            },
            border: Color::Yellow,
            lines: input_dialog_lines(fields, focus, repo_name, action_name, is_confirmation),
        },
        DialogView::Dropdown { field_name, filtered, selected, query, scroll, .. } => {
            DialogScreenView {
                area,
                title: "Select Option"@,
                border: Color::Cyan,
                lines: dropdown_lines(field_name, filtered, selected, query, scroll, area),
            }
        },
    }
}

fn field_label_text(f: &UIWorkflowInputField) -> (r: String)
    ensures
        r@ == field_label(f@),
{
    let mut t = f.name.clone();
    if f.required {
        append(&mut t, " *");
    }
    if let Some(d) = &f.description {
        append(&mut t, " (");
        append(&mut t, d.as_str());
        append(&mut t, ")");
    }
    t
}

fn options_note(mark: &str, value: &str, count: usize, focused: bool) -> (r: String)
    ensures
        r@ == if focused {
            mark@ + value@ + " (Space to open selection, "@ + decimal(count as nat) + " options)"@
        } else {
            mark@ + value@ + " (dropdown)"@
        },
{
    let mut t = owned(mark);
    append(&mut t, value);
    if focused {
        append(&mut t, " (Space to open selection, ");
        let d = decimal_string(count as u64);
        append(&mut t, d.as_str());
        append(&mut t, " options)");
    } else {
        append(&mut t, " (dropdown)");
    }
    t
}

fn field_value_string(f: &UIWorkflowInputField, focused: bool) -> (r: String)
    ensures
        r@ == field_value_text(f@, focused),
{
    let mark = if focused {
        "▶ "
    } else {
        "  "
    };
    match &f.input_type {
        InputType::Text => {
            let mut t = owned(mark);
            append(&mut t, f.value.as_str());
            t
        },
        InputType::Dropdown { options, .. } => options_note(mark, f.value.as_str(), options.len(), focused),
        InputType::Choice { options, .. } => options_note(mark, f.value.as_str(), options.len(), focused),
        InputType::Boolean { value } => {
            let mut t = owned(mark);
            append(
                &mut t,
                if *value {
                    "[x]"
                } else {
                    "[ ]"
                },
            );
            if focused {
                append(&mut t, " (Space to toggle)");
            }
            t
        },
    }
}

fn push_field_lines(lines: &mut Vec<Line>, fields: &Vec<UIWorkflowInputField>, focus: DialogFocus)
    ensures
        lines_view(final(lines)@) == lines_view(old(lines)@) + fields_lines(fields_view(fields@), focus),
{
    let ghost start = lines_view(lines@);
    let ghost fv = fields_view(fields@);
    let mut i: usize = 0;
    while i < fields.len()
        invariant
            i <= fields@.len(),
            fv == fields_view(fields@),
            fv.len() == fields@.len(),
            lines_view(lines@) == start + fields_lines(fv.take(i as int), focus),
        decreases fields@.len() - i,
    {
        let f = &fields[i];
        let focused = match focus {
            DialogFocus::Field(k) => k == i,
            _ => false,
        };
        assert(fv[i as int] == f@);
        let name_style = if focused {
            Style::fg_bold(Color::Yellow)
        } else {
            Style::fg_only(Color::Gray)
        };
        push_line(lines, one_line_of(field_label_text(f), name_style));
        let value_style = if focused {
            Style::fg_bg(Color::White, Color::Blue)
        } else {
            Style::fg_only(Color::White)
        };
        push_line(lines, one_line_of(field_value_string(f, focused), value_style));
        push_line(lines, blank_line());
        assert(fv.take(i + 1).drop_last() =~= fv.take(i as int));
        assert(fv.take(i + 1).last() == f@);
        assert(focused == (focus == DialogFocus::Field(((i + 1) - 1) as usize)));
        assert(lines_view(lines@) =~= start + fields_lines(fv.take(i + 1), focus));
        i = i + 1;
    }
    assert(fv.take(fv.len() as int) =~= fv);
}

fn buttons(focus: DialogFocus) -> (r: Line)
    ensures
        r@ == buttons_line(focus),
{
    let confirm = match focus {
        DialogFocus::ConfirmButton => Style::fg_bg_bold(Color::Black, Color::Green),
        _ => Style::fg_bold(Color::Green),
    };
    let cancel = match focus {
        DialogFocus::CancelButton => Style::fg_bg_bold(Color::Black, Color::Red),
        _ => Style::fg_bold(Color::Red),
    };
    let mut spans: Vec<Span> = Vec::new();
    push_span(&mut spans, span("  [", Style::fg_only(Color::Gray)));
    push_span(&mut spans, span("Confirm", confirm));
    push_span(&mut spans, span("]", Style::fg_only(Color::Gray)));
    push_span(&mut spans, span("  [", Style::fg_only(Color::Gray)));
    push_span(&mut spans, span("Cancel", cancel));
    push_span(&mut spans, span("]", Style::fg_only(Color::Gray)));
    let r = line_of(spans, Style::plain());
    assert(r@.spans =~= buttons_line(focus).spans);
    r
}

fn input_lines(
    fields: &Vec<UIWorkflowInputField>,
    focus: DialogFocus,
    repo_name: &str,
    action_name: &str,
    is_confirmation: bool,
) -> (r: Vec<Line>)
    ensures
        lines_view(r@) == input_dialog_lines(fields_view(fields@), focus, repo_name@, action_name@, is_confirmation),
{
    let mut lines: Vec<Line> = Vec::new();
    if is_confirmation {
        let mut q = owned("Are you sure you want to run '");
        append(&mut q, action_name);
        append(&mut q, "' on '");
        append(&mut q, repo_name);
        append(&mut q, "'?");
        push_line(&mut lines, one_line_of(q, Style::fg_only(Color::White)));
        push_line(&mut lines, blank_line());
    } else {
        push_field_lines(&mut lines, fields, focus);
        assert(lines_view(lines@) =~= fields_lines(fields_view(fields@), focus));
    }
    let ghost head = lines_view(lines@);
    push_line(&mut lines, blank_line());
    push_line(&mut lines, buttons(focus));
    push_line(&mut lines, blank_line());
    push_line(
        &mut lines,
        one_line("Tab/Shift+Tab: Navigate • Enter: Select • Escape: Cancel", Style::fg_only(Color::Gray)),
    );
    assert(lines_view(lines@) =~= input_dialog_lines(
        fields_view(fields@),
        focus,
        repo_name@,
        action_name@,
        is_confirmation,
    ));
    lines
}

fn option_row(option: &str, selected: bool) -> (r: Line)
    ensures
        r@ == option_line(option@, selected),
{
    if selected {
        let mut t = owned("▶ ");
        append(&mut t, option);
        one_line_of(t, Style::fg_bg_bold(Color::Black, Color::Yellow))
    } else {
        let mut t = owned("  ");
        append(&mut t, option);
        one_line_of(t, Style::fg_only(Color::White))
    }
}

fn push_visible_options(lines: &mut Vec<Line>, filtered: &Vec<String>, selected: usize, scroll: usize, max: usize)
    ensures
        lines_view(final(lines)@) == lines_view(old(lines)@) + visible_options(
            filtered.deep_view(),
            selected,
            scroll,
            max as nat,
        ),
{
    let ghost fv = filtered.deep_view();
    let ghost head = lines_view(lines@);
    let total = filtered.len();
    let end: usize = if scroll < total && max < total - scroll {
        scroll + max
    } else {
        total
    };
    if scroll >= end {
        assert(visible_options(fv, selected, scroll, max as nat) =~= Seq::<LineView>::empty());
        assert(lines_view(lines@) =~= head + visible_options(fv, selected, scroll, max as nat));
        return;
    }
    let mut i: usize = scroll;
    while i < end
        invariant
            scroll <= i <= end,
            end <= total,
            total == filtered@.len(),
            fv == filtered.deep_view(),
            lines_view(lines@) == head + Seq::new(
                (i - scroll) as nat,
                |k: int| option_line(fv[scroll + k], scroll + k == selected),
            ),
        decreases end - i,
    {
        push_line(lines, option_row(filtered[i].as_str(), i == selected));
        assert(fv[i as int] == filtered@[i as int]@);
        assert(lines_view(lines@) =~= head + Seq::new(
            (i + 1 - scroll) as nat,
            |k: int| option_line(fv[scroll + k], scroll + k == selected),
        ));
        i = i + 1;
    }
    assert(lines_view(lines@) =~= head + visible_options(fv, selected, scroll, max as nat));
}

fn dropdown_head(field_name: &str, query: &str) -> (r: Vec<Line>)
    ensures
        lines_view(r@) == seq![
            one("Select "@ + field_name@, sty(Some(Color::Yellow), None, true)),
            blank(),
            if query@.len() > 0 {
                one("Search: "@ + query@, sty(Some(Color::Cyan), None, false))
            } else {
                one("Search: (type to filter)"@, sty(Some(Color::Gray), None, false))
            },
            blank(),
        ],
{
    let mut lines: Vec<Line> = Vec::new();
    let mut title = owned("Select ");
    append(&mut title, field_name);
    push_line(&mut lines, one_line_of(title, Style::fg_bold(Color::Yellow)));
    push_line(&mut lines, blank_line());
    if !query.is_empty() {
        let mut s = owned("Search: ");
        append(&mut s, query);
        push_line(&mut lines, one_line_of(s, Style::fg_only(Color::Cyan)));
    } else {
        push_line(&mut lines, one_line("Search: (type to filter)", Style::fg_only(Color::Gray)));
    }
    push_line(&mut lines, blank_line());
    lines
}

fn dropdown_body(
    field_name: &str,
    filtered: &Vec<String>,
    selected: usize,
    query: &str,
    scroll: usize,
    area: Rect,
) -> (r: Vec<Line>)
    ensures
        lines_view(r@) == dropdown_lines(field_name@, filtered.deep_view(), selected, query@, scroll, area),
{
    let ghost fv = filtered.deep_view();
    let mut lines = dropdown_head(field_name, query);
    let max: usize = if area.height >= 8 {
        (area.height - 8) as usize
    } else {
        0
    };
    assert(max as nat == options_room(area));
    let total = filtered.len();
    let more_below = scroll < total && max < total - scroll;
    if scroll > 0 {
        push_line(&mut lines, one_line("  ↑ More options above ↑", Style::fg_only(Color::Cyan)));
    }
    push_visible_options(&mut lines, filtered, selected, scroll, max);
    if more_below {
        push_line(&mut lines, one_line("  ↓ More options below ↓", Style::fg_only(Color::Cyan)));
    }
    if total == 0 {
        push_line(&mut lines, one_line("No matches found", Style::fg_only(Color::Red)));
    }
    push_line(&mut lines, blank_line());
    push_line(
        &mut lines,
        one_line(
            "↑↓ or j/k: Navigate • Enter: Select • Escape: Cancel • Type: Search",
            Style::fg_only(Color::Gray),
        ),
    );
    assert(lines_view(lines@) =~= dropdown_lines(field_name@, fv, selected, query@, scroll, area));
    lines
}

/// What an open dialog shows in the popup area `area`.
pub fn dialog_screen_in(dialog: &DialogState, area: Rect) -> (r: DialogScreen)
    ensures
        r@ == spec_dialog_screen(dialog@, area),
{
    match &dialog.dialog_type {
        DialogType::Input { fields, focus, repo_name, action_name, is_confirmation, .. } => {
            let lines = input_lines(fields, *focus, repo_name.as_str(), action_name.as_str(), *is_confirmation);
            let title = if *is_confirmation {
                owned("Confirm Action")
            } else {
                owned("Workflow Inputs")
            };
            DialogScreen { area, title, border: Color::Yellow, lines }
        },
        DialogType::DropdownSelection { field_name, filtered_options, selected, search_query, scroll_offset, .. } => {
            let lines = dropdown_body(
                field_name.as_str(),
                filtered_options,
                *selected,
                search_query.as_str(),
                *scroll_offset,
                area,
            );
            DialogScreen { area, title: owned("Select Option"), border: Color::Cyan, lines }
        },
    }
}

/// What an open dialog shows on a frame: the popup centered in the frame,
/// 70% by 50% for the input form and 60% by 70% for the option list, and
/// the dialog drawn in it.
pub fn dialog_screen(dialog: &DialogState, frame: Rect) -> (r: DialogScreen)
    ensures
        r@ == spec_dialog_screen(dialog@, r.area),
        within(r.area, frame),
        dialog@ is Input ==> centered_in(70, 50, frame, r.area),
        dialog@ is Dropdown ==> centered_in(60, 70, frame, r.area),
{
    let area = match &dialog.dialog_type {
        DialogType::Input { .. } => centered_rect(70, 50, frame),
        DialogType::DropdownSelection { .. } => centered_rect(60, 70, frame),
    };
    dialog_screen_in(dialog, area)
}

} // verus!
