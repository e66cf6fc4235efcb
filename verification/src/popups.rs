//! The overlays: help, menu, value editor and confirmation.

use vstd::prelude::*;

use crate::app;
use crate::app::{App, AppModel, Mode, ModeModel};
use crate::geometry;
use crate::geometry::Rect;
use crate::items;
use crate::items::{Align, Item, ItemModel};
use crate::style;
use crate::style::{Color, Line, LineModel, Span, Style};
use crate::text;

verus! {

/// A line of the help text: the keys, then what they do.
pub open spec fn help_line(keys: Seq<char>, does: Seq<char>) -> LineModel {
    style::line(
        seq![
            style::piece("  "@ + text::padded_to(keys, 15), style::bold(style::fg(Color::Cyan))),
            style::piece(does, style::plain()),
        ],
    )
}

/// The help text.
pub open spec fn help_lines() -> Seq<LineModel> {
    seq![
        help_line("q / Esc"@, "quit (or close this popup)"@),
        help_line("?"@, "toggle this help"@),
        help_line("m"@, "menu: commands & settable variables"@),
        help_line("t / d / s"@, "quick test · deep test · stop test"@),
        help_line("b"@, "toggle beeper on/off"@),
        help_line("↑ ↓ / k j"@, "scroll variables / menu"@),
        help_line("g / G"@, "jump to top / bottom"@),
        help_line("h / l"@, "in menu: close / run selected"@),
        help_line("PgUp PgDn"@, "scroll faster"@),
        help_line("mouse"@, "click the buttons"@),
    ]
}

/// The help text over the rest.
pub open spec fn help_popup(whole: Rect) -> Seq<ItemModel> {
    let area = geometry::middle(whole, 62, help_lines().len() as int + 2);
    seq![
        ItemModel::Clear(area),
        items::panel(
            area,
            help_lines(),
            Align::Left,
            items::titled(" Help — press ? or Esc to close "@, style::plain()),
        ),
    ]
}

fn make_help_line(keys: &str, does: &str) -> (res: Line)
    ensures
        res@ == help_line(keys@, does@),
{
    let mut first: String = "  ".to_owned();
    first.append(text::padded(keys, 15).as_str());
    Line::two(
        Span::new(first.as_str(), Style::fg(Color::Cyan).bold()),
        Span::new(does, Style::plain()),
    )
}

fn draw_help_popup(whole: Rect) -> (res: Vec<Item>)
    ensures
        items::items_view(res@) == help_popup(whole),
{
    let mut lines: Vec<Line> = Vec::new();
    lines.push(make_help_line("q / Esc", "quit (or close this popup)"));
    lines.push(make_help_line("?", "toggle this help"));
    lines.push(make_help_line("m", "menu: commands & settable variables"));
    lines.push(make_help_line("t / d / s", "quick test · deep test · stop test"));
    lines.push(make_help_line("b", "toggle beeper on/off"));
    lines.push(make_help_line("↑ ↓ / k j", "scroll variables / menu"));
    lines.push(make_help_line("g / G", "jump to top / bottom"));
    lines.push(make_help_line("h / l", "in menu: close / run selected"));
    lines.push(make_help_line("PgUp PgDn", "scroll faster"));
    lines.push(make_help_line("mouse", "click the buttons"));
    assert(style::lines_view(lines@) =~= help_lines());
    let area: Rect = geometry::popup_area(whole, 62, 12);
    let mut out: Vec<Item> = Vec::new();
    out.push(Item::Clear(area));
    out.push(
        items::make_panel(
            area,
            lines,
            Align::Left,
            items::border_with(" Help — press ? or Esc to close ", Style::plain()),
        ),
    );
    assert(items::items_view(out@) =~= help_popup(whole));
    out
}

/// The row of a command: red where it needs a confirmation.
pub open spec fn command_row(name: Seq<char>, desc: Seq<char>) -> LineModel {
    style::line(
        seq![
            style::piece(
                " "@ + text::padded_to(name, 28),
                style::fg(
                    if app::dangerous(name) {
                        Color::Red
                    } else {
                        Color::Cyan
                    },
                ),
            ),
            style::piece(desc, style::gray()),
        ],
    )
}

/// The row of a variable that can be set.
pub open spec fn variable_row(a: AppModel, name: Seq<char>) -> LineModel {
    style::line(
        seq![
            style::piece(" set "@ + text::padded_to(name, 24), style::fg(Color::Yellow)),
            style::piece(
                "current "@ + app::shown(a, name) + " · Enter to edit"@,
                style::gray(),
            ),
        ],
    )
}

/// The rows of the menu: the commands, then the variables that can be set.
pub open spec fn menu_lines(a: AppModel) -> Seq<LineModel> {
    a.cmds.map_values(|p: (Seq<char>, Seq<char>)| command_row(p.0, p.1)) + a.rw.map_values(
        |name: Seq<char>| variable_row(a, name),
    )
}

/// The menu over the rest, as high as its rows need where the screen has room.
pub open spec fn menu_popup(a: AppModel, whole: Rect) -> Seq<ItemModel> {
    if app::menu_rows(a) == 0 {
        let area = geometry::middle(whole, 56, 3);
        seq![
            ItemModel::Clear(area),
            items::panel(
                area,
                seq![style::words("command list not loaded yet (server unreachable?)"@)],
                Align::Center,
                items::titled(" Commands "@, style::plain()),
            ),
        ]
    } else {
        let area = geometry::middle(whole, 78, app::menu_rows(a) + 2);
        seq![
            ItemModel::Clear(area),
            ItemModel::Menu {
                area,
                title:
                    " Commands & settings — Enter runs or edits · red needs y/N confirm · Esc closes "@,
                lines: menu_lines(a),
                selected: style::reversed(),
            },
        ]
    }
}

fn make_command_row(name: &str, desc: &str) -> (res: Line)
    ensures
        res@ == command_row(name@, desc@),
{
    let mut first: String = " ".to_owned();
    first.append(text::padded(name, 28).as_str());
    let color: Color = if app::is_dangerous(name) {
        Color::Red
    } else {
        Color::Cyan
    };
    Line::two(Span::new(first.as_str(), Style::fg(color)), Span::new(desc, Style::gray()))
}

fn make_variable_row(a: &App, name: &str) -> (res: Line)
    ensures
        res@ == variable_row(a@, name@),
{
    let mut first: String = " set ".to_owned();
    first.append(text::padded(name, 24).as_str());
    let mut now: String = "current ".to_owned();
    now.append(a.s(name));
    now.append(" · Enter to edit");
    Line::two(
        Span::new(first.as_str(), Style::fg(Color::Yellow)),
        Span::new(now.as_str(), Style::gray()),
    )
}

fn make_menu_lines(a: &App) -> (res: Vec<Line>)
    ensures
        style::lines_view(res@) == menu_lines(a@),
{
    let ghost cmd_rows = a@.cmds.map_values(|p: (Seq<char>, Seq<char>)| command_row(p.0, p.1));
    let ghost rw_rows = a@.rw.map_values(|name: Seq<char>| variable_row(a@, name));
    let mut out: Vec<Line> = Vec::new();
    let mut i: usize = 0;
    while i < a.cmds.len()
        invariant
            i <= a.cmds@.len(),
            cmd_rows == a@.cmds.map_values(|p: (Seq<char>, Seq<char>)| command_row(p.0, p.1)),
            style::lines_view(out@) =~= cmd_rows.take(i as int),
        decreases a.cmds@.len() - i,
    {
        let ghost before = style::lines_view(out@);
        out.push(make_command_row(a.cmds[i].0.as_str(), a.cmds[i].1.as_str()));
        assert(style::lines_view(out@) =~= before.push(cmd_rows[i as int]));
        i = i + 1;
    }
    let mut k: usize = 0;
    assert(style::lines_view(out@) =~= cmd_rows + rw_rows.take(0));
    while k < a.rw.len()
        invariant
            k <= a.rw@.len(),
            rw_rows == a@.rw.map_values(|name: Seq<char>| variable_row(a@, name)),
            style::lines_view(out@) =~= cmd_rows + rw_rows.take(k as int),
        decreases a.rw@.len() - k,
    {
        let ghost before = style::lines_view(out@);
        out.push(make_variable_row(a, a.rw[k].as_str()));
        assert(style::lines_view(out@) =~= before.push(rw_rows[k as int]));
        k = k + 1;
    }
    assert(cmd_rows + rw_rows.take(k as int) =~= menu_lines(a@));
    out
}

fn draw_menu_popup(a: &App, whole: Rect) -> (res: Vec<Item>)
    ensures
        items::items_view(res@) == menu_popup(a@, whole),
{
    let mut out: Vec<Item> = Vec::new();
    let len: usize = a.menu_len();
    if len == 0 {
        let area: Rect = geometry::popup_area(whole, 56, 3);
        let mut lines: Vec<Line> = Vec::new();
        lines.push(Line::words("command list not loaded yet (server unreachable?)"));
        assert(style::lines_view(lines@) =~= seq![
            style::words("command list not loaded yet (server unreachable?)"@),
        ]);
        out.push(Item::Clear(area));
        out.push(
            items::make_panel(
                area,
                lines,
                Align::Center,
                items::border_with(" Commands ", Style::plain()),
            ),
        );
    } else {
        // No screen has room for more.
        let rows: u32 = if len < 65536 {
            len as u32
        } else {
            65536
        };
        let area: Rect = geometry::popup_area(whole, 78, rows + 2);
        out.push(Item::Clear(area));
        out.push(
            Item::Menu {
                area,
                title:
                    " Commands & settings — Enter runs or edits · red needs y/N confirm · Esc closes ".to_owned(),
                lines: make_menu_lines(a),
                selected: Style::reversed(),
            },
        );
    }
    assert(items::items_view(out@) =~= menu_popup(a@, whole));
    out
}

/// The editor of a value over the rest.
pub open spec fn set_var_popup(a: AppModel, name: Seq<char>, buffer: Seq<char>, whole: Rect) -> Seq<
    ItemModel,
> {
    let area = geometry::middle(whole, 46, 6);
    seq![
        ItemModel::Clear(area),
        items::panel(
            area,
            seq![
                style::line(seq![style::piece(name, style::bold(style::fg(Color::Yellow)))]),
                style::words("current: "@ + app::shown(a, name)),
                style::line(
                    seq![
                        style::piece("new: "@, style::plain()),
                        style::piece(buffer + "_"@, style::bold(style::fg(Color::Cyan))),
                    ],
                ),
                style::line(
                    seq![style::piece("digits · Enter apply · Esc cancel"@, style::gray())],
                ),
            ],
            Align::Center,
            items::titled(" Set variable "@, style::fg(Color::Yellow)),
        ),
    ]
}

fn draw_setvar_popup(a: &App, name: &str, buffer: &str, whole: Rect) -> (res: Vec<Item>)
    ensures
        items::items_view(res@) == set_var_popup(a@, name@, buffer@, whole),
{
    let area: Rect = geometry::popup_area(whole, 46, 6);
    let mut current: String = "current: ".to_owned();
    current.append(a.s(name));
    let mut typed: String = buffer.to_owned();
    typed.append("_");
    let mut lines: Vec<Line> = Vec::new();
    lines.push(Line::one(Span::new(name, Style::fg(Color::Yellow).bold())));
    lines.push(Line::words(current.as_str()));
    lines.push(
        Line::two(
            Span::new("new: ", Style::plain()),
            Span::new(typed.as_str(), Style::fg(Color::Cyan).bold()),
        ),
    );
    lines.push(Line::one(Span::new("digits · Enter apply · Esc cancel", Style::gray())));
    let ghost shown = style::lines_view(lines@);
    assert(shown =~= seq![
        style::line(seq![style::piece(name@, style::bold(style::fg(Color::Yellow)))]),
        style::words("current: "@ + app::shown(a@, name@)),
        style::line(
            seq![
                style::piece("new: "@, style::plain()),
                style::piece(buffer@ + "_"@, style::bold(style::fg(Color::Cyan))),
            ],
        ),
        style::line(seq![style::piece("digits · Enter apply · Esc cancel"@, style::gray())]),
    ]);
    let mut out: Vec<Item> = Vec::new();
    out.push(Item::Clear(area));
    out.push(
        items::make_panel(
            area,
            lines,
            Align::Center,
            items::border_with(" Set variable ", Style::fg(Color::Yellow)),
        ),
    );
    assert(items::items_view(out@) =~= set_var_popup(a@, name@, buffer@, whole));
    out
}

/// The question whether to run a command over the rest.
pub open spec fn confirm_popup(cmd: Seq<char>, whole: Rect) -> Seq<ItemModel> {
    let area = geometry::middle(whole, 60, 5);
    let red = style::bold(style::fg(Color::Red));
    seq![
        ItemModel::Clear(area),
        items::panel(
            area,
            seq![
                style::line(
                    seq![
                        style::piece("Really run "@, style::plain()),
                        style::piece(cmd, red),
                        style::piece("?"@, style::plain()),
                    ],
                ),
                style::words("This can cut output power or shut the system down."@),
                style::line(
                    seq![
                        style::piece("y"@, red),
                        style::piece(" to confirm · any other key to cancel"@, style::plain()),
                    ],
                ),
            ],
            Align::Center,
            items::titled(" Confirm "@, style::fg(Color::Red)),
        ),
    ]
}

fn draw_confirm_popup(cmd: &str, whole: Rect) -> (res: Vec<Item>)
    ensures
        items::items_view(res@) == confirm_popup(cmd@, whole),
{
    let area: Rect = geometry::popup_area(whole, 60, 5);
    let red: Style = Style::fg(Color::Red).bold();
    let mut lines: Vec<Line> = Vec::new();
    lines.push(
        Line::three(
            Span::new("Really run ", Style::plain()),
            Span::new(cmd, red),
            Span::new("?", Style::plain()),
        ),
    );
    lines.push(Line::words("This can cut output power or shut the system down."));
    lines.push(
        Line::two(
            Span::new("y", red),
            Span::new(" to confirm · any other key to cancel", Style::plain()),
        ),
    );
    let ghost shown = style::lines_view(lines@);
    assert(shown =~= seq![
        style::line(
            seq![
                style::piece("Really run "@, style::plain()),
                style::piece(cmd@, red),
                style::piece("?"@, style::plain()),
            ],
        ),
        style::words("This can cut output power or shut the system down."@),
        style::line(
            seq![
                style::piece("y"@, red),
                style::piece(" to confirm · any other key to cancel"@, style::plain()),
            ],
        ),
    ]);
    let mut out: Vec<Item> = Vec::new();
    out.push(Item::Clear(area));
    out.push(
        items::make_panel(
            area,
            lines,
            Align::Center,
            items::border_with(" Confirm ", Style::fg(Color::Red)),
        ),
    );
    assert(items::items_view(out@) =~= confirm_popup(cmd@, whole));
    out
}

/// The overlay that owns the keyboard, if there is one.
pub open spec fn popup(a: AppModel, whole: Rect) -> Seq<ItemModel> {
    match a.mode {
        ModeModel::Normal => Seq::empty(),
        ModeModel::Help => help_popup(whole),
        ModeModel::Menu => menu_popup(a, whole),
        ModeModel::Confirm(cmd) => confirm_popup(cmd, whole),
        ModeModel::SetVar { name, buffer } => set_var_popup(a, name, buffer, whole),
    }
}

/// Computes the overlay that owns the keyboard.
pub fn draw_popup(a: &App, whole: Rect) -> (res: Vec<Item>)
    ensures
        items::items_view(res@) == popup(a@, whole),
{
    match &a.mode {
        Mode::Normal => {
            let none: Vec<Item> = Vec::new();
            assert(items::items_view(none@) =~= Seq::<ItemModel>::empty());
            none
        },
        Mode::Help => draw_help_popup(whole),
        Mode::Menu => draw_menu_popup(a, whole),
        Mode::Confirm(cmd) => draw_confirm_popup(cmd.as_str(), whole),
        Mode::SetVar { name, buffer } => draw_setvar_popup(
            a,
            name.as_str(),
            buffer.as_str(),
            whole,
        ),
    }
}

} // verus!
