//! Promises of the keyboard and the mouse: what each key does in each mode, what the
//! buttons send, and what a value that is typed in comes to.

use vstd::prelude::*;

use crate::app;
use crate::app::{AppModel, Cursor, ModeModel, WorkerCmdModel};
use crate::geometry::Rect;
use crate::input;
use crate::input::{Key, ReactionModel};
use crate::laws;
use crate::number;

verus! {

// -------------------------------------------------------------------- typing

/// Each of the ten digits is added to the value that is edited, with and without
/// Control, and does nothing else.
pub proof fn digit_is_added(
    a: AppModel,
    name: Seq<char>,
    buffer: Seq<char>,
    c: char,
    ctrl: bool,
    now: u128,
)
    requires
        a.mode == (ModeModel::SetVar { name, buffer }),
        number::is_digit(c) || '0' <= c <= '9',
    ensures
        input::pressed(a, Key::Char(c), ctrl, now) == (
            AppModel { mode: ModeModel::SetVar { name, buffer: buffer.push(c) }, ..a },
            ReactionModel::Stay,
        ),
{
}

/// The dashboard after the keys of a text, pressed one by one.
pub open spec fn typed(a: AppModel, keys: Seq<char>, now: u128) -> AppModel
    decreases keys.len(),
{
    if keys.len() == 0 {
        a
    } else {
        input::pressed(typed(a, keys.drop_last(), now), Key::Char(keys.last()), false, now).0
    }
}

/// Whether a text is made of the digits from 0 to 9.
pub open spec fn only_digits(s: Seq<char>) -> bool {
    forall|i: int| 0 <= i < s.len() ==> '0' <= #[trigger] s[i] <= '9'
}

/// Typing digits adds them to the value, in their order, and Enter sends exactly what
/// stands there, for the variable that is edited; back with no overlay open, only the
/// note of it is new.
pub proof fn typed_digits_are_sent(
    a: AppModel,
    name: Seq<char>,
    buffer: Seq<char>,
    digits: Seq<char>,
    now: u128,
)
    requires
        a.mode == (ModeModel::SetVar { name, buffer }),
        only_digits(digits),
    ensures
        typed(a, digits, now) == (AppModel {
            mode: ModeModel::SetVar { name, buffer: buffer + digits },
            ..a
        }),
        ({
            let (b, reaction) = input::pressed(typed(a, digits, now), Key::Enter, false, now);
            &&& reaction == ReactionModel::Send(
                WorkerCmdModel::SetVar { name, value: buffer + digits },
            )
            &&& b.log.len() > 0
            &&& b.log.last() == app::log_line(
                (now / 1_000_000_000) as nat,
                "→ "@ + ("set "@ + name),
            )
            &&& b == (AppModel { mode: ModeModel::Normal, log: b.log, ..a })
        }),
    decreases digits.len(),
{
    if digits.len() == 0 {
        assert(buffer + digits =~= buffer);
        assert(typed(a, digits, now) == a);
    } else {
        let front = digits.drop_last();
        assert forall|i: int| 0 <= i < front.len() implies '0' <= #[trigger] front[i] <= '9' by {
            assert(front[i] == digits[i]);
        }
        typed_digits_are_sent(a, name, buffer, front, now);
        assert((buffer + front).push(digits.last()) =~= buffer + digits);
        digit_is_added(
            typed(a, front, now),
            name,
            buffer + front,
            digits[digits.len() - 1],
            false,
            now,
        );
    }
    laws::state::note_is_appended(typed(a, digits, now), "→ "@ + ("set "@ + name), now, 0);
}

/// Every whole number can be set: Enter on the row of a variable in the menu, the digits
/// of the number, Enter again, and the variable of that row is sent with that number.
pub proof fn number_is_set_from_the_menu(a: AppModel, i: int, n: nat, now: u128)
    requires
        a.mode is Menu,
        0 <= i < a.rw.len(),
        a.menu_state.selected matches Some(row) && row == a.cmds.len() + i,
    ensures
        ({
            let editing = input::pressed(a, Key::Enter, false, now).0;
            let ready = typed(editing, number::decimal_of(n), now);
            input::pressed(ready, Key::Enter, false, now).1 == ReactionModel::Send(
                WorkerCmdModel::SetVar { name: a.rw[i], value: number::decimal_of(n) },
            )
        }),
{
    let editing = input::pressed(a, Key::Enter, false, now).0;
    let none = Seq::<char>::empty();
    laws::state::menu_rows_in_order(a, i);
    assert(editing.mode == (ModeModel::SetVar { name: a.rw[i], buffer: none }));
    lemma_decimal_is_digits(n);
    typed_digits_are_sent(editing, a.rw[i], none, number::decimal_of(n), now);
    assert(none + number::decimal_of(n) =~= number::decimal_of(n));
}

proof fn lemma_decimal_is_digits(n: nat)
    ensures
        only_digits(number::decimal_of(n)),
    decreases n,
{
    if n >= 10 {
        lemma_decimal_is_digits(n / 10);
    }
}

/// While a value is edited, Esc goes back to the menu without sending anything, and a
/// key that is no digit, no Enter and no Esc does nothing.
pub proof fn other_keys_while_editing(
    a: AppModel,
    name: Seq<char>,
    buffer: Seq<char>,
    key: Key,
    now: u128,
)
    requires
        a.mode == (ModeModel::SetVar { name, buffer }),
    ensures
        input::pressed(a, Key::Esc, false, now) == (
            AppModel { mode: ModeModel::Menu, ..a },
            ReactionModel::Stay,
        ),
        match key {
            Key::Enter | Key::Esc => true,
            Key::Char(c) => ('0' <= c <= '9') || input::pressed(a, key, false, now) == (
                a,
                ReactionModel::Stay,
            ),
            _ => input::pressed(a, key, false, now) == (a, ReactionModel::Stay),
        },
{
}

// ------------------------------------------------------------------- overlays

/// The help text is closed by `q`, `?`, `h`, Esc and Enter, and by nothing else; no key
/// does more than that there.
pub proof fn keys_over_the_help(a: AppModel, key: Key, now: u128)
    requires
        a.mode is Help,
    ensures
        ({
            let closes = key == Key::Char('q') || key == Key::Char('?') || key == Key::Char('h')
                || key == Key::Esc || key == Key::Enter;
            &&& closes ==> input::pressed(a, key, false, now) == (
                AppModel { mode: ModeModel::Normal, ..a },
                ReactionModel::Stay,
            )
            &&& !closes ==> input::pressed(a, key, false, now) == (a, ReactionModel::Stay)
        }),
{
}

/// How far a key moves the cursor: arrows and `k`, `j` by one row, the page keys by ten,
/// `g` and `G` to an end. No other key does.
pub proof fn keys_that_scroll(key: Key)
    ensures
        input::scroll_of(Key::Up) == Some((-1) as i64),
        input::scroll_of(Key::Char('k')) == Some((-1) as i64),
        input::scroll_of(Key::Down) == Some(1i64),
        input::scroll_of(Key::Char('j')) == Some(1i64),
        input::scroll_of(Key::PageUp) == Some((-10) as i64),
        input::scroll_of(Key::PageDown) == Some(10i64),
        input::scroll_of(Key::Char('g')) == Some(i64::MIN),
        input::scroll_of(Key::Char('G')) == Some(i64::MAX),
        input::scroll_of(key) is Some ==> {
            ||| key == Key::Up
            ||| key == Key::Down
            ||| key == Key::PageUp
            ||| key == Key::PageDown
            ||| key == Key::Char('k')
            ||| key == Key::Char('j')
            ||| key == Key::Char('g')
            ||| key == Key::Char('G')
        },
{
}

/// The row that a key goes to from a row of a list: the one above or below, the one ten
/// above or below, the first or the last, and never beyond the ends. Other keys go
/// nowhere.
pub open spec fn goes_to(key: Key, row: int, len: int) -> Option<int> {
    let at = |to: int|
        if to < 0 {
            0
        } else if to >= len {
            len - 1
        } else {
            to
        };
    if key == Key::Up || key == Key::Char('k') {
        Some(at(row - 1))
    } else if key == Key::Down || key == Key::Char('j') {
        Some(at(row + 1))
    } else if key == Key::PageUp {
        Some(at(row - 10))
    } else if key == Key::PageDown {
        Some(at(row + 10))
    } else if key == Key::Char('g') {
        Some(0)
    } else if key == Key::Char('G') {
        Some(len - 1)
    } else {
        None
    }
}

/// The keys that scroll move the cursor of the variable table with no overlay open, and
/// that of the menu over the menu, and change nothing else.
pub proof fn keys_move_the_cursors(a: AppModel, key: Key, row: int, now: u128)
    requires
        a.vars.len() <= usize::MAX,
        a.vars.len() <= i64::MAX,
        a.cmds.len() + a.rw.len() <= usize::MAX,
        a.cmds.len() + a.rw.len() <= i64::MAX,
        0 <= row <= i64::MAX - 10,
        row <= usize::MAX,
    ensures
        a.mode is Normal && a.vars.len() > 0 && goes_to(key, row, a.vars.len() as int) is Some && (
        a.table_state.selected == Some(row as usize) || (a.table_state.selected is None && row == 0))
            ==> input::pressed(a, key, false, now) == (
            AppModel {
                table_state: Cursor {
                    selected: Some((goes_to(key, row, a.vars.len() as int)->0) as usize),
                    offset: a.table_state.offset,
                },
                ..a
            },
            ReactionModel::Stay,
        ),
        a.mode is Menu && a.cmds.len() + a.rw.len() > 0 && goes_to(
            key,
            row,
            (a.cmds.len() + a.rw.len()) as int,
        ) is Some && (a.menu_state.selected == Some(row as usize) || (a.menu_state.selected is None
            && row == 0)) ==> input::pressed(a, key, false, now) == (
            AppModel {
                menu_state: Cursor {
                    selected: Some(
                        (goes_to(key, row, (a.cmds.len() + a.rw.len()) as int)->0) as usize,
                    ),
                    offset: a.menu_state.offset,
                },
                ..a
            },
            ReactionModel::Stay,
        ),
        a.mode is Normal && a.vars.len() == 0 && goes_to(key, 0, 1) is Some ==> input::pressed(
            a,
            key,
            false,
            now,
        ) == (a, ReactionModel::Stay),
        a.mode is Menu && a.cmds.len() + a.rw.len() == 0 && goes_to(key, 0, 1) is Some
            ==> input::pressed(a, key, false, now) == (a, ReactionModel::Stay),
{
    keys_that_scroll(key);
    if let Some(delta) = input::scroll_of(key) {
        if a.vars.len() > 0 && (a.table_state.selected == Some(row as usize) || (
        a.table_state.selected is None && row == 0)) {
            laws::state::cursor_moves_by_rows(a.table_state, a.vars.len(), delta, row);
        }
        if a.cmds.len() + a.rw.len() > 0 && (a.menu_state.selected == Some(row as usize) || (
        a.menu_state.selected is None && row == 0)) {
            laws::state::cursor_moves_by_rows(
                a.menu_state,
                a.cmds.len() + a.rw.len(),
                delta,
                row,
            );
        }
    }
}

/// The menu is closed by `q`, `m`, `h` and Esc; `?` shows the help instead. Keys that
/// neither do this nor scroll nor activate a row do nothing.
pub proof fn keys_over_the_menu(a: AppModel, key: Key, now: u128)
    requires
        a.mode is Menu,
    ensures
        ({
            let closes = key == Key::Char('q') || key == Key::Char('m') || key == Key::Char('h')
                || key == Key::Esc;
            &&& closes ==> input::pressed(a, key, false, now) == (
                AppModel { mode: ModeModel::Normal, ..a },
                ReactionModel::Stay,
            )
            &&& input::pressed(a, Key::Char('?'), false, now) == (
                AppModel { mode: ModeModel::Help, ..a },
                ReactionModel::Stay,
            )
            &&& !closes && key != Key::Char('?') && key != Key::Enter && key != Key::Char('l')
                && goes_to(key, 0, 1) is None ==> input::pressed(a, key, false, now) == (
                a,
                ReactionModel::Stay,
            )
        }),
{
}

/// Enter and `l` over the menu activate the selected row: the i-th row runs the i-th
/// command, at once or after a question where it is dangerous; behind the commands a row
/// opens its variable for editing, with an empty value. With no row selected nothing
/// happens.
pub proof fn row_is_activated(a: AppModel, key: Key, i: int, now: u128)
    requires
        a.mode is Menu,
        key == Key::Enter || key == Key::Char('l'),
    ensures
        (a.menu_state.selected matches Some(row) && row == i) && 0 <= i < a.cmds.len()
            && app::dangerous(a.cmds[i].0) ==> input::pressed(a, key, false, now) == (
            AppModel { mode: ModeModel::Confirm(a.cmds[i].0), ..a },
            ReactionModel::Stay,
        ),
        (a.menu_state.selected matches Some(row) && row == i) && 0 <= i < a.cmds.len()
            && !app::dangerous(a.cmds[i].0) && a.cmds[i].0 != "beeper"@ ==> {
            let (b, reaction) = input::pressed(a, key, false, now);
            &&& reaction == ReactionModel::Send(WorkerCmdModel::Inst(a.cmds[i].0))
            &&& b.mode is Normal
            &&& b.log.len() > 0
            &&& b.log.last() == app::log_line(
                (now / 1_000_000_000) as nat,
                "→ "@ + a.cmds[i].0,
            )
            &&& b == (AppModel { mode: ModeModel::Normal, log: b.log, ..a })
        },
        (a.menu_state.selected matches Some(row) && row == i) && 0 <= i < a.cmds.len() && a.cmds[i].0
            == "beeper"@ ==> input::pressed(a, key, false, now) == input::pressed(
            AppModel { mode: ModeModel::Normal, ..a },
            Key::Char('b'),
            false,
            now,
        ),
        (a.menu_state.selected matches Some(row) && row == a.cmds.len() + i) && 0 <= i < a.rw.len()
            ==> input::pressed(a, key, false, now) == (
            AppModel {
                mode: ModeModel::SetVar { name: a.rw[i], buffer: Seq::empty() },
                ..a
            },
            ReactionModel::Stay,
        ),
        a.menu_state.selected is None ==> input::pressed(a, key, false, now) == (
            a,
            ReactionModel::Stay,
        ),
        (a.menu_state.selected matches Some(row) && row >= a.cmds.len() + a.rw.len())
            ==> input::pressed(a, key, false, now) == (a, ReactionModel::Stay),
{
    lemma_button_commands();
    lemma_beeper_is_no_danger();
    if 0 <= i < a.cmds.len() {
        laws::state::note_is_appended(a, "→ "@ + a.cmds[i].0, now, 0);
    }
}

proof fn lemma_beeper_is_no_danger()
    ensures
        !app::dangerous("beeper"@),
{
    laws::state::dangerous_commands(Seq::empty(), "beeper"@);
    reveal_strlit("beeper");
    reveal_strlit("driver.killpower");
    assert("beeper"@.len() == 6 && "driver.killpower"@.len() == 16);
}

/// A yes, as `y` or `Y`, runs the command that was asked about and closes the question.
pub proof fn yes_runs_the_command(a: AppModel, cmd: Seq<char>, key: Key, now: u128)
    requires
        a.mode == ModeModel::Confirm(cmd),
        cmd != "beeper"@,
        key == Key::Char('y') || key == Key::Char('Y'),
    ensures
        ({
            let (b, reaction) = input::pressed(a, key, false, now);
            &&& reaction == ReactionModel::Send(WorkerCmdModel::Inst(cmd))
            &&& b.log.len() > 0
            &&& b.log.last() == app::log_line((now / 1_000_000_000) as nat, "→ "@ + cmd)
            &&& b == (AppModel { mode: ModeModel::Normal, log: b.log, ..a })
        }),
{
    laws::state::note_is_appended(a, "→ "@ + cmd, now, 0);
}

/// Any other key than a yes goes back to the menu, with nothing sent and nothing else
/// changed.
pub proof fn no_yes_sends_nothing(a: AppModel, cmd: Seq<char>, key: Key, now: u128)
    requires
        a.mode == ModeModel::Confirm(cmd),
        key != Key::Char('y'),
        key != Key::Char('Y'),
    ensures
        input::pressed(a, key, false, now) == (
            AppModel { mode: ModeModel::Menu, ..a },
            ReactionModel::Stay,
        ),
{
}

// ------------------------------------------------------------- without overlay

/// With no overlay open `?` shows the help and `m` the menu. `q` and Esc end the
/// program, and so does Control-C in every mode, with nothing else changed.
pub proof fn keys_without_overlay(a: AppModel, now: u128)
    ensures
        a.mode is Normal ==> input::pressed(a, Key::Char('?'), false, now) == (
            AppModel { mode: ModeModel::Help, ..a },
            ReactionModel::Stay,
        ),
        a.mode is Normal ==> input::pressed(a, Key::Char('m'), false, now) == (
            AppModel { mode: ModeModel::Menu, ..a },
            ReactionModel::Stay,
        ),
        a.mode is Normal ==> input::pressed(a, Key::Char('q'), false, now) == (
            a,
            ReactionModel::Quit,
        ),
        a.mode is Normal ==> input::pressed(a, Key::Esc, false, now) == (a, ReactionModel::Quit),
        input::pressed(a, Key::Char('c'), true, now) == (a, ReactionModel::Quit),
{
}

/// Control makes no difference to any key but `c`.
pub proof fn control_matters_for_c_only(a: AppModel, key: Key, now: u128)
    requires
        key != Key::Char('c'),
    ensures
        input::pressed(a, key, true, now) == input::pressed(a, key, false, now),
{
}

/// Whether a command goes out: it is sent, it is noted with an arrow before it, and
/// nothing but the log changes.
pub open spec fn goes_out(
    a: AppModel,
    res: (AppModel, ReactionModel),
    cmd: Seq<char>,
    now: u128,
) -> bool {
    &&& res.1 == ReactionModel::Send(WorkerCmdModel::Inst(cmd))
    &&& res.0.log.len() > 0
    &&& res.0.log.last() == app::log_line((now / 1_000_000_000) as nat, "→ "@ + cmd)
    &&& res.0 == (AppModel { log: res.0.log, ..a })
}

/// The keys of the buttons: `t` starts the quick test, `d` the deep one, `s` stops a
/// test. `b` turns the beeper off where the device reports it as enabled, and else on.
pub proof fn button_keys_send_their_commands(a: AppModel, now: u128)
    requires
        a.mode is Normal,
    ensures
        goes_out(
            a,
            input::pressed(a, Key::Char('t'), false, now),
            "test.battery.start.quick"@,
            now,
        ),
        goes_out(
            a,
            input::pressed(a, Key::Char('d'), false, now),
            "test.battery.start.deep"@,
            now,
        ),
        goes_out(a, input::pressed(a, Key::Char('s'), false, now), "test.battery.stop"@, now),
        a.vars.contains_key("ups.beeper.status"@) && a.vars["ups.beeper.status"@] == "enabled"@
            ==> goes_out(a, input::pressed(a, Key::Char('b'), false, now), "beeper.disable"@, now),
        a.vars.contains_key("ups.beeper.status"@) && a.vars["ups.beeper.status"@] != "enabled"@
            ==> goes_out(a, input::pressed(a, Key::Char('b'), false, now), "beeper.enable"@, now),
        !a.vars.contains_key("ups.beeper.status"@) ==> goes_out(
            a,
            input::pressed(a, Key::Char('b'), false, now),
            "beeper.enable"@,
            now,
        ),
{
    lemma_button_commands();
    laws::state::note_is_appended(a, "→ "@ + "test.battery.start.quick"@, now, 0);
    laws::state::note_is_appended(a, "→ "@ + "test.battery.start.deep"@, now, 0);
    laws::state::note_is_appended(a, "→ "@ + "test.battery.stop"@, now, 0);
    laws::state::note_is_appended(a, "→ "@ + "beeper.disable"@, now, 0);
    laws::state::note_is_appended(a, "→ "@ + "beeper.enable"@, now, 0);
    reveal_strlit("enabled");
    reveal_strlit("–");
    assert("enabled"@.len() == 7 && "–"@.len() == 1);
}

proof fn lemma_button_commands()
    ensures
        input::command_of(input::all_buttons(), 't') == Some("test.battery.start.quick"@),
        input::command_of(input::all_buttons(), 'd') == Some("test.battery.start.deep"@),
        input::command_of(input::all_buttons(), 's') == Some("test.battery.stop"@),
        input::command_of(input::all_buttons(), 'b') == Some("beeper"@),
        forall|c: char|
            c != 't' && c != 'd' && c != 's' && c != 'b' ==> (#[trigger] input::command_of(
                input::all_buttons(),
                c,
            )) is None,
        "test.battery.start.quick"@ != "beeper"@,
        "test.battery.start.deep"@ != "beeper"@,
        "test.battery.stop"@ != "beeper"@,
{
    reveal_with_fuel(input::command_of, 5);
    reveal_strlit("test.battery.start.quick");
    reveal_strlit("test.battery.start.deep");
    reveal_strlit("test.battery.stop");
    reveal_strlit("beeper");
    assert("test.battery.start.quick"@[0] == 't' && "test.battery.start.deep"@[0] == 't');
    assert("test.battery.stop"@[0] == 't' && "beeper"@[0] == 'b');
}

/// With no overlay open no other key does anything.
pub proof fn other_keys_do_nothing(a: AppModel, key: Key, now: u128)
    requires
        a.mode is Normal,
        key != Key::Char('q'),
        key != Key::Esc,
        key != Key::Char('?'),
        key != Key::Char('m'),
        key != Key::Char('t'),
        key != Key::Char('d'),
        key != Key::Char('s'),
        key != Key::Char('b'),
        goes_to(key, 0, 1) is None,
    ensures
        input::pressed(a, key, false, now) == (a, ReactionModel::Stay),
{
    lemma_button_commands();
}

/// The buttons from left to right: what they are called, which key presses them too.
pub proof fn buttons_from_left_to_right()
    ensures
        ({
            let b = input::all_buttons();
            &&& b.len() == 4
            &&& b[0].label == "Quick test"@ && b[0].key == 't'
            &&& b[1].label == "Deep test"@ && b[1].key == 'd'
            &&& b[2].label == "Stop test"@ && b[2].key == 's'
            &&& b[3].label == "Beeper"@ && b[3].key == 'b'
        }),
        forall|i: int|
            0 <= i < 4 ==> input::command_of(
                input::all_buttons(),
                #[trigger] input::all_buttons()[i].key,
            ) == Some(input::all_buttons()[i].cmd),
{
    lemma_button_commands();
}

// ---------------------------------------------------------------------- mouse

/// Whether a cell lies in an area. The outermost row and column that can be numbered
/// lie in none.
pub open spec fn covers(r: Rect, column: u16, row: u16) -> bool {
    &&& r.x <= column < r.x + r.width && column < 65535
    &&& r.y <= row < r.y + r.height && row < 65535
}

/// A click finds the first box that holds the cell: a box before the others decides if
/// it holds the cell, and else the others do.
pub proof fn first_box_is_hit(
    area: Rect,
    cmd: Seq<char>,
    boxes: Seq<(Rect, Seq<char>)>,
    column: u16,
    row: u16,
)
    ensures
        covers(area, column, row) ==> input::hit(seq![(area, cmd)] + boxes, column, row) == Some(
            cmd,
        ),
        !covers(area, column, row) ==> input::hit(seq![(area, cmd)] + boxes, column, row)
            == input::hit(boxes, column, row),
        input::hit(Seq::empty(), column, row) is None,
{
    let all = seq![(area, cmd)] + boxes;
    assert(all.drop_first() =~= boxes);
    assert(all[0] == (area, cmd));
}

/// A click with no overlay open sends the command of the box that it hits, as the key of
/// the button would; one that hits none does nothing.
pub proof fn click_sends_the_command(
    a: AppModel,
    cmd: Seq<char>,
    column: u16,
    row: u16,
    now: u128,
)
    requires
        a.mode is Normal,
    ensures
        input::hit(a.buttons, column, row) == Some(cmd) && cmd != "beeper"@ ==> goes_out(
            a,
            input::clicked(a, column, row, now),
            cmd,
            now,
        ),
        input::hit(a.buttons, column, row) == Some("beeper"@) ==> input::clicked(
            a,
            column,
            row,
            now,
        ) == input::pressed(a, Key::Char('b'), false, now),
        input::hit(a.buttons, column, row) is None ==> input::clicked(a, column, row, now) == (
            a,
            ReactionModel::Stay,
        ),
{
    lemma_button_commands();
    laws::state::note_is_appended(a, "→ "@ + cmd, now, 0);
}

/// A click where the box of a button is does what the button's key does.
pub proof fn click_is_like_the_key(a: AppModel, i: int, column: u16, row: u16, now: u128)
    requires
        a.mode is Normal,
        0 <= i < 4,
        input::hit(a.buttons, column, row) == Some(input::all_buttons()[i].cmd),
    ensures
        input::clicked(a, column, row, now) == input::pressed(
            a,
            Key::Char(input::all_buttons()[i].key),
            false,
            now,
        ),
{
    lemma_button_commands();
}

/// The dashboard calls the setting of a variable `set` and its name.
pub proof fn setting_is_called_set(name: Seq<char>)
    ensures
        input::set_label(name) == "set "@ + name,
{
}

} // verus!
