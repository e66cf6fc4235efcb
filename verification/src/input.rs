//! What the keyboard and the mouse do.

use vstd::prelude::*;

use crate::app;
use crate::app::{
    App, AppModel, MenuAction, MenuActionModel, Mode, ModeModel, WorkerCmd, WorkerCmdModel,
};
use crate::geometry;
use crate::geometry::Rect;
use crate::number;
use crate::text;

verus! {

/// A key.
#[derive(Clone, Copy, Debug, PartialEq, Eq, Structural)]
pub enum Key {
    Char(char),
    Enter,
    Esc,
    Up,
    Down,
    PageUp,
    PageDown,
    /// Any other key.
    Other,
}

/// What follows from a key or a click.
pub enum Reaction {
    /// Nothing beyond the dashboard itself.
    Stay,
    /// The program ends.
    Quit,
    /// The polling side has to do this.
    Send(WorkerCmd),
}

/// A [`Reaction`], its texts taken by their characters.
pub enum ReactionModel {
    Stay,
    Quit,
    Send(WorkerCmdModel),
}

impl View for Reaction {
    type V = ReactionModel;

    open spec fn view(&self) -> ReactionModel {
        match *self {
            Reaction::Stay => ReactionModel::Stay,
            Reaction::Quit => ReactionModel::Quit,
            Reaction::Send(c) => ReactionModel::Send(c@),
        }
    }
}

// ----------------------------------------------------------------- buttons

/// A button: its label, the key that presses it too, and its command.
pub struct Button {
    pub label: String,
    pub key: char,
    pub cmd: String,
}

/// A [`Button`], its texts taken by their characters.
pub struct ButtonModel {
    pub label: Seq<char>,
    pub key: char,
    pub cmd: Seq<char>,
}

impl View for Button {
    type V = ButtonModel;

    open spec fn view(&self) -> ButtonModel {
        ButtonModel { label: self.label@, key: self.key, cmd: self.cmd@ }
    }
}

/// The buttons, from left to right. `beeper` stands for `beeper.enable` or
/// `beeper.disable`: most devices cannot toggle.
pub open spec fn all_buttons() -> Seq<ButtonModel> {
    seq![
        ButtonModel { label: "Quick test"@, key: 't', cmd: "test.battery.start.quick"@ },
        ButtonModel { label: "Deep test"@, key: 'd', cmd: "test.battery.start.deep"@ },
        ButtonModel { label: "Stop test"@, key: 's', cmd: "test.battery.stop"@ },
        ButtonModel { label: "Beeper"@, key: 'b', cmd: "beeper"@ },
    ]
}

/// The command of the first button with the given key.
pub open spec fn command_of(buttons: Seq<ButtonModel>, key: char) -> Option<Seq<char>>
    decreases buttons.len(),
{
    if buttons.len() == 0 {
        None
    } else if buttons[0].key == key {
        Some(buttons[0].cmd)
    } else {
        command_of(buttons.drop_first(), key)
    }
}

/// The buttons, from left to right.
pub fn buttons() -> (res: Vec<Button>)
    ensures
        res@.map_values(|b: Button| b@) == all_buttons(),
{
    let mut out: Vec<Button> = Vec::new();
    out.push(
        Button {
            label: "Quick test".to_owned(),
            key: 't',
            cmd: "test.battery.start.quick".to_owned(),
        },
    );
    out.push(
        Button { label: "Deep test".to_owned(), key: 'd', cmd: "test.battery.start.deep".to_owned() },
    );
    out.push(
        Button { label: "Stop test".to_owned(), key: 's', cmd: "test.battery.stop".to_owned() },
    );
    out.push(Button { label: "Beeper".to_owned(), key: 'b', cmd: "beeper".to_owned() });
    assert(out@.map_values(|b: Button| b@) =~= all_buttons());
    out
}

/// The command of the button with the given key.
pub fn button_command(key: char) -> (res: Option<String>)
    ensures
        text::opt_view(res) == command_of(all_buttons(), key),
{
    let list: Vec<Button> = buttons();
    let ghost all = list@.map_values(|b: Button| b@);
    let mut i: usize = 0;
    assert(all.skip(0) =~= all);
    while i < list.len()
        invariant
            i <= list@.len(),
            all == list@.map_values(|b: Button| b@),
            all == all_buttons(),
            command_of(all.skip(i as int), key) == command_of(all_buttons(), key),
        decreases list@.len() - i,
    {
        assert(all.skip(i as int)[0] == list@[i as int]@);
        assert(all.skip(i as int).drop_first() =~= all.skip(i + 1));
        if list[i].key == key {
            return Some(list[i].cmd.clone());
        }
        i = i + 1;
    }
    None
}

/// The command of the first hitbox that holds the cell.
pub open spec fn hit(boxes: Seq<(Rect, Seq<char>)>, column: u16, row: u16) -> Option<Seq<char>>
    decreases boxes.len(),
{
    if boxes.len() == 0 {
        None
    } else if geometry::inside(boxes[0].0, column, row) {
        Some(boxes[0].1)
    } else {
        hit(boxes.drop_first(), column, row)
    }
}

// ----------------------------------------------------------------- sending

/// The command that is sent: the button for the beeper turns it off where it is
/// on, else on.
pub open spec fn resolved(a: AppModel, cmd: Seq<char>) -> Seq<char> {
    if cmd == "beeper"@ {
        if app::shown(a, "ups.beeper.status"@) == "enabled"@ {
            "beeper.disable"@
        } else {
            "beeper.enable"@
        }
    } else {
        cmd
    }
}

/// The dashboard after a command is sent, and the command.
pub open spec fn sent(a: AppModel, cmd: Seq<char>, now: u128) -> (AppModel, ReactionModel) {
    (
        app::noted(a, "→ "@ + resolved(a, cmd), now),
        ReactionModel::Send(WorkerCmdModel::Inst(resolved(a, cmd))),
    )
}

/// How the log and the menu call the setting of a variable.
pub open spec fn set_label(name: Seq<char>) -> Seq<char> {
    "set "@ + name
}

/// Writes how the log and the menu call the setting of a variable.
pub fn set_label_text(name: &str) -> (res: String)
    ensures
        res@ == set_label(name@),
{
    let mut out: String = "set ".to_owned();
    out.append(name);
    out
}

pub open spec fn in_mode(a: AppModel, mode: ModeModel) -> AppModel {
    AppModel { mode, ..a }
}

fn send_cmd(a: &mut App, cmd: &str, now: u128) -> (res: Reaction)
    ensures
        (final(a)@, res@) == sent(old(a)@, cmd@, now),
        final(a).start == old(a).start,
{
    let cmd: String = if text::same(cmd, "beeper") {
        if text::same(a.s("ups.beeper.status"), "enabled") {
            "beeper.disable".to_owned()
        } else {
            "beeper.enable".to_owned()
        }
    } else {
        cmd.to_owned()
    };
    let mut msg: String = "→ ".to_owned();
    msg.append(cmd.as_str());
    a.note_at(msg, now);
    Reaction::Send(WorkerCmd::Inst(cmd))
}

// -------------------------------------------------------------------- keys

/// How far a key scrolls, if it does: one row, ten rows, or to an end.
pub open spec fn scroll_of(key: Key) -> Option<i64> {
    match key {
        Key::Up | Key::Char('k') => Some((-1) as i64),
        Key::Down | Key::Char('j') => Some(1),
        Key::PageUp => Some((-10) as i64),
        Key::PageDown => Some(10),
        Key::Char('g') => Some(i64::MIN),
        Key::Char('G') => Some(i64::MAX),
        _ => None,
    }
}

/// A key over the help text: some keys close it.
pub open spec fn key_in_help(a: AppModel, key: Key) -> (AppModel, ReactionModel) {
    match key {
        Key::Char('q') | Key::Char('?') | Key::Char('h') | Key::Esc | Key::Enter => (
            in_mode(a, ModeModel::Normal),
            ReactionModel::Stay,
        ),
        _ => (a, ReactionModel::Stay),
    }
}

/// The selected row of the menu activated: a command is sent, unless it has to be
/// confirmed first; a variable is opened for editing.
pub open spec fn activated(a: AppModel, now: u128) -> (AppModel, ReactionModel) {
    match app::selected_row(a) {
        Some(MenuActionModel::Cmd(cmd)) => if app::dangerous(cmd) {
            (in_mode(a, ModeModel::Confirm(cmd)), ReactionModel::Stay)
        } else {
            let (b, r) = sent(a, cmd, now);
            (in_mode(b, ModeModel::Normal), r)
        },
        Some(MenuActionModel::SetVar(name)) => (
            in_mode(a, ModeModel::SetVar { name, buffer: Seq::empty() }),
            ReactionModel::Stay,
        ),
        None => (a, ReactionModel::Stay),
    }
}

/// A key over the menu.
pub open spec fn key_in_menu(a: AppModel, key: Key, now: u128) -> (AppModel, ReactionModel) {
    match key {
        Key::Char('q') | Key::Char('m') | Key::Char('h') | Key::Esc => (
            in_mode(a, ModeModel::Normal),
            ReactionModel::Stay,
        ),
        Key::Char('?') => (in_mode(a, ModeModel::Help), ReactionModel::Stay),
        Key::Enter | Key::Char('l') => activated(a, now),
        _ => match scroll_of(key) {
            Some(delta) => (
                AppModel {
                    menu_state: app::scrolled(a.menu_state, app::menu_rows(a) as nat, delta),
                    ..a
                },
                ReactionModel::Stay,
            ),
            None => (a, ReactionModel::Stay),
        },
    }
}

/// A key over the question whether to run a command. Anything but a yes goes back
/// to the menu, so that a slip does not lose the place there.
pub open spec fn key_in_confirm(a: AppModel, cmd: Seq<char>, key: Key, now: u128) -> (
    AppModel,
    ReactionModel,
) {
    match key {
        Key::Char('y') | Key::Char('Y') => {
            let (b, r) = sent(a, cmd, now);
            (in_mode(b, ModeModel::Normal), r)
        },
        _ => (in_mode(a, ModeModel::Menu), ReactionModel::Stay),
    }
}

/// A key while a value is edited: digits are added to it, Enter applies it, Esc
/// goes back to the menu.
pub open spec fn key_in_set_var(
    a: AppModel,
    name: Seq<char>,
    buffer: Seq<char>,
    key: Key,
    now: u128,
) -> (AppModel, ReactionModel) {
    match key {
        Key::Esc => (in_mode(a, ModeModel::Menu), ReactionModel::Stay),
        Key::Enter => (
            in_mode(app::noted(a, "→ "@ + set_label(name), now), ModeModel::Normal),
            ReactionModel::Send(WorkerCmdModel::SetVar { name, value: buffer }),
        ),
        Key::Char(c) if '0' <= c <= '9' => (
            in_mode(a, ModeModel::SetVar { name, buffer: buffer.push(c) }),
            ReactionModel::Stay,
        ),
        _ => (a, ReactionModel::Stay),
    }
}

/// A key with no overlay open.
pub open spec fn key_in_normal(a: AppModel, key: Key, now: u128) -> (AppModel, ReactionModel) {
    match key {
        Key::Char('q') | Key::Esc => (a, ReactionModel::Quit),
        Key::Char('?') => (in_mode(a, ModeModel::Help), ReactionModel::Stay),
        Key::Char('m') => (in_mode(a, ModeModel::Menu), ReactionModel::Stay),
        _ => match (scroll_of(key), key) {
            (Some(delta), _) => (
                AppModel { table_state: app::scrolled(a.table_state, a.vars.len(), delta), ..a },
                ReactionModel::Stay,
            ),
            (None, Key::Char(c)) => match command_of(all_buttons(), c) {
                Some(cmd) => sent(a, cmd, now),
                None => (a, ReactionModel::Stay),
            },
            _ => (a, ReactionModel::Stay),
        },
    }
}

/// The dashboard after a key at the time `now`, and what follows from it.
pub open spec fn pressed(a: AppModel, key: Key, ctrl: bool, now: u128) -> (AppModel, ReactionModel) {
    if key == Key::Char('c') && ctrl {
        (a, ReactionModel::Quit)
    } else {
        match a.mode {
            ModeModel::Help => key_in_help(a, key),
            ModeModel::Menu => key_in_menu(a, key, now),
            ModeModel::Confirm(cmd) => key_in_confirm(a, cmd, key, now),
            ModeModel::SetVar { name, buffer } => key_in_set_var(a, name, buffer, key, now),
            ModeModel::Normal => key_in_normal(a, key, now),
        }
    }
}

/// The dashboard after a click at the time `now`, and what follows from it.
/// Buttons are only clickable when no popup covers them.
pub open spec fn clicked(a: AppModel, column: u16, row: u16, now: u128) -> (AppModel, ReactionModel) {
    match (a.mode, hit(a.buttons, column, row)) {
        (ModeModel::Normal, Some(cmd)) => sent(a, cmd, now),
        _ => (a, ReactionModel::Stay),
    }
}

fn scroll_by(key: Key) -> (res: Option<i64>)
    ensures
        res == scroll_of(key),
{
    match key {
        Key::Up | Key::Char('k') => Some(-1),
        Key::Down | Key::Char('j') => Some(1),
        Key::PageUp => Some(-10),
        Key::PageDown => Some(10),
        Key::Char('g') => Some(i64::MIN),
        Key::Char('G') => Some(i64::MAX),
        _ => None,
    }
}

fn on_help_key(a: &mut App, key: Key) -> (res: Reaction)
    ensures
        (final(a)@, res@) == key_in_help(old(a)@, key),
        final(a).start == old(a).start,
{
    match key {
        Key::Char('q') | Key::Char('?') | Key::Char('h') | Key::Esc | Key::Enter => {
            a.mode = Mode::Normal;
        },
        _ => {},
    }
    Reaction::Stay
}

fn activate(a: &mut App, now: u128) -> (res: Reaction)
    ensures
        (final(a)@, res@) == activated(old(a)@, now),
        final(a).start == old(a).start,
{
    match a.selected_action() {
        Some(MenuAction::Cmd(cmd)) => {
            if app::is_dangerous(cmd.as_str()) {
                a.mode = Mode::Confirm(cmd);
                Reaction::Stay
            } else {
                let reaction: Reaction = send_cmd(a, cmd.as_str(), now);
                a.mode = Mode::Normal;
                reaction
            }
        },
        Some(MenuAction::SetVar(name)) => {
            a.mode = Mode::SetVar { name, buffer: String::new() };
            Reaction::Stay
        },
        None => Reaction::Stay,
    }
}

fn on_menu_key(a: &mut App, key: Key, now: u128) -> (res: Reaction)
    ensures
        (final(a)@, res@) == key_in_menu(old(a)@, key, now),
        final(a).start == old(a).start,
{
    match key {
        Key::Char('q') | Key::Char('m') | Key::Char('h') | Key::Esc => {
            a.mode = Mode::Normal;
        },
        Key::Char('?') => {
            a.mode = Mode::Help;
        },
        Key::Enter | Key::Char('l') => {
            return activate(a, now);
        },
        _ => {
            if let Some(delta) = scroll_by(key) {
                a.menu_scroll(delta);
            }
        },
    }
    Reaction::Stay
}

fn on_confirm_key(a: &mut App, cmd: &str, key: Key, now: u128) -> (res: Reaction)
    ensures
        (final(a)@, res@) == key_in_confirm(old(a)@, cmd@, key, now),
        final(a).start == old(a).start,
{
    match key {
        Key::Char('y') | Key::Char('Y') => {
            let reaction: Reaction = send_cmd(a, cmd, now);
            a.mode = Mode::Normal;
            reaction
        },
        _ => {
            a.mode = Mode::Menu;
            Reaction::Stay
        },
    }
}

fn on_set_var_key(a: &mut App, name: String, buffer: String, key: Key, now: u128) -> (res: Reaction)
    requires
        old(a)@.mode == (ModeModel::SetVar { name: name@, buffer: buffer@ }),
    ensures
        (final(a)@, res@) == key_in_set_var(old(a)@, name@, buffer@, key, now),
        final(a).start == old(a).start,
{
    match key {
        Key::Esc => {
            a.mode = Mode::Menu;
            Reaction::Stay
        },
        Key::Enter => {
            let mut msg: String = "→ ".to_owned();
            msg.append(set_label_text(name.as_str()).as_str());
            a.note_at(msg, now);
            a.mode = Mode::Normal;
            Reaction::Send(WorkerCmd::SetVar { name, value: buffer })
        },
        Key::Char(c) => {
            if '0' <= c && c <= '9' {
                let mut longer: String = buffer;
                longer.push(c);
                a.mode = Mode::SetVar { name, buffer: longer };
            }
            Reaction::Stay
        },
        _ => Reaction::Stay,
    }
}

fn on_normal_key(a: &mut App, key: Key, now: u128) -> (res: Reaction)
    ensures
        (final(a)@, res@) == key_in_normal(old(a)@, key, now),
        final(a).start == old(a).start,
{
    match key {
        Key::Char('q') | Key::Esc => {
            return Reaction::Quit;
        },
        Key::Char('?') => {
            a.mode = Mode::Help;
        },
        Key::Char('m') => {
            a.mode = Mode::Menu;
        },
        _ => {
            if let Some(delta) = scroll_by(key) {
                a.scroll(delta);
            } else if let Key::Char(c) = key {
                if let Some(cmd) = button_command(c) {
                    return send_cmd(a, cmd.as_str(), now);
                }
            }
        },
    }
    Reaction::Stay
}

/// Takes a key at the time `now`.
pub fn on_key_at(a: &mut App, key: Key, ctrl: bool, now: u128) -> (res: Reaction)
    ensures
        (final(a)@, res@) == pressed(old(a)@, key, ctrl, now),
        final(a).start == old(a).start,
{
    if key == Key::Char('c') && ctrl {
        return Reaction::Quit;
    }
    match &a.mode {
        Mode::Help => on_help_key(a, key),
        Mode::Menu => on_menu_key(a, key, now),
        Mode::Confirm(cmd) => {
            let cmd: String = cmd.clone();
            on_confirm_key(a, cmd.as_str(), key, now)
        },
        Mode::SetVar { name, buffer } => {
            let name: String = name.clone();
            let buffer: String = buffer.clone();
            on_set_var_key(a, name, buffer, key, now)
        },
        Mode::Normal => on_normal_key(a, key, now),
    }
}

/// Takes a key.
pub fn on_key(a: &mut App, key: Key, ctrl: bool) -> (res: Reaction)
    ensures
        exists|now: u128|
            now <= app::longest_span() && old(a).can_show(now) && (final(a)@, res@)
                == #[trigger] pressed(
                old(a)@,
                key,
                ctrl,
                now,
            ),
        final(a).start == old(a).start,
{
    let now: u128 = a.now();
    on_key_at(a, key, ctrl, now)
}

/// The command of the button at a cell.
pub fn button_at(a: &App, column: u16, row: u16) -> (res: Option<String>)
    ensures
        text::opt_view(res) == hit(a@.buttons, column, row),
{
    let ghost all = a@.buttons;
    let mut i: usize = 0;
    assert(all.skip(0) =~= all);
    while i < a.buttons.len()
        invariant
            i <= a.buttons@.len(),
            all == app::buttons_view(a.buttons@),
            hit(all.skip(i as int), column, row) == hit(a@.buttons, column, row),
        decreases a.buttons@.len() - i,
    {
        assert(all.skip(i as int)[0] == (a.buttons@[i as int].0, a.buttons@[i as int].1@));
        assert(all.skip(i as int).drop_first() =~= all.skip(i + 1));
        if geometry::contains(a.buttons[i].0, column, row) {
            return Some(a.buttons[i].1.clone());
        }
        i = i + 1;
    }
    None
}

/// Takes a click with the left button at the time `now`.
pub fn on_click_at(a: &mut App, column: u16, row: u16, now: u128) -> (res: Reaction)
    ensures
        (final(a)@, res@) == clicked(old(a)@, column, row, now),
        final(a).start == old(a).start,
{
    let open: bool = match &a.mode {
        Mode::Normal => true,
        _ => false,
    };
    if open {
        if let Some(cmd) = button_at(a, column, row) {
            return send_cmd(a, cmd.as_str(), now);
        }
    }
    Reaction::Stay
}

/// Takes a click with the left button.
pub fn on_click(a: &mut App, column: u16, row: u16) -> (res: Reaction)
    ensures
        exists|now: u128|
            now <= app::longest_span() && old(a).can_show(now) && (final(a)@, res@)
                == #[trigger] clicked(
                old(a)@,
                column,
                row,
                now,
            ),
        final(a).start == old(a).start,
{
    let now: u128 = a.now();
    on_click_at(a, column, row, now)
}

// -------------------------------------------------------------------- laws

/// No button sends a dangerous command.
pub proof fn buttons_are_harmless(a: AppModel, key: char)
    ensures
        command_of(all_buttons(), key) matches Some(cmd) ==> !app::dangerous(resolved(a, cmd)),
{
    reveal_strlit("shutdown");
    reveal_strlit("load.off");
    reveal_strlit("driver.killpower");
    reveal_strlit("test.battery.start.quick");
    reveal_strlit("test.battery.start.deep");
    reveal_strlit("test.battery.stop");
    reveal_strlit("beeper");
    reveal_strlit("beeper.enable");
    reveal_strlit("beeper.disable");
    reveal_with_fuel(command_of, 5);
    assert forall|cmd: Seq<char>| cmd.len() > 0 && (cmd[0] == 't' || cmd[0] == 'b') implies !(
    #[trigger] app::dangerous(cmd)) by {
        assert("shutdown"@[0] == 's');
        assert("load.off"@[0] == 'l');
        assert("driver.killpower"@[0] == 'd');
        if "shutdown"@.is_prefix_of(cmd) {
            assert(cmd.subrange(0, 8)[0] == cmd[0]);
        }
        if "load.off"@.is_prefix_of(cmd) {
            assert(cmd.subrange(0, 8)[0] == cmd[0]);
        }
    }
}

/// A dangerous command is sent by a key only where the question whether to run
/// that very command is on the screen, and the key is a yes.
pub proof fn dangerous_command_needs_a_yes(a: AppModel, key: Key, ctrl: bool, now: u128, cmd: Seq<char>)
    requires
        pressed(a, key, ctrl, now).1 == ReactionModel::Send(WorkerCmdModel::Inst(cmd)),
        app::dangerous(cmd),
    ensures
        a.mode == ModeModel::Confirm(cmd),
        key == Key::Char('y') || key == Key::Char('Y'),
{
    lemma_beeper_is_harmless(a);
    match (a.mode, key) {
        (ModeModel::Normal, Key::Char(c)) => {
            buttons_are_harmless(a, c);
        },
        _ => {},
    }
}

proof fn lemma_beeper_is_harmless(a: AppModel)
    ensures
        !app::dangerous("beeper"@),
        !app::dangerous(resolved(a, "beeper"@)),
{
    buttons_are_harmless(a, 'b');
    reveal_with_fuel(command_of, 5);
    reveal_strlit("shutdown");
    reveal_strlit("load.off");
    reveal_strlit("driver.killpower");
    reveal_strlit("beeper");
    assert("beeper"@[0] == 'b');
    assert("driver.killpower"@[0] == 'd');
}

/// A dangerous command that is activated in the menu is not sent but asked about,
/// with and without Control.
pub proof fn dangerous_command_is_asked_about(a: AppModel, key: Key, now: u128, cmd: Seq<char>)
    requires
        a.mode is Menu,
        key == Key::Enter || key == Key::Char('l'),
        app::selected_row(a) == Some(MenuActionModel::Cmd(cmd)),
        app::dangerous(cmd),
    ensures
        forall|ctrl: bool| #[trigger]
            pressed(a, key, ctrl, now) == (
                in_mode(a, ModeModel::Confirm(cmd)),
                ReactionModel::Stay,
            ),
{
}

/// Whatever is pressed but a yes and Control-C, a question is answered by going back
/// to the menu, with the place there kept and nothing sent.
pub proof fn no_yes_goes_back_to_the_menu(
    a: AppModel,
    cmd: Seq<char>,
    key: Key,
    ctrl: bool,
    now: u128,
)
    requires
        a.mode == ModeModel::Confirm(cmd),
        key != Key::Char('y'),
        key != Key::Char('Y'),
        !(key == Key::Char('c') && ctrl),
    ensures
        pressed(a, key, ctrl, now) == (in_mode(a, ModeModel::Menu), ReactionModel::Stay),
{
}

/// Buttons are only clickable when no popup covers them: a click under an overlay
/// changes nothing and sends nothing.
pub proof fn overlay_covers_buttons(a: AppModel, column: u16, row: u16, now: u128)
    requires
        !(a.mode is Normal),
    ensures
        clicked(a, column, row, now) == (a, ReactionModel::Stay),
{
}

/// Whether a button has the given command.
pub open spec fn is_button_command(cmd: Seq<char>) -> bool {
    exists|k: char| #[trigger] command_of(all_buttons(), k) == Some(cmd)
}

/// Whether every hitbox belongs to a button.
pub open spec fn boxes_are_buttons(boxes: Seq<(Rect, Seq<char>)>) -> bool {
    forall|i: int| 0 <= i < boxes.len() ==> is_button_command(#[trigger] boxes[i].1)
}

/// Where the hitboxes belong to the buttons, a click never sends a dangerous
/// command.
pub proof fn click_is_harmless(a: AppModel, column: u16, row: u16, now: u128)
    requires
        boxes_are_buttons(a.buttons),
    ensures
        clicked(a, column, row, now).1 matches ReactionModel::Send(WorkerCmdModel::Inst(cmd))
            ==> !app::dangerous(cmd),
{
    lemma_hit_is_listed(a.buttons, column, row);
    if let Some(cmd) = hit(a.buttons, column, row) {
        let i = choose|i: int| 0 <= i < a.buttons.len() && a.buttons[i].1 == cmd;
        let k = choose|k: char| #[trigger] command_of(all_buttons(), k) == Some(cmd);
        buttons_are_harmless(a, k);
    }
}

proof fn lemma_hit_is_listed(boxes: Seq<(Rect, Seq<char>)>, column: u16, row: u16)
    ensures
        hit(boxes, column, row) matches Some(cmd) ==> exists|i: int|
            0 <= i < boxes.len() && boxes[i].1 == cmd,
    decreases boxes.len(),
{
    if boxes.len() > 0 {
        if geometry::inside(boxes[0].0, column, row) {
            assert(boxes[0].1 == boxes[0].1);
        } else {
            lemma_hit_is_listed(boxes.drop_first(), column, row);
            if let Some(cmd) = hit(boxes.drop_first(), column, row) {
                let i = choose|i: int|
                    0 <= i < boxes.drop_first().len() && boxes.drop_first()[i].1 == cmd;
                assert(boxes[i + 1].1 == cmd);
            }
        }
    }
}

/// The program ends on Control-C in every mode, and else only on `q` or Esc with
/// no overlay open.
pub proof fn when_the_program_ends(a: AppModel, key: Key, ctrl: bool, now: u128)
    ensures
        pressed(a, key, ctrl, now).1 is Quit <==> {
            ||| key == Key::Char('c') && ctrl
            ||| a.mode is Normal && (key == Key::Char('q') || key == Key::Esc)
        },
{
}

/// Whether a value that is being edited holds digits only.
pub open spec fn editing_digits(a: AppModel) -> bool {
    a.mode matches ModeModel::SetVar { name, buffer } ==> number::all_digits(buffer)
}

/// A value that is edited, and one that is applied, holds digits only.
pub proof fn only_digits_are_set(a: AppModel, key: Key, ctrl: bool, now: u128)
    requires
        editing_digits(a),
    ensures
        editing_digits(pressed(a, key, ctrl, now).0),
        pressed(a, key, ctrl, now).1 matches ReactionModel::Send(
            WorkerCmdModel::SetVar { name, value },
        ) ==> number::all_digits(value) && a.mode == (ModeModel::SetVar { name, buffer: value }),
{
}

/// Keys and clicks keep the dashboard sound.
pub proof fn input_keeps_sound(a: AppModel, key: Key, ctrl: bool, column: u16, row: u16, now: u128)
    requires
        app::sound(a),
    ensures
        app::sound(pressed(a, key, ctrl, now).0),
        app::sound(clicked(a, column, row, now).0),
{
    if let Some(delta) = scroll_of(key) {
        if a.vars.len() > 0 {
            app::scroll_stays_inside(a.table_state, a.vars.len(), delta);
        }
    }
}

} // verus!
