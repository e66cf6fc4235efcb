//! The state of the dashboard: the latest variables, their history, the log,
//! and what the user has selected.

use std::collections::VecDeque;
use std::time::Instant;
use vstd::prelude::*;

use crate::geometry::Rect;
use crate::history;
use crate::history::{Sample, SampleModel, NANOS};
use crate::number;
use crate::text;
use crate::vars;
use crate::vars::VarMap;

verus! {

// ------------------------------------------------------------------- clock

/// A point in time of the system's monotonic clock.
#[verifier::external_type_specification]
#[verifier::external_body]
pub struct ExInstant(Instant);

/// `Instant::now` reads the clock. Nothing is claimed of what it shows.
#[verifier::external_body]
fn clock_now() -> Instant {
    Instant::now()
}

/// The longest time span that a `Duration` holds, in nanoseconds: its whole seconds
/// are a `u64`, and what is left of it is less than a second.
pub open spec fn longest_span() -> int {
    u64::MAX * NANOS + NANOS - 1
}

/// `Instant::elapsed`, as a number of nanoseconds: the time from `start` to what the
/// clock shows now, which a `Duration` can hold. What the clock shows is left unsaid.
#[verifier::external_body]
fn nanos_since(start: &Instant) -> (res: u128)
    ensures
        res <= longest_span(),
{
    start.elapsed().as_nanos()
}

// ------------------------------------------------------------------- types

/// News for the dashboard.
pub enum Update {
    /// All variables of the device.
    Vars(VarMap),
    /// Instant commands the device supports: (name, description).
    Cmds(Vec<(String, String)>),
    /// Names of variables the device reports as writable.
    Rw(Vec<String>),
    /// The device could not be polled, for this reason.
    Error(String),
    /// What came of a command.
    CmdResult { cmd: String, result: String },
}

/// What the polling side is asked to do.
pub enum WorkerCmd {
    /// To run an instant command.
    Inst(String),
    /// To give a variable a value.
    SetVar { name: String, value: String },
}

/// Which overlay currently owns the keyboard.
pub enum Mode {
    Normal,
    Help,
    Menu,
    /// Waiting for y/N on a destructive command.
    Confirm(String),
    /// Editing a new value for a writable variable.
    SetVar { name: String, buffer: String },
}

/// What the currently selected menu row does when activated.
pub enum MenuAction {
    Cmd(String),
    SetVar(String),
}

/// An [`Update`], its texts taken by their characters.
pub enum UpdateModel {
    Vars(Map<Seq<char>, Seq<char>>),
    Cmds(Seq<(Seq<char>, Seq<char>)>),
    Rw(Seq<Seq<char>>),
    Error(Seq<char>),
    CmdResult { cmd: Seq<char>, result: Seq<char> },
}

/// A [`WorkerCmd`], its texts taken by their characters.
pub enum WorkerCmdModel {
    Inst(Seq<char>),
    SetVar { name: Seq<char>, value: Seq<char> },
}

/// A [`Mode`], its texts taken by their characters.
pub enum ModeModel {
    Normal,
    Help,
    Menu,
    Confirm(Seq<char>),
    SetVar { name: Seq<char>, buffer: Seq<char> },
}

/// A [`MenuAction`], its text taken by its characters.
pub enum MenuActionModel {
    Cmd(Seq<char>),
    SetVar(Seq<char>),
}

impl View for Update {
    type V = UpdateModel;

    open spec fn view(&self) -> UpdateModel {
        match *self {
            Update::Vars(v) => UpdateModel::Vars(v@),
            Update::Cmds(c) => UpdateModel::Cmds(text::pairs_view(c@)),
            Update::Rw(r) => UpdateModel::Rw(text::strings_view(r@)),
            Update::Error(e) => UpdateModel::Error(e@),
            Update::CmdResult { cmd, result } => UpdateModel::CmdResult {
                cmd: cmd@,
                result: result@,
            },
        }
    }
}

impl View for WorkerCmd {
    type V = WorkerCmdModel;

    open spec fn view(&self) -> WorkerCmdModel {
        match *self {
            WorkerCmd::Inst(c) => WorkerCmdModel::Inst(c@),
            WorkerCmd::SetVar { name, value } => WorkerCmdModel::SetVar { name: name@, value: value@ },
        }
    }
}

impl View for Mode {
    type V = ModeModel;

    open spec fn view(&self) -> ModeModel {
        match *self {
            Mode::Normal => ModeModel::Normal,
            Mode::Help => ModeModel::Help,
            Mode::Menu => ModeModel::Menu,
            Mode::Confirm(c) => ModeModel::Confirm(c@),
            Mode::SetVar { name, buffer } => ModeModel::SetVar { name: name@, buffer: buffer@ },
        }
    }
}

impl View for MenuAction {
    type V = MenuActionModel;

    open spec fn view(&self) -> MenuActionModel {
        match *self {
            MenuAction::Cmd(c) => MenuActionModel::Cmd(c@),
            MenuAction::SetVar(n) => MenuActionModel::SetVar(n@),
        }
    }
}

/// Whether a command can cut output power or shut things down.
pub open spec fn dangerous(cmd: Seq<char>) -> bool {
    "shutdown"@.is_prefix_of(cmd) || "load.off"@.is_prefix_of(cmd) || cmd == "driver.killpower"@
}

/// Commands that can cut output power or shut things down get a confirmation
/// popup before being sent.
pub fn is_dangerous(cmd: &str) -> (res: bool)
    ensures
        res == dangerous(cmd@),
{
    text::starts_with(cmd, "shutdown") || text::starts_with(cmd, "load.off") || text::same(
        cmd,
        "driver.killpower",
    )
}

// ------------------------------------------------------------------ cursor

/// The row that is selected in a list, and the row at which the list starts on
/// the screen.
#[derive(Clone, Copy, Debug, PartialEq, Eq, Structural)]
pub struct Cursor {
    pub selected: Option<usize>,
    pub offset: usize,
}

/// The cursor after selecting a row. Without a selection the list starts at its
/// top.
pub open spec fn moved_to(c: Cursor, row: Option<usize>) -> Cursor {
    Cursor {
        selected: row,
        offset: if row is None {
            0
        } else {
            c.offset
        },
    }
}

/// A row number, as far as a signed 64-bit number can count.
pub open spec fn counted(row: usize) -> int {
    if row <= i64::MAX {
        row as int
    } else {
        i64::MAX as int
    }
}

/// The cursor after a move by `delta` rows in a list of `len` rows. The move
/// stops at the first and at the last row; from no selection it starts at the
/// first.
pub open spec fn scrolled(c: Cursor, len: nat, delta: i64) -> Cursor {
    if len == 0 {
        c
    } else {
        let from = match c.selected {
            Some(row) => counted(row),
            None => 0,
        };
        let to = from + delta;
        let row = if to < 0 {
            0
        } else if to > len - 1 {
            len - 1
        } else {
            to
        };
        moved_to(c, Some(row as usize))
    }
}

impl Cursor {
    /// Nothing selected.
    pub fn new() -> (res: Self)
        ensures
            res == (Cursor { selected: None, offset: 0 }),
    {
        Cursor { selected: None, offset: 0 }
    }

    /// The selected row.
    pub fn selected(&self) -> (res: Option<usize>)
        ensures
            res == self.selected,
    {
        self.selected
    }

    /// Selects a row, or none.
    pub fn select(&mut self, row: Option<usize>)
        ensures
            *final(self) == moved_to(*old(self), row),
    {
        self.selected = row;
        if row.is_none() {
            self.offset = 0;
        }
    }

    /// Moves by `delta` rows in a list of `len` rows.
    pub fn scroll(&mut self, len: usize, delta: i64)
        ensures
            *final(self) == scrolled(*old(self), len as nat, delta),
    {
        if len == 0 {
            return;
        }
        let from: i128 = match self.selected {
            Some(row) => if row as u128 <= i64::MAX as u128 {
                row as i128
            } else {
                i64::MAX as i128
            },
            None => 0,
        };
        let to: i128 = from + delta as i128;
        let last: i128 = len as i128 - 1;
        let row: i128 = if to < 0 {
            0
        } else if to > last {
            last
        } else {
            to
        };
        self.select(Some(row as usize));
    }
}

// --------------------------------------------------------------------- app

/// How many lines the log keeps.
pub const LOG_LINES: usize = 100;

/// The state of the dashboard.
pub struct App {
    pub ups: String,
    pub host: String,
    pub port: u16,
    pub vars: VarMap,
    pub charge: VecDeque<Sample>,
    pub volt_in: VecDeque<Sample>,
    pub volt_out: VecDeque<Sample>,
    pub start: Instant,
    pub connected: bool,
    pub last_error: Option<String>,
    pub log: VecDeque<String>,
    pub table_state: Cursor,
    /// Clickable button hitboxes, rebuilt every frame: (area, instant command).
    pub buttons: Vec<(Rect, String)>,
    pub mode: Mode,
    /// Instant commands supported by the device: (name, description).
    pub cmds: Vec<(String, String)>,
    /// Writable variable names; listed in the menu after the commands.
    pub rw: Vec<String>,
    pub menu_state: Cursor,
    /// Basic mode: only the summary panel, no charts or variable table.
    pub basic: bool,
}

/// An [`App`], its texts taken by their characters, without its clock.
#[verifier::ext_equal]
pub struct AppModel {
    pub ups: Seq<char>,
    pub host: Seq<char>,
    pub port: u16,
    pub vars: Map<Seq<char>, Seq<char>>,
    pub charge: Seq<SampleModel>,
    pub volt_in: Seq<SampleModel>,
    pub volt_out: Seq<SampleModel>,
    pub connected: bool,
    pub last_error: Option<Seq<char>>,
    pub log: Seq<Seq<char>>,
    pub table_state: Cursor,
    pub buttons: Seq<(Rect, Seq<char>)>,
    pub mode: ModeModel,
    pub cmds: Seq<(Seq<char>, Seq<char>)>,
    pub rw: Seq<Seq<char>>,
    pub menu_state: Cursor,
    pub basic: bool,
}

/// The areas of buttons, and the characters of their commands.
pub open spec fn buttons_view(v: Seq<(Rect, String)>) -> Seq<(Rect, Seq<char>)> {
    v.map_values(|p: (Rect, String)| (p.0, p.1@))
}

impl View for App {
    type V = AppModel;

    open spec fn view(&self) -> AppModel {
        AppModel {
            ups: self.ups@,
            host: self.host@,
            port: self.port,
            vars: self.vars@,
            charge: history::samples_view(self.charge@),
            volt_in: history::samples_view(self.volt_in@),
            volt_out: history::samples_view(self.volt_out@),
            connected: self.connected,
            last_error: text::opt_view(self.last_error),
            log: text::strings_view(self.log@),
            table_state: self.table_state,
            buttons: buttons_view(self.buttons@),
            mode: self.mode@,
            cmds: text::pairs_view(self.cmds@),
            rw: text::strings_view(self.rw@),
            menu_state: self.menu_state,
            basic: self.basic,
        }
    }
}

/// The dashboard before the first poll.
pub open spec fn blank(ups: Seq<char>, host: Seq<char>, port: u16) -> AppModel {
    AppModel {
        ups,
        host,
        port,
        vars: Map::empty(),
        charge: Seq::empty(),
        volt_in: Seq::empty(),
        volt_out: Seq::empty(),
        connected: false,
        last_error: None,
        log: Seq::empty(),
        table_state: Cursor { selected: None, offset: 0 },
        buttons: Seq::empty(),
        mode: ModeModel::Normal,
        cmds: Seq::empty(),
        rw: Seq::empty(),
        menu_state: Cursor { selected: None, offset: 0 },
        basic: false,
    }
}

/// The last `n` items.
pub open spec fn newest<T>(s: Seq<T>, n: nat) -> Seq<T> {
    if s.len() <= n {
        s
    } else {
        s.skip(s.len() - n)
    }
}

/// A line of the log: the time since the start in hours, minutes and seconds,
/// and the message. The plus sign tells it from a time of day.
pub open spec fn log_line(secs: nat, msg: Seq<char>) -> Seq<char> {
    "[+"@ + number::two_digits_of(secs / 3600) + ":"@ + number::two_digits_of(secs / 60 % 60) + ":"@
        + number::two_digits_of(secs % 60) + "] "@ + msg
}

/// The dashboard after a note at the time `now`.
pub open spec fn noted(app: AppModel, msg: Seq<char>, now: u128) -> AppModel {
    AppModel {
        log: newest(app.log.push(log_line((now / NANOS) as nat, msg)), LOG_LINES as nat),
        ..app
    }
}

/// The text of a variable that denotes a real number.
pub open spec fn reading(m: Map<Seq<char>, Seq<char>>, key: Seq<char>) -> Option<Seq<char>> {
    match vars::value_in(m, key) {
        Some(v) => if number::is_real(text::trimmed(v)) {
            Some(text::trimmed(v))
        } else {
            None
        },
        None => None,
    }
}

/// A series after a poll: the reading, where there is one, is recorded.
pub open spec fn tracked_reading(
    s: Seq<SampleModel>,
    m: Map<Seq<char>, Seq<char>>,
    key: Seq<char>,
    now: u128,
) -> Seq<SampleModel> {
    match reading(m, key) {
        Some(v) => history::recorded(s, now, v),
        None => s,
    }
}

/// A cursor brought back into a list that has shrunk to `len` rows.
pub open spec fn kept_inside(c: Cursor, len: nat) -> Cursor {
    match c.selected {
        Some(row) if row >= len => moved_to(
            c,
            if len == 0 {
                None
            } else {
                Some((len - 1) as usize)
            },
        ),
        _ => c,
    }
}

/// A menu cursor after the menu was filled: on the first row, if it was on none
/// and there is one.
pub open spec fn started(c: Cursor, len: nat) -> Cursor {
    if c.selected is None && len > 0 {
        moved_to(c, Some(0))
    } else {
        c
    }
}

/// The dashboard after news that arrive at the time `now`.
pub open spec fn applied(app: AppModel, u: UpdateModel, now: u128) -> AppModel {
    match u {
        UpdateModel::Vars(v) => AppModel {
            connected: true,
            last_error: None,
            charge: tracked_reading(app.charge, v, "battery.charge"@, now),
            volt_in: tracked_reading(app.volt_in, v, "input.voltage"@, now),
            volt_out: tracked_reading(app.volt_out, v, "output.voltage"@, now),
            vars: v,
            table_state: kept_inside(app.table_state, v.len()),
            ..app
        },
        UpdateModel::Cmds(c) => AppModel {
            cmds: c,
            menu_state: started(app.menu_state, c.len() + app.rw.len()),
            ..app
        },
        UpdateModel::Rw(r) => AppModel {
            rw: r,
            menu_state: started(app.menu_state, app.cmds.len() + r.len()),
            ..app
        },
        UpdateModel::Error(e) => {
            let told = if app.last_error == Some(e) {
                app
            } else {
                noted(app, "poll error: "@ + e, now)
            };
            AppModel { connected: false, last_error: Some(e), ..told }
        },
        UpdateModel::CmdResult { cmd, result } => noted(app, cmd + " → "@ + result, now),
    }
}

/// What a row of the menu does. Instant commands come first, then writable
/// variables.
pub open spec fn menu_row(app: AppModel, row: int) -> Option<MenuActionModel> {
    if row < app.cmds.len() {
        Some(MenuActionModel::Cmd(app.cmds[row].0))
    } else if row - app.cmds.len() < app.rw.len() {
        Some(MenuActionModel::SetVar(app.rw[row - app.cmds.len()]))
    } else {
        None
    }
}

/// What the selected row of the menu does.
pub open spec fn selected_row(app: AppModel) -> Option<MenuActionModel> {
    match app.menu_state.selected {
        Some(row) => menu_row(app, row as int),
        None => None,
    }
}

/// The value of a variable, or a dash.
pub open spec fn shown(app: AppModel, key: Seq<char>) -> Seq<char> {
    match vars::value_in(app.vars, key) {
        Some(v) => v,
        None => "–"@,
    }
}

/// The status of the device; empty where it is not known.
pub open spec fn status_of(app: AppModel) -> Seq<char> {
    match vars::value_in(app.vars, "ups.status"@) {
        Some(v) => v,
        None => ""@,
    }
}

/// Whether the device runs on battery: `OB` is one of the words of its status.
pub open spec fn runs_on_battery(app: AppModel) -> bool {
    text::words_of(status_of(app)).contains("OB"@)
}

fn get_f<'a>(m: &'a VarMap, key: &str) -> (res: Option<&'a str>)
    ensures
        text::opt_str_view(res) == reading(m@, key@),
{
    match m.get(key) {
        Some(v) => {
            let t: &str = text::trim(v);
            if number::reads_as_real(t) {
                Some(t)
            } else {
                None
            }
        },
        None => None,
    }
}

fn record(series: &mut VecDeque<Sample>, m: &VarMap, key: &str, now: u128)
    ensures
        history::samples_view(final(series)@) == tracked_reading(
            history::samples_view(old(series)@),
            m@,
            key@,
            now,
        ),
{
    if let Some(v) = get_f(m, key) {
        history::push(series, now, v.to_owned());
    }
}

impl App {
    /// The dashboard before the first poll.
    pub fn new(ups: String, host: String, port: u16) -> (res: Self)
        ensures
            res@ == blank(ups@, host@, port),
    {
        let res = App {
            ups,
            host,
            port,
            vars: VarMap::new(),
            charge: VecDeque::new(),
            volt_in: VecDeque::new(),
            volt_out: VecDeque::new(),
            start: clock_now(),
            connected: false,
            last_error: None,
            log: VecDeque::new(),
            table_state: Cursor::new(),
            buttons: Vec::new(),
            mode: Mode::Normal,
            cmds: Vec::new(),
            rw: Vec::new(),
            menu_state: Cursor::new(),
            basic: false,
        };
        assert(res@ =~= blank(ups@, host@, port));
        res
    }

    /// Whether the clock can show this time, counted from the start.
    pub closed spec fn can_show(&self, now: u128) -> bool {
        call_ensures(nanos_since, (&self.start,), now)
    }

    /// The time since the start, in nanoseconds. Its whole seconds are a `u64`; what
    /// the clock shows is left unsaid.
    pub fn now(&self) -> (res: u128)
        ensures
            res <= longest_span(),
            self.can_show(res),
    {
        nanos_since(&self.start)
    }

    /// Takes news over into the dashboard.
    pub fn apply(&mut self, u: Update)
        ensures
            exists|now: u128|
                now <= longest_span() && old(self).can_show(now) && final(self)@
                    == #[trigger] applied(old(self)@, u@, now),
            final(self).start == old(self).start,
    {
        let now: u128 = self.now();
        self.apply_at(u, now);
    }

    /// Takes news over into the dashboard at the time `now`.
    pub fn apply_at(&mut self, u: Update, now: u128)
        ensures
            final(self)@ == applied(old(self)@, u@, now),
            final(self).start == old(self).start,
    {
        match u {
            Update::Vars(v) => {
                self.connected = true;
                self.last_error = None;
                record(&mut self.charge, &v, "battery.charge", now);
                record(&mut self.volt_in, &v, "input.voltage", now);
                record(&mut self.volt_out, &v, "output.voltage", now);
                self.vars = v;
                // Keep the table cursor in bounds if the variable set shrank.
                let len: usize = self.vars.len();
                if let Some(row) = self.table_state.selected() {
                    if row >= len {
                        self.table_state.select(
                            if len == 0 {
                                None
                            } else {
                                Some(len - 1)
                            },
                        );
                    }
                }
            },
            Update::Cmds(c) => {
                self.cmds = c;
                if self.menu_state.selected().is_none() && self.menu_len() > 0 {
                    self.menu_state.select(Some(0));
                }
            },
            Update::Rw(r) => {
                self.rw = r;
                if self.menu_state.selected().is_none() && self.menu_len() > 0 {
                    self.menu_state.select(Some(0));
                }
            },
            Update::Error(e) => {
                self.connected = false;
                let known: bool = match &self.last_error {
                    Some(last) => text::same(last.as_str(), e.as_str()),
                    None => false,
                };
                if !known {
                    let mut msg: String = "poll error: ".to_owned();
                    msg.append(e.as_str());
                    self.note_at(msg, now);
                }
                self.last_error = Some(e);
            },
            Update::CmdResult { cmd, result } => {
                let mut msg: String = cmd;
                msg.append(" → ");
                msg.append(result.as_str());
                self.note_at(msg, now);
            },
        }
    }

    /// The text of a variable that denotes a real number.
    pub fn f(&self, key: &str) -> (res: Option<&str>)
        ensures
            text::opt_str_view(res) == reading(self@.vars, key@),
    {
        get_f(&self.vars, key)
    }

    /// The value of a variable, or a dash.
    pub fn s(&self, key: &str) -> (res: &str)
        ensures
            res@ == shown(self@, key@),
    {
        match self.vars.get(key) {
            Some(v) => v,
            None => "–",
        }
    }

    /// The status of the device; empty where it is not known.
    pub fn status(&self) -> (res: &str)
        ensures
            res@ == status_of(self@),
    {
        match self.vars.get("ups.status") {
            Some(v) => v,
            None => "",
        }
    }

    /// Whether the device runs on battery.
    pub fn on_battery(&self) -> (res: bool)
        ensures
            res == runs_on_battery(self@),
    {
        let words: Vec<String> = text::words(self.status());
        let ghost all = text::strings_view(words@);
        let mut i: usize = 0;
        while i < words.len()
            invariant
                i <= words@.len(),
                all == text::strings_view(words@),
                all == text::words_of(status_of(self@)),
                forall|j: int| 0 <= j < i ==> all[j] != "OB"@,
            decreases words@.len() - i,
        {
            assert(all[i as int] == words@[i as int]@);
            if text::same(words[i].as_str(), "OB") {
                return true;
            }
            i = i + 1;
        }
        false
    }

    /// Adds a line to the log.
    pub fn note(&mut self, msg: String)
        ensures
            exists|now: u128|
                now <= longest_span() && old(self).can_show(now) && final(self)@ == #[trigger] noted(
                    old(self)@,
                    msg@,
                    now,
                ),
            final(self).start == old(self).start,
    {
        let now: u128 = self.now();
        self.note_at(msg, now);
    }

    /// Adds a line to the log at the time `now`.
    pub fn note_at(&mut self, msg: String, now: u128)
        ensures
            final(self)@ == noted(old(self)@, msg@, now),
            final(self).start == old(self).start,
    {
        let ghost was = self@;
        let secs: u128 = now / NANOS;
        let mut line: String = "[+".to_owned();
        line.append(number::two_digits(secs / 3600).as_str());
        line.append(":");
        line.append(number::two_digits(secs / 60 % 60).as_str());
        line.append(":");
        line.append(number::two_digits(secs % 60).as_str());
        line.append("] ");
        line.append(msg.as_str());
        self.log.push_back(line);
        let ghost full = text::strings_view(self.log@);
        assert(full =~= was.log.push(log_line(secs as nat, msg@)));
        while self.log.len() > LOG_LINES
            invariant
                self@ == (AppModel { log: text::strings_view(self.log@), ..was }),
                self.start == old(self).start,
                newest(text::strings_view(self.log@), LOG_LINES as nat) == newest(
                    full,
                    LOG_LINES as nat,
                ),
            decreases self.log@.len(),
        {
            let ghost before = text::strings_view(self.log@);
            let _ = self.log.pop_front();
            assert(text::strings_view(self.log@) =~= before.drop_first());
            assert(newest(before.drop_first(), LOG_LINES as nat) =~= newest(
                before,
                LOG_LINES as nat,
            ));
        }
    }

    /// Moves the cursor of the variable table.
    pub fn scroll(&mut self, delta: i64)
        ensures
            final(self)@ == (AppModel {
                table_state: scrolled(old(self)@.table_state, old(self)@.vars.len(), delta),
                ..old(self)@
            }),
            final(self).start == old(self).start,
    {
        let len: usize = self.vars.len();
        self.table_state.scroll(len, delta);
    }

    /// Menu rows: instant commands first, then writable variables.
    pub fn menu_len(&self) -> (res: usize)
        ensures
            res == menu_rows(self@),
    {
        self.cmds.len().saturating_add(self.rw.len())
    }

    /// Moves the cursor of the menu.
    pub fn menu_scroll(&mut self, delta: i64)
        ensures
            final(self)@ == (AppModel {
                menu_state: scrolled(old(self)@.menu_state, menu_rows(old(self)@) as nat, delta),
                ..old(self)@
            }),
            final(self).start == old(self).start,
    {
        let len: usize = self.menu_len();
        self.menu_state.scroll(len, delta);
    }

    /// What the selected row of the menu does.
    pub fn selected_action(&self) -> (res: Option<MenuAction>)
        ensures
            match res {
                Some(a) => selected_row(self@) == Some(a@),
                None => selected_row(self@) is None,
            },
    {
        match self.menu_state.selected() {
            Some(row) => {
                if row < self.cmds.len() {
                    Some(MenuAction::Cmd(self.cmds[row].0.clone()))
                } else {
                    let i: usize = row - self.cmds.len();
                    if i < self.rw.len() {
                        Some(MenuAction::SetVar(self.rw[i].clone()))
                    } else {
                        None
                    }
                }
            },
            None => None,
        }
    }
}

/// How many rows the menu has, as far as a `usize` can count them.
pub open spec fn menu_rows(app: AppModel) -> int {
    if app.cmds.len() + app.rw.len() > usize::MAX {
        usize::MAX as int
    } else {
        (app.cmds.len() + app.rw.len()) as int
    }
}

// -------------------------------------------------------------------- laws

/// A cursor that is moved in a list that is not empty ends on one of its rows.
pub proof fn scroll_stays_inside(c: Cursor, len: nat, delta: i64)
    requires
        0 < len <= usize::MAX,
    ensures
        scrolled(c, len, delta).selected matches Some(row) && row < len,
{
}

/// The greatest move up goes to the first row, and the greatest move down to the last,
/// also from a selection behind the last row.
pub proof fn scroll_jumps_to_the_ends(c: Cursor, len: nat)
    requires
        0 < len <= i64::MAX,
        len <= usize::MAX,
    ensures
        scrolled(c, len, i64::MIN).selected == Some(0usize),
        scrolled(c, len, i64::MAX).selected == Some((len - 1) as usize),
{
}

/// What holds of the dashboard at all times: the cursor of the variable table is
/// on one of its rows or on none, the log is not too long, and the variables can
/// be counted.
pub open spec fn sound(app: AppModel) -> bool {
    &&& app.vars.len() <= usize::MAX
    &&& app.table_state.selected matches Some(row) ==> row < app.vars.len()
    &&& app.log.len() <= LOG_LINES
}

/// The dashboard is sound at its start.
pub proof fn blank_is_sound(ups: Seq<char>, host: Seq<char>, port: u16)
    ensures
        sound(blank(ups, host, port)),
{
    assert(Map::<Seq<char>, Seq<char>>::empty().dom() =~= Set::<Seq<char>>::empty());
}

/// News keep the dashboard sound, also where the set of variables shrinks.
pub proof fn news_keep_sound(app: AppModel, u: UpdateModel, now: u128)
    requires
        sound(app),
        u matches UpdateModel::Vars(v) ==> v.len() <= usize::MAX,
    ensures
        sound(applied(app, u, now)),
{
}

/// The log ends with the newest note, and what it held before stands before it, as
/// far as there is room.
pub proof fn newest_note_is_last(app: AppModel, msg: Seq<char>, now: u128)
    ensures
        noted(app, msg, now).log.len() > 0,
        noted(app, msg, now).log.last() == log_line((now / NANOS) as nat, msg),
        noted(app, msg, now).log.drop_last().is_suffix_of(app.log),
        app.log.len() < LOG_LINES ==> noted(app, msg, now).log.drop_last() == app.log,
{
    let full = app.log.push(log_line((now / NANOS) as nat, msg));
    let kept = noted(app, msg, now).log;
    if full.len() <= LOG_LINES {
        assert(kept.drop_last() =~= app.log);
    } else {
        assert(kept.drop_last() =~= app.log.skip(full.len() - LOG_LINES));
    }
}

/// A failure that repeats is noted once: the second report of the same reason
/// changes nothing.
pub proof fn repeated_error_is_noted_once(app: AppModel, e: Seq<char>, now: u128, later: u128)
    ensures
        applied(applied(app, UpdateModel::Error(e), now), UpdateModel::Error(e), later) == applied(
            app,
            UpdateModel::Error(e),
            now,
        ),
{
}

/// After a successful poll each variable is shown with the value that the poll
/// brought, and one that it did not bring as a dash, whatever was known before.
pub proof fn poll_is_shown(app: AppModel, v: Map<Seq<char>, Seq<char>>, key: Seq<char>, now: u128)
    ensures
        v.contains_key(key) ==> shown(applied(app, UpdateModel::Vars(v), now), key) == v[key],
        !v.contains_key(key) ==> shown(applied(app, UpdateModel::Vars(v), now), key) == "–"@,
{
}

/// After a successful poll a failure is noted again, whatever it was before.
pub proof fn poll_forgets_the_error(
    app: AppModel,
    v: Map<Seq<char>, Seq<char>>,
    e: Seq<char>,
    now: u128,
    later: u128,
)
    ensures
        ({
            let polled = applied(app, UpdateModel::Vars(v), now);
            &&& polled.connected
            &&& polled.last_error is None
            &&& applied(polled, UpdateModel::Error(e), later).log == noted(
                polled,
                "poll error: "@ + e,
                later,
            ).log
        }),
{
}

/// Each row of the menu does something, and nothing stands behind the last row.
pub proof fn menu_rows_are_complete(app: AppModel, row: int)
    requires
        row >= 0,
    ensures
        menu_row(app, row) is Some <==> row < app.cmds.len() + app.rw.len(),
{
}

} // verus!
