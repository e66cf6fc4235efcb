//! What the calls on the dashboard promise: history, news, cursors, keys and clicks.

use std::collections::VecDeque;
use vstd::prelude::*;

use crate::app;
use crate::app::{App, AppModel, Cursor, MenuAction, Mode, ModeModel, Update, WorkerCmd};
use crate::geometry::Rect;
use crate::history;
use crate::history::Sample;
use crate::input;
use crate::input::{Button, Key, Reaction, ReactionModel};
use crate::laws;
use crate::number;
use crate::text;
use crate::trend;
use crate::trend::Trend;
use crate::vars::VarMap;

verus! {

// ------------------------------------------------------------------ history

/// A sample is modelled by its time and the characters of its text, and a series by its
/// samples in their order.
pub proof fn model_of_samples(s: Seq<Sample>, i: int)
    ensures
        history::samples_view(s).len() == s.len(),
        0 <= i < s.len() ==> history::samples_view(s)[i].at == s[i].at
            && history::samples_view(s)[i].value == s[i].value@,
{
}

/// A recorded reading is the last sample of the series, taken at the given time. What
/// goes is at the start, and more than sixteen minutes old.
pub proof fn recording(series: &mut VecDeque<Sample>, now: u128, value: String)
    requires
        call_ensures(history::push, (series, now, value), ()),
    ensures
        ({
            let was = old(series)@;
            let is = final(series)@;
            let gone = was.len() + 1 - is.len();
            &&& 0 < is.len() <= was.len() + 1
            &&& is.last().at == now
            &&& is.last().value@ == value@
            &&& now - is[0].at <= 960_000_000_000
            &&& forall|i: int|
                0 <= i < is.len() - 1 ==> (#[trigger] is[i])@ == was[i + gone]@
            &&& forall|i: int| 0 <= i < gone ==> now - (#[trigger] was[i]).at > 960_000_000_000
        }),
{
    let was = old(series)@;
    let is = final(series)@;
    let before = history::samples_view(was);
    let kept = history::samples_view(is);
    laws::state::recording_forgets_the_old(before, now, value@);
    let gone = was.len() + 1 - is.len();
    assert(kept.len() == is.len());
    assert(kept.last() == is.last()@);
    assert(kept[0] == is[0]@);
    assert forall|i: int| 0 <= i < is.len() - 1 implies (#[trigger] is[i])@ == was[i + gone]@ by {
        assert(kept[i] == is[i]@);
        assert(before[i + gone] == was[i + gone]@);
    }
    assert forall|i: int| 0 <= i < gone implies now - (#[trigger] was[i]).at > 960_000_000_000 by {
        assert(before[i] == was[i]@);
    }
}

/// What a chart displays are the samples of the last quarter of an hour.
pub proof fn displaying(series: &VecDeque<Sample>, now: u128, res: Vec<Sample>)
    requires
        call_ensures(history::displayed, (series, now), res),
    ensures
        history::samples_view(res@) == history::samples_view(series@).filter(
            laws::state::at_most(now, 900_000_000_000),
        ),
{
    laws::state::chart_shows_a_quarter_of_an_hour(history::samples_view(series@), now);
}

/// A trend comes from all samples of the last five minutes, and is there if and only if
/// they are five or more and span a minute or more.
pub proof fn picking_trend_samples(series: &VecDeque<Sample>, now: u128, res: Option<Vec<Sample>>)
    requires
        call_ensures(history::trend_samples, (series, now), res),
    ensures
        ({
            let window = history::samples_view(series@).filter(
                laws::state::at_most(now, 300_000_000_000),
            );
            &&& window.len() >= 5 && window.last().at - window[0].at >= 60_000_000_000 ==> res is Some
                && history::samples_view((res->0)@) == window
            &&& window.len() < 5 ==> res is None
            &&& window.len() > 0 && window.last().at - window[0].at < 60_000_000_000 ==> res is None
        }),
{
    laws::state::trend_comes_from_five_minutes(history::samples_view(series@), now);
}

/// The trend of the dashboard is that of the charge.
pub proof fn picking_the_trend_of_the_charge(a: &App, now: u128, res: Option<Vec<Sample>>)
    requires
        call_ensures(App::trend_samples, (a, now), res),
    ensures
        ({
            let window = history::samples_view(a.charge@).filter(
                laws::state::at_most(now, 300_000_000_000),
            );
            &&& window.len() >= 5 && window.last().at - window[0].at >= 60_000_000_000 ==> res is Some
                && history::samples_view((res->0)@) == window
            &&& window.len() < 5 ==> res is None
            &&& window.len() > 0 && window.last().at - window[0].at < 60_000_000_000 ==> res is None
        }),
{
    laws::state::trend_comes_from_five_minutes(history::samples_view(a.charge@), now);
}

// ------------------------------------------------------------------- trends

/// A time span in words.
pub proof fn writing_time_spans(secs: u64, h: nat, m: nat, s: nat, res: String)
    requires
        call_ensures(trend::fmt_dur, (secs,), res),
        m < 60,
        s < 60,
        secs == h * 3600 + m * 60 + s,
    ensures
        h > 0 ==> res@ == number::decimal_of(h) + "h "@ + number::two_digits_of(m) + "m"@,
        h == 0 ==> res@ == number::decimal_of(m) + "m "@ + number::two_digits_of(s) + "s"@,
{
    laws::state::time_spans_in_words(h, m, s);
}

/// What the trend predicts.
pub proof fn predicting(a: &App, t: Trend, res: Option<String>, none: Option<String>)
    requires
        call_ensures(App::trend_eta, (a, &Some(t)), res),
        call_ensures(App::trend_eta, (a, &None::<Trend>), none),
    ensures
        ({
            let battery = app::runs_on_battery(a@) && t.falling;
            let charging = !battery && t.rising && t.below_full;
            &&& none is None
            &&& battery && t.at_cutoff ==> res is Some && (res->0)@ == "below cutoff"@
            &&& battery && !t.at_cutoff ==> res is Some && (res->0)@ == "~"@ + trend::duration(
                t.secs_to_cutoff as nat,
            ) + " to "@ + t.cutoff@ + "% cutoff"@
            &&& charging ==> res is Some && (res->0)@ == "~"@ + trend::duration(
                t.secs_to_full as nat,
            ) + " to full"@
            &&& !battery && !charging ==> res is None
        }),
{
    laws::state::what_is_predicted(a@, t);
}

// --------------------------------------------------------------------- news

/// The dashboard is modelled by its fields, each by its own model.
pub proof fn model_of_the_dashboard(a: App, i: int)
    ensures
        ({
            let m = a@;
            &&& m.ups == a.ups@ && m.host == a.host@ && m.port == a.port && m.vars == a.vars@
            &&& m.charge == history::samples_view(a.charge@)
            &&& m.volt_in == history::samples_view(a.volt_in@)
            &&& m.volt_out == history::samples_view(a.volt_out@)
            &&& m.connected == a.connected && m.basic == a.basic
            &&& a.last_error is None ==> m.last_error is None
            &&& a.last_error matches Some(e) ==> m.last_error == Some(e@)
            &&& m.log.len() == a.log@.len()
            &&& 0 <= i < a.log@.len() ==> m.log[i] == a.log@[i]@
            &&& m.table_state == a.table_state && m.menu_state == a.menu_state
            &&& m.buttons.len() == a.buttons@.len()
            &&& 0 <= i < a.buttons@.len() ==> m.buttons[i] == (a.buttons@[i].0, a.buttons@[i].1@)
            &&& m.cmds.len() == a.cmds@.len()
            &&& 0 <= i < a.cmds@.len() ==> m.cmds[i] == (a.cmds@[i].0@, a.cmds@[i].1@)
            &&& m.rw.len() == a.rw@.len()
            &&& 0 <= i < a.rw@.len() ==> m.rw[i] == a.rw@[i]@
            &&& m.mode == a.mode@
        }),
{
}

/// The modes are modelled one by one, and so are the reactions to keys.
pub proof fn model_of_modes_and_reactions(x: String, y: String)
    ensures
        Mode::Normal@ is Normal,
        Mode::Help@ is Help,
        Mode::Menu@ is Menu,
        Mode::Confirm(x)@ == ModeModel::Confirm(x@),
        (Mode::SetVar { name: x, buffer: y })@ == (ModeModel::SetVar { name: x@, buffer: y@ }),
        Reaction::Stay@ is Stay,
        Reaction::Quit@ is Quit,
        Reaction::Send(WorkerCmd::Inst(x))@ == ReactionModel::Send(app::WorkerCmdModel::Inst(x@)),
        Reaction::Send(WorkerCmd::SetVar { name: x, value: y })@ == ReactionModel::Send(
            app::WorkerCmdModel::SetVar { name: x@, value: y@ },
        ),
        MenuAction::Cmd(x)@ == app::MenuActionModel::Cmd(x@),
        MenuAction::SetVar(x)@ == app::MenuActionModel::SetVar(x@),
{
}

/// Whether a series ends with a number, taken at the given time.
pub open spec fn ends_with(series: VecDeque<Sample>, now: u128, value: Seq<char>) -> bool {
    &&& series@.len() > 0
    &&& series@.last().at == now
    &&& series@.last().value@ == value
}

/// A poll that reports a number for a variable leaves its series with that number at the
/// end; one that does not leaves the series as it was. The variables are those of the
/// poll.
pub proof fn taking_a_poll(a: &mut App, v: VarMap, now: u128)
    requires
        call_ensures(App::apply_at, (a, Update::Vars(v), now), ()),
    ensures
        ({
            let was = *old(a);
            let is = *final(a);
            &&& laws::state::reports(v@, "battery.charge"@) ==> ends_with(
                is.charge,
                now,
                text::trimmed(v@["battery.charge"@]),
            )
            &&& laws::state::reports(v@, "input.voltage"@) ==> ends_with(
                is.volt_in,
                now,
                text::trimmed(v@["input.voltage"@]),
            )
            &&& laws::state::reports(v@, "output.voltage"@) ==> ends_with(
                is.volt_out,
                now,
                text::trimmed(v@["output.voltage"@]),
            )
            &&& !laws::state::reports(v@, "battery.charge"@) ==> is@.charge == was@.charge
            &&& !laws::state::reports(v@, "input.voltage"@) ==> is@.volt_in == was@.volt_in
            &&& !laws::state::reports(v@, "output.voltage"@) ==> is@.volt_out == was@.volt_out
            &&& is.vars@ == v@
            &&& is.connected
            &&& is.last_error is None
            &&& is@.log == was@.log && is@.cmds == was@.cmds && is@.rw == was@.rw
            &&& is.start == was.start
        }),
{
    laws::state::poll_records_its_readings(old(a)@, v@, now);
    let is = *final(a);
    let charge = history::samples_view(is.charge@);
    let volt_in = history::samples_view(is.volt_in@);
    let volt_out = history::samples_view(is.volt_out@);
    assert(is@.charge == charge && is@.volt_in == volt_in && is@.volt_out == volt_out);
    assert(charge.len() > 0 ==> charge.last() == is.charge@.last()@);
    assert(volt_in.len() > 0 ==> volt_in.last() == is.volt_in@.last()@);
    assert(volt_out.len() > 0 ==> volt_out.last() == is.volt_out@.last()@);
}

/// The other news do what they say: the lists replace the old ones, a failure is kept
/// and a result is noted.
pub proof fn taking_other_news(
    a: &mut App,
    b: &mut App,
    c: &mut App,
    d: &mut App,
    cmds: Vec<(String, String)>,
    rw: Vec<String>,
    e: String,
    cmd: String,
    result: String,
    now: u128,
)
    requires
        call_ensures(App::apply_at, (a, Update::Cmds(cmds), now), ()),
        call_ensures(App::apply_at, (b, Update::Rw(rw), now), ()),
        call_ensures(App::apply_at, (c, Update::Error(e), now), ()),
        call_ensures(App::apply_at, (d, (Update::CmdResult { cmd, result }), now), ()),
    ensures
        final(a)@.cmds == text::pairs_view(cmds@),
        final(a)@.rw == old(a)@.rw && final(a)@.log == old(a)@.log && final(a)@.vars == old(a)@.vars,
        final(b)@.rw == text::strings_view(rw@),
        final(b)@.cmds == old(b)@.cmds && final(b)@.log == old(b)@.log && final(b)@.vars == old(
            b,
        )@.vars,
        !final(c).connected,
        final(c)@.last_error == Some(e@),
        final(c)@.vars == old(c)@.vars,
        old(c)@.last_error != Some(e@) ==> final(c)@.log.last() == app::log_line(
            (now / 1_000_000_000) as nat,
            "poll error: "@ + e@,
        ),
        old(c)@.last_error == Some(e@) ==> final(c)@.log == old(c)@.log,
        final(d)@.log.last() == app::log_line(
            (now / 1_000_000_000) as nat,
            cmd@ + " → "@ + result@,
        ),
        final(d)@ == (AppModel { log: final(d)@.log, ..old(d)@ }),
{
    laws::state::lists_fill_the_menu(old(a)@, text::pairs_view(cmds@), Seq::empty(), now);
    laws::state::lists_fill_the_menu(old(b)@, Seq::empty(), text::strings_view(rw@), now);
    laws::state::failed_poll_is_kept(old(c)@, e@, now);
    laws::state::result_is_noted(old(d)@, cmd@, result@, now);
}

/// A note is the last line of the log, behind the time since the start, and nothing else
/// changes.
pub proof fn taking_a_note(a: &mut App, msg: String, now: u128)
    requires
        call_ensures(App::note_at, (a, msg, now), ()),
    ensures
        final(a)@.log.len() > 0,
        final(a)@.log.last() == app::log_line((now / 1_000_000_000) as nat, msg@),
        final(a)@.log.len() <= 100 || final(a)@.log.len() <= old(a)@.log.len(),
        final(a)@ == (AppModel { log: final(a)@.log, ..old(a)@ }),
        final(a).start == old(a).start,
{
    laws::state::note_is_appended(old(a)@, msg@, now, 0);
}

/// News and notes without a time are those at the time of the clock.
pub proof fn clock_decides_the_time(a: &mut App, b: &mut App, u: Update, msg: String)
    requires
        call_ensures(App::apply, (a, u), ()),
        call_ensures(App::note, (b, msg), ()),
    ensures
        exists|now: u128|
            old(a).can_show(now) && final(a)@ == #[trigger] app::applied(old(a)@, u@, now),
        exists|now: u128|
            old(b).can_show(now) && final(b)@ == #[trigger] app::noted(old(b)@, msg@, now),
{
}

/// A new dashboard knows the name and the address of the device and nothing else.
pub proof fn starting(ups: String, host: String, port: u16, res: App)
    requires
        call_ensures(App::new, (ups, host, port), res),
    ensures
        res.ups@ == ups@ && res.host@ == host@ && res.port == port,
        res.charge@.len() == 0 && res.volt_in@.len() == 0 && res.volt_out@.len() == 0,
        !res.connected && res.last_error is None && res.log@.len() == 0,
        res.cmds@.len() == 0 && res.rw@.len() == 0 && res.buttons@.len() == 0,
        res.vars@ == Map::<Seq<char>, Seq<char>>::empty(),
        res.mode is Normal && !res.basic,
        res.table_state.selected is None && res.menu_state.selected is None,
{
    laws::state::dashboard_starts_empty(ups@, host@, port);
    assert(res@.charge.len() == res.charge@.len());
    assert(res@.volt_in.len() == res.volt_in@.len());
    assert(res@.volt_out.len() == res.volt_out@.len());
    assert(res@.log.len() == res.log@.len());
    assert(res@.cmds.len() == res.cmds@.len());
    assert(res@.rw.len() == res.rw@.len());
    assert(res@.buttons.len() == res.buttons@.len());
}

// ---------------------------------------------------------------- variables

/// A variable reads as its value, or as a dash; as its number, or as none; the status is
/// one of them.
pub proof fn reading_variables(
    a: &App,
    key: &str,
    shown: &str,
    reading: Option<&str>,
    status: &str,
)
    requires
        call_ensures(App::s, (a, key), shown),
        call_ensures(App::f, (a, key), reading),
        call_ensures(App::status, (a,), status),
    ensures
        a.vars@.contains_key(key@) ==> shown@ == a.vars@[key@],
        !a.vars@.contains_key(key@) ==> shown@ == "–"@,
        laws::state::reports(a.vars@, key@) ==> reading is Some && (reading->0)@ == text::trimmed(
            a.vars@[key@],
        ),
        !laws::state::reports(a.vars@, key@) ==> reading is None,
        a.vars@.contains_key("ups.status"@) ==> status@ == a.vars@["ups.status"@],
        !a.vars@.contains_key("ups.status"@) ==> status@.len() == 0,
{
    laws::state::reading_is_a_number(a.vars@, key@);
    laws::state::status_is_a_variable(a@);
}

/// The device runs on battery if and only if `OB` is a word of its status.
pub proof fn telling_battery(a: &App, left: Seq<char>, right: Seq<char>, res: bool)
    requires
        call_ensures(App::on_battery, (a,), res),
    ensures
        a.vars@.contains_key("ups.status"@) && a.vars@["ups.status"@] == left + "OB"@ + right
            && laws::text::stands_in("OB"@, left, right) ==> res,
        res ==> a.vars@.contains_key("ups.status"@) && exists|l: Seq<char>, r: Seq<char>|
            #![trigger laws::text::stands_in("OB"@, l, r)]
            laws::text::stands_in("OB"@, l, r) && a.vars@["ups.status"@] == l + "OB"@ + r,
{
    laws::state::on_battery_means_ob(a@, left, right);
}

/// Which commands are dangerous.
pub proof fn telling_danger(cmd: &str, rest: Seq<char>, res: bool)
    requires
        call_ensures(app::is_dangerous, (cmd,), res),
    ensures
        cmd@ == "shutdown"@ + rest ==> res,
        cmd@ == "load.off"@ + rest ==> res,
        cmd@ == "driver.killpower"@ ==> res,
        res ==> {
            ||| cmd@ == "driver.killpower"@
            ||| cmd@.len() >= 8 && cmd@.take(8) == "shutdown"@
            ||| cmd@.len() >= 8 && cmd@.take(8) == "load.off"@
        },
{
    laws::state::dangerous_commands(rest, cmd@);
}

// ------------------------------------------------------------------ cursors

/// A new cursor is on no row. Selecting sets it; reading it gives what was selected.
pub proof fn using_a_cursor(
    c: &mut Cursor,
    d: &Cursor,
    row: Option<usize>,
    new: Cursor,
    read: Option<usize>,
)
    requires
        call_ensures(Cursor::new, (), new),
        call_ensures(Cursor::select, (c, row), ()),
        call_ensures(Cursor::selected, (d,), read),
    ensures
        new.selected is None && new.offset == 0,
        final(c).selected == row,
        row is Some ==> final(c).offset == old(c).offset,
        row is None ==> final(c).offset == 0,
        read == d.selected,
{
}

/// A cursor moves by as many rows as it is told to, within the list.
pub proof fn moving_a_cursor(c: &mut Cursor, len: usize, delta: i64, row: int)
    requires
        call_ensures(Cursor::scroll, (c, len, delta), ()),
        0 <= row <= 0x7fff_ffff_ffff_ffff,
        row <= usize::MAX,
        old(c).selected == Some(row as usize) || (old(c).selected is None && row == 0),
    ensures
        len == 0 ==> *final(c) == *old(c),
        len > 0 && 0 <= row + delta < len ==> final(c).selected == Some((row + delta) as usize),
        len > 0 && row + delta < 0 ==> final(c).selected == Some(0usize),
        len > 0 && row + delta >= len ==> final(c).selected == Some((len - 1) as usize),
        final(c).offset == old(c).offset,
{
    if len > 0 {
        laws::state::cursor_moves_by_rows(*old(c), len as nat, delta, row);
    }
}

/// Scrolling moves the cursor of the table, and menu scrolling that of the menu, as a
/// cursor moves in a list of that length; nothing else changes.
pub proof fn scrolling(a: &mut App, b: &mut App, delta: i64, rows: usize)
    requires
        call_ensures(App::scroll, (a, delta), ()),
        call_ensures(App::menu_scroll, (b, delta), ()),
        call_ensures(App::menu_len, (&*old(b),), rows),
        old(b)@.cmds.len() + old(b)@.rw.len() <= usize::MAX,
    ensures
        rows == old(b)@.cmds.len() + old(b)@.rw.len(),
        final(a)@ == (AppModel {
            table_state: app::scrolled(old(a).table_state, old(a).vars@.len(), delta),
            ..old(a)@
        }),
        final(b)@ == (AppModel {
            menu_state: app::scrolled(
                old(b).menu_state,
                old(b)@.cmds.len() + old(b)@.rw.len(),
                delta,
            ),
            ..old(b)@
        }),
{
    laws::state::menu_rows_are_counted(old(b)@);
}

/// The selected row of the menu runs the command, or sets the variable, that stands at
/// its place: the commands first, in their order, then the variables in theirs.
pub proof fn acting_on_the_selected_row(a: &App, row: usize, res: Option<MenuAction>)
    requires
        call_ensures(App::selected_action, (a,), res),
    ensures
        a.menu_state.selected is None ==> res is None,
        a.menu_state.selected == Some(row) && row < a.cmds@.len() ==> (res matches Some(
            MenuAction::Cmd(c),
        ) && c@ == a.cmds@[row as int].0@),
        a.menu_state.selected == Some(row) && a.cmds@.len() <= row < a.cmds@.len() + a.rw@.len()
            ==> (res matches Some(MenuAction::SetVar(n)) && n@ == a.rw@[row - a.cmds@.len()]@),
        a.menu_state.selected == Some(row) && row >= a.cmds@.len() + a.rw@.len() ==> res is None,
{
    let m = a@;
    assert(m.cmds.len() == a.cmds@.len() && m.rw.len() == a.rw@.len());
    if a.menu_state.selected == Some(row) {
        if row < a.cmds@.len() {
            laws::state::menu_rows_in_order(m, row as int);
            assert(m.cmds[row as int].0 == a.cmds@[row as int].0@);
        } else if row < a.cmds@.len() + a.rw@.len() {
            laws::state::menu_rows_in_order(m, row - a.cmds@.len());
            assert(m.rw[row - a.cmds@.len()] == a.rw@[row - a.cmds@.len()]@);
        } else {
            laws::state::menu_rows_in_order(m, row - a.cmds@.len());
        }
    }
}

// ---------------------------------------------------------- keys and clicks

/// A digit that is typed while a value is edited is added to it; Enter sends the value
/// for the variable; both as the editor shows them.
pub proof fn typing_a_value(
    a: &mut App,
    b: &mut App,
    name: String,
    buffer: String,
    c: char,
    ctrl: bool,
    now: u128,
    one: Reaction,
    other: Reaction,
)
    requires
        old(a).mode == (Mode::SetVar { name, buffer }),
        old(b).mode == (Mode::SetVar { name, buffer }),
        '0' <= c <= '9',
        call_ensures(input::on_key_at, (a, Key::Char(c), ctrl, now), one),
        call_ensures(input::on_key_at, (b, Key::Enter, ctrl, now), other),
    ensures
        one is Stay,
        final(a).mode matches Mode::SetVar { name: n, buffer: t } && n@ == name@ && t@ == buffer@.push(
            c,
        ),
        other matches Reaction::Send(WorkerCmd::SetVar { name: n, value: t }) && n@ == name@ && t@
            == buffer@,
        final(b).mode is Normal,
{
    laws::keys::digit_is_added(old(a)@, name@, buffer@, c, ctrl, now);
    laws::keys::typed_digits_are_sent(old(b)@, name@, buffer@, Seq::empty(), now);
    laws::keys::control_matters_for_c_only(old(b)@, Key::Enter, now);
    assert(laws::keys::typed(old(b)@, Seq::empty(), now) == old(b)@);
    assert(buffer@ + Seq::<char>::empty() =~= buffer@);
    assert((final(a)@, one@) == input::pressed(old(a)@, Key::Char(c), ctrl, now));
    assert((final(b)@, other@) == input::pressed(old(b)@, Key::Enter, ctrl, now));
    assert(final(a)@.mode == final(a).mode@);
    assert(final(b)@.mode == final(b).mode@);
}

/// Keys and clicks at a time do what they do in the model, and those without a time what
/// they do at the time of the clock. The start of the clock stays.
pub proof fn pressing_and_clicking(
    a: &mut App,
    b: &mut App,
    c: &mut App,
    d: &mut App,
    key: Key,
    ctrl: bool,
    column: u16,
    row: u16,
    now: u128,
    ra: Reaction,
    rb: Reaction,
    rc: Reaction,
    rd: Reaction,
)
    requires
        call_ensures(input::on_key_at, (a, key, ctrl, now), ra),
        call_ensures(input::on_key, (b, key, ctrl), rb),
        call_ensures(input::on_click_at, (c, column, row, now), rc),
        call_ensures(input::on_click, (d, column, row), rd),
    ensures
        (final(a)@, ra@) == input::pressed(old(a)@, key, ctrl, now),
        exists|t: u128|
            old(b).can_show(t) && (final(b)@, rb@) == #[trigger] input::pressed(
                old(b)@,
                key,
                ctrl,
                t,
            ),
        (final(c)@, rc@) == input::clicked(old(c)@, column, row, now),
        exists|t: u128|
            old(d).can_show(t) && (final(d)@, rd@) == #[trigger] input::clicked(
                old(d)@,
                column,
                row,
                t,
            ),
        final(a).start == old(a).start && final(b).start == old(b).start,
        final(c).start == old(c).start && final(d).start == old(d).start,
{
}

/// The buttons, and the command that goes with a key.
pub proof fn listing_buttons(list: Vec<Button>, key: char, cmd: Option<String>)
    requires
        call_ensures(input::buttons, (), list),
        call_ensures(input::button_command, (key,), cmd),
    ensures
        list@.len() == 4,
        list@[0].label@ == "Quick test"@ && list@[0].key == 't',
        list@[0].cmd@ == "test.battery.start.quick"@,
        list@[1].label@ == "Deep test"@ && list@[1].key == 'd',
        list@[1].cmd@ == "test.battery.start.deep"@,
        list@[2].label@ == "Stop test"@ && list@[2].key == 's',
        list@[2].cmd@ == "test.battery.stop"@,
        list@[3].label@ == "Beeper"@ && list@[3].key == 'b',
        list@[3].cmd@ == "beeper"@,
        key == 't' ==> cmd is Some && (cmd->0)@ == "test.battery.start.quick"@,
        key == 'd' ==> cmd is Some && (cmd->0)@ == "test.battery.start.deep"@,
        key == 's' ==> cmd is Some && (cmd->0)@ == "test.battery.stop"@,
        key == 'b' ==> cmd is Some && (cmd->0)@ == "beeper"@,
        key != 't' && key != 'd' && key != 's' && key != 'b' ==> cmd is None,
{
    let all = list@.map_values(|b: Button| b@);
    assert(all.len() == list@.len());
    assert(all[0] == list@[0]@ && all[1] == list@[1]@ && all[2] == list@[2]@ && all[3] == list@[3]@);
    reveal_with_fuel(input::command_of, 5);
}

/// A click finds the command of the first box that holds the cell.
pub proof fn finding_a_button(a: &App, column: u16, row: u16, i: int, res: Option<String>)
    requires
        call_ensures(input::button_at, (a, column, row), res),
    ensures
        0 <= i < a.buttons@.len() && laws::keys::covers(a.buttons@[i].0, column, row) && (forall|
            j: int,
        |
            0 <= j < i ==> !laws::keys::covers((#[trigger] a.buttons@[j]).0, column, row))
            ==> res is Some && (res->0)@ == a.buttons@[i].1@,
        (forall|j: int|
            0 <= j < a.buttons@.len() ==> !laws::keys::covers(
                (#[trigger] a.buttons@[j]).0,
                column,
                row,
            )) ==> res is None,
{
    let boxes = a@.buttons;
    assert(boxes.len() == a.buttons@.len());
    if 0 <= i < a.buttons@.len() && laws::keys::covers(a.buttons@[i].0, column, row) && (forall|j: int|
        0 <= j < i ==> !laws::keys::covers((#[trigger] a.buttons@[j]).0, column, row)) {
        assert forall|j: int| 0 <= j < i implies !laws::keys::covers(
            (#[trigger] boxes[j]).0,
            column,
            row,
        ) by {
            assert(boxes[j].0 == a.buttons@[j].0);
        }
        lemma_first(boxes, column, row, i);
        assert(boxes[i].1 == a.buttons@[i].1@);
    }
    if forall|j: int|
        0 <= j < a.buttons@.len() ==> !laws::keys::covers((#[trigger] a.buttons@[j]).0, column, row) {
        assert forall|j: int| 0 <= j < boxes.len() implies !laws::keys::covers(
            (#[trigger] boxes[j]).0,
            column,
            row,
        ) by {
            assert(boxes[j].0 == a.buttons@[j].0);
        }
        lemma_first(boxes, column, row, boxes.len() as int);
    }
}

proof fn lemma_first(boxes: Seq<(Rect, Seq<char>)>, column: u16, row: u16, i: int)
    requires
        0 <= i <= boxes.len(),
        forall|j: int| 0 <= j < i ==> !laws::keys::covers((#[trigger] boxes[j]).0, column, row),
        i < boxes.len() ==> laws::keys::covers(boxes[i].0, column, row),
    ensures
        i < boxes.len() ==> input::hit(boxes, column, row) == Some(boxes[i].1),
        i == boxes.len() ==> input::hit(boxes, column, row) is None,
    decreases boxes.len(),
{
    if boxes.len() > 0 {
        let rest = boxes.drop_first();
        assert(seq![(boxes[0].0, boxes[0].1)] + rest =~= boxes);
        laws::keys::first_box_is_hit(boxes[0].0, boxes[0].1, rest, column, row);
        if i > 0 {
            assert(!laws::keys::covers(boxes[0].0, column, row));
            assert forall|j: int| 0 <= j < i - 1 implies !laws::keys::covers(
                (#[trigger] rest[j]).0,
                column,
                row,
            ) by {
                assert(rest[j] == boxes[j + 1]);
            }
            lemma_first(rest, column, row, i - 1);
        }
    }
}

/// The setting of a variable is called `set` and its name.
pub proof fn naming_a_setting(name: &str, res: String)
    requires
        call_ensures(input::set_label_text, (name,), res),
    ensures
        res@ == "set "@ + name@,
{
}

} // verus!
