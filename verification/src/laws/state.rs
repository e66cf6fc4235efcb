//! Promises of the dashboard's state: what a poll leaves behind, what a note does to
//! the log, where the cursors go, and what a trend comes from.

use vstd::prelude::*;

use crate::app;
use crate::app::{AppModel, Cursor, MenuActionModel, UpdateModel};
use crate::history;
use crate::history::SampleModel;
use crate::laws;
use crate::number;
use crate::text;
use crate::trend;
use crate::trend::Trend;

verus! {

// ----------------------------------------------------------------- history

/// The samples that were taken at most so many nanoseconds before `now`.
pub open spec fn at_most(now: u128, nanos: int) -> spec_fn(SampleModel) -> bool {
    |x: SampleModel| now - x.at <= nanos
}

/// A chart shows the samples of the last quarter of an hour, all of them and no others,
/// in the order in which they are kept.
pub proof fn chart_shows_a_quarter_of_an_hour(s: Seq<SampleModel>, now: u128)
    ensures
        history::charted(s, now) == s.filter(at_most(now, 900_000_000_000)),
{
    lemma_recent_filters(s, now, 900, 900_000_000_000);
}

/// A trend is there if and only if at least five samples of the last five minutes are
/// kept and at least a minute passed from the first of them to the last, and it comes
/// from all of them.
pub proof fn trend_comes_from_five_minutes(s: Seq<SampleModel>, now: u128)
    ensures
        ({
            let window = s.filter(at_most(now, 300_000_000_000));
            &&& window.len() >= 5 && window.last().at - window[0].at >= 60_000_000_000
                ==> history::trend_basis(s, now) == Some(window)
            &&& window.len() < 5 ==> history::trend_basis(s, now) is None
            &&& window.len() > 0 && window.last().at - window[0].at < 60_000_000_000
                ==> history::trend_basis(s, now) is None
        }),
{
    lemma_recent_filters(s, now, 300, 300_000_000_000);
}

/// Five samples or more that span a minute or more show a trend; fewer, or ones that
/// span less, do not.
pub proof fn enough_samples_show_a_trend(window: Seq<SampleModel>)
    ensures
        window.len() >= 5 && window.last().at - window[0].at >= 60_000_000_000
            ==> history::shows_trend(window),
        window.len() < 5 ==> !history::shows_trend(window),
        window.len() > 0 && window.last().at - window[0].at < 60_000_000_000
            ==> !history::shows_trend(window),
{
}

/// A further sample from the last five minutes, no earlier than the last one, never
/// makes a trend disappear.
pub proof fn further_sample_keeps_the_trend(s: Seq<SampleModel>, x: SampleModel, now: u128)
    requires
        history::trend_basis(s, now) is Some,
        s.len() > 0 ==> s.filter(at_most(now, 300_000_000_000)).last().at <= x.at,
        now - x.at <= 300_000_000_000,
    ensures
        history::trend_basis(s.push(x), now) == Some((history::trend_basis(s, now)->0).push(x)),
{
    trend_comes_from_five_minutes(s, now);
    trend_comes_from_five_minutes(s.push(x), now);
    let recent = at_most(now, 300_000_000_000);
    reveal(Seq::filter);
    assert(s.push(x).drop_last() =~= s);
    assert(s.push(x).filter(recent) == s.filter(recent).push(x));
}

proof fn lemma_recent_filters(s: Seq<SampleModel>, now: u128, secs: int, nanos: int)
    requires
        nanos == secs * 1_000_000_000,
    ensures
        history::recent(s, now, secs) == s.filter(at_most(now, nanos)),
    decreases s.len(),
{
    reveal(Seq::filter);
    if s.len() == 0 {
        assert(s =~= Seq::<SampleModel>::empty());
    } else {
        lemma_recent_filters(s.drop_last(), now, secs, nanos);
    }
}

/// Recording a reading puts it at the end. Of what was there before, a part at the
/// start is forgotten: all of it is more than sixteen minutes old, and what the series
/// then starts with is not.
pub proof fn recording_forgets_the_old(s: Seq<SampleModel>, now: u128, value: Seq<char>)
    ensures
        ({
            let all = s.push(SampleModel { at: now, value });
            let kept = history::recorded(s, now, value);
            let gone = all.len() - kept.len();
            &&& 0 < kept.len() <= all.len()
            &&& kept == all.skip(gone)
            &&& kept.last() == (SampleModel { at: now, value })
            &&& now - kept[0].at <= 960_000_000_000
            &&& forall|i: int| 0 <= i < gone ==> now - (#[trigger] s[i]).at > 960_000_000_000
        }),
{
    let all = s.push(SampleModel { at: now, value });
    lemma_pruned(all, now);
    let kept = history::recorded(s, now, value);
    let gone = all.len() - kept.len();
    assert forall|i: int| 0 <= i < gone implies now - (#[trigger] s[i]).at > 960_000_000_000 by {
        assert(all[i] == s[i]);
    }
}

proof fn lemma_pruned(s: Seq<SampleModel>, now: u128)
    requires
        s.len() > 0,
        s.last().at == now,
    ensures
        ({
            let kept = history::pruned(s, now);
            let gone = s.len() - kept.len();
            &&& 0 < kept.len() <= s.len()
            &&& kept == s.skip(gone)
            &&& now - kept[0].at <= 960_000_000_000
            &&& forall|i: int| 0 <= i < gone ==> now - (#[trigger] s[i]).at > 960_000_000_000
        }),
    decreases s.len(),
{
    if now - s[0].at > 960_000_000_000 {
        let rest = s.drop_first();
        lemma_pruned(rest, now);
        let kept = history::pruned(s, now);
        let gone = s.len() - kept.len();
        assert(kept =~= s.skip(gone));
        assert forall|i: int| 0 <= i < gone implies now - (#[trigger] s[i]).at > 960_000_000_000 by {
            if i > 0 {
                assert(rest[i - 1] == s[i]);
            }
        }
    } else {
        assert(s.skip(0) =~= s);
    }
}

// -------------------------------------------------------------------- polls

/// Whether a poll reports a number for a variable.
pub open spec fn reports(v: Map<Seq<char>, Seq<char>>, key: Seq<char>) -> bool {
    v.contains_key(key) && number::is_real(text::trimmed(v[key]))
}

/// What a series is after a poll: where the poll reports a number for the series' own
/// variable, that number stands at its end, taken now; where it does not, the series is
/// as it was.
pub open spec fn follows(
    was: Seq<SampleModel>,
    is: Seq<SampleModel>,
    v: Map<Seq<char>, Seq<char>>,
    key: Seq<char>,
    now: u128,
) -> bool {
    let new = SampleModel { at: now, value: text::trimmed(v[key]) };
    &&& reports(v, key) ==> is.len() > 0 && is.last() == new && is == was.push(new).skip(
        was.len() + 1 - is.len(),
    )
    &&& !reports(v, key) ==> is == was
}

/// A poll records the charge, the input voltage and the output voltage each from its
/// own variable, whatever else it reports.
pub proof fn poll_records_its_readings(app: AppModel, v: Map<Seq<char>, Seq<char>>, now: u128)
    ensures
        ({
            let polled = app::applied(app, UpdateModel::Vars(v), now);
            &&& follows(app.charge, polled.charge, v, "battery.charge"@, now)
            &&& follows(app.volt_in, polled.volt_in, v, "input.voltage"@, now)
            &&& follows(app.volt_out, polled.volt_out, v, "output.voltage"@, now)
        }),
{
    lemma_follows(app.charge, v, "battery.charge"@, now);
    lemma_follows(app.volt_in, v, "input.voltage"@, now);
    lemma_follows(app.volt_out, v, "output.voltage"@, now);
}

proof fn lemma_follows(
    s: Seq<SampleModel>,
    v: Map<Seq<char>, Seq<char>>,
    key: Seq<char>,
    now: u128,
)
    ensures
        follows(s, app::tracked_reading(s, v, key, now), v, key, now),
{
    if reports(v, key) {
        recording_forgets_the_old(s, now, text::trimmed(v[key]));
    }
}

/// A number that a poll reports for a variable is what its series ends with: the
/// charge for `battery.charge`, the voltages for `input.voltage` and `output.voltage`.
pub proof fn reported_number_ends_the_series(
    app: AppModel,
    v: Map<Seq<char>, Seq<char>>,
    number: Seq<char>,
    now: u128,
)
    requires
        number::is_real(number),
        text::trimmed(number) == number,
    ensures
        ({
            let sample = SampleModel { at: now, value: number };
            let charge = app::applied(
                app,
                UpdateModel::Vars(v.insert("battery.charge"@, number)),
                now,
            ).charge;
            let volt_in = app::applied(
                app,
                UpdateModel::Vars(v.insert("input.voltage"@, number)),
                now,
            ).volt_in;
            let volt_out = app::applied(
                app,
                UpdateModel::Vars(v.insert("output.voltage"@, number)),
                now,
            ).volt_out;
            &&& charge.len() > 0 && charge.last() == sample
            &&& volt_in.len() > 0 && volt_in.last() == sample
            &&& volt_out.len() > 0 && volt_out.last() == sample
        }),
{
    poll_records_its_readings(app, v.insert("battery.charge"@, number), now);
    poll_records_its_readings(app, v.insert("input.voltage"@, number), now);
    poll_records_its_readings(app, v.insert("output.voltage"@, number), now);
}

/// Two polls that report the same for a variable leave the same series, however they
/// differ in the rest. One that does not report the variable leaves the series alone.
pub proof fn series_depends_on_its_own_variable(
    app: AppModel,
    v: Map<Seq<char>, Seq<char>>,
    key: Seq<char>,
    value: Seq<char>,
    now: u128,
)
    ensures
        ({
            let one = app::applied(app, UpdateModel::Vars(v), now);
            let other = app::applied(app, UpdateModel::Vars(v.insert(key, value)), now);
            &&& key != "battery.charge"@ ==> one.charge == other.charge
            &&& key != "input.voltage"@ ==> one.volt_in == other.volt_in
            &&& key != "output.voltage"@ ==> one.volt_out == other.volt_out
            &&& !v.contains_key("battery.charge"@) ==> one.charge == app.charge
            &&& !v.contains_key("input.voltage"@) ==> one.volt_in == app.volt_in
            &&& !v.contains_key("output.voltage"@) ==> one.volt_out == app.volt_out
        }),
{
}

/// A poll replaces the variables, clears the last error and leaves the rest of the
/// dashboard alone. A selection in the table that is still a row stays; one that is not
/// goes to the last row, or to none where the table is empty.
pub proof fn poll_replaces_the_variables(app: AppModel, v: Map<Seq<char>, Seq<char>>, now: u128)
    requires
        v.len() <= usize::MAX,
    ensures
        ({
            let polled = app::applied(app, UpdateModel::Vars(v), now);
            let row = app.table_state.selected;
            &&& polled.vars == v
            &&& polled.connected
            &&& polled.last_error is None
            &&& row is None ==> polled.table_state == app.table_state
            &&& row is Some && row->0 < v.len() ==> polled.table_state == app.table_state
            &&& row is Some && row->0 >= v.len() > 0 ==> polled.table_state == (Cursor {
                selected: Some((v.len() - 1) as usize),
                offset: app.table_state.offset,
            })
            &&& row is Some && v.len() == 0 ==> polled.table_state == (Cursor {
                selected: None,
                offset: 0,
            })
            &&& polled == (AppModel {
                vars: polled.vars,
                connected: polled.connected,
                last_error: polled.last_error,
                table_state: polled.table_state,
                charge: polled.charge,
                volt_in: polled.volt_in,
                volt_out: polled.volt_out,
                ..app
            })
        }),
{
}

/// The list of commands, and that of the variables that can be set, replace what was
/// there. The menu's cursor goes to the first row if it was on none and there is one,
/// and else stays; nothing else changes.
pub proof fn lists_fill_the_menu(
    app: AppModel,
    cmds: Seq<(Seq<char>, Seq<char>)>,
    rw: Seq<Seq<char>>,
    now: u128,
)
    ensures
        ({
            let one = app::applied(app, UpdateModel::Cmds(cmds), now);
            let other = app::applied(app, UpdateModel::Rw(rw), now);
            let first = Cursor { selected: Some(0), offset: app.menu_state.offset };
            &&& one == (AppModel { cmds, menu_state: one.menu_state, ..app })
            &&& other == (AppModel { rw, menu_state: other.menu_state, ..app })
            &&& app.menu_state.selected is Some ==> one.menu_state == app.menu_state
                && other.menu_state == app.menu_state
            &&& app.menu_state.selected is None && (cmds.len() > 0 || app.rw.len() > 0)
                ==> one.menu_state == first
            &&& app.menu_state.selected is None && (app.cmds.len() > 0 || rw.len() > 0)
                ==> other.menu_state == first
            &&& app.menu_state.selected is None && cmds.len() == 0 && app.rw.len() == 0
                ==> one.menu_state == app.menu_state
            &&& app.menu_state.selected is None && app.cmds.len() == 0 && rw.len() == 0
                ==> other.menu_state == app.menu_state
        }),
{
}

/// A failed poll marks the connection as lost and keeps the reason. It is noted where
/// it is not the reason that was known before; nothing else changes, and what was known
/// of the device stays.
pub proof fn failed_poll_is_kept(app: AppModel, e: Seq<char>, now: u128)
    ensures
        ({
            let failed = app::applied(app, UpdateModel::Error(e), now);
            &&& !failed.connected
            &&& failed.last_error == Some(e)
            &&& app.last_error == Some(e) ==> failed.log == app.log
            &&& app.last_error != Some(e) ==> failed.log.len() > 0 && failed.log.last()
                == app::log_line((now / 1_000_000_000) as nat, "poll error: "@ + e)
            &&& failed == (AppModel {
                connected: false,
                last_error: Some(e),
                log: failed.log,
                ..app
            })
        }),
{
    note_is_appended(app, "poll error: "@ + e, now, 0);
}

/// What came of a command is noted, and nothing else changes.
pub proof fn result_is_noted(app: AppModel, cmd: Seq<char>, result: Seq<char>, now: u128)
    ensures
        ({
            let told = app::applied(app, UpdateModel::CmdResult { cmd, result }, now);
            &&& told.log.len() > 0
            &&& told.log.last() == app::log_line(
                (now / 1_000_000_000) as nat,
                cmd + " → "@ + result,
            )
            &&& told == (AppModel { log: told.log, ..app })
        }),
{
    note_is_appended(app, cmd + " → "@ + result, now, 0);
}

/// A note is the last line of the log. The lines before it are those that were there,
/// in their order; only from the hundredth line on does the oldest give way. Nothing
/// but the log changes.
pub proof fn note_is_appended(app: AppModel, msg: Seq<char>, now: u128, i: int)
    ensures
        ({
            let noted = app::noted(app, msg, now);
            let n = app.log.len();
            let gone = n + 1 - noted.log.len();
            &&& noted == (AppModel { log: noted.log, ..app })
            &&& noted.log.last() == app::log_line((now / 1_000_000_000) as nat, msg)
            &&& n < 100 ==> noted.log.len() == n + 1
            &&& n >= 100 ==> noted.log.len() == 100
            &&& 0 <= i < noted.log.len() - 1 ==> noted.log[i] == app.log[i + gone]
        }),
{
}

/// A line of the log starts with the time in hours, minutes and seconds, each with two
/// digits, and ends with the message.
pub proof fn log_line_shows_the_time(h: nat, m: nat, s: nat, msg: Seq<char>)
    requires
        m < 60,
        s < 60,
    ensures
        app::log_line(h * 3600 + m * 60 + s, msg) == "[+"@ + number::two_digits_of(h) + ":"@
            + number::two_digits_of(m) + ":"@ + number::two_digits_of(s) + "] "@ + msg,
{
    let t = h * 3600 + m * 60 + s;
    assert(t / 3600 == h && t / 60 % 60 == m && t % 60 == s) by {
        lemma_clock(h, m, s);
    }
}

proof fn lemma_clock(h: nat, m: nat, s: nat)
    requires
        m < 60,
        s < 60,
    ensures
        (h * 3600 + m * 60 + s) / 3600 == h,
        (h * 3600 + m * 60 + s) / 60 == h * 60 + m,
        (h * 60 + m) % 60 == m,
        (h * 3600 + m * 60 + s) % 60 == s,
{
}

/// The dashboard starts with the device's name and address, and nothing else.
pub proof fn dashboard_starts_empty(ups: Seq<char>, host: Seq<char>, port: u16)
    ensures
        ({
            let a = app::blank(ups, host, port);
            &&& a.ups == ups && a.host == host && a.port == port
            &&& a.vars == Map::<Seq<char>, Seq<char>>::empty()
            &&& a.charge.len() == 0 && a.volt_in.len() == 0 && a.volt_out.len() == 0
            &&& !a.connected && a.last_error is None && a.log.len() == 0
            &&& a.table_state.selected is None && a.table_state.offset == 0
            &&& a.menu_state.selected is None && a.menu_state.offset == 0
            &&& a.buttons.len() == 0 && a.cmds.len() == 0 && a.rw.len() == 0
            &&& a.mode is Normal && !a.basic
        }),
{
}

/// The number of a variable is its value without the white space around it, if that is
/// a number.
pub proof fn reading_is_a_number(m: Map<Seq<char>, Seq<char>>, key: Seq<char>)
    ensures
        reports(m, key) ==> app::reading(m, key) == Some(text::trimmed(m[key])),
        !reports(m, key) ==> app::reading(m, key) is None,
{
}

// ------------------------------------------------------------------ cursors

/// A cursor moves by as many rows as it is told to, stops at the first and at the last
/// row, and starts from the first where nothing was selected. One behind the last row
/// moves in the same way. The top of the list on the screen stays, and in an empty list
/// nothing happens.
pub proof fn cursor_moves_by_rows(c: Cursor, len: nat, delta: i64, row: int)
    requires
        0 < len <= usize::MAX,
        0 <= row <= 0x7fff_ffff_ffff_ffff,
        row <= usize::MAX,
        c.selected == Some(row as usize) || (c.selected is None && row == 0) || (
        c.selected matches Some(far) && far > 0x7fff_ffff_ffff_ffff && row == 0x7fff_ffff_ffff_ffff),
    ensures
        ({
            let moved = app::scrolled(c, len, delta);
            &&& 0 <= row + delta < len ==> moved.selected == Some((row + delta) as usize)
            &&& row + delta < 0 ==> moved.selected == Some(0usize)
            &&& row + delta >= len ==> moved.selected == Some((len - 1) as usize)
            &&& moved.offset == c.offset
            &&& app::scrolled(c, 0, delta) == c
        }),
{
}

/// Selecting a row keeps the top of the list on the screen; selecting none goes back to
/// its start.
pub proof fn selection_keeps_the_top(c: Cursor, row: usize)
    ensures
        app::moved_to(c, Some(row)) == (Cursor { selected: Some(row), offset: c.offset }),
        app::moved_to(c, None) == (Cursor { selected: None, offset: 0 }),
{
}

/// The i-th row of the menu runs the i-th command. Behind the commands, the i-th further
/// row sets the i-th variable; behind those there is nothing.
pub proof fn menu_rows_in_order(app: AppModel, i: int)
    ensures
        0 <= i < app.cmds.len() ==> app::menu_row(app, i) == Some(
            MenuActionModel::Cmd(app.cmds[i].0),
        ),
        0 <= i < app.rw.len() ==> app::menu_row(app, app.cmds.len() + i) == Some(
            MenuActionModel::SetVar(app.rw[i]),
        ),
        i >= app.rw.len() ==> app::menu_row(app, app.cmds.len() + i) is None,
{
}

/// The selected row does what the row does, and nothing is done with none selected.
pub proof fn selection_acts_as_its_row(app: AppModel, i: usize)
    ensures
        ({
            let on = AppModel {
                menu_state: Cursor { selected: Some(i), offset: app.menu_state.offset },
                ..app
            };
            &&& i < app.cmds.len() ==> app::selected_row(on) == Some(
                MenuActionModel::Cmd(app.cmds[i as int].0),
            )
            &&& app.cmds.len() <= i < app.cmds.len() + app.rw.len() ==> app::selected_row(on)
                == Some(MenuActionModel::SetVar(app.rw[i - app.cmds.len()]))
            &&& i >= app.cmds.len() + app.rw.len() ==> app::selected_row(on) is None
            &&& app.menu_state.selected is None ==> app::selected_row(app) is None
        }),
{
}

/// The menu has a row for each command and for each variable that can be set.
pub proof fn menu_rows_are_counted(app: AppModel)
    requires
        app.cmds.len() + app.rw.len() <= usize::MAX,
    ensures
        app::menu_rows(app) == app.cmds.len() + app.rw.len(),
{
}

/// Commands that start with `shutdown` or with `load.off`, whatever follows, and
/// `driver.killpower` are dangerous, and no others.
pub proof fn dangerous_commands(rest: Seq<char>, cmd: Seq<char>)
    ensures
        app::dangerous("shutdown"@ + rest),
        app::dangerous("load.off"@ + rest),
        app::dangerous("driver.killpower"@),
        app::dangerous(cmd) ==> {
            ||| cmd == "driver.killpower"@
            ||| cmd.len() >= 8 && cmd.take(8) == "shutdown"@
            ||| cmd.len() >= 8 && cmd.take(8) == "load.off"@
        },
{
    reveal_strlit("shutdown");
    reveal_strlit("load.off");
    assert(("shutdown"@ + rest).subrange(0, 8) =~= "shutdown"@);
    assert(("load.off"@ + rest).subrange(0, 8) =~= "load.off"@);
}

// ------------------------------------------------------------------- status

/// The device runs on battery if and only if `OB` stands in its status as a word of its
/// own.
pub proof fn on_battery_means_ob(app: AppModel, left: Seq<char>, right: Seq<char>)
    ensures
        app.vars.contains_key("ups.status"@) && app.vars["ups.status"@] == left + "OB"@ + right
            && laws::text::stands_in("OB"@, left, right) ==> app::runs_on_battery(app),
        app::runs_on_battery(app) ==> app.vars.contains_key("ups.status"@) && exists|
            l: Seq<char>,
            r: Seq<char>,
        |
            #![trigger laws::text::stands_in("OB"@, l, r)]
            laws::text::stands_in("OB"@, l, r) && app.vars["ups.status"@] == l + "OB"@ + r,
{
    if app.vars.contains_key("ups.status"@) {
        let s = app.vars["ups.status"@];
        if s == left + "OB"@ + right && laws::text::stands_in("OB"@, left, right) {
            laws::text::word_is_found(left, "OB"@, right);
        }
        if app::runs_on_battery(app) {
            laws::text::words_stand_in_the_text(s, "OB"@);
        }
    } else {
        reveal_strlit("");
        let none = Seq::<char>::empty();
        assert(""@ =~= none);
        laws::text::words_come_one_by_one(none, seq!['x'], none);
        assert(app::status_of(app) == none);
    }
}

/// The status is the value of `ups.status`, and empty where the device does not report
/// it.
pub proof fn status_is_a_variable(app: AppModel)
    ensures
        app.vars.contains_key("ups.status"@) ==> app::status_of(app) == app.vars["ups.status"@],
        !app.vars.contains_key("ups.status"@) ==> app::status_of(app).len() == 0,
{
    reveal_strlit("");
}

// -------------------------------------------------------------------- trend

/// A time span is written in hours and minutes from one hour on, and in minutes and
/// seconds below; the second number always has two digits.
pub proof fn time_spans_in_words(h: nat, m: nat, s: nat)
    requires
        m < 60,
        s < 60,
    ensures
        h > 0 ==> trend::duration(h * 3600 + m * 60 + s) == number::decimal_of(h) + "h "@
            + number::two_digits_of(m) + "m"@,
        trend::duration(m * 60 + s) == number::decimal_of(m) + "m "@ + number::two_digits_of(s)
            + "s"@,
{
    lemma_clock(h, m, s);
    lemma_clock(0, m, s);
}

/// While the device runs on battery and the charge falls, the time to the cutoff is
/// predicted, or that the charge is below it. Else, while the charge rises and is below
/// one hundred percent, the time to a full battery is predicted. In all other cases
/// nothing is.
pub proof fn what_is_predicted(a: AppModel, t: Trend)
    ensures
        trend::prediction(a, None) is None,
        app::runs_on_battery(a) && t.falling && t.at_cutoff ==> trend::prediction(a, Some(t))
            == Some("below cutoff"@),
        app::runs_on_battery(a) && t.falling && !t.at_cutoff ==> trend::prediction(a, Some(t))
            == Some(
            "~"@ + trend::duration(t.secs_to_cutoff as nat) + " to "@ + t.cutoff@ + "% cutoff"@,
        ),
        !(app::runs_on_battery(a) && t.falling) && t.rising && t.below_full ==> trend::prediction(
            a,
            Some(t),
        ) == Some("~"@ + trend::duration(t.secs_to_full as nat) + " to full"@),
        !(app::runs_on_battery(a) && t.falling) && !(t.rising && t.below_full)
            ==> trend::prediction(a, Some(t)) is None,
{
}

} // verus!
