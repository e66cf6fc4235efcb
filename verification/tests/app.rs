use nuttty::app::{is_dangerous, App, Cursor, MenuAction, Update};
use nuttty::history::Sample;
use nuttty::trend::{fmt_dur, Trend};
use nuttty::vars::VarMap;

const SEC: u128 = 1_000_000_000;

fn whole_secs(secs: f64) -> u64 {
    secs.max(0.0) as u64
}

fn dur(secs: f64) -> String {
    fmt_dur(whole_secs(secs))
}

fn app_with(status: &str, charge: f64, history: &[(f64, f64)]) -> App {
    let mut app = App::new("ups".into(), "localhost".into(), 3493);
    app.vars.insert("ups.status".into(), status.into());
    app.vars
        .insert("battery.charge".into(), format!("{charge}"));
    app.vars.insert("battery.charge.low".into(), "20".into());
    for &(t, v) in history {
        app.charge.push_back(Sample {
            at: (t * 1e9) as u128,
            value: format!("{v}"),
        });
    }
    app
}

/// The prediction, with the slope fitted to the samples that the dashboard picks.
fn eta(app: &App) -> Option<String> {
    let pts: Vec<(f64, f64)> = match app.trend_samples(app.now()) {
        Some(samples) => samples
            .iter()
            .map(|s| (s.at as f64 / 1e9, s.value.parse().unwrap()))
            .collect(),
        None => return app.trend_eta(&None),
    };
    let n = pts.len() as f64;
    let mx = pts.iter().map(|p| p.0).sum::<f64>() / n;
    let my = pts.iter().map(|p| p.1).sum::<f64>() / n;
    let cov: f64 = pts.iter().map(|p| (p.0 - mx) * (p.1 - my)).sum();
    let var: f64 = pts.iter().map(|p| (p.0 - mx).powi(2)).sum();
    let slope = cov / var;
    let charge: f64 = app.f("battery.charge").unwrap().parse().unwrap();
    let low: f64 = app.f("battery.charge.low").unwrap().parse().unwrap();
    app.trend_eta(&Some(Trend {
        falling: slope < -1e-4,
        rising: slope > 1e-4,
        at_cutoff: charge <= low,
        below_full: charge < 100.0,
        secs_to_cutoff: whole_secs((charge - low) / -slope),
        cutoff: format!("{low:.0}"),
        secs_to_full: whole_secs((100.0 - charge) / slope),
    }))
}

#[test]
fn fmt_dur_ranges() {
    assert_eq!(dur(0.0), "0m 00s");
    assert_eq!(dur(59.0), "0m 59s");
    assert_eq!(dur(2040.0), "34m 00s");
    assert_eq!(dur(3600.0), "1h 00m");
    assert_eq!(dur(3900.0), "1h 05m");
    // Negative and NaN must not panic or underflow.
    assert_eq!(dur(-5.0), "0m 00s");
    assert_eq!(dur(f64::NAN), "0m 00s");
}

#[test]
fn trend_discharging_predicts_cutoff() {
    // 0.1 %/s discharge: 62% -> 50% over 120s; 50% to the 20% cutoff = 300s.
    let hist = [
        (0.0, 62.0),
        (30.0, 59.0),
        (60.0, 56.0),
        (90.0, 53.0),
        (120.0, 50.0),
    ];
    let app = app_with("OB DISCHRG", 50.0, &hist);
    let eta = eta(&app).expect("slope should produce a prediction");
    assert!(eta.contains("5m 00s"), "got: {eta}");
    assert!(eta.contains("cutoff"), "got: {eta}");
}

#[test]
fn trend_charging_predicts_full() {
    // 0.1 %/s charge: 50% to 100% = 500s = 8m 20s.
    let hist = [
        (0.0, 38.0),
        (30.0, 41.0),
        (60.0, 44.0),
        (90.0, 47.0),
        (120.0, 50.0),
    ];
    let app = app_with("OL CHRG", 50.0, &hist);
    let eta = eta(&app).expect("slope should produce a prediction");
    assert!(eta.contains("8m 20s"), "got: {eta}");
    assert!(eta.contains("full"), "got: {eta}");
}

#[test]
fn trend_needs_enough_history() {
    // Too few samples.
    let app = app_with("OB", 50.0, &[(0.0, 51.0), (30.0, 50.0)]);
    assert!(eta(&app).is_none());
    // Enough samples but too short a time span.
    let hist = [
        (0.0, 55.0),
        (5.0, 54.0),
        (10.0, 53.0),
        (15.0, 52.0),
        (20.0, 51.0),
    ];
    let app = app_with("OB", 51.0, &hist);
    assert!(eta(&app).is_none());
}

#[test]
fn trend_flat_is_none() {
    let hist = [
        (0.0, 50.0),
        (30.0, 50.0),
        (60.0, 50.0),
        (90.0, 50.0),
        (120.0, 50.0),
    ];
    let app = app_with("OL CHRG", 50.0, &hist);
    assert!(eta(&app).is_none());
}

#[test]
fn dangerous_commands() {
    assert!(is_dangerous("shutdown.default"));
    assert!(is_dangerous("shutdown.return"));
    assert!(is_dangerous("load.off"));
    assert!(is_dangerous("load.off.delay"));
    assert!(is_dangerous("driver.killpower"));
    assert!(!is_dangerous("load.on"));
    assert!(!is_dangerous("beeper.disable"));
    assert!(!is_dangerous("test.battery.start.deep"));
}

#[test]
fn scroll_clamps_and_jumps() {
    let mut app = App::new("ups".into(), "localhost".into(), 3493);
    for i in 0..10 {
        app.vars.insert(format!("var{i:02}"), "x".into());
    }
    app.scroll(1);
    assert_eq!(app.table_state.selected(), Some(1));
    app.scroll(i64::MAX); // vim G
    assert_eq!(app.table_state.selected(), Some(9));
    app.scroll(i64::MIN); // vim g
    assert_eq!(app.table_state.selected(), Some(0));
    app.scroll(-1); // already at top: stays clamped
    assert_eq!(app.table_state.selected(), Some(0));
}

#[test]
fn menu_action_indexing() {
    let mut app = App::new("ups".into(), "localhost".into(), 3493);
    app.cmds = vec![
        ("beeper.enable".into(), String::new()),
        ("beeper.disable".into(), String::new()),
    ];
    app.rw = vec!["input.transfer.low".into()];
    assert_eq!(app.menu_len(), 3);
    app.menu_state.select(Some(1));
    assert!(matches!(app.selected_action(), Some(MenuAction::Cmd(c)) if c == "beeper.disable"));
    app.menu_state.select(Some(2));
    assert!(
        matches!(app.selected_action(), Some(MenuAction::SetVar(n)) if n == "input.transfer.low")
    );
    app.menu_state.select(Some(3));
    assert!(app.selected_action().is_none());
    // menu_scroll must clamp within the combined command+rw range.
    app.menu_scroll(i64::MAX);
    assert_eq!(app.menu_state.selected(), Some(2));
}

#[test]
fn on_battery_token_match() {
    // "OB" must match as a whole token, not as a substring.
    let app = app_with("OB DISCHRG", 50.0, &[]);
    assert!(app.on_battery());
    let app = app_with("OL CHRG", 50.0, &[]);
    assert!(!app.on_battery());
}

fn trend(falling: bool, rising: bool, at_cutoff: bool, below_full: bool) -> Option<Trend> {
    Some(Trend {
        falling,
        rising,
        at_cutoff,
        below_full,
        secs_to_cutoff: 2050,
        cutoff: "20".into(),
        secs_to_full: 3900,
    })
}

#[test]
fn prediction_by_cases() {
    let on_battery = app_with("OB DISCHRG", 50.0, &[]);
    let on_line = app_with("OL CHRG", 50.0, &[]);
    assert_eq!(
        on_battery.trend_eta(&trend(true, false, false, true)).as_deref(),
        Some("~34m 10s to 20% cutoff")
    );
    assert_eq!(
        on_battery.trend_eta(&trend(true, false, true, true)).as_deref(),
        Some("below cutoff")
    );
    assert_eq!(
        on_line.trend_eta(&trend(false, true, false, true)).as_deref(),
        Some("~1h 05m to full")
    );
    // A falling charge is no news on line, a rising one none when it is full.
    assert_eq!(on_line.trend_eta(&trend(true, false, false, true)), None);
    assert_eq!(on_line.trend_eta(&trend(false, true, false, false)), None);
    assert_eq!(on_battery.trend_eta(&trend(false, false, false, true)), None);
    assert_eq!(on_battery.trend_eta(&None), None);
}

fn vars(pairs: &[(&str, &str)]) -> VarMap {
    let mut map = VarMap::new();
    for (name, value) in pairs {
        map.insert(name.to_string(), value.to_string());
    }
    map
}

fn blank() -> App {
    App::new("ups".into(), "localhost".into(), 3493)
}

#[test]
fn a_new_dashboard_is_blank() {
    let app = blank();
    assert_eq!((app.ups.as_str(), app.host.as_str(), app.port), ("ups", "localhost", 3493));
    assert_eq!(app.vars.len(), 0);
    assert!(app.charge.is_empty() && app.volt_in.is_empty() && app.volt_out.is_empty());
    assert!(!app.connected && !app.basic && app.last_error.is_none());
    assert!(app.log.is_empty() && app.buttons.is_empty());
    assert!(app.cmds.is_empty() && app.rw.is_empty());
    assert_eq!(app.table_state.selected(), None);
    assert_eq!(app.menu_state.selected(), None);
    assert_eq!(app.s("ups.model"), "–");
    assert_eq!(app.status(), "");
    assert!(!app.on_battery());
}

#[test]
fn poll_records_the_numbers() {
    let mut app = blank();
    app.apply_at(
        Update::Vars(vars(&[
            ("battery.charge", " 95 "),
            ("input.voltage", "230.4"),
            ("output.voltage", "not known"),
        ])),
        7 * SEC,
    );
    assert!(app.connected);
    assert_eq!(app.charge.len(), 1);
    assert_eq!(app.charge[0].at, 7 * SEC);
    assert_eq!(app.charge[0].value, "95");
    assert_eq!(app.volt_in[0].value, "230.4");
    assert!(app.volt_out.is_empty());
    assert_eq!(app.f("battery.charge"), Some("95"));
    assert_eq!(app.f("output.voltage"), None);
    assert_eq!(app.f("ups.load"), None);
    assert_eq!(app.s("battery.charge"), " 95 ");
}

#[test]
fn cursor_follows_a_shrinking_table() {
    let mut app = blank();
    app.apply_at(Update::Vars(vars(&[("a", "1"), ("b", "2"), ("c", "3")])), 0);
    app.scroll(i64::MAX);
    assert_eq!(app.table_state.selected(), Some(2));
    app.table_state.offset = 1;
    app.apply_at(Update::Vars(vars(&[("a", "1"), ("b", "2")])), 0);
    assert_eq!(app.table_state, Cursor { selected: Some(1), offset: 1 });
    app.apply_at(Update::Vars(vars(&[])), 0);
    assert_eq!(app.table_state, Cursor { selected: None, offset: 0 });
    app.scroll(1);
    assert_eq!(app.table_state.selected(), None);
}

#[test]
fn menu_starts_at_its_first_row() {
    let mut app = blank();
    app.menu_scroll(1);
    assert_eq!(app.menu_state.selected(), None);
    app.apply_at(Update::Cmds(vec![]), 0);
    assert_eq!(app.menu_state.selected(), None);
    app.apply_at(Update::Rw(vec!["x".into()]), 0);
    assert_eq!(app.menu_state.selected(), Some(0));
    app.apply_at(Update::Cmds(vec![("c".into(), "d".into())]), 0);
    app.menu_scroll(1);
    app.apply_at(Update::Cmds(vec![("c".into(), "d".into())]), 0);
    assert_eq!(app.menu_state.selected(), Some(1));
}

#[test]
fn repeated_error_is_logged_once() {
    let mut app = blank();
    app.apply_at(Update::Error("gone".into()), 3661 * SEC);
    app.apply_at(Update::Error("gone".into()), 3662 * SEC);
    assert_eq!(app.log, ["[+01:01:01] poll error: gone"]);
    assert!(!app.connected);
    assert_eq!(app.last_error.as_deref(), Some("gone"));
    app.apply_at(Update::Error("lost".into()), 3663 * SEC);
    assert_eq!(app.log.len(), 2);
    // A good poll forgets the error: the same one is news again.
    app.apply_at(Update::Vars(vars(&[("a", "1")])), 3664 * SEC);
    assert!(app.connected && app.last_error.is_none());
    app.apply_at(Update::Error("lost".into()), 3665 * SEC);
    assert_eq!(app.log[2], "[+01:01:05] poll error: lost");
}

#[test]
fn log_keeps_the_newest_lines() {
    let mut app = blank();
    for i in 0..105u32 {
        app.note_at(format!("line {i}"), 360_000 * SEC + 999_999_999);
    }
    assert_eq!(app.log.len(), 100);
    assert_eq!(app.log[0], "[+100:00:00] line 5");
    assert_eq!(app.log[99], "[+100:00:00] line 104");
}

#[test]
fn notes_and_news_are_stamped_by_the_clock() {
    let mut app = blank();
    assert!(app.now() <= app.now());
    app.note("hello".to_string());
    assert!(app.log[0].starts_with("[+00:00:"), "{}", app.log[0]);
    assert!(app.log[0].ends_with("] hello"), "{}", app.log[0]);
    let before = app.now();
    app.apply(Update::Vars(vars(&[("battery.charge", "1")])));
    assert!(before <= app.charge[0].at && app.charge[0].at <= app.now());
    app.apply(Update::CmdResult {
        cmd: "beeper.enable".into(),
        result: "OK".into(),
    });
    assert!(app.log[1].ends_with("] beeper.enable → OK"), "{}", app.log[1]);
}

#[test]
fn scrolling_from_behind_the_list() {
    for row in [3usize, 1000, i64::MAX as usize, usize::MAX] {
        for (delta, to) in [(i64::MIN, 0), (i64::MAX, 2), (0, 2)] {
            let mut c = Cursor::new();
            c.select(Some(row));
            c.scroll(3, delta);
            assert_eq!(c.selected(), Some(to), "{row} {delta}");
        }
    }
    let mut c = Cursor::new();
    c.select(Some(5));
    c.scroll(3, -4);
    assert_eq!(c.selected(), Some(1));
}
