use nuttty::app::{App, Mode, WorkerCmd};
use nuttty::geometry::{popup_area, Part, Rect};
use nuttty::input::{on_click_at, Reaction};
use nuttty::items::{Align, Axis, Item, Panel};
use nuttty::panels::{
    button_boxes, draw_battery_chart, draw_footer, draw_vars, draw_voltage_chart, status_token,
    Readings,
};
use nuttty::popups::draw_popup;
use nuttty::style::{Color, Line, Style};
use nuttty::trend::Trend;
use nuttty::history::Sample;
use nuttty::plan::{
    basic_rows, button_columns, chart_columns, footer_columns, full_rows, main_columns, status_rows,
};
use nuttty::ui::{arrange_basic, arrange_full, arrange_status, draw, draw_at, lay_out, Places};

fn rect(x: u16, y: u16, width: u16, height: u16) -> Rect {
    Rect {
        x,
        y,
        width,
        height,
    }
}

fn nothing_known() -> Readings {
    Readings {
        charge: None,
        cutoff: None,
        charge_over_half: false,
        charge_over_cutoff: false,
        load: None,
        load_under_60: true,
        load_under_85: true,
        watts: None,
        volts_in: None,
        volts_out: None,
        transfer_low: None,
        transfer_high: None,
        runtime: None,
        low_runtime: None,
        trend: None,
    }
}

fn on_black(color: Color) -> Style {
    Style {
        fg: Some(color),
        bg: Some(Color::Black),
        bold: false,
        dim: false,
        italic: false,
        reversed: false,
    }
}

fn is_axis(a: &Axis, low: i64, high: i64, labels: &[&str]) -> bool {
    a.style == Style::gray() && a.low == low && a.high == high && a.labels == labels
}

fn is_time_axis(a: &Axis) -> bool {
    is_axis(a, -900, 0, &["-15m", "-10m", "-5m", "now"])
}

fn blank() -> App {
    App::new("ups".into(), "localhost".into(), 3493)
}

fn text(l: &Line) -> String {
    l.spans.iter().map(|s| s.text.as_str()).collect()
}

fn texts(p: &Panel) -> Vec<String> {
    p.lines.iter().map(text).collect()
}

fn panel(item: &Item) -> &Panel {
    match item {
        Item::Panel(p) => p,
        _ => panic!("no panel"),
    }
}

fn title(item: &Item) -> String {
    match item {
        Item::Panel(p) => p.border.as_ref().unwrap().title.clone().unwrap(),
        Item::Menu { title, .. } | Item::Table { title, .. } => title.clone(),
        Item::BatteryChart { title, .. } | Item::VoltageChart { title, .. } => title.clone(),
        Item::Clear(_) | Item::Gauge { .. } => panic!("no title"),
    }
}

fn area(item: &Item) -> Rect {
    match item {
        Item::Clear(area) => *area,
        Item::Panel(p) => p.area,
        Item::Gauge { area, .. } | Item::Menu { area, .. } | Item::Table { area, .. } => *area,
        Item::BatteryChart { area, .. } | Item::VoltageChart { area, .. } => *area,
    }
}

// ------------------------------------------------------------------- places

#[test]
fn parts_of_the_screen() {
    assert_eq!(basic_rows(), [Part::Min(0), Part::Length(1)]);
    assert_eq!(full_rows(), [Part::Percentage(45), Part::Min(15), Part::Length(1)]);
    assert_eq!(chart_columns(), [Part::Percentage(50), Part::Percentage(50)]);
    assert_eq!(main_columns(), [Part::Percentage(46), Part::Percentage(54)]);
    assert_eq!(
        status_rows(),
        [Part::Length(8), Part::Length(1), Part::Length(1), Part::Length(3), Part::Min(2)]
    );
    assert_eq!(button_columns(), [Part::Ratio(1, 4); 4]);
    assert_eq!(footer_columns(), [Part::Min(0), Part::Length(20)]);
}

#[test]
fn full_layout() {
    let p = lay_out(rect(0, 0, 100, 40), false);
    let full = p.full.unwrap();
    assert_eq!(full.battery, rect(0, 0, 50, 18));
    assert_eq!(full.voltage, rect(50, 0, 50, 18));
    assert_eq!(p.status.frame, rect(0, 18, 46, 21));
    assert_eq!(full.vars, rect(46, 18, 54, 21));
    assert_eq!(p.status.info, rect(1, 19, 44, 8));
    assert_eq!(p.status.charge, rect(1, 27, 44, 1));
    assert_eq!(p.status.load, rect(1, 28, 44, 1));
    assert_eq!(p.status.buttons[0], rect(1, 29, 11, 3));
    assert_eq!(p.status.buttons[3], rect(34, 29, 11, 3));
    assert_eq!(p.status.log, rect(1, 32, 44, 6));
    assert_eq!(p.footer, rect(0, 39, 80, 1));
    assert_eq!(p.hint, rect(80, 39, 20, 1));
}

#[test]
fn basic_layout() {
    let p = lay_out(rect(2, 3, 82, 24), true);
    assert!(p.full.is_none());
    assert_eq!(p.status.frame, rect(2, 3, 82, 23));
    assert_eq!(p.status.info, rect(3, 4, 80, 8));
    assert_eq!(p.status.log, rect(3, 17, 80, 8));
    assert_eq!(p.footer, rect(2, 26, 62, 1));
    assert_eq!(p.hint, rect(64, 26, 20, 1));
}

#[test]
fn areas_go_to_their_panels() {
    let r = |n: u16| rect(n, n, n, n);
    let status = arrange_status(
        r(9),
        &vec![r(0), r(1), r(2), r(3), r(4)],
        &vec![r(5), r(6), r(7), r(8)],
    );
    assert_eq!(
        (status.frame, status.info, status.charge, status.load, status.bar, status.log),
        (r(9), r(0), r(1), r(2), r(3), r(4))
    );
    assert_eq!(status.buttons, [r(5), r(6), r(7), r(8)]);
    let p = arrange_basic(r(20), &vec![r(9), r(10)], &vec![r(11), r(12)], status);
    assert!(p.full.is_none() && p.status.frame == r(9));
    assert_eq!((p.whole, p.bottom, p.footer, p.hint), (r(20), r(10), r(11), r(12)));
    let p = arrange_full(
        r(20),
        &vec![r(21), r(22), r(23)],
        &vec![r(24), r(25)],
        &vec![r(26), r(27)],
        &vec![r(28), r(29)],
        p.status,
    );
    let f = p.full.unwrap();
    assert_eq!((f.charts, f.battery, f.voltage), (r(21), r(24), r(25)));
    assert_eq!((f.main, f.vars), (r(22), r(27)));
    assert_eq!((p.bottom, p.footer, p.hint), (r(23), r(28), r(29)));
}

/// Start, size and end of an area from top to bottom, then from left to right.
fn spans(r: Rect) -> [(u32, u32); 2] {
    let end = |a: u16, n: u16| (a as u32 + n as u32).min(u16::MAX as u32);
    [
        (r.y as u32, end(r.y, r.height)),
        (r.x as u32, end(r.x, r.width)),
    ]
}

/// Holds that the areas fill the whole one after the other along an axis, and that
/// they start at the given offsets, where these are known.
fn holds_in_turn(whole: Rect, axis: usize, areas: &[Rect], offsets: Option<Vec<u32>>) {
    let (start, end) = spans(whole)[axis];
    let mut at = start;
    for (i, r) in areas.iter().enumerate() {
        assert_eq!(spans(*r)[axis].0, at, "{areas:?} in {whole:?}");
        if let Some(offsets) = &offsets {
            assert_eq!(at, start + offsets[i], "{areas:?} in {whole:?}");
        }
        assert_eq!(spans(*r)[1 - axis].0, spans(whole)[1 - axis].0);
        assert!(r.width == whole.width || axis == 1);
        assert!(r.height == whole.height || axis == 0);
        at = spans(*r)[axis].1;
    }
    assert_eq!(at, end, "{areas:?} in {whole:?}");
}

fn cells(r: Rect, axis: usize) -> u32 {
    spans(r)[axis].1 - spans(r)[axis].0
}

fn nearest(hundredths: u32) -> u32 {
    (hundredths + 50) / 100
}

fn given(known: bool, offsets: Vec<u32>) -> Option<Vec<u32>> {
    if known {
        Some(offsets)
    } else {
        None
    }
}

fn holds_of_layout(p: &Places, whole: Rect) {
    let (h, s) = (cells(whole, 0), &p.status);
    match &p.full {
        Some(f) => {
            let rows = given(h >= 30, vec![0, nearest(45 * h), h.saturating_sub(1)]);
            holds_in_turn(whole, 0, &[f.charts, f.main, p.bottom], rows);
            let half = nearest(50 * cells(f.charts, 1));
            holds_in_turn(f.charts, 1, &[f.battery, f.voltage], Some(vec![0, half]));
            let left = nearest(46 * cells(f.main, 1));
            holds_in_turn(f.main, 1, &[s.frame, f.vars], Some(vec![0, left]));
        }
        None => {
            let rows = given(h >= 1, vec![0, h.saturating_sub(1)]);
            holds_in_turn(whole, 0, &[s.frame, p.bottom], rows);
        }
    }
    let w = cells(p.bottom, 1);
    let columns = given(w >= 20, vec![0, w.saturating_sub(20)]);
    holds_in_turn(p.bottom, 1, &[p.footer, p.hint], columns);
    let inner = rect(
        s.frame.x.saturating_add(1).min(spans(s.frame)[1].1 as u16),
        s.frame.y.saturating_add(1).min(spans(s.frame)[0].1 as u16),
        s.frame.width.saturating_sub(2),
        s.frame.height.saturating_sub(2),
    );
    let rows = given(cells(inner, 0) >= 15, vec![0, 8, 9, 10, 13]);
    holds_in_turn(inner, 0, &[s.info, s.charge, s.load, s.bar, s.log], rows);
    let w = cells(s.bar, 1);
    let quarters = vec![0, nearest(25 * w), nearest(50 * w), nearest(75 * w)];
    holds_in_turn(s.bar, 1, &s.buttons, Some(quarters));
}

#[test]
fn layouts_of_all_heights() {
    for basic in [false, true] {
        for height in 0..=160 {
            for (x, y, width) in [(0, 0, 80), (7, 13, 31)] {
                let whole = rect(x, y, width, height);
                holds_of_layout(&lay_out(whole, basic), whole);
            }
        }
    }
}

#[test]
fn layouts_of_all_widths() {
    for basic in [false, true] {
        for width in 0..=320 {
            for (x, y, height) in [(0, 0, 24), (7, 13, 60)] {
                let whole = rect(x, y, width, height);
                holds_of_layout(&lay_out(whole, basic), whole);
            }
        }
    }
}

#[test]
fn layouts_at_the_largest_coordinates() {
    for basic in [false, true] {
        for back in [0u16, 1, 2, 19, 20, 40, 200] {
            for size in [0u16, 1, 15, 41, 199, 300, u16::MAX] {
                let whole = rect(u16::MAX - back, u16::MAX - back, size, size);
                holds_of_layout(&lay_out(whole, basic), whole);
            }
        }
        for size in [1000u16, 32767, 32768, 54321, u16::MAX] {
            let whole = rect(0, 0, size, size);
            holds_of_layout(&lay_out(whole, basic), whole);
        }
    }
}

fn lies_in(outer: Rect, r: Rect) -> bool {
    outer.x <= r.x
        && outer.y <= r.y
        && r.x as u32 + r.width as u32 <= outer.x as u32 + outer.width as u32
        && r.y as u32 + r.height as u32 <= outer.y as u32 + outer.height as u32
}

#[test]
fn nothing_is_drawn_outside_the_screen() {
    for (width, height) in [(0, 0), (1, 1), (2, 3), (7, 5), (30, 10), (80, 24), (211, 67)] {
        for (x, y) in [(0, 0), (3, 9), (u16::MAX - 2, u16::MAX - 1)] {
            for basic in [false, true] {
                for mode in [Mode::Normal, Mode::Help, Mode::Menu, Mode::Confirm("c".into())] {
                    let whole = rect(x, y, width, height);
                    let mut app = blank();
                    app.basic = basic;
                    app.mode = mode;
                    for item in draw(&mut app, &nothing_known(), whole) {
                        assert!(lies_in(whole, area(&item)), "{:?} in {whole:?}", area(&item));
                    }
                }
            }
        }
    }
}

#[test]
fn popups_are_centered() {
    let screen = rect(0, 0, 100, 40);
    assert_eq!(popup_area(screen, 62, 12), rect(19, 14, 62, 12));
    assert_eq!(popup_area(screen, 61, 11), rect(19, 14, 61, 11));
    // A cell is left free on each side, as far as there is room.
    assert_eq!(popup_area(rect(5, 5, 10, 4), 62, 12), rect(6, 6, 8, 2));
    assert_eq!(popup_area(rect(0, 0, 1, 0), 62, 12), rect(0, 0, 0, 0));
}

// ------------------------------------------------------------------ buttons

#[test]
fn buttons_can_be_clicked_where_they_are_drawn() {
    let mut app = blank();
    let items = draw(&mut app, &nothing_known(), rect(0, 0, 100, 40));
    assert_eq!(app.buttons.len(), 4);
    for (i, cmd) in [
        "test.battery.start.quick",
        "test.battery.start.deep",
        "test.battery.stop",
        "beeper.enable",
    ]
    .iter()
    .enumerate()
    {
        let drawn = panel(&items[2 + 4 + i]);
        assert_eq!(drawn.area, app.buttons[i].0);
        match on_click_at(&mut app, drawn.area.x + 1, drawn.area.y + 1, 0) {
            Reaction::Send(WorkerCmd::Inst(sent)) => assert_eq!(sent, *cmd),
            _ => panic!("nothing sent"),
        }
    }
    assert_eq!(texts(panel(&items[6])), ["Quick test (t)"]);
    assert_eq!(texts(panel(&items[9])), ["Beeper (b)"]);
    assert_eq!(panel(&items[6]).style, Style::fg(Color::Cyan));
    assert!(panel(&items[6]).align == Align::Center);
    // They are replaced by every frame.
    draw(&mut app, &nothing_known(), rect(0, 0, 80, 30));
    assert_eq!(app.buttons.len(), 4);
    let boxes = button_boxes(&[rect(0, 0, 1, 1), rect(1, 0, 1, 1), rect(2, 0, 1, 1), rect(3, 0, 1, 1)]);
    assert_eq!(boxes[3], (rect(3, 0, 1, 1), "beeper".to_string()));
}

// ------------------------------------------------------------------- panels

#[test]
fn frame_before_the_first_poll() {
    let mut app = blank();
    let items = draw(&mut app, &nothing_known(), rect(0, 0, 100, 40));
    assert_eq!(items.len(), 2 + 9 + 1 + 2);
    assert_eq!(title(&items[2]), " – – · SN – ");
    assert_eq!(
        texts(panel(&items[3])),
        [
            "Status   no data yet",
            "Runtime  –",
            "Trend    steady",
            "Battery  – V (nom – V) · –",
            "Power    in – V · – Hz   out – V · – Hz",
            "Misc     temp – °C · beeper –",
            "Test     –",
            "",
        ]
    );
    assert!(matches!(
        &items[4],
        Item::Gauge { value, label, style, .. }
            if value == "0" && label == "battery 0%" && *style == on_black(Color::Red)
    ));
    assert!(matches!(
        &items[5],
        Item::Gauge { value, label, style, .. }
            if value == "0" && label == "load 0%" && *style == on_black(Color::Cyan)
    ));
    assert!(panel(&items[10]).lines.is_empty());
    assert_eq!(title(&items[11]), " All UPS data · 0 vars ");
    app.basic = true;
    let items = draw(&mut app, &nothing_known(), rect(0, 0, 100, 40));
    assert_eq!(items.len(), 9 + 2);
    assert_eq!(title(&items[0]), " – – · SN – ");
}

#[test]
fn frame_with_readings() {
    let mut app = blank();
    for (name, value) in [
        ("ups.status", "OB DISCHRG XYZ"),
        ("device.mfr", " Acme "),
        ("device.model", "One"),
        ("device.serial", "42"),
        ("battery.voltage", "13.1"),
        ("battery.voltage.nominal", "12"),
        ("battery.type", "PbAc"),
        ("input.voltage", "0.0"),
        ("input.frequency", "0"),
        ("output.voltage", "229.5"),
        ("output.frequency", "50"),
        ("ups.temperature", "25"),
        ("ups.beeper.status", "enabled"),
        ("ups.test.result", "Done"),
        ("battery.charge", " 45.2"),
        ("ups.load", "70"),
    ] {
        app.vars.insert(name.into(), value.into());
    }
    for i in 0..20 {
        app.note_at(format!("n{i}"), 0);
    }
    let mut r = nothing_known();
    r.charge = Some("45".into());
    r.charge_over_cutoff = true;
    r.load = Some("70".into());
    r.load_under_60 = false;
    r.watts = Some("350".into());
    r.runtime = Some(2040);
    r.low_runtime = Some(300);
    r.trend = Some(Trend {
        falling: true,
        rising: false,
        at_cutoff: false,
        below_full: true,
        secs_to_cutoff: 300,
        cutoff: "20".into(),
        secs_to_full: 0,
    });
    let items = draw(&mut app, &r, rect(0, 0, 100, 40));
    assert_eq!(title(&items[2]), " Acme One · SN 42 ");
    assert_eq!(
        texts(panel(&items[3])),
        [
            "Status   ON BATTERY · DISCHARGING · XYZ",
            "Runtime  34m 00s (shutdown below 5m 00s)",
            "Trend    ~5m 00s to 20% cutoff",
            "Battery  13.1 V (nom 12 V) · PbAc",
            "Power    in 0.0 V · 0 Hz   out 229.5 V · 50 Hz",
            "Misc     temp 25 °C · beeper enabled",
            "Test     Done",
            "",
        ]
    );
    let status = &panel(&items[3]).lines[0];
    assert_eq!(status.spans[0].style, Style::gray());
    assert_eq!(status.spans[1].style, Style::fg(Color::Yellow).bold());
    assert_eq!(status.spans[5].style, Style::fg(Color::White).bold());
    assert!(matches!(
        &items[4],
        Item::Gauge { value, label, style, .. }
            if value == "45.2" && label == "battery 45%" && *style == on_black(Color::Yellow)
    ));
    assert!(matches!(
        &items[5],
        Item::Gauge { value, label, style, .. }
            if value == "70" && label == "load 70% · ~350 W" && *style == on_black(Color::Yellow)
    ));
    // The log shows its newest lines: six fit.
    let log = texts(panel(&items[10]));
    assert_eq!(log.len(), 6);
    assert_eq!((log[0].as_str(), log[5].as_str()), ("[+00:00:00] n14", "[+00:00:00] n19"));
    assert_eq!(panel(&items[10]).lines[0].style, Style::gray());
    r.charge_over_half = true;
    r.load_under_85 = false;
    let items = draw(&mut app, &r, rect(0, 0, 100, 40));
    assert!(matches!(&items[4], Item::Gauge { style, .. } if *style == on_black(Color::Green)));
    assert!(matches!(&items[5], Item::Gauge { style, .. } if *style == on_black(Color::Red)));
}

#[test]
fn chart_legends() {
    let app = blank();
    let mut r = nothing_known();
    let a = rect(0, 0, 5, 5);
    match draw_battery_chart(&app, &r, 0, a) {
        Item::BatteryChart {
            title,
            cutoff,
            cutoff_level,
            cutoff_style,
            charge,
            x,
            y,
            ..
        } => {
            assert_eq!((title.as_str(), cutoff.as_str()), (" Battery charge ", "cutoff 20%"));
            assert_eq!(cutoff_level, "20");
            assert_eq!(cutoff_style, Style::gray());
            assert_eq!((charge.name.as_str(), charge.style), ("charge", Style::fg(Color::Green)));
            assert!(is_time_axis(&x) && is_axis(&y, 0, 100, &["0%", "50%", "100%"]));
        }
        _ => panic!("no chart of the charge"),
    }
    match draw_voltage_chart(&app, &r, 0, a) {
        Item::VoltageChart {
            title,
            input,
            output,
            x,
            y_style,
            ..
        } => {
            assert_eq!(title, " Voltage ");
            assert_eq!((input.name.as_str(), input.style), ("in", Style::fg(Color::Yellow)));
            assert_eq!((output.name.as_str(), output.style), ("out", Style::fg(Color::Cyan)));
            assert!(is_time_axis(&x) && y_style == Style::gray());
        }
        _ => panic!("no chart of the voltages"),
    }
    let mut app = app;
    app.vars.insert("battery.charge.low".into(), " 10.4 ".into());
    r.charge = Some("95".into());
    r.cutoff = Some("10".into());
    r.volts_in = Some("230.4".into());
    r.volts_out = Some("229.0".into());
    r.transfer_low = Some("170".into());
    assert_eq!(title(&draw_voltage_chart(&app, &r, 0, a)), " Voltage ");
    r.transfer_high = Some("270".into());
    assert!(matches!(
        draw_battery_chart(&app, &r, 0, a),
        Item::BatteryChart { cutoff, cutoff_level, charge, .. }
            if cutoff == "cutoff 10%" && cutoff_level == "10.4" && charge.name == "charge 95%"
    ));
    assert!(matches!(
        draw_voltage_chart(&app, &r, 0, a),
        Item::VoltageChart { title, input, output, .. }
            if title == " Voltage · transfer window 170–270 V "
                && input.name == "in 230.4V" && output.name == "out 229.0V"
    ));
}

fn sample(secs: u128) -> Sample {
    Sample {
        at: secs * 1_000_000_000,
        value: secs.to_string(),
    }
}

fn values(samples: &[Sample]) -> Vec<&str> {
    samples.iter().map(|s| s.value.as_str()).collect()
}

#[test]
fn charts_plot_their_own_series() {
    let mut app = blank();
    for secs in [0, 99, 100, 1000] {
        app.charge.push_back(sample(secs));
        app.volt_in.push_back(sample(secs + 1));
        app.volt_out.push_back(sample(secs + 2));
    }
    let now = 1000 * 1_000_000_000;
    let items = draw_at(&mut app, &nothing_known(), SCREEN, now);
    match &items[0] {
        Item::BatteryChart { charge, now: end, .. } => {
            assert_eq!(values(&charge.samples), ["100", "1000"]);
            assert_eq!(*end, now);
        }
        _ => panic!("no chart of the charge"),
    }
    match &items[1] {
        Item::VoltageChart { input, output, now: end, .. } => {
            assert_eq!(values(&input.samples), ["100", "101", "1001"]);
            assert_eq!(values(&output.samples), ["101", "102", "1002"]);
            assert_eq!(*end, now);
        }
        _ => panic!("no chart of the voltages"),
    }
    // The clock of a new dashboard has hardly moved: nothing is too old.
    match &draw(&mut app, &nothing_known(), SCREEN)[0] {
        Item::BatteryChart { charge, .. } => assert_eq!(charge.samples.len(), 4),
        _ => panic!("no chart of the charge"),
    }
}

#[test]
fn every_cell_of_a_button_sends_its_command() {
    let cmds = [
        "test.battery.start.quick",
        "test.battery.start.deep",
        "test.battery.stop",
        "beeper.enable",
    ];
    for width in [20u16, 61, 100] {
        let mut app = blank();
        draw(&mut app, &nothing_known(), rect(0, 0, width, 40));
        for i in 0..4 {
            let b = app.buttons[i].0;
            for column in b.x..b.x + b.width {
                for row in b.y..b.y + b.height {
                    match on_click_at(&mut app, column, row, 0) {
                        Reaction::Send(WorkerCmd::Inst(sent)) => assert_eq!(sent, cmds[i]),
                        _ => panic!("nothing sent"),
                    }
                }
            }
        }
    }
}

#[test]
fn status_words() {
    let known = [
        ("OL", "ONLINE", Color::Green),
        ("OB", "ON BATTERY", Color::Yellow),
        ("LB", "LOW BATTERY", Color::Red),
        ("HB", "HIGH BATTERY", Color::Yellow),
        ("CHRG", "CHARGING", Color::Cyan),
        ("DISCHRG", "DISCHARGING", Color::Yellow),
        ("RB", "REPLACE BATTERY", Color::Red),
        ("BYPASS", "BYPASS", Color::Red),
        ("OFF", "OUTPUT OFF", Color::Red),
        ("OVER", "OVERLOAD", Color::Red),
        ("TRIM", "TRIMMING", Color::Yellow),
        ("BOOST", "BOOSTING", Color::Yellow),
        ("CAL", "CALIBRATING", Color::Cyan),
        ("FSD", "FORCED SHUTDOWN", Color::Red),
        ("ol", "ol", Color::White),
        ("", "", Color::White),
    ];
    for (word, label, color) in known {
        assert_eq!(status_token(word), (label.to_string(), color));
    }
}

#[test]
fn table_lists_the_variables_in_order() {
    let mut app = blank();
    app.vars.insert("b".into(), "2".into());
    app.vars.insert("a".into(), "1".into());
    match draw_vars(&app, rect(0, 0, 9, 9)) {
        Item::Table { title, header, header_style, widths, rows, selected, .. } => {
            assert_eq!(title, " All UPS data · 2 vars ");
            assert_eq!(header, ("variable".to_string(), "value".to_string()));
            assert_eq!(header_style, Style::gray().bold());
            assert_eq!(widths, (2, 3));
            assert_eq!(selected, Style::reversed());
            assert_eq!(
                rows,
                [("a".to_string(), "1".to_string()), ("b".to_string(), "2".to_string())]
            );
        }
        _ => panic!("no table"),
    }
}

#[test]
fn footer_says_who_answers() {
    let mut app = blank();
    let (left, right) = (rect(0, 0, 60, 1), rect(60, 0, 20, 1));
    let keys = "q quit · m menu · t/d/s tests · b beeper · ↑↓ scroll";
    let items = draw_footer(&app, left, right);
    let line = &panel(&items[0]).lines[0];
    assert_eq!(text(line), format!(" ● ups@localhost:3493  {keys}"));
    assert_eq!(line.spans[1].style, Style::fg(Color::Red));
    assert_eq!(texts(panel(&items[1])), ["Press '?' for help "]);
    assert!(panel(&items[1]).align == Align::Right);
    app.connected = true;
    app.last_error = Some("late".into());
    let items = draw_footer(&app, left, right);
    let line = &panel(&items[0]).lines[0];
    assert_eq!(text(line), format!(" ● ups@localhost:3493  late  {keys}"));
    assert_eq!(line.spans[1].style, Style::fg(Color::Green));
    assert_eq!(line.spans[3].style, Style::fg(Color::Red));
}

// ------------------------------------------------------------------- popups

const SCREEN: Rect = Rect {
    x: 0,
    y: 0,
    width: 100,
    height: 40,
};

#[test]
fn overlay_is_drawn_last() {
    let mut app = blank();
    assert!(draw_popup(&app, SCREEN).is_empty());
    app.mode = Mode::Help;
    let items = draw(&mut app, &nothing_known(), SCREEN);
    assert!(matches!(items[items.len() - 2], Item::Clear(a) if a == rect(19, 14, 62, 12)));
    let help = &items[items.len() - 1];
    assert_eq!(area(help), rect(19, 14, 62, 12));
    assert_eq!(title(help), " Help — press ? or Esc to close ");
    let lines = texts(panel(help));
    assert_eq!(lines.len(), 10);
    assert_eq!(lines[0], "  q / Esc        quit (or close this popup)");
    assert_eq!(lines[5], "  ↑ ↓ / k j      scroll variables / menu");
    assert_eq!(lines[9], "  mouse          click the buttons");
}

#[test]
fn menu_popup_lists_commands_and_variables() {
    let mut app = blank();
    app.mode = Mode::Menu;
    let items = draw_popup(&app, SCREEN);
    assert_eq!(area(&items[1]), rect(22, 18, 56, 3));
    assert_eq!(title(&items[1]), " Commands ");
    assert_eq!(
        texts(panel(&items[1])),
        ["command list not loaded yet (server unreachable?)"]
    );
    app.cmds = vec![
        ("beeper.enable".into(), "Enable the beeper".into()),
        ("load.off".into(), "Turn off".into()),
    ];
    app.rw = vec!["ups.delay.start".into()];
    app.vars.insert("ups.delay.start".into(), "30".into());
    let items = draw_popup(&app, SCREEN);
    match &items[1] {
        Item::Menu { area, title, lines, selected } => {
            assert_eq!(*selected, Style::reversed());
            assert!(selected.reversed && !Style::plain().reversed);
            assert_eq!(*area, rect(11, 17, 78, 5));
            assert_eq!(
                title,
                " Commands & settings — Enter runs or edits · red needs y/N confirm · Esc closes "
            );
            assert_eq!(
                lines.iter().map(text).collect::<Vec<_>>(),
                [
                    " beeper.enable               Enable the beeper",
                    " load.off                    Turn off",
                    " set ups.delay.start         current 30 · Enter to edit",
                ]
            );
            assert_eq!(lines[0].spans[0].style, Style::fg(Color::Cyan));
            assert_eq!(lines[1].spans[0].style, Style::fg(Color::Red));
            assert_eq!(lines[2].spans[0].style, Style::fg(Color::Yellow));
        }
        _ => panic!("no menu"),
    }
}

#[test]
fn a_long_menu_takes_the_room_there_is() {
    let mut app = blank();
    app.mode = Mode::Menu;
    for rows in [35usize, 36, 38, 65_534, 65_536, 65_540] {
        app.rw = vec![String::new(); rows];
        let height = (rows + 2).min(38) as u16;
        let items = draw_popup(&app, SCREEN);
        assert_eq!(area(&items[1]), rect(11, (40 - height) / 2, 78, height));
    }
}

#[test]
fn question_and_editor() {
    let mut app = blank();
    app.mode = Mode::Confirm("load.off".into());
    let items = draw_popup(&app, SCREEN);
    assert_eq!(area(&items[1]), rect(20, 17, 60, 5));
    assert_eq!(title(&items[1]), " Confirm ");
    assert_eq!(
        texts(panel(&items[1])),
        [
            "Really run load.off?",
            "This can cut output power or shut the system down.",
            "y to confirm · any other key to cancel",
        ]
    );
    app.mode = Mode::SetVar {
        name: "ups.delay.start".into(),
        buffer: "16".into(),
    };
    let items = draw_popup(&app, SCREEN);
    assert_eq!(area(&items[1]), rect(27, 17, 46, 6));
    assert_eq!(title(&items[1]), " Set variable ");
    assert_eq!(
        texts(panel(&items[1])),
        [
            "ups.delay.start",
            "current: –",
            "new: 16_",
            "digits · Enter apply · Esc cancel",
        ]
    );
    let border = panel(&items[1]).border.as_ref().unwrap();
    assert_eq!(border.style, Style::fg(Color::Yellow));
}
