use nuttty::app::{App, Mode, WorkerCmd};
use nuttty::geometry::Rect;
use nuttty::input::{
    button_at, button_command, buttons, on_click, on_click_at, on_key, on_key_at, set_label_text,
    Key, Reaction,
};

const SEC: u128 = 1_000_000_000;

fn menu_app() -> App {
    let mut app = App::new("ups".into(), "localhost".into(), 3493);
    app.cmds = vec![
        ("beeper.enable".into(), "Enable".into()),
        ("load.off".into(), "Off".into()),
        ("beeper".into(), "Toggle".into()),
    ];
    app.rw = vec!["input.transfer.low".into()];
    app.menu_state.select(Some(0));
    app.mode = Mode::Menu;
    app
}

fn press(app: &mut App, key: Key) -> Reaction {
    on_key_at(app, key, false, 5 * SEC)
}

fn command(r: Reaction) -> String {
    match r {
        Reaction::Send(WorkerCmd::Inst(cmd)) => cmd,
        _ => panic!("no command"),
    }
}

fn stays(r: Reaction) -> bool {
    matches!(r, Reaction::Stay)
}

#[test]
fn control_c_quits_everywhere() {
    for mode in [
        Mode::Normal,
        Mode::Help,
        Mode::Menu,
        Mode::Confirm("load.off".into()),
        Mode::SetVar {
            name: "n".into(),
            buffer: "1".into(),
        },
    ] {
        let mut app = menu_app();
        app.mode = mode;
        assert!(matches!(
            on_key_at(&mut app, Key::Char('c'), true, 0),
            Reaction::Quit
        ));
        assert!(!matches!(press(&mut app, Key::Char('c')), Reaction::Quit));
    }
}

#[test]
fn keys_without_overlay() {
    let mut app = menu_app();
    for i in 0..30 {
        app.vars.insert(format!("v{i:02}"), "x".into());
    }
    app.mode = Mode::Normal;
    assert!(matches!(press(&mut app, Key::Char('q')), Reaction::Quit));
    assert!(matches!(press(&mut app, Key::Esc), Reaction::Quit));
    let scrolls = [
        (Key::Down, 1),
        (Key::Char('j'), 2),
        (Key::Up, 1),
        (Key::PageDown, 11),
        (Key::Char('k'), 10),
        (Key::PageUp, 0),
        (Key::Char('G'), 29),
        (Key::Char('g'), 0),
    ];
    for (key, row) in scrolls {
        assert!(stays(press(&mut app, key)));
        assert_eq!(app.table_state.selected(), Some(row));
    }
    assert_eq!(app.menu_state.selected(), Some(0));
    assert!(stays(press(&mut app, Key::Char('x'))) && stays(press(&mut app, Key::Other)));
    assert!(stays(press(&mut app, Key::Char('?'))) && matches!(app.mode, Mode::Help));
    app.mode = Mode::Normal;
    assert!(stays(press(&mut app, Key::Char('m'))) && matches!(app.mode, Mode::Menu));
    assert!(app.log.is_empty());
}

#[test]
fn button_keys_send_their_commands() {
    let mut app = App::new("ups".into(), "localhost".into(), 3493);
    assert_eq!(command(press(&mut app, Key::Char('t'))), "test.battery.start.quick");
    assert_eq!(command(press(&mut app, Key::Char('d'))), "test.battery.start.deep");
    assert_eq!(command(press(&mut app, Key::Char('s'))), "test.battery.stop");
    assert_eq!(command(press(&mut app, Key::Char('b'))), "beeper.enable");
    app.vars.insert("ups.beeper.status".into(), "enabled".into());
    assert_eq!(command(press(&mut app, Key::Char('b'))), "beeper.disable");
    app.vars.insert("ups.beeper.status".into(), "muted".into());
    assert_eq!(command(press(&mut app, Key::Char('b'))), "beeper.enable");
    assert_eq!(app.log[0], "[+00:00:05] → test.battery.start.quick");
    assert_eq!(app.log[4], "[+00:00:05] → beeper.disable");
    assert!(matches!(app.mode, Mode::Normal));
    let labels: Vec<String> = buttons().into_iter().map(|b| b.label).collect();
    assert_eq!(labels, ["Quick test", "Deep test", "Stop test", "Beeper"]);
    assert_eq!(button_command('b').as_deref(), Some("beeper"));
    assert_eq!(button_command('B'), None);
}

#[test]
fn help_closes() {
    for key in [Key::Char('q'), Key::Char('?'), Key::Char('h'), Key::Esc, Key::Enter] {
        let mut app = menu_app();
        app.mode = Mode::Help;
        assert!(stays(press(&mut app, Key::Char('j'))) && matches!(app.mode, Mode::Help));
        assert!(stays(press(&mut app, key)) && matches!(app.mode, Mode::Normal));
    }
}

#[test]
fn menu_runs_what_is_harmless() {
    let mut app = menu_app();
    assert_eq!(command(press(&mut app, Key::Enter)), "beeper.enable");
    assert!(matches!(app.mode, Mode::Normal));
    let mut app = menu_app();
    app.menu_state.select(Some(2));
    assert_eq!(command(press(&mut app, Key::Char('l'))), "beeper.enable");
    for key in [Key::Char('q'), Key::Char('m'), Key::Char('h'), Key::Esc] {
        let mut app = menu_app();
        assert!(stays(press(&mut app, key)) && matches!(app.mode, Mode::Normal));
    }
    let mut app = menu_app();
    assert!(stays(press(&mut app, Key::Char('?'))) && matches!(app.mode, Mode::Help));
    let mut app = menu_app();
    for (key, row) in [(Key::Down, 1), (Key::Char('G'), 3), (Key::Char('g'), 0), (Key::Other, 0)] {
        assert!(stays(press(&mut app, key)));
        assert_eq!(app.menu_state.selected(), Some(row));
    }
    // Nothing is selected in an empty menu.
    let mut app = App::new("ups".into(), "localhost".into(), 3493);
    app.mode = Mode::Menu;
    assert!(stays(press(&mut app, Key::Enter)) && matches!(app.mode, Mode::Menu));
}

#[test]
fn dangerous_command_waits_for_a_yes() {
    let mut app = menu_app();
    app.menu_state.select(Some(1));
    assert!(stays(press(&mut app, Key::Enter)));
    assert!(matches!(&app.mode, Mode::Confirm(c) if c == "load.off"));
    // Anything but a yes goes back to the menu, with the place there kept.
    for key in [Key::Char('n'), Key::Enter, Key::Esc, Key::Char('q'), Key::Other] {
        assert!(stays(press(&mut app, key)));
        assert!(matches!(app.mode, Mode::Menu));
        assert_eq!(app.menu_state.selected(), Some(1));
        assert!(app.log.is_empty());
        app.mode = Mode::Confirm("load.off".into());
    }
    for yes in ['y', 'Y'] {
        app.mode = Mode::Confirm("load.off".into());
        assert_eq!(command(press(&mut app, Key::Char(yes))), "load.off");
        assert!(matches!(app.mode, Mode::Normal));
    }
    assert_eq!(app.log[0], "[+00:00:05] → load.off");
}

#[test]
fn variables_are_set_to_digits() {
    let mut app = menu_app();
    app.menu_state.select(Some(3));
    assert!(stays(press(&mut app, Key::Enter)));
    for c in ['1', 'x', '-', '6', '.', '0', 'q'] {
        assert!(stays(press(&mut app, Key::Char(c))));
    }
    assert!(matches!(
        &app.mode,
        Mode::SetVar { name, buffer } if name == "input.transfer.low" && buffer == "160"
    ));
    match press(&mut app, Key::Enter) {
        Reaction::Send(WorkerCmd::SetVar { name, value }) => {
            assert_eq!((name.as_str(), value.as_str()), ("input.transfer.low", "160"));
        }
        _ => panic!("nothing set"),
    }
    assert!(matches!(app.mode, Mode::Normal));
    assert_eq!(app.log[0], "[+00:00:05] → set input.transfer.low");
    assert_eq!(set_label_text("x"), "set x");
    app.mode = Mode::SetVar {
        name: "n".into(),
        buffer: "1".into(),
    };
    assert!(stays(press(&mut app, Key::Esc)) && matches!(app.mode, Mode::Menu));
}

fn boxed_app() -> App {
    let mut app = App::new("ups".into(), "localhost".into(), 3493);
    let area = |x: u16| Rect {
        x,
        y: 5,
        width: 10,
        height: 3,
    };
    app.buttons = vec![
        (area(0), "test.battery.stop".into()),
        (area(8), "beeper".into()),
    ];
    app
}

#[test]
fn clicks_hit_the_first_box() {
    let app = boxed_app();
    let cases = [
        (0, 5, Some("test.battery.stop")),
        (9, 7, Some("test.battery.stop")),
        (10, 5, Some("beeper")),
        (17, 7, Some("beeper")),
        (18, 7, None),
        (3, 4, None),
        (3, 8, None),
    ];
    for (column, row, cmd) in cases {
        assert_eq!(button_at(&app, column, row).as_deref(), cmd, "{column} {row}");
    }
}

#[test]
fn boxes_end_at_the_largest_coordinate() {
    let mut app = boxed_app();
    app.buttons[0].0 = Rect {
        x: u16::MAX - 1,
        y: 0,
        width: 10,
        height: 1,
    };
    assert!(button_at(&app, u16::MAX - 1, 0).is_some());
    assert!(button_at(&app, u16::MAX, 0).is_none());
}

#[test]
fn clicks_count_without_overlay_only() {
    let mut app = boxed_app();
    assert_eq!(command(on_click_at(&mut app, 0, 5, SEC)), "test.battery.stop");
    assert_eq!(app.log[0], "[+00:00:01] → test.battery.stop");
    assert!(stays(on_click_at(&mut app, 50, 5, SEC)));
    app.mode = Mode::Help;
    assert!(stays(on_click_at(&mut app, 0, 5, SEC)));
    assert_eq!(app.log.len(), 1);
}

#[test]
fn keys_and_clicks_are_stamped_by_the_clock() {
    let mut app = boxed_app();
    assert_eq!(command(on_click(&mut app, 0, 5)), "test.battery.stop");
    assert_eq!(command(on_key(&mut app, Key::Char('b'), false)), "beeper.enable");
    assert!(app.log[0].starts_with("[+00:00:") && app.log[0].ends_with("] → test.battery.stop"));
    assert!(app.log[1].starts_with("[+00:00:") && app.log[1].ends_with("] → beeper.enable"));
}
