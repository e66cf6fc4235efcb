use nuttty::auth::{instcmd, set_var, AuthStage, AuthedLine};
use nuttty::client::{
    address_text, connect_error, Action, CmdListing, DialTask, Dialer, Event, Exchange, NutClient,
    Stage,
};
use nuttty::nut::{cmds_in, description_in, inst_line, list_line, parse_tagged_line, rw_in, ups_in, vars_in};
use nuttty::quote::{quote_value, unquote};

fn line(s: &str) -> Event {
    Event::Line(s.to_string())
}

fn strings(all: &[&str]) -> Vec<String> {
    all.iter().map(|s| s.to_string()).collect()
}

fn sent(ex: &Exchange) -> String {
    match ex.action() {
        Action::Send(text) => text,
        _ => panic!("nothing to send"),
    }
}

#[test]
fn list_over_a_new_connection() {
    let mut client = NutClient::new("host", 3493);
    let mut ex = client.list_vars("myups");
    assert!(matches!(ex.action(), Action::Open));
    client.handle(&mut ex, Event::Opened);
    assert!(client.connected);
    assert_eq!(sent(&ex), "LIST VAR myups\n");
    client.handle(&mut ex, Event::Sent);
    for l in [
        "BEGIN LIST VAR myups\n",
        "VAR myups ups.status \"OL CHRG\"\n",
        "VAR myups battery.charge \"95\"  \r\n",
        "RW myups x \"1\"\n",
        "VAR myups battery.charge \"96\"\n",
    ] {
        assert!(matches!(ex.action(), Action::Read));
        client.handle(&mut ex, line(l));
    }
    client.handle(&mut ex, line("END LIST VAR myups\n"));
    assert!(matches!(ex.action(), Action::Done));
    assert!(ex.stage == Stage::Finished && client.connected);
    assert_eq!(ex.lines[1], "VAR myups battery.charge \"95\"");
    let vars = vars_in(&ex.lines);
    assert_eq!(vars.len(), 2);
    assert_eq!(vars.get("battery.charge"), Some("96"));
    assert_eq!(vars.get("ups.status"), Some("OL CHRG"));
    // The next exchange uses the connection that is there.
    assert_eq!(sent(&client.list_ups()), "LIST UPS\n");
    assert_eq!(sent(&client.list_rw("u")), "LIST RW u\n");
    assert_eq!(sent(&client.list_cmds("u")), "LIST CMD u\n");
    assert_eq!(sent(&client.cmd_desc("u", "c")), "GET CMDDESC u c\n");
    assert_eq!(sent(&client.request_list("UPS", "")), list_line("UPS", ""));
}

fn failing(last: Event) -> String {
    let mut client = NutClient::new("host", 3493);
    let mut ex = client.list_vars("u");
    client.handle(&mut ex, Event::Opened);
    client.handle(&mut ex, Event::Sent);
    client.handle(&mut ex, line("BEGIN LIST VAR u\n"));
    client.handle(&mut ex, last);
    assert!(ex.stage == Stage::Failed);
    assert!(matches!(ex.action(), Action::Done));
    // The connection is dropped: the next exchange opens a new one.
    assert!(!client.connected);
    assert!(matches!(client.list_vars("u").action(), Action::Open));
    ex.error
}

#[test]
fn failures_drop_the_connection() {
    assert_eq!(failing(line("ERR UNKNOWN-UPS\n")), "upsd: UNKNOWN-UPS");
    assert_eq!(failing(Event::Eof), "connection closed by upsd");
    assert_eq!(failing(Event::Failed("timed out".into())), "timed out");
    let mut client = NutClient::new("host", 3493);
    let mut ex = client.list_ups();
    client.handle(&mut ex, Event::Failed("resolve host:3493".into()));
    assert!(ex.stage == Stage::Failed);
    assert_eq!(ex.error, "resolve host:3493");
    // What comes after the end changes nothing.
    client.handle(&mut ex, Event::Opened);
    assert!(ex.stage == Stage::Failed && !client.connected);
}

#[test]
fn unexpected_events_change_nothing() {
    let mut client = NutClient::new("host", 3493);
    let mut ex = client.list_ups();
    client.handle(&mut ex, Event::Sent);
    client.handle(&mut ex, line("UPS x\n"));
    assert!(ex.stage == Stage::Opening && ex.lines.is_empty());
}

#[test]
fn commands_with_their_descriptions() {
    let lines = strings(&["CMD u beeper.enable", "CMD u", "CMD u load.off extra", "odd"]);
    assert_eq!(cmds_in(&lines), ["beeper.enable", "load.off"]);
    let mut listing = CmdListing::new(&lines);
    assert_eq!(listing.next().as_deref(), Some("beeper.enable"));
    listing.describe(Some("CMDDESC u beeper.enable \"Enable the beeper\""));
    assert_eq!(listing.next().as_deref(), Some("load.off"));
    listing.describe(None);
    assert_eq!(listing.next(), None);
    listing.describe(Some("CMDDESC u x \"y\""));
    assert_eq!(
        listing.described,
        [
            ("beeper.enable".to_string(), "Enable the beeper".to_string()),
            ("load.off".to_string(), String::new()),
        ]
    );
}

#[test]
fn descriptions_in_one_line() {
    let mut client = NutClient::new("host", 1);
    client.connected = true;
    let mut ex = client.cmd_desc("u", "c");
    client.handle(&mut ex, Event::Sent);
    // A single line is the whole reply, whatever it says.
    client.handle(&mut ex, line("ERR CMD-NOT-SUPPORTED\n"));
    assert!(ex.stage == Stage::Finished && client.connected);
    assert_eq!(ex.lines, ["ERR CMD-NOT-SUPPORTED"]);
    assert_eq!(description_in(&ex.lines[0]), "");
    assert_eq!(description_in("CMDDESC u c \"Unavailable\""), "");
    assert_eq!(description_in("CMDDESC u c \"Start a deep test\""), "Start a deep test");
    assert_eq!(description_in("CMDDESC u c"), "");
}

#[test]
fn devices_with_and_without_description() {
    let lines = strings(&["UPS one \"Rack \\\"A\\\"\"", "UPS two", "VAR x y \"z\"", "UPS three \"\""]);
    assert_eq!(
        ups_in(&lines),
        [
            ("one".to_string(), "Rack \"A\"".to_string()),
            ("two".to_string(), String::new()),
            ("three".to_string(), String::new()),
        ]
    );
}

#[test]
fn writable_variables_are_named() {
    let lines = strings(&["RW u a \"1\"", "VAR u b \"2\"", "RW u c \"3\"", "RW u d"]);
    assert_eq!(rw_in(&lines), ["a", "c"]);
}

#[test]
fn quoting_comes_undone() {
    for v in ["", " ", "a b", "\\", "\"", "\\\"", "\\\\\"\"x\\", "ü\n", "\"quoted\""] {
        let on_wire = format!("\"{}\"", quote_value(v));
        assert_eq!(unquote(&on_wire), v);
        assert_eq!(unquote(&format!(" \t{on_wire}\r\n")), v);
        let l = format!("VAR u name {on_wire}  ");
        assert_eq!(parse_tagged_line(&l, "VAR"), Some(("name".to_string(), v.to_string())));
    }
    assert_eq!(quote_value("a\\b\"c"), "a\\\\b\\\"c");
    // A trailing backslash escapes nothing.
    assert_eq!(unquote("a\\"), "a");
    assert_eq!(unquote("\""), "\"");
}

fn next_send(a: &AuthedLine) -> String {
    match a.action() {
        Action::Send(text) => text,
        _ => panic!("nothing to send"),
    }
}

#[test]
fn login_then_request() {
    let mut a = instcmd("host", 3493, "myups", "beeper.enable", "admin", "pw");
    assert_eq!((a.host.as_str(), a.port), ("host", 3493));
    assert!(matches!(a.action(), Action::Open));
    assert!(a.result().is_none());
    a.handle(Event::Opened);
    assert_eq!(next_send(&a), "USERNAME admin\n");
    a.handle(Event::Sent);
    assert!(matches!(a.action(), Action::Read));
    a.handle(line("OK\n"));
    assert_eq!(next_send(&a), "PASSWORD pw\n");
    a.handle(Event::Sent);
    a.handle(line("OK\n"));
    assert_eq!(next_send(&a), inst_line("myups", "beeper.enable"));
    assert_eq!(next_send(&a), "INSTCMD myups beeper.enable\n");
    a.handle(Event::Sent);
    a.handle(line("OK TRACKING 1\r\n"));
    assert!(matches!(a.action(), Action::Done));
    assert_eq!(a.result(), Some(Ok("OK TRACKING 1".to_string())));
    // What comes after the end changes nothing.
    a.handle(Event::Failed("late".into()));
    assert_eq!(a.result(), Some(Ok("OK TRACKING 1".to_string())));
}

#[test]
fn refused_login_sends_no_request() {
    let mut a = set_var("host", 1, "u", "n", "15", "user", "pass");
    a.handle(Event::Opened);
    a.handle(Event::Sent);
    a.handle(line("ERR INVALID-USERNAME\n"));
    assert_eq!(a.result(), Some(Err("USERNAME: ERR INVALID-USERNAME".to_string())));

    let mut a = set_var("host", 1, "u", "n", "15", "user", "pass");
    a.handle(Event::Opened);
    a.handle(Event::Sent);
    a.handle(line("OK\n"));
    a.handle(Event::Sent);
    a.handle(line("ERR INVALID-PASSWORD\n"));
    assert_eq!(a.result(), Some(Err("PASSWORD: ERR INVALID-PASSWORD".to_string())));

    // A server that hangs up has said nothing.
    let mut a = set_var("host", 1, "u", "n", "15", "user", "pass");
    a.handle(Event::Opened);
    a.handle(Event::Sent);
    a.handle(Event::Eof);
    assert_eq!(a.result(), Some(Err("USERNAME: ".to_string())));
}

#[test]
fn authenticated_request_fails_with_its_connection() {
    let mut a = set_var("host", 1, "u", "n", "15", "user", "pass");
    a.handle(Event::Failed("connect host:1: refused".into()));
    assert_eq!(a.result(), Some(Err("connect host:1: refused".to_string())));

    // The reply to the request itself may be empty.
    let mut a = set_var("host", 1, "u", "n", "15", "user", "pass");
    a.handle(Event::Opened);
    for _ in 0..2 {
        a.handle(Event::Sent);
        a.handle(line("OK\n"));
    }
    assert_eq!(next_send(&a), "SET VAR u n \"15\"\n");
    a.handle(Event::Sent);
    assert!(a.stage == AuthStage::ReadReply);
    a.handle(Event::Eof);
    assert_eq!(a.result(), Some(Ok(String::new())));
}

#[test]
fn connection_errors_name_the_server() {
    assert_eq!(address_text("::1", 3493), "::1:3493");
    assert_eq!(connect_error("h", 80, Some("refused")), "connect h:80: refused");
    assert_eq!(
        connect_error("h", 0, None),
        "connect h:0: hostname resolved to no addresses"
    );
}

#[test]
fn addresses_are_tried_in_order() {
    let mut d = Dialer::new("h", 80, 3);
    assert!(matches!(d.task(), DialTask::Try(0)));
    d.tried(Some("refused".into()));
    assert!(matches!(d.task(), DialTask::Try(1)));
    d.tried(None);
    assert!(matches!(d.task(), DialTask::Use(1)));
    // The search is over.
    d.tried(Some("late".into()));
    assert!(matches!(d.task(), DialTask::Use(1)));

    let mut d = Dialer::new("h", 80, 2);
    d.tried(Some("refused".into()));
    d.tried(Some("timed out".into()));
    assert!(matches!(d.task(), DialTask::GiveUp(why) if why == "connect h:80: timed out"));
    d.tried(None);
    assert!(matches!(d.task(), DialTask::GiveUp(_)));

    let d = Dialer::new("h", 80, 0);
    assert!(matches!(
        d.task(),
        DialTask::GiveUp(why) if why == "connect h:80: hostname resolved to no addresses"
    ));
}

#[test]
fn escapes_come_back() {
    for w in ["", "plain", "a\\\\b", "\\\"", "x\\\"y\\\\z"] {
        assert_eq!(quote_value(&unquote(&format!("\"{w}\""))), w);
    }
    // Escapes that were not needed are not put back.
    assert_eq!(quote_value(&unquote("\"a\\b\"")), "ab");
}
