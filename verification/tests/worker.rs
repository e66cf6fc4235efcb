use nuttty::app::{Update, WorkerCmd};
use nuttty::client::{Action, Event};
use nuttty::vars::VarMap;
use nuttty::worker::{Report, Task, Worker};

fn worker(user: Option<&str>, pass: Option<&str>) -> Worker {
    Worker::new(
        "myups".into(),
        "host".into(),
        3493,
        user.map(String::from),
        pass.map(String::from),
    )
}

fn polled() -> Report {
    let mut vars = VarMap::new();
    vars.insert("ups.status".into(), "OL".into());
    Report::Polled(Ok(vars))
}

/// A worker that waits for a command, with both lists handed on.
fn waiting(user: Option<&str>, pass: Option<&str>) -> Worker {
    let mut w = worker(user, pass);
    w.step(polled());
    w.step(Report::Told(true));
    w.step(Report::Cmds(Some(vec![])));
    w.step(Report::Told(true));
    w.step(Report::Rw(Some(vec![])));
    assert!(matches!(w.step(Report::Told(true)), Task::Wait));
    w
}

#[test]
fn first_poll_brings_the_lists() {
    let mut w = worker(None, None);
    assert!(matches!(w.step(polled()), Task::Tell(Update::Vars(v)) if v.get("ups.status") == Some("OL")));
    assert!(matches!(w.step(Report::Told(true)), Task::ListCmds));
    let cmds = vec![("c".to_string(), "d".to_string())];
    assert!(matches!(
        w.step(Report::Cmds(Some(cmds.clone()))),
        Task::Tell(Update::Cmds(c)) if c == cmds
    ));
    assert!(matches!(w.step(Report::Told(true)), Task::ListRw));
    assert!(matches!(
        w.step(Report::Rw(Some(vec!["v".to_string()]))),
        Task::Tell(Update::Rw(r)) if r == ["v"]
    ));
    assert!(matches!(w.step(Report::Told(true)), Task::Wait));
    assert!(matches!(w.step(Report::Timeout), Task::Poll));
    // They are not asked for again.
    w.step(polled());
    assert!(matches!(w.step(Report::Told(true)), Task::Wait));
}

#[test]
fn lists_that_failed_are_asked_for_again() {
    let mut w = worker(None, None);
    w.step(polled());
    w.step(Report::Told(true));
    assert!(matches!(w.step(Report::Cmds(None)), Task::ListRw));
    assert!(matches!(w.step(Report::Rw(None)), Task::Wait));
    w.step(Report::Timeout);
    w.step(polled());
    assert!(matches!(w.step(Report::Told(true)), Task::ListCmds));
}

#[test]
fn failed_poll_is_told_and_nothing_is_listed() {
    let mut w = worker(None, None);
    assert!(matches!(
        w.step(Report::Polled(Err("gone".into()))),
        Task::Tell(Update::Error(e)) if e == "gone"
    ));
    assert!(matches!(w.step(Report::Told(true)), Task::Wait));
}

fn result(task: Task) -> (String, String) {
    match task {
        Task::Tell(Update::CmdResult { cmd, result }) => (cmd, result),
        _ => panic!("no result"),
    }
}

#[test]
fn command_runs_and_a_poll_follows() {
    let mut w = waiting(Some("admin"), Some("pw"));
    let mut line = match w.step(Report::Command(WorkerCmd::Inst("beeper.enable".into()))) {
        Task::Run(line) => line,
        _ => panic!("nothing to run"),
    };
    assert_eq!((line.host.as_str(), line.port), ("host", 3493));
    line.handle(Event::Opened);
    assert!(matches!(line.action(), Action::Send(s) if s == "USERNAME admin\n"));
    assert_eq!(line.pass, "pw");
    assert_eq!(line.request, "INSTCMD myups beeper.enable\n");
    let told = result(w.step(Report::Ran(Ok("OK".into()))));
    assert_eq!(told, ("beeper.enable".to_string(), "OK".to_string()));
    assert!(matches!(w.step(Report::Told(true)), Task::Poll));
}

#[test]
fn setting_a_variable() {
    let mut w = waiting(Some("admin"), Some("pw"));
    let task = w.step(Report::Command(WorkerCmd::SetVar {
        name: "input.transfer.low".into(),
        value: "160".into(),
    }));
    assert!(matches!(
        task,
        Task::Run(line) if line.request == "SET VAR myups input.transfer.low \"160\"\n"
    ));
    let told = result(w.step(Report::Ran(Err("timed out".into()))));
    assert_eq!(told, ("set input.transfer.low".to_string(), "ERR timed out".to_string()));
}

#[test]
fn commands_need_credentials() {
    for (user, pass) in [(None, None), (Some("u"), None), (None, Some("p"))] {
        let mut w = waiting(user, pass);
        let (cmd, said) = result(w.step(Report::Command(WorkerCmd::Inst("load.on".into()))));
        assert_eq!(cmd, "load.on");
        assert_eq!(
            said,
            "ERR no credentials — pass --user/--password or set NUTTTY_USER/NUTTTY_PASSWORD"
        );
        assert!(matches!(w.step(Report::Told(true)), Task::Poll));
    }
}

#[test]
fn worker_ends_with_the_dashboard() {
    let mut w = worker(None, None);
    w.step(polled());
    assert!(matches!(w.step(Report::Told(false)), Task::Stop));
    let mut w = waiting(None, None);
    assert!(matches!(w.step(Report::Disconnected), Task::Stop));
    assert!(matches!(w.step(polled()), Task::Stop));
}
