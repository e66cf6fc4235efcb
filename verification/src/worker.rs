//! The polling side: what it does in turn, decided step by step.
//!
//! A [`Worker`] says what has to be done next as a [`Task`]. Whoever runs it
//! does that and reports what came of it as a [`Report`].

use vstd::prelude::*;

use crate::app::{Update, UpdateModel, WorkerCmd, WorkerCmdModel};
use crate::auth;
use crate::auth::{AuthedLine, AuthedModel};
use crate::input;
use crate::nut;
use crate::text;
use crate::vars::VarMap;

verus! {

/// What the polling side has to do next.
pub enum Task {
    /// Ask for all variables.
    Poll,
    /// Hand this to the dashboard.
    Tell(Update),
    /// Ask which commands the device supports.
    ListCmds,
    /// Ask which variables can be set.
    ListRw,
    /// Wait for a command until the next poll is due.
    Wait,
    /// Send this authenticated request.
    Run(AuthedLine),
    /// End.
    Stop,
}

/// A [`Task`], its texts taken by their characters.
pub enum TaskModel {
    Poll,
    Tell(UpdateModel),
    ListCmds,
    ListRw,
    Wait,
    Run(AuthedModel),
    Stop,
}

impl View for Task {
    type V = TaskModel;

    open spec fn view(&self) -> TaskModel {
        match *self {
            Task::Poll => TaskModel::Poll,
            Task::Tell(u) => TaskModel::Tell(u@),
            Task::ListCmds => TaskModel::ListCmds,
            Task::ListRw => TaskModel::ListRw,
            Task::Wait => TaskModel::Wait,
            Task::Run(a) => TaskModel::Run(a@),
            Task::Stop => TaskModel::Stop,
        }
    }
}

/// What came of a task.
pub enum Report {
    /// The variables, or why there are none.
    Polled(Result<VarMap, String>),
    /// Whether the dashboard is still there to take news.
    Told(bool),
    /// The commands, if they could be had.
    Cmds(Option<Vec<(String, String)>>),
    /// The variables that can be set, if they could be had.
    Rw(Option<Vec<String>>),
    /// The dashboard wants this done.
    Command(WorkerCmd),
    /// The next poll is due.
    Timeout,
    /// The dashboard is gone.
    Disconnected,
    /// The reply to a request, or why there is none.
    Ran(Result<String, String>),
}

/// A [`Report`], its texts taken by their characters.
pub enum ReportModel {
    Polled(Result<Map<Seq<char>, Seq<char>>, Seq<char>>),
    Told(bool),
    Cmds(Option<Seq<(Seq<char>, Seq<char>)>>),
    Rw(Option<Seq<Seq<char>>>),
    Command(WorkerCmdModel),
    Timeout,
    Disconnected,
    Ran(Result<Seq<char>, Seq<char>>),
}

impl View for Report {
    type V = ReportModel;

    open spec fn view(&self) -> ReportModel {
        match *self {
            Report::Polled(Ok(v)) => ReportModel::Polled(Ok(v@)),
            Report::Polled(Err(e)) => ReportModel::Polled(Err(e@)),
            Report::Told(there) => ReportModel::Told(there),
            Report::Cmds(Some(c)) => ReportModel::Cmds(Some(text::pairs_view(c@))),
            Report::Cmds(None) => ReportModel::Cmds(None),
            Report::Rw(Some(r)) => ReportModel::Rw(Some(text::strings_view(r@))),
            Report::Rw(None) => ReportModel::Rw(None),
            Report::Command(c) => ReportModel::Command(c@),
            Report::Timeout => ReportModel::Timeout,
            Report::Disconnected => ReportModel::Disconnected,
            Report::Ran(Ok(r)) => ReportModel::Ran(Ok(r@)),
            Report::Ran(Err(e)) => ReportModel::Ran(Err(e@)),
        }
    }
}

/// What the polling side waits for.
#[derive(Clone, Copy, Debug, PartialEq, Eq, Structural)]
pub enum Phase {
    /// The variables.
    Polling,
    /// That they were handed on; whether the poll had succeeded.
    TellingPoll(bool),
    /// The commands.
    ListingCmds,
    /// That they were handed on.
    TellingCmds,
    /// The variables that can be set.
    ListingRw,
    /// That they were handed on.
    TellingRw,
    /// A command from the dashboard.
    Waiting,
    /// The reply to a request.
    Running,
    /// That it was handed on.
    TellingResult,
    /// Nothing more.
    Stopped,
}

/// The polling side.
pub struct Worker {
    pub ups: String,
    pub host: String,
    pub port: u16,
    pub user: Option<String>,
    pub pass: Option<String>,
    /// Whether the commands have been handed on.
    pub cmds_sent: bool,
    /// Whether the variables that can be set have been handed on.
    pub rw_sent: bool,
    /// How the log calls the request that is running.
    pub label: String,
    pub phase: Phase,
}

/// A [`Worker`], its texts taken by their characters.
#[verifier::ext_equal]
pub struct WorkerModel {
    pub ups: Seq<char>,
    pub host: Seq<char>,
    pub port: u16,
    pub user: Option<Seq<char>>,
    pub pass: Option<Seq<char>>,
    pub cmds_sent: bool,
    pub rw_sent: bool,
    pub label: Seq<char>,
    pub phase: Phase,
}

impl View for Worker {
    type V = WorkerModel;

    open spec fn view(&self) -> WorkerModel {
        WorkerModel {
            ups: self.ups@,
            host: self.host@,
            port: self.port,
            user: text::opt_view(self.user),
            pass: text::opt_view(self.pass),
            cmds_sent: self.cmds_sent,
            rw_sent: self.rw_sent,
            label: self.label@,
            phase: self.phase,
        }
    }
}

/// The polling side at its start; its first task is to poll.
pub open spec fn fresh(
    ups: Seq<char>,
    host: Seq<char>,
    port: u16,
    user: Option<Seq<char>>,
    pass: Option<Seq<char>>,
) -> WorkerModel {
    WorkerModel {
        ups,
        host,
        port,
        user,
        pass,
        cmds_sent: false,
        rw_sent: false,
        label: Seq::empty(),
        phase: Phase::Polling,
    }
}

pub open spec fn at(w: WorkerModel, phase: Phase) -> WorkerModel {
    WorkerModel { phase, ..w }
}

/// The end.
pub open spec fn stopped(w: WorkerModel) -> (WorkerModel, TaskModel) {
    (at(w, Phase::Stopped), TaskModel::Stop)
}

/// On to the variables that can be set, which are asked for once.
pub open spec fn then_rw(w: WorkerModel) -> (WorkerModel, TaskModel) {
    if w.rw_sent {
        (at(w, Phase::Waiting), TaskModel::Wait)
    } else {
        (at(w, Phase::ListingRw), TaskModel::ListRw)
    }
}

/// On to the commands. What a device supports does not change: it is asked for
/// once, after the first successful poll proves that the connection works.
pub open spec fn then_lists(w: WorkerModel, polled_ok: bool) -> (WorkerModel, TaskModel) {
    if !polled_ok {
        (at(w, Phase::Waiting), TaskModel::Wait)
    } else if w.cmds_sent {
        then_rw(w)
    } else {
        (at(w, Phase::ListingCmds), TaskModel::ListCmds)
    }
}

/// What is said of a command for which there is no user or no password.
pub open spec fn no_credentials() -> Seq<char> {
    "ERR no credentials — pass --user/--password or set NUTTTY_USER/NUTTTY_PASSWORD"@
}

/// How the log calls a command.
pub open spec fn label_of(c: WorkerCmdModel) -> Seq<char> {
    match c {
        WorkerCmdModel::Inst(cmd) => cmd,
        WorkerCmdModel::SetVar { name, value } => input::set_label(name),
    }
}

/// The request that carries out a command.
pub open spec fn request_of(w: WorkerModel, c: WorkerCmdModel) -> Seq<char> {
    match c {
        WorkerCmdModel::Inst(cmd) => nut::inst_request(w.ups, cmd),
        WorkerCmdModel::SetVar { name, value } => nut::set_request(w.ups, name, value),
    }
}

/// A command is run at once, on a connection of its own, if there are a user and a
/// password for it.
pub open spec fn commanded(w: WorkerModel, c: WorkerCmdModel) -> (WorkerModel, TaskModel) {
    match (w.user, w.pass) {
        (Some(user), Some(pass)) => (
            WorkerModel { label: label_of(c), phase: Phase::Running, ..w },
            TaskModel::Run(auth::fresh(w.host, w.port, user, pass, request_of(w, c))),
        ),
        _ => (
            at(w, Phase::TellingResult),
            TaskModel::Tell(
                UpdateModel::CmdResult { cmd: label_of(c), result: no_credentials() },
            ),
        ),
    }
}

/// The polling side after a report, and its next task. A report that does not
/// answer the last task ends it.
pub open spec fn after(w: WorkerModel, r: ReportModel) -> (WorkerModel, TaskModel) {
    match (w.phase, r) {
        (Phase::Polling, ReportModel::Polled(Ok(v))) => (
            at(w, Phase::TellingPoll(true)),
            TaskModel::Tell(UpdateModel::Vars(v)),
        ),
        (Phase::Polling, ReportModel::Polled(Err(e))) => (
            at(w, Phase::TellingPoll(false)),
            TaskModel::Tell(UpdateModel::Error(e)),
        ),
        (Phase::TellingPoll(polled_ok), ReportModel::Told(true)) => then_lists(w, polled_ok),
        (Phase::ListingCmds, ReportModel::Cmds(Some(c))) => (
            WorkerModel { cmds_sent: true, phase: Phase::TellingCmds, ..w },
            TaskModel::Tell(UpdateModel::Cmds(c)),
        ),
        (Phase::ListingCmds, ReportModel::Cmds(None)) => then_rw(w),
        (Phase::TellingCmds, ReportModel::Told(true)) => then_rw(w),
        (Phase::ListingRw, ReportModel::Rw(Some(names))) => (
            WorkerModel { rw_sent: true, phase: Phase::TellingRw, ..w },
            TaskModel::Tell(UpdateModel::Rw(names)),
        ),
        (Phase::ListingRw, ReportModel::Rw(None)) => (at(w, Phase::Waiting), TaskModel::Wait),
        (Phase::TellingRw, ReportModel::Told(true)) => (at(w, Phase::Waiting), TaskModel::Wait),
        (Phase::Waiting, ReportModel::Command(c)) => commanded(w, c),
        (Phase::Waiting, ReportModel::Timeout) => (at(w, Phase::Polling), TaskModel::Poll),
        (Phase::Running, ReportModel::Ran(Ok(reply))) => (
            at(w, Phase::TellingResult),
            TaskModel::Tell(UpdateModel::CmdResult { cmd: w.label, result: reply }),
        ),
        (Phase::Running, ReportModel::Ran(Err(e))) => (
            at(w, Phase::TellingResult),
            TaskModel::Tell(UpdateModel::CmdResult { cmd: w.label, result: "ERR "@ + e }),
        ),
        (Phase::TellingResult, ReportModel::Told(true)) => (at(w, Phase::Polling), TaskModel::Poll),
        _ => stopped(w),
    }
}

impl Worker {
    /// The polling side at its start; its first task is to poll.
    pub fn new(
        ups: String,
        host: String,
        port: u16,
        user: Option<String>,
        pass: Option<String>,
    ) -> (res: Self)
        ensures
            res@ == fresh(ups@, host@, port, text::opt_view(user), text::opt_view(pass)),
    {
        Worker {
            ups,
            host,
            port,
            user,
            pass,
            cmds_sent: false,
            rw_sent: false,
            label: String::new(),
            phase: Phase::Polling,
        }
    }

    fn stop(&mut self) -> (res: Task)
        ensures
            (final(self)@, res@) == stopped(old(self)@),
    {
        self.phase = Phase::Stopped;
        Task::Stop
    }

    fn go_on_to_rw(&mut self) -> (res: Task)
        ensures
            (final(self)@, res@) == then_rw(old(self)@),
    {
        if self.rw_sent {
            self.phase = Phase::Waiting;
            Task::Wait
        } else {
            self.phase = Phase::ListingRw;
            Task::ListRw
        }
    }

    fn go_on_to_lists(&mut self, polled_ok: bool) -> (res: Task)
        ensures
            (final(self)@, res@) == then_lists(old(self)@, polled_ok),
    {
        if !polled_ok {
            self.phase = Phase::Waiting;
            Task::Wait
        } else if self.cmds_sent {
            self.go_on_to_rw()
        } else {
            self.phase = Phase::ListingCmds;
            Task::ListCmds
        }
    }

    fn command(&mut self, c: WorkerCmd) -> (res: Task)
        ensures
            (final(self)@, res@) == commanded(old(self)@, c@),
    {
        let label: String = match &c {
            WorkerCmd::Inst(cmd) => cmd.clone(),
            WorkerCmd::SetVar { name, value: _ } => input::set_label_text(name.as_str()),
        };
        match (&self.user, &self.pass) {
            (Some(user), Some(pass)) => {
                let line: AuthedLine = match &c {
                    WorkerCmd::Inst(cmd) => auth::instcmd(
                        self.host.as_str(),
                        self.port,
                        self.ups.as_str(),
                        cmd.as_str(),
                        user.as_str(),
                        pass.as_str(),
                    ),
                    WorkerCmd::SetVar { name, value } => auth::set_var(
                        self.host.as_str(),
                        self.port,
                        self.ups.as_str(),
                        name.as_str(),
                        value.as_str(),
                        user.as_str(),
                        pass.as_str(),
                    ),
                };
                self.label = label;
                self.phase = Phase::Running;
                Task::Run(line)
            },
            _ => {
                self.phase = Phase::TellingResult;
                Task::Tell(
                    Update::CmdResult {
                        cmd: label,
                        result:
                            "ERR no credentials — pass --user/--password or set NUTTTY_USER/NUTTTY_PASSWORD".to_owned(),
                    },
                )
            },
        }
    }

    /// Takes a report, and gives the next task.
    pub fn step(&mut self, r: Report) -> (res: Task)
        ensures
            (final(self)@, res@) == after(old(self)@, r@),
    {
        match (self.phase, r) {
            (Phase::Polling, Report::Polled(Ok(v))) => {
                self.phase = Phase::TellingPoll(true);
                Task::Tell(Update::Vars(v))
            },
            (Phase::Polling, Report::Polled(Err(e))) => {
                self.phase = Phase::TellingPoll(false);
                Task::Tell(Update::Error(e))
            },
            (Phase::TellingPoll(polled_ok), Report::Told(true)) => self.go_on_to_lists(polled_ok),
            (Phase::ListingCmds, Report::Cmds(Some(c))) => {
                self.cmds_sent = true;
                self.phase = Phase::TellingCmds;
                Task::Tell(Update::Cmds(c))
            },
            (Phase::ListingCmds, Report::Cmds(None)) => self.go_on_to_rw(),
            (Phase::TellingCmds, Report::Told(true)) => self.go_on_to_rw(),
            (Phase::ListingRw, Report::Rw(Some(names))) => {
                self.rw_sent = true;
                self.phase = Phase::TellingRw;
                Task::Tell(Update::Rw(names))
            },
            (Phase::ListingRw, Report::Rw(None)) => {
                self.phase = Phase::Waiting;
                Task::Wait
            },
            (Phase::TellingRw, Report::Told(true)) => {
                self.phase = Phase::Waiting;
                Task::Wait
            },
            (Phase::Waiting, Report::Command(c)) => self.command(c),
            (Phase::Waiting, Report::Timeout) => {
                self.phase = Phase::Polling;
                Task::Poll
            },
            (Phase::Running, Report::Ran(Ok(reply))) => {
                self.phase = Phase::TellingResult;
                Task::Tell(Update::CmdResult { cmd: self.label.clone(), result: reply })
            },
            (Phase::Running, Report::Ran(Err(e))) => {
                let mut result: String = "ERR ".to_owned();
                result.append(e.as_str());
                self.phase = Phase::TellingResult;
                Task::Tell(Update::CmdResult { cmd: self.label.clone(), result })
            },
            (Phase::TellingResult, Report::Told(true)) => {
                self.phase = Phase::Polling;
                Task::Poll
            },
            _ => self.stop(),
        }
    }
}

// -------------------------------------------------------------------- laws

/// Once the commands have been handed on they are not asked for again, and the
/// same goes for the variables that can be set.
pub proof fn lists_are_asked_for_once(w: WorkerModel, r: ReportModel)
    ensures
        w.cmds_sent ==> after(w, r).0.cmds_sent && !(after(w, r).1 is ListCmds),
        w.rw_sent ==> after(w, r).0.rw_sent && !(after(w, r).1 is ListRw),
        after(w, r).1 matches TaskModel::Tell(UpdateModel::Cmds(_)) ==> after(w, r).0.cmds_sent,
        after(w, r).1 matches TaskModel::Tell(UpdateModel::Rw(_)) ==> after(w, r).0.rw_sent,
{
}

/// The commands are asked for only right after a poll that succeeded.
pub proof fn commands_follow_a_good_poll(w: WorkerModel, r: ReportModel)
    requires
        after(w, r).1 is ListCmds,
    ensures
        w.phase == Phase::TellingPoll(true),
{
}

/// A command is carried out as soon as it comes, and once its result has been
/// handed on a fresh poll follows at once.
pub proof fn command_runs_then_polls(
    w: WorkerModel,
    c: WorkerCmdModel,
    user: Seq<char>,
    pass: Seq<char>,
    reply: Seq<char>,
)
    requires
        w.phase == Phase::Waiting,
        w.user == Some(user),
        w.pass == Some(pass),
    ensures
        ({
            let (running, task) = after(w, ReportModel::Command(c));
            let (telling, told) = after(running, ReportModel::Ran(Ok(reply)));
            let (polling, next) = after(telling, ReportModel::Told(true));
            &&& task == TaskModel::Run(auth::fresh(w.host, w.port, user, pass, request_of(w, c)))
            &&& told == TaskModel::Tell(
                UpdateModel::CmdResult { cmd: label_of(c), result: reply },
            )
            &&& next is Poll
        }),
{
}

/// Without a user or without a password nothing is sent to the server: the result
/// is that there are no credentials.
pub proof fn no_request_without_credentials(w: WorkerModel, c: WorkerCmdModel)
    requires
        w.phase == Phase::Waiting,
        w.user is None || w.pass is None,
    ensures
        after(w, ReportModel::Command(c)).1 == TaskModel::Tell(
            UpdateModel::CmdResult { cmd: label_of(c), result: no_credentials() },
        ),
{
}

/// When the dashboard is gone the polling side ends.
pub proof fn ends_with_the_dashboard(w: WorkerModel)
    ensures
        after(w, ReportModel::Told(false)).1 is Stop,
        after(w, ReportModel::Disconnected).1 is Stop,
{
}

} // verus!
