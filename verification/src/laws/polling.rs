//! Promises of the polling side: what it does after what, and what it tells the
//! dashboard.

use vstd::prelude::*;

use crate::app::{UpdateModel, WorkerCmdModel};
use crate::auth;
use crate::nut;
use crate::worker;
use crate::worker::{Phase, ReportModel, TaskModel, WorkerModel};

verus! {

/// The polling side in another phase.
pub open spec fn in_phase(w: WorkerModel, phase: Phase) -> WorkerModel {
    WorkerModel { phase, ..w }
}

/// The polling side starts with a poll, with nothing handed on yet.
pub proof fn starts_with_a_poll(
    ups: Seq<char>,
    host: Seq<char>,
    port: u16,
    user: Option<Seq<char>>,
    pass: Option<Seq<char>>,
)
    ensures
        ({
            let w = worker::fresh(ups, host, port, user, pass);
            &&& w.ups == ups && w.host == host && w.port == port
            &&& w.user == user && w.pass == pass
            &&& !w.cmds_sent && !w.rw_sent
            &&& w.phase == Phase::Polling
        }),
{
}

/// A poll is handed to the dashboard as it came: the variables, or why there are none.
pub proof fn poll_is_told(w: WorkerModel, v: Map<Seq<char>, Seq<char>>, e: Seq<char>)
    requires
        w.phase == Phase::Polling,
    ensures
        worker::after(w, ReportModel::Polled(Ok(v))) == (
            in_phase(w, Phase::TellingPoll(true)),
            TaskModel::Tell(UpdateModel::Vars(v)),
        ),
        worker::after(w, ReportModel::Polled(Err(e))) == (
            in_phase(w, Phase::TellingPoll(false)),
            TaskModel::Tell(UpdateModel::Error(e)),
        ),
{
}

/// After a poll that failed there is nothing to do but wait. After one that succeeded
/// the commands are asked for, unless they were handed on already, then the variables
/// that can be set, unless they were.
pub proof fn lists_follow_a_good_poll(w: WorkerModel)
    ensures
        w.phase == Phase::TellingPoll(false) ==> worker::after(w, ReportModel::Told(true)) == (
            in_phase(w, Phase::Waiting),
            TaskModel::Wait,
        ),
        w.phase == Phase::TellingPoll(true) && !w.cmds_sent ==> worker::after(
            w,
            ReportModel::Told(true),
        ) == (in_phase(w, Phase::ListingCmds), TaskModel::ListCmds),
        w.phase == Phase::TellingPoll(true) && w.cmds_sent && !w.rw_sent ==> worker::after(
            w,
            ReportModel::Told(true),
        ) == (in_phase(w, Phase::ListingRw), TaskModel::ListRw),
        w.phase == Phase::TellingPoll(true) && w.cmds_sent && w.rw_sent ==> worker::after(
            w,
            ReportModel::Told(true),
        ) == (in_phase(w, Phase::Waiting), TaskModel::Wait),
{
}

/// The commands are handed on as they came, and then not asked for again. Where they
/// could not be had, they stay to be asked for after the next good poll. Either way the
/// variables that can be set are next, unless they were handed on.
pub proof fn commands_are_handed_on(w: WorkerModel, c: Seq<(Seq<char>, Seq<char>)>)
    ensures
        w.phase == Phase::ListingCmds ==> worker::after(w, ReportModel::Cmds(Some(c))) == (
            WorkerModel { cmds_sent: true, ..in_phase(w, Phase::TellingCmds) },
            TaskModel::Tell(UpdateModel::Cmds(c)),
        ),
        w.phase == Phase::ListingCmds && !w.rw_sent ==> worker::after(w, ReportModel::Cmds(None))
            == (in_phase(w, Phase::ListingRw), TaskModel::ListRw),
        w.phase == Phase::ListingCmds && w.rw_sent ==> worker::after(w, ReportModel::Cmds(None)) == (
            in_phase(w, Phase::Waiting),
            TaskModel::Wait,
        ),
        w.phase == Phase::TellingCmds && !w.rw_sent ==> worker::after(w, ReportModel::Told(true))
            == (in_phase(w, Phase::ListingRw), TaskModel::ListRw),
        w.phase == Phase::TellingCmds && w.rw_sent ==> worker::after(w, ReportModel::Told(true)) == (
            in_phase(w, Phase::Waiting),
            TaskModel::Wait,
        ),
{
}

/// The variables that can be set are handed on as they came, and then not asked for
/// again; where they could not be had, they stay to be asked for. Then the polling side
/// waits.
pub proof fn settable_variables_are_handed_on(w: WorkerModel, names: Seq<Seq<char>>)
    ensures
        w.phase == Phase::ListingRw ==> worker::after(w, ReportModel::Rw(Some(names))) == (
            WorkerModel { rw_sent: true, ..in_phase(w, Phase::TellingRw) },
            TaskModel::Tell(UpdateModel::Rw(names)),
        ),
        w.phase == Phase::ListingRw ==> worker::after(w, ReportModel::Rw(None)) == (
            in_phase(w, Phase::Waiting),
            TaskModel::Wait,
        ),
        w.phase == Phase::TellingRw ==> worker::after(w, ReportModel::Told(true)) == (
            in_phase(w, Phase::Waiting),
            TaskModel::Wait,
        ),
{
}

/// When the next poll is due it is made.
pub proof fn poll_when_due(w: WorkerModel)
    requires
        w.phase == Phase::Waiting,
    ensures
        worker::after(w, ReportModel::Timeout) == (in_phase(w, Phase::Polling), TaskModel::Poll),
{
}

/// An instant command is run with the user and the password, on a connection of its own
/// to the same server. Its reply is handed on under the command's name; a failure is
/// handed on with `ERR` before it. Then a poll follows at once.
pub proof fn instant_command_in_steps(
    w: WorkerModel,
    cmd: Seq<char>,
    user: Seq<char>,
    pass: Seq<char>,
    reply: Seq<char>,
)
    requires
        w.phase == Phase::Waiting,
        w.user == Some(user),
        w.pass == Some(pass),
    ensures
        ({
            let (running, run) = worker::after(w, ReportModel::Command(WorkerCmdModel::Inst(cmd)));
            let (telling, told) = worker::after(running, ReportModel::Ran(Ok(reply)));
            let (failing, failed) = worker::after(running, ReportModel::Ran(Err(reply)));
            &&& run == TaskModel::Run(
                auth::fresh(w.host, w.port, user, pass, nut::inst_request(w.ups, cmd)),
            )
            &&& running == (WorkerModel { label: cmd, ..in_phase(w, Phase::Running) })
            &&& told == TaskModel::Tell(UpdateModel::CmdResult { cmd, result: reply })
            &&& failed == TaskModel::Tell(UpdateModel::CmdResult { cmd, result: "ERR "@ + reply })
            &&& worker::after(telling, ReportModel::Told(true)) == (
                in_phase(running, Phase::Polling),
                TaskModel::Poll,
            )
            &&& worker::after(failing, ReportModel::Told(true)) == (
                in_phase(running, Phase::Polling),
                TaskModel::Poll,
            )
        }),
{
}

/// A variable is set in the same way, and called `set` and its name.
pub proof fn variable_is_set_in_steps(
    w: WorkerModel,
    name: Seq<char>,
    value: Seq<char>,
    user: Seq<char>,
    pass: Seq<char>,
    reply: Seq<char>,
)
    requires
        w.phase == Phase::Waiting,
        w.user == Some(user),
        w.pass == Some(pass),
    ensures
        ({
            let c = WorkerCmdModel::SetVar { name, value };
            let (running, run) = worker::after(w, ReportModel::Command(c));
            let (telling, told) = worker::after(running, ReportModel::Ran(Ok(reply)));
            let (failing, failed) = worker::after(running, ReportModel::Ran(Err(reply)));
            &&& run == TaskModel::Run(
                auth::fresh(w.host, w.port, user, pass, nut::set_request(w.ups, name, value)),
            )
            &&& running == (WorkerModel { label: "set "@ + name, ..in_phase(w, Phase::Running) })
            &&& told == TaskModel::Tell(
                UpdateModel::CmdResult { cmd: "set "@ + name, result: reply },
            )
            &&& failed == TaskModel::Tell(
                UpdateModel::CmdResult { cmd: "set "@ + name, result: "ERR "@ + reply },
            )
            &&& worker::after(telling, ReportModel::Told(true)).1 is Poll
            &&& worker::after(failing, ReportModel::Told(true)).1 is Poll
        }),
{
}

/// Without a user or without a password no request is sent: the dashboard is told how
/// to give them, under the name of what it wanted, and a poll follows.
pub proof fn credentials_are_asked_for(
    w: WorkerModel,
    cmd: Seq<char>,
    name: Seq<char>,
    value: Seq<char>,
)
    requires
        w.phase == Phase::Waiting,
        w.user is None || w.pass is None,
    ensures
        ({
            let result =
                "ERR no credentials — pass --user/--password or set NUTTTY_USER/NUTTTY_PASSWORD"@;
            let (one, told) = worker::after(w, ReportModel::Command(WorkerCmdModel::Inst(cmd)));
            let (other, told_too) = worker::after(
                w,
                ReportModel::Command(WorkerCmdModel::SetVar { name, value }),
            );
            &&& told == TaskModel::Tell(UpdateModel::CmdResult { cmd, result })
            &&& told_too == TaskModel::Tell(
                UpdateModel::CmdResult { cmd: "set "@ + name, result },
            )
            &&& one == in_phase(w, Phase::TellingResult)
            &&& other == in_phase(w, Phase::TellingResult)
            &&& worker::after(one, ReportModel::Told(true)) == (
                in_phase(w, Phase::Polling),
                TaskModel::Poll,
            )
        }),
{
}

/// A report answers a phase if it says what came of the task of that phase.
pub open spec fn answers(phase: Phase, r: ReportModel) -> bool {
    match phase {
        Phase::Polling => r is Polled,
        Phase::TellingPoll(_) | Phase::TellingCmds | Phase::TellingRw | Phase::TellingResult => r
            == ReportModel::Told(true),
        Phase::ListingCmds => r is Cmds,
        Phase::ListingRw => r is Rw,
        Phase::Waiting => r is Command || r is Timeout,
        Phase::Running => r is Ran,
        Phase::Stopped => false,
    }
}

/// The polling side goes on for as long as its tasks are answered, and ends when one is
/// not. What it polls, and as whom, never changes.
pub proof fn goes_on_while_answered(w: WorkerModel, r: ReportModel)
    ensures
        worker::after(w, r).1 is Stop <==> !answers(w.phase, r),
        worker::after(w, r).0.phase == Phase::Stopped <==> !answers(w.phase, r),
        ({
            let next = worker::after(w, r).0;
            &&& next.ups == w.ups && next.host == w.host && next.port == w.port
            &&& next.user == w.user && next.pass == w.pass
        }),
{
}

} // verus!
